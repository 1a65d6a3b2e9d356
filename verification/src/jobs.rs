//! Commands that take several steps of outside work (git, tmux, gh): each
//! is a job that names the next piece of work, is told how it went, and
//! decides what follows, until it is finished.
use vstd::prelude::*;

use crate::app::{
    branch_delete_failed, branch_delete_force, checkout_plan, find_pr, finish_work_unit, planned_checkout,
    pr_index, pr_session, pr_session_name, prefixed, session_to_kill, work_unit_finished, AppState,
    CheckoutPlan, WorkUnitOutcome,
};
use crate::config::Config;
use crate::domain::Pr;
use crate::ids::{valid_session_name, BranchName, RepoFullName, SessionName};
use crate::msg::{BranchDeleteMode, CreateWorkUnit, FetchKind};
use crate::screens::loaded_items;
use crate::widgets::{Toast, ToastLevel};

verus! {

/// A piece of outside work for the event loop.
pub enum Work {
    /// `git worktree remove --force <path>`, run in `repo_dir`.
    RemoveWorktree { repo_dir: String, path: String },
    /// `git branch -D <branch>` (forced) or `-d`, run in `repo_dir`.
    DeleteBranch { repo_dir: String, branch: BranchName, force: bool },
    /// `tmux kill-session -t <name>`; how it goes does not matter.
    KillSession(SessionName),
    /// `git worktree add` of `branch` at `path`, run in `repo_dir`.
    CreateWorktree {
        repo_dir: String,
        path: String,
        branch: BranchName,
        start_point: Option<BranchName>,
    },
    /// Whether the tmux session exists.
    HasSession(SessionName),
    /// `tmux new-session -d -s <name> -c <cwd>`.
    NewSession { name: SessionName, cwd: String },
    /// Check out pull request `number` in the worktree at `worktree`.
    CheckoutPr { worktree: String, number: u64 },
    /// Start a fetch; its result comes back on its own.
    Refresh { kind: FetchKind, force: bool },
    /// Nothing more to do.
    Finished,
}

/// How a piece of work went: done, failed with a message, or (for a
/// question) the answer.
pub enum Outcome {
    Succeeded,
    Failed(String),
    Answered(bool),
}

/// `a1` is `a0` with an error toast saying `msg`.
pub open spec fn error_toast(a0: AppState, a1: AppState, msg: Seq<char>) -> bool {
    &&& a1 == (AppState { toast: a1.toast, ..a0 })
    &&& a1.toast matches Some(t) && t.level == ToastLevel::Error && t.message@ == msg
}

// ---------------------------------------------------------------------
// Deleting a worktree
// ---------------------------------------------------------------------

/// Where the deletion of a worktree stands.
pub enum DeleteStage {
    Removing,
    DeletingBranch(bool),
    KillingSession,
    Refreshing,
    Done,
}

/// Deleting a worktree: remove it, then delete its branch as the mode says,
/// then kill its session, then rescan.
pub struct DeleteJob {
    pub main_repo: String,
    pub path: String,
    pub branch: BranchName,
    pub mode: BranchDeleteMode,
    pub kill: Option<SessionName>,
    pub stage: DeleteStage,
}

pub open spec fn delete_force(mode: BranchDeleteMode) -> Option<bool> {
    match mode {
        BranchDeleteMode::Keep => None,
        BranchDeleteMode::DeleteIfMerged => Some(false),
        BranchDeleteMode::Force => Some(true),
    }
}

/// What follows once the branch is dealt with: killing the session when
/// there is one to kill, else the rescan.
pub open spec fn after_branch(j0: DeleteJob, j1: DeleteJob, w: Work) -> bool {
    &&& j1 == (DeleteJob { stage: j1.stage, ..j0 })
    &&& match j0.kill {
        Some(n) => j1.stage is KillingSession && w == Work::KillSession(n),
        None => j1.stage is Refreshing && w == (Work::Refresh { kind: FetchKind::Repos, force: true }),
    }
}

/// What follows the removal of the worktree: deleting the branch unless the
/// mode keeps it.
pub open spec fn after_remove(j0: DeleteJob, j1: DeleteJob, w: Work) -> bool {
    match delete_force(j0.mode) {
        Some(force) => j1 == (DeleteJob { stage: DeleteStage::DeletingBranch(force), ..j0 })
            && w == (Work::DeleteBranch { repo_dir: j0.main_repo, branch: j0.branch, force }),
        None => after_branch(j0, j1, w),
    }
}

/// One step of a deletion. A failed removal ends the job with an error
/// toast; a failed branch deletion leaves a toast and the job goes on.
pub open spec fn delete_advanced(
    j0: DeleteJob,
    j1: DeleteJob,
    a0: AppState,
    a1: AppState,
    outcome: Outcome,
    w: Work,
) -> bool {
    match j0.stage {
        DeleteStage::Removing => match outcome {
            Outcome::Failed(e) => error_toast(a0, a1, "worktree remove failed: "@ + e@)
                && j1 == (DeleteJob { stage: DeleteStage::Done, ..j0 }) && w is Finished,
            _ => a1 == a0 && after_remove(j0, j1, w),
        },
        DeleteStage::DeletingBranch(force) => after_branch(j0, j1, w) && match outcome {
            Outcome::Failed(e) => a1 == (AppState { toast: a1.toast, ..a0 }) && (a1.toast matches Some(
                t,
            ) && if force {
                t.level == ToastLevel::Error && t.message@ == "force-delete failed: "@ + e@
            } else {
                t.level == ToastLevel::Info && t.message@ == "branch kept (not merged): "@ + e@
            }),
            _ => a1 == a0,
        },
        DeleteStage::KillingSession => a1 == a0 && j1 == (DeleteJob {
            stage: DeleteStage::Refreshing,
            ..j0
        }) && w == (Work::Refresh { kind: FetchKind::Repos, force: true }),
        _ => a1 == a0 && j1 == (DeleteJob { stage: DeleteStage::Done, ..j0 }) && w is Finished,
    }
}

impl DeleteJob {
    /// How many steps are left at most.
    pub open spec fn remaining(&self) -> nat {
        match self.stage {
            DeleteStage::Removing => 4,
            DeleteStage::DeletingBranch(_) => 3,
            DeleteStage::KillingSession => 2,
            DeleteStage::Refreshing => 1,
            DeleteStage::Done => 0,
        }
    }

    /// Start deleting the worktree at `path`, whose main clone is at
    /// `main_repo`: first the worktree is removed. Its session is killed
    /// only when the configuration says so.
    pub fn start(
        main_repo: String,
        path: String,
        branch: BranchName,
        mode: BranchDeleteMode,
        session: Option<SessionName>,
        config: &Config,
    ) -> (r: (DeleteJob, Work))
        ensures
            r.0.main_repo == main_repo,
            r.0.path == path,
            r.0.branch == branch,
            r.0.mode == mode,
            r.0.kill == (if config.tmux.kill_on_remove_worktree {
                session
            } else {
                None
            }),
            r.0.stage is Removing,
            r.1 == (Work::RemoveWorktree { repo_dir: main_repo, path }),
    {
        let kill = session_to_kill(config, session);
        let w = Work::RemoveWorktree { repo_dir: main_repo.clone(), path: path.clone() };
        (DeleteJob { main_repo, path, branch, mode, kill, stage: DeleteStage::Removing }, w)
    }

    fn next_after_branch(&mut self) -> (w: Work)
        ensures
            after_branch(*old(self), *final(self), w),
    {
        match &self.kill {
            Some(n) => {
                let n2 = n.clone();
                self.stage = DeleteStage::KillingSession;
                Work::KillSession(n2)
            },
            None => {
                self.stage = DeleteStage::Refreshing;
                Work::Refresh { kind: FetchKind::Repos, force: true }
            },
        }
    }

    /// The step after the last piece of work went as `outcome`.
    pub fn advance(&mut self, app: &mut AppState, outcome: Outcome) -> (w: Work)
        ensures
            delete_advanced(*old(self), *final(self), *old(app), *final(app), outcome, w),
            w is Finished <==> final(self).stage is Done,
            old(self).remaining() > 0 ==> final(self).remaining() < old(self).remaining(),
    {
        match self.stage {
            DeleteStage::Removing => match outcome {
                Outcome::Failed(e) => {
                    app.toast = Some(Toast::error(prefixed("worktree remove failed: ", &e)));
                    self.stage = DeleteStage::Done;
                    Work::Finished
                },
                _ => match branch_delete_force(self.mode) {
                    Some(force) => {
                        self.stage = DeleteStage::DeletingBranch(force);
                        Work::DeleteBranch {
                            repo_dir: self.main_repo.clone(),
                            branch: self.branch.clone(),
                            force,
                        }
                    },
                    None => self.next_after_branch(),
                },
            },
            DeleteStage::DeletingBranch(force) => {
                match outcome {
                    Outcome::Failed(e) => {
                        app.toast = Some(branch_delete_failed(force, &e));
                    },
                    _ => {},
                }
                self.next_after_branch()
            },
            DeleteStage::KillingSession => {
                self.stage = DeleteStage::Refreshing;
                Work::Refresh { kind: FetchKind::Repos, force: true }
            },
            _ => {
                self.stage = DeleteStage::Done;
                Work::Finished
            },
        }
    }
}

// ---------------------------------------------------------------------
// Creating a work unit
// ---------------------------------------------------------------------

/// Where the creation of a work unit stands.
pub enum CreateStage {
    Creating,
    Probing,
    Starting,
    Done,
}

/// Creating a work unit: add the worktree, then start its tmux session
/// unless one of that name exists.
pub struct CreateJob {
    pub spec: CreateWorkUnit,
    pub stage: CreateStage,
}

/// One step of a creation: a failed `git worktree add` ends it; an
/// existing session is reused; a session that cannot be started ends it.
pub open spec fn create_advanced(
    j0: CreateJob,
    j1: CreateJob,
    a0: AppState,
    a1: AppState,
    outcome: Outcome,
    w: Work,
) -> bool {
    &&& j1.spec == j0.spec
    &&& match j0.stage {
        CreateStage::Creating => match outcome {
            Outcome::Failed(e) => work_unit_finished(
                a0,
                a1,
                j0.spec,
                WorkUnitOutcome::WorktreeFailed(e),
            ) && j1.stage is Done && w is Finished,
            _ => a1 == a0 && j1.stage is Probing && w == Work::HasSession(j0.spec.session),
        },
        CreateStage::Probing => match outcome {
            Outcome::Answered(true) => work_unit_finished(a0, a1, j0.spec, WorkUnitOutcome::Created)
                && j1.stage is Done && w is Finished,
            _ => a1 == a0 && j1.stage is Starting && w == (Work::NewSession {
                name: j0.spec.session,
                cwd: j0.spec.worktree_path,
            }),
        },
        CreateStage::Starting => j1.stage is Done && w is Finished && match outcome {
            Outcome::Failed(e) => work_unit_finished(
                a0,
                a1,
                j0.spec,
                WorkUnitOutcome::SessionFailed(e),
            ),
            _ => work_unit_finished(a0, a1, j0.spec, WorkUnitOutcome::Created),
        },
        CreateStage::Done => a1 == a0 && j1.stage is Done && w is Finished,
    }
}

impl CreateJob {
    pub open spec fn remaining(&self) -> nat {
        match self.stage {
            CreateStage::Creating => 3,
            CreateStage::Probing => 2,
            CreateStage::Starting => 1,
            CreateStage::Done => 0,
        }
    }

    /// Start creating the work unit: first its worktree is added.
    pub fn start(spec: CreateWorkUnit) -> (r: (CreateJob, Work))
        ensures
            r.0.spec == spec,
            r.0.stage is Creating,
            r.1 == (Work::CreateWorktree {
                repo_dir: spec.repo_path,
                path: spec.worktree_path,
                branch: spec.branch,
                start_point: spec.start_point,
            }),
    {
        let start_point = match &spec.start_point {
            Some(b) => Some(b.clone()),
            None => None,
        };
        let w = Work::CreateWorktree {
            repo_dir: spec.repo_path.clone(),
            path: spec.worktree_path.clone(),
            branch: spec.branch.clone(),
            start_point,
        };
        (CreateJob { spec, stage: CreateStage::Creating }, w)
    }

    /// The step after the last piece of work went as `outcome`.
    pub fn advance(&mut self, app: &mut AppState, outcome: Outcome) -> (w: Work)
        ensures
            create_advanced(*old(self), *final(self), *old(app), *final(app), outcome, w),
            w is Finished <==> final(self).stage is Done,
            old(self).remaining() > 0 ==> final(self).remaining() < old(self).remaining(),
    {
        match self.stage {
            CreateStage::Creating => match outcome {
                Outcome::Failed(e) => {
                    finish_work_unit(app, &self.spec, WorkUnitOutcome::WorktreeFailed(e));
                    self.stage = CreateStage::Done;
                    Work::Finished
                },
                _ => {
                    self.stage = CreateStage::Probing;
                    Work::HasSession(self.spec.session.clone())
                },
            },
            CreateStage::Probing => match outcome {
                Outcome::Answered(true) => {
                    finish_work_unit(app, &self.spec, WorkUnitOutcome::Created);
                    self.stage = CreateStage::Done;
                    Work::Finished
                },
                _ => {
                    self.stage = CreateStage::Starting;
                    Work::NewSession {
                        name: self.spec.session.clone(),
                        cwd: self.spec.worktree_path.clone(),
                    }
                },
            },
            CreateStage::Starting => {
                match outcome {
                    Outcome::Failed(e) => {
                        finish_work_unit(app, &self.spec, WorkUnitOutcome::SessionFailed(e));
                    },
                    _ => {
                        finish_work_unit(app, &self.spec, WorkUnitOutcome::Created);
                    },
                }
                self.stage = CreateStage::Done;
                Work::Finished
            },
            CreateStage::Done => Work::Finished,
        }
    }
}

// ---------------------------------------------------------------------
// Checking out a pull request
// ---------------------------------------------------------------------

/// Where the checkout of a pull request stands.
pub enum CheckoutStage {
    Creating,
    CheckingOut,
    Starting(SessionName),
    Done,
}

/// Checking out a pull request into a new worktree: add the worktree on a
/// branch of its own, check the pull request out there, start a session and
/// queue it for attaching.
pub struct CheckoutJob {
    pub pr: Pr,
    pub plan: CheckoutPlan,
    pub stage: CheckoutStage,
}

/// One step of a checkout. A failed worktree or checkout ends it with an
/// error toast; once the session is started (whether or not tmux managed
/// to), it is queued for attaching.
pub open spec fn checkout_advanced(
    j0: CheckoutJob,
    j1: CheckoutJob,
    a0: AppState,
    a1: AppState,
    outcome: Outcome,
    w: Work,
) -> bool {
    &&& j1.pr == j0.pr
    &&& j1.plan == j0.plan
    &&& match j0.stage {
        CheckoutStage::Creating => match outcome {
            Outcome::Failed(e) => error_toast(a0, a1, "worktree creation failed: "@ + e@)
                && j1.stage is Done && w is Finished,
            _ => a1 == a0 && j1.stage is CheckingOut && w == (Work::CheckoutPr {
                worktree: j0.plan.worktree_path,
                number: j0.pr.number.0,
            }),
        },
        CheckoutStage::CheckingOut => match outcome {
            Outcome::Failed(e) => error_toast(a0, a1, "gh pr checkout failed: "@ + e@)
                && j1.stage is Done && w is Finished,
            _ => {
                let s = pr_session(j0.pr.repo@, j0.pr.number.0);
                if valid_session_name(s) {
                    a1 == a0 && (j1.stage matches CheckoutStage::Starting(n) && n@ == s && w == (
                    Work::NewSession { name: n, cwd: j0.plan.worktree_path }))
                } else {
                    error_toast(a0, a1, "invalid session name for PR"@) && j1.stage is Done
                        && w is Finished
                }
            },
        },
        CheckoutStage::Starting(n) => a1 == (AppState { pending_attach: Some(n), ..a0 })
            && j1.stage is Done && w is Finished,
        CheckoutStage::Done => a1 == a0 && j1.stage is Done && w is Finished,
    }
}

impl CheckoutJob {
    pub open spec fn remaining(&self) -> nat {
        match self.stage {
            CheckoutStage::Creating => 3,
            CheckoutStage::CheckingOut => 2,
            CheckoutStage::Starting(_) => 1,
            CheckoutStage::Done => 0,
        }
    }

    /// Start checking out pull request `number` of `repo` from the loaded
    /// list: its worktree is added first. When the pull request is not
    /// loaded, or no plan can be made for it, nothing starts and a toast
    /// says why.
    pub fn start(repo: &RepoFullName, number: u64, app: &mut AppState) -> (r: Option<
        (CheckoutJob, Work),
    >)
        ensures
            ({
                let s = loaded_items(old(app).data.prs);
                let i = pr_index(s, repo@, number) as int;
                if i >= s.len() {
                    r is None && error_toast(*old(app), *final(app), "PR not found in current cache"@)
                } else {
                    match planned_checkout(s[i], old(app).data.repos) {
                        Ok((repo_, path, branch)) => r matches Some((j, w)) && {
                            &&& *final(app) == *old(app)
                            &&& j.pr == s[i]
                            &&& j.plan.repo == repo_
                            &&& j.plan.worktree_path@ == path
                            &&& j.plan.branch@ == branch
                            &&& j.stage is Creating
                            &&& w == (Work::CreateWorktree {
                                repo_dir: j.plan.repo.local_path,
                                path: j.plan.worktree_path,
                                branch: j.plan.branch,
                                start_point: Some(j.plan.repo.default_branch),
                            })
                        },
                        Err(m) => r is None && error_toast(*old(app), *final(app), m),
                    }
                }
            }),
    {
        let pr = match find_pr(&app.data, repo, number) {
            Some(p) => p,
            None => {
                app.toast = Some(Toast::error("PR not found in current cache".to_owned()));
                return None;
            },
        };
        let plan = match checkout_plan(&pr, &app.data.repos) {
            Ok(p) => p,
            Err(m) => {
                app.toast = Some(Toast::error(m));
                return None;
            },
        };
        let w = Work::CreateWorktree {
            repo_dir: plan.repo.local_path.clone(),
            path: plan.worktree_path.clone(),
            branch: plan.branch.clone(),
            start_point: Some(plan.repo.default_branch.clone()),
        };
        Some((CheckoutJob { pr, plan, stage: CheckoutStage::Creating }, w))
    }

    /// The step after the last piece of work went as `outcome`.
    pub fn advance(&mut self, app: &mut AppState, outcome: Outcome) -> (w: Work)
        ensures
            checkout_advanced(*old(self), *final(self), *old(app), *final(app), outcome, w),
            w is Finished <==> final(self).stage is Done,
            old(self).remaining() > 0 ==> final(self).remaining() < old(self).remaining(),
    {
        match &self.stage {
            CheckoutStage::Creating => match outcome {
                Outcome::Failed(e) => {
                    app.toast = Some(Toast::error(prefixed("worktree creation failed: ", &e)));
                    self.stage = CheckoutStage::Done;
                    Work::Finished
                },
                _ => {
                    self.stage = CheckoutStage::CheckingOut;
                    Work::CheckoutPr { worktree: self.plan.worktree_path.clone(), number: self.pr.number.0 }
                },
            },
            CheckoutStage::CheckingOut => match outcome {
                Outcome::Failed(e) => {
                    app.toast = Some(Toast::error(prefixed("gh pr checkout failed: ", &e)));
                    self.stage = CheckoutStage::Done;
                    Work::Finished
                },
                _ => match pr_session_name(&self.pr) {
                    Ok(s) => {
                        let name = s.clone();
                        self.stage = CheckoutStage::Starting(s);
                        Work::NewSession { name, cwd: self.plan.worktree_path.clone() }
                    },
                    Err(m) => {
                        app.toast = Some(Toast::error(m));
                        self.stage = CheckoutStage::Done;
                        Work::Finished
                    },
                },
            },
            CheckoutStage::Starting(n) => {
                app.pending_attach = Some(n.clone());
                self.stage = CheckoutStage::Done;
                Work::Finished
            },
            CheckoutStage::Done => Work::Finished,
        }
    }
}

} // verus!
