use flow::app::AppState;
use flow::config::Config;
use flow::domain::{Pr, PrState, Repo, RepoSource};
use flow::ids::{BranchName, PrNumber, RepoFullName, SessionName};
use flow::jobs::{CheckoutJob, CreateJob, DeleteJob, Outcome, Work};
use flow::msg::{BranchDeleteMode, CreateWorkUnit, FetchKind};
use flow::repo_map::RepoMap;
use flow::screens::{LoadState, Screen};
use flow::widgets::ToastLevel;

fn app() -> AppState {
    AppState::new(Config::sample(), Screen::Dashboard, None, None, None, RepoMap::new())
}

fn branch(s: &str) -> BranchName {
    BranchName::new(s).unwrap()
}

fn session(s: &str) -> SessionName {
    SessionName::new(s).unwrap()
}

#[test]
fn deleting_a_worktree_removes_deletes_kills_and_rescans() {
    let mut a = app();
    let (mut job, w) = DeleteJob::start(
        "/c/acme/widget".into(),
        "/c/acme/widget-X-1".into(),
        branch("X-1"),
        BranchDeleteMode::Force,
        Some(session("X-1")),
        &a.config,
    );
    assert!(matches!(&w, Work::RemoveWorktree { repo_dir, path } if repo_dir == "/c/acme/widget" && path == "/c/acme/widget-X-1"));
    let w = job.advance(&mut a, Outcome::Succeeded);
    assert!(matches!(&w, Work::DeleteBranch { branch, force: true, .. } if branch.as_str() == "X-1"));
    let w = job.advance(&mut a, Outcome::Failed("checked out".into()));
    assert_eq!(a.toast.as_ref().unwrap().message, "force-delete failed: checked out");
    assert_eq!(a.toast.as_ref().unwrap().level, ToastLevel::Error);
    assert!(matches!(&w, Work::KillSession(n) if n.as_str() == "X-1"));
    let w = job.advance(&mut a, Outcome::Succeeded);
    assert!(matches!(w, Work::Refresh { kind: FetchKind::Repos, force: true }));
    assert!(matches!(job.advance(&mut a, Outcome::Succeeded), Work::Finished));
}

#[test]
fn a_failed_removal_stops_the_deletion() {
    let mut a = app();
    let (mut job, _) = DeleteJob::start("/m".into(), "/w".into(), branch("b"), BranchDeleteMode::Keep, None, &a.config);
    assert!(matches!(job.advance(&mut a, Outcome::Failed("locked".into())), Work::Finished));
    assert_eq!(a.toast.as_ref().unwrap().message, "worktree remove failed: locked");
}

#[test]
fn kept_branches_and_sessions_are_left_alone() {
    let mut a = app();
    a.config.tmux.kill_on_remove_worktree = false;
    let (mut job, _) = DeleteJob::start("/m".into(), "/w".into(), branch("b"), BranchDeleteMode::Keep, Some(session("s")), &a.config);
    assert!(job.kill.is_none());
    assert!(matches!(job.advance(&mut a, Outcome::Succeeded), Work::Refresh { .. }));
    assert!(a.toast.is_none());
}

fn spec() -> CreateWorkUnit {
    CreateWorkUnit {
        ticket: None,
        repo: RepoFullName::new("a/b").unwrap(),
        repo_path: "/c/a/b".into(),
        worktree_path: "/c/a/b-X-1".into(),
        branch: branch("X-1"),
        start_point: Some(branch("main")),
        session: session("X-1"),
    }
}

#[test]
fn creating_a_work_unit_starts_a_session_when_none_exists() {
    let mut a = app();
    let (mut job, w) = CreateJob::start(spec());
    assert!(matches!(&w, Work::CreateWorktree { start_point: Some(s), .. } if s.as_str() == "main"));
    assert!(matches!(job.advance(&mut a, Outcome::Succeeded), Work::HasSession(_)));
    assert!(matches!(job.advance(&mut a, Outcome::Answered(false)), Work::NewSession { cwd, .. } if cwd == "/c/a/b-X-1"));
    assert!(matches!(job.advance(&mut a, Outcome::Succeeded), Work::Finished));
    assert_eq!(a.toast.as_ref().unwrap().message, "created /c/a/b-X-1");
    assert_eq!(a.pending_attach.as_ref().unwrap().as_str(), "X-1");
}

#[test]
fn an_existing_session_is_reused() {
    let mut a = app();
    let (mut job, _) = CreateJob::start(spec());
    job.advance(&mut a, Outcome::Succeeded);
    assert!(matches!(job.advance(&mut a, Outcome::Answered(true)), Work::Finished));
    assert!(a.pending_attach.is_some());
}

#[test]
fn a_failed_worktree_ends_the_creation() {
    let mut a = app();
    let (mut job, _) = CreateJob::start(spec());
    assert!(matches!(job.advance(&mut a, Outcome::Failed("exists".into())), Work::Finished));
    assert_eq!(a.toast.as_ref().unwrap().message, "worktree creation failed: exists");
    assert!(a.pending_attach.is_none());
}

fn pr() -> Pr {
    Pr {
        repo: RepoFullName::new("acme/widget").unwrap(),
        number: PrNumber(45),
        title: "t".into(),
        head_ref: branch("feature"),
        author: "a".into(),
        draft: false,
        state: PrState::Open,
        url: "u".into(),
    }
}

#[test]
fn checking_out_a_pull_request() {
    let mut a = app();
    let repo = RepoFullName::new("acme/widget").unwrap();
    assert!(CheckoutJob::start(&repo, 45, &mut a).is_none());
    assert_eq!(a.toast.as_ref().unwrap().message, "PR not found in current cache");

    a.data.prs = LoadState::Loaded(vec![pr()]);
    a.toast = None;
    assert!(CheckoutJob::start(&repo, 45, &mut a).is_none());
    assert_eq!(a.toast.as_ref().unwrap().message, "no repos loaded");

    a.data.repos = LoadState::Loaded(vec![Repo {
        full_name: repo.clone(),
        local_path: "/c/acme/widget".into(),
        default_branch: branch("main"),
        source: RepoSource::Watched,
    }]);
    a.toast = None;
    let (mut job, w) = CheckoutJob::start(&repo, 45, &mut a).unwrap();
    assert!(matches!(&w, Work::CreateWorktree { path, branch, .. } if path == "/c/acme/widget-pr-45" && branch.as_str() == "pr-45-feature"));
    assert!(matches!(job.advance(&mut a, Outcome::Succeeded), Work::CheckoutPr { number: 45, .. }));
    assert!(matches!(job.advance(&mut a, Outcome::Succeeded), Work::NewSession { name, .. } if name.as_str() == "pr-widget-45"));
    assert!(matches!(job.advance(&mut a, Outcome::Failed("ignored".into())), Work::Finished));
    assert_eq!(a.pending_attach.as_ref().unwrap().as_str(), "pr-widget-45");
    assert!(a.toast.is_none());
}

#[test]
fn a_failed_checkout_ends_with_a_toast() {
    let mut a = app();
    a.data.prs = LoadState::Loaded(vec![pr()]);
    a.data.repos = LoadState::Loaded(vec![Repo {
        full_name: RepoFullName::new("acme/widget").unwrap(),
        local_path: "/c/acme/widget".into(),
        default_branch: branch("main"),
        source: RepoSource::Watched,
    }]);
    let (mut job, _) = CheckoutJob::start(&RepoFullName::new("acme/widget").unwrap(), 45, &mut a).unwrap();
    job.advance(&mut a, Outcome::Succeeded);
    assert!(matches!(job.advance(&mut a, Outcome::Failed("auth".into())), Work::Finished));
    assert_eq!(a.toast.as_ref().unwrap().message, "gh pr checkout failed: auth");
    assert!(a.pending_attach.is_none());
}
