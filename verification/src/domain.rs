//! Plain data of the tool: tickets, repositories, pull requests, worktrees
//! and tmux sessions.
use vstd::prelude::*;

use crate::ids::{BranchName, PrNumber, RepoFullName, SessionName, TicketKey};
use crate::text::{chars_of, lower_seq, lowered, seq_eq};

verus! {

#[derive(Debug, Clone, Copy, PartialEq, Eq, Structural)]
pub enum PrState {
    Open,
    Closed,
    Merged,
}

/// An open pull request. `url` holds the URL as text.
#[derive(Debug)]
pub struct Pr {
    pub repo: RepoFullName,
    pub number: PrNumber,
    pub title: String,
    pub head_ref: BranchName,
    pub author: String,
    pub draft: bool,
    pub state: PrState,
    pub url: String,
}

impl Clone for Pr {
    fn clone(&self) -> (r: Self)
        ensures
            r == *self,
    {
        Pr {
            repo: self.repo.clone(),
            number: self.number,
            title: self.title.clone(),
            head_ref: self.head_ref.clone(),
            author: self.author.clone(),
            draft: self.draft,
            state: self.state,
            url: self.url.clone(),
        }
    }
}

#[derive(Debug, Clone, Copy, PartialEq, Eq, Structural)]
pub enum RepoSource {
    Watched,
    Discovered,
}

/// A repository and where its main clone lives on disk.
#[derive(Debug)]
pub struct Repo {
    pub full_name: RepoFullName,
    pub local_path: String,
    pub default_branch: BranchName,
    pub source: RepoSource,
}

impl Clone for Repo {
    fn clone(&self) -> (r: Self)
        ensures
            r == *self,
    {
        Repo {
            full_name: self.full_name.clone(),
            local_path: self.local_path.clone(),
            default_branch: self.default_branch.clone(),
            source: self.source,
        }
    }
}

/// A tmux session as `tmux list-sessions` reports it.
#[derive(Debug)]
pub struct Session {
    pub name: SessionName,
    pub attached: bool,
    pub cwd: String,
    pub windows: u32,
}

/// Where a ticket stands, from Jira's status category.
#[derive(Debug)]
pub enum TicketStatus {
    Todo,
    InProgress,
    InReview,
    Done,
    Other(String),
}

impl Clone for TicketStatus {
    fn clone(&self) -> (r: Self)
        ensures
            r == *self,
    {
        match self {
            TicketStatus::Todo => TicketStatus::Todo,
            TicketStatus::InProgress => TicketStatus::InProgress,
            TicketStatus::InReview => TicketStatus::InReview,
            TicketStatus::Done => TicketStatus::Done,
            TicketStatus::Other(s) => TicketStatus::Other(s.clone()),
        }
    }
}

/// The status for a Jira status category key and status name.
pub open spec fn status_from_jira(category: Seq<char>, name: Seq<char>) -> TicketStatus {
    if category == "new"@ || category == "to-do"@ {
        TicketStatus::Todo
    } else if category == "indeterminate"@ {
        if lower_seq(name) == "in review"@ || lower_seq(name) == "code review"@ {
            TicketStatus::InReview
        } else {
            TicketStatus::InProgress
        }
    } else if category == "done"@ {
        TicketStatus::Done
    } else {
        TicketStatus::Other(arbitrary())
    }
}

/// How Jira's status categories read: `new` and `to-do` are to do, `done`
/// is done, and `indeterminate` is in progress, except that a status named
/// "In Review" or "Code Review" (in any ASCII case) is in review; any other
/// category is left as it is.
pub proof fn law_jira_status_categories(category: Seq<char>, name: Seq<char>)
    ensures
        category == "new"@ || category == "to-do"@ ==> status_from_jira(category, name) is Todo,
        category == "done"@ ==> status_from_jira(category, name) is Done,
        category == "indeterminate"@ ==> (status_from_jira(category, name) is InReview
            <==> (lower_seq(name) == "in review"@ || lower_seq(name) == "code review"@)),
        category == "indeterminate"@ ==> (status_from_jira(category, name) is InReview
            || status_from_jira(category, name) is InProgress),
        !(category == "new"@ || category == "to-do"@ || category == "indeterminate"@ || category
            == "done"@) ==> status_from_jira(category, name) is Other,
{
    reveal_strlit("new");
    reveal_strlit("to-do");
    reveal_strlit("indeterminate");
    reveal_strlit("done");
    assert("new"@.len() == 3 && "to-do"@.len() == 5 && "indeterminate"@.len() == 13 && "done"@.len()
        == 4);
}

/// The short label a status shows in lists.
pub open spec fn status_label(s: TicketStatus) -> Seq<char> {
    match s {
        TicketStatus::Todo => "TODO"@,
        TicketStatus::InProgress => "WIP"@,
        TicketStatus::InReview => "REVIEW"@,
        TicketStatus::Done => "DONE"@,
        TicketStatus::Other(n) => n@,
    }
}

impl TicketStatus {
    /// `new`/`to-do` are to do, `done` is done, `indeterminate` is in
    /// review when the status is named "in review" or "code review" (any
    /// case) and in progress otherwise; any other category keeps the name.
    pub fn from_jira(category: &str, name: &str) -> (r: TicketStatus)
        ensures
            r matches TicketStatus::Other(n) ==> n@ == name@ && status_from_jira(
                category@,
                name@,
            ) is Other,
            !(r is Other) ==> r == status_from_jira(category@, name@),
            category@ == "new"@ || category@ == "to-do"@ ==> r is Todo,
            category@ == "done"@ ==> r is Done,
            category@ == "indeterminate"@ ==> (r is InReview <==> (lower_seq(name@)
                == "in review"@ || lower_seq(name@) == "code review"@)),
            category@ == "indeterminate"@ ==> (r is InReview || r is InProgress),
            !(category@ == "new"@ || category@ == "to-do"@ || category@ == "indeterminate"@
                || category@ == "done"@) ==> (r matches TicketStatus::Other(n) && n@ == name@),
    {
        proof {
            law_jira_status_categories(category@, name@);
        }
        let cat = chars_of(category);
        if seq_eq(&cat, &chars_of("new")) || seq_eq(&cat, &chars_of("to-do")) {
            TicketStatus::Todo
        } else if seq_eq(&cat, &chars_of("indeterminate")) {
            let n = lowered(name);
            if seq_eq(&n, &chars_of("in review")) || seq_eq(&n, &chars_of("code review")) {
                TicketStatus::InReview
            } else {
                TicketStatus::InProgress
            }
        } else if seq_eq(&cat, &chars_of("done")) {
            TicketStatus::Done
        } else {
            TicketStatus::Other(name.to_owned())
        }
    }

    pub fn label(&self) -> (r: &str)
        ensures
            r@ == status_label(*self),
    {
        match self {
            TicketStatus::Todo => "TODO",
            TicketStatus::InProgress => "WIP",
            TicketStatus::InReview => "REVIEW",
            TicketStatus::Done => "DONE",
            TicketStatus::Other(s) => s.as_str(),
        }
    }
}

/// A Jira ticket. `url` is the browse URL as text; `updated` is the time of
/// the last update, in milliseconds since the Unix epoch.
#[derive(Debug)]
pub struct Ticket {
    pub key: TicketKey,
    pub summary: String,
    pub status: TicketStatus,
    pub assignee: Option<String>,
    pub url: String,
    pub updated: i64,
}

impl Clone for Ticket {
    fn clone(&self) -> (r: Self)
        ensures
            r == *self,
    {
        let assignee = match &self.assignee {
            Some(a) => Some(a.clone()),
            None => None,
        };
        Ticket {
            key: self.key.clone(),
            summary: self.summary.clone(),
            status: self.status.clone(),
            assignee,
            url: self.url.clone(),
            updated: self.updated,
        }
    }
}

/// Local state of a worktree relative to its upstream.
#[derive(Debug, Clone, Copy, PartialEq, Eq, Structural)]
pub struct WorktreeStatus {
    pub dirty: bool,
    pub ahead: u32,
    pub behind: u32,
    pub has_upstream: bool,
}

pub open spec fn clean_status() -> WorktreeStatus {
    WorktreeStatus { dirty: false, ahead: 0, behind: 0, has_upstream: false }
}

impl Default for WorktreeStatus {
    fn default() -> (r: Self)
        ensures
            r == clean_status(),
    {
        WorktreeStatus { dirty: false, ahead: 0, behind: 0, has_upstream: false }
    }
}

/// A git worktree of a repository checked out under the code root.
#[derive(Debug)]
pub struct Worktree {
    pub repo: RepoFullName,
    pub path: String,
    pub branch: BranchName,
    pub ticket: Option<TicketKey>,
    pub status: WorktreeStatus,
    pub session: Option<SessionName>,
}

impl Clone for Worktree {
    fn clone(&self) -> (r: Self)
        ensures
            r == *self,
    {
        let ticket = match &self.ticket {
            Some(t) => Some(t.clone()),
            None => None,
        };
        let session = match &self.session {
            Some(s) => Some(s.clone()),
            None => None,
        };
        Worktree {
            repo: self.repo.clone(),
            path: self.path.clone(),
            branch: self.branch.clone(),
            ticket,
            status: self.status,
            session,
        }
    }
}

/// A ticket, repository, worktree and tmux session that belong together.
#[derive(Debug)]
pub struct WorkUnit {
    pub ticket: Option<Ticket>,
    pub repo: Repo,
    pub worktree: Worktree,
    pub session: Option<Session>,
}

} // verus!

verus! {

/// A copy of a list of tickets.
pub fn clone_tickets(v: &Vec<Ticket>) -> (r: Vec<Ticket>)
    ensures
        r@ == v@,
{
    let r = v.clone();
    assert(r@ =~= v@);
    r
}

/// A copy of a list of repositories.
pub fn clone_repos(v: &Vec<Repo>) -> (r: Vec<Repo>)
    ensures
        r@ == v@,
{
    let r = v.clone();
    assert(r@ =~= v@);
    r
}

/// A copy of a list of worktrees.
pub fn clone_worktrees(v: &Vec<Worktree>) -> (r: Vec<Worktree>)
    ensures
        r@ == v@,
{
    let r = v.clone();
    assert(r@ =~= v@);
    r
}

/// A copy of a list of pull requests.
pub fn clone_prs(v: &Vec<Pr>) -> (r: Vec<Pr>)
    ensures
        r@ == v@,
{
    let r = v.clone();
    assert(r@ =~= v@);
    r
}

} // verus!
