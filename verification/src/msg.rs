//! Messages between the screens, the event loop and the fetch tasks.
use vstd::prelude::*;

use crate::config::Config;
use crate::domain::{Pr, Repo, Ticket, Worktree};
use crate::ids::{BranchName, PrNumber, RepoFullName, SessionName, TicketKey};

verus! {

/// Stable id of an in-flight fetch, used to route cancellation and results.
#[derive(Debug, Clone, Copy, PartialEq, Eq, Structural)]
pub struct FetchId(pub u64);

/// What to fetch.
#[derive(Debug, Clone)]
pub enum FetchKind {
    Tickets,
    Repos,
    Prs(RepoFullName),
}

/// What a fetch brought back; failures carry their message.
#[derive(Debug)]
pub enum FetchResult {
    Tickets(Result<Vec<Ticket>, String>),
    Repos(Result<Vec<Repo>, String>),
    Prs(RepoFullName, Result<Vec<Pr>, String>),
    Worktrees(Result<Vec<Worktree>, String>),
}

/// What to do with the branch of a deleted worktree.
#[derive(Debug, Clone, Copy, PartialEq, Eq, Structural)]
pub enum BranchDeleteMode {
    Keep,
    DeleteIfMerged,
    Force,
}

impl Default for BranchDeleteMode {
    fn default() -> (r: Self)
        ensures
            r == BranchDeleteMode::DeleteIfMerged,
    {
        BranchDeleteMode::DeleteIfMerged
    }
}

/// Everything needed to set up a new work unit.
#[derive(Debug, Clone)]
pub struct CreateWorkUnit {
    pub ticket: Option<TicketKey>,
    pub repo: RepoFullName,
    pub repo_path: String,
    pub worktree_path: String,
    pub branch: BranchName,
    pub start_point: Option<BranchName>,
    pub session: SessionName,
}

/// Side effects that the screens ask the event loop for.
#[derive(Debug, Clone)]
pub enum Command {
    /// Refresh data. `force` cancels any in-flight fetch of the same kind and
    /// bypasses the cache time-to-live.
    Refresh { kind: FetchKind, force: bool },
    /// Force-refresh every kind.
    RefreshAll,
    CreateWorkUnit(CreateWorkUnit),
    AttachSession(SessionName),
    DeleteWorktree {
        repo: RepoFullName,
        path: String,
        branch: BranchName,
        delete_branch: BranchDeleteMode,
        kill_session: Option<SessionName>,
    },
    CheckoutPr { repo: RepoFullName, number: PrNumber },
    OpenUrl(String),
    /// Store the setup form's tokens in the keychain and save its
    /// configuration.
    SubmitSetup(SetupSubmission),
}

/// A submitted setup form: the configuration to save and the tokens to
/// store.
#[derive(Debug, Clone)]
pub struct SetupSubmission {
    pub config: Config,
    pub jira_email: String,
    pub jira_token: Option<String>,
    pub github_token: Option<String>,
}

/// A key press, as far as the screens tell keys apart.
#[derive(Debug, Clone, Copy, PartialEq, Eq, Structural)]
pub enum Key {
    Char(char),
    Enter,
    Esc,
    Tab,
    BackTab,
    Up,
    Down,
    Backspace,
    Other,
}

} // verus!
