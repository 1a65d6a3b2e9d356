//! The screens of the TUI: their states and how they react to keys.
pub mod confirm_create;
pub mod dashboard;
pub mod prs;
pub mod setup;
pub mod ticket_detail;
pub mod tickets;
pub mod worktrees;

use vstd::prelude::*;

use crate::domain::{Pr, Repo, Ticket, Worktree};

verus! {

/// Where a fetched collection stands.
#[derive(Debug, Clone)]
pub enum LoadState<T> {
    NotLoaded,
    Loading,
    Loaded(T),
    Failed(String),
}

impl<T> LoadState<T> {
    pub fn is_loading(&self) -> (r: bool)
        ensures
            r == self is Loading,
    {
        match self {
            LoadState::Loading => true,
            _ => false,
        }
    }

    /// The loaded value, if there is one.
    pub fn loaded(&self) -> (r: Option<&T>)
        ensures
            match *self {
                LoadState::Loaded(v) => r == Some(&v),
                _ => r is None,
            },
    {
        match self {
            LoadState::Loaded(v) => Some(v),
            _ => None,
        }
    }
}

impl<T> Default for LoadState<T> {
    fn default() -> (r: Self)
        ensures
            r is NotLoaded,
    {
        LoadState::NotLoaded
    }
}

/// The state of the screen on show.
#[derive(Debug)]
pub enum Screen {
    Setup(Box<setup::State>),
    Dashboard,
    Tickets(tickets::State),
    TicketDetail(Box<ticket_detail::State>),
    ConfirmCreate(Box<confirm_create::State>),
    Worktrees(worktrees::State),
    Prs(prs::State),
    /// Placeholder while a handler runs; never drawn.
    Pending,
}

/// The name of each screen in the status bar.
pub open spec fn screen_name(s: Screen) -> Seq<char> {
    match s {
        Screen::Setup(_) => "SETUP"@,
        Screen::Dashboard => "DASHBOARD"@,
        Screen::Tickets(_) => "TICKETS"@,
        Screen::TicketDetail(_) => "TICKET"@,
        Screen::ConfirmCreate(_) => "CONFIRM"@,
        Screen::Worktrees(_) => "WORKTREES"@,
        Screen::Prs(_) => "PRS"@,
        Screen::Pending => ""@,
    }
}

impl Screen {
    pub fn name(&self) -> (r: &'static str)
        ensures
            r@ == screen_name(*self),
    {
        match self {
            Screen::Setup(_) => "SETUP",
            Screen::Dashboard => "DASHBOARD",
            Screen::Tickets(_) => "TICKETS",
            Screen::TicketDetail(_) => "TICKET",
            Screen::ConfirmCreate(_) => "CONFIRM",
            Screen::Worktrees(_) => "WORKTREES",
            Screen::Prs(_) => "PRS",
            Screen::Pending => "",
        }
    }
}

/// The fetched data the screens show.
#[derive(Debug)]
pub struct DataStore {
    pub tickets: LoadState<Vec<Ticket>>,
    pub repos: LoadState<Vec<Repo>>,
    pub worktrees: LoadState<Vec<Worktree>>,
    pub prs: LoadState<Vec<Pr>>,
}

impl Default for DataStore {
    fn default() -> (r: Self)
        ensures
            r.tickets is NotLoaded,
            r.repos is NotLoaded,
            r.worktrees is NotLoaded,
            r.prs is NotLoaded,
    {
        DataStore {
            tickets: LoadState::NotLoaded,
            repos: LoadState::NotLoaded,
            worktrees: LoadState::NotLoaded,
            prs: LoadState::NotLoaded,
        }
    }
}

/// The items of a loaded collection; nothing when it is not loaded.
pub open spec fn loaded_items<T>(s: LoadState<Vec<T>>) -> Seq<T> {
    match s {
        LoadState::Loaded(v) => v@,
        _ => Seq::empty(),
    }
}

/// One step down a list of `len` items, stopping at the last one.
pub open spec fn step_down(selected: usize, len: nat) -> usize {
    if len == 0 {
        selected
    } else if selected + 1 <= len - 1 {
        (selected + 1) as usize
    } else {
        (len - 1) as usize
    }
}

/// One step up a list, stopping at the first item.
pub open spec fn step_up(selected: usize) -> usize {
    if selected == 0 {
        0
    } else {
        (selected - 1) as usize
    }
}

/// Moving down a non-empty list always lands on one of its items, whatever
/// the selection was before (a list that shrank under a filter included),
/// and moving up never goes past the first item.
pub proof fn law_moves_stay_in_list(selected: usize, len: usize)
    ensures
        len > 0 ==> step_down(selected, len as nat) < len,
        selected < len ==> step_up(selected) < len,
        step_up(selected) <= selected,
{
}

pub fn move_down(selected: usize, len: usize) -> (r: usize)
    ensures
        r == step_down(selected, len as nat),
{
    if len == 0 {
        selected
    } else if selected < len - 1 {
        selected + 1
    } else {
        len - 1
    }
}

pub fn move_up(selected: usize) -> (r: usize)
    ensures
        r == step_up(selected),
{
    if selected == 0 {
        0
    } else {
        selected - 1
    }
}

} // verus!
