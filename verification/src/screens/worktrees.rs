//! The list of worktrees, with attach and the delete prompt.
use vstd::prelude::*;

use crate::app::{only_screen_changed, AppState};
use crate::domain::{Ticket, Worktree};
use crate::text::str_eq;
use crate::msg::{BranchDeleteMode, Command, FetchKind, Key};
use crate::screens::{loaded_items, move_down, move_up, step_down, step_up, Screen};

verus! {

#[derive(Debug, Clone, Copy, PartialEq, Eq, Structural)]
pub struct State {
    pub selected: usize,
    pub confirming_delete: Option<usize>,
    pub delete_mode: BranchDeleteMode,
}

pub open spec fn initial_state() -> State {
    State { selected: 0, confirming_delete: None, delete_mode: BranchDeleteMode::DeleteIfMerged }
}

impl Default for State {
    fn default() -> (r: Self)
        ensures
            r == initial_state(),
    {
        State {
            selected: 0,
            confirming_delete: None,
            delete_mode: BranchDeleteMode::default(),
        }
    }
}

/// The delete modes in the order `m` cycles through them.
pub open spec fn next_mode(m: BranchDeleteMode) -> BranchDeleteMode {
    match m {
        BranchDeleteMode::Keep => BranchDeleteMode::DeleteIfMerged,
        BranchDeleteMode::DeleteIfMerged => BranchDeleteMode::Force,
        BranchDeleteMode::Force => BranchDeleteMode::Keep,
    }
}

/// The command that deletes worktree `w` with branch mode `mode`.
pub open spec fn is_delete_of(c: Command, w: Worktree, mode: BranchDeleteMode) -> bool {
    c matches Command::DeleteWorktree { repo, path, branch, delete_branch, kill_session } && repo
        == w.repo && path == w.path && branch == w.branch && delete_branch == mode && kill_session
        == w.session
}

/// While a delete waits for confirmation: `m` cycles the branch mode,
/// `Enter` deletes the worktree, `Esc` cancels; other keys do nothing.
fn handle_confirm(key: Key, idx: usize, state: &mut State, worktrees: &Vec<Worktree>) -> (r:
    Option<Command>)
    ensures
        key == Key::Char('m') ==> *final(state) == (State {
            delete_mode: next_mode(old(state).delete_mode),
            ..*old(state)
        }) && r is None,
        key == Key::Enter ==> if idx < worktrees@.len() {
            *final(state) == (State { confirming_delete: None, ..*old(state) }) && (r matches Some(c) && is_delete_of(c, worktrees@[idx as int], old(state).delete_mode))
        } else {
            *final(state) == *old(state) && r is None
        },
        key == Key::Esc ==> *final(state) == (State { confirming_delete: None, ..*old(state) })
            && r is None,
        !(key == Key::Char('m') || key == Key::Enter || key == Key::Esc) ==> *final(state)
            == *old(state) && r is None,
{
    match key {
        Key::Char('m') => {
            state.delete_mode =
            match state.delete_mode {
                BranchDeleteMode::Keep => BranchDeleteMode::DeleteIfMerged,
                BranchDeleteMode::DeleteIfMerged => BranchDeleteMode::Force,
                BranchDeleteMode::Force => BranchDeleteMode::Keep,
            };
            None
        },
        Key::Enter => {
            if idx >= worktrees.len() {
                return None;
            }
            let w = worktrees[idx].clone();
            state.confirming_delete = None;
            Some(
                Command::DeleteWorktree {
                    repo: w.repo,
                    path: w.path,
                    branch: w.branch,
                    delete_branch: state.delete_mode,
                    kill_session: w.session,
                },
            )
        },
        Key::Esc => {
            state.confirming_delete = None;
            None
        },
        _ => None,
    }
}

/// The page of the first ticket in `ts` with key `key`, if any.
pub open spec fn ticket_page(ts: Seq<Ticket>, key: Seq<char>) -> Option<String>
    decreases ts.len(),
{
    if ts.len() == 0 {
        None
    } else {
        match ticket_page(ts.drop_last(), key) {
            Some(u) => Some(u),
            None => if ts.last().key@ == key {
                Some(ts.last().url)
            } else {
                None
            },
        }
    }
}

/// What `o` opens for worktree `w`: the page of its ticket, when the ticket
/// is among the loaded ones.
pub open spec fn worktree_page(w: Worktree, tickets: Seq<Ticket>) -> Option<String> {
    match w.ticket {
        Some(k) => ticket_page(tickets, k@),
        None => None,
    }
}

fn find_ticket_page(ts: &Vec<Ticket>, key: &str) -> (r: Option<String>)
    ensures
        r == ticket_page(ts@, key@),
{
    let mut found: Option<String> = None;
    let mut i: usize = 0;
    while i < ts.len()
        invariant
            i <= ts@.len(),
            found == ticket_page(ts@.take(i as int), key@),
        decreases ts@.len() - i,
    {
        assert(ts@.take(i as int + 1).drop_last() =~= ts@.take(i as int));
        if found.is_none() && str_eq(ts[i].key.as_str(), key) {
            found = Some(ts[i].url.clone());
        }
        i = i + 1;
    }
    assert(ts@.take(ts@.len() as int) =~= ts@);
    found
}

/// How the screen reacts to `key`: `s0`/`a0` before, `s1`/`a1` after, `r`
/// what it asks the event loop for.
pub open spec fn handled(key: Key, s0: State, a0: AppState, s1: State, a1: AppState, r: Option<Command>) -> bool {
    &&& ({
            let ws = loaded_items(a0.data.worktrees);
            let sel = s0.selected;
            &&& s0.confirming_delete matches Some(idx) ==> {
                &&& a1 == a0
                &&& key == Key::Char('m') ==> s1 == (State {
                    delete_mode: next_mode(s0.delete_mode),
                    ..s0
                }) && r is None
                &&& key == Key::Enter ==> if idx < ws.len() {
                    s1 == (State { confirming_delete: None, ..s0 }) && (r matches Some(c) && is_delete_of(c, ws[idx as int], s0.delete_mode))
                } else {
                    s1 == s0 && r is None
                }
                &&& key == Key::Esc ==> s1 == (State {
                    confirming_delete: None,
                    ..s0
                }) && r is None
                &&& !(key == Key::Char('m') || key == Key::Enter || key == Key::Esc) ==> s1 == s0 && r is None
            }
            &&& s0.confirming_delete is None ==> {
                &&& (key == Key::Char('j') || key == Key::Down) ==> s1 == (State {
                    selected: step_down(sel, ws.len()),
                    ..s0
                }) && a1 == a0 && r is None
                &&& (key == Key::Char('k') || key == Key::Up) ==> s1 == (State {
                    selected: step_up(sel),
                    ..s0
                }) && a1 == a0 && r is None
                &&& key == Key::Enter ==> s1 == s0 && a1 == a0
                    && (if sel < ws.len() && ws[sel as int].session is Some {
                    r matches Some(Command::AttachSession(s)) && Some(s) == ws[sel as int].session
                } else {
                    r is None
                })
                &&& key == Key::Char('d') ==> a1 == a0 && r is None && if sel
                    < ws.len() {
                    s1 == (State {
                        confirming_delete: Some(sel),
                        delete_mode: BranchDeleteMode::DeleteIfMerged,
                        ..s0
                    })
                } else {
                    s1 == s0
                }
                &&& key == Key::Char('r') ==> s1 == s0 && a1
                    == a0 && (r matches Some(Command::Refresh { kind: FetchKind::Repos, force: true }))
                &&& key == Key::Char('o') ==> s1 == s0 && a1 == a0 && if sel < ws.len() {
                    match worktree_page(ws[sel as int], loaded_items(a0.data.tickets)) {
                        Some(u) => r matches Some(Command::OpenUrl(x)) && x == u,
                        None => r is None,
                    }
                } else {
                    r is None
                }
                &&& key == Key::Esc ==> (s1 == s0 && (a1.screen is Dashboard)
                    && only_screen_changed(a0, a1) && (r is None))
                &&& !(key == Key::Char('j') || key == Key::Down || key == Key::Char('k') || key
                    == Key::Up || key == Key::Enter || key == Key::Char('d') || key == Key::Char(
                    'r',
                ) || key == Key::Char('o') || key == Key::Esc) ==> s1 == s0 && a1
                    == a0 && r is None
            }
        })
}

/// `j`/`k` move, `Enter` attaches the selected worktree's session, `o`
/// opens its ticket's page, `d` asks to delete it, `r` rescans, `Esc` goes back; while a delete waits for
/// confirmation the keys go to the prompt.
pub fn handle(key: Key, state: &mut State, app: &mut AppState) -> (r: Option<Command>)
    ensures
        handled(key, *old(state), *old(app), *final(state), *final(app), r),
{
    if let Some(idx) = state.confirming_delete {
        return match app.data.worktrees.loaded() {
            Some(ws) => handle_confirm(key, idx, state, ws),
            None => {
                let empty: Vec<Worktree> = Vec::new();
                handle_confirm(key, idx, state, &empty)
            },
        };
    }
    let n = match app.data.worktrees.loaded() {
        Some(v) => v.len(),
        None => 0,
    };
    match key {
        Key::Char('j') | Key::Down => {
            state.selected = move_down(state.selected, n);
            None
        },
        Key::Char('k') | Key::Up => {
            state.selected = move_up(state.selected);
            None
        },
        Key::Enter => {
            let ws = app.data.worktrees.loaded()?;
            if state.selected < ws.len() {
                match &ws[state.selected].session {
                    Some(s) => Some(Command::AttachSession(s.clone())),
                    None => None,
                }
            } else {
                None
            }
        },
        Key::Char('d') => {
            if state.selected < n {
                state.confirming_delete = Some(state.selected);
                state.delete_mode = BranchDeleteMode::DeleteIfMerged;
            }
            None
        },
        Key::Char('r') => Some(Command::Refresh { kind: FetchKind::Repos, force: true }),
        Key::Char('o') => {
            let ws = app.data.worktrees.loaded()?;
            if state.selected >= ws.len() {
                return None;
            }
            let key = match &ws[state.selected].ticket {
                Some(k) => k,
                None => {
                    return None;
                },
            };
            let page = match app.data.tickets.loaded() {
                Some(ts) => find_ticket_page(ts, key.as_str()),
                None => {
                    let empty: Vec<Ticket> = Vec::new();
                    find_ticket_page(&empty, key.as_str())
                },
            };
            match page {
                Some(u) => Some(Command::OpenUrl(u)),
                None => None,
            }
        },
        Key::Esc => {
            app.screen = Screen::Dashboard;
            None
        },
        _ => None,
    }
}

/// `m` cycles the delete mode through keep, delete-if-merged and force:
/// every press changes it, and three presses bring it back.
pub proof fn law_delete_mode_cycles(m: BranchDeleteMode)
    ensures
        next_mode(m) != m,
        next_mode(next_mode(m)) != m,
        next_mode(next_mode(next_mode(m))) == m,
{
}

} // verus!
