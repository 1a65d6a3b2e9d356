//! The dashboard: counts of tickets, pull requests and worktrees, and the
//! keys that lead to the other screens.
use vstd::prelude::*;

use crate::app::{only_screen_changed, AppState};
use crate::msg::{Command, FetchKind, Key};
use crate::screens::{prs, tickets, worktrees, Screen};

verus! {

/// How the screen reacts to `key`: `s0`/`a0` before, `s1`/`a1` after, `r`
/// what it asks the event loop for.
pub open spec fn handled(key: Key, a0: AppState, a1: AppState, r: Option<Command>) -> bool {
    &&& key == Key::Char('t') ==> {
            &&& a1.screen matches Screen::Tickets(s) && s.selected == 0 && s.filter@.len()
                == 0 && !s.filtering
            &&& only_screen_changed(a0, a1)
            &&& (r matches Some(Command::Refresh { kind: FetchKind::Tickets, force: false }))
        }
    &&& key == Key::Char('w') ==> {
            &&& a1.screen matches Screen::Worktrees(s) && s == worktrees::initial_state()
            &&& only_screen_changed(a0, a1)
            &&& (r matches Some(Command::Refresh { kind: FetchKind::Repos, force: false }))
        }
    &&& key == Key::Char('p') ==> {
            &&& a1.screen matches Screen::Prs(s) && s.selected == 0
            &&& only_screen_changed(a0, a1)
            &&& (r matches Some(Command::Refresh { kind: FetchKind::Repos, force: false }))
        }
    &&& key == Key::Char('r') ==> a1 == a0 && (r matches Some(Command::Refresh { kind: FetchKind::Tickets, force: true }))
    &&& key == Key::Char('R') ==> a1 == a0 && (r matches Some(Command::RefreshAll))
    &&& key == Key::Char('q') ==> a1 == (AppState { should_quit: true, ..a0 })
            && r is None
    &&& !(key == Key::Char('t') || key == Key::Char('w') || key == Key::Char('p') || key
            == Key::Char('r') || key == Key::Char('R') || key == Key::Char('q')) ==> a1
            == a0 && r is None
}

/// `t` tickets, `w` worktrees, `p` pull requests (each fetching what it
/// shows), `r` force-refresh tickets, `R` force-refresh everything, `q` quit.
pub fn handle(key: Key, app: &mut AppState) -> (r: Option<Command>)
    ensures
        handled(key, *old(app), *final(app), r),
{
    match key {
        Key::Char('t') => {
            app.screen = Screen::Tickets(tickets::State::default());
            Some(Command::Refresh { kind: FetchKind::Tickets, force: false })
        },
        Key::Char('w') => {
            app.screen = Screen::Worktrees(worktrees::State::default());
            Some(Command::Refresh { kind: FetchKind::Repos, force: false })
        },
        Key::Char('p') => {
            app.screen = Screen::Prs(prs::State::default());
            Some(Command::Refresh { kind: FetchKind::Repos, force: false })
        },
        Key::Char('r') => Some(Command::Refresh { kind: FetchKind::Tickets, force: true }),
        Key::Char('R') => Some(Command::RefreshAll),
        Key::Char('q') => {
            app.should_quit = true;
            None
        },
        _ => None,
    }
}

} // verus!
