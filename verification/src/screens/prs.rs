//! The list of open pull requests.
use vstd::prelude::*;

use crate::app::{only_screen_changed, AppState};
use crate::msg::{Command, FetchKind, Key};
use crate::screens::{loaded_items, move_down, move_up, step_down, step_up, Screen};

verus! {

#[derive(Debug, Clone, Copy, PartialEq, Eq, Structural)]
pub struct State {
    pub selected: usize,
}

impl Default for State {
    fn default() -> (r: Self)
        ensures
            r.selected == 0,
    {
        State { selected: 0 }
    }
}

/// How the screen reacts to `key`: `s0`/`a0` before, `s1`/`a1` after, `r`
/// what it asks the event loop for.
pub open spec fn handled(key: Key, s0: State, a0: AppState, s1: State, a1: AppState, r: Option<Command>) -> bool {
    &&& ({
            let prs = loaded_items(a0.data.prs);
            &&& (key == Key::Char('j') || key == Key::Down) ==> s1.selected == step_down(
                s0.selected,
                prs.len(),
            ) && a1 == a0 && r is None
            &&& (key == Key::Char('k') || key == Key::Up) ==> s1.selected == step_up(
                s0.selected,
            ) && a1 == a0 && r is None
            &&& key == Key::Enter ==> s1 == s0 && a1 == a0 && (
            if s0.selected < prs.len() {
                r matches Some(Command::CheckoutPr { repo, number }) && repo
                    == prs[s0.selected as int].repo && number == prs[s0.selected as int].number
            } else {
                r is None
            })
            &&& key == Key::Char('o') ==> s1 == s0 && a1 == a0
                && (if s0.selected < prs.len() {
                r matches Some(Command::OpenUrl(u)) && u == prs[s0.selected as int].url
            } else {
                r is None
            })
            &&& key == Key::Char('r') ==> s1 == s0 && a1 == a0
                && (r matches Some(Command::Refresh { kind: FetchKind::Repos, force: true }))
            &&& key == Key::Esc ==> (s1 == s0 && (a1.screen is Dashboard)
                && only_screen_changed(a0, a1) && (r is None))
            &&& !(key == Key::Char('j') || key == Key::Down || key == Key::Char('k') || key
                == Key::Up || key == Key::Enter || key == Key::Char('o') || key == Key::Char('r')
                || key == Key::Esc) ==> s1 == s0 && a1 == a0
                && r is None
        })
}

/// `j`/`k` move, `Enter` checks the selected PR out as a worktree, `o` opens
/// it in the browser, `r` refreshes, `Esc` goes back to the dashboard.
pub fn handle(key: Key, state: &mut State, app: &mut AppState) -> (r: Option<Command>)
    ensures
        handled(key, *old(state), *old(app), *final(state), *final(app), r),
{
    match key {
        Key::Char('j') | Key::Down => {
            let n = match app.data.prs.loaded() {
                Some(v) => v.len(),
                None => 0,
            };
            state.selected = move_down(state.selected, n);
            None
        },
        Key::Char('k') | Key::Up => {
            state.selected = move_up(state.selected);
            None
        },
        Key::Enter => {
            let prs = app.data.prs.loaded()?;
            if state.selected < prs.len() {
                let p = &prs[state.selected];
                Some(Command::CheckoutPr { repo: p.repo.clone(), number: p.number })
            } else {
                None
            }
        },
        Key::Char('o') => {
            let prs = app.data.prs.loaded()?;
            if state.selected < prs.len() {
                Some(Command::OpenUrl(prs[state.selected].url.clone()))
            } else {
                None
            }
        },
        Key::Char('r') => Some(Command::Refresh { kind: FetchKind::Repos, force: true }),
        Key::Esc => {
            app.screen = Screen::Dashboard;
            None
        },
        _ => None,
    }
}

} // verus!
