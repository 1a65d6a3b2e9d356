//! A ticket, with the repositories a work unit can be created in.
use vstd::prelude::*;

use crate::app::{only_screen_changed, AppState};
use crate::domain::Ticket;
use crate::msg::{Command, Key};
use crate::screens::{confirm_create, loaded_items, move_down, move_up, step_down, step_up, Screen};
use crate::widgets::{Toast, ToastLevel};

verus! {

#[derive(Debug)]
pub struct State {
    pub ticket: Ticket,
    pub selected_repo: usize,
}

impl State {
    pub fn new(ticket: Ticket) -> (r: State)
        ensures
            r.ticket == ticket,
            r.selected_repo == 0,
    {
        State { ticket, selected_repo: 0 }
    }
}

/// How the screen reacts to `key`: `s0`/`a0` before, `s1`/`a1` after, `r`
/// what it asks the event loop for.
pub open spec fn handled(key: Key, s0: State, a0: AppState, s1: State, a1: AppState, r: Option<Command>) -> bool {
    &&& ({
            let repos = loaded_items(a0.data.repos);
            let sel = s0.selected_repo;
            &&& s1.ticket == s0.ticket
            &&& (key == Key::Char('j') || key == Key::Down) ==> s1.selected_repo
                == step_down(sel, repos.len()) && a1 == a0 && r is None
            &&& (key == Key::Char('k') || key == Key::Up) ==> s1.selected_repo == step_up(
                sel,
            ) && a1 == a0 && r is None
            &&& key == Key::Char('c') ==> s1.selected_repo == sel && r is None && if sel
                < repos.len() {
                &&& only_screen_changed(a0, a1)
                &&& a1.screen matches Screen::ConfirmCreate(c) && confirm_create::confirm_for(
                    *c,
                    s0.ticket,
                    repos[sel as int],
                    a0.config,
                )
            } else {
                &&& a1 == (AppState { toast: a1.toast, ..a0 })
                &&& a1.toast matches Some(t) && t.level == ToastLevel::Error && t.message@
                    == "no repos available \u{2014} try `r` to refresh"@
            }
            &&& key == Key::Char('o') ==> (s1.selected_repo == sel && a1
                == a0 && (r matches Some(Command::OpenUrl(u)) && u == s0.ticket.url))
            &&& key == Key::Esc ==> (s1.selected_repo == sel && only_screen_changed(
                a0,
                a1,
            ) && (r is None) && (a1.screen matches Screen::Tickets(t) && t.selected == 0
                && t.filter@.len() == 0 && !t.filtering))
            &&& !(key == Key::Char('j') || key == Key::Down || key == Key::Char('k') || key
                == Key::Up || key == Key::Char('c') || key == Key::Char('o') || key == Key::Esc)
                ==> s1.selected_repo == sel && a1 == a0 && r is None
        })
}

/// `j`/`k` move through the repositories, `c` plans a work unit in the
/// selected one (or says there is none), `o` opens the ticket in the
/// browser, `Esc` goes back to the ticket list.
pub fn handle(key: Key, state: &mut State, app: &mut AppState) -> (r: Option<Command>)
    ensures
        handled(key, *old(state), *old(app), *final(state), *final(app), r),
{
    let n = match app.data.repos.loaded() {
        Some(v) => v.len(),
        None => 0,
    };
    match key {
        Key::Char('j') | Key::Down => {
            state.selected_repo = move_down(state.selected_repo, n);
            None
        },
        Key::Char('k') | Key::Up => {
            state.selected_repo = move_up(state.selected_repo);
            None
        },
        Key::Char('c') => {
            if state.selected_repo >= n {
                app.toast = Some(
                    Toast::error("no repos available \u{2014} try `r` to refresh".to_owned()),
                );
                return None;
            }
            let repo = match app.data.repos.loaded() {
                Some(v) => v[state.selected_repo].clone(),
                None => {
                    return None;
                },
            };
            let confirm = match confirm_create::State::build(state.ticket.clone(), repo, &app.config) {
                Ok(c) => c,
                Err(e) => confirm_create::State::failed(state.ticket.clone(), e),
            };
            app.screen = Screen::ConfirmCreate(Box::new(confirm));
            None
        },
        Key::Char('o') => Some(Command::OpenUrl(state.ticket.url.clone())),
        Key::Esc => {
            app.screen = Screen::Tickets(crate::screens::tickets::State::default());
            None
        },
        _ => None,
    }
}

} // verus!
