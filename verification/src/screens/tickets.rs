//! The ticket list, with its text filter.
use vstd::prelude::*;

use crate::app::{only_screen_changed, AppState};
use crate::domain::Ticket;
use crate::msg::{Command, FetchKind, Key};
use crate::screens::{move_down, move_up, step_down, step_up, LoadState, Screen};
use crate::text::{contains_seq, contains_vec, lower_seq, lowered, pop_char, push_char};

verus! {

#[derive(Debug)]
pub struct State {
    pub selected: usize,
    pub filter: String,
    pub filtering: bool,
}

impl Default for State {
    fn default() -> (r: Self)
        ensures
            r.selected == 0,
            r.filter@.len() == 0,
            !r.filtering,
    {
        State { selected: 0, filter: String::new(), filtering: false }
    }
}

/// A ticket matches a filter when the filter is empty, or appears, ignoring
/// ASCII case, in its key or its summary.
pub open spec fn ticket_matches(t: Ticket, filter: Seq<char>) -> bool {
    ||| filter.len() == 0
    ||| contains_seq(lower_seq(t.key@), lower_seq(filter))
    ||| contains_seq(lower_seq(t.summary@), lower_seq(filter))
}

/// The tickets that match `filter`, in their order.
pub open spec fn visible(all: Seq<Ticket>, filter: Seq<char>) -> Seq<Ticket>
    decreases all.len(),
{
    if all.len() == 0 {
        Seq::empty()
    } else {
        let p = visible(all.drop_last(), filter);
        if ticket_matches(all.last(), filter) {
            p.push(all.last())
        } else {
            p
        }
    }
}

pub fn matches_filter(t: &Ticket, filter: &str) -> (r: bool)
    ensures
        r == ticket_matches(*t, filter@),
{
    if filter.unicode_len() == 0 {
        return true;
    }
    let f = lowered(filter);
    contains_vec(&lowered(t.key.as_str()), &f) || contains_vec(&lowered(t.summary.as_str()), &f)
}

/// The loaded tickets that match the filter; nothing when none are loaded.
pub fn visible_tickets(app: &AppState, state: &State) -> (r: Option<Vec<Ticket>>)
    ensures
        match app.data.tickets {
            LoadState::Loaded(all) => r matches Some(v) && v@ == visible(all@, state.filter@),
            _ => r is None,
        },
{
    let all = app.data.tickets.loaded()?;
    let mut out: Vec<Ticket> = Vec::new();
    let mut i: usize = 0;
    while i < all.len()
        invariant
            i <= all@.len(),
            out@ == visible(all@.take(i as int), state.filter@),
        decreases all@.len() - i,
    {
        assert(all@.take(i as int + 1).drop_last() =~= all@.take(i as int));
        if matches_filter(&all[i], state.filter.as_str()) {
            out.push(all[i].clone());
        }
        i = i + 1;
    }
    assert(all@.take(all@.len() as int) =~= all@);
    Some(out)
}

/// Typing into the filter: `Esc` leaves it and clears it, `Enter` leaves it
/// and keeps it, `Backspace` deletes a character, other characters are
/// added.
fn handle_filter_mode(key: Key, state: &mut State) -> (r: Option<Command>)
    ensures
        r is None,
        final(state).selected == old(state).selected,
        key == Key::Esc ==> !final(state).filtering && final(state).filter@.len() == 0,
        key == Key::Enter ==> !final(state).filtering && final(state).filter == old(state).filter,
        key == Key::Backspace ==> final(state).filtering == old(state).filtering && (if old(state).filter@.len() == 0 {
            final(state).filter@ == old(state).filter@
        } else {
            final(state).filter@ == old(state).filter@.drop_last()
        }),
        key matches Key::Char(c) ==> final(state).filtering == old(state).filtering && final(state).filter@ == old(state).filter@.push(c),
        !(key == Key::Esc || key == Key::Enter || key == Key::Backspace || key is Char) ==> *final(state) == *old(state),
{
    match key {
        Key::Esc => {
            state.filtering = false;
            state.filter = String::new();
        },
        Key::Enter => {
            state.filtering = false;
        },
        Key::Backspace => {
            pop_char(&mut state.filter);
        },
        Key::Char(c) => {
            push_char(&mut state.filter, c);
        },
        _ => {},
    }
    None
}

/// How the screen reacts to `key`: `s0`/`a0` before, `s1`/`a1` after, `r`
/// what it asks the event loop for.
/// How a key edits the filter while it is being typed: `Esc` clears it and
/// leaves filter mode, `Enter` leaves filter mode and keeps it, `Backspace`
/// drops its last character, a character is appended, other keys do
/// nothing. The selection stays where it was.
pub open spec fn filter_edited(key: Key, s0: State, s1: State) -> bool {
    &&& s1.selected == s0.selected
    &&& key == Key::Esc ==> !s1.filtering && s1.filter@.len() == 0
    &&& key == Key::Enter ==> !s1.filtering && s1.filter == s0.filter
    &&& key == Key::Backspace ==> s1.filtering == s0.filtering && s1.filter@ == (if s0.filter@.len()
        == 0 {
        s0.filter@
    } else {
        s0.filter@.drop_last()
    })
    &&& key matches Key::Char(c) ==> s1.filtering == s0.filtering && s1.filter@ == s0.filter@.push(
        c,
    )
    &&& !(key == Key::Esc || key == Key::Enter || key == Key::Backspace || key is Char) ==> s1
        == s0
}

pub open spec fn handled(key: Key, s0: State, a0: AppState, s1: State, a1: AppState, r: Option<Command>) -> bool {
    &&& s0.filtering ==> a1 == a0 && r is None && filter_edited(key, s0, s1)
    &&& !s0.filtering ==> ({
            let sel = s0.selected;
            &&& (key == Key::Char('j') || key == Key::Down) ==> a1 == a0 && r is None
                && s1.filter == s0.filter && s1.filtering == s0.filtering && s1.selected == match a0.data.tickets {
                LoadState::Loaded(all) => step_down(sel, visible(all@, s0.filter@).len()),
                _ => sel,
            }
            &&& (key == Key::Char('k') || key == Key::Up) ==> a1 == a0 && r is None
                && s1.filter == s0.filter && !s1.filtering
                && s1.selected == step_up(sel)
            &&& key == Key::Enter ==> s1 == s0 && match a0.data.tickets {
                LoadState::Loaded(all) => if sel < visible(all@, s0.filter@).len() {
                    &&& only_screen_changed(a0, a1)
                    &&& a1.screen matches Screen::TicketDetail(d) && d.ticket == visible(
                        all@,
                        s0.filter@,
                    )[sel as int] && d.selected_repo == 0
                    &&& (r matches Some(Command::Refresh { kind: FetchKind::Repos, force: false }))
                } else {
                    a1 == a0 && r is None
                },
                _ => a1 == a0 && r is None,
            }
            &&& key == Key::Char('/') ==> a1 == a0 && r is None && s1.filtering && s1.filter@.len() == 0 && s1.selected == sel
            &&& key == Key::Char('r') ==> a1 == a0 && s1 == s0
                && (r matches Some(Command::Refresh { kind: FetchKind::Tickets, force: true }))
            &&& key == Key::Char('o') ==> a1 == a0 && s1 == s0 && match a0.data.tickets {
                LoadState::Loaded(all) => if sel < visible(all@, s0.filter@).len() {
                    r matches Some(Command::OpenUrl(u)) && u == visible(all@, s0.filter@)[sel as int].url
                } else {
                    r is None
                },
                _ => r is None,
            }
            &&& key == Key::Esc ==> (s1 == s0 && (a1.screen is Dashboard)
                && only_screen_changed(a0, a1) && (r is None))
            &&& !(key == Key::Char('j') || key == Key::Down || key == Key::Char('k') || key
                == Key::Up || key == Key::Enter || key == Key::Char('/') || key == Key::Char('r')
                || key == Key::Char('o') || key == Key::Esc) ==> a1 == a0 && s1 == s0
                && r is None
        })
}

/// While filtering, keys edit the filter. Otherwise `j`/`k` move through the
/// visible tickets, `Enter` opens the selected one (and fetches the
/// repositories), `o` opens its page in the browser, `/` starts a new
/// filter, `r` refreshes, `Esc` goes back.
pub fn handle(key: Key, state: &mut State, app: &mut AppState) -> (r: Option<Command>)
    ensures
        handled(key, *old(state), *old(app), *final(state), *final(app), r),
{
    if state.filtering {
        return handle_filter_mode(key, state);
    }
    match key {
        Key::Char('j') | Key::Down => {
            match visible_tickets(app, state) {
                Some(v) => {
                    state.selected = move_down(state.selected, v.len());
                },
                None => {},
            }
            None
        },
        Key::Char('k') | Key::Up => {
            state.selected = move_up(state.selected);
            None
        },
        Key::Enter => {
            match visible_tickets(app, state) {
                Some(v) => {
                    if state.selected < v.len() {
                        let t = v[state.selected].clone();
                        app.screen = Screen::TicketDetail(
                            Box::new(crate::screens::ticket_detail::State::new(t)),
                        );
                        return Some(Command::Refresh { kind: FetchKind::Repos, force: false });
                    }
                },
                None => {},
            }
            None
        },
        Key::Char('/') => {
            state.filtering = true;
            state.filter = String::new();
            None
        },
        Key::Char('r') => Some(Command::Refresh { kind: FetchKind::Tickets, force: true }),
        Key::Char('o') => {
            let v = visible_tickets(app, state)?;
            if state.selected < v.len() {
                Some(Command::OpenUrl(v[state.selected].url.clone()))
            } else {
                None
            }
        },
        Key::Esc => {
            app.screen = Screen::Dashboard;
            None
        },
        _ => None,
    }
}

} // verus!
