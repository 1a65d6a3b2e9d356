//! The application state that the screens act on, and the decisions of the
//! event loop: which key goes where, what a fetch result changes, and when a
//! fetch is started.
use vstd::prelude::*;

use tokio_util::sync::CancellationToken;

use crate::cache::{
    fresh_at, is_fresh_at, now_millis, CacheEntry, PRS_TTL, REPOS_TTL, TICKETS_TTL, WORKTREES_TTL,
};
use crate::config::Config;
use crate::domain::{
    clone_prs, clone_repos, clone_tickets, clone_worktrees, Pr, Repo, RepoSource, Ticket, Worktree,
};
use crate::github::RepoSummary;
use crate::ids::{
    owner_part, repo_part, valid_branch_name, valid_repo_full_name, valid_session_name, BranchName,
    RepoFullName,
};
use crate::ids::SessionName;
use crate::msg::{BranchDeleteMode, Command, CreateWorkUnit, FetchId, FetchKind, FetchResult, Key};
use crate::paths::{join_path, parent_of, path_join, path_parent};
use crate::text::{
    chars_of, decimal, decimal_chars, extend_chars, extend_str, lemma_text_lt_irreflexive, lemma_text_lt_transitive,
    str_eq,
    string_of, text_less, text_lt,
};
use crate::repo_map::RepoMap;
use crate::runtime::Registry;
use crate::screens::{
    confirm_create, dashboard, loaded_items, prs, setup, ticket_detail, tickets, worktrees, DataStore,
    LoadState, Screen,
};
use crate::tmux::Tmux;
use crate::widgets::{Toast, ToastLevel};

verus! {

/// Everything the event loop keeps between messages.
pub struct AppState {
    pub config: Config,
    pub tmux: Tmux,
    pub data: DataStore,
    pub screen: Screen,
    pub help_open: bool,
    pub toast: Option<Toast>,
    pub tick: u64,
    pub pending_attach: Option<SessionName>,
    pub should_quit: bool,
    pub dirty: bool,
    pub tickets_cache: Option<CacheEntry<Vec<Ticket>>>,
    pub repos_cache: Option<CacheEntry<Vec<Repo>>>,
    pub worktrees_cache: Option<CacheEntry<Vec<Worktree>>>,
    pub prs_cache: RepoMap<CacheEntry<Vec<Pr>>>,
    pub registry: Registry,
    pub current_tickets_fetch: Option<FetchId>,
    pub current_repos_fetch: Option<FetchId>,
    pub current_worktrees_fetch: Option<FetchId>,
    pub current_prs_fetch: RepoMap<FetchId>,
}

/// `b` is `a` with (at most) another screen.
pub open spec fn only_screen_changed(a: AppState, b: AppState) -> bool {
    b == AppState { screen: b.screen, ..a }
}

} // verus!

verus! {

/// What a cached entry shows before any fetch: its value, or nothing.
pub open spec fn shown_from<T>(c: Option<CacheEntry<Vec<T>>>) -> LoadState<Vec<T>> {
    match c {
        Some(e) => LoadState::Loaded(e.value),
        None => LoadState::NotLoaded,
    }
}

/// Two load states that show the same items.
pub open spec fn same_items<T>(a: LoadState<Vec<T>>, b: LoadState<Vec<T>>) -> bool {
    match (a, b) {
        (LoadState::NotLoaded, LoadState::NotLoaded) => true,
        (LoadState::Loading, LoadState::Loading) => true,
        (LoadState::Loaded(x), LoadState::Loaded(y)) => x@ == y@,
        (LoadState::Failed(m), LoadState::Failed(n)) => m == n,
        _ => false,
    }
}

/// `a` while a screen handler runs: the screen taken out.
pub open spec fn pending(a: AppState) -> AppState {
    AppState { screen: Screen::Pending, ..a }
}

/// After a handler: the handler's own screen put back, unless it moved to
/// another one.
pub open spec fn restored(a: AppState, s: Screen) -> AppState {
    if a.screen is Pending {
        AppState { screen: s, ..a }
    } else {
        a
    }
}

/// Whether the global keys `q` and `R` work on the screen on show: on every
/// screen but the setup form and the ticket filter being typed, where
/// letters are text.
pub open spec fn takes_global_keys(s: Screen) -> bool {
    match s {
        Screen::Dashboard | Screen::TicketDetail(_) | Screen::ConfirmCreate(_)
        | Screen::Worktrees(_) | Screen::Prs(_) => true,
        Screen::Tickets(t) => !t.filtering,
        Screen::Setup(_) | Screen::Pending => false,
    }
}

/// How a key press is handled: `?` toggles the help overlay; while it is
/// open, `Esc` closes it and other keys do nothing; otherwise `q` quits and
/// `R` force-refreshes everything wherever the screen takes global keys, and
/// any other key goes to the screen on show.
pub open spec fn key_handled(key: Key, a0: AppState, a1: AppState, r: Option<Command>) -> bool {
    if key == Key::Char('?') {
        a1 == (AppState { help_open: !a0.help_open, ..a0 }) && r is None
    } else if a0.help_open {
        r is None && if key == Key::Esc {
            a1 == (AppState { help_open: false, ..a0 })
        } else {
            a1 == a0
        }
    } else if key == Key::Char('q') && takes_global_keys(a0.screen) {
        a1 == (AppState { should_quit: true, ..a0 }) && r is None
    } else if key == Key::Char('R') && takes_global_keys(a0.screen) {
        a1 == a0 && (r matches Some(Command::RefreshAll))
    } else {
        match a0.screen {
            Screen::Setup(s) => exists|s1: setup::State, a2: AppState|
                #![trigger setup::handled(key, *s, pending(a0), s1, a2, r)]
                setup::handled(key, *s, pending(a0), s1, a2, r) && a1 == restored(
                    a2,
                    Screen::Setup(Box::new(s1)),
                ),
            Screen::Dashboard => exists|a2: AppState|
                #![trigger dashboard::handled(key, pending(a0), a2, r)]
                dashboard::handled(key, pending(a0), a2, r) && a1 == restored(a2, Screen::Dashboard),
            Screen::Tickets(s) => exists|s1: tickets::State, a2: AppState|
                #![trigger tickets::handled(key, s, pending(a0), s1, a2, r)]
                tickets::handled(key, s, pending(a0), s1, a2, r) && a1 == restored(
                    a2,
                    Screen::Tickets(s1),
                ),
            Screen::TicketDetail(s) => exists|s1: ticket_detail::State, a2: AppState|
                #![trigger ticket_detail::handled(key, *s, pending(a0), s1, a2, r)]
                ticket_detail::handled(key, *s, pending(a0), s1, a2, r) && a1 == restored(
                    a2,
                    Screen::TicketDetail(Box::new(s1)),
                ),
            Screen::ConfirmCreate(s) => exists|s1: confirm_create::State, a2: AppState|
                #![trigger confirm_create::handled(key, *s, pending(a0), s1, a2, r)]
                confirm_create::handled(key, *s, pending(a0), s1, a2, r) && a1 == restored(
                    a2,
                    Screen::ConfirmCreate(Box::new(s1)),
                ),
            Screen::Worktrees(s) => exists|s1: worktrees::State, a2: AppState|
                #![trigger worktrees::handled(key, s, pending(a0), s1, a2, r)]
                worktrees::handled(key, s, pending(a0), s1, a2, r) && a1 == restored(
                    a2,
                    Screen::Worktrees(s1),
                ),
            Screen::Prs(s) => exists|s1: prs::State, a2: AppState|
                #![trigger prs::handled(key, s, pending(a0), s1, a2, r)]
                prs::handled(key, s, pending(a0), s1, a2, r) && a1 == restored(a2, Screen::Prs(s1)),
            Screen::Pending => a1 == (AppState { screen: Screen::Dashboard, ..a0 }) && r is None,
        }
    }
}

/// `?` toggles the help overlay: pressing it twice leaves the state as it
/// was, and asks for nothing.
pub proof fn law_help_toggle_twice(a0: AppState, a1: AppState, a2: AppState, r1: Option<Command>, r2: Option<Command>)
    requires
        key_handled(Key::Char('?'), a0, a1, r1),
        key_handled(Key::Char('?'), a1, a2, r2),
    ensures
        a2 == a0,
        r1 is None && r2 is None,
{
}

impl AppState {
    /// The state at start-up, showing the cached data of the last run.
    pub fn new(
        config: Config,
        screen: Screen,
        tickets_cache: Option<CacheEntry<Vec<Ticket>>>,
        repos_cache: Option<CacheEntry<Vec<Repo>>>,
        worktrees_cache: Option<CacheEntry<Vec<Worktree>>>,
        prs_cache: RepoMap<CacheEntry<Vec<Pr>>>,
    ) -> (r: AppState)
        ensures
            r.config == config,
            r.screen == screen,
            r.tmux.socket_name is None,
            same_items(r.data.tickets, shown_from(tickets_cache)),
            same_items(r.data.repos, shown_from(repos_cache)),
            same_items(r.data.worktrees, shown_from(worktrees_cache)),
            r.data.prs is NotLoaded,
            !r.help_open,
            r.toast is None,
            r.tick == 0,
            r.pending_attach is None,
            !r.should_quit,
            r.dirty,
            r.tickets_cache == tickets_cache,
            r.repos_cache == repos_cache,
            r.worktrees_cache == worktrees_cache,
            r.prs_cache == prs_cache,
            r.registry.next_id() == 0,
            r.registry.pending() == Set::<u64>::empty(),
            r.current_tickets_fetch is None,
            r.current_repos_fetch is None,
            r.current_worktrees_fetch is None,
            r.current_prs_fetch.size() == 0,
            fetches_tracked(r),
    {
        let mut data = DataStore::default();
        match &tickets_cache {
            Some(e) => {
                data.tickets = LoadState::Loaded(clone_tickets(&e.value));
            },
            None => {},
        }
        match &repos_cache {
            Some(e) => {
                data.repos = LoadState::Loaded(clone_repos(&e.value));
            },
            None => {},
        }
        match &worktrees_cache {
            Some(e) => {
                data.worktrees = LoadState::Loaded(clone_worktrees(&e.value));
            },
            None => {},
        }
        AppState {
            config,
            tmux: Tmux::new(),
            data,
            screen,
            help_open: false,
            toast: None,
            tick: 0,
            pending_attach: None,
            should_quit: false,
            dirty: true,
            tickets_cache,
            repos_cache,
            worktrees_cache,
            prs_cache,
            registry: Registry::new(),
            current_tickets_fetch: None,
            current_repos_fetch: None,
            current_worktrees_fetch: None,
            current_prs_fetch: RepoMap::new(),
        }
    }

    /// How many fetches the status bar shows as running: one per data kind
    /// with a fetch in flight, and one per repository whose pull requests are
    /// being fetched.
    pub fn in_flight_count(&self) -> (r: usize)
        requires
            self.current_prs_fetch.size() + 3 <= usize::MAX,
        ensures
            r == (if self.current_tickets_fetch is Some {
                1int
            } else {
                0int
            }) + (if self.current_repos_fetch is Some {
                1int
            } else {
                0int
            }) + (if self.current_worktrees_fetch is Some {
                1int
            } else {
                0int
            }) + self.current_prs_fetch.size(),
    {
        let a: usize = if self.current_tickets_fetch.is_some() {
            1
        } else {
            0
        };
        let b: usize = if self.current_repos_fetch.is_some() {
            1
        } else {
            0
        };
        let c: usize = if self.current_worktrees_fetch.is_some() {
            1
        } else {
            0
        };
        a + b + c + self.current_prs_fetch.len()
    }
}

/// A timer tick: the spinner advances, and the screen is redrawn while
/// fetches are running.
pub fn on_tick(app: &mut AppState)
    requires
        old(app).current_prs_fetch.size() + 3 <= usize::MAX,
    ensures
        final(app).tick == (if old(app).tick == u64::MAX {
            0
        } else {
            old(app).tick + 1
        }),
        final(app).dirty == (old(app).dirty || old(app).current_tickets_fetch is Some || old(
            app,
        ).current_repos_fetch is Some || old(app).current_worktrees_fetch is Some || old(
            app,
        ).current_prs_fetch.size() > 0),
        *final(app) == (AppState { tick: final(app).tick, dirty: final(app).dirty, ..*old(app) }),
{
    app.tick = app.tick.wrapping_add(1);
    if app.in_flight_count() > 0 {
        app.dirty = true;
    }
}

/// Route a key press: the help overlay first, then the global keys `q` and
/// `R`, then the screen on show.
pub fn handle_key(key: Key, app: &mut AppState) -> (r: Option<Command>)
    ensures
        key_handled(key, *old(app), *final(app), r),
{
    if key == Key::Char('?') {
        app.help_open = !app.help_open;
        return None;
    }
    if app.help_open {
        if key == Key::Esc {
            app.help_open = false;
        }
        return None;
    }
    if (key == Key::Char('q') || key == Key::Char('R')) && app.screen.takes_global_keys() {
        if key == Key::Char('q') {
            app.should_quit = true;
            return None;
        }
        return Some(Command::RefreshAll);
    }
    let ghost a0 = *app;
    let mut on_show = Screen::Pending;
    std::mem::swap(&mut on_show, &mut app.screen);
    assert(*app == pending(a0));
    let (untouched, cmd) = match on_show {
        Screen::Setup(mut s) => {
            let cmd = setup::handle(key, &mut *s, app);
            (Screen::Setup(s), cmd)
        },
        Screen::Dashboard => {
            let cmd = dashboard::handle(key, app);
            (Screen::Dashboard, cmd)
        },
        Screen::Tickets(mut s) => {
            let cmd = tickets::handle(key, &mut s, app);
            (Screen::Tickets(s), cmd)
        },
        Screen::TicketDetail(mut s) => {
            let cmd = ticket_detail::handle(key, &mut *s, app);
            (Screen::TicketDetail(s), cmd)
        },
        Screen::ConfirmCreate(mut s) => {
            let cmd = confirm_create::handle(key, &mut *s, app);
            (Screen::ConfirmCreate(s), cmd)
        },
        Screen::Worktrees(mut s) => {
            let cmd = worktrees::handle(key, &mut s, app);
            (Screen::Worktrees(s), cmd)
        },
        Screen::Prs(mut s) => {
            let cmd = prs::handle(key, &mut s, app);
            (Screen::Prs(s), cmd)
        },
        Screen::Pending => (Screen::Dashboard, None),
    };
    let ghost a2 = *app;
    if app.screen.is_pending() {
        app.screen = untouched;
    }
    cmd
}

impl Screen {
    pub fn takes_global_keys(&self) -> (r: bool)
        ensures
            r == takes_global_keys(*self),
    {
        match self {
            Screen::Tickets(t) => !t.filtering,
            Screen::Setup(_) | Screen::Pending => false,
            _ => true,
        }
    }

    pub fn is_pending(&self) -> (r: bool)
        ensures
            r == self is Pending,
    {
        match self {
            Screen::Pending => true,
            _ => false,
        }
    }
}

} // verus!

verus! {

/// What a data kind shows when a fetch starts: what it already showed if
/// that was loaded data, else the cached value, else "loading".
pub open spec fn surfaced<T>(cache: Option<CacheEntry<Vec<T>>>, d: LoadState<Vec<T>>) -> LoadState<
    Vec<T>,
> {
    if d is Loaded {
        d
    } else {
        match cache {
            Some(e) => LoadState::Loaded(e.value),
            None => LoadState::Loading,
        }
    }
}

/// No fetch is issued when the cached value is fresh, or one is already in
/// flight, unless forced.
pub open spec fn fetch_skipped(cached: bool, fresh: bool, force: bool, in_flight: bool) -> bool {
    (cached && fresh && !force) || (!force && in_flight)
}

/// `r1` is `r0` after the fetch `prev` (if any) was cancelled and `id` issued.
pub open spec fn issued(r0: Registry, r1: Registry, prev: Option<FetchId>, id: FetchId) -> bool {
    &&& id.0 == r0.next_id()
    &&& r1.next_id() == (if r0.next_id() == u64::MAX {
        0
    } else {
        r0.next_id() + 1
    })
    &&& r1.pending() == match prev {
        Some(p) => r0.pending().remove(p.0),
        None => r0.pending(),
    }.insert(id.0)
}

impl<T> LoadState<T> {
    pub fn is_loaded(&self) -> (r: bool)
        ensures
            r == self is Loaded,
    {
        match self {
            LoadState::Loaded(_) => true,
            _ => false,
        }
    }
}

/// What starting a tickets fetch does, given whether the cached tickets are
/// still fresh: the cached value is shown at once (or "loading" when there
/// is none), and a fetch is issued unless the cache is fresh or one is
/// already running (both only without `force`). A forced fetch cancels the
/// one in flight.
pub open spec fn tickets_begun(
    a0: AppState,
    a1: AppState,
    force: bool,
    fresh: bool,
    r: Option<(FetchId, CancellationToken)>,
) -> bool {
    &&& same_items(a1.data.tickets, surfaced(a0.tickets_cache, a0.data.tickets))
    &&& if fetch_skipped(a0.tickets_cache is Some, fresh, force, a0.current_tickets_fetch is Some) {
        &&& r is None
        &&& a1 == AppState { data: DataStore { tickets: a1.data.tickets, ..a0.data }, ..a0 }
    } else {
        &&& (r matches Some((id, _)) && issued(a0.registry, a1.registry, a0.current_tickets_fetch, id)
            && a1.current_tickets_fetch == Some(id))
        &&& a1 == AppState {
            data: DataStore { tickets: a1.data.tickets, ..a0.data },
            registry: a1.registry,
            current_tickets_fetch: a1.current_tickets_fetch,
            ..a0
        }
    }
}

/// Start a tickets fetch, knowing whether the cached tickets are fresh; returns
/// the new fetch's id and token.
pub fn begin_tickets_fetch_at(app: &mut AppState, force: bool, fresh: bool) -> (r: Option<
    (FetchId, CancellationToken),
>)
    ensures
        tickets_begun(*old(app), *final(app), force, fresh, r),
{
    match &app.tickets_cache {
        Some(entry) => {
            if !app.data.tickets.is_loaded() {
                app.data.tickets = LoadState::Loaded(clone_tickets(&entry.value));
            }
            if fresh && !force {
                return None;
            }
        },
        None => {
            if !app.data.tickets.is_loaded() {
                app.data.tickets = LoadState::Loading;
            }
        },
    }
    if !force && app.current_tickets_fetch.is_some() {
        return None;
    }
    match app.current_tickets_fetch {
        Some(prev) => {
            app.registry.cancel(prev);
        },
        None => {},
    }
    let (id, token) = app.registry.issue();
    app.current_tickets_fetch = Some(id);
    Some((id, token))
}

/// How many tickets one search asks for.
pub const TICKETS_SEARCH_LIMIT: usize = 100;

/// How many repositories one listing asks for.
pub const REPOS_LIST_LIMIT: usize = 50;

/// The search a tickets fetch runs: the configured query for the user's
/// open tickets, asking for up to `TICKETS_SEARCH_LIMIT` of them.
pub fn tickets_search(config: &Config) -> (r: (String, usize))
    ensures
        r.0@ == config.jira.jql_my_open@,
        r.1 == TICKETS_SEARCH_LIMIT,
{
    (config.jira.jql_my_open.clone(), TICKETS_SEARCH_LIMIT)
}

/// Whether the cached tickets are fresh at `now` (milliseconds since the
/// Unix epoch): fetched less than `TICKETS_TTL` (5 min) before it.
pub open spec fn tickets_fresh(a: AppState, now: i64) -> bool {
    match a.tickets_cache {
        Some(e) => is_fresh_at(e.fetched_at, now, TICKETS_TTL),
        None => false,
    }
}

/// Start a tickets fetch (see `tickets_begun`) at time `now`, judging the
/// cache's freshness by `TICKETS_TTL`.
pub fn begin_tickets_fetch_by_clock(app: &mut AppState, force: bool, now: i64) -> (r: Option<
    (FetchId, CancellationToken),
>)
    ensures
        tickets_begun(*old(app), *final(app), force, tickets_fresh(*old(app), now), r),
{
    let fresh = match &app.tickets_cache {
        Some(e) => fresh_at(e.fetched_at, now, TICKETS_TTL),
        None => false,
    };
    begin_tickets_fetch_at(app, force, fresh)
}

/// Start a tickets fetch (see `tickets_begun`), judging the cache's freshness
/// against the clock.
pub fn begin_tickets_fetch(app: &mut AppState, force: bool) -> (r: Option<(FetchId, CancellationToken)>)
    ensures
        exists|now: i64| tickets_begun(*old(app), *final(app), force, tickets_fresh(*old(app), now), r),
{
    let now = now_millis();
    begin_tickets_fetch_by_clock(app, force, now)
}

/// What starting a repos fetch does, given whether the cached repos are
/// still fresh: the cached value is shown at once (or "loading" when there
/// is none), and a fetch is issued unless the cache is fresh or one is
/// already running (both only without `force`). A forced fetch cancels the
/// one in flight.
pub open spec fn repos_begun(
    a0: AppState,
    a1: AppState,
    force: bool,
    fresh: bool,
    r: Option<(FetchId, CancellationToken)>,
) -> bool {
    &&& same_items(a1.data.repos, surfaced(a0.repos_cache, a0.data.repos))
    &&& if fetch_skipped(a0.repos_cache is Some, fresh, force, a0.current_repos_fetch is Some) {
        &&& r is None
        &&& a1 == AppState { data: DataStore { repos: a1.data.repos, ..a0.data }, ..a0 }
    } else {
        &&& (r matches Some((id, _)) && issued(a0.registry, a1.registry, a0.current_repos_fetch, id)
            && a1.current_repos_fetch == Some(id))
        &&& a1 == AppState {
            data: DataStore { repos: a1.data.repos, ..a0.data },
            registry: a1.registry,
            current_repos_fetch: a1.current_repos_fetch,
            ..a0
        }
    }
}

/// Start a repos fetch, knowing whether the cached repos are fresh; returns
/// the new fetch's id and token.
pub fn begin_repos_fetch_at(app: &mut AppState, force: bool, fresh: bool) -> (r: Option<
    (FetchId, CancellationToken),
>)
    ensures
        repos_begun(*old(app), *final(app), force, fresh, r),
{
    match &app.repos_cache {
        Some(entry) => {
            if !app.data.repos.is_loaded() {
                app.data.repos = LoadState::Loaded(clone_repos(&entry.value));
            }
            if fresh && !force {
                return None;
            }
        },
        None => {
            if !app.data.repos.is_loaded() {
                app.data.repos = LoadState::Loading;
            }
        },
    }
    if !force && app.current_repos_fetch.is_some() {
        return None;
    }
    match app.current_repos_fetch {
        Some(prev) => {
            app.registry.cancel(prev);
        },
        None => {},
    }
    let (id, token) = app.registry.issue();
    app.current_repos_fetch = Some(id);
    Some((id, token))
}

/// Whether the cached repos are fresh at `now` (milliseconds since the
/// Unix epoch): fetched less than `REPOS_TTL` (24 h) before it.
pub open spec fn repos_fresh(a: AppState, now: i64) -> bool {
    match a.repos_cache {
        Some(e) => is_fresh_at(e.fetched_at, now, REPOS_TTL),
        None => false,
    }
}

/// Start a repos fetch (see `repos_begun`) at time `now`, judging the
/// cache's freshness by `REPOS_TTL`.
pub fn begin_repos_fetch_by_clock(app: &mut AppState, force: bool, now: i64) -> (r: Option<
    (FetchId, CancellationToken),
>)
    ensures
        repos_begun(*old(app), *final(app), force, repos_fresh(*old(app), now), r),
{
    let fresh = match &app.repos_cache {
        Some(e) => fresh_at(e.fetched_at, now, REPOS_TTL),
        None => false,
    };
    begin_repos_fetch_at(app, force, fresh)
}

/// Start a repos fetch (see `repos_begun`), judging the cache's freshness
/// against the clock.
pub fn begin_repos_fetch(app: &mut AppState, force: bool) -> (r: Option<(FetchId, CancellationToken)>)
    ensures
        exists|now: i64| repos_begun(*old(app), *final(app), force, repos_fresh(*old(app), now), r),
{
    let now = now_millis();
    begin_repos_fetch_by_clock(app, force, now)
}

/// What starting a worktrees fetch does, given whether the cached worktrees are
/// still fresh: the cached value is shown at once (or "loading" when there
/// is none), and a fetch is issued unless the cache is fresh or one is
/// already running (both only without `force`). A forced fetch cancels the
/// one in flight.
pub open spec fn worktrees_begun(
    a0: AppState,
    a1: AppState,
    force: bool,
    fresh: bool,
    r: Option<(FetchId, CancellationToken)>,
) -> bool {
    &&& same_items(a1.data.worktrees, surfaced(a0.worktrees_cache, a0.data.worktrees))
    &&& if fetch_skipped(a0.worktrees_cache is Some, fresh, force, a0.current_worktrees_fetch is Some) {
        &&& r is None
        &&& a1 == AppState { data: DataStore { worktrees: a1.data.worktrees, ..a0.data }, ..a0 }
    } else {
        &&& (r matches Some((id, _)) && issued(a0.registry, a1.registry, a0.current_worktrees_fetch, id)
            && a1.current_worktrees_fetch == Some(id))
        &&& a1 == AppState {
            data: DataStore { worktrees: a1.data.worktrees, ..a0.data },
            registry: a1.registry,
            current_worktrees_fetch: a1.current_worktrees_fetch,
            ..a0
        }
    }
}

/// Start a worktrees fetch, knowing whether the cached worktrees are fresh; returns
/// the new fetch's id and token.
pub fn begin_worktrees_fetch_at(app: &mut AppState, force: bool, fresh: bool) -> (r: Option<
    (FetchId, CancellationToken),
>)
    ensures
        worktrees_begun(*old(app), *final(app), force, fresh, r),
{
    match &app.worktrees_cache {
        Some(entry) => {
            if !app.data.worktrees.is_loaded() {
                app.data.worktrees = LoadState::Loaded(clone_worktrees(&entry.value));
            }
            if fresh && !force {
                return None;
            }
        },
        None => {
            if !app.data.worktrees.is_loaded() {
                app.data.worktrees = LoadState::Loading;
            }
        },
    }
    if !force && app.current_worktrees_fetch.is_some() {
        return None;
    }
    match app.current_worktrees_fetch {
        Some(prev) => {
            app.registry.cancel(prev);
        },
        None => {},
    }
    let (id, token) = app.registry.issue();
    app.current_worktrees_fetch = Some(id);
    Some((id, token))
}

/// Whether the cached worktrees are fresh at `now` (milliseconds since the
/// Unix epoch): fetched less than `WORKTREES_TTL` (30 s) before it.
pub open spec fn worktrees_fresh(a: AppState, now: i64) -> bool {
    match a.worktrees_cache {
        Some(e) => is_fresh_at(e.fetched_at, now, WORKTREES_TTL),
        None => false,
    }
}

/// Start a worktrees fetch (see `worktrees_begun`) at time `now`, judging the
/// cache's freshness by `WORKTREES_TTL`.
pub fn begin_worktrees_fetch_by_clock(app: &mut AppState, force: bool, now: i64) -> (r: Option<
    (FetchId, CancellationToken),
>)
    ensures
        worktrees_begun(*old(app), *final(app), force, worktrees_fresh(*old(app), now), r),
{
    let fresh = match &app.worktrees_cache {
        Some(e) => fresh_at(e.fetched_at, now, WORKTREES_TTL),
        None => false,
    };
    begin_worktrees_fetch_at(app, force, fresh)
}

/// Start a worktrees fetch (see `worktrees_begun`), judging the cache's freshness
/// against the clock.
pub fn begin_worktrees_fetch(app: &mut AppState, force: bool) -> (r: Option<(FetchId, CancellationToken)>)
    ensures
        exists|now: i64| worktrees_begun(*old(app), *final(app), force, worktrees_fresh(*old(app), now), r),
{
    let now = now_millis();
    begin_worktrees_fetch_by_clock(app, force, now)
}

} // verus!

verus! {

/// The cached pull requests of `repo`, if any.
pub open spec fn prs_cached(a: AppState, repo: Seq<char>) -> Option<CacheEntry<Vec<Pr>>> {
    a.prs_cache.get_spec(repo)
}

/// What starting a pull-request fetch for `repo` does, given whether its
/// cached pull requests are fresh; as for the other kinds, per repository.
pub open spec fn prs_begun(
    a0: AppState,
    a1: AppState,
    repo: Seq<char>,
    force: bool,
    fresh: bool,
    r: Option<(FetchId, CancellationToken)>,
) -> bool {
    let in_flight = a0.current_prs_fetch.get_spec(repo);
    &&& same_items(a1.data.prs, surfaced(prs_cached(a0, repo), a0.data.prs))
    &&& if fetch_skipped(prs_cached(a0, repo) is Some, fresh, force, in_flight is Some) {
        &&& r is None
        &&& a1 == AppState { data: DataStore { prs: a1.data.prs, ..a0.data }, ..a0 }
    } else {
        &&& (r matches Some((id, _)) && issued(a0.registry, a1.registry, in_flight, id)
            && a1.current_prs_fetch.get_spec(repo) == Some(id))
        &&& forall|k: Seq<char>|
            k != repo ==> a1.current_prs_fetch.get_spec(k) == a0.current_prs_fetch.get_spec(k)
        &&& a1.current_prs_fetch.size() == if in_flight is Some {
            a0.current_prs_fetch.size()
        } else {
            a0.current_prs_fetch.size() + 1
        }
        &&& a1 == AppState {
            data: DataStore { prs: a1.data.prs, ..a0.data },
            registry: a1.registry,
            current_prs_fetch: a1.current_prs_fetch,
            ..a0
        }
    }
}

/// Start fetching the open pull requests of `repo`, knowing whether its
/// cached pull requests are fresh.
pub fn begin_prs_fetch_at(app: &mut AppState, repo: &RepoFullName, force: bool, fresh: bool) -> (r:
    Option<(FetchId, CancellationToken)>)
    ensures
        prs_begun(*old(app), *final(app), repo@, force, fresh, r),
{
    match app.prs_cache.get(repo) {
        Some(entry) => {
            if !app.data.prs.is_loaded() {
                app.data.prs = LoadState::Loaded(clone_prs(&entry.value));
            }
            if fresh && !force {
                return None;
            }
        },
        None => {
            if !app.data.prs.is_loaded() {
                app.data.prs = LoadState::Loading;
            }
        },
    }
    if !force {
        if app.current_prs_fetch.contains_key(repo) {
            return None;
        }
    } else {
        match app.current_prs_fetch.remove(repo) {
            Some(prev) => {
                app.registry.cancel(prev);
            },
            None => {},
        }
    }
    let (id, token) = app.registry.issue();
    app.current_prs_fetch.insert(repo.clone(), id);
    Some((id, token))
}

/// Whether the cached pull requests of `repo` are fresh at `now`
/// (milliseconds since the Unix epoch): fetched less than `PRS_TTL` (2 min)
/// before it.
pub open spec fn prs_fresh(a: AppState, repo: Seq<char>, now: i64) -> bool {
    match prs_cached(a, repo) {
        Some(e) => is_fresh_at(e.fetched_at, now, PRS_TTL),
        None => false,
    }
}

/// Start fetching the open pull requests of `repo` at time `now`, judging
/// its cache's freshness by `PRS_TTL`.
pub fn begin_prs_fetch_by_clock(app: &mut AppState, repo: &RepoFullName, force: bool, now: i64) -> (r:
    Option<(FetchId, CancellationToken)>)
    ensures
        prs_begun(*old(app), *final(app), repo@, force, prs_fresh(*old(app), repo@, now), r),
{
    let fresh = match app.prs_cache.get(repo) {
        Some(e) => fresh_at(e.fetched_at, now, PRS_TTL),
        None => false,
    };
    begin_prs_fetch_at(app, repo, force, fresh)
}

/// Start fetching the open pull requests of `repo`, judging its cache's
/// freshness against the clock.
pub fn begin_prs_fetch(app: &mut AppState, repo: &RepoFullName, force: bool) -> (r: Option<
    (FetchId, CancellationToken),
>)
    ensures
        exists|now: i64| prs_begun(*old(app), *final(app), repo@, force, prs_fresh(*old(app), repo@, now), r),
{
    let now = now_millis();
    begin_prs_fetch_by_clock(app, repo, force, now)
}

/// The time-to-lives at work: with no fetch of the kind in flight and
/// nothing forced, a fetch is issued once the cache is at least its
/// time-to-live old at `now` (5 min for tickets, 24 h for repositories, 30 s
/// for worktrees, 2 min for a repository's pull requests) or there is no
/// cache, and none while it is younger.
pub proof fn law_fetch_when_stale(
    a0: AppState,
    a1: AppState,
    repo: Seq<char>,
    now: i64,
    r: Option<(FetchId, CancellationToken)>,
)
    ensures
        tickets_begun(a0, a1, false, tickets_fresh(a0, now), r) && a0.current_tickets_fetch is None
            && (a0.tickets_cache matches Some(e) ==> now - e.fetched_at >= 300_000) ==> r is Some,
        tickets_begun(a0, a1, false, tickets_fresh(a0, now), r) && (a0.tickets_cache matches Some(e)
            && 0 <= now - e.fetched_at < 300_000) ==> r is None,
        repos_begun(a0, a1, false, repos_fresh(a0, now), r) && a0.current_repos_fetch is None
            && (a0.repos_cache matches Some(e) ==> now - e.fetched_at >= 86_400_000) ==> r is Some,
        repos_begun(a0, a1, false, repos_fresh(a0, now), r) && (a0.repos_cache matches Some(e)
            && 0 <= now - e.fetched_at < 86_400_000) ==> r is None,
        worktrees_begun(a0, a1, false, worktrees_fresh(a0, now), r) && a0.current_worktrees_fetch
            is None && (a0.worktrees_cache matches Some(e) ==> now - e.fetched_at >= 30_000) ==> r is Some,
        worktrees_begun(a0, a1, false, worktrees_fresh(a0, now), r) && (a0.worktrees_cache matches Some(
            e,
        ) && 0 <= now - e.fetched_at < 30_000) ==> r is None,
        prs_begun(a0, a1, repo, false, prs_fresh(a0, repo, now), r) && a0.current_prs_fetch.get_spec(
            repo,
        ) is None && (prs_cached(a0, repo) matches Some(e) ==> now - e.fetched_at >= 120_000) ==> r is Some,
        prs_begun(a0, a1, repo, false, prs_fresh(a0, repo, now), r) && (prs_cached(a0, repo) matches Some(
            e,
        ) && 0 <= now - e.fetched_at < 120_000) ==> r is None,
{
}

/// A forced refresh cancels the fetch of the same kind that was in flight:
/// once the new fetch is issued, the old one is no longer pending, so its
/// late result is dropped, and the number of fetches in flight is unchanged.
pub proof fn law_force_cancels_previous(r0: Registry, r1: Registry, prev: FetchId, id: FetchId)
    requires
        r0.wf(),
        r0.next_id() < u64::MAX,
        r0.pending().contains(prev.0),
        issued(r0, r1, Some(prev), id),
    ensures
        !r1.pending().contains(prev.0),
        r1.pending().contains(id.0),
        id != prev,
        r1.pending().len() == r0.pending().len(),
{
    assert(!r0.pending().contains(id.0));
    assert(r0.pending().remove(prev.0).len() == r0.pending().len() - 1);
}

} // verus!

verus! {

fn is_id(cur: Option<FetchId>, id: FetchId) -> (r: bool)
    ensures
        r == (cur == Some(id)),
{
    match cur {
        Some(c) => c.0 == id.0,
        None => false,
    }
}

/// `prefix` followed by `msg`.
pub fn prefixed(prefix: &str, msg: &String) -> (r: String)
    ensures
        r@ == prefix@ + msg@,
{
    let mut v = chars_of(prefix);
    extend_str(&mut v, msg.as_str());
    string_of(&v)
}

/// What a finished tickets fetch changes: it is no longer the one in flight;
/// on success its tickets are shown and cached; on failure the cached tickets
/// stay on show with an error toast, or the failure is shown when nothing
/// was cached.
pub open spec fn tickets_applied(id: FetchId, res: Result<Vec<Ticket>, String>, a0: AppState, a1: AppState) -> bool {
    let cur = if a0.current_tickets_fetch == Some(id) {
        None
    } else {
        a0.current_tickets_fetch
    };
    match res {
        Ok(v) => {
            &&& (a1.data.tickets matches LoadState::Loaded(w) && w@ == v@)
            &&& (a1.tickets_cache matches Some(e) && e.value@ == v@)
            &&& a1 == AppState {
                data: DataStore { tickets: a1.data.tickets, ..a0.data },
                tickets_cache: a1.tickets_cache,
                current_tickets_fetch: cur,
                ..a0
            }
        },
        Err(m) => if a0.tickets_cache is Some {
            &&& (a1.toast matches Some(t) && t.level == ToastLevel::Error && t.message@ == "tickets: "@
                + m@)
            &&& a1 == AppState { toast: a1.toast, current_tickets_fetch: cur, ..a0 }
        } else {
            a1 == AppState {
                data: DataStore { tickets: LoadState::Failed(m), ..a0.data },
                current_tickets_fetch: cur,
                ..a0
            }
        },
    }
}

fn apply_tickets(id: FetchId, res: Result<Vec<Ticket>, String>, app: &mut AppState)
    ensures
        tickets_applied(id, res, *old(app), *final(app)),
{
    if is_id(app.current_tickets_fetch, id) {
        app.current_tickets_fetch = None;
    }
    match res {
        Ok(v) => {
            app.tickets_cache = Some(CacheEntry::new(clone_tickets(&v)));
            app.data.tickets = LoadState::Loaded(v);
        },
        Err(m) => {
            if app.tickets_cache.is_some() {
                app.toast = Some(Toast::error(prefixed("tickets: ", &m)));
            } else {
                app.data.tickets = LoadState::Failed(m);
            }
        },
    }
}

/// What a finished repos fetch changes: it is no longer the one in flight;
/// on success its repos are shown and cached; on failure the cached repos
/// stay on show with an error toast, or the failure is shown when nothing
/// was cached.
pub open spec fn repos_applied(id: FetchId, res: Result<Vec<Repo>, String>, a0: AppState, a1: AppState) -> bool {
    let cur = if a0.current_repos_fetch == Some(id) {
        None
    } else {
        a0.current_repos_fetch
    };
    match res {
        Ok(v) => {
            &&& (a1.data.repos matches LoadState::Loaded(w) && w@ == v@)
            &&& (a1.repos_cache matches Some(e) && e.value@ == v@)
            &&& a1 == AppState {
                data: DataStore { repos: a1.data.repos, ..a0.data },
                repos_cache: a1.repos_cache,
                current_repos_fetch: cur,
                ..a0
            }
        },
        Err(m) => if a0.repos_cache is Some {
            &&& (a1.toast matches Some(t) && t.level == ToastLevel::Error && t.message@ == "repos: "@
                + m@)
            &&& a1 == AppState { toast: a1.toast, current_repos_fetch: cur, ..a0 }
        } else {
            a1 == AppState {
                data: DataStore { repos: LoadState::Failed(m), ..a0.data },
                current_repos_fetch: cur,
                ..a0
            }
        },
    }
}

fn apply_repos(id: FetchId, res: Result<Vec<Repo>, String>, app: &mut AppState)
    ensures
        repos_applied(id, res, *old(app), *final(app)),
{
    if is_id(app.current_repos_fetch, id) {
        app.current_repos_fetch = None;
    }
    match res {
        Ok(v) => {
            app.repos_cache = Some(CacheEntry::new(clone_repos(&v)));
            app.data.repos = LoadState::Loaded(v);
        },
        Err(m) => {
            if app.repos_cache.is_some() {
                app.toast = Some(Toast::error(prefixed("repos: ", &m)));
            } else {
                app.data.repos = LoadState::Failed(m);
            }
        },
    }
}

/// What a finished worktrees fetch changes: it is no longer the one in flight;
/// on success its worktrees are shown and cached; on failure the cached worktrees
/// stay on show with an error toast, or the failure is shown when nothing
/// was cached.
pub open spec fn worktrees_applied(id: FetchId, res: Result<Vec<Worktree>, String>, a0: AppState, a1: AppState) -> bool {
    let cur = if a0.current_worktrees_fetch == Some(id) {
        None
    } else {
        a0.current_worktrees_fetch
    };
    match res {
        Ok(v) => {
            &&& (a1.data.worktrees matches LoadState::Loaded(w) && w@ == v@)
            &&& (a1.worktrees_cache matches Some(e) && e.value@ == v@)
            &&& a1 == AppState {
                data: DataStore { worktrees: a1.data.worktrees, ..a0.data },
                worktrees_cache: a1.worktrees_cache,
                current_worktrees_fetch: cur,
                ..a0
            }
        },
        Err(m) => if a0.worktrees_cache is Some {
            &&& (a1.toast matches Some(t) && t.level == ToastLevel::Error && t.message@ == "worktrees: "@
                + m@)
            &&& a1 == AppState { toast: a1.toast, current_worktrees_fetch: cur, ..a0 }
        } else {
            a1 == AppState {
                data: DataStore { worktrees: LoadState::Failed(m), ..a0.data },
                current_worktrees_fetch: cur,
                ..a0
            }
        },
    }
}

fn apply_worktrees(id: FetchId, res: Result<Vec<Worktree>, String>, app: &mut AppState)
    ensures
        worktrees_applied(id, res, *old(app), *final(app)),
{
    if is_id(app.current_worktrees_fetch, id) {
        app.current_worktrees_fetch = None;
    }
    match res {
        Ok(v) => {
            app.worktrees_cache = Some(CacheEntry::new(clone_worktrees(&v)));
            app.data.worktrees = LoadState::Loaded(v);
        },
        Err(m) => {
            if app.worktrees_cache.is_some() {
                app.toast = Some(Toast::error(prefixed("worktrees: ", &m)));
            } else {
                app.data.worktrees = LoadState::Failed(m);
            }
        },
    }
}

/// What a finished pull-request fetch for `repo` changes, as for the other
/// kinds, per repository.
pub open spec fn prs_applied(
    id: FetchId,
    repo: Seq<char>,
    res: Result<Vec<Pr>, String>,
    a0: AppState,
    a1: AppState,
) -> bool {
    let done = a0.current_prs_fetch.get_spec(repo) == Some(id);
    &&& (if done {
        a1.current_prs_fetch.get_spec(repo) is None
    } else {
        a1.current_prs_fetch.get_spec(repo) == a0.current_prs_fetch.get_spec(repo)
    })
    &&& forall|k: Seq<char>|
        k != repo ==> a1.current_prs_fetch.get_spec(k) == a0.current_prs_fetch.get_spec(k)
    &&& a1.current_prs_fetch.size() == (if done {
        (a0.current_prs_fetch.size() - 1) as nat
    } else {
        a0.current_prs_fetch.size()
    })
    &&& match res {
        Ok(v) => {
            &&& (a1.data.prs matches LoadState::Loaded(w) && w@ == v@)
            &&& (a1.prs_cache.get_spec(repo) matches Some(e) && e.value@ == v@)
            &&& forall|k: Seq<char>| k != repo ==> a1.prs_cache.get_spec(k) == a0.prs_cache.get_spec(k)
            &&& a1 == AppState {
                data: DataStore { prs: a1.data.prs, ..a0.data },
                prs_cache: a1.prs_cache,
                current_prs_fetch: a1.current_prs_fetch,
                ..a0
            }
        },
        Err(m) => if a0.prs_cache.get_spec(repo) is Some {
            &&& (a1.toast matches Some(t) && t.level == ToastLevel::Error && t.message@ == "prs: "@
                + m@)
            &&& a1 == AppState { toast: a1.toast, current_prs_fetch: a1.current_prs_fetch, ..a0 }
        } else {
            a1 == AppState {
                data: DataStore { prs: LoadState::Failed(m), ..a0.data },
                current_prs_fetch: a1.current_prs_fetch,
                ..a0
            }
        },
    }
}

fn apply_prs(id: FetchId, repo: RepoFullName, res: Result<Vec<Pr>, String>, app: &mut AppState)
    ensures
        prs_applied(id, repo@, res, *old(app), *final(app)),
{
    let done = match app.current_prs_fetch.get(&repo) {
        Some(c) => c.0 == id.0,
        None => false,
    };
    if done {
        app.current_prs_fetch.remove(&repo);
    }
    match res {
        Ok(v) => {
            app.prs_cache.insert(repo, CacheEntry::new(clone_prs(&v)));
            app.data.prs = LoadState::Loaded(v);
        },
        Err(m) => {
            if app.prs_cache.contains_key(&repo) {
                app.toast = Some(Toast::error(prefixed("prs: ", &m)));
            } else {
                app.data.prs = LoadState::Failed(m);
            }
        },
    }
}

/// What a finished fetch changes, by kind.
pub open spec fn fetch_applied(id: FetchId, result: FetchResult, a0: AppState, a1: AppState) -> bool {
    match result {
        FetchResult::Tickets(r) => tickets_applied(id, r, a0, a1),
        FetchResult::Repos(r) => repos_applied(id, r, a0, a1),
        FetchResult::Worktrees(r) => worktrees_applied(id, r, a0, a1),
        FetchResult::Prs(repo, r) => prs_applied(id, repo@, r, a0, a1),
    }
}

/// Apply the result of a finished fetch.
pub fn apply_fetch(id: FetchId, result: FetchResult, app: &mut AppState)
    ensures
        fetch_applied(id, result, *old(app), *final(app)),
{
    match result {
        FetchResult::Tickets(r) => apply_tickets(id, r, app),
        FetchResult::Repos(r) => apply_repos(id, r, app),
        FetchResult::Worktrees(r) => apply_worktrees(id, r, app),
        FetchResult::Prs(repo, r) => apply_prs(id, repo, r, app),
    }
}

/// What a finished fetch changes: the registry no longer has it pending;
/// if it was pending, its result is applied and the screen marked for
/// redrawing; if it was not (it was cancelled, or its result already came),
/// nothing else changes.
pub open spec fn fetch_done(id: FetchId, result: FetchResult, a0: AppState, a1: AppState) -> bool {
    &&& crate::runtime::cancelled(a0.registry, a1.registry, id.0)
    &&& !a0.registry.pending().contains(id.0) ==> a1 == (AppState { registry: a1.registry, ..a0 })
    &&& a0.registry.pending().contains(id.0) ==> a1.dirty && fetch_applied(
        id,
        result,
        AppState { registry: a1.registry, ..a0 },
        AppState { dirty: a0.dirty, ..a1 },
    )
}

/// A forced tickets refresh while a tickets fetch is in flight: the new
/// fetch becomes the current one, and when the old fetch's result arrives
/// afterwards it is dropped: nothing changes but the registry, which still
/// has the new fetch pending.
pub proof fn law_forced_refresh_drops_late_result(
    a0: AppState,
    a1: AppState,
    a2: AppState,
    fresh: bool,
    r: Option<(FetchId, CancellationToken)>,
    prev: FetchId,
    late: FetchResult,
)
    requires
        a0.registry.wf(),
        a0.registry.next_id() < u64::MAX,
        a0.current_tickets_fetch == Some(prev),
        a0.registry.pending().contains(prev.0),
        tickets_begun(a0, a1, true, fresh, r),
        fetch_done(prev, late, a1, a2),
    ensures
        a2 == (AppState { registry: a2.registry, ..a1 }),
        r matches Some((id, _)) && id != prev && a2.current_tickets_fetch == Some(id)
            && a2.registry.pending().contains(id.0),
        !a2.registry.pending().contains(prev.0),
{
    assert(!a1.registry.pending().contains(prev.0));
    assert(a2.registry.pending() =~= a1.registry.pending().remove(prev.0));
}

/// A fetch finished. Its result is applied (and the screen redrawn) only
/// when the fetch was still pending; the result of a fetch that was
/// cancelled or already completed is dropped and changes nothing.
pub fn on_fetch_done(id: FetchId, result: FetchResult, app: &mut AppState)
    ensures
        fetch_done(id, result, *old(app), *final(app)),
{
    if !app.registry.complete(id) {
        return;
    }
    let ghost a1 = *app;
    apply_fetch(id, result, app);
    app.dirty = true;
}

} // verus!

verus! {

/// Position of the first pull request of `repo` numbered `n`, or the length.
pub open spec fn pr_index(s: Seq<Pr>, repo: Seq<char>, n: u64) -> nat
    decreases s.len(),
{
    if s.len() == 0 {
        0
    } else if s[0].repo@ == repo && s[0].number.0 == n {
        0
    } else {
        1 + pr_index(s.drop_first(), repo, n)
    }
}

proof fn lemma_pr_index_unique(s: Seq<Pr>, repo: Seq<char>, n: u64, i: int)
    requires
        0 <= i <= s.len(),
        i < s.len() ==> s[i].repo@ == repo && s[i].number.0 == n,
        forall|j: int| 0 <= j < i ==> !((#[trigger] s[j]).repo@ == repo && s[j].number.0 == n),
    ensures
        pr_index(s, repo, n) == i,
    decreases s.len(),
{
    if s.len() > 0 && i > 0 {
        assert(!(s[0].repo@ == repo && s[0].number.0 == n));
        assert forall|j: int| 0 <= j < i - 1 implies !((#[trigger] s.drop_first()[j]).repo@ == repo
            && s.drop_first()[j].number.0 == n) by {
            assert(s.drop_first()[j] == s[j + 1]);
        }
        lemma_pr_index_unique(s.drop_first(), repo, n, i - 1);
    }
}

/// The first loaded pull request of `repo` numbered `number`.
pub fn find_pr(data: &DataStore, repo: &RepoFullName, number: u64) -> (r: Option<Pr>)
    ensures
        ({
            let s = loaded_items(data.prs);
            let i = pr_index(s, repo@, number) as int;
            if i < s.len() {
                r == Some(s[i])
            } else {
                r is None
            }
        }),
{
    let empty: Vec<Pr> = Vec::new();
    let prs = match data.prs.loaded() {
        Some(v) => v,
        None => &empty,
    };
    let mut i: usize = 0;
    while i < prs.len() && !(str_eq(prs[i].repo.as_str(), repo.as_str())
        && prs[i].number.0 == number)
        invariant
            i <= prs@.len(),
            forall|j: int| 0 <= j < i ==> !((#[trigger] prs@[j]).repo@ == repo@ && prs@[j].number.0
                == number),
        decreases prs@.len() - i,
    {
        i = i + 1;
    }
    proof {
        lemma_pr_index_unique(prs@, repo@, number, i as int);
    }
    if i < prs.len() {
        Some(prs[i].clone())
    } else {
        None
    }
}

/// Where a pull request is checked out: the repository, the worktree's path
/// and its branch.
#[derive(Debug)]
pub struct CheckoutPlan {
    pub repo: Repo,
    pub worktree_path: String,
    pub branch: BranchName,
}

/// The worktree directory of a pull request: `<repo>-pr-<N>`.
pub open spec fn pr_leaf(repo_full_name: Seq<char>, n: u64) -> Seq<char> {
    repo_part(repo_full_name) + "-pr-"@ + decimal(n as nat)
}

/// The branch of a pull request's worktree: `pr-<N>-<head branch>`.
pub open spec fn pr_branch(n: u64, head: Seq<char>) -> Seq<char> {
    "pr-"@ + decimal(n as nat) + seq!['-'] + head
}

/// The session of a pull request's worktree: `pr-<repo>-<N>`.
pub open spec fn pr_session(repo_full_name: Seq<char>, n: u64) -> Seq<char> {
    "pr-"@ + repo_part(repo_full_name) + seq!['-'] + decimal(n as nat)
}

/// Position of the first repository named `name`, or the length.
pub open spec fn repo_index(s: Seq<Repo>, name: Seq<char>) -> nat
    decreases s.len(),
{
    if s.len() == 0 {
        0
    } else if s[0].full_name@ == name {
        0
    } else {
        1 + repo_index(s.drop_first(), name)
    }
}

proof fn lemma_repo_index_unique(s: Seq<Repo>, name: Seq<char>, i: int)
    requires
        0 <= i <= s.len(),
        i < s.len() ==> s[i].full_name@ == name,
        forall|j: int| 0 <= j < i ==> (#[trigger] s[j]).full_name@ != name,
    ensures
        repo_index(s, name) == i,
    decreases s.len(),
{
    if s.len() > 0 && i > 0 {
        assert forall|j: int| 0 <= j < i - 1 implies (#[trigger] s.drop_first()[j]).full_name@
            != name by {
            assert(s.drop_first()[j] == s[j + 1]);
        }
        lemma_repo_index_unique(s.drop_first(), name, i - 1);
    }
}

/// The checkout plan once the worktree's path is known: fails when the
/// branch name is not valid.
pub fn checkout_plan_with_path(pr: &Pr, repo: Repo, worktree_path: String) -> (r: Result<
    CheckoutPlan,
    String,
>)
    ensures
        valid_branch_name(pr_branch(pr.number.0, pr.head_ref@)) ==> (r matches Ok(p) && p.repo
            == repo && p.worktree_path == worktree_path && p.branch@ == pr_branch(
            pr.number.0,
            pr.head_ref@,
        )),
        !valid_branch_name(pr_branch(pr.number.0, pr.head_ref@)) ==> (r matches Err(m) && m@
            == "could not derive branch name for PR"@),
{
    let mut b = chars_of("pr-");
    extend_chars(&mut b, &decimal_chars(pr.number.0));
    b.push('-');
    extend_str(&mut b, pr.head_ref.as_str());
    assert(b@ =~= pr_branch(pr.number.0, pr.head_ref@));
    let bs = string_of(&b);
    match BranchName::new(bs.as_str()) {
        Ok(branch) => Ok(CheckoutPlan { repo, worktree_path, branch }),
        Err(_) => Err("could not derive branch name for PR".to_owned()),
    }
}

/// The plan for checking out `pr`: its repository among those loaded, the
/// worktree path next to the main clone, and the branch; or why there is
/// none.
pub open spec fn planned_checkout(pr: Pr, repos: LoadState<Vec<Repo>>) -> Result<
    (Repo, Seq<char>, Seq<char>),
    Seq<char>,
> {
    match repos {
        LoadState::Loaded(v) => {
            let i = repo_index(v@, pr.repo@) as int;
            if i >= v@.len() {
                Err("repo "@ + pr.repo@ + " not on disk under code_root \u{2014} clone it first"@)
            } else {
                match path_parent(v@[i].local_path@) {
                    None => Err("repo has no parent dir"@),
                    Some(parent) => if valid_branch_name(pr_branch(pr.number.0, pr.head_ref@)) {
                        Ok(
                            (
                                v@[i],
                                path_join(parent, pr_leaf(v@[i].full_name@, pr.number.0)),
                                pr_branch(pr.number.0, pr.head_ref@),
                            ),
                        )
                    } else {
                        Err("could not derive branch name for PR"@)
                    },
                }
            }
        },
        _ => Err("no repos loaded"@),
    }
}

/// Where to check out a pull request: next to the main clone of its
/// repository, as `<repo>-pr-<N>`, on `pr-<N>-<head branch>`. Fails when no
/// repositories are loaded, its repository is not among them, the main
/// clone's path has no parent, or the branch name is not valid.
pub fn checkout_plan(pr: &Pr, repos: &LoadState<Vec<Repo>>) -> (r: Result<CheckoutPlan, String>)
    ensures
        match planned_checkout(*pr, *repos) {
            Ok((repo, path, branch)) => r matches Ok(p) && p.repo == repo && p.worktree_path@ == path
                && p.branch@ == branch,
            Err(m) => r matches Err(e) && e@ == m,
        },
{
    let v = match repos.loaded() {
        Some(v) => v,
        None => {
            return Err("no repos loaded".to_owned());
        },
    };
    let mut i: usize = 0;
    while i < v.len() && !str_eq(v[i].full_name.as_str(), pr.repo.as_str())
        invariant
            i <= v@.len(),
            forall|j: int| 0 <= j < i ==> (#[trigger] v@[j]).full_name@ != pr.repo@,
        decreases v@.len() - i,
    {
        i = i + 1;
    }
    proof {
        lemma_repo_index_unique(v@, pr.repo@, i as int);
    }
    if i >= v.len() {
        let mut m = chars_of("repo ");
        extend_str(&mut m, pr.repo.as_str());
        extend_str(&mut m, " not on disk under code_root \u{2014} clone it first");
        return Err(string_of(&m));
    }
    let repo = v[i].clone();
    let parent = match parent_of(repo.local_path.as_str()) {
        Some(p) => p,
        None => {
            return Err("repo has no parent dir".to_owned());
        },
    };
    let mut leaf = chars_of(repo.full_name.repo());
    extend_str(&mut leaf, "-pr-");
    extend_chars(&mut leaf, &decimal_chars(pr.number.0));
    assert(leaf@ =~= pr_leaf(repo.full_name@, pr.number.0));
    let leaf_s = string_of(&leaf);
    let worktree_path = join_path(parent.as_str(), leaf_s.as_str());
    checkout_plan_with_path(pr, repo, worktree_path)
}

/// The tmux session for a checked-out pull request: `pr-<repo>-<N>`.
pub fn pr_session_name(pr: &Pr) -> (r: Result<SessionName, String>)
    ensures
        valid_session_name(pr_session(pr.repo@, pr.number.0)) ==> (r matches Ok(s) && s@
            == pr_session(pr.repo@, pr.number.0)),
        !valid_session_name(pr_session(pr.repo@, pr.number.0)) ==> (r matches Err(m) && m@
            == "invalid session name for PR"@),
{
    let mut s = chars_of("pr-");
    extend_str(&mut s, pr.repo.repo());
    s.push('-');
    extend_chars(&mut s, &decimal_chars(pr.number.0));
    assert(s@ =~= pr_session(pr.repo@, pr.number.0));
    let ss = string_of(&s);
    match SessionName::new(ss.as_str()) {
        Ok(n) => Ok(n),
        Err(_) => Err("invalid session name for PR".to_owned()),
    }
}

/// Whether and how to delete the branch of a removed worktree: not at all,
/// only if merged (`false`), or forced (`true`).
pub fn branch_delete_force(mode: BranchDeleteMode) -> (r: Option<bool>)
    ensures
        r == match mode {
            BranchDeleteMode::Keep => None,
            BranchDeleteMode::DeleteIfMerged => Some(false),
            BranchDeleteMode::Force => Some(true),
        },
{
    match mode {
        BranchDeleteMode::Keep => None,
        BranchDeleteMode::DeleteIfMerged => Some(false),
        BranchDeleteMode::Force => Some(true),
    }
}

/// The toast for a branch that could not be deleted: a merged-only delete
/// that git refused keeps the branch (information); a forced delete that
/// failed is an error.
pub fn branch_delete_failed(force: bool, err: &String) -> (r: Toast)
    ensures
        force ==> r.level == ToastLevel::Error && r.message@ == "force-delete failed: "@ + err@,
        !force ==> r.level == ToastLevel::Info && r.message@ == "branch kept (not merged): "@
            + err@,
{
    if force {
        Toast::error(prefixed("force-delete failed: ", err))
    } else {
        Toast::info(prefixed("branch kept (not merged): ", err))
    }
}

/// The session to kill with a removed worktree: its own, when the
/// configuration says to.
pub fn session_to_kill(config: &Config, session: Option<SessionName>) -> (r: Option<SessionName>)
    ensures
        r == if config.tmux.kill_on_remove_worktree {
            session
        } else {
            None
        },
{
    if config.tmux.kill_on_remove_worktree {
        session
    } else {
        None
    }
}

/// What "refresh everything" fetches, forced: tickets, repositories (with
/// worktrees), and the pull requests of each loaded repository.
pub fn refresh_all_kinds(data: &DataStore) -> (r: Vec<FetchKind>)
    ensures
        r@.len() == 2 + loaded_items(data.repos).len(),
        r@[0] is Tickets,
        r@[1] is Repos,
        forall|i: int|
            #![trigger loaded_items(data.repos)[i]]
            0 <= i < loaded_items(data.repos).len() ==> (r@[i + 2] matches FetchKind::Prs(n) && n
                == loaded_items(data.repos)[i].full_name),
{
    let mut out: Vec<FetchKind> = Vec::new();
    out.push(FetchKind::Tickets);
    out.push(FetchKind::Repos);
    let empty: Vec<Repo> = Vec::new();
    let repos = match data.repos.loaded() {
        Some(v) => v,
        None => &empty,
    };
    let mut i: usize = 0;
    while i < repos.len()
        invariant
            i <= repos@.len(),
            repos@ == loaded_items(data.repos),
            out@.len() == 2 + i,
            out@[0] is Tickets,
            out@[1] is Repos,
            forall|j: int|
                #![trigger repos@[j]]
                0 <= j < i ==> (out@[j + 2] matches FetchKind::Prs(n) && n == repos@[j].full_name),
        decreases repos@.len() - i,
    {
        out.push(FetchKind::Prs(repos[i].full_name.clone()));
        i = i + 1;
    }
    out
}

/// The setup form was submitted: on success the new configuration is in use
/// and the dashboard shows; on failure the form shows the error.
pub fn finish_setup(app: &mut AppState, config: Config, outcome: Result<(), String>)
    ensures
        outcome is Ok ==> *final(app) == (AppState {
            config,
            screen: Screen::Dashboard,
            ..*old(app)
        }),
        outcome matches Err(e) ==> match old(app).screen {
            Screen::Setup(s) => *final(app) == (AppState {
                screen: Screen::Setup(Box::new(setup::State { error: Some(e), ..*s })),
                ..*old(app)
            }),
            _ => *final(app) == *old(app),
        },
{
    match outcome {
        Ok(()) => {
            app.config = config;
            app.screen = Screen::Dashboard;
        },
        Err(e) => {
            let mut screen = Screen::Pending;
            std::mem::swap(&mut screen, &mut app.screen);
            let restored_screen = match screen {
                Screen::Setup(mut s) => {
                    s.error = Some(e);
                    Screen::Setup(s)
                },
                other => other,
            };
            app.screen = restored_screen;
        },
    }
}

/// A repository as its name, the path of its main clone, its default
/// branch and how it was found.
pub open spec fn repo_view(r: Repo) -> (Seq<char>, Seq<char>, Seq<char>, RepoSource) {
    (r.full_name@, r.local_path@, r.default_branch@, r.source)
}

pub open spec fn repo_views(s: Seq<Repo>) -> Seq<(Seq<char>, Seq<char>, Seq<char>, RepoSource)> {
    s.map_values(|r: Repo| repo_view(r))
}

/// A listed repository placed under the code root as `<root>/<owner>/<repo>`.
pub open spec fn local_repo(root: Seq<char>, s: RepoSummary) -> (
    Seq<char>,
    Seq<char>,
    Seq<char>,
    RepoSource,
) {
    (
        s.full_name@,
        path_join(path_join(root, owner_part(s.full_name@)), repo_part(s.full_name@)),
        s.default_branch@,
        RepoSource::Watched,
    )
}

pub open spec fn local_repos(root: Seq<char>, s: Seq<RepoSummary>) -> Seq<
    (Seq<char>, Seq<char>, Seq<char>, RepoSource),
> {
    s.map_values(|x: RepoSummary| local_repo(root, x))
}

/// The number of leading entries whose name does not sort after `k`.
pub open spec fn first_after(t: Seq<(Seq<char>, Seq<char>, Seq<char>, RepoSource)>, k: Seq<char>) -> nat
    decreases t.len(),
{
    if t.len() == 0 {
        0
    } else if text_lt(k, t[0].0) {
        0
    } else {
        1 + first_after(t.drop_first(), k)
    }
}

proof fn lemma_first_after(t: Seq<(Seq<char>, Seq<char>, Seq<char>, RepoSource)>, k: Seq<char>)
    ensures
        first_after(t, k) <= t.len(),
        first_after(t, k) < t.len() ==> text_lt(k, t[first_after(t, k) as int].0),
        forall|j: int| 0 <= j < first_after(t, k) ==> !text_lt(k, (#[trigger] t[j]).0),
    decreases t.len(),
{
    if t.len() > 0 && !text_lt(k, t[0].0) {
        lemma_first_after(t.drop_first(), k);
        assert forall|j: int| 0 <= j < first_after(t, k) implies !text_lt(k, (#[trigger] t[j]).0) by {
            if j > 0 {
                assert(t[j] == t.drop_first()[j - 1]);
            }
        }
    }
}

proof fn lemma_first_after_unique(
    t: Seq<(Seq<char>, Seq<char>, Seq<char>, RepoSource)>,
    k: Seq<char>,
    i: int,
)
    requires
        0 <= i <= t.len(),
        i < t.len() ==> text_lt(k, t[i].0),
        forall|j: int| 0 <= j < i ==> !text_lt(k, (#[trigger] t[j]).0),
    ensures
        first_after(t, k) == i,
    decreases t.len(),
{
    if t.len() > 0 && i > 0 {
        assert forall|j: int| 0 <= j < i - 1 implies !text_lt(k, (#[trigger] t.drop_first()[j]).0) by {
            assert(t.drop_first()[j] == t[j + 1]);
        }
        lemma_first_after_unique(t.drop_first(), k, i - 1);
    }
}

/// The entries ordered by name; entries of equal name keep their order
/// (a stable sort).
pub open spec fn by_name(s: Seq<(Seq<char>, Seq<char>, Seq<char>, RepoSource)>) -> Seq<
    (Seq<char>, Seq<char>, Seq<char>, RepoSource),
>
    decreases s.len(),
{
    if s.len() == 0 {
        Seq::empty()
    } else {
        let t = by_name(s.drop_last());
        t.insert(first_after(t, s.last().0) as int, s.last())
    }
}

pub open spec fn names_ascending(s: Seq<(Seq<char>, Seq<char>, Seq<char>, RepoSource)>) -> bool {
    forall|i: int, j: int| 0 <= i < j < s.len() ==> !text_lt((#[trigger] s[j]).0, (#[trigger] s[i]).0)
}

/// The repositories come out ordered by name, and none is lost or added.
pub proof fn law_by_name_sorted(s: Seq<(Seq<char>, Seq<char>, Seq<char>, RepoSource)>)
    ensures
        names_ascending(by_name(s)),
        by_name(s).to_multiset() == s.to_multiset(),
    decreases s.len(),
{
    broadcast use vstd::seq_lib::to_multiset_build, vstd::seq_lib::to_multiset_insert;

    if s.len() == 0 {
        assert(by_name(s) =~= s);
    } else {
        law_by_name_sorted(s.drop_last());
        let t = by_name(s.drop_last());
        let x = s.last();
        lemma_first_after(t, x.0);
        let j = first_after(t, x.0) as int;
        let u = t.insert(j, x);
        assert(s.drop_last().push(x) =~= s);
        assert forall|a: int, b: int| 0 <= a < b < u.len() implies !text_lt(
            (#[trigger] u[b]).0,
            (#[trigger] u[a]).0,
        ) by {
            if b < j {
                assert(u[a] == t[a] && u[b] == t[b]);
            } else if b == j {
                assert(u[a] == t[a]);
            } else if a < j {
                assert(u[a] == t[a] && u[b] == t[b - 1]);
            } else if a == j {
                assert(u[b] == t[b - 1]);
                if text_lt(t[b - 1].0, x.0) {
                    lemma_text_lt_transitive(t[b - 1].0, x.0, t[j].0);
                    if j < b - 1 {
                        assert(!text_lt(t[b - 1].0, t[j].0));
                    } else {
                        lemma_text_lt_irreflexive(t[j].0);
                    }
                }
            } else {
                assert(u[a] == t[a - 1] && u[b] == t[b - 1]);
            }
        }
    }
}

/// The listed repositories placed under the code root and ordered by name;
/// none when the code root could not be resolved.
pub fn merge_local_repos(root: Option<String>, remotes: Vec<RepoSummary>) -> (r: Vec<Repo>)
    ensures
        root is None ==> r@.len() == 0,
        root matches Some(rt) ==> repo_views(r@) == by_name(local_repos(rt@, remotes@)),
{
    let rt = match root {
        Some(x) => x,
        None => {
            return Vec::new();
        },
    };
    let mut out: Vec<Repo> = Vec::new();
    let mut i: usize = 0;
    assert(repo_views(out@) =~= by_name(local_repos(rt@, remotes@.take(0))));
    while i < remotes.len()
        invariant
            i <= remotes@.len(),
            repo_views(out@) == by_name(local_repos(rt@, remotes@.take(i as int))),
        decreases remotes@.len() - i,
    {
        let s = &remotes[i];
        let owner_dir = join_path(rt.as_str(), s.full_name.owner());
        let local = join_path(owner_dir.as_str(), s.full_name.repo());
        let repo = Repo {
            full_name: s.full_name.clone(),
            local_path: local,
            default_branch: s.default_branch.clone(),
            source: RepoSource::Watched,
        };
        let ghost x = repo_view(repo);
        assert(x == local_repo(rt@, remotes@[i as int]));
        let ghost t = repo_views(out@);
        let key = chars_of(repo.full_name.as_str());
        let mut j: usize = 0;
        while j < out.len() && !text_less(&key, &chars_of(out[j].full_name.as_str()))
            invariant
                j <= out@.len(),
                t == repo_views(out@),
                key@ == x.0,
                forall|q: int| 0 <= q < j ==> !text_lt(x.0, (#[trigger] t[q]).0),
            decreases out@.len() - j,
        {
            assert(t[j as int] == repo_view(out@[j as int]));
            j = j + 1;
        }
        proof {
            if j < out@.len() {
                assert(t[j as int] == repo_view(out@[j as int]));
            }
            lemma_first_after_unique(t, x.0, j as int);
            let pre = local_repos(rt@, remotes@.take(i as int));
            assert(local_repos(rt@, remotes@.take(i as int + 1)) =~= pre.push(x));
            assert(pre.push(x).drop_last() =~= pre);
        }
        out.insert(j, repo);
        assert(repo_views(out@) =~= t.insert(j as int, x));
        i = i + 1;
    }
    assert(remotes@.take(remotes@.len() as int) =~= remotes@);
    out
}

/// How the creation of a work unit went.
pub enum WorkUnitOutcome {
    /// `git worktree add` failed with this message.
    WorktreeFailed(String),
    /// The worktree exists, but its tmux session could not be started.
    SessionFailed(String),
    /// The worktree and its session exist.
    Created,
}

/// `a1` is `a0` after a work unit's creation ended with `outcome`: only
/// the toast and the session queued for attaching change.
pub open spec fn work_unit_finished(a0: AppState, a1: AppState, spec: CreateWorkUnit, outcome: WorkUnitOutcome) -> bool {
    &&& a1 == (AppState { toast: a1.toast, pending_attach: a1.pending_attach, ..a0 })
    &&& match outcome {
        WorkUnitOutcome::WorktreeFailed(e) => a1.toast matches Some(t) && t.level
            == ToastLevel::Error && t.message@ == "worktree creation failed: "@ + e@
            && a1.pending_attach == a0.pending_attach,
        WorkUnitOutcome::SessionFailed(e) => a1.toast matches Some(t) && t.level
            == ToastLevel::Error && t.message@ == "tmux session failed: "@ + e@
            && a1.pending_attach == a0.pending_attach,
        WorkUnitOutcome::Created => a1.toast matches Some(t) && t.level == ToastLevel::Info
            && t.message@ == "created "@ + spec.worktree_path@ && a1.pending_attach == Some(
            spec.session,
        ),
    }
}

/// What the creation of a work unit leaves behind: on success a note that
/// names the new worktree and its session queued for attaching; on failure
/// an error toast that says which step failed.
pub fn finish_work_unit(app: &mut AppState, spec: &CreateWorkUnit, outcome: WorkUnitOutcome)
    ensures
        work_unit_finished(*old(app), *final(app), *spec, outcome),
{
    match outcome {
        WorkUnitOutcome::WorktreeFailed(e) => {
            app.toast = Some(Toast::error(prefixed("worktree creation failed: ", &e)));
        },
        WorkUnitOutcome::SessionFailed(e) => {
            app.toast = Some(Toast::error(prefixed("tmux session failed: ", &e)));
        },
        WorkUnitOutcome::Created => {
            app.toast = Some(Toast::info(prefixed("created ", &spec.worktree_path)));
            app.pending_attach = Some(spec.session.clone());
        },
    }
}

/// The repository that a clone at `<code root>/<owner>/<name>` stands for,
/// when `owner/name` is a valid repository name.
pub fn dir_repo_name(owner: &str, name: &str) -> (r: Option<RepoFullName>)
    ensures
        r is Some <==> valid_repo_full_name(owner@ + "/"@ + name@),
        r matches Some(n) ==> n@ == owner@ + "/"@ + name@,
{
    let mut v = chars_of(owner);
    extend_str(&mut v, "/");
    extend_str(&mut v, name);
    let full = string_of(&v);
    match RepoFullName::new(full.as_str()) {
        Ok(n) => Some(n),
        Err(_) => None,
    }
}

/// The fetches the status bar counts as running are exactly tracked: each
/// kind's current fetch, and each repository's pull-request fetch, is still
/// pending in the registry, and no two of them share an id.
pub open spec fn fetches_tracked(a: AppState) -> bool {
    let p = a.registry.pending();
    let prs = a.current_prs_fetch;
    &&& a.registry.wf()
    &&& (a.current_tickets_fetch matches Some(x) ==> p.contains(x.0))
    &&& (a.current_repos_fetch matches Some(x) ==> p.contains(x.0))
    &&& (a.current_worktrees_fetch matches Some(x) ==> p.contains(x.0))
    &&& forall|k: Seq<char>|
        (#[trigger] prs.get_spec(k)) is Some ==> p.contains(prs.get_spec(k).unwrap().0)
    &&& (a.current_tickets_fetch matches Some(x) ==> a.current_repos_fetch != Some(x)
        && a.current_worktrees_fetch != Some(x) && forall|k: Seq<char>| #[trigger] prs.get_spec(k)
        != Some(x))
    &&& (a.current_repos_fetch matches Some(x) ==> a.current_worktrees_fetch != Some(x) && forall|
        k: Seq<char>,
    | #[trigger] prs.get_spec(k) != Some(x))
    &&& (a.current_worktrees_fetch matches Some(x) ==> forall|k: Seq<char>| #[trigger] prs.get_spec(k)
        != Some(x))
    &&& forall|k1: Seq<char>, k2: Seq<char>|
        k1 != k2 && (#[trigger] prs.get_spec(k1)) is Some ==> prs.get_spec(k1) != #[trigger] prs.get_spec(
            k2,
        )
}

/// The result of fetch `id` is of the kind (and for pull requests, of the
/// repository) whose slot shows `id` as running.
pub open spec fn result_fits(a: AppState, id: FetchId, result: FetchResult) -> bool {
    &&& a.current_tickets_fetch == Some(id) ==> result is Tickets
    &&& a.current_repos_fetch == Some(id) ==> result is Repos
    &&& a.current_worktrees_fetch == Some(id) ==> result is Worktrees
    &&& forall|k: Seq<char>|
        #[trigger] a.current_prs_fetch.get_spec(k) == Some(id) ==> (result matches FetchResult::Prs(
            repo,
            _,
        ) && repo@ == k)
}

/// A state with no fetch running is tracked.
pub proof fn law_idle_tracked(a: AppState)
    requires
        a.registry.pending() == Set::<u64>::empty(),
        a.current_tickets_fetch is None,
        a.current_repos_fetch is None,
        a.current_worktrees_fetch is None,
        forall|k: Seq<char>| #[trigger] a.current_prs_fetch.get_spec(k) is None,
    ensures
        fetches_tracked(a),
{
}

/// Starting a tickets fetch keeps the fetches tracked.
pub proof fn law_tickets_begun_tracked(
    a0: AppState,
    a1: AppState,
    force: bool,
    fresh: bool,
    r: Option<(FetchId, CancellationToken)>,
)
    requires
        fetches_tracked(a0),
        a0.registry.next_id() < u64::MAX,
        tickets_begun(a0, a1, force, fresh, r),
    ensures
        fetches_tracked(a1),
{
    let p0 = a0.registry.pending();
    let p1 = a1.registry.pending();
    if let Some((id, _)) = r {
        assert(!p0.contains(id.0));
        assert forall|k: Seq<char>| (#[trigger] a1.current_prs_fetch.get_spec(k)) is Some
            implies p1.contains(a1.current_prs_fetch.get_spec(k).unwrap().0) by {
            assert(a0.current_prs_fetch.get_spec(k) == a1.current_prs_fetch.get_spec(k));
        }
        assert forall|k: Seq<char>| #[trigger] a1.current_prs_fetch.get_spec(k) != Some(id) by {
            if a1.current_prs_fetch.get_spec(k) == Some(id) {
                assert(p0.contains(id.0));
            }
        }
        assert forall|x: u64| p1.contains(x) implies x < a1.registry.next_id() by {
            if x != id.0 {
                assert(p0.contains(x));
            }
        }
    }
}

/// Starting a repositories fetch keeps the fetches tracked.
pub proof fn law_repos_begun_tracked(
    a0: AppState,
    a1: AppState,
    force: bool,
    fresh: bool,
    r: Option<(FetchId, CancellationToken)>,
)
    requires
        fetches_tracked(a0),
        a0.registry.next_id() < u64::MAX,
        repos_begun(a0, a1, force, fresh, r),
    ensures
        fetches_tracked(a1),
{
    let p0 = a0.registry.pending();
    let p1 = a1.registry.pending();
    if let Some((id, _)) = r {
        assert(!p0.contains(id.0));
        assert forall|k: Seq<char>| (#[trigger] a1.current_prs_fetch.get_spec(k)) is Some
            implies p1.contains(a1.current_prs_fetch.get_spec(k).unwrap().0) by {
            assert(a0.current_prs_fetch.get_spec(k) == a1.current_prs_fetch.get_spec(k));
        }
        assert forall|k: Seq<char>| #[trigger] a1.current_prs_fetch.get_spec(k) != Some(id) by {
            if a1.current_prs_fetch.get_spec(k) == Some(id) {
                assert(p0.contains(id.0));
            }
        }
        assert forall|x: u64| p1.contains(x) implies x < a1.registry.next_id() by {
            if x != id.0 {
                assert(p0.contains(x));
            }
        }
    }
}

/// Starting a worktree scan keeps the fetches tracked.
pub proof fn law_worktrees_begun_tracked(
    a0: AppState,
    a1: AppState,
    force: bool,
    fresh: bool,
    r: Option<(FetchId, CancellationToken)>,
)
    requires
        fetches_tracked(a0),
        a0.registry.next_id() < u64::MAX,
        worktrees_begun(a0, a1, force, fresh, r),
    ensures
        fetches_tracked(a1),
{
    let p0 = a0.registry.pending();
    let p1 = a1.registry.pending();
    if let Some((id, _)) = r {
        assert(!p0.contains(id.0));
        assert forall|k: Seq<char>| (#[trigger] a1.current_prs_fetch.get_spec(k)) is Some
            implies p1.contains(a1.current_prs_fetch.get_spec(k).unwrap().0) by {
            assert(a0.current_prs_fetch.get_spec(k) == a1.current_prs_fetch.get_spec(k));
        }
        assert forall|k: Seq<char>| #[trigger] a1.current_prs_fetch.get_spec(k) != Some(id) by {
            if a1.current_prs_fetch.get_spec(k) == Some(id) {
                assert(p0.contains(id.0));
            }
        }
        assert forall|x: u64| p1.contains(x) implies x < a1.registry.next_id() by {
            if x != id.0 {
                assert(p0.contains(x));
            }
        }
    }
}

/// Starting a pull-request fetch for a repository keeps the fetches tracked.
pub proof fn law_prs_begun_tracked(
    a0: AppState,
    a1: AppState,
    repo: Seq<char>,
    force: bool,
    fresh: bool,
    r: Option<(FetchId, CancellationToken)>,
)
    requires
        fetches_tracked(a0),
        a0.registry.next_id() < u64::MAX,
        prs_begun(a0, a1, repo, force, fresh, r),
    ensures
        fetches_tracked(a1),
{
    let p0 = a0.registry.pending();
    let p1 = a1.registry.pending();
    if let Some((id, _)) = r {
        let prev = a0.current_prs_fetch.get_spec(repo);
        assert(!p0.contains(id.0));
        assert forall|k: Seq<char>| (#[trigger] a1.current_prs_fetch.get_spec(k)) is Some
            implies p1.contains(a1.current_prs_fetch.get_spec(k).unwrap().0) by {
            if k != repo {
                let x = a1.current_prs_fetch.get_spec(k).unwrap();
                assert(a0.current_prs_fetch.get_spec(k) == Some(x));
                assert(p0.contains(x.0));
                if let Some(q) = prev {
                    assert(x != q);
                }
            }
        }
        assert forall|x: u64| p1.contains(x) implies x < a1.registry.next_id() by {
            if x != id.0 {
                assert(p0.contains(x));
            }
        }
        assert forall|k: Seq<char>| #[trigger] a1.current_prs_fetch.get_spec(k) != Some(id) || k
            == repo by {
            if k != repo && a1.current_prs_fetch.get_spec(k) == Some(id) {
                assert(a0.current_prs_fetch.get_spec(k) == Some(id));
                assert(p0.contains(id.0));
            }
        }
        assert forall|k1: Seq<char>, k2: Seq<char>|
            k1 != k2 && (#[trigger] a1.current_prs_fetch.get_spec(k1)) is Some implies a1.current_prs_fetch.get_spec(
            k1,
        ) != #[trigger] a1.current_prs_fetch.get_spec(k2) by {
            if k1 == repo {
                if a1.current_prs_fetch.get_spec(k2) == Some(id) {
                    assert(a0.current_prs_fetch.get_spec(k2) == Some(id));
                    assert(p0.contains(id.0));
                }
            } else if k2 == repo {
                if a1.current_prs_fetch.get_spec(k1) == Some(id) {
                    assert(a0.current_prs_fetch.get_spec(k1) == Some(id));
                    assert(p0.contains(id.0));
                }
            } else {
                assert(a0.current_prs_fetch.get_spec(k1) == a1.current_prs_fetch.get_spec(k1));
                assert(a0.current_prs_fetch.get_spec(k2) == a1.current_prs_fetch.get_spec(k2));
            }
        }
        if let Some(x) = a1.current_tickets_fetch {
            assert(a0.current_tickets_fetch == Some(x));
            assert(p0.contains(x.0));
            if let Some(q) = prev {
                assert(x != q);
            }
        }
        if let Some(x) = a1.current_repos_fetch {
            assert(p0.contains(x.0));
            if let Some(q) = prev {
                assert(x != q);
            }
        }
        if let Some(x) = a1.current_worktrees_fetch {
            assert(p0.contains(x.0));
            if let Some(q) = prev {
                assert(x != q);
            }
        }
    }
}

/// A finished fetch whose result is of its own kind keeps the fetches
/// tracked, whether its result is applied or dropped.
pub proof fn law_done_tracked(a0: AppState, a1: AppState, id: FetchId, result: FetchResult)
    requires
        fetches_tracked(a0),
        result_fits(a0, id, result),
        fetch_done(id, result, a0, a1),
    ensures
        fetches_tracked(a1),
{
    let p0 = a0.registry.pending();
    let p1 = a1.registry.pending();
    assert(p1 =~= p0.remove(id.0));
    assert forall|x: u64| p1.contains(x) implies x < a1.registry.next_id() by {
        assert(p0.contains(x));
    }
    if p0.contains(id.0) {
        match result {
            FetchResult::Prs(repo, _) => {
                assert forall|k: Seq<char>| (#[trigger] a1.current_prs_fetch.get_spec(k)) is Some
                    implies p1.contains(a1.current_prs_fetch.get_spec(k).unwrap().0) by {
                    let x = a1.current_prs_fetch.get_spec(k).unwrap();
                    assert(a0.current_prs_fetch.get_spec(k) == Some(x));
                    if k != repo@ {
                        assert(x != id);
                    }
                }
                assert forall|k1: Seq<char>, k2: Seq<char>|
                    k1 != k2 && (#[trigger] a1.current_prs_fetch.get_spec(k1)) is Some implies a1.current_prs_fetch.get_spec(
                    k1,
                ) != #[trigger] a1.current_prs_fetch.get_spec(k2) by {
                    assert(a1.current_prs_fetch.get_spec(k1) == a0.current_prs_fetch.get_spec(k1));
                    if a1.current_prs_fetch.get_spec(k2) is Some {
                        assert(a1.current_prs_fetch.get_spec(k2) == a0.current_prs_fetch.get_spec(k2));
                    }
                }
            },
            _ => {
                assert forall|k: Seq<char>| (#[trigger] a1.current_prs_fetch.get_spec(k)) is Some
                    implies p1.contains(a1.current_prs_fetch.get_spec(k).unwrap().0) by {
                    assert(a0.current_prs_fetch.get_spec(k) == a1.current_prs_fetch.get_spec(k));
                }
            },
        }
    } else {
        assert(p1 =~= p0);
    }
}

/// What the event loop does once a message is handled.
pub enum LoopStep {
    /// Stop and leave.
    Quit,
    /// Hand the terminal to this tmux session, then redraw.
    Attach(SessionName),
    /// Redraw the screen.
    Redraw,
    /// Wait for the next message.
    Wait,
}

/// The state once an expired toast (if `toast_expired`) is taken down.
pub open spec fn toast_settled(a: AppState, toast_expired: bool) -> AppState {
    if toast_expired && a.toast is Some {
        AppState { toast: None, dirty: true, ..a }
    } else {
        a
    }
}

/// After each message: an expired toast is taken down; then the loop quits
/// when asked to, or attaches the queued session (and redraws after), or
/// redraws when something changed.
pub fn after_message(app: &mut AppState, toast_expired: bool) -> (r: LoopStep)
    ensures
        ({
            let a1 = toast_settled(*old(app), toast_expired);
            if a1.should_quit {
                r is Quit && *final(app) == a1
            } else {
                match a1.pending_attach {
                    Some(n) => r == LoopStep::Attach(n) && *final(app) == (AppState {
                        pending_attach: None,
                        dirty: false,
                        ..a1
                    }),
                    None => if a1.dirty {
                        r is Redraw && *final(app) == (AppState { dirty: false, ..a1 })
                    } else {
                        r is Wait && *final(app) == a1
                    },
                }
            }
        }),
{
    if toast_expired && app.toast.is_some() {
        app.toast = None;
        app.dirty = true;
    }
    if app.should_quit {
        return LoopStep::Quit;
    }
    let mut queued: Option<SessionName> = None;
    std::mem::swap(&mut queued, &mut app.pending_attach);
    match queued {
        Some(n) => {
            app.dirty = false;
            LoopStep::Attach(n)
        },
        None => {
            if app.dirty {
                app.dirty = false;
                LoopStep::Redraw
            } else {
                LoopStep::Wait
            }
        },
    }
}

/// A key press: it is handled as `handle_key` says, and the screen is
/// redrawn.
pub fn on_key(key: Key, app: &mut AppState) -> (r: Option<Command>)
    ensures
        exists|a1: AppState| #[trigger] key_handled(key, *old(app), a1, r) && *final(app) == (AppState {
            dirty: true,
            ..a1
        }),
{
    let r = handle_key(key, app);
    let ghost a1 = *app;
    app.dirty = true;
    assert(key_handled(key, *old(app), a1, r));
    r
}

} // verus!
