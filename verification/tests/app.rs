use flow::app::{
    after_message, branch_delete_failed, branch_delete_force, checkout_plan_with_path, dir_repo_name,
    finish_work_unit, merge_local_repos, on_fetch_done, pr_session_name, refresh_all_kinds,
    session_to_kill, AppState, LoopStep, WorkUnitOutcome,
};
use flow::cache::CacheEntry;
use flow::config::Config;
use flow::domain::{Pr, PrState, Repo, RepoSource, Ticket, TicketStatus};
use flow::github::RepoSummary;
use flow::ids::{BranchName, PrNumber, RepoFullName, SessionName, TicketKey};
use flow::msg::{BranchDeleteMode, Command, CreateWorkUnit, FetchKind, FetchResult, Key};
use flow::repo_map::RepoMap;
use flow::screens::{LoadState, Screen};
use flow::widgets::ToastLevel;

fn app() -> AppState {
    AppState::new(Config::sample(), Screen::Dashboard, None, None, None, RepoMap::new())
}

fn ticket(key: &str) -> Ticket {
    Ticket {
        key: TicketKey::new(key).unwrap(),
        summary: "Fix it".into(),
        status: TicketStatus::Todo,
        assignee: None,
        url: "u".into(),
        updated: 0,
    }
}

fn repo(name: &str, path: &str) -> Repo {
    Repo {
        full_name: RepoFullName::new(name).unwrap(),
        local_path: path.into(),
        default_branch: BranchName::new("main").unwrap(),
        source: RepoSource::Watched,
    }
}

fn pr(name: &str, n: u64, head: &str) -> Pr {
    Pr {
        repo: RepoFullName::new(name).unwrap(),
        number: PrNumber(n),
        title: "t".into(),
        head_ref: BranchName::new(head).unwrap(),
        author: "a".into(),
        draft: false,
        state: PrState::Open,
        url: "u".into(),
    }
}

#[test]
fn start_up_shows_the_cached_data() {
    let cached = CacheEntry::new(vec![ticket("A-1")]);
    let a = AppState::new(Config::sample(), Screen::Dashboard, Some(cached), None, None, RepoMap::new());
    assert!(matches!(&a.data.tickets, LoadState::Loaded(v) if v.len() == 1));
    assert!(matches!(a.data.repos, LoadState::NotLoaded));
    assert!(a.dirty);
    assert_eq!(a.in_flight_count(), 0);
}

#[test]
fn help_overlay_toggles_and_swallows_keys() {
    let mut a = app();
    assert!(flow::app::handle_key(Key::Char('?'), &mut a).is_none());
    assert!(a.help_open);
    assert!(flow::app::handle_key(Key::Char('q'), &mut a).is_none());
    assert!(!a.should_quit);
    flow::app::handle_key(Key::Esc, &mut a);
    assert!(!a.help_open);
    flow::app::handle_key(Key::Char('q'), &mut a);
    assert!(a.should_quit);
}

#[test]
fn dashboard_keys_lead_to_screens() {
    let mut a = app();
    let cmd = flow::app::handle_key(Key::Char('t'), &mut a);
    assert!(matches!(a.screen, Screen::Tickets(_)));
    assert!(matches!(cmd, Some(Command::Refresh { kind: FetchKind::Tickets, force: false })));
    let mut b = app();
    assert!(matches!(flow::app::handle_key(Key::Char('R'), &mut b), Some(Command::RefreshAll)));
    assert!(matches!(b.screen, Screen::Dashboard));
}

#[test]
fn fetches_are_not_doubled_and_forced_ones_replace_the_running_one() {
    let mut a = app();
    let first = flow::app::begin_tickets_fetch(&mut a, false).expect("first fetch");
    assert!(matches!(a.data.tickets, LoadState::Loading));
    assert!(flow::app::begin_tickets_fetch(&mut a, false).is_none());
    let second = flow::app::begin_tickets_fetch(&mut a, true).expect("forced fetch");
    assert!(first.1.is_cancelled());
    assert_ne!(first.0, second.0);
    assert_eq!(a.current_tickets_fetch, Some(second.0));
    assert_eq!(a.in_flight_count(), 1);

    // The cancelled fetch's late result is dropped.
    on_fetch_done(first.0, FetchResult::Tickets(Ok(vec![ticket("A-1")])), &mut a);
    assert!(matches!(a.data.tickets, LoadState::Loading));
    // The current one lands.
    on_fetch_done(second.0, FetchResult::Tickets(Ok(vec![ticket("B-2")])), &mut a);
    assert!(matches!(&a.data.tickets, LoadState::Loaded(v) if v[0].key.as_str() == "B-2"));
    assert!(a.tickets_cache.is_some());
    assert_eq!(a.current_tickets_fetch, None);
    // A second delivery of the same result changes nothing.
    a.dirty = false;
    on_fetch_done(second.0, FetchResult::Tickets(Ok(vec![])), &mut a);
    assert!(!a.dirty);
}

#[test]
fn failed_fetch_keeps_cached_data_and_shows_a_toast() {
    let mut a = app();
    let (id, _) = flow::app::begin_repos_fetch(&mut a, true).unwrap();
    on_fetch_done(id, FetchResult::Repos(Err("offline".into())), &mut a);
    assert!(matches!(&a.data.repos, LoadState::Failed(m) if m == "offline"));

    let cached = CacheEntry::new(vec![repo("a/b", "/c/a/b")]);
    let mut b = AppState::new(Config::sample(), Screen::Dashboard, None, Some(cached), None, RepoMap::new());
    let (id, _) = flow::app::begin_repos_fetch(&mut b, true).unwrap();
    on_fetch_done(id, FetchResult::Repos(Err("offline".into())), &mut b);
    assert!(matches!(&b.data.repos, LoadState::Loaded(v) if v.len() == 1));
    let t = b.toast.as_ref().unwrap();
    assert_eq!(t.message, "repos: offline");
    assert_eq!(t.level, ToastLevel::Error);
}

#[test]
fn pr_fetches_are_tracked_per_repository() {
    let mut a = app();
    let x = RepoFullName::new("a/x").unwrap();
    let y = RepoFullName::new("a/y").unwrap();
    let (idx, _) = flow::app::begin_prs_fetch(&mut a, &x, false).unwrap();
    let (_idy, _) = flow::app::begin_prs_fetch(&mut a, &y, false).unwrap();
    assert!(flow::app::begin_prs_fetch(&mut a, &x, false).is_none());
    assert_eq!(a.in_flight_count(), 2);
    on_fetch_done(idx, FetchResult::Prs(x, Ok(vec![pr("a/x", 1, "h")])), &mut a);
    assert_eq!(a.in_flight_count(), 1);
    assert!(matches!(&a.data.prs, LoadState::Loaded(v) if v.len() == 1));
    assert_eq!(a.prs_cache.len(), 1);
}

#[test]
fn local_repos_are_placed_under_the_code_root_and_sorted() {
    let s = |n: &str| RepoSummary {
        full_name: RepoFullName::new(n).unwrap(),
        default_branch: BranchName::new("main").unwrap(),
        pushed_at: 0,
    };
    let out = merge_local_repos(Some("/code".into()), vec![s("b/two"), s("a/one"), s("b/alpha")]);
    let names: Vec<&str> = out.iter().map(|r| r.full_name.as_str()).collect();
    assert_eq!(names, vec!["a/one", "b/alpha", "b/two"]);
    assert_eq!(out[0].local_path, "/code/a/one");
    assert_eq!(out[0].source, RepoSource::Watched);
    assert!(merge_local_repos(None, vec![s("a/b")]).is_empty());
}

#[test]
fn pr_checkout_plan() {
    let p = pr("acme/widget", 45, "feature-x");
    let plan = checkout_plan_with_path(&p, repo("acme/widget", "/code/acme/widget"), "/code/acme/widget-pr-45".into()).unwrap();
    assert_eq!(plan.branch.as_str(), "pr-45-feature-x");
    assert_eq!(plan.worktree_path, "/code/acme/widget-pr-45");
    assert_eq!(pr_session_name(&p).unwrap().as_str(), "pr-widget-45");
    let loaded = LoadState::Loaded(vec![repo("acme/widget", "/code/acme/widget")]);
    let plan = flow::app::checkout_plan(&p, &loaded).unwrap();
    assert_eq!(plan.worktree_path, "/code/acme/widget-pr-45");
    let missing = flow::app::checkout_plan(&pr("acme/other", 1, "h"), &loaded).unwrap_err();
    assert_eq!(missing, "repo acme/other not on disk under code_root \u{2014} clone it first");
    let none = flow::app::checkout_plan(&p, &LoadState::NotLoaded).unwrap_err();
    assert_eq!(none, "no repos loaded");
}

#[test]
fn worktree_removal_decisions() {
    assert_eq!(branch_delete_force(BranchDeleteMode::Keep), None);
    assert_eq!(branch_delete_force(BranchDeleteMode::DeleteIfMerged), Some(false));
    assert_eq!(branch_delete_force(BranchDeleteMode::Force), Some(true));
    let t = branch_delete_failed(false, &"not merged".to_string());
    assert_eq!(t.message, "branch kept (not merged): not merged");
    assert_eq!(t.level, ToastLevel::Info);
    let t = branch_delete_failed(true, &"locked".to_string());
    assert_eq!(t.message, "force-delete failed: locked");
    let mut cfg = Config::sample();
    let s = SessionName::new("s").unwrap();
    assert!(session_to_kill(&cfg, Some(s)).is_some());
    cfg.tmux.kill_on_remove_worktree = false;
    assert!(session_to_kill(&cfg, Some(SessionName::new("s").unwrap())).is_none());
}

#[test]
fn refresh_all_covers_every_loaded_repository() {
    let mut a = app();
    let kinds = refresh_all_kinds(&a.data);
    assert_eq!(kinds.len(), 2);
    a.data.repos = LoadState::Loaded(vec![repo("a/x", "/x"), repo("a/y", "/y")]);
    let kinds = refresh_all_kinds(&a.data);
    assert_eq!(kinds.len(), 4);
    assert!(matches!(&kinds[3], FetchKind::Prs(n) if n.as_str() == "a/y"));
}

#[test]
fn work_unit_outcomes() {
    let spec = CreateWorkUnit {
        ticket: None,
        repo: RepoFullName::new("a/b").unwrap(),
        repo_path: "/c/a/b".into(),
        worktree_path: "/c/a/b-X-1".into(),
        branch: BranchName::new("X-1").unwrap(),
        start_point: None,
        session: SessionName::new("X-1").unwrap(),
    };
    let mut a = app();
    finish_work_unit(&mut a, &spec, WorkUnitOutcome::Created);
    assert_eq!(a.toast.as_ref().unwrap().message, "created /c/a/b-X-1");
    assert_eq!(a.pending_attach.as_ref().unwrap().as_str(), "X-1");
    let mut b = app();
    finish_work_unit(&mut b, &spec, WorkUnitOutcome::WorktreeFailed("exists".into()));
    assert_eq!(b.toast.as_ref().unwrap().message, "worktree creation failed: exists");
    assert!(b.pending_attach.is_none());
    let mut c = app();
    finish_work_unit(&mut c, &spec, WorkUnitOutcome::SessionFailed("no tmux".into()));
    assert_eq!(c.toast.as_ref().unwrap().message, "tmux session failed: no tmux");
}

#[test]
fn clone_directories_name_repositories() {
    assert_eq!(dir_repo_name("acme", "widget").unwrap().as_str(), "acme/widget");
    assert!(dir_repo_name("acme", "two words").is_none());
    assert!(dir_repo_name("", "widget").is_none());
}

#[test]
fn finding_a_pr_in_the_loaded_list() {
    let mut a = app();
    a.data.prs = LoadState::Loaded(vec![pr("a/x", 1, "h"), pr("a/y", 1, "k")]);
    let y = RepoFullName::new("a/y").unwrap();
    assert_eq!(flow::app::find_pr(&a.data, &y, 1).unwrap().head_ref.as_str(), "k");
    assert!(flow::app::find_pr(&a.data, &y, 2).is_none());
}

#[test]
fn ticks_count_and_redraw_while_busy() {
    let mut a = app();
    a.dirty = false;
    flow::app::on_tick(&mut a);
    assert_eq!(a.tick, 1);
    assert!(!a.dirty);
    flow::app::begin_worktrees_fetch(&mut a, true);
    a.dirty = false;
    flow::app::on_tick(&mut a);
    assert!(a.dirty);
}

#[test]
fn after_each_message_the_loop_quits_attaches_or_redraws() {
    let mut a = app();
    assert!(matches!(after_message(&mut a, false), LoopStep::Redraw));
    assert!(!a.dirty);
    assert!(matches!(after_message(&mut a, false), LoopStep::Wait));
    a.toast = Some(flow::widgets::Toast::info("hi".into()));
    assert!(matches!(after_message(&mut a, false), LoopStep::Wait));
    assert!(a.toast.is_some());
    assert!(matches!(after_message(&mut a, true), LoopStep::Redraw));
    assert!(a.toast.is_none());
    a.pending_attach = Some(SessionName::new("s").unwrap());
    assert!(matches!(after_message(&mut a, false), LoopStep::Attach(n) if n.as_str() == "s"));
    assert!(a.pending_attach.is_none());
    a.should_quit = true;
    a.pending_attach = Some(SessionName::new("s").unwrap());
    assert!(matches!(after_message(&mut a, false), LoopStep::Quit));
}

#[test]
fn ticket_cache_is_fresh_for_five_minutes() {
    let cached = CacheEntry { value: vec![ticket("A-1")], fetched_at: 1_000_000 };
    let mut a = AppState::new(Config::sample(), Screen::Dashboard, Some(cached), None, None, RepoMap::new());
    // four minutes later the cache is fresh: no fetch
    assert!(flow::app::begin_tickets_fetch_by_clock(&mut a, false, 1_000_000 + 240_000).is_none());
    // six minutes later it is stale: a fetch starts
    assert!(flow::app::begin_tickets_fetch_by_clock(&mut a, false, 1_000_000 + 360_000).is_some());
}

#[test]
fn pr_cache_is_fresh_for_two_minutes() {
    let name = RepoFullName::new("acme/widget").unwrap();
    let mut cache = RepoMap::new();
    cache.insert(name.clone(), CacheEntry { value: vec![pr("acme/widget", 1, "x")], fetched_at: 0 });
    let mut a = AppState::new(Config::sample(), Screen::Dashboard, None, None, None, cache);
    assert!(flow::app::begin_prs_fetch_by_clock(&mut a, &name, false, 119_999).is_none());
    assert!(flow::app::begin_prs_fetch_by_clock(&mut a, &name, false, 120_000).is_some());
}

#[test]
fn tickets_search_uses_the_configured_query() {
    let cfg = Config::sample();
    let (jql, limit) = flow::app::tickets_search(&cfg);
    assert_eq!(jql, cfg.jira.jql_my_open);
    assert_eq!(limit, 100);
    assert_eq!(flow::app::REPOS_LIST_LIMIT, 50);
}
