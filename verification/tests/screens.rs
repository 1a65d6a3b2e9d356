use flow::app::{handle_key, AppState};
use flow::config::Config;
use flow::domain::{Repo, RepoSource, Ticket, TicketStatus, Worktree, WorktreeStatus};
use flow::ids::{BranchName, RepoFullName, SessionName, TicketKey};
use flow::msg::{BranchDeleteMode, Command, Key};
use flow::repo_map::RepoMap;
use flow::screens::confirm_create::{default_branch_name, sanitize_session, State as Confirm};
use flow::screens::setup::{initial, submission, Field};
use flow::screens::tickets::{matches_filter, visible_tickets, State as Tickets};
use flow::screens::{move_down, move_up, LoadState, Screen};

fn ticket(key: &str, summary: &str) -> Ticket {
    Ticket {
        key: TicketKey::new(key).unwrap(),
        summary: summary.into(),
        status: TicketStatus::Todo,
        assignee: None,
        url: "u".into(),
        updated: 0,
    }
}

fn repo() -> Repo {
    Repo {
        full_name: RepoFullName::new("acme/widget").unwrap(),
        local_path: "/code/acme/widget".into(),
        default_branch: BranchName::new("main").unwrap(),
        source: RepoSource::Watched,
    }
}

fn app_on(screen: Screen) -> AppState {
    AppState::new(Config::sample(), screen, None, None, None, RepoMap::new())
}

#[test]
fn list_cursor_moves_within_bounds() {
    assert_eq!(move_down(0, 3), 1);
    assert_eq!(move_down(2, 3), 2);
    assert_eq!(move_down(0, 0), 0);
    assert_eq!(move_up(0), 0);
    assert_eq!(move_up(2), 1);
    // a list that shrank under the cursor: down lands on its last item
    assert_eq!(move_down(7, 3), 2);
}

#[test]
fn ticket_filter_is_case_insensitive_on_key_and_summary() {
    let t = ticket("PFC-12", "Fix Login flicker");
    assert!(matches_filter(&t, ""));
    assert!(matches_filter(&t, "pfc"));
    assert!(matches_filter(&t, "LOGIN"));
    assert!(!matches_filter(&t, "billing"));
}

#[test]
fn typing_a_filter_narrows_the_ticket_list() {
    let mut a = app_on(Screen::Tickets(Tickets::default()));
    a.data.tickets = LoadState::Loaded(vec![ticket("A-1", "alpha"), ticket("B-2", "beta")]);
    handle_key(Key::Char('/'), &mut a);
    for c in "bet".chars() {
        handle_key(Key::Char(c), &mut a);
    }
    handle_key(Key::Enter, &mut a);
    let Screen::Tickets(s) = &a.screen else { panic!("left the ticket list") };
    assert!(!s.filtering);
    assert_eq!(s.filter, "bet");
    let shown = visible_tickets(&a, s).unwrap();
    assert_eq!(shown.len(), 1);
    assert_eq!(shown[0].key.as_str(), "B-2");
    // Enter on the selected ticket opens it and asks for the repositories.
    let cmd = handle_key(Key::Enter, &mut a);
    assert!(matches!(&a.screen, Screen::TicketDetail(d) if d.ticket.key.as_str() == "B-2"));
    assert!(matches!(cmd, Some(Command::Refresh { force: false, .. })));
}

#[test]
fn confirm_plan_for_a_ticket() {
    let t = ticket("PFC-7", "Fix the Login Bug");
    assert_eq!(default_branch_name(&t), "PFC-7-fix-the-login-bug");
    assert_eq!(default_branch_name(&ticket("PFC-8", "!!!")), "PFC-8");
    assert_eq!(sanitize_session("a.b:c d"), "a-b-cd");
    let st = Confirm::build(t, repo(), &Config::sample()).unwrap();
    let plan = st.plan.as_ref().unwrap();
    assert_eq!(plan.worktree_path, "/code/acme/widget-PFC-7");
    assert_eq!(plan.branch.as_str(), "PFC-7-fix-the-login-bug");
    assert_eq!(plan.session.as_str(), "PFC-7");
    assert_eq!(plan.start_point.as_ref().unwrap().as_str(), "main");
    assert_eq!(plan.repo_path, "/code/acme/widget");

    let mut cfg = Config::sample();
    cfg.tmux.session_template = "{repo}.{slug}".into();
    let st = Confirm::build(ticket("PFC-7", "Fix bug"), repo(), &cfg).unwrap();
    assert_eq!(st.plan.unwrap().session.as_str(), "widget-fix-bug");
    cfg.tmux.session_template = "{nope}".into();
    let st = Confirm::build(ticket("PFC-7", "Fix bug"), repo(), &cfg).unwrap();
    assert_eq!(st.plan.unwrap().session.as_str(), "PFC-7-fix-bug");
}

#[test]
fn confirming_asks_for_the_work_unit() {
    let st = Confirm::build(ticket("PFC-7", "Fix bug"), repo(), &Config::sample()).unwrap();
    let mut a = app_on(Screen::ConfirmCreate(Box::new(st)));
    let cmd = handle_key(Key::Enter, &mut a);
    match cmd {
        Some(Command::CreateWorkUnit(c)) => {
            assert_eq!(c.ticket.unwrap().as_str(), "PFC-7");
            assert_eq!(c.repo.as_str(), "acme/widget");
            assert_eq!(c.worktree_path, "/code/acme/widget-PFC-7");
            assert_eq!(c.session.as_str(), "PFC-7");
        }
        other => panic!("unexpected: {:?}", other),
    }
    assert!(matches!(a.screen, Screen::Worktrees(_)));
    let failed = Confirm::failed(ticket("PFC-7", "x"), "no".into());
    let mut b = app_on(Screen::ConfirmCreate(Box::new(failed)));
    assert!(handle_key(Key::Enter, &mut b).is_none());
    handle_key(Key::Esc, &mut b);
    assert!(matches!(b.screen, Screen::TicketDetail(_)));
}

#[test]
fn setup_form_needs_root_host_and_email() {
    let mut s = initial();
    assert_eq!(submission(&s).unwrap_err(), "jira host and email are required");
    s.code_root = String::new();
    assert_eq!(submission(&s).unwrap_err(), "code_root is required");
    s.code_root = "~/src".into();
    s.jira_host = "x.atlassian.net".into();
    s.jira_email = "me@x".into();
    s.gh_token = "ghp".into();
    let sub = submission(&s).unwrap();
    assert_eq!(sub.config.code_root, "~/src");
    assert_eq!(sub.config.jira.host, "x.atlassian.net");
    assert_eq!(sub.jira_email, "me@x");
    assert!(sub.jira_token.is_none());
    assert_eq!(sub.github_token.as_deref(), Some("ghp"));
}

#[test]
fn setup_form_is_filled_by_typing() {
    let mut a = app_on(Screen::Setup(Box::new(initial())));
    handle_key(Key::Tab, &mut a);
    for c in "h".chars() {
        handle_key(Key::Char(c), &mut a);
    }
    handle_key(Key::Enter, &mut a);
    for c in "e@x".chars() {
        handle_key(Key::Char(c), &mut a);
    }
    handle_key(Key::Backspace, &mut a);
    let Screen::Setup(s) = &a.screen else { panic!("left setup") };
    assert_eq!(s.jira_host, "h");
    assert_eq!(s.jira_email, "e@");
    assert_eq!(s.field, Field::JiraEmail);
    assert_eq!(Field::GhToken.next(), Field::Submit);
    assert_eq!(Field::CodeRoot.prev(), Field::CodeRoot);
}

fn worktree(session: Option<&str>) -> Worktree {
    Worktree {
        repo: RepoFullName::new("acme/widget").unwrap(),
        path: "/code/acme/widget-PFC-7".into(),
        branch: BranchName::new("PFC-7").unwrap(),
        ticket: None,
        status: WorktreeStatus { dirty: false, ahead: 0, behind: 0, has_upstream: false },
        session: session.map(|s| SessionName::new(s).unwrap()),
    }
}

#[test]
fn deleting_a_worktree_needs_confirmation() {
    let mut a = app_on(Screen::Worktrees(flow::screens::worktrees::State::default()));
    a.data.worktrees = LoadState::Loaded(vec![worktree(Some("PFC-7"))]);
    assert!(matches!(handle_key(Key::Enter, &mut a), Some(Command::AttachSession(s)) if s.as_str() == "PFC-7"));
    assert!(handle_key(Key::Char('d'), &mut a).is_none());
    handle_key(Key::Char('m'), &mut a);
    match handle_key(Key::Enter, &mut a) {
        Some(Command::DeleteWorktree { path, branch, delete_branch, kill_session, .. }) => {
            assert_eq!(path, "/code/acme/widget-PFC-7");
            assert_eq!(branch.as_str(), "PFC-7");
            assert_eq!(delete_branch, BranchDeleteMode::Force);
            assert_eq!(kill_session.unwrap().as_str(), "PFC-7");
        }
        other => panic!("unexpected: {:?}", other),
    }
    let Screen::Worktrees(s) = &a.screen else { panic!("left the list") };
    assert!(s.confirming_delete.is_none());
}

#[test]
fn delete_mode_cycles_back_after_three_presses() {
    let mut a = app_on(Screen::Worktrees(flow::screens::worktrees::State::default()));
    a.data.worktrees = LoadState::Loaded(vec![worktree(None)]);
    handle_key(Key::Char('d'), &mut a);
    let mode = |a: &AppState| match &a.screen {
        Screen::Worktrees(s) => s.delete_mode,
        _ => panic!("left the list"),
    };
    assert_eq!(mode(&a), BranchDeleteMode::DeleteIfMerged);
    handle_key(Key::Char('m'), &mut a);
    assert_eq!(mode(&a), BranchDeleteMode::Force);
    handle_key(Key::Char('m'), &mut a);
    assert_eq!(mode(&a), BranchDeleteMode::Keep);
    handle_key(Key::Char('m'), &mut a);
    assert_eq!(mode(&a), BranchDeleteMode::DeleteIfMerged);
    handle_key(Key::Esc, &mut a);
    let Screen::Worktrees(s) = &a.screen else { panic!("left the list") };
    assert!(s.confirming_delete.is_none());
}

#[test]
fn setup_fields_step_back_and_forth() {
    for f in [Field::JiraHost, Field::JiraEmail, Field::JiraToken, Field::GhToken, Field::Submit] {
        assert_eq!(f.prev().next(), f);
    }
    assert_eq!(Field::Submit.next(), Field::Submit);
}

#[test]
fn planned_names_stay_valid_for_awkward_summaries() {
    let st = Confirm::build(ticket("AB12-3", "  ::Weird.. Title!! ~^  "), repo(), &Config::sample()).unwrap();
    let plan = st.plan.unwrap();
    assert_eq!(plan.branch.as_str(), "AB12-3-weird-title");
    assert_eq!(plan.session.as_str(), "AB12-3");
    let mut cfg = Config::sample();
    cfg.tmux.session_template = " . : ".into();
    let st = Confirm::build(ticket("AB12-3", "x"), repo(), &cfg).unwrap();
    assert_eq!(st.plan.unwrap().session.as_str(), "--");
    cfg.tmux.session_template = "   ".into();
    assert_eq!(
        Confirm::build(ticket("AB12-3", "x"), repo(), &cfg).unwrap_err(),
        "tmux session name is empty or contains '.' / ':' / whitespace"
    );
}

#[test]
fn ticket_detail_and_pr_screens() {
    let mut a = app_on(Screen::TicketDetail(Box::new(flow::screens::ticket_detail::State::new(ticket("PFC-7", "Fix bug")))));
    handle_key(Key::Char('c'), &mut a);
    assert_eq!(a.toast.as_ref().unwrap().message, "no repos available \u{2014} try `r` to refresh");
    a.data.repos = LoadState::Loaded(vec![repo()]);
    handle_key(Key::Char('c'), &mut a);
    assert!(matches!(&a.screen, Screen::ConfirmCreate(c) if c.plan.is_some()));

    let mut p = app_on(Screen::Prs(flow::screens::prs::State::default()));
    p.data.prs = LoadState::Loaded(vec![flow::domain::Pr {
        repo: RepoFullName::new("acme/widget").unwrap(),
        number: flow::ids::PrNumber(45),
        title: "t".into(),
        head_ref: BranchName::new("h").unwrap(),
        author: "a".into(),
        draft: false,
        state: flow::domain::PrState::Open,
        url: "https://github.com/acme/widget/pull/45".into(),
    }]);
    assert!(matches!(handle_key(Key::Enter, &mut p), Some(Command::CheckoutPr { number, .. }) if number.0 == 45));
    assert!(matches!(handle_key(Key::Char('o'), &mut p), Some(Command::OpenUrl(u)) if u.ends_with("/pull/45")));
    handle_key(Key::Esc, &mut p);
    assert!(matches!(p.screen, Screen::Dashboard));
}

#[test]
fn typing_then_erasing_leaves_the_form_unchanged() {
    let mut a = app_on(Screen::Setup(Box::new(initial())));
    for _ in 0..6 {
        handle_key(Key::Char('x'), &mut a);
        handle_key(Key::Backspace, &mut a);
        handle_key(Key::Tab, &mut a);
    }
    let Screen::Setup(s) = &a.screen else { panic!("left setup") };
    assert_eq!(s.code_root, "~/code");
    assert!(s.jira_host.is_empty() && s.jira_email.is_empty());
    assert!(s.jira_token.is_empty() && s.gh_token.is_empty());
    assert_eq!(s.field, Field::Submit);
}

#[test]
fn q_quits_and_capital_r_refreshes_everything_on_every_list() {
    let mut w = app_on(Screen::Worktrees(flow::screens::worktrees::State::default()));
    assert!(handle_key(Key::Char('q'), &mut w).is_none());
    assert!(w.should_quit);
    let mut p = app_on(Screen::Prs(flow::screens::prs::State::default()));
    assert!(matches!(handle_key(Key::Char('R'), &mut p), Some(Command::RefreshAll)));
    assert!(!p.should_quit);
    let mut t = app_on(Screen::Tickets(Tickets::default()));
    handle_key(Key::Char('q'), &mut t);
    assert!(t.should_quit);
}

#[test]
fn q_is_text_while_the_ticket_filter_is_typed() {
    let mut a = app_on(Screen::Tickets(Tickets::default()));
    handle_key(Key::Char('/'), &mut a);
    assert!(handle_key(Key::Char('q'), &mut a).is_none());
    assert!(handle_key(Key::Char('R'), &mut a).is_none());
    assert!(!a.should_quit);
    let Screen::Tickets(s) = &a.screen else { panic!("left the ticket list") };
    assert_eq!(s.filter, "qR");
    assert!(s.filtering);
    handle_key(Key::Backspace, &mut a);
    let Screen::Tickets(s) = &a.screen else { panic!("left the ticket list") };
    assert_eq!(s.filter, "q");
    handle_key(Key::Esc, &mut a);
    let Screen::Tickets(s) = &a.screen else { panic!("left the ticket list") };
    assert_eq!(s.filter, "");
    assert!(!s.filtering);
}

#[test]
fn o_opens_the_selected_ticket_and_a_worktrees_ticket() {
    let mut a = app_on(Screen::Tickets(Tickets::default()));
    let mut t = ticket("PFC-7", "alpha");
    t.url = "https://acme.atlassian.net/browse/PFC-7".into();
    a.data.tickets = LoadState::Loaded(vec![ticket("A-1", "x"), t]);
    handle_key(Key::Char('j'), &mut a);
    assert!(matches!(handle_key(Key::Char('o'), &mut a),
        Some(Command::OpenUrl(u)) if u == "https://acme.atlassian.net/browse/PFC-7"));

    let mut wt = worktree(None);
    wt.ticket = Some(TicketKey::new("PFC-7").unwrap());
    a.screen = Screen::Worktrees(flow::screens::worktrees::State::default());
    a.data.worktrees = LoadState::Loaded(vec![wt, worktree(None)]);
    assert!(matches!(handle_key(Key::Char('o'), &mut a),
        Some(Command::OpenUrl(u)) if u == "https://acme.atlassian.net/browse/PFC-7"));
    // a worktree with no ticket has nothing to open
    handle_key(Key::Char('j'), &mut a);
    assert!(handle_key(Key::Char('o'), &mut a).is_none());
}
