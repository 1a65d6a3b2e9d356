use flow::display::{
    count_text, masked, pr_row, selection, status_text, ticket_row, toast_popup, worktree_row, Area,
};
use flow::doctor::{first_line_version, presence, tool_version};
use flow::domain::{Pr, PrState, Ticket, TicketStatus, Worktree, WorktreeStatus};
use flow::ids::{BranchName, PrNumber, RepoFullName, SessionName, TicketKey};
use flow::screens::LoadState;
use flow::text::pad_right;
use flow::widgets::{frame, StatusBarProps};

#[test]
fn padding_matches_format_width() {
    assert_eq!(pad_right("ab", 5), format!("{:<5}", "ab"));
    assert_eq!(pad_right("abcdef", 3), "abcdef");
    assert_eq!(pad_right("é", 3), format!("{:<3}", "é"));
}

#[test]
fn overview_counts() {
    assert_eq!(count_text(&LoadState::Loaded(vec![1, 2, 3])), "3");
    assert_eq!(count_text::<u8>(&LoadState::Loading), "\u{2026}");
    assert_eq!(count_text::<u8>(&LoadState::NotLoaded), "?");
    assert_eq!(count_text::<u8>(&LoadState::Failed("x".into())), "!");
}

#[test]
fn secrets_are_masked_per_character() {
    assert_eq!(masked("abc"), "\u{2022}\u{2022}\u{2022}");
    assert_eq!(masked("é"), "\u{2022}");
    assert_eq!(masked(""), "");
}

#[test]
fn worktree_rows() {
    let w = Worktree {
        repo: RepoFullName::new("acme/widget").unwrap(),
        path: "/w".into(),
        branch: BranchName::new("main").unwrap(),
        ticket: None,
        status: WorktreeStatus { dirty: true, ahead: 2, behind: 10, has_upstream: true },
        session: Some(SessionName::new("s1").unwrap()),
    };
    let r = worktree_row(&w);
    assert_eq!(r.marker, "\u{25CF}");
    assert_eq!(r.repo, format!("{:<28}", "acme/widget"));
    assert_eq!(r.branch, format!("{:<32}", "main"));
    assert_eq!(r.track, format!("{:<14}", "\u{2191}2 \u{2193}10"));
    assert_eq!(r.session, "[s1]");
    let bare = Worktree {
        status: WorktreeStatus { dirty: false, ahead: 0, behind: 0, has_upstream: false },
        session: None,
        ..w
    };
    let r = worktree_row(&bare);
    assert_eq!(r.marker, " ");
    assert_eq!(r.track, "no upstream   ");
    assert_eq!(r.session, "[ no session ]");
}

#[test]
fn ticket_and_pr_rows() {
    let t = Ticket {
        key: TicketKey::new("PFC-1").unwrap(),
        summary: "Do it".into(),
        status: TicketStatus::InProgress,
        assignee: None,
        url: "u".into(),
        updated: 0,
    };
    let r = ticket_row(&t);
    assert_eq!(r.key, "PFC-1     ");
    assert_eq!(r.status, "WIP     ");
    assert_eq!(r.summary, "Do it");
    let p = Pr {
        repo: RepoFullName::new("a/b").unwrap(),
        number: PrNumber(7),
        title: "Fix".into(),
        head_ref: BranchName::new("x").unwrap(),
        author: "alice".into(),
        draft: true,
        state: PrState::Open,
        url: "u".into(),
    };
    let r = pr_row(&p);
    assert_eq!(r.number, "#7    ");
    assert_eq!(r.repo, format!("{:<28}", "a/b"));
    assert_eq!(r.draft, "[draft] ");
    assert_eq!(r.title, "Fix");
    assert_eq!(r.author, "@alice");
}

#[test]
fn status_bar_segments() {
    let idle = status_text(&StatusBarProps { mode: "DASHBOARD", in_flight: 0, tick: 3, right: None });
    assert_eq!(idle.mode, " DASHBOARD ");
    assert!(idle.activity.is_none());
    assert!(idle.right.is_none());
    let busy = status_text(&StatusBarProps { mode: "PRS", in_flight: 2, tick: 13, right: Some("r") });
    assert_eq!(busy.activity.unwrap(), format!("{} 2 ", frame(3)));
    assert_eq!(busy.right.unwrap(), "r");
    assert_eq!(frame(0), "\u{280B}");
    assert_eq!(frame(19), "\u{280F}");
}

#[test]
fn list_selection_is_held_to_the_last_row() {
    assert_eq!(selection(0, 0), None);
    assert_eq!(selection(5, 3), Some(2));
    assert_eq!(selection(1, 3), Some(1));
}

#[test]
fn toast_placement() {
    let area = Area { x: 0, y: 0, width: 80, height: 24 };
    let p = toast_popup(area, 10).unwrap();
    assert_eq!(p, Area { x: 64, y: 20, width: 14, height: 3 });
    let wide = toast_popup(area, 500).unwrap();
    assert_eq!(wide.width, 78);
    assert_eq!(wide.x, 0);
    assert!(toast_popup(Area { x: 0, y: 0, width: 9, height: 24 }, 1).is_none());
    assert!(toast_popup(Area { x: 0, y: 0, width: 80, height: 2 }, 1).is_none());
}

#[test]
fn doctor_reports() {
    assert_eq!(tool_version(Some("git version 2.43.0\n")), "git version 2.43.0");
    assert_eq!(tool_version(None), "not found");
    assert_eq!(first_line_version(Some("gh version 2.40.1\nhttps://x\n")), "gh version 2.40.1");
    assert_eq!(first_line_version(Some("")), "?");
    assert_eq!(first_line_version(None), "not found");
    assert_eq!(presence(true), "present");
    assert_eq!(presence(false), "missing");
}
