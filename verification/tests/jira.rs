use flow::domain::{Ticket, TicketStatus};
use flow::fixtures::mocks;
use flow::ids::TicketKey;
use flow::jira::{
    base_url, check_status, fetched_issue, issue_endpoint, issue_to_ticket, issue_url,
    issues_to_tickets, search_endpoint, IssueRaw, JiraError, MockJira, StatusRaw,
};

#[test]
fn status_codes() {
    assert!(check_status(200).is_ok());
    assert!(check_status(299).is_ok());
    assert!(matches!(check_status(401), Err(JiraError::Unauthorized)));
    assert!(matches!(check_status(403), Err(JiraError::Forbidden)));
    assert!(matches!(check_status(500), Err(JiraError::Server { status: 500 })));
    assert!(matches!(check_status(302), Err(JiraError::Server { status: 302 })));
}

#[test]
fn site_urls() {
    let base = base_url("example.atlassian.net").unwrap();
    assert_eq!(base, "https://example.atlassian.net/");
    assert_eq!(
        issue_url(&base, "PFC-1").unwrap(),
        "https://example.atlassian.net/browse/PFC-1"
    );
    assert_eq!(
        search_endpoint(&base).unwrap(),
        "https://example.atlassian.net/rest/api/3/search/jql"
    );
    let key = TicketKey::new("PFC-9").unwrap();
    assert_eq!(
        issue_endpoint(&base, &key).unwrap(),
        "https://example.atlassian.net/rest/api/3/issue/PFC-9"
    );
    assert!(matches!(base_url("bad host name"), Err(JiraError::InvalidHost { host }) if host == "bad host name"));
}

fn issue(key: &str) -> IssueRaw {
    IssueRaw {
        key: key.into(),
        summary: Some("Do it".into()),
        status: Some(StatusRaw {
            name: "In Progress".into(),
            category: Some("indeterminate".into()),
        }),
        assignee: Some(Some("Ann".into())),
        updated: Some("1970-01-01T00:00:02.500Z".into()),
    }
}

#[test]
fn issues_become_tickets() {
    let base = "https://example.atlassian.net/";
    let t = issue_to_ticket(&issue("PFC-7"), base, 99).unwrap();
    assert_eq!(t.key.as_str(), "PFC-7");
    assert_eq!(t.summary, "Do it");
    assert!(matches!(t.status, TicketStatus::InProgress));
    assert_eq!(t.assignee.as_deref(), Some("Ann"));
    assert_eq!(t.updated, 2500);
    assert_eq!(t.url, "https://example.atlassian.net/browse/PFC-7");

    let bare = IssueRaw {
        key: "PFC-8".into(),
        summary: None,
        status: None,
        assignee: None,
        updated: Some("not a time".into()),
    };
    let t = issue_to_ticket(&bare, base, 99).unwrap();
    assert_eq!(t.summary, "");
    assert!(matches!(&t.status, TicketStatus::Other(s) if s == "?"));
    assert_eq!(t.assignee, None);
    assert_eq!(t.updated, 99);

    assert!(issue_to_ticket(&issue("lower-1"), base, 0).is_none());
    let all = issues_to_tickets(&vec![issue("A-1"), issue("bad"), issue("B-2")], base, 0);
    assert_eq!(all.iter().map(|t| t.key.as_str()).collect::<Vec<_>>(), vec!["A-1", "B-2"]);

    let key = TicketKey::new("Z-1").unwrap();
    assert!(matches!(fetched_issue(&issue("bad"), &key, base, 0), Err(JiraError::InvalidKey(k)) if k == "Z-1"));
    assert!(fetched_issue(&issue("Z-1"), &key, base, 0).is_ok());
}

#[test]
fn ticket_status_from_jira() {
    assert!(matches!(TicketStatus::from_jira("done", "Closed"), TicketStatus::Done));
    assert!(matches!(TicketStatus::from_jira("new", "Open"), TicketStatus::Todo));
    assert!(matches!(TicketStatus::from_jira("to-do", "Open"), TicketStatus::Todo));
    assert!(matches!(
        TicketStatus::from_jira("indeterminate", "Code Review"),
        TicketStatus::InReview
    ));
    assert!(matches!(TicketStatus::from_jira("indeterminate", "Doing"), TicketStatus::InProgress));
    assert!(matches!(TicketStatus::from_jira("weird", "Parked"), TicketStatus::Other(n) if n == "Parked"));
    assert_eq!(TicketStatus::InReview.label(), "REVIEW");
}

#[test]
fn mock_jira_serves_its_fixtures() {
    let (jira, github) = mocks(1234);
    let all: Vec<Ticket> = jira.search("anything", 100).unwrap();
    assert_eq!(all.len(), 3);
    assert_eq!(all[0].key.as_str(), "PFC-1234");
    assert_eq!(all[2].updated, 1234);
    assert_eq!(jira.search("", 2).unwrap().len(), 2);
    let k = TicketKey::new("PFC-1240").unwrap();
    assert_eq!(jira.get(&k).unwrap().summary, "Add OAuth callback handling");
    let missing = TicketKey::new("NOPE-1").unwrap();
    assert!(matches!(jira.get(&missing), Err(JiraError::InvalidKey(s)) if s == "NOPE-1"));
    assert_eq!(github.repos.len(), 2);
    assert_eq!(github.prs[0].number.0, 45);
    let empty = MockJira::with_tickets(Vec::new());
    assert!(empty.search("", 5).unwrap().is_empty());
}
