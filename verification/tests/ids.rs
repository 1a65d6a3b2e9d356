use flow::ids::{BranchName, IdError, RepoFullName, SessionName, TicketKey};

#[test]
fn ticket_key_accepts_canonical() {
    assert!(TicketKey::new("PFC-1234").is_ok());
    assert!(TicketKey::new("ABC1-9").is_ok());
}

#[test]
fn ticket_key_rejects_garbage() {
    assert!(TicketKey::new("").is_err());
    assert!(TicketKey::new("pfc-123").is_err());
    assert!(TicketKey::new("PFC-").is_err());
    assert!(TicketKey::new("-123").is_err());
    assert!(TicketKey::new("PFC-12a").is_err());
}

#[test]
fn repo_full_name_parses_owner_repo() {
    let r = RepoFullName::new("acme/widget").unwrap();
    assert_eq!(r.owner(), "acme");
    assert_eq!(r.repo(), "widget");
}

#[test]
fn repo_full_name_rejects_garbage() {
    assert!(RepoFullName::new("acme").is_err());
    assert!(RepoFullName::new("/repo").is_err());
    assert!(RepoFullName::new("acme/").is_err());
    assert!(RepoFullName::new("acme/wid get").is_err());
}

#[test]
fn branch_name_rejects_forbidden_chars() {
    assert!(BranchName::new("PFC-1-fix").is_ok());
    assert!(BranchName::new("").is_err());
    assert!(BranchName::new("foo bar").is_err());
    assert!(BranchName::new("foo..bar").is_err());
    assert!(BranchName::new("foo:bar").is_err());
    assert!(BranchName::new("foo/").is_err());
}

#[test]
fn session_name_rejects_dot_colon_space() {
    assert!(SessionName::new("PFC-1234").is_ok());
    assert!(SessionName::new("hello.world").is_err());
    assert!(SessionName::new("a b").is_err());
    assert!(SessionName::new("x:y").is_err());
}

#[test]
fn ids_keep_their_text() {
    assert_eq!(TicketKey::new("PFC-1234").unwrap().as_str(), "PFC-1234");
    assert_eq!(BranchName::new("feature/x").unwrap().as_str(), "feature/x");
    assert_eq!(SessionName::new("pfc_1").unwrap().as_str(), "pfc_1");
    let r = RepoFullName::new("a/b").unwrap();
    assert_eq!(r.as_str(), "a/b");
}

#[test]
fn id_errors_name_what_was_refused() {
    match TicketKey::new("nope") {
        Err(IdError::InvalidTicketKey(s)) => assert_eq!(s, "nope"),
        other => panic!("unexpected: {:?}", other),
    }
    match RepoFullName::new("nope") {
        Err(e) => assert_eq!(e.message(), "repo full name must be 'owner/repo', got \"nope\""),
        Ok(_) => panic!("accepted"),
    }
    match BranchName::new("-x") {
        Err(e) => assert_eq!(e.message(), "branch name is empty or contains forbidden characters"),
        Ok(_) => panic!("accepted"),
    }
    match SessionName::new("") {
        Err(e) => assert_eq!(
            e.message(),
            "tmux session name is empty or contains '.' / ':' / whitespace"
        ),
        Ok(_) => panic!("accepted"),
    }
    match TicketKey::new("a\"b") {
        Err(e) => assert_eq!(e.message(), "ticket key must look like ABC-123, got \"a\\\"b\""),
        Ok(_) => panic!("accepted"),
    }
}

#[test]
fn branch_name_edge_cases() {
    assert!(BranchName::new("-lead").is_err());
    assert!(BranchName::new("a~b").is_err());
    assert!(BranchName::new("a^b").is_err());
    assert!(BranchName::new("a?b").is_err());
    assert!(BranchName::new("a*b").is_err());
    assert!(BranchName::new("a[b").is_err());
    assert!(BranchName::new("end.").is_err());
    assert!(BranchName::new("a.b/c").is_ok());
}

#[test]
fn repo_name_with_two_slashes_is_refused() {
    assert!(RepoFullName::new("a/b/c").is_err());
    assert!(RepoFullName::new("a b/c").is_err());
}
