use flow::cache::{PRS_TTL, REPOS_TTL, TICKETS_TTL, WORKTREES_TTL};
use flow::ids::RepoFullName;
use flow::runtime::Registry;

#[test]
fn registry_tracks_issued_fetches() {
    let mut r = Registry::new();
    let (a, ta) = r.issue();
    let (b, _tb) = r.issue();
    assert_ne!(a, b);
    assert_eq!(r.in_flight(), 2);
    let (c, _tc) = r.issue();
    assert!(r.complete(c), "a fetch issued and not cancelled completes");
    assert_eq!(r.in_flight(), 2);
    r.cancel(a);
    assert_eq!(r.in_flight(), 1);
    assert!(ta.is_cancelled());
    assert!(!r.complete(a), "a cancelled fetch's result is dropped");
    assert!(r.complete(b));
    assert!(!r.complete(b), "a fetch completes once");
    assert_eq!(r.in_flight(), 0);
}

#[test]
fn cancel_all_cancels_every_token() {
    let mut r = Registry::new();
    let (_, t1) = r.issue();
    let (_, t2) = r.issue();
    r.cancel_all();
    assert!(t1.is_cancelled() && t2.is_cancelled());
    assert_eq!(r.in_flight(), 0);
}

#[test]
fn cache_lifetimes() {
    assert_eq!(TICKETS_TTL, 5 * 60 * 1000);
    assert_eq!(REPOS_TTL, 24 * 60 * 60 * 1000);
    assert_eq!(WORKTREES_TTL, 30 * 1000);
    assert_eq!(PRS_TTL, 2 * 60 * 1000);
}

#[test]
fn repo_name_is_owner_slash_repo() {
    for name in ["acme/widget", "a/b", "Org-1/repo.rs"] {
        let r = RepoFullName::new(name).unwrap();
        assert_eq!(format!("{}/{}", r.owner(), r.repo()), name);
    }
}

#[test]
fn repo_map_keeps_one_value_per_repository() {
    let mut m = flow::repo_map::RepoMap::new();
    let a = RepoFullName::new("a/x").unwrap();
    m.insert(RepoFullName::new("a/x").unwrap(), 1);
    m.insert(RepoFullName::new("a/y").unwrap(), 2);
    m.insert(RepoFullName::new("a/x").unwrap(), 3);
    assert_eq!(m.len(), 2);
    assert_eq!(m.get(&a), Some(&3));
    assert_eq!(m.remove(&a), Some(3));
    assert!(!m.contains_key(&a));
    assert_eq!(m.entry_at(0).1, &2);
}
