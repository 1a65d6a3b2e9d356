use flow::git::{
    branch_delete_args, fetch_pr_head_args, git_failure, GitError, parse_default_branch, parse_status, parse_worktree_list, worktree_add_args,
    worktree_remove_args,
};
use flow::ids::{BranchName, RepoFullName};

fn fixture() -> &'static str {
    "worktree /repos/widget
HEAD aaaa
branch refs/heads/main

worktree /repos/widget-PFC-1
HEAD bbbb
branch refs/heads/PFC-1-fix-login

"
}

#[test]
fn parses_porcelain_listing() {
    let repo = RepoFullName::new("acme/widget").unwrap();
    let v = parse_worktree_list(fixture(), &repo).unwrap();
    assert_eq!(v.len(), 2);
    assert_eq!(v[0].branch.as_str(), "main");
    assert_eq!(v[1].branch.as_str(), "PFC-1-fix-login");
}

#[test]
fn porcelain_listing_keeps_paths_and_marks_detached() {
    let repo = RepoFullName::new("acme/widget").unwrap();
    let raw = "worktree /r/a\nHEAD 1\nbranch refs/heads/a\n\nworktree /r/det\nHEAD 2\ndetached\n\nworktree /r/bare\nbare\n\nworktree /r/b\nHEAD 3\nbranch refs/heads/b";
    let v = parse_worktree_list(raw, &repo).unwrap();
    assert_eq!(v.len(), 3);
    assert_eq!(v[0].path, "/r/a");
    assert_eq!(v[1].path, "/r/det");
    assert_eq!(v[1].branch.as_str(), "(detached)");
    assert_eq!(v[2].path, "/r/b");
    assert_eq!(v[2].branch.as_str(), "b");
    assert_eq!(v[0].repo.as_str(), "acme/widget");
    assert!(v[0].session.is_none());
    assert!(v[0].ticket.is_none());
}

#[test]
fn worktree_argument_lists() {
    let b = BranchName::new("PFC-1-x").unwrap();
    let main = BranchName::new("main").unwrap();
    assert_eq!(
        worktree_add_args("/w", &b, Some(&main), false),
        vec!["worktree", "add", "-b", "PFC-1-x", "/w", "main"]
    );
    assert_eq!(worktree_add_args("/w", &b, None, false), vec!["worktree", "add", "-b", "PFC-1-x", "/w"]);
    assert_eq!(worktree_add_args("/w", &b, Some(&main), true), vec!["worktree", "add", "/w", "PFC-1-x"]);
    assert_eq!(worktree_remove_args("/w", true), vec!["worktree", "remove", "--force", "/w"]);
    assert_eq!(worktree_remove_args("/w", false), vec!["worktree", "remove", "/w"]);
    assert_eq!(branch_delete_args(&b, true), vec!["branch", "-D", "PFC-1-x"]);
    assert_eq!(branch_delete_args(&b, false), vec!["branch", "-d", "PFC-1-x"]);
}

#[test]
fn default_branch_from_origin_head() {
    assert_eq!(parse_default_branch(Some("origin/develop\n")).unwrap().as_str(), "develop");
    assert_eq!(parse_default_branch(None).unwrap().as_str(), "main");
}

#[test]
fn status_counts_dirty_and_tracking() {
    let s = parse_status(" M src/lib.rs\n", Some("2\t3\n"));
    assert!(s.dirty);
    assert!(s.has_upstream);
    assert_eq!(s.behind, 2);
    assert_eq!(s.ahead, 3);
    let clean = parse_status("", None);
    assert!(!clean.dirty);
    assert!(!clean.has_upstream);
    assert_eq!(clean.ahead, 0);
}

#[test]
fn git_failures_name_the_command() {
    let args = vec!["worktree".to_string(), "add".to_string(), "/w".to_string()];
    match git_failure(&args, "fatal: exists".to_string()) {
        GitError::Command { cmd, stderr } => {
            assert_eq!(cmd, "git worktree add /w");
            assert_eq!(stderr, "fatal: exists");
        }
        other => panic!("unexpected: {:?}", other),
    }
    assert_eq!(fetch_pr_head_args(45), vec!["fetch", "origin", "pull/45/head"]);
}
