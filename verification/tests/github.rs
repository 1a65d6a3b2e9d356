use flow::domain::{Pr, PrState};
use flow::github::{
    api_prs, fallback_backend, gh_failure, gh_prs, gh_raw_repo, parse_state, plan_backend,
    repo_summaries, ApiPrRaw, Backend, BackendPlan, Disabled, GhCli, GhPrRaw, GithubError,
    MockGithub, RawRepo, RemoteState, RepoSummary,
};
use flow::ids::{BranchName, PrNumber, RepoFullName};

#[test]
fn backend_label_strings() {
    assert_eq!(Backend::Gh.label(), "gh");
    assert_eq!(Backend::Octocrab.label(), "octocrab");
    assert_eq!(Backend::Disabled.label(), "disabled");
}

#[test]
fn disabled_backend_surfaces_not_configured() {
    let d = Disabled {
        reason: "test reason".into(),
    };
    let err = d.list_my_repos(10).unwrap_err();
    assert!(matches!(err, GithubError::NotConfigured(_)));
    assert!(err.not_configured_message().unwrap().contains("test reason"));
}

#[test]
fn disabled_backend_refuses_every_call() {
    let d = Disabled { reason: "r".into() };
    let repo = RepoFullName::new("a/b").unwrap();
    assert!(matches!(d.list_open_prs(&repo), Err(GithubError::NotConfigured(m)) if m == "r"));
    assert!(matches!(d.checkout_pr("/w", 1), Err(GithubError::NotConfigured(m)) if m == "r"));
    assert_eq!(
        GithubError::NotConfigured("x".into()).not_configured_message().unwrap(),
        "github access not configured: x"
    );
    assert!(GithubError::NotAuthenticated.not_configured_message().is_none());
}

#[test]
fn pr_state_is_read_case_insensitively() {
    assert_eq!(parse_state("open"), PrState::Open);
    assert_eq!(parse_state("Merged"), PrState::Merged);
    assert_eq!(parse_state("CLOSED"), PrState::Closed);
    assert_eq!(parse_state("draft"), PrState::Closed);
}

#[test]
fn gh_failures_tell_auth_from_other_errors() {
    let args = vec!["repo".to_string(), "list".to_string()];
    assert!(matches!(
        gh_failure(&args, "You are not logged into any GitHub hosts".into()),
        GithubError::NotAuthenticated
    ));
    match gh_failure(&args, "boom".into()) {
        GithubError::Command { cmd, stderr } => {
            assert_eq!(cmd, "gh repo list");
            assert_eq!(stderr, "boom");
        }
        other => panic!("unexpected: {:?}", other),
    }
}

fn raw(name: &str, branch: Option<&str>, pushed: Option<i64>) -> RawRepo {
    RawRepo {
        full_name: Some(name.to_string()),
        default_branch: branch.map(|b| b.to_string()),
        pushed_at: pushed,
    }
}

#[test]
fn repo_listing_is_newest_first_and_drops_invalid_entries() {
    let listing = vec![
        raw("a/old", Some("main"), Some(100)),
        raw("not-a-name", Some("main"), Some(500)),
        raw("a/new", None, Some(300)),
        raw("a/tie", Some("dev"), Some(100)),
        raw("a/none", Some("main"), None),
        raw("a/bad-branch", Some("bad branch"), Some(900)),
    ];
    let out = repo_summaries(&listing, 200);
    let names: Vec<&str> = out.iter().map(|s| s.full_name.as_str()).collect();
    assert_eq!(names, vec!["a/new", "a/none", "a/old", "a/tie"]);
    assert_eq!(out[0].default_branch.as_str(), "main");
    assert_eq!(out[1].pushed_at, 200);
    assert_eq!(out[3].default_branch.as_str(), "dev");
}

#[test]
fn gh_repo_entries_read_push_times() {
    let r = gh_raw_repo(
        "a/b".into(),
        Some("main".into()),
        Some("1970-01-01T00:00:01Z".into()),
    );
    assert_eq!(r.pushed_at, Some(1000));
    let bad = gh_raw_repo("a/b".into(), None, Some("yesterday".into()));
    assert_eq!(bad.pushed_at, None);
}

#[test]
fn gh_and_api_pull_requests() {
    let repo = RepoFullName::new("acme/widget").unwrap();
    let raw = vec![
        GhPrRaw {
            number: 7,
            title: "fix".into(),
            head_ref_name: "fix-bug".into(),
            author: Some("alice".into()),
            is_draft: true,
            state: "OPEN".into(),
            url: "https://github.com/acme/widget/pull/7".into(),
        },
        GhPrRaw {
            number: 8,
            title: "bad".into(),
            head_ref_name: "bad branch".into(),
            author: None,
            is_draft: false,
            state: "OPEN".into(),
            url: "https://github.com/acme/widget/pull/8".into(),
        },
        GhPrRaw {
            number: 9,
            title: "no url".into(),
            head_ref_name: "x".into(),
            author: None,
            is_draft: false,
            state: "OPEN".into(),
            url: "not a url".into(),
        },
    ];
    let prs = gh_prs(&repo, &raw);
    assert_eq!(prs.len(), 1);
    assert_eq!(prs[0].number, PrNumber(7));
    assert_eq!(prs[0].author, "alice");
    assert!(prs[0].draft);
    assert_eq!(prs[0].url, "https://github.com/acme/widget/pull/7");
    assert_eq!(prs[0].repo.as_str(), "acme/widget");

    let api = vec![
        ApiPrRaw {
            number: 3,
            title: "t".into(),
            head_ref: "feature".into(),
            author: "bob".into(),
            draft: None,
            state: RemoteState::Closed,
            merged: true,
            url: "https://github.com/acme/widget/pull/3".into(),
        },
        ApiPrRaw {
            number: 4,
            title: "u".into(),
            head_ref: "other".into(),
            author: "eve".into(),
            draft: Some(true),
            state: RemoteState::Closed,
            merged: false,
            url: "https://github.com/acme/widget/pull/4".into(),
        },
    ];
    let prs = api_prs(&repo, &api);
    assert_eq!(prs.len(), 2);
    assert_eq!(prs[0].state, PrState::Merged);
    assert!(!prs[0].draft);
    assert_eq!(prs[1].state, PrState::Closed);
    assert!(prs[1].draft);
}

#[test]
fn backend_is_picked_in_order_of_preference() {
    assert!(matches!(plan_backend(true, Some("t".into())), BackendPlan::Gh));
    assert!(matches!(plan_backend(false, Some("tok".into())), BackendPlan::Octocrab(t) if t == "tok"));
    assert!(matches!(plan_backend(false, Some(String::new())), BackendPlan::Disabled));
    assert!(matches!(plan_backend(false, None), BackendPlan::Disabled));
    assert!(fallback_backend().reason.starts_with("no `gh` auth found"));
}

#[test]
fn gh_argument_lists() {
    let gh = GhCli::new();
    assert_eq!(
        gh.repo_list_args(50),
        vec!["repo", "list", "--limit", "50", "--json", "nameWithOwner,defaultBranchRef,pushedAt"]
    );
    let repo = RepoFullName::new("acme/widget").unwrap();
    assert_eq!(gh.pr_list_args(&repo)[3], "acme/widget");
    assert_eq!(gh.checkout_args(12), vec!["pr", "checkout", "12"]);
    assert!(gh.checkout_outcome(12, true, String::new()).is_ok());
    match gh.checkout_outcome(12, false, "no".into()) {
        Err(GithubError::Command { cmd, stderr }) => {
            assert_eq!(cmd, "gh pr checkout 12");
            assert_eq!(stderr, "no");
        }
        other => panic!("unexpected: {:?}", other),
    }
}

fn summary(name: &str) -> RepoSummary {
    RepoSummary {
        full_name: RepoFullName::new(name).unwrap(),
        default_branch: BranchName::new("main").unwrap(),
        pushed_at: 0,
    }
}

fn pr(repo: &str, n: u64) -> Pr {
    Pr {
        repo: RepoFullName::new(repo).unwrap(),
        number: PrNumber(n),
        title: "t".into(),
        head_ref: BranchName::new("h").unwrap(),
        author: "a".into(),
        draft: false,
        state: PrState::Open,
        url: "u".into(),
    }
}

#[test]
fn mock_github_serves_its_fixtures() {
    let m = MockGithub {
        repos: vec![summary("a/x"), summary("a/y"), summary("a/z")],
        prs: vec![pr("a/x", 1), pr("a/y", 2), pr("a/x", 3)],
    };
    assert_eq!(m.list_my_repos(2).unwrap().len(), 2);
    assert_eq!(m.list_my_repos(10).unwrap().len(), 3);
    let xs = m.list_open_prs(&RepoFullName::new("a/x").unwrap()).unwrap();
    assert_eq!(xs.iter().map(|p| p.number.0).collect::<Vec<_>>(), vec![1, 3]);
    assert!(m.checkout_pr("/w", 1).is_ok());
}
