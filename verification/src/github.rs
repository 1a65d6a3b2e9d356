//! The GitHub side: which backend is in use, and what is read from `gh` or
//! the REST API about repositories and open pull requests.
use vstd::prelude::*;

use crate::domain::{Pr, PrState};
use crate::git::GitError;
use crate::ids::{valid_branch_name, valid_repo_full_name, BranchName, PrNumber, RepoFullName};
use crate::text::{
    chars_of, contains_seq, contains_vec, decimal, decimal_chars, extend_chars, extend_str, str_eq,
    string_of,
};
use crate::weburl::{parse_rfc3339, parse_url, rfc3339_millis, url_parsed};

verus! {

/// Failures of the GitHub backends.
#[derive(Debug)]
pub enum GithubError {
    GhNotInstalled,
    NotAuthenticated,
    Command { cmd: String, stderr: String },
    Parse(String),
    Octocrab(String),
    Git(GitError),
    NotConfigured(String),
    Io(String),
}

/// A repository as the GitHub listing gives it. `pushed_at` is in
/// milliseconds since the Unix epoch.
#[derive(Debug)]
pub struct RepoSummary {
    pub full_name: RepoFullName,
    pub default_branch: BranchName,
    pub pushed_at: i64,
}

impl Clone for RepoSummary {
    fn clone(&self) -> (r: Self)
        ensures
            r == *self,
    {
        RepoSummary {
            full_name: self.full_name.clone(),
            default_branch: self.default_branch.clone(),
            pushed_at: self.pushed_at,
        }
    }
}

/// The backend that talks to GitHub.
#[derive(Debug, Clone, Copy, PartialEq, Eq, Structural)]
pub enum Backend {
    Gh,
    Octocrab,
    Disabled,
}

impl Backend {
    pub fn label(&self) -> (r: &'static str)
        ensures
            r@ == match *self {
                Backend::Gh => "gh"@,
                Backend::Octocrab => "octocrab"@,
                Backend::Disabled => "disabled"@,
            },
    {
        match self {
            Backend::Gh => "gh",
            Backend::Octocrab => "octocrab",
            Backend::Disabled => "disabled",
        }
    }
}

/// Which backend to build, in order of preference: `gh` when it is
/// authenticated; else the REST client with the token kept in the keychain;
/// else none.
pub enum BackendPlan {
    Gh,
    Octocrab(String),
    Disabled,
}

/// Pick the backend from what was found: whether `gh auth status` succeeded
/// and the token read from the keychain, if any. An empty token counts as
/// none.
pub fn plan_backend(gh_authenticated: bool, token: Option<String>) -> (r: BackendPlan)
    ensures
        gh_authenticated ==> r is Gh,
        !gh_authenticated ==> match token {
            Some(t) => if t@.len() > 0 {
                r matches BackendPlan::Octocrab(u) && u == t
            } else {
                r is Disabled
            },
            None => r is Disabled,
        },
{
    if gh_authenticated {
        return BackendPlan::Gh;
    }
    match token {
        Some(t) => {
            if t.unicode_len() > 0 {
                BackendPlan::Octocrab(t)
            } else {
                BackendPlan::Disabled
            }
        },
        None => BackendPlan::Disabled,
    }
}

/// The backend that stands in when no other could be built: it tells the
/// user how to give access.
pub fn fallback_backend() -> (r: Disabled)
    ensures
        r.reason@ == "no `gh` auth found and no GitHub token in keychain \u{2014} run `gh auth login` or save a token via setup"@,
{
    Disabled {
        reason: "no `gh` auth found and no GitHub token in keychain \u{2014} run `gh auth login` or save a token via setup".to_owned(),
    }
}

/// The `gh` command-line client.
#[derive(Debug)]
pub struct GhCli;

pub open spec fn arg_views(v: Seq<String>) -> Seq<Seq<char>> {
    v.map_values(|s: String| s@)
}

impl GhCli {
    pub fn new() -> (r: GhCli) {
        GhCli
    }

    /// `gh repo list --limit <limit> --json nameWithOwner,defaultBranchRef,pushedAt`.
    pub fn repo_list_args(&self, limit: usize) -> (r: Vec<String>)
        ensures
            arg_views(r@) == seq![
                "repo"@,
                "list"@,
                "--limit"@,
                decimal(limit as nat),
                "--json"@,
                "nameWithOwner,defaultBranchRef,pushedAt"@,
            ],
    {
        let mut r: Vec<String> = Vec::new();
        r.push("repo".to_owned());
        r.push("list".to_owned());
        r.push("--limit".to_owned());
        r.push(string_of(&decimal_chars(limit as u64)));
        r.push("--json".to_owned());
        r.push("nameWithOwner,defaultBranchRef,pushedAt".to_owned());
        assert(arg_views(r@) =~= seq![
            "repo"@,
            "list"@,
            "--limit"@,
            decimal(limit as nat),
            "--json"@,
            "nameWithOwner,defaultBranchRef,pushedAt"@,
        ]);
        r
    }

    /// `gh pr list --repo <repo> --state open --json number,title,headRefName,author,isDraft,state,url --limit 100`.
    pub fn pr_list_args(&self, repo: &RepoFullName) -> (r: Vec<String>)
        ensures
            arg_views(r@) == seq![
                "pr"@,
                "list"@,
                "--repo"@,
                repo@,
                "--state"@,
                "open"@,
                "--json"@,
                "number,title,headRefName,author,isDraft,state,url"@,
                "--limit"@,
                "100"@,
            ],
    {
        let mut r: Vec<String> = Vec::new();
        r.push("pr".to_owned());
        r.push("list".to_owned());
        r.push("--repo".to_owned());
        r.push(repo.as_str().to_owned());
        r.push("--state".to_owned());
        r.push("open".to_owned());
        r.push("--json".to_owned());
        r.push("number,title,headRefName,author,isDraft,state,url".to_owned());
        r.push("--limit".to_owned());
        r.push("100".to_owned());
        assert(arg_views(r@) =~= seq![
            "pr"@,
            "list"@,
            "--repo"@,
            repo@,
            "--state"@,
            "open"@,
            "--json"@,
            "number,title,headRefName,author,isDraft,state,url"@,
            "--limit"@,
            "100"@,
        ]);
        r
    }

    /// `gh pr checkout <number>`, run inside the worktree.
    pub fn checkout_args(&self, number: u64) -> (r: Vec<String>)
        ensures
            arg_views(r@) == seq!["pr"@, "checkout"@, decimal(number as nat)],
    {
        let mut r: Vec<String> = Vec::new();
        r.push("pr".to_owned());
        r.push("checkout".to_owned());
        r.push(string_of(&decimal_chars(number)));
        assert(arg_views(r@) =~= seq!["pr"@, "checkout"@, decimal(number as nat)]);
        r
    }

    /// What `gh pr checkout` came to: `Ok` on success, else the command and
    /// its error output.
    pub fn checkout_outcome(&self, number: u64, success: bool, stderr: String) -> (r: Result<
        (),
        GithubError,
    >)
        ensures
            success ==> r is Ok,
            !success ==> (r matches Err(GithubError::Command { cmd, stderr: e }) && cmd@
                == "gh pr checkout "@ + decimal(number as nat) && e == stderr),
    {
        if success {
            return Ok(());
        }
        let mut c = chars_of("gh pr checkout ");
        extend_chars(&mut c, &decimal_chars(number));
        Err(GithubError::Command { cmd: string_of(&c), stderr })
    }
}

/// The backend used when neither `gh` nor a token is available: every call
/// fails with the reason.
#[derive(Debug)]
pub struct Disabled {
    pub reason: String,
}

pub open spec fn not_configured(e: GithubError, reason: Seq<char>) -> bool {
    e matches GithubError::NotConfigured(m) && m@ == reason
}

impl Disabled {
    fn error(&self) -> (r: GithubError)
        ensures
            not_configured(r, self.reason@),
    {
        GithubError::NotConfigured(self.reason.clone())
    }

    pub fn list_my_repos(&self, limit: usize) -> (r: Result<Vec<RepoSummary>, GithubError>)
        ensures
            r matches Err(e) && not_configured(e, self.reason@),
    {
        Err(self.error())
    }

    pub fn list_open_prs(&self, repo: &RepoFullName) -> (r: Result<Vec<Pr>, GithubError>)
        ensures
            r matches Err(e) && not_configured(e, self.reason@),
    {
        Err(self.error())
    }

    pub fn checkout_pr(&self, worktree: &str, number: u64) -> (r: Result<(), GithubError>)
        ensures
            r matches Err(e) && not_configured(e, self.reason@),
    {
        Err(self.error())
    }
}

impl GithubError {
    /// The text of the error, for the variants whose text this crate makes.
    pub fn not_configured_message(&self) -> (r: Option<String>)
        ensures
            match *self {
                GithubError::NotConfigured(m) => r matches Some(t) && t@
                    == "github access not configured: "@ + m@,
                _ => r is None,
            },
    {
        match self {
            GithubError::NotConfigured(m) => {
                let mut v = chars_of("github access not configured: ");
                extend_str(&mut v, m.as_str());
                Some(string_of(&v))
            },
            _ => None,
        }
    }
}

/// ASCII uppercase of a sequence.
pub open spec fn upper_seq(s: Seq<char>) -> Seq<char> {
    Seq::new(
        s.len(),
        |i: int|
            if 'a' <= s[i] && s[i] <= 'z' {
                ((s[i] as u32) - 32) as char
            } else {
                s[i]
            },
    )
}

/// The state of a pull request from `gh`'s state text, in any case:
/// `OPEN`, `MERGED`, or closed for anything else.
pub open spec fn state_of(s: Seq<char>) -> PrState {
    if upper_seq(s) == "OPEN"@ {
        PrState::Open
    } else if upper_seq(s) == "MERGED"@ {
        PrState::Merged
    } else {
        PrState::Closed
    }
}

fn uppered(s: &str) -> (r: Vec<char>)
    ensures
        r@ == upper_seq(s@),
{
    let v = chars_of(s);
    let mut out: Vec<char> = Vec::new();
    let mut i: usize = 0;
    while i < v.len()
        invariant
            i <= v.len(),
            v@ == s@,
            out@ == upper_seq(v@.take(i as int)),
        decreases v.len() - i,
    {
        let c = v[i];
        let u = if 'a' <= c && c <= 'z' {
            let b: u8 = (c as u8) - 32;
            b as char
        } else {
            c
        };
        out.push(u);
        assert(upper_seq(v@.take(i as int + 1)) =~= upper_seq(v@.take(i as int)).push(u));
        i = i + 1;
    }
    assert(v@.take(v.len() as int) =~= v@);
    out
}

pub fn parse_state(s: &str) -> (r: PrState)
    ensures
        r == state_of(s@),
{
    let u = uppered(s);
    if crate::text::seq_eq(&u, &chars_of("OPEN")) {
        PrState::Open
    } else if crate::text::seq_eq(&u, &chars_of("MERGED")) {
        PrState::Merged
    } else {
        PrState::Closed
    }
}

/// Whether a failing `gh` run's error output says it is not logged in.
pub open spec fn says_not_authenticated(stderr: Seq<char>) -> bool {
    contains_seq(stderr, "not logged into"@) || contains_seq(stderr, "authentication"@)
}

/// The error of a failing `gh` run: not authenticated when its error output
/// says so, else the command line (`gh` and its arguments, space-separated)
/// with the error output.
pub fn gh_failure(args: &Vec<String>, stderr: String) -> (r: GithubError)
    ensures
        says_not_authenticated(stderr@) ==> r is NotAuthenticated,
        !says_not_authenticated(stderr@) ==> (r matches GithubError::Command { cmd, stderr: e }
            && cmd@ == "gh"@ + joined_args(args@) && e == stderr),
{
    let se = chars_of(stderr.as_str());
    if contains_vec(&se, &chars_of("not logged into")) || contains_vec(
        &se,
        &chars_of("authentication"),
    ) {
        return GithubError::NotAuthenticated;
    }
    let mut cmd = chars_of("gh");
    let mut i: usize = 0;
    while i < args.len()
        invariant
            i <= args@.len(),
            cmd@ == "gh"@ + joined_args(args@.take(i as int)),
        decreases args@.len() - i,
    {
        let ghost before = cmd@;
        cmd.push(' ');
        extend_str(&mut cmd, args[i].as_str());
        assert(args@.take(i as int + 1).drop_last() =~= args@.take(i as int));
        assert(cmd@ =~= "gh"@ + joined_args(args@.take(i as int + 1)));
        i = i + 1;
    }
    assert(args@.take(args@.len() as int) =~= args@);
    GithubError::Command { cmd: string_of(&cmd), stderr }
}

/// Each argument preceded by a space.
pub open spec fn joined_args(args: Seq<String>) -> Seq<char>
    decreases args.len(),
{
    if args.len() == 0 {
        Seq::empty()
    } else {
        joined_args(args.drop_last()) + seq![' '] + args.last()@
    }
}

} // verus!

verus! {

/// A repository entry of a listing, before it is checked. `pushed_at` is in
/// milliseconds since the Unix epoch.
#[derive(Debug)]
pub struct RawRepo {
    pub full_name: Option<String>,
    pub default_branch: Option<String>,
    pub pushed_at: Option<i64>,
}

/// A repository summary as plain values: (full name, default branch, pushed at).
pub type SummaryView = (Seq<char>, Seq<char>, i64);

pub open spec fn summary_view(s: RepoSummary) -> SummaryView {
    (s.full_name@, s.default_branch@, s.pushed_at)
}

/// The summary a listing entry gives: entries without a valid full name or
/// default branch (`main` when none is given) are dropped; a missing push
/// time counts as `now`.
pub open spec fn raw_kept(r: RawRepo, now: i64) -> Option<SummaryView> {
    match r.full_name {
        None => None,
        Some(n) => {
            let b = match r.default_branch {
                Some(b) => b@,
                None => "main"@,
            };
            if !valid_repo_full_name(n@) || !valid_branch_name(b) {
                None
            } else {
                Some(
                    (
                        n@,
                        b,
                        match r.pushed_at {
                            Some(t) => t,
                            None => now,
                        },
                    ),
                )
            }
        },
    }
}

pub open spec fn kept_all(s: Seq<RawRepo>, now: i64) -> Seq<SummaryView>
    decreases s.len(),
{
    if s.len() == 0 {
        Seq::empty()
    } else {
        match raw_kept(s.last(), now) {
            Some(v) => kept_all(s.drop_last(), now).push(v),
            None => kept_all(s.drop_last(), now),
        }
    }
}

/// Position of the first entry pushed before `k`, or the length.
pub open spec fn first_older(t: Seq<SummaryView>, k: i64) -> nat
    decreases t.len(),
{
    if t.len() == 0 {
        0
    } else if t[0].2 < k {
        0
    } else {
        1 + first_older(t.drop_first(), k)
    }
}

proof fn lemma_first_older(t: Seq<SummaryView>, k: i64)
    ensures
        first_older(t, k) <= t.len(),
        first_older(t, k) < t.len() ==> t[first_older(t, k) as int].2 < k,
        forall|j: int| 0 <= j < first_older(t, k) ==> (#[trigger] t[j]).2 >= k,
    decreases t.len(),
{
    if t.len() > 0 && t[0].2 >= k {
        lemma_first_older(t.drop_first(), k);
        assert forall|j: int| 0 <= j < first_older(t, k) implies (#[trigger] t[j]).2 >= k by {
            if j > 0 {
                assert(t[j] == t.drop_first()[j - 1]);
            }
        }
    }
}

proof fn lemma_first_older_unique(t: Seq<SummaryView>, k: i64, i: int)
    requires
        0 <= i <= t.len(),
        i < t.len() ==> t[i].2 < k,
        forall|j: int| 0 <= j < i ==> (#[trigger] t[j]).2 >= k,
    ensures
        first_older(t, k) == i,
    decreases t.len(),
{
    if t.len() > 0 && i > 0 {
        assert forall|j: int| 0 <= j < i - 1 implies (#[trigger] t.drop_first()[j]).2 >= k by {
            assert(t.drop_first()[j] == t[j + 1]);
        }
        lemma_first_older_unique(t.drop_first(), k, i - 1);
    }
}

/// Insert `x` after every entry pushed at or after it.
pub open spec fn insert_by_push(t: Seq<SummaryView>, x: SummaryView) -> Seq<SummaryView> {
    t.insert(first_older(t, x.2) as int, x)
}

/// The entries newest push first; entries pushed at the same time keep
/// their order (a stable sort).
pub open spec fn newest_first(s: Seq<SummaryView>) -> Seq<SummaryView>
    decreases s.len(),
{
    if s.len() == 0 {
        Seq::empty()
    } else {
        insert_by_push(newest_first(s.drop_last()), s.last())
    }
}

pub open spec fn pushed_desc(s: Seq<SummaryView>) -> bool {
    forall|i: int, j: int| 0 <= i < j < s.len() ==> (#[trigger] s[i]).2 >= (#[trigger] s[j]).2
}

/// Listings come out newest push first, and no entry is lost or added.
pub proof fn law_newest_first_sorted(s: Seq<SummaryView>)
    ensures
        pushed_desc(newest_first(s)),
        newest_first(s).len() == s.len(),
        newest_first(s).to_multiset() == s.to_multiset(),
    decreases s.len(),
{
    broadcast use vstd::seq_lib::to_multiset_build, vstd::seq_lib::to_multiset_insert;

    if s.len() == 0 {
        assert(newest_first(s) =~= s);
    } else {
        assert(s.drop_last().push(s.last()) =~= s);
        law_newest_first_sorted(s.drop_last());
        let t = newest_first(s.drop_last());
        let x = s.last();
        lemma_first_older(t, x.2);
        let j = first_older(t, x.2) as int;
        let u = t.insert(j, x);
        assert forall|a: int, b: int| 0 <= a < b < u.len() implies (#[trigger] u[a]).2 >= (
        #[trigger] u[b]).2 by {
            if b < j {
                assert(u[a] == t[a] && u[b] == t[b]);
            } else if b == j {
                assert(u[a] == t[a]);
            } else if a < j {
                assert(u[a] == t[a] && u[b] == t[b - 1]);
            } else if a == j {
                assert(u[b] == t[b - 1]);
                assert(t[j].2 < x.2);
                assert(t[j].2 >= t[b - 1].2 || j == b - 1);
            } else {
                assert(u[a] == t[a - 1] && u[b] == t[b - 1]);
            }
        }
    }
}

pub open spec fn summaries_view(v: Seq<RepoSummary>) -> Seq<SummaryView> {
    v.map_values(|s: RepoSummary| summary_view(s))
}

fn keep_raw(r: &RawRepo, now: i64) -> (o: Option<RepoSummary>)
    ensures
        match raw_kept(*r, now) {
            Some(v) => o matches Some(s) && summary_view(s) == v,
            None => o is None,
        },
{
    let name = match &r.full_name {
        Some(n) => n,
        None => {
            return None;
        },
    };
    let full = match RepoFullName::new(name.as_str()) {
        Ok(f) => f,
        Err(_) => {
            return None;
        },
    };
    let b = match &r.default_branch {
        Some(b) => b.clone(),
        None => "main".to_owned(),
    };
    let branch = match BranchName::new(b.as_str()) {
        Ok(x) => x,
        Err(_) => {
            return None;
        },
    };
    let pushed_at = match r.pushed_at {
        Some(t) => t,
        None => now,
    };
    Some(RepoSummary { full_name: full, default_branch: branch, pushed_at })
}

/// The summaries of a listing: invalid entries dropped, newest push first.
pub fn repo_summaries(raw: &Vec<RawRepo>, now: i64) -> (r: Vec<RepoSummary>)
    ensures
        summaries_view(r@) == newest_first(kept_all(raw@, now)),
{
    let mut out: Vec<RepoSummary> = Vec::new();
    let mut i: usize = 0;
    assert(summaries_view(out@) =~= Seq::<SummaryView>::empty());
    while i < raw.len()
        invariant
            i <= raw@.len(),
            summaries_view(out@) == newest_first(kept_all(raw@.take(i as int), now)),
        decreases raw@.len() - i,
    {
        assert(raw@.take(i as int + 1).drop_last() =~= raw@.take(i as int));
        assert(raw@.take(i as int + 1).last() == raw@[i as int]);
        match keep_raw(&raw[i], now) {
            Some(s) => {
                let ghost t = summaries_view(out@);
                let k = s.pushed_at;
                let mut j: usize = 0;
                while j < out.len() && out[j].pushed_at >= k
                    invariant
                        j <= out@.len(),
                        t == summaries_view(out@),
                        forall|q: int| 0 <= q < j ==> (#[trigger] t[q]).2 >= k,
                    decreases out@.len() - j,
                {
                    assert(t[j as int] == summary_view(out@[j as int]));
                    j = j + 1;
                }
                proof {
                    if j < out@.len() {
                        assert(t[j as int] == summary_view(out@[j as int]));
                    }
                    lemma_first_older_unique(t, k, j as int);
                    let kept = kept_all(raw@.take(i as int), now);
                    assert(kept_all(raw@.take(i as int + 1), now) == kept.push(summary_view(s)));
                    assert(kept.push(summary_view(s)).drop_last() =~= kept);
                }
                let ghost sv = summary_view(s);
                out.insert(j, s);
                assert(summaries_view(out@) =~= t.insert(j as int, sv));
            },
            None => {},
        }
        i = i + 1;
    }
    assert(raw@.take(raw@.len() as int) =~= raw@);
    out
}

/// A repository entry from `gh repo list --json nameWithOwner,defaultBranchRef,pushedAt`,
/// with its push time read as RFC 3339.
pub fn gh_raw_repo(
    name_with_owner: String,
    default_branch_ref: Option<String>,
    pushed_at: Option<String>,
) -> (r: RawRepo)
    ensures
        r.full_name == Some(name_with_owner),
        r.default_branch == default_branch_ref,
        r.pushed_at == match pushed_at {
            Some(s) => rfc3339_millis(s@),
            None => None,
        },
{
    let pushed = match &pushed_at {
        Some(s) => parse_rfc3339(s.as_str()),
        None => None,
    };
    RawRepo { full_name: Some(name_with_owner), default_branch: default_branch_ref, pushed_at: pushed }
}

} // verus!

verus! {

/// A pull request from `gh pr list --json number,title,headRefName,author,isDraft,state,url`.
#[derive(Debug)]
pub struct GhPrRaw {
    pub number: u64,
    pub title: String,
    pub head_ref_name: String,
    pub author: Option<String>,
    pub is_draft: bool,
    pub state: String,
    pub url: String,
}

/// A pull request as plain values: (repo, number, title, head branch,
/// author, draft, state, url).
pub type PrView = (Seq<char>, u64, Seq<char>, Seq<char>, Seq<char>, bool, PrState, Seq<char>);

pub open spec fn pr_view(p: Pr) -> PrView {
    (p.repo@, p.number.0, p.title@, p.head_ref@, p.author@, p.draft, p.state, p.url@)
}

pub open spec fn prs_view(v: Seq<Pr>) -> Seq<PrView> {
    v.map_values(|p: Pr| pr_view(p))
}

/// The pull request an entry gives: entries whose head branch is not a
/// valid branch name, or whose URL does not parse, are dropped.
pub open spec fn gh_pr_kept(repo: Seq<char>, p: GhPrRaw) -> Option<PrView> {
    if !valid_branch_name(p.head_ref_name@) {
        None
    } else {
        match url_parsed(p.url@) {
            None => None,
            Some(u) => Some(
                (
                    repo,
                    p.number,
                    p.title@,
                    p.head_ref_name@,
                    match p.author {
                        Some(a) => a@,
                        None => Seq::empty(),
                    },
                    p.is_draft,
                    state_of(p.state@),
                    u,
                ),
            ),
        }
    }
}

pub open spec fn gh_prs_kept(repo: Seq<char>, s: Seq<GhPrRaw>) -> Seq<PrView>
    decreases s.len(),
{
    if s.len() == 0 {
        Seq::empty()
    } else {
        match gh_pr_kept(repo, s.last()) {
            Some(v) => gh_prs_kept(repo, s.drop_last()).push(v),
            None => gh_prs_kept(repo, s.drop_last()),
        }
    }
}

/// The open pull requests of `repo` from `gh`'s listing, in its order.
pub fn gh_prs(repo: &RepoFullName, raw: &Vec<GhPrRaw>) -> (r: Vec<Pr>)
    ensures
        prs_view(r@) == gh_prs_kept(repo@, raw@),
{
    let mut out: Vec<Pr> = Vec::new();
    let mut i: usize = 0;
    assert(prs_view(out@) =~= Seq::<PrView>::empty());
    while i < raw.len()
        invariant
            i <= raw@.len(),
            prs_view(out@) == gh_prs_kept(repo@, raw@.take(i as int)),
        decreases raw@.len() - i,
    {
        assert(raw@.take(i as int + 1).drop_last() =~= raw@.take(i as int));
        assert(raw@.take(i as int + 1).last() == raw@[i as int]);
        let p = &raw[i];
        match BranchName::new(p.head_ref_name.as_str()) {
            Ok(branch) => {
                match parse_url(p.url.as_str()) {
                    Some(url) => {
                        let author = match &p.author {
                            Some(a) => a.clone(),
                            None => String::new(),
                        };
                        let pr = Pr {
                            repo: repo.clone(),
                            number: PrNumber(p.number),
                            title: p.title.clone(),
                            head_ref: branch,
                            author,
                            draft: p.is_draft,
                            state: parse_state(p.state.as_str()),
                            url,
                        };
                        let ghost before = prs_view(out@);
                        out.push(pr);
                        assert(prs_view(out@) =~= before.push(pr_view(pr)));
                    },
                    None => {},
                }
            },
            Err(_) => {},
        }
        i = i + 1;
    }
    assert(raw@.take(raw@.len() as int) =~= raw@);
    out
}

/// The state of an issue or pull request in the REST API.
#[derive(Debug, Clone, Copy, PartialEq, Eq, Structural)]
pub enum RemoteState {
    Open,
    Closed,
    Other,
}

/// A pull request from the REST API.
#[derive(Debug)]
pub struct ApiPrRaw {
    pub number: u64,
    pub title: String,
    pub head_ref: String,
    pub author: String,
    pub draft: Option<bool>,
    pub state: RemoteState,
    pub merged: bool,
    pub url: String,
}

/// Open is open, closed is merged when it was merged and closed otherwise;
/// a state the API adds later counts as open.
pub open spec fn api_state(state: RemoteState, merged: bool) -> PrState {
    match state {
        RemoteState::Open => PrState::Open,
        RemoteState::Closed => if merged {
            PrState::Merged
        } else {
            PrState::Closed
        },
        RemoteState::Other => PrState::Open,
    }
}

/// The pull request an API entry gives: entries whose head branch is not a
/// valid branch name are dropped; a missing draft flag means not a draft.
pub open spec fn api_pr_kept(repo: Seq<char>, p: ApiPrRaw) -> Option<PrView> {
    if !valid_branch_name(p.head_ref@) {
        None
    } else {
        Some(
            (
                repo,
                p.number,
                p.title@,
                p.head_ref@,
                p.author@,
                match p.draft {
                    Some(d) => d,
                    None => false,
                },
                api_state(p.state, p.merged),
                p.url@,
            ),
        )
    }
}

pub open spec fn api_prs_kept(repo: Seq<char>, s: Seq<ApiPrRaw>) -> Seq<PrView>
    decreases s.len(),
{
    if s.len() == 0 {
        Seq::empty()
    } else {
        match api_pr_kept(repo, s.last()) {
            Some(v) => api_prs_kept(repo, s.drop_last()).push(v),
            None => api_prs_kept(repo, s.drop_last()),
        }
    }
}

/// `v` is what API entry `p` of `repo` says: the same repository, number,
/// head branch and URL, open when the API reports it open, merged when it
/// reports it closed after a merge, and closed when closed without one.
pub open spec fn comes_from_api_entry(repo: Seq<char>, p: ApiPrRaw, v: PrView) -> bool {
    &&& v.0 == repo
    &&& v.1 == p.number
    &&& v.3 == p.head_ref@
    &&& v.7 == p.url@
    &&& p.state == RemoteState::Open ==> v.6 == PrState::Open
    &&& p.state == RemoteState::Closed && p.merged ==> v.6 == PrState::Merged
    &&& p.state == RemoteState::Closed && !p.merged ==> v.6 == PrState::Closed
}

/// The entry of `s` that the `k`-th pull request read from it came from.
pub open spec fn api_source(repo: Seq<char>, s: Seq<ApiPrRaw>, k: int) -> int
    decreases s.len(),
{
    if s.len() == 0 {
        0
    } else if k < api_prs_kept(repo, s.drop_last()).len() {
        api_source(repo, s.drop_last(), k)
    } else {
        s.len() - 1
    }
}

proof fn lemma_api_source(repo: Seq<char>, s: Seq<ApiPrRaw>, k: int)
    requires
        0 <= k < api_prs_kept(repo, s).len(),
    ensures
        0 <= api_source(repo, s, k) && api_source(repo, s, k) < s.len(),
        comes_from_api_entry(repo, s[api_source(repo, s, k)], api_prs_kept(repo, s)[k]),
    decreases s.len(),
{
    let t = s.drop_last();
    if k < api_prs_kept(repo, t).len() {
        lemma_api_source(repo, t, k);
        assert(t[api_source(repo, t, k)] == s[api_source(repo, t, k)]);
    } else {
        assert(s.last() == s[s.len() - 1]);
    }
}

proof fn lemma_api_prs_len(repo: Seq<char>, s: Seq<ApiPrRaw>)
    ensures
        api_prs_kept(repo, s).len() <= s.len(),
    decreases s.len(),
{
    if s.len() > 0 {
        lemma_api_prs_len(repo, s.drop_last());
    }
}

/// Every pull request read from the REST API's listing comes from one of
/// its entries and keeps that entry's state: an open pull request stays
/// open, a closed one is merged or closed as the API says. Nothing is made
/// up: there are never more pull requests than entries.
pub proof fn law_api_prs_states(repo: Seq<char>, s: Seq<ApiPrRaw>)
    ensures
        api_prs_kept(repo, s).len() <= s.len(),
        forall|k: int|
            #![trigger api_prs_kept(repo, s)[k]]
            (0 <= k < api_prs_kept(repo, s).len()) ==> (0 <= api_source(repo, s, k) && api_source(repo, s, k) < s.len()
                && comes_from_api_entry(repo, s[api_source(repo, s, k)], api_prs_kept(repo, s)[k])),
{
    lemma_api_prs_len(repo, s);
    assert forall|k: int|
        0 <= k < api_prs_kept(repo, s).len() implies 0 <= api_source(repo, s, k) && api_source(repo, s, k) < s.len()
            && comes_from_api_entry(repo, s[api_source(repo, s, k)], api_prs_kept(repo, s)[k]) by {
        lemma_api_source(repo, s, k);
    }

}

proof fn lemma_prs_sources(repo: Seq<char>, s: Seq<ApiPrRaw>, out: Seq<Pr>)
    requires
        prs_view(out) == api_prs_kept(repo, s),
    ensures
        out.len() <= s.len(),
        forall|k: int|
            #![trigger out[k]]
            #![trigger api_source(repo, s, k)]
            0 <= k && k < out.len() ==> (0 <= api_source(repo, s, k) && api_source(repo, s, k)
                < s.len() && comes_from_api_entry(repo, s[api_source(repo, s, k)], pr_view(out[k]))),
{
    law_api_prs_states(repo, s);
    assert(out.len() == prs_view(out).len());
    assert forall|k: int|
        #![trigger out[k]]
        #![trigger api_source(repo, s, k)]
        0 <= k && k < out.len() implies 0 <= api_source(repo, s, k) && api_source(repo, s, k)
            < s.len() && comes_from_api_entry(repo, s[api_source(repo, s, k)], pr_view(out[k])) by {
        assert(prs_view(out)[k] == pr_view(out[k]));
        assert(api_prs_kept(repo, s)[k] == pr_view(out[k]));
    }
}

/// The open pull requests of `repo` from the REST API's listing, in its order.
pub fn api_prs(repo: &RepoFullName, raw: &Vec<ApiPrRaw>) -> (r: Vec<Pr>)
    ensures
        prs_view(r@) == api_prs_kept(repo@, raw@),
        r@.len() <= raw@.len(),
        forall|k: int|
            #![trigger r@[k]]
            #![trigger api_source(repo@, raw@, k)]
            0 <= k && k < r@.len() ==> (0 <= api_source(repo@, raw@, k) && api_source(repo@, raw@, k)
                < raw@.len() && comes_from_api_entry(repo@, raw@[api_source(repo@, raw@, k)], pr_view(r@[k]))),
{
    let mut out: Vec<Pr> = Vec::new();
    let mut i: usize = 0;
    assert(prs_view(out@) =~= Seq::<PrView>::empty());
    while i < raw.len()
        invariant
            i <= raw@.len(),
            prs_view(out@) == api_prs_kept(repo@, raw@.take(i as int)),
        decreases raw@.len() - i,
    {
        assert(raw@.take(i as int + 1).drop_last() =~= raw@.take(i as int));
        assert(raw@.take(i as int + 1).last() == raw@[i as int]);
        let p = &raw[i];
        match BranchName::new(p.head_ref.as_str()) {
            Ok(branch) => {
                let state = match p.state {
                    RemoteState::Open => PrState::Open,
                    RemoteState::Closed => if p.merged {
                        PrState::Merged
                    } else {
                        PrState::Closed
                    },
                    RemoteState::Other => PrState::Open,
                };
                let pr = Pr {
                    repo: repo.clone(),
                    number: PrNumber(p.number),
                    title: p.title.clone(),
                    head_ref: branch,
                    author: p.author.clone(),
                    draft: match p.draft {
                        Some(d) => d,
                        None => false,
                    },
                    state,
                    url: p.url.clone(),
                };
                let ghost before = prs_view(out@);
                out.push(pr);
                assert(prs_view(out@) =~= before.push(pr_view(pr)));
            },
            Err(_) => {},
        }
        i = i + 1;
    }
    assert(raw@.take(raw@.len() as int) =~= raw@);
    proof {
        lemma_prs_sources(repo@, raw@, out@);
    }
    out
}

/// A stand-in for GitHub that serves fixed repositories and pull requests
/// (`--mock`).
pub struct MockGithub {
    pub repos: Vec<RepoSummary>,
    pub prs: Vec<Pr>,
}

/// The pull requests of `repo`, in order.
pub open spec fn prs_of(s: Seq<Pr>, repo: Seq<char>) -> Seq<Pr>
    decreases s.len(),
{
    if s.len() == 0 {
        Seq::empty()
    } else if s.last().repo@ == repo {
        prs_of(s.drop_last(), repo).push(s.last())
    } else {
        prs_of(s.drop_last(), repo)
    }
}

impl MockGithub {
    /// The first `limit` repositories.
    pub fn list_my_repos(&self, limit: usize) -> (r: Result<Vec<RepoSummary>, GithubError>)
        ensures
            r matches Ok(v) && v@ == self.repos@.take(
                if limit < self.repos@.len() { limit as int } else { self.repos@.len() as int },
            ),
    {
        let n = if limit < self.repos.len() {
            limit
        } else {
            self.repos.len()
        };
        let mut out: Vec<RepoSummary> = Vec::new();
        let mut i: usize = 0;
        while i < n
            invariant
                i <= n <= self.repos@.len(),
                out@ == self.repos@.take(i as int),
            decreases n - i,
        {
            out.push(self.repos[i].clone());
            assert(self.repos@.take(i as int + 1) =~= self.repos@.take(i as int).push(
                self.repos@[i as int],
            ));
            i = i + 1;
        }
        Ok(out)
    }

    /// The pull requests of the repository.
    pub fn list_open_prs(&self, repo: &RepoFullName) -> (r: Result<Vec<Pr>, GithubError>)
        ensures
            r matches Ok(v) && v@ == prs_of(self.prs@, repo@),
    {
        let mut out: Vec<Pr> = Vec::new();
        let mut i: usize = 0;
        while i < self.prs.len()
            invariant
                i <= self.prs@.len(),
                out@ == prs_of(self.prs@.take(i as int), repo@),
            decreases self.prs@.len() - i,
        {
            assert(self.prs@.take(i as int + 1).drop_last() =~= self.prs@.take(i as int));
            assert(self.prs@.take(i as int + 1).last() == self.prs@[i as int]);
            if str_eq(self.prs[i].repo.as_str(), repo.as_str()) {
                out.push(self.prs[i].clone());
            }
            i = i + 1;
        }
        assert(self.prs@.take(self.prs@.len() as int) =~= self.prs@);
        Ok(out)
    }

    /// Checking out always succeeds and changes nothing.
    pub fn checkout_pr(&self, worktree: &str, number: u64) -> (r: Result<(), GithubError>)
        ensures
            r is Ok,
    {
        Ok(())
    }
}

} // verus!
