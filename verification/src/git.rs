//! What `flow` reads from and hands to git: the porcelain worktree listing,
//! the remote default branch, worktree status counts, and the argument lists
//! of the git commands it runs.
use vstd::prelude::*;

use crate::domain::{clean_status, Worktree, WorktreeStatus};
use crate::ids::{valid_branch_name, BranchName, RepoFullName};
use crate::text::{
    chars_of, decimal, decimal_chars, extend_chars, extend_str, lines, parse_u32, parse_u32_spec,
    seq_eq, slice_vec, split_at_char, split_char, split_lines, split_words, string_of,
    strip_prefix, trim, trim_vec, vec_starts_with, views, words, is_ws, law_trim_nonempty,
};

verus! {

/// Failures of the git commands.
#[derive(Debug)]
pub enum GitError {
    Command { cmd: String, stderr: String },
    PathExists(String),
    BranchExists(String),
    Parse,
    Io(String),
}

/// Scanner state over the porcelain listing: entries found so far (path,
/// branch), the pending `worktree` path, the pending `branch` ref, and whether
/// the pending entry is detached.
pub type WtState = (Seq<(Seq<char>, Seq<char>)>, Option<Seq<char>>, Option<Seq<char>>, bool);

/// A branch ref without its `refs/heads/` prefix.
pub open spec fn heads_stripped(b: Seq<char>) -> Seq<char> {
    match strip_prefix(b, "refs/heads/"@) {
        Some(r) => r,
        None => b,
    }
}

/// Record an entry when its branch is a valid branch name.
pub open spec fn emit(
    out: Seq<(Seq<char>, Seq<char>)>,
    path: Seq<char>,
    branch: Seq<char>,
) -> Seq<(Seq<char>, Seq<char>)> {
    if valid_branch_name(branch) {
        out.push((path, branch))
    } else {
        out
    }
}

/// One line of `git worktree list --porcelain`. A blank line closes the
/// pending entry: it is recorded with its branch, or as `(detached)` when it
/// was detached, or dropped otherwise.
pub open spec fn wt_step(st: WtState, line: Seq<char>) -> WtState {
    let (out, path, branch, detached) = st;
    if line.len() == 0 {
        match path {
            None => st,
            Some(p) => match branch {
                Some(b) => (emit(out, p, heads_stripped(b)), None, None, false),
                None => if detached {
                    (emit(out, p, "(detached)"@), None, None, false)
                } else {
                    (out, None, None, detached)
                },
            },
        }
    } else if strip_prefix(line, "worktree "@) is Some {
        (out, strip_prefix(line, "worktree "@), branch, detached)
    } else if strip_prefix(line, "branch "@) is Some {
        (out, path, strip_prefix(line, "branch "@), detached)
    } else if line == "detached"@ {
        (out, path, branch, true)
    } else {
        st
    }
}

pub open spec fn wt_scan(ls: Seq<Seq<char>>) -> WtState
    decreases ls.len(),
{
    if ls.len() == 0 {
        (Seq::empty(), None, None, false)
    } else {
        wt_step(wt_scan(ls.drop_last()), ls.last())
    }
}

/// After the last line, an entry still pending with a branch is recorded.
pub open spec fn wt_finish(st: WtState) -> Seq<(Seq<char>, Seq<char>)> {
    let (out, path, branch, _) = st;
    match (path, branch) {
        (Some(p), Some(b)) => emit(out, p, heads_stripped(b)),
        _ => out,
    }
}

/// The (path, branch) pairs that the porcelain listing `raw` describes.
pub open spec fn worktree_entries(raw: Seq<char>) -> Seq<(Seq<char>, Seq<char>)> {
    wt_finish(wt_scan(lines(raw)))
}

/// What the porcelain listing says of a worktree: its path and branch. The
/// other fields of a listed worktree are fixed by `listed_fresh`.
pub open spec fn entry_of(w: Worktree) -> (Seq<char>, Seq<char>) {
    (w.path@, w.branch@)
}

pub open spec fn entries_of(ws: Seq<Worktree>) -> Seq<(Seq<char>, Seq<char>)> {
    ws.map_values(|w: Worktree| entry_of(w))
}

/// A freshly listed worktree: of `repo`, with no ticket, no session and a
/// clean status.
pub open spec fn listed_fresh(w: Worktree, repo: RepoFullName) -> bool {
    &&& w.repo == repo
    &&& w.ticket is None
    &&& w.session is None
    &&& w.status == clean_status()
}

pub open spec fn opt_view(o: Option<Vec<char>>) -> Option<Seq<char>> {
    match o {
        Some(v) => Some(v@),
        None => None,
    }
}

fn strip_vec(v: &Vec<char>, prefix: &str) -> (r: Option<Vec<char>>)
    ensures
        opt_view(r) == strip_prefix(v@, prefix@),
{
    let p = chars_of(prefix);
    if vec_starts_with(v, &p) {
        let r = slice_vec(v, p.len(), v.len());
        assert(r@ =~= v@.skip(p@.len() as int));
        Some(r)
    } else {
        None
    }
}

fn strip_heads(b: &Vec<char>) -> (r: Vec<char>)
    ensures
        r@ == heads_stripped(b@),
{
    match strip_vec(b, "refs/heads/") {
        Some(r) => r,
        None => {
            let mut c: Vec<char> = Vec::new();
            crate::text::extend_chars(&mut c, b);
            c
        },
    }
}

fn push_entry(
    out: &mut Vec<Worktree>,
    repo: &RepoFullName,
    path: &Vec<char>,
    branch: &Vec<char>,
)
    requires
        forall|i: int| 0 <= i < old(out)@.len() ==> listed_fresh(#[trigger] old(out)@[i], *repo),
    ensures
        entries_of(final(out)@) == emit(entries_of(old(out)@), path@, branch@),
        forall|i: int| 0 <= i < final(out)@.len() ==> listed_fresh(#[trigger] final(out)@[i], *repo),
{
    let b = string_of(branch);
    match BranchName::new(b.as_str()) {
        Ok(branch_name) => {
            let ghost before = out@;
            out.push(
                Worktree {
                    repo: repo.clone(),
                    path: string_of(path),
                    branch: branch_name,
                    ticket: None,
                    status: WorktreeStatus::default(),
                    session: None,
                },
            );
            assert(entries_of(out@) =~= entries_of(before).push((path@, branch@)));
        },
        Err(_) => {},
    }
}

/// Parse `git worktree list --porcelain` output into the worktrees of `repo`.
pub fn parse_worktree_list(raw: &str, repo: &RepoFullName) -> (r: Result<Vec<Worktree>, GitError>)
    ensures
        r matches Ok(ws) && entries_of(ws@) == worktree_entries(raw@) && forall|i: int|
            0 <= i < ws@.len() ==> listed_fresh(#[trigger] ws@[i], *repo),
{
    let v = chars_of(raw);
    let ls = split_lines(&v);
    let mut out: Vec<Worktree> = Vec::new();
    let mut path: Option<Vec<char>> = None;
    let mut branch: Option<Vec<char>> = None;
    let mut detached = false;
    let mut k: usize = 0;
    assert(entries_of(out@) =~= Seq::<(Seq<char>, Seq<char>)>::empty());
    while k < ls.len()
        invariant
            k <= ls.len(),
            views(ls@) == lines(raw@),
            v@ == raw@,
            wt_scan(views(ls@).take(k as int)) == (entries_of(out@), opt_view(path), opt_view(
                branch,
            ), detached),
            forall|i: int| 0 <= i < out@.len() ==> listed_fresh(#[trigger] out@[i], *repo),
        decreases ls.len() - k,
    {
        let line = &ls[k];
        assert(views(ls@)[k as int] == line@);
        assert(views(ls@).take(k as int + 1).drop_last() =~= views(ls@).take(k as int));
        assert(views(ls@).take(k as int + 1).last() == line@);
        if line.len() == 0 {
            if path.is_some() {
                let closes = branch.is_some() || detached;
                match (&path, &branch) {
                    (Some(p), Some(b)) => {
                        let br = strip_heads(b);
                        push_entry(&mut out, repo, p, &br);
                    },
                    (Some(p), None) => {
                        if detached {
                            let d = chars_of("(detached)");
                            push_entry(&mut out, repo, p, &d);
                        }
                    },
                    _ => {},
                }
                if closes {
                    detached = false;
                }
                path = None;
                branch = None;
            }
        } else {
            let wt = strip_vec(line, "worktree ");
            if wt.is_some() {
                path = wt;
            } else {
                let br = strip_vec(line, "branch ");
                if br.is_some() {
                    branch = br;
                } else if seq_eq(line, &chars_of("detached")) {
                    detached = true;
                }
            }
        }
        k = k + 1;
    }
    assert(views(ls@).take(ls.len() as int) =~= views(ls@));
    match (path, branch) {
        (Some(p), Some(b)) => {
            let br = strip_heads(&b);
            push_entry(&mut out, repo, &p, &br);
        },
        _ => {},
    }
    Ok(out)
}

} // verus!

verus! {

pub open spec fn string_views(v: Seq<String>) -> Seq<Seq<char>> {
    v.map_values(|s: String| s@)
}

/// The arguments of `git worktree add`: check out an existing branch into
/// the new worktree, or create the branch there, from `start_point` when
/// given.
pub fn worktree_add_args(
    path: &str,
    branch: &BranchName,
    start_point: Option<&BranchName>,
    branch_exists: bool,
) -> (r: Vec<String>)
    ensures
        string_views(r@) == if branch_exists {
            seq!["worktree"@, "add"@, path@, branch@]
        } else {
            seq!["worktree"@, "add"@, "-b"@, branch@, path@] + match start_point {
                Some(s) => seq![s@],
                None => Seq::<Seq<char>>::empty(),
            }
        },
{
    let mut args: Vec<String> = Vec::new();
    args.push("worktree".to_owned());
    args.push("add".to_owned());
    if branch_exists {
        args.push(path.to_owned());
        args.push(branch.as_str().to_owned());
    } else {
        args.push("-b".to_owned());
        args.push(branch.as_str().to_owned());
        args.push(path.to_owned());
        match start_point {
            Some(sp) => args.push(sp.as_str().to_owned()),
            None => {},
        }
    }
    proof {
        let expected = if branch_exists {
            seq!["worktree"@, "add"@, path@, branch@]
        } else {
            seq!["worktree"@, "add"@, "-b"@, branch@, path@] + match start_point {
                Some(s) => seq![s@],
                None => Seq::<Seq<char>>::empty(),
            }
        };
        assert(string_views(args@) =~= expected);
    }
    args
}

/// The arguments of `git worktree remove`.
pub fn worktree_remove_args(path: &str, force: bool) -> (r: Vec<String>)
    ensures
        string_views(r@) == if force {
            seq!["worktree"@, "remove"@, "--force"@, path@]
        } else {
            seq!["worktree"@, "remove"@, path@]
        },
{
    let mut args: Vec<String> = Vec::new();
    args.push("worktree".to_owned());
    args.push("remove".to_owned());
    if force {
        args.push("--force".to_owned());
    }
    args.push(path.to_owned());
    proof {
        let expected = if force {
            seq!["worktree"@, "remove"@, "--force"@, path@]
        } else {
            seq!["worktree"@, "remove"@, path@]
        };
        assert(string_views(args@) =~= expected);
    }
    args
}

/// The arguments of `git branch -d` (only if merged) or `-D` (forced).
pub fn branch_delete_args(branch: &BranchName, force: bool) -> (r: Vec<String>)
    ensures
        string_views(r@) == seq!["branch"@, if force {
            "-D"@
        } else {
            "-d"@
        }, branch@],
{
    let mut args: Vec<String> = Vec::new();
    args.push("branch".to_owned());
    args.push(if force {
        "-D".to_owned()
    } else {
        "-d".to_owned()
    });
    args.push(branch.as_str().to_owned());
    assert(string_views(args@) =~= seq!["branch"@, if force {
        "-D"@
    } else {
        "-d"@
    }, branch@]);
    args
}

/// The remote's default branch from the output of
/// `git symbolic-ref --short refs/remotes/origin/HEAD`: the part after the
/// last `/` of the trimmed output, or `main` when the command failed.
pub open spec fn default_branch_text(out: Option<Seq<char>>) -> Seq<char> {
    match out {
        Some(s) => split_char(trim(s), '/').last(),
        None => "main"@,
    }
}

pub fn parse_default_branch(out: Option<&str>) -> (r: Result<BranchName, GitError>)
    ensures
        match out {
            Some(s) => valid_branch_name(default_branch_text(Some(s@))),
            None => valid_branch_name(default_branch_text(None)),
        } ==> (r matches Ok(b) && b@ == default_branch_text(
            match out {
                Some(s) => Some(s@),
                None => None,
            },
        )),
        !(match out {
            Some(s) => valid_branch_name(default_branch_text(Some(s@))),
            None => valid_branch_name(default_branch_text(None)),
        }) ==> (r matches Err(e) && e is Parse),
{
    let name: String = match out {
        Some(s) => {
            let t = trim_vec(&chars_of(s));
            let parts = split_at_char(&t, '/');
            assert(views(parts@).len() > 0) by {
                crate::text::lemma_split_nonempty(t@, '/');
            }
            assert(views(parts@).last() == parts@[parts@.len() - 1]@);
            string_of(&parts[parts.len() - 1])
        },
        None => "main".to_owned(),
    };
    match BranchName::new(name.as_str()) {
        Ok(b) => Ok(b),
        Err(_) => Err(GitError::Parse),
    }
}

/// The status of a worktree from `git status --porcelain` and, when it has
/// an upstream, `git rev-list --left-right --count @{upstream}...HEAD`
/// (behind, then ahead; a missing or unreadable count is 0).
pub open spec fn status_spec(porcelain: Seq<char>, counts: Option<Seq<char>>) -> WorktreeStatus {
    let dirty = trim(porcelain).len() > 0;
    match counts {
        Some(c) => {
            let w = words(c);
            WorktreeStatus {
                dirty,
                ahead: if w.len() > 1 {
                    match parse_u32_spec(w[1]) {
                        Some(n) => n,
                        None => 0,
                    }
                } else {
                    0
                },
                behind: if w.len() > 0 {
                    match parse_u32_spec(w[0]) {
                        Some(n) => n,
                        None => 0,
                    }
                } else {
                    0
                },
                has_upstream: true,
            }
        },
        None => WorktreeStatus { dirty, ahead: 0, behind: 0, has_upstream: false },
    }
}

/// A worktree is dirty exactly when `git status --porcelain` printed
/// something other than whitespace: any modified, added, deleted, renamed
/// or untracked entry makes it dirty.
pub proof fn law_dirty_when_listed(porcelain: Seq<char>, counts: Option<Seq<char>>)
    ensures
        status_spec(porcelain, counts).dirty == (exists|i: int|
            0 <= i < porcelain.len() && !is_ws(#[trigger] porcelain[i])),
        counts is None ==> !status_spec(porcelain, counts).has_upstream && status_spec(
            porcelain,
            counts,
        ).ahead == 0 && status_spec(porcelain, counts).behind == 0,
{
    law_trim_nonempty(porcelain);
}

pub fn parse_status(porcelain: &str, counts: Option<&str>) -> (r: WorktreeStatus)
    ensures
        r.dirty == (exists|i: int| 0 <= i < porcelain@.len() && !is_ws(#[trigger] porcelain@[i])),
        r == status_spec(
            porcelain@,
            match counts {
                Some(c) => Some(c@),
                None => None,
            },
        ),
{
    proof {
        law_dirty_when_listed(
            porcelain@,
            match counts {
                Some(c) => Some(c@),
                None => None,
            },
        );
    }
    let dirty = trim_vec(&chars_of(porcelain)).len() > 0;
    match counts {
        Some(c) => {
            let w = split_words(&chars_of(c));
            let behind: u32 = if w.len() > 0 {
                assert(views(w@)[0] == w@[0]@);
                match parse_u32(&w[0]) {
                    Some(n) => n,
                    None => 0,
                }
            } else {
                0
            };
            let ahead: u32 = if w.len() > 1 {
                assert(views(w@)[1] == w@[1]@);
                match parse_u32(&w[1]) {
                    Some(n) => n,
                    None => 0,
                }
            } else {
                0
            };
            WorktreeStatus { dirty, ahead, behind, has_upstream: true }
        },
        None => WorktreeStatus { dirty, ahead: 0, behind: 0, has_upstream: false },
    }
}

/// Each argument preceded by a space.
pub open spec fn spaced(args: Seq<Seq<char>>) -> Seq<char>
    decreases args.len(),
{
    if args.len() == 0 {
        Seq::empty()
    } else {
        spaced(args.drop_last()) + " "@ + args.last()
    }
}

/// The error of a failing git command: the command line (`git` and its
/// arguments, space-separated) with its error output.
pub fn git_failure(args: &Vec<String>, stderr: String) -> (r: GitError)
    ensures
        r matches GitError::Command { cmd, stderr: e } && cmd@ == "git"@ + spaced(string_views(args@))
            && e == stderr,
{
    let mut cmd = chars_of("git");
    let mut i: usize = 0;
    while i < args.len()
        invariant
            i <= args@.len(),
            cmd@ == "git"@ + spaced(string_views(args@.take(i as int))),
        decreases args@.len() - i,
    {
        cmd.push(' ');
        extend_str(&mut cmd, args[i].as_str());
        assert(string_views(args@.take(i as int + 1)).drop_last() =~= string_views(
            args@.take(i as int),
        ));
        assert(string_views(args@.take(i as int + 1)).last() == args@[i as int]@);
        proof {
            reveal_strlit(" ");
        }
        assert(cmd@ =~= "git"@ + spaced(string_views(args@.take(i as int + 1))));
        i = i + 1;
    }
    assert(args@.take(args@.len() as int) =~= args@);
    GitError::Command { cmd: string_of(&cmd), stderr }
}

/// The arguments of `git fetch origin pull/<n>/head`, which brings a pull
/// request's head into `FETCH_HEAD`, for same-repository and fork pull
/// requests alike.
pub fn fetch_pr_head_args(pr_number: u64) -> (r: Vec<String>)
    ensures
        string_views(r@) == seq!["fetch"@, "origin"@, "pull/"@ + decimal(pr_number as nat) + "/head"@],
{
    let mut refspec = chars_of("pull/");
    extend_chars(&mut refspec, &decimal_chars(pr_number));
    extend_str(&mut refspec, "/head");
    let mut args: Vec<String> = Vec::new();
    args.push("fetch".to_owned());
    args.push("origin".to_owned());
    args.push(string_of(&refspec));
    assert(string_views(args@) =~= seq![
        "fetch"@,
        "origin"@,
        "pull/"@ + decimal(pr_number as nat) + "/head"@,
    ]);
    args
}

} // verus!
