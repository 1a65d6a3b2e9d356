//! The plan for a new work unit (worktree path, branch, session) and the
//! screen that confirms it.
use vstd::prelude::*;

use crate::app::{only_screen_changed, AppState};
use crate::config::Config;
use crate::domain::{Repo, Ticket};
use crate::ids::{
    id_error_message, is_project_key, repo_part, valid_branch_name, valid_session_name,
    valid_ticket_key, BranchName, IdError, SessionName,
};
use crate::msg::{Command, CreateWorkUnit, Key};
use crate::paths::{join_path, parent_of, path_join, path_parent};
use crate::screens::{ticket_detail, Screen};
use crate::slug::{is_slug_char, law_slug_shape, slug_spec, slugify, trim_dashes};
use crate::text::{
    chars_of, contains_char, extend_chars, extend_str, index_of, is_digit, is_upper, is_ws,
    lemma_index_of, no_ws, replace_all, replace_vec, string_of, whitespace,
};

verus! {

/// The state of the confirm screen: the ticket, and either the repository
/// and plan, or the reason there is none.
#[derive(Debug)]
pub struct State {
    pub ticket: Ticket,
    pub repo: Option<Repo>,
    pub plan: Option<Plan>,
    pub error: Option<String>,
}

/// Where the new worktree goes, on which branch, and which session it gets.
#[derive(Debug)]
pub struct Plan {
    pub repo_path: String,
    pub worktree_path: String,
    pub branch: BranchName,
    pub start_point: Option<BranchName>,
    pub session: SessionName,
}

impl Clone for Plan {
    fn clone(&self) -> (r: Self)
        ensures
            r == *self,
    {
        let start_point = match &self.start_point {
            Some(b) => Some(b.clone()),
            None => None,
        };
        Plan {
            repo_path: self.repo_path.clone(),
            worktree_path: self.worktree_path.clone(),
            branch: self.branch.clone(),
            start_point,
            session: self.session.clone(),
        }
    }
}

/// `<KEY>-<slug of summary>`, or just the key when the slug is empty.
pub open spec fn branch_text(key: Seq<char>, summary: Seq<char>) -> Seq<char> {
    let slug = slug_spec(summary);
    if slug.len() == 0 {
        key
    } else {
        key + seq!['-'] + slug
    }
}

/// The worktree directory's name: `<repo>-<KEY>`.
pub open spec fn leaf_text(repo_full_name: Seq<char>, key: Seq<char>) -> Seq<char> {
    repo_part(repo_full_name) + seq!['-'] + key
}

/// `.` and `:` become `-`, whitespace is dropped.
pub open spec fn sanitize_spec(s: Seq<char>) -> Seq<char>
    decreases s.len(),
{
    if s.len() == 0 {
        Seq::empty()
    } else {
        let p = sanitize_spec(s.drop_last());
        let c = s.last();
        if c == '.' || c == ':' {
            p.push('-')
        } else if is_ws(c) {
            p
        } else {
            p.push(c)
        }
    }
}

/// The session template with `{ticket}`, `{repo}` and `{slug}` filled in.
pub open spec fn filled_template(
    template: Seq<char>,
    key: Seq<char>,
    repo_full_name: Seq<char>,
    summary: Seq<char>,
) -> Seq<char> {
    replace_all(
        replace_all(replace_all(template, "{ticket}"@, key), "{repo}"@, repo_part(repo_full_name)),
        "{slug}"@,
        slug_spec(summary),
    )
}

/// The session name: the filled template, sanitized; or `<KEY>-<slug>` when
/// the template names a variable that is not known.
pub open spec fn session_text(
    template: Seq<char>,
    key: Seq<char>,
    repo_full_name: Seq<char>,
    summary: Seq<char>,
) -> Seq<char> {
    let out = filled_template(template, key, repo_full_name, summary);
    if out.contains('{') {
        key + seq!['-'] + trim_dashes(slug_spec(summary))
    } else {
        sanitize_spec(out)
    }
}

/// The branch name for a ticket: `<KEY>-<slug of summary>`, or just the key.
pub fn default_branch_name(ticket: &Ticket) -> (r: String)
    ensures
        r@ == branch_text(ticket.key@, ticket.summary@),
{
    let slug = slugify(ticket.summary.as_str());
    let mut v = chars_of(ticket.key.as_str());
    if slug.as_str().unicode_len() > 0 {
        v.push('-');
        extend_str(&mut v, slug.as_str());
    }
    string_of(&v)
}

pub fn sanitize_session(s: &str) -> (r: String)
    ensures
        r@ == sanitize_spec(s@),
{
    let v = chars_of(s);
    let mut out: Vec<char> = Vec::new();
    let mut i: usize = 0;
    while i < v.len()
        invariant
            i <= v.len(),
            v@ == s@,
            out@ == sanitize_spec(v@.take(i as int)),
        decreases v.len() - i,
    {
        let c = v[i];
        if c == '.' || c == ':' {
            out.push('-');
        } else if !whitespace(c) {
            out.push(c);
        }
        assert(v@.take(i as int + 1).drop_last() =~= v@.take(i as int));
        i = i + 1;
    }
    assert(v@.take(v.len() as int) =~= v@);
    string_of(&out)
}

fn trim_dash_vec(v: &mut Vec<char>)
    ensures
        final(v)@ == trim_dashes(old(v)@),
{
    while v.len() > 0 && v[v.len() - 1] == '-'
        invariant
            trim_dashes(v@) == trim_dashes(old(v)@),
        decreases v.len(),
    {
        let ghost before = v@;
        v.pop();
        assert(v@ =~= before.drop_last());
    }
}

fn render_session_name(template: &str, ticket: &Ticket, repo: &Repo) -> (r: String)
    ensures
        r@ == session_text(template@, ticket.key@, repo.full_name@, ticket.summary@),
{
    let summary_slug = slugify(ticket.summary.as_str());
    let t = chars_of(template);
    let out1 = replace_vec(&t, &chars_of("{ticket}"), &chars_of(ticket.key.as_str()));
    let out2 = replace_vec(&out1, &chars_of("{repo}"), &chars_of(repo.full_name.repo()));
    let out3 = replace_vec(&out2, &chars_of("{slug}"), &chars_of(summary_slug.as_str()));
    if contains_char(&out3, '{') {
        let mut v = chars_of(ticket.key.as_str());
        v.push('-');
        let mut s = chars_of(summary_slug.as_str());
        trim_dash_vec(&mut s);
        extend_chars(&mut v, &s);
        return string_of(&v);
    }
    let joined = string_of(&out3);
    sanitize_session(joined.as_str())
}

/// The plan once the worktree's path is known. Fails with the message of
/// an invalid session name (the branch name is always valid).
pub fn build_with_path(ticket: Ticket, repo: Repo, config: &Config, worktree_path: String) -> (r:
    Result<State, String>)
    ensures
        ({
            let b = branch_text(ticket.key@, ticket.summary@);
            let s = session_text(
                config.tmux.session_template@,
                ticket.key@,
                repo.full_name@,
                ticket.summary@,
            );
            if !valid_session_name(s) {
                r matches Err(m) && m@ == id_error_message(IdError::InvalidSessionName)
            } else {
                (r matches Ok(st) && st.ticket == ticket && st.repo == Some(repo) && st.error is None
                    && (st.plan matches Some(p) && p.repo_path == repo.local_path && p.worktree_path
                    == worktree_path && p.branch@ == b && p.start_point == Some(repo.default_branch)
                    && p.session@ == s))
            }
        }),
{
    proof {
        use_type_invariant(&ticket.key);
        law_planned_branch_valid(ticket.key@, ticket.summary@);
    }
    let branch_str = default_branch_name(&ticket);
    let branch = match BranchName::new(branch_str.as_str()) {
        Ok(b) => b,
        Err(e) => {
            return Err(e.message());
        },
    };
    let session_str = render_session_name(config.tmux.session_template.as_str(), &ticket, &repo);
    let session = match SessionName::new(session_str.as_str()) {
        Ok(s) => s,
        Err(e) => {
            return Err(e.message());
        },
    };
    let repo_copy = repo.clone();
    Ok(
        State {
            ticket,
            repo: Some(repo_copy),
            plan: Some(
                Plan {
                    repo_path: repo.local_path,
                    worktree_path,
                    branch,
                    start_point: Some(repo.default_branch),
                    session,
                },
            ),
            error: None,
        },
    )
}

/// The confirm screen opened for `ticket` in `repo`: the plan that `build`
/// makes, or, when it cannot make one, the screen showing why.
pub open spec fn confirm_for(c: State, ticket: Ticket, repo: Repo, config: Config) -> bool {
    let b = branch_text(ticket.key@, ticket.summary@);
    let refused = |m: Seq<char>|
        c.ticket == ticket && c.repo is None && c.plan is None && (c.error matches Some(e) && e@
            == m);
    match path_parent(repo.local_path@) {
        None => refused("repo has no parent directory"@),
        Some(parent) => {
            let wt = path_join(parent, leaf_text(repo.full_name@, ticket.key@));
            let s = session_text(
                config.tmux.session_template@,
                ticket.key@,
                repo.full_name@,
                ticket.summary@,
            );
            if !valid_session_name(s) {
                refused(id_error_message(IdError::InvalidSessionName))
            } else {
                c.ticket == ticket && c.repo == Some(repo) && c.error is None && (c.plan matches Some(
                    p,
                ) && p.repo_path == repo.local_path && p.worktree_path@ == wt && p.branch@ == b
                    && p.start_point == Some(repo.default_branch) && p.session@ == s)
            }
        },
    }
}

impl State {
    /// The plan for `ticket` in `repo`: the worktree goes next to the main
    /// clone as `<repo>-<KEY>`, on the branch `<KEY>-<slug>` (always a valid
    /// name). Fails when the main clone's path has no parent, or the session
    /// name made from the template is not valid.
    pub fn build(ticket: Ticket, repo: Repo, config: &Config) -> (r: Result<State, String>)
        ensures
            match path_parent(repo.local_path@) {
                None => r matches Err(m) && m@ == "repo has no parent directory"@,
                Some(parent) => {
                    let b = branch_text(ticket.key@, ticket.summary@);
                    let wt = path_join(parent, leaf_text(repo.full_name@, ticket.key@));
                    let s = session_text(
                        config.tmux.session_template@,
                        ticket.key@,
                        repo.full_name@,
                        ticket.summary@,
                    );
                    if !valid_session_name(s) {
                        r matches Err(m) && m@ == id_error_message(IdError::InvalidSessionName)
                    } else {
                        (r matches Ok(st) && st.ticket == ticket && st.repo == Some(repo)
                            && st.error is None && (st.plan matches Some(p) && p.repo_path
                            == repo.local_path && p.worktree_path@ == wt && p.branch@ == b
                            && p.start_point == Some(repo.default_branch) && p.session@ == s))
                    }
                },
            },
    {
        proof {
            use_type_invariant(&ticket.key);
            law_planned_branch_valid(ticket.key@, ticket.summary@);
        }
        let branch_str = default_branch_name(&ticket);
        match BranchName::new(branch_str.as_str()) {
            Ok(_) => {},
            Err(e) => {
                return Err(e.message());
            },
        }
        let parent = match parent_of(repo.local_path.as_str()) {
            Some(p) => p,
            None => {
                return Err("repo has no parent directory".to_owned());
            },
        };
        let mut leaf = chars_of(repo.full_name.repo());
        leaf.push('-');
        extend_str(&mut leaf, ticket.key.as_str());
        assert(leaf@ =~= leaf_text(repo.full_name@, ticket.key@));
        let leaf_s = string_of(&leaf);
        let worktree_path = join_path(parent.as_str(), leaf_s.as_str());
        build_with_path(ticket, repo, config, worktree_path)
    }

    /// The confirm screen for a ticket whose plan could not be made.
    pub fn failed(ticket: Ticket, err: String) -> (r: State)
        ensures
            r.ticket == ticket,
            r.repo is None,
            r.plan is None,
            r.error == Some(err),
    {
        State { ticket, repo: None, plan: None, error: Some(err) }
    }
}

/// How the screen reacts to `key`: `s0`/`a0` before, `s1`/`a1` after, `r`
/// what it asks the event loop for.
pub open spec fn handled(key: Key, s0: State, a0: AppState, s1: State, a1: AppState, r: Option<Command>) -> bool {
    &&& s1 == s0
    &&& key == Key::Enter ==> match (s0.plan, s0.repo) {
            (Some(p), Some(repo)) => {
                &&& a1.screen matches Screen::Worktrees(w) && w
                    == crate::screens::worktrees::initial_state()
                &&& only_screen_changed(a0, a1)
                &&& r matches Some(Command::CreateWorkUnit(c)) && c.ticket == Some(
                    s0.ticket.key,
                ) && c.repo == repo.full_name && c.repo_path == p.repo_path && c.worktree_path
                    == p.worktree_path && c.branch == p.branch && c.start_point == p.start_point
                    && c.session == p.session
            },
            _ => a1 == a0 && r is None,
        }
    &&& key == Key::Esc ==> {
            &&& a1.screen matches Screen::TicketDetail(d) && d.ticket == s0.ticket
                && d.selected_repo == 0
            &&& only_screen_changed(a0, a1)
            &&& r is None
        }
    &&& !(key == Key::Enter || key == Key::Esc) ==> a1 == a0 && r is None
}

/// `Enter` asks for the planned work unit and moves to the worktree list;
/// `Esc` goes back to the ticket.
pub fn handle(key: Key, state: &mut State, app: &mut AppState) -> (r: Option<Command>)
    ensures
        handled(key, *old(state), *old(app), *final(state), *final(app), r),
{
    match key {
        Key::Enter => {
            match (&state.plan, &state.repo) {
                (Some(plan), Some(repo)) => {
                    let plan = plan.clone();
                    let name = repo.full_name.clone();
                    app.screen = Screen::Worktrees(crate::screens::worktrees::State::default());
                    Some(
                        Command::CreateWorkUnit(
                            CreateWorkUnit {
                                ticket: Some(state.ticket.key.clone()),
                                repo: name,
                                repo_path: plan.repo_path,
                                worktree_path: plan.worktree_path,
                                branch: plan.branch,
                                start_point: plan.start_point,
                                session: plan.session,
                            },
                        ),
                    )
                },
                _ => None,
            }
        },
        Key::Esc => {
            app.screen = Screen::TicketDetail(
                Box::new(ticket_detail::State::new(state.ticket.clone())),
            );
            None
        },
        _ => None,
    }
}

// ---------------------------------------------------------------------
// Laws
// ---------------------------------------------------------------------

proof fn lemma_ticket_key_chars(k: Seq<char>)
    requires
        valid_ticket_key(k),
    ensures
        k.len() > 0,
        is_upper(k[0]),
        is_digit(k.last()),
        forall|i: int| 0 <= i < k.len() ==> is_upper(#[trigger] k[i]) || is_digit(k[i]) || k[i]
            == '-',
{
    lemma_index_of(k, '-');
    let d = index_of(k, '-') as int;
    let proj = k.take(d);
    let num = k.skip(d + 1);
    assert(is_project_key(proj));
    assert(proj[0] == k[0]);
    assert(k.last() == num[num.len() - 1]);
    assert forall|i: int| 0 <= i < k.len() implies is_upper(#[trigger] k[i]) || is_digit(k[i])
        || k[i] == '-' by {
        if i < d {
            assert(k[i] == proj[i]);
        } else if i > d {
            assert(k[i] == num[i - d - 1]);
        }
    }
}

/// The branch planned for a ticket is always a valid branch name: ticket
/// keys and slugs only hold letters, digits and dashes.
pub proof fn law_planned_branch_valid(key: Seq<char>, summary: Seq<char>)
    requires
        valid_ticket_key(key),
    ensures
        valid_branch_name(branch_text(key, summary)),
{
    lemma_ticket_key_chars(key);
    law_slug_shape(summary);
    let slug = slug_spec(summary);
    let b = branch_text(key, summary);
    assert forall|i: int| 0 <= i < b.len() implies is_upper(#[trigger] b[i]) || is_digit(b[i])
        || is_slug_char(b[i]) by {
        if i < key.len() {
            assert(b[i] == key[i]);
        } else if i > key.len() {
            assert(b[i] == slug[i - key.len() - 1]);
        }
    }
    assert(b[0] == key[0]);
    if slug.len() > 0 {
        assert(b.last() == slug.last());
    }
    assert(!b.contains(' ') && !b.contains('~') && !b.contains('^') && !b.contains(':')
        && !b.contains('?') && !b.contains('*') && !b.contains('[')) by {
        if b.contains(' ') || b.contains('~') || b.contains('^') || b.contains(':') || b.contains(
            '?',
        ) || b.contains('*') || b.contains('[') {
            let j = choose|j: int|
                0 <= j < b.len() && (b[j] == ' ' || b[j] == '~' || b[j] == '^' || b[j] == ':'
                    || b[j] == '?' || b[j] == '*' || b[j] == '[');
            assert(is_upper(b[j]) || is_digit(b[j]) || is_slug_char(b[j]));
        }
    }
    assert(!crate::text::has_double_dot(b)) by {
        if crate::text::has_double_dot(b) {
            let j = choose|j: int| 0 <= j && j + 1 < b.len() && #[trigger] b[j] == '.' && b[j + 1]
                == '.';
            assert(is_upper(b[j]) || is_digit(b[j]) || is_slug_char(b[j]));
        }
    }
}

proof fn lemma_sanitize_clean(s: Seq<char>)
    ensures
        !sanitize_spec(s).contains('.'),
        !sanitize_spec(s).contains(':'),
        no_ws(sanitize_spec(s)),
    decreases s.len(),
{
    if s.len() > 0 {
        lemma_sanitize_clean(s.drop_last());
        let p = sanitize_spec(s.drop_last());
        let r = sanitize_spec(s);
        assert forall|i: int| 0 <= i < r.len() implies r[i] != '.' && r[i] != ':' && !is_ws(
            #[trigger] r[i],
        ) by {
            if i < p.len() {
                assert(r[i] == p[i]);
                assert(p[i] != '.' && p[i] != ':');
            }
        }
    }
}

/// A session name from the template is refused only when it comes out
/// empty: sanitizing removes every `.`, `:` and whitespace, and the fallback
/// for unknown template variables is always a valid name.
pub proof fn law_planned_session_valid(
    template: Seq<char>,
    key: Seq<char>,
    repo_full_name: Seq<char>,
    summary: Seq<char>,
)
    requires
        valid_ticket_key(key),
    ensures
        valid_session_name(session_text(template, key, repo_full_name, summary)) <==> session_text(
            template,
            key,
            repo_full_name,
            summary,
        ).len() > 0,
{
    let out = filled_template(template, key, repo_full_name, summary);
    if out.contains('{') {
        lemma_ticket_key_chars(key);
        law_slug_shape(summary);
        let t = trim_dashes(slug_spec(summary));
        crate::slug::lemma_trim_dashes(slug_spec(summary));
        let s = key + seq!['-'] + t;
        assert forall|i: int| 0 <= i < s.len() implies is_upper(#[trigger] s[i]) || is_digit(s[i])
            || is_slug_char(s[i]) by {
            if i < key.len() {
                assert(s[i] == key[i]);
            } else if i > key.len() {
                assert(s[i] == t[i - key.len() - 1]);
            }
        }
        assert(!s.contains('.') && !s.contains(':') && no_ws(s)) by {
            if s.contains('.') || s.contains(':') {
                let j = choose|j: int| 0 <= j < s.len() && (s[j] == '.' || s[j] == ':');
                assert(is_upper(s[j]) || is_digit(s[j]) || is_slug_char(s[j]));
            }
            assert forall|i: int| 0 <= i < s.len() implies !is_ws(#[trigger] s[i]) by {
                assert(is_upper(s[i]) || is_digit(s[i]) || is_slug_char(s[i]));
            }
        }
    } else {
        lemma_sanitize_clean(out);
    }
}

proof fn lemma_replace_absent(s: Seq<char>, pat: Seq<char>, rep: Seq<char>)
    requires
        pat.len() > 0,
        forall|i: int| 0 <= i < s.len() ==> s[i] != pat[0],
    ensures
        replace_all(s, pat, rep) == s,
    decreases s.len(),
{
    if s.len() > 0 {
        assert(!crate::text::starts_with(s, pat)) by {
            if crate::text::starts_with(s, pat) {
                assert(s.take(pat.len() as int)[0] == s[0]);
            }
        }
        lemma_replace_absent(s.drop_first(), pat, rep);
        assert(seq![s[0]] + s.drop_first() =~= s);
    }
}

proof fn lemma_sanitize_identity(s: Seq<char>)
    requires
        forall|i: int| 0 <= i < s.len() ==> s[i] != '.' && s[i] != ':' && !is_ws(#[trigger] s[i]),
    ensures
        sanitize_spec(s) == s,
    decreases s.len(),
{
    if s.len() > 0 {
        lemma_sanitize_identity(s.drop_last());
        assert(s.drop_last().push(s.last()) =~= s);
    }
}

/// With the default template `{ticket}`, the session is named after the
/// ticket key.
pub proof fn law_default_session_is_ticket_key(key: Seq<char>, repo_full_name: Seq<char>, summary: Seq<char>)
    requires
        valid_ticket_key(key),
    ensures
        session_text("{ticket}"@, key, repo_full_name, summary) == key,
{
    reveal_strlit("{ticket}");
    reveal_strlit("{repo}");
    reveal_strlit("{slug}");
    lemma_ticket_key_chars(key);
    let t = "{ticket}"@;
    assert(crate::text::starts_with(t, t)) by {
        assert(t.take(t.len() as int) =~= t);
    }
    assert(t.skip(t.len() as int) =~= Seq::<char>::empty());
    assert(replace_all(t.skip(t.len() as int), t, key) == Seq::<char>::empty());
    assert(replace_all(t, t, key) =~= key);
    assert forall|i: int| 0 <= i < key.len() implies key[i] != '{' by {
        assert(is_upper(key[i]) || is_digit(key[i]) || key[i] == '-');
    }
    lemma_replace_absent(key, "{repo}"@, repo_part(repo_full_name));
    lemma_replace_absent(key, "{slug}"@, slug_spec(summary));
    assert(filled_template(t, key, repo_full_name, summary) == key);
    assert(!key.contains('{'));
    assert forall|i: int| 0 <= i < key.len() implies key[i] != '.' && key[i] != ':' && !is_ws(
        #[trigger] key[i],
    ) by {
        assert(is_upper(key[i]) || is_digit(key[i]) || key[i] == '-');
    }
    lemma_sanitize_identity(key);
}

} // verus!
