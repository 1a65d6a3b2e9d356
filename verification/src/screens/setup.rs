//! The first-run setup form.
use vstd::prelude::*;

use crate::app::AppState;
use crate::config::Config;
use crate::msg::{Command, Key, SetupSubmission};
use crate::text::{pop_char, push_char};

verus! {

/// The fields of the form, in tab order.
#[derive(Debug, Clone, Copy, PartialEq, Eq, Structural)]
pub enum Field {
    CodeRoot,
    JiraHost,
    JiraEmail,
    JiraToken,
    GhToken,
    Submit,
}

pub open spec fn field_next(f: Field) -> Field {
    match f {
        Field::CodeRoot => Field::JiraHost,
        Field::JiraHost => Field::JiraEmail,
        Field::JiraEmail => Field::JiraToken,
        Field::JiraToken => Field::GhToken,
        Field::GhToken => Field::Submit,
        Field::Submit => Field::Submit,
    }
}

pub open spec fn field_prev(f: Field) -> Field {
    match f {
        Field::CodeRoot => Field::CodeRoot,
        Field::JiraHost => Field::CodeRoot,
        Field::JiraEmail => Field::JiraHost,
        Field::JiraToken => Field::JiraEmail,
        Field::GhToken => Field::JiraToken,
        Field::Submit => Field::GhToken,
    }
}

impl Field {
    /// The next field; the submit button stays put.
    pub fn next(self) -> (r: Field)
        ensures
            r == field_next(self),
    {
        match self {
            Field::CodeRoot => Field::JiraHost,
            Field::JiraHost => Field::JiraEmail,
            Field::JiraEmail => Field::JiraToken,
            Field::JiraToken => Field::GhToken,
            Field::GhToken => Field::Submit,
            Field::Submit => Field::Submit,
        }
    }

    /// The previous field; the first field stays put.
    pub fn prev(self) -> (r: Field)
        ensures
            r == field_prev(self),
    {
        match self {
            Field::CodeRoot => Field::CodeRoot,
            Field::JiraHost => Field::CodeRoot,
            Field::JiraEmail => Field::JiraHost,
            Field::JiraToken => Field::JiraEmail,
            Field::GhToken => Field::JiraToken,
            Field::Submit => Field::GhToken,
        }
    }
}

/// Moving forward then back returns to the field, except from the submit
/// button; moving back then forward returns to it, except from the first
/// field.
pub proof fn law_field_next_prev(f: Field)
    ensures
        f != Field::Submit ==> field_prev(field_next(f)) == f,
        f != Field::CodeRoot ==> field_next(field_prev(f)) == f,
{
}

/// The form's contents.
#[derive(Debug)]
pub struct State {
    pub field: Field,
    pub code_root: String,
    pub jira_host: String,
    pub jira_email: String,
    pub jira_token: String,
    pub gh_token: String,
    pub error: Option<String>,
}

/// The form as it first appears: the code root suggested, the rest empty.
pub fn initial() -> (r: State)
    ensures
        r.field == Field::CodeRoot,
        r.code_root@ == "~/code"@,
        r.jira_host@.len() == 0,
        r.jira_email@.len() == 0,
        r.jira_token@.len() == 0,
        r.gh_token@.len() == 0,
        r.error is None,
{
    State {
        field: Field::CodeRoot,
        code_root: "~/code".to_owned(),
        jira_host: String::new(),
        jira_email: String::new(),
        jira_token: String::new(),
        gh_token: String::new(),
        error: None,
    }
}

/// The text of the field being edited (the code root when the submit
/// button is focused).
pub open spec fn target_text(s: State) -> Seq<char> {
    match s.field {
        Field::JiraHost => s.jira_host@,
        Field::JiraEmail => s.jira_email@,
        Field::JiraToken => s.jira_token@,
        Field::GhToken => s.gh_token@,
        _ => s.code_root@,
    }
}

/// `b` is `a` with the edited field's text replaced by `t`.
pub open spec fn with_target(a: State, b: State, t: Seq<char>) -> bool {
    &&& b.field == a.field
    &&& b.error == a.error
    &&& target_text(b) == t
    &&& (a.field == Field::JiraHost || a.field == Field::JiraEmail || a.field == Field::JiraToken
        || a.field == Field::GhToken || b.jira_host == a.jira_host)
    &&& (a.field != Field::JiraHost ==> b.jira_host == a.jira_host)
    &&& (a.field != Field::JiraEmail ==> b.jira_email == a.jira_email)
    &&& (a.field != Field::JiraToken ==> b.jira_token == a.jira_token)
    &&& (a.field != Field::GhToken ==> b.gh_token == a.gh_token)
    &&& ((a.field == Field::JiraHost || a.field == Field::JiraEmail || a.field == Field::JiraToken
        || a.field == Field::GhToken) ==> b.code_root == a.code_root)
}

/// Why the form cannot be submitted, if it cannot.
pub open spec fn submit_error(s: State) -> Option<Seq<char>> {
    if s.code_root@.len() == 0 {
        Some("code_root is required"@)
    } else if s.jira_host@.len() == 0 || s.jira_email@.len() == 0 {
        Some("jira host and email are required"@)
    } else {
        None
    }
}

/// What submitting the form asks for: the sample configuration with the
/// code root and the Jira host and email from the form, and the tokens that
/// were typed in, to be stored in the keychain.
pub open spec fn is_submission_of(sub: SetupSubmission, s: State) -> bool {
    &&& sub.config.code_root@ == s.code_root@
    &&& sub.config.default_org matches Some(o) && o@ == "pfc"@
    &&& sub.config.jira.host@ == s.jira_host@
    &&& sub.config.jira.email@ == s.jira_email@
    &&& sub.config.jira.jql_my_open@
        == "assignee = currentUser() AND statusCategory != Done ORDER BY updated DESC"@
    &&& !sub.config.github.auto_discover
    &&& sub.config.github.watched@.len() == 0
    &&& sub.config.tmux.session_template@ == "{ticket}"@
    &&& sub.config.tmux.kill_on_remove_worktree
    &&& sub.config.ui.theme@ == "dark"@
    &&& sub.config.ui.refresh_interval_secs == 0
    &&& sub.jira_email@ == s.jira_email@
    &&& (if s.jira_token@.len() > 0 {
        sub.jira_token matches Some(t) && t@ == s.jira_token@
    } else {
        sub.jira_token is None
    })
    &&& (if s.gh_token@.len() > 0 {
        sub.github_token matches Some(t) && t@ == s.gh_token@
    } else {
        sub.github_token is None
    })
}

fn nonempty_copy(s: &String) -> (r: Option<String>)
    ensures
        if s@.len() > 0 {
            r matches Some(t) && t@ == s@
        } else {
            r is None
        },
{
    if s.as_str().unicode_len() > 0 {
        Some(s.clone())
    } else {
        None
    }
}

/// Check the form and say what submitting it asks for.
pub fn submission(state: &State) -> (r: Result<SetupSubmission, String>)
    ensures
        match submit_error(*state) {
            Some(m) => r matches Err(e) && e@ == m,
            None => r matches Ok(sub) && is_submission_of(sub, *state),
        },
{
    if state.code_root.as_str().unicode_len() == 0 {
        return Err("code_root is required".to_owned());
    }
    if state.jira_host.as_str().unicode_len() == 0 || state.jira_email.as_str().unicode_len() == 0 {
        return Err("jira host and email are required".to_owned());
    }
    let mut cfg = Config::sample();
    cfg.code_root = state.code_root.clone();
    cfg.jira.host = state.jira_host.clone();
    cfg.jira.email = state.jira_email.clone();
    Ok(
        SetupSubmission {
            config: cfg,
            jira_email: state.jira_email.clone(),
            jira_token: nonempty_copy(&state.jira_token),
            github_token: nonempty_copy(&state.gh_token),
        },
    )
}

fn push_target(state: &mut State, c: char)
    ensures
        with_target(*old(state), *final(state), target_text(*old(state)).push(c)),
{
    match state.field {
        Field::JiraHost => push_char(&mut state.jira_host, c),
        Field::JiraEmail => push_char(&mut state.jira_email, c),
        Field::JiraToken => push_char(&mut state.jira_token, c),
        Field::GhToken => push_char(&mut state.gh_token, c),
        _ => push_char(&mut state.code_root, c),
    }
}

fn pop_target(state: &mut State)
    ensures
        with_target(
            *old(state),
            *final(state),
            if target_text(*old(state)).len() == 0 {
                target_text(*old(state))
            } else {
                target_text(*old(state)).drop_last()
            },
        ),
{
    match state.field {
        Field::JiraHost => {
            pop_char(&mut state.jira_host);
        },
        Field::JiraEmail => {
            pop_char(&mut state.jira_email);
        },
        Field::JiraToken => {
            pop_char(&mut state.jira_token);
        },
        Field::GhToken => {
            pop_char(&mut state.gh_token);
        },
        _ => {
            pop_char(&mut state.code_root);
        },
    }
}

/// How the screen reacts to `key`: `s0`/`a0` before, `s1`/`a1` after, `r`
/// what it asks the event loop for.
pub open spec fn handled(key: Key, s0: State, a0: AppState, s1: State, a1: AppState, r: Option<Command>) -> bool {
    &&& (key == Key::Tab || key == Key::Down) ==> s1 == (State {
            field: field_next(s0.field),
            ..s0
        }) && a1 == a0 && r is None
    &&& (key == Key::BackTab || key == Key::Up) ==> s1 == (State {
            field: field_prev(s0.field),
            ..s0
        }) && a1 == a0 && r is None
    &&& key == Key::Esc ==> s1 == s0 && a1 == (AppState {
            should_quit: true,
            ..a0
        }) && r is None
    &&& key == Key::Enter ==> a1 == a0 && if s0.field == Field::Submit {
            match submit_error(s0) {
                Some(m) => (r is None) && s1 == (State {
                    error: s1.error,
                    ..s0
                }) && (s1.error matches Some(e) && e@ == m),
                None => s1 == s0 && (r matches Some(Command::SubmitSetup(sub))
                    && is_submission_of(sub, s0)),
            }
        } else {
            s1 == (State { field: field_next(s0.field), ..s0 })
                && r is None
        }
    &&& key == Key::Backspace ==> a1 == a0 && r is None && with_target(
            s0,
            s1,
            if target_text(s0).len() == 0 {
                target_text(s0)
            } else {
                target_text(s0).drop_last()
            },
        )
    &&& key matches Key::Char(c) ==> a1 == a0 && r is None && with_target(
            s0,
            s1,
            target_text(s0).push(c),
        )
    &&& (key == Key::Other) ==> a1 == a0 && s1 == s0
            && r is None
}

/// `Tab`/`Down` and `BackTab`/`Up` move between fields, `Esc` quits,
/// `Enter` moves on or, on the submit button, submits the form (or shows why
/// it cannot be), `Backspace` and characters edit the focused field.
pub fn handle(key: Key, state: &mut State, app: &mut AppState) -> (r: Option<Command>)
    ensures
        handled(key, *old(state), *old(app), *final(state), *final(app), r),
{
    match key {
        Key::Tab | Key::Down => {
            state.field = state.field.next();
        },
        Key::BackTab | Key::Up => {
            state.field = state.field.prev();
        },
        Key::Esc => {
            app.should_quit = true;
        },
        Key::Enter => {
            if state.field == Field::Submit {
                match submission(state) {
                    Ok(sub) => {
                        return Some(Command::SubmitSetup(sub));
                    },
                    Err(e) => {
                        state.error = Some(e);
                    },
                }
            } else {
                state.field = state.field.next();
            }
        },
        Key::Backspace => {
            pop_target(state);
        },
        Key::Char(c) => {
            push_target(state, c);
        },
        Key::Other => {},
    }
    None
}

/// Typing a character and erasing it leaves the form as it was.
pub proof fn law_type_then_erase(
    c: char,
    s0: State,
    a0: AppState,
    s1: State,
    a1: AppState,
    r1: Option<Command>,
    s2: State,
    a2: AppState,
    r2: Option<Command>,
)
    requires
        handled(Key::Char(c), s0, a0, s1, a1, r1),
        handled(Key::Backspace, s1, a1, s2, a2, r2),
    ensures
        s2.field == s0.field,
        s2.error == s0.error,
        s2.code_root@ == s0.code_root@,
        s2.jira_host@ == s0.jira_host@,
        s2.jira_email@ == s0.jira_email@,
        s2.jira_token@ == s0.jira_token@,
        s2.gh_token@ == s0.gh_token@,
        a2 == a0,
        r1 is None && r2 is None,
{
    assert(target_text(s0).push(c).drop_last() =~= target_text(s0));
}

} // verus!
