//! The tmux side: the socket a client talks to, the argument lists of the
//! tmux commands, and the parser for `tmux list-sessions` output.
use vstd::prelude::*;

use crate::domain::Session;
use crate::ids::{valid_session_name, SessionName};
use crate::text::{
    chars_of, decimal, is_ws, law_decimal_parses_back, lemma_decimal_digits, lemma_split_first,
    lemma_split_none, lines, parse_u32, parse_u32_spec, seq_eq, split_at_char, split_char,
    split_lines, string_of, views, extend_str,
};

verus! {

/// Failures of the tmux commands.
#[derive(Debug)]
pub enum TmuxError {
    Command { cmd: String, stderr: String },
    Parse(String),
    Io(String),
}

/// The tmux command that hands the terminal to a session, with its
/// arguments.
#[derive(Debug)]
pub enum AttachPlan {
    /// From inside tmux: move the current client to the session.
    SwitchClient(Vec<String>),
    /// From outside tmux: attach in the foreground.
    Attach(Vec<String>),
}

/// The message shown when moving the client to another session failed.
pub fn switch_failed_message(detail: &str) -> (r: String)
    ensures
        r@ == "switch-client failed: "@ + detail@,
{
    let mut v = chars_of("switch-client failed: ");
    extend_str(&mut v, detail);
    string_of(&v)
}

/// A tmux client, optionally pinned to a private server socket (`-L`).
#[derive(Debug, Clone)]
pub struct Tmux {
    pub socket_name: Option<String>,
}

pub open spec fn string_views(v: Seq<String>) -> Seq<Seq<char>> {
    v.map_values(|s: String| s@)
}

impl Tmux {
    /// A client of the default server.
    pub fn new() -> (r: Tmux)
        ensures
            r.socket_name is None,
    {
        Tmux { socket_name: None }
    }

    /// A client of the private server named `name`.
    pub fn with_socket(name: &str) -> (r: Tmux)
        ensures
            r.socket_name matches Some(s) && s@ == name@,
    {
        Tmux { socket_name: Some(name.to_owned()) }
    }

    /// The arguments every command starts with: `-L <socket>` when pinned.
    pub fn socket_args(&self) -> (r: Vec<String>)
        ensures
            string_views(r@) == self.socket_view(),
    {
        let mut r: Vec<String> = Vec::new();
        match &self.socket_name {
            Some(s) => {
                r.push("-L".to_owned());
                r.push(s.clone());
            },
            None => {},
        }
        assert(string_views(r@) =~= match self.socket_name {
            Some(s) => seq!["-L"@, s@],
            None => Seq::<Seq<char>>::empty(),
        });
        r
    }

    /// The arguments of `tmux <verb> -t <name>` (has-session, kill-session,
    /// switch-client, attach-session).
    pub fn target_args(&self, verb: &str, name: &SessionName) -> (r: Vec<String>)
        ensures
            string_views(r@) == self.socket_view() + seq![verb@, "-t"@, name@],
    {
        let mut r = self.socket_args();
        let ghost base = r@;
        r.push(verb.to_owned());
        r.push("-t".to_owned());
        r.push(name.as_str().to_owned());
        proof {
            reveal_strlit("-t");
        }
        assert(string_views(r@) =~= string_views(base) + seq![verb@, "-t"@, name@]);
        r
    }

    /// The arguments of `tmux new-session -d -s <name> -c <cwd>`.
    pub fn new_session_args(&self, name: &SessionName, cwd: &str) -> (r: Vec<String>)
        ensures
            string_views(r@) == self.socket_view() + seq![
                "new-session"@,
                "-d"@,
                "-s"@,
                name@,
                "-c"@,
                cwd@,
            ],
    {
        let mut r = self.socket_args();
        let ghost base = r@;
        r.push("new-session".to_owned());
        r.push("-d".to_owned());
        r.push("-s".to_owned());
        r.push(name.as_str().to_owned());
        r.push("-c".to_owned());
        r.push(cwd.to_owned());
        assert(string_views(r@) =~= string_views(base) + seq![
            "new-session"@,
            "-d"@,
            "-s"@,
            name@,
            "-c"@,
            cwd@,
        ]);
        r
    }

    /// How to hand the terminal to session `name`: from inside tmux
    /// (`inside`), `switch-client -t <name>` moves the current client; from
    /// outside, `attach-session -t <name>` runs in the foreground.
    pub fn attach_plan(&self, inside: bool, name: &SessionName) -> (r: AttachPlan)
        ensures
            inside ==> (r matches AttachPlan::SwitchClient(a) && string_views(a@)
                == self.socket_view() + seq!["switch-client"@, "-t"@, name@]),
            !inside ==> (r matches AttachPlan::Attach(a) && string_views(a@)
                == self.socket_view() + seq!["attach-session"@, "-t"@, name@]),
    {
        if inside {
            AttachPlan::SwitchClient(self.target_args("switch-client", name))
        } else {
            AttachPlan::Attach(self.target_args("attach-session", name))
        }
    }

    /// The arguments of `tmux list-sessions -F <format>`: name, attached flag,
    /// path and window count, tab-separated, as [`parse_sessions`] reads them.
    pub fn list_sessions_args(&self) -> (r: Vec<String>)
        ensures
            string_views(r@) == self.socket_view() + seq![
                "list-sessions"@,
                "-F"@,
                "#{session_name}\t#{session_attached}\t#{session_path}\t#{session_windows}"@,
            ],
    {
        let mut r = self.socket_args();
        let ghost base = r@;
        r.push("list-sessions".to_owned());
        r.push("-F".to_owned());
        r.push("#{session_name}\t#{session_attached}\t#{session_path}\t#{session_windows}".to_owned());
        assert(string_views(r@) =~= string_views(base) + seq![
            "list-sessions"@,
            "-F"@,
            "#{session_name}\t#{session_attached}\t#{session_path}\t#{session_windows}"@,
        ]);
        r
    }

    /// `-L <socket>` when the client is pinned to a private server.
    pub open spec fn socket_view(&self) -> Seq<Seq<char>> {
        match self.socket_name {
            Some(s) => seq!["-L"@, s@],
            None => Seq::<Seq<char>>::empty(),
        }
    }
}

/// What a tmux command that reports nothing on success came to: `Ok` when it
/// exited successfully, else the command text and its standard error.
pub fn command_outcome(success: bool, cmd: String, stderr: String) -> (r: Result<(), TmuxError>)
    ensures
        success ==> r is Ok,
        !success ==> r == Err::<(), TmuxError>(TmuxError::Command { cmd, stderr }),
{
    if success {
        Ok(())
    } else {
        Err(TmuxError::Command { cmd, stderr })
    }
}

/// The sessions that `tmux list-sessions` reported: none when the command
/// failed (no server is running), else its output parsed.
pub fn sessions_from_output(success: bool, stdout: &str) -> (r: Result<Vec<Session>, TmuxError>)
    ensures
        !success ==> (r matches Ok(v) && v@.len() == 0),
        success ==> match sessions_spec(lines(stdout@)) {
            Ok(ss) => r matches Ok(v) && sessions_view(v@) == ss,
            Err(l) => r matches Err(e) && e matches TmuxError::Parse(m) && m@ == l,
        },
{
    if !success {
        return Ok(Vec::new());
    }
    parse_sessions(stdout)
}

/// A session line's fields (name, attached, cwd, windows), or `None` when
/// the line has fewer than four tab-separated fields or an invalid name.
pub open spec fn session_fields(line: Seq<char>) -> Option<(Seq<char>, bool, Seq<char>, u32)> {
    let f = split_char(line, '\t');
    if f.len() < 4 || !valid_session_name(f[0]) {
        None
    } else {
        Some(
            (
                f[0],
                f[1] != "0"@,
                f[2],
                match parse_u32_spec(f[3]) {
                    Some(n) => n,
                    None => 0,
                },
            ),
        )
    }
}

/// The sessions that the lines `ls` describe, or the first line that
/// cannot be read. Empty lines are skipped.
pub open spec fn sessions_spec(ls: Seq<Seq<char>>) -> Result<
    Seq<(Seq<char>, bool, Seq<char>, u32)>,
    Seq<char>,
>
    decreases ls.len(),
{
    if ls.len() == 0 {
        Ok(Seq::empty())
    } else {
        match sessions_spec(ls.drop_last()) {
            Err(l) => Err(l),
            Ok(acc) => if ls.last().len() == 0 {
                Ok(acc)
            } else {
                match session_fields(ls.last()) {
                    Some(s) => Ok(acc.push(s)),
                    None => Err(ls.last()),
                }
            },
        }
    }
}

/// Once a line cannot be read, the whole listing is refused with it.
proof fn lemma_sessions_err_sticks(ls: Seq<Seq<char>>, j: int)
    requires
        0 <= j <= ls.len(),
        sessions_spec(ls.take(j)) is Err,
    ensures
        sessions_spec(ls) == sessions_spec(ls.take(j)),
    decreases ls.len(),
{
    if j < ls.len() {
        assert(ls.drop_last().take(j) =~= ls.take(j));
        lemma_sessions_err_sticks(ls.drop_last(), j);
    } else {
        assert(ls.take(j) =~= ls);
    }
}

pub open spec fn session_view(s: Session) -> (Seq<char>, bool, Seq<char>, u32) {
    (s.name@, s.attached, s.cwd@, s.windows)
}

pub open spec fn sessions_view(v: Seq<Session>) -> Seq<(Seq<char>, bool, Seq<char>, u32)> {
    v.map_values(|s: Session| session_view(s))
}

/// Parse the output of
/// `tmux list-sessions -F '#{session_name}\t#{session_attached}\t#{session_path}\t#{session_windows}'`.
pub fn parse_sessions(raw: &str) -> (r: Result<Vec<Session>, TmuxError>)
    ensures
        match sessions_spec(lines(raw@)) {
            Ok(ss) => r matches Ok(v) && sessions_view(v@) == ss,
            Err(l) => r matches Err(e) && e matches TmuxError::Parse(m) && m@ == l,
        },
{
    let v = chars_of(raw);
    let ls = split_lines(&v);
    let mut out: Vec<Session> = Vec::new();
    let mut k: usize = 0;
    assert(sessions_view(out@) =~= Seq::<(Seq<char>, bool, Seq<char>, u32)>::empty());
    while k < ls.len()
        invariant
            k <= ls.len(),
            views(ls@) == lines(raw@),
            sessions_spec(views(ls@).take(k as int)) == Ok::<
                Seq<(Seq<char>, bool, Seq<char>, u32)>,
                Seq<char>,
            >(sessions_view(out@)),
        decreases ls.len() - k,
    {
        let line = &ls[k];
        assert(views(ls@)[k as int] == line@);
        assert(views(ls@).take(k as int + 1).drop_last() =~= views(ls@).take(k as int));
        assert(views(ls@).take(k as int + 1).last() == line@);
        if line.len() > 0 {
            let fields = split_at_char(line, '\t');
            assert(views(fields@) == split_char(line@, '\t'));
            if fields.len() < 4 {
                proof {
                    lemma_sessions_err_sticks(views(ls@), k as int + 1);
                }
                return Err(TmuxError::Parse(string_of(line)));
            }
            assert(views(fields@)[0] == fields@[0]@);
            assert(views(fields@)[1] == fields@[1]@);
            assert(views(fields@)[2] == fields@[2]@);
            assert(views(fields@)[3] == fields@[3]@);
            let name_s = string_of(&fields[0]);
            let name = match SessionName::new(name_s.as_str()) {
                Ok(n) => n,
                Err(_) => {
                    proof {
                        lemma_sessions_err_sticks(views(ls@), k as int + 1);
                    }
                    return Err(TmuxError::Parse(string_of(line)));
                },
            };
            let attached = !seq_eq(&fields[1], &chars_of("0"));
            let windows: u32 = match parse_u32(&fields[3]) {
                Some(n) => n,
                None => 0,
            };
            let ghost before = out@;
            out.push(Session { name, attached, cwd: string_of(&fields[2]), windows });
            assert(sessions_view(out@) =~= sessions_view(before).push(
                (name@, attached, fields@[2]@, windows),
            ));
        }
        k = k + 1;
    }
    assert(views(ls@).take(ls.len() as int) =~= views(ls@));
    Ok(out)
}

/// A line as `tmux list-sessions` writes it in the format of
/// `list_sessions_args`: name, attached flag, path and window count,
/// tab-separated.
pub open spec fn session_line(name: Seq<char>, attached: bool, cwd: Seq<char>, windows: u32) -> Seq<char> {
    name + seq!['\t'] + (if attached {
        "1"@
    } else {
        "0"@
    }) + seq!['\t'] + cwd + seq!['\t'] + decimal(windows as nat)
}

/// Reading a session line gives back what was written in it, for a valid
/// session name and a path without tabs.
pub proof fn law_session_line_reads_back(name: Seq<char>, attached: bool, cwd: Seq<char>, windows: u32)
    requires
        valid_session_name(name),
        !cwd.contains('\t'),
    ensures
        session_fields(session_line(name, attached, cwd, windows)) == Some(
            (name, attached, cwd, windows),
        ),
{
    reveal_strlit("1");
    reveal_strlit("0");
    let flag = if attached {
        "1"@
    } else {
        "0"@
    };
    let digits = decimal(windows as nat);
    law_decimal_parses_back(windows);
    assert(!name.contains('\t')) by {
        if name.contains('\t') {
            let i = choose|i: int| 0 <= i < name.len() && name[i] == '\t';
            assert(is_ws(name[i]));
        }
    }
    assert(!flag.contains('\t')) by {
        if flag.contains('\t') {
            let i = choose|i: int| 0 <= i < flag.len() && flag[i] == '\t';
            assert(flag[i] == flag[0]);
        }
    }
    lemma_digits_free_of_tab(windows);
    let rest3 = digits;
    let rest2 = cwd + seq!['\t'] + digits;
    let rest1 = flag + seq!['\t'] + rest2;
    assert(session_line(name, attached, cwd, windows) =~= name + seq!['\t'] + rest1);
    lemma_split_first(name, '\t', rest1);
    assert(flag + seq!['\t'] + rest2 == rest1);
    lemma_split_first(flag, '\t', rest2);
    lemma_split_first(cwd, '\t', rest3);
    lemma_split_none(rest3, '\t');
    let f = split_char(session_line(name, attached, cwd, windows), '\t');
    assert(f =~= seq![name, flag, cwd, digits]);
    assert(attached ==> flag != "0"@) by {
        if attached {
            assert(flag[0] != ("0"@)[0]);
        }
    }
}

proof fn lemma_digits_free_of_tab(n: u32)
    ensures
        !decimal(n as nat).contains('\t'),
{
    lemma_decimal_digits(n as nat);
    let d = decimal(n as nat);
    if d.contains('\t') {
        let i = choose|i: int| 0 <= i < d.len() && d[i] == '\t';
        assert(crate::text::is_digit(d[i]));
    }
}

} // verus!
