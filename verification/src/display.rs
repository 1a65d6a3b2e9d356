//! The text the screens put on show: list rows, counts, masked secrets, the
//! status bar, the list selection and where the toast pops up.
use vstd::prelude::*;

use crate::domain::{status_label, Pr, Ticket, Worktree, WorktreeStatus};
use crate::screens::LoadState;
use crate::text::{decimal, decimal_chars, extend_chars, extend_str, pad_right, padded, string_of};
use crate::widgets::{frame, spinner_frames, StatusBarProps};

verus! {

/// How many items a collection holds, or a sign for where it stands:
/// `…` while loading, `?` before the first load, `!` after a failure.
pub open spec fn count_spec<T>(s: LoadState<Vec<T>>) -> Seq<char> {
    match s {
        LoadState::Loaded(v) => decimal(v@.len()),
        LoadState::Loading => "\u{2026}"@,
        LoadState::NotLoaded => "?"@,
        LoadState::Failed(_) => "!"@,
    }
}

/// The count shown for a collection on the overview.
pub fn count_text<T>(s: &LoadState<Vec<T>>) -> (r: String)
    ensures
        r@ == count_spec(*s),
{
    match s {
        LoadState::Loaded(v) => {
            let n: u64 = v.len() as u64;
            string_of(&decimal_chars(n))
        },
        LoadState::Loading => "\u{2026}".to_owned(),
        LoadState::NotLoaded => "?".to_owned(),
        LoadState::Failed(_) => "!".to_owned(),
    }
}

/// `•` once for every character of `value`: how a secret field is shown.
pub fn masked(value: &str) -> (r: String)
    ensures
        r@ == Seq::new(value@.len(), |i: int| '\u{2022}'),
{
    let n = value.unicode_len();
    let mut v: Vec<char> = Vec::new();
    while v.len() < n
        invariant
            v@.len() <= n,
            n == value@.len(),
            forall|i: int| 0 <= i < v@.len() ==> v@[i] == '\u{2022}',
        decreases n - v@.len(),
    {
        v.push('\u{2022}');
    }
    assert(v@ =~= Seq::new(value@.len(), |i: int| '\u{2022}'));
    string_of(&v)
}

/// The upstream tracking of a worktree: `↑<ahead> ↓<behind>`, or
/// `no upstream`.
pub open spec fn track_spec(st: WorktreeStatus) -> Seq<char> {
    if st.has_upstream {
        "\u{2191}"@ + decimal(st.ahead as nat) + " \u{2193}"@ + decimal(st.behind as nat)
    } else {
        "no upstream"@
    }
}

/// The cells of a worktree's row in the worktree list.
pub struct WorktreeRow {
    pub marker: String,
    pub repo: String,
    pub branch: String,
    pub track: String,
    pub session: String,
}

/// A worktree's row: `●` when dirty, the repository in 28 columns, the
/// branch in 32, the tracking in 14, and its session in brackets.
pub fn worktree_row(w: &Worktree) -> (r: WorktreeRow)
    ensures
        r.marker@ == (if w.status.dirty { "\u{25CF}"@ } else { " "@ }),
        r.repo@ == padded(w.repo@, 28),
        r.branch@ == padded(w.branch@, 32),
        r.track@ == padded(track_spec(w.status), 14),
        r.session@ == match w.session {
            Some(s) => "["@ + s@ + "]"@,
            None => "[ no session ]"@,
        },
{
    let marker = if w.status.dirty {
        "\u{25CF}".to_owned()
    } else {
        " ".to_owned()
    };
    let mut t: Vec<char> = Vec::new();
    if w.status.has_upstream {
        extend_str(&mut t, "\u{2191}");
        extend_chars(&mut t, &decimal_chars(w.status.ahead as u64));
        extend_str(&mut t, " \u{2193}");
        extend_chars(&mut t, &decimal_chars(w.status.behind as u64));
    } else {
        extend_str(&mut t, "no upstream");
    }
    assert(t@ =~= track_spec(w.status));
    let track_text = string_of(&t);
    let session = match &w.session {
        Some(s) => {
            let mut v: Vec<char> = Vec::new();
            extend_str(&mut v, "[");
            extend_str(&mut v, s.as_str());
            extend_str(&mut v, "]");
            string_of(&v)
        },
        None => "[ no session ]".to_owned(),
    };
    WorktreeRow {
        marker,
        repo: pad_right(w.repo.as_str(), 28),
        branch: pad_right(w.branch.as_str(), 32),
        track: pad_right(track_text.as_str(), 14),
        session,
    }
}

/// The cells of a ticket's row in the ticket list.
pub struct TicketRow {
    pub key: String,
    pub status: String,
    pub summary: String,
}

/// A ticket's row: its key in 10 columns, its status label in 8, its summary.
pub fn ticket_row(t: &Ticket) -> (r: TicketRow)
    ensures
        r.key@ == padded(t.key@, 10),
        r.status@ == padded(status_label(t.status), 8),
        r.summary@ == t.summary@,
{
    TicketRow {
        key: pad_right(t.key.as_str(), 10),
        status: pad_right(t.status.label(), 8),
        summary: t.summary.clone(),
    }
}

/// The cells of a pull request's row in the PR list.
pub struct PrRow {
    pub number: String,
    pub repo: String,
    pub draft: String,
    pub title: String,
    pub author: String,
}

/// A pull request's row: `#` and its number in 5 columns, the repository in
/// 28, `[draft] ` for a draft, the title, and `@` with the author.
pub fn pr_row(p: &Pr) -> (r: PrRow)
    ensures
        r.number@ == "#"@ + padded(decimal(p.number.0 as nat), 5),
        r.repo@ == padded(p.repo@, 28),
        r.draft@ == (if p.draft { "[draft] "@ } else { ""@ }),
        r.title@ == p.title@,
        r.author@ == "@"@ + p.author@,
{
    let digits = string_of(&decimal_chars(p.number.0));
    let mut n: Vec<char> = Vec::new();
    extend_str(&mut n, "#");
    extend_str(&mut n, pad_right(digits.as_str(), 5).as_str());
    let mut a: Vec<char> = Vec::new();
    extend_str(&mut a, "@");
    extend_str(&mut a, p.author.as_str());
    PrRow {
        number: string_of(&n),
        repo: pad_right(p.repo.as_str(), 28),
        draft: if p.draft {
            "[draft] ".to_owned()
        } else {
            "".to_owned()
        },
        title: p.title.clone(),
        author: string_of(&a),
    }
}

/// The segments of the status bar.
pub struct StatusText {
    pub mode: String,
    pub activity: Option<String>,
    pub right: Option<String>,
}

/// The status bar: the screen's name padded by a space each side; while
/// fetches are in flight the spinner frame and their number; the right-hand
/// text when there is one.
pub fn status_text(props: &StatusBarProps) -> (r: StatusText)
    ensures
        r.mode@ == " "@ + props.mode@ + " "@,
        props.in_flight == 0 ==> r.activity is None,
        props.in_flight > 0 ==> (r.activity matches Some(a) && a@ == spinner_frames()[(props.tick
            % 10) as int] + " "@ + decimal(props.in_flight as nat) + " "@),
        match props.right {
            Some(t) => r.right matches Some(s) && s@ == t@,
            None => r.right is None,
        },
{
    let mut m: Vec<char> = Vec::new();
    extend_str(&mut m, " ");
    extend_str(&mut m, props.mode);
    extend_str(&mut m, " ");
    let activity = if props.in_flight > 0 {
        let mut a: Vec<char> = Vec::new();
        extend_str(&mut a, frame(props.tick));
        extend_str(&mut a, " ");
        extend_chars(&mut a, &decimal_chars(props.in_flight as u64));
        extend_str(&mut a, " ");
        Some(string_of(&a))
    } else {
        None
    };
    let right = match props.right {
        Some(t) => Some(t.to_owned()),
        None => None,
    };
    StatusText { mode: string_of(&m), activity, right }
}

/// The row a list highlights: the selected one, held to the last row; none
/// in an empty list.
pub fn selection(selected: usize, len: usize) -> (r: Option<usize>)
    ensures
        len == 0 ==> r is None,
        len > 0 ==> r == Some(if selected < len { selected } else { (len - 1) as usize }),
{
    if len == 0 {
        None
    } else if selected < len {
        Some(selected)
    } else {
        Some(len - 1)
    }
}

/// A rectangle of terminal cells.
#[derive(Debug, Clone, Copy, PartialEq, Eq, Structural)]
pub struct Area {
    pub x: u16,
    pub y: u16,
    pub width: u16,
    pub height: u16,
}

pub open spec fn sat_sub(a: int, b: int) -> int {
    if a > b {
        a - b
    } else {
        0
    }
}

/// Where the toast pops up in `area` for a message of `msg_len` bytes: three
/// rows high at the bottom right, as wide as the message and its border
/// (four more columns, counted modulo 2^16 as a `u16` holds it) but no wider
/// than the area less two; nowhere when the area is under 3 rows or under
/// 10 columns.
pub fn toast_popup(area: Area, msg_len: usize) -> (r: Option<Area>)
    requires
        msg_len + 4 <= usize::MAX,
        area.x + area.width <= u16::MAX,
        area.y + area.height <= u16::MAX,
    ensures
        (area.height < 3 || area.width < 10) ==> r is None,
        !(area.height < 3 || area.width < 10) ==> (r matches Some(p) && {
            let cap = area.width - 2;
            let want = ((msg_len + 4) % 0x10000) as int;
            let w = if want < cap { want } else { cap };
            &&& p.width == w
            &&& p.height == 3
            &&& p.x == area.x + sat_sub(area.width as int, w + 2)
            &&& p.y == area.y + sat_sub(area.height as int, 4)
        }),
{
    if area.height < 3 || area.width < 10 {
        return None;
    }
    let cap: u16 = area.width - 2;
    let total: usize = msg_len + 4;
    let want: u16 = (total % 0x10000) as u16;
    let w: u16 = if want < cap { want } else { cap };
    let x = area.x + if area.width > w + 2 { area.width - (w + 2) } else { 0 };
    let y = area.y + if area.height > 4 { area.height - 4 } else { 0 };
    Some(Area { x, y, width: w, height: 3 })
}

} // verus!
