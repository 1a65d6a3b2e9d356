//! Small pieces of the status line: the spinner, the status bar's inputs and
//! the toast notifications.
use std::time::Instant;

use vstd::prelude::*;

verus! {

/// The frames of the busy spinner.
pub open spec fn spinner_frames() -> Seq<Seq<char>> {
    seq![
        "\u{280B}"@,
        "\u{2819}"@,
        "\u{2839}"@,
        "\u{2838}"@,
        "\u{283C}"@,
        "\u{2834}"@,
        "\u{2826}"@,
        "\u{2827}"@,
        "\u{2807}"@,
        "\u{280F}"@,
    ]
}

/// The spinner frame for `tick`: the frames in turn, ten of them.
pub fn frame(tick: u64) -> (r: &'static str)
    ensures
        r@ == spinner_frames()[(tick % 10) as int],
{
    let i = tick % 10;
    if i == 0 {
        "\u{280B}"
    } else if i == 1 {
        "\u{2819}"
    } else if i == 2 {
        "\u{2839}"
    } else if i == 3 {
        "\u{2838}"
    } else if i == 4 {
        "\u{283C}"
    } else if i == 5 {
        "\u{2834}"
    } else if i == 6 {
        "\u{2826}"
    } else if i == 7 {
        "\u{2827}"
    } else if i == 8 {
        "\u{2807}"
    } else {
        "\u{280F}"
    }
}

/// What the status bar shows: the screen's name, how many fetches are in
/// flight, the tick for the spinner, and optional right-hand text.
pub struct StatusBarProps<'a> {
    pub mode: &'a str,
    pub in_flight: usize,
    pub tick: u64,
    pub right: Option<&'a str>,
}

#[verifier::external_type_specification]
#[verifier::external_body]
pub struct ExInstant(Instant);

/// The current monotonic time (`Instant::now`); nothing is stated of it.
#[verifier::external_body]
fn instant_now() -> (t: Instant) {
    Instant::now()
}

/// Whole seconds elapsed since `t` (`Instant::elapsed`, `Duration::as_secs`);
/// it depends on the clock, so nothing is stated of it.
#[verifier::external_body]
fn elapsed_secs(t: &Instant) -> (s: u64) {
    t.elapsed().as_secs()
}

#[derive(Debug, Clone, Copy, PartialEq, Eq, Structural)]
pub enum ToastLevel {
    Info,
    Warn,
    Error,
}

/// A short notification shown in a corner for a few seconds.
#[derive(Debug)]
pub struct Toast {
    pub message: String,
    pub level: ToastLevel,
    pub created_at: Instant,
}

/// Toasts disappear once more than five whole seconds have passed.
pub open spec fn expired_after(elapsed_secs: u64) -> bool {
    elapsed_secs > 5
}

pub fn is_expired_after(elapsed_secs: u64) -> (r: bool)
    ensures
        r == expired_after(elapsed_secs),
{
    elapsed_secs > 5
}

impl Toast {
    pub fn info(msg: String) -> (r: Toast)
        ensures
            r.message == msg,
            r.level == ToastLevel::Info,
    {
        Toast { message: msg, level: ToastLevel::Info, created_at: instant_now() }
    }

    pub fn error(msg: String) -> (r: Toast)
        ensures
            r.message == msg,
            r.level == ToastLevel::Error,
    {
        Toast { message: msg, level: ToastLevel::Error, created_at: instant_now() }
    }

    /// Whether the toast has been shown long enough.
    pub fn expired(&self) -> (r: bool)
        ensures
            exists|s: u64| r == expired_after(s),
    {
        is_expired_after(elapsed_secs(&self.created_at))
    }
}

} // verus!
