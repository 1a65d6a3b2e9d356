//! Ticket summaries turned into short kebab-case slugs for branch names.
use vstd::prelude::*;

use crate::text::{alnum, chars_of, is_alnum, is_digit, is_lower, lower, string_of, to_lower};

verus! {

/// Longest slug `slugify` returns.
pub const MAX_SLUG_LEN: usize = 50;

/// The Latin-1 letters with diacritics that fold to a plain ASCII letter.
pub open spec fn ascii_fold_spec(c: char) -> Option<char> {
    if c == '\u{E0}' || c == '\u{E1}' || c == '\u{E2}' || c == '\u{E4}' || c == '\u{E3}' || c
        == '\u{E5}' {
        Some('a')
    } else if c == '\u{E8}' || c == '\u{E9}' || c == '\u{EA}' || c == '\u{EB}' {
        Some('e')
    } else if c == '\u{EC}' || c == '\u{ED}' || c == '\u{EE}' || c == '\u{EF}' {
        Some('i')
    } else if c == '\u{F2}' || c == '\u{F3}' || c == '\u{F4}' || c == '\u{F6}' || c == '\u{F5}' {
        Some('o')
    } else if c == '\u{F9}' || c == '\u{FA}' || c == '\u{FB}' || c == '\u{FC}' {
        Some('u')
    } else if c == '\u{F1}' {
        Some('n')
    } else if c == '\u{E7}' {
        Some('c')
    } else if c == '\u{DF}' {
        Some('s')
    } else {
        None
    }
}

/// The accented letters that fold, each to its base letter: à á â ä ã å to
/// a, è é ê ë to e, ì í î ï to i, ò ó ô ö õ to o, ù ú û ü to u, ñ to n, ç to c
/// and ß to s. Whatever folds becomes a lowercase ASCII letter, and no ASCII
/// character folds.
pub proof fn law_fold_table(c: char)
    ensures
        ascii_fold_spec('\u{E0}') == Some('a'),
        ascii_fold_spec('\u{E1}') == Some('a'),
        ascii_fold_spec('\u{E2}') == Some('a'),
        ascii_fold_spec('\u{E4}') == Some('a'),
        ascii_fold_spec('\u{E3}') == Some('a'),
        ascii_fold_spec('\u{E5}') == Some('a'),
        ascii_fold_spec('\u{E8}') == Some('e'),
        ascii_fold_spec('\u{E9}') == Some('e'),
        ascii_fold_spec('\u{EA}') == Some('e'),
        ascii_fold_spec('\u{EB}') == Some('e'),
        ascii_fold_spec('\u{EC}') == Some('i'),
        ascii_fold_spec('\u{ED}') == Some('i'),
        ascii_fold_spec('\u{EE}') == Some('i'),
        ascii_fold_spec('\u{EF}') == Some('i'),
        ascii_fold_spec('\u{F2}') == Some('o'),
        ascii_fold_spec('\u{F3}') == Some('o'),
        ascii_fold_spec('\u{F4}') == Some('o'),
        ascii_fold_spec('\u{F6}') == Some('o'),
        ascii_fold_spec('\u{F5}') == Some('o'),
        ascii_fold_spec('\u{F9}') == Some('u'),
        ascii_fold_spec('\u{FA}') == Some('u'),
        ascii_fold_spec('\u{FB}') == Some('u'),
        ascii_fold_spec('\u{FC}') == Some('u'),
        ascii_fold_spec('\u{F1}') == Some('n'),
        ascii_fold_spec('\u{E7}') == Some('c'),
        ascii_fold_spec('\u{DF}') == Some('s'),
        ascii_fold_spec(c) matches Some(b) ==> is_lower(b),
        (c as u32) < 128 ==> ascii_fold_spec(c) is None,
{
}

/// What a single input character contributes to a slug: an ASCII letter or
/// digit, lowercased; a folded accented letter; or nothing (a separator).
pub open spec fn slug_char(c: char) -> Option<char> {
    if is_alnum(c) {
        Some(lower(c))
    } else {
        ascii_fold_spec(c)
    }
}

/// One step of the scan: keep mapped characters, and turn a run of
/// separators into a single dash, never at the start.
pub open spec fn slug_step(acc: Seq<char>, c: char) -> Seq<char> {
    match slug_char(c) {
        Some(m) => acc.push(m),
        None => if acc.len() > 0 && acc.last() != '-' {
            acc.push('-')
        } else {
            acc
        },
    }
}

pub open spec fn slug_scan(s: Seq<char>) -> Seq<char>
    decreases s.len(),
{
    if s.len() == 0 {
        Seq::empty()
    } else {
        slug_step(slug_scan(s.drop_last()), s.last())
    }
}

pub open spec fn trim_dashes(s: Seq<char>) -> Seq<char>
    decreases s.len(),
{
    if s.len() > 0 && s.last() == '-' {
        trim_dashes(s.drop_last())
    } else {
        s
    }
}

/// The slug of `s`: the scan without trailing dashes, cut to
/// `MAX_SLUG_LEN` characters (and again without trailing dashes).
pub open spec fn slug_spec(s: Seq<char>) -> Seq<char> {
    let t = trim_dashes(slug_scan(s));
    if t.len() > MAX_SLUG_LEN {
        trim_dashes(t.take(MAX_SLUG_LEN as int))
    } else {
        t
    }
}

/// Characters a slug may hold.
pub open spec fn is_slug_char(c: char) -> bool {
    is_lower(c) || is_digit(c) || c == '-'
}

/// The shape of every slug: lowercase ASCII letters, digits and single
/// dashes, never a dash first.
pub open spec fn slug_shaped(t: Seq<char>) -> bool {
    &&& forall|i: int| 0 <= i < t.len() ==> is_slug_char(#[trigger] t[i])
    &&& t.len() > 0 ==> t[0] != '-'
    &&& forall|i: int| 0 <= i && i + 1 < t.len() && #[trigger] t[i] == '-' ==> t[i + 1] != '-'
}

proof fn lemma_scan_shaped(s: Seq<char>)
    ensures
        slug_shaped(slug_scan(s)),
    decreases s.len(),
{
    if s.len() > 0 {
        lemma_scan_shaped(s.drop_last());
        let acc = slug_scan(s.drop_last());
        let t = slug_scan(s);
        assert(t == slug_step(acc, s.last()));
        assert forall|i: int| 0 <= i < t.len() implies is_slug_char(#[trigger] t[i]) by {
            if i < acc.len() {
                assert(t[i] == acc[i]);
            }
        }
        assert forall|i: int| 0 <= i && i + 1 < t.len() && #[trigger] t[i] == '-' implies t[i
            + 1] != '-' by {
            if i + 1 < acc.len() {
                assert(t[i] == acc[i]);
                assert(t[i + 1] == acc[i + 1]);
            } else {
                assert(t[i] == acc[i]);
            }
        }
    }
}

proof fn lemma_prefix_shaped(t: Seq<char>, k: int)
    requires
        slug_shaped(t),
        0 <= k <= t.len(),
    ensures
        slug_shaped(t.take(k)),
{
    let p = t.take(k);
    assert forall|i: int| 0 <= i < p.len() implies is_slug_char(#[trigger] p[i]) by {
        assert(p[i] == t[i]);
    }
    assert forall|i: int| 0 <= i && i + 1 < p.len() && #[trigger] p[i] == '-' implies p[i + 1]
        != '-' by {
        assert(p[i] == t[i]);
        assert(p[i + 1] == t[i + 1]);
    }
}

pub proof fn lemma_trim_dashes(t: Seq<char>)
    requires
        slug_shaped(t),
    ensures
        slug_shaped(trim_dashes(t)),
        trim_dashes(t).len() <= t.len(),
        trim_dashes(t).len() > 0 ==> trim_dashes(t).last() != '-',
        trim_dashes(t) == t.take(trim_dashes(t).len() as int),
    decreases t.len(),
{
    if t.len() > 0 && t.last() == '-' {
        lemma_prefix_shaped(t, t.len() - 1);
        assert(t.drop_last() == t.take(t.len() - 1));
        lemma_trim_dashes(t.drop_last());
        let r = trim_dashes(t.drop_last());
        assert(r =~= t.take(r.len() as int));
    } else {
        assert(t.take(t.len() as int) =~= t);
    }
}

/// Every slug has the slug shape, no dash at either end, and at most
/// `MAX_SLUG_LEN` characters.
pub proof fn law_slug_shape(s: Seq<char>)
    ensures
        slug_shaped(slug_spec(s)),
        slug_spec(s).len() <= MAX_SLUG_LEN,
        slug_spec(s).len() > 0 ==> slug_spec(s)[0] != '-' && slug_spec(s).last() != '-',
{
    lemma_scan_shaped(s);
    let t = trim_dashes(slug_scan(s));
    lemma_trim_dashes(slug_scan(s));
    if t.len() > MAX_SLUG_LEN {
        lemma_prefix_shaped(t, MAX_SLUG_LEN as int);
        lemma_trim_dashes(t.take(MAX_SLUG_LEN as int));
    }
}

proof fn lemma_scan_identity(t: Seq<char>, k: int)
    requires
        slug_shaped(t),
        0 <= k <= t.len(),
    ensures
        slug_scan(t.take(k)) == t.take(k),
    decreases k,
{
    if k > 0 {
        lemma_scan_identity(t, k - 1);
        let p = t.take(k - 1);
        let c = t[k - 1];
        assert(t.take(k).drop_last() =~= p);
        assert(t.take(k).last() == c);
        assert(is_slug_char(c));
        if c == '-' {
            assert(k - 1 > 0);
            assert(t[k - 2] != '-');
            assert(p.last() == t[k - 2]);
        }
        assert(p.push(c) =~= t.take(k));
    }
}

/// A slug is its own slug: slugifying twice gives the same as once.
pub proof fn law_slug_idempotent(s: Seq<char>)
    ensures
        slug_spec(slug_spec(s)) == slug_spec(s),
{
    law_slug_shape(s);
    let t = slug_spec(s);
    lemma_scan_identity(t, t.len() as int);
    assert(t.take(t.len() as int) =~= t);
    assert(trim_dashes(t) == t);
}

/// Fold a Latin-1 letter with a diacritic to its plain ASCII letter.
pub fn ascii_fold(ch: char) -> (r: Option<char>)
    ensures
        r == ascii_fold_spec(ch),
        r matches Some(b) ==> is_lower(b),
        ch == '\u{E0}' || ch == '\u{E1}' || ch == '\u{E2}' || ch == '\u{E4}' || ch == '\u{E3}' || ch == '\u{E5}' ==> r == Some('a'),
        ch == '\u{E8}' || ch == '\u{E9}' || ch == '\u{EA}' || ch == '\u{EB}' ==> r == Some('e'),
        ch == '\u{EC}' || ch == '\u{ED}' || ch == '\u{EE}' || ch == '\u{EF}' ==> r == Some('i'),
        ch == '\u{F2}' || ch == '\u{F3}' || ch == '\u{F4}' || ch == '\u{F6}' || ch == '\u{F5}' ==> r == Some('o'),
        ch == '\u{F9}' || ch == '\u{FA}' || ch == '\u{FB}' || ch == '\u{FC}' ==> r == Some('u'),
        ch == '\u{F1}' ==> r == Some('n'),
        ch == '\u{E7}' ==> r == Some('c'),
        ch == '\u{DF}' ==> r == Some('s'),
{
    proof {
        law_fold_table(ch);
    }
    if ch == '\u{E0}' || ch == '\u{E1}' || ch == '\u{E2}' || ch == '\u{E4}' || ch == '\u{E3}'
        || ch == '\u{E5}' {
        Some('a')
    } else if ch == '\u{E8}' || ch == '\u{E9}' || ch == '\u{EA}' || ch == '\u{EB}' {
        Some('e')
    } else if ch == '\u{EC}' || ch == '\u{ED}' || ch == '\u{EE}' || ch == '\u{EF}' {
        Some('i')
    } else if ch == '\u{F2}' || ch == '\u{F3}' || ch == '\u{F4}' || ch == '\u{F6}' || ch
        == '\u{F5}' {
        Some('o')
    } else if ch == '\u{F9}' || ch == '\u{FA}' || ch == '\u{FB}' || ch == '\u{FC}' {
        Some('u')
    } else if ch == '\u{F1}' {
        Some('n')
    } else if ch == '\u{E7}' {
        Some('c')
    } else if ch == '\u{DF}' {
        Some('s')
    } else {
        None
    }
}

fn pop_dashes(out: &mut Vec<char>)
    ensures
        final(out)@ == trim_dashes(old(out)@),
{
    while out.len() > 0 && out[out.len() - 1] == '-'
        invariant
            trim_dashes(out@) == trim_dashes(old(out)@),
        decreases out.len(),
    {
        let ghost before = out@;
        out.pop();
        assert(out@ =~= before.drop_last());
    }
}

/// Kebab-case slug of `input`: lowercase ASCII letters and digits, runs of
/// anything else collapsed to one dash, no dash at either end, at most
/// `MAX_SLUG_LEN` characters.
pub fn slugify(input: &str) -> (r: String)
    ensures
        r@ == slug_spec(input@),
        slug_shaped(r@),
        r@.len() <= MAX_SLUG_LEN,
        r@.len() > 0 ==> r@[0] != '-' && r@.last() != '-',
{
    let v = chars_of(input);
    let mut out: Vec<char> = Vec::new();
    let mut i: usize = 0;
    while i < v.len()
        invariant
            i <= v.len(),
            v@ == input@,
            out@ == slug_scan(v@.take(i as int)),
        decreases v.len() - i,
    {
        let ch = v[i];
        let mapped: Option<char> = if alnum(ch) {
            Some(to_lower(ch))
        } else {
            ascii_fold(ch)
        };
        match mapped {
            Some(c) => {
                out.push(c);
            },
            None => {
                if out.len() > 0 && out[out.len() - 1] != '-' {
                    out.push('-');
                }
            },
        }
        assert(v@.take(i as int + 1).drop_last() =~= v@.take(i as int));
        i = i + 1;
    }
    assert(v@.take(v.len() as int) =~= v@);
    pop_dashes(&mut out);
    if out.len() > MAX_SLUG_LEN {
        out.truncate(MAX_SLUG_LEN);
        pop_dashes(&mut out);
    }
    proof {
        law_slug_shape(input@);
    }
    string_of(&out)
}

} // verus!
