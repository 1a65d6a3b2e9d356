//! Character classes, string scanning and splitting over `Seq<char>`, with
//! executable counterparts that work on `Vec<char>`.
use vstd::prelude::*;

verus! {

// ---------------------------------------------------------------------
// Character classes
// ---------------------------------------------------------------------

pub open spec fn is_digit(c: char) -> bool {
    '0' <= c && c <= '9'
}

pub open spec fn is_upper(c: char) -> bool {
    'A' <= c && c <= 'Z'
}

pub open spec fn is_lower(c: char) -> bool {
    'a' <= c && c <= 'z'
}

pub open spec fn is_alnum(c: char) -> bool {
    is_digit(c) || is_upper(c) || is_lower(c)
}

/// ASCII lowercase: `A..=Z` map to `a..=z`, every other char is unchanged.
pub open spec fn lower(c: char) -> char {
    if is_upper(c) {
        ((c as u32) + 32) as char
    } else {
        c
    }
}

/// Unicode `White_Space`, the property that `char::is_whitespace` tests.
pub open spec fn is_ws(c: char) -> bool {
    ||| c == '\t'
    ||| c == '\n'
    ||| c == '\x0B'
    ||| c == '\x0C'
    ||| c == '\r'
    ||| c == ' '
    ||| c == '\u{85}'
    ||| c == '\u{A0}'
    ||| c == '\u{1680}'
    ||| ('\u{2000}' <= c && c <= '\u{200A}')
    ||| c == '\u{2028}'
    ||| c == '\u{2029}'
    ||| c == '\u{202F}'
    ||| c == '\u{205F}'
    ||| c == '\u{3000}'
}

pub fn digit(c: char) -> (r: bool)
    ensures
        r == is_digit(c),
{
    '0' <= c && c <= '9'
}

pub fn upper(c: char) -> (r: bool)
    ensures
        r == is_upper(c),
{
    'A' <= c && c <= 'Z'
}

pub fn alnum(c: char) -> (r: bool)
    ensures
        r == is_alnum(c),
{
    ('0' <= c && c <= '9') || ('A' <= c && c <= 'Z') || ('a' <= c && c <= 'z')
}

pub fn to_lower(c: char) -> (r: char)
    ensures
        r == lower(c),
{
    if 'A' <= c && c <= 'Z' {
        let u: u8 = (c as u8) + 32;
        u as char
    } else {
        c
    }
}

pub fn whitespace(c: char) -> (r: bool)
    ensures
        r == is_ws(c),
{
    c == '\t' || c == '\n' || c == '\x0B' || c == '\x0C' || c == '\r' || c == ' ' || c
        == '\u{85}' || c == '\u{A0}' || c == '\u{1680}' || ('\u{2000}' <= c && c <= '\u{200A}')
        || c == '\u{2028}' || c == '\u{2029}' || c == '\u{202F}' || c == '\u{205F}' || c
        == '\u{3000}'
}

// ---------------------------------------------------------------------
// Sequence predicates
// ---------------------------------------------------------------------

pub open spec fn no_ws(s: Seq<char>) -> bool {
    forall|i: int| 0 <= i < s.len() ==> !is_ws(#[trigger] s[i])
}

pub open spec fn all_digits(s: Seq<char>) -> bool {
    forall|i: int| 0 <= i < s.len() ==> is_digit(#[trigger] s[i])
}

pub open spec fn lower_seq(s: Seq<char>) -> Seq<char> {
    Seq::new(s.len(), |i: int| lower(s[i]))
}

pub open spec fn starts_with(s: Seq<char>, p: Seq<char>) -> bool {
    p.len() <= s.len() && s.take(p.len() as int) == p
}

pub open spec fn ends_with_char(s: Seq<char>, c: char) -> bool {
    s.len() > 0 && s.last() == c
}

/// `s` contains `t` as a contiguous piece (`str::contains` with a string pattern).
pub open spec fn contains_seq(s: Seq<char>, t: Seq<char>) -> bool {
    exists|i: int| 0 <= i && i + t.len() <= s.len() && #[trigger] s.subrange(i, i + t.len()) == t
}

/// `str::replace`: every non-overlapping occurrence of `pat`, from the left,
/// replaced by `rep`.
pub open spec fn replace_all(s: Seq<char>, pat: Seq<char>, rep: Seq<char>) -> Seq<char>
    decreases s.len(),
{
    if s.len() == 0 {
        Seq::empty()
    } else if pat.len() > 0 && starts_with(s, pat) {
        rep + replace_all(s.skip(pat.len() as int), pat, rep)
    } else {
        seq![s[0]] + replace_all(s.drop_first(), pat, rep)
    }
}

/// Two dots in a row somewhere in `s`.
pub open spec fn has_double_dot(s: Seq<char>) -> bool {
    exists|i: int| 0 <= i && i + 1 < s.len() && #[trigger] s[i] == '.' && s[i + 1] == '.'
}

/// `s` with `p` removed from its front, when it starts with `p`.
pub open spec fn strip_prefix(s: Seq<char>, p: Seq<char>) -> Option<Seq<char>> {
    if starts_with(s, p) {
        Some(s.skip(p.len() as int))
    } else {
        None
    }
}

/// Position of the first `c` in `s`, or `s.len()` when there is none.
pub open spec fn index_of(s: Seq<char>, c: char) -> nat
    decreases s.len(),
{
    if s.len() == 0 {
        0
    } else if s[0] == c {
        0
    } else {
        1 + index_of(s.drop_first(), c)
    }
}

pub proof fn lemma_index_of(s: Seq<char>, c: char)
    ensures
        index_of(s, c) <= s.len(),
        index_of(s, c) < s.len() ==> s[index_of(s, c) as int] == c,
        forall|j: int| 0 <= j < index_of(s, c) ==> s[j] != c,
        index_of(s, c) == s.len() <==> !s.contains(c),
    decreases s.len(),
{
    if s.len() > 0 && s[0] != c {
        lemma_index_of(s.drop_first(), c);
        assert forall|j: int| 0 <= j < index_of(s, c) implies s[j] != c by {
            if j > 0 {
                assert(s[j] == s.drop_first()[j - 1]);
            }
        }
        if s.contains(c) {
            let k = choose|k: int| 0 <= k < s.len() && s[k] == c;
            assert(s.drop_first()[k - 1] == c);
        }
        if s.drop_first().contains(c) {
            let k = choose|k: int| 0 <= k < s.drop_first().len() && s.drop_first()[k] == c;
            assert(s[k + 1] == c);
        }
    }
    if s.len() > 0 && s[0] == c {
        assert(s.contains(c));
    }
}

/// Characterisation of `index_of` by its defining property.
pub proof fn lemma_index_of_unique(s: Seq<char>, c: char, i: int)
    requires
        0 <= i <= s.len(),
        i < s.len() ==> s[i] == c,
        forall|j: int| 0 <= j < i ==> s[j] != c,
    ensures
        index_of(s, c) == i,
{
    lemma_index_of(s, c);
    if i < s.len() {
        assert(s.contains(c));
    } else {
        assert(!s.contains(c));
    }
}

/// `str::split_once` on a char separator.
pub open spec fn split_once(s: Seq<char>, c: char) -> Option<(Seq<char>, Seq<char>)> {
    let i = index_of(s, c) as int;
    if i < s.len() {
        Some((s.take(i), s.skip(i + 1)))
    } else {
        None
    }
}

/// `str::split` on a char separator: always at least one piece.
pub open spec fn split_char(s: Seq<char>, c: char) -> Seq<Seq<char>>
    decreases s.len(),
{
    let i = index_of(s, c) as int;
    if i < s.len() {
        seq![s.take(i)] + split_char(s.skip(i + 1), c)
    } else {
        seq![s]
    }
}

pub proof fn lemma_split_nonempty(s: Seq<char>, c: char)
    ensures
        split_char(s, c).len() > 0,
    decreases s.len(),
{
    lemma_index_of(s, c);
    let i = index_of(s, c) as int;
    if i < s.len() {
        lemma_split_nonempty(s.skip(i + 1), c);
    }
}

/// A line without its terminating carriage return, if it has one.
pub open spec fn strip_cr(l: Seq<char>) -> Seq<char> {
    if ends_with_char(l, '\r') {
        l.drop_last()
    } else {
        l
    }
}

/// `str::lines`: split at `\n`, drop a `\r` right before it, and ignore
/// a final line ending.
pub open spec fn lines(s: Seq<char>) -> Seq<Seq<char>>
    decreases s.len(),
{
    if s.len() == 0 {
        seq![]
    } else {
        let i = index_of(s, '\n') as int;
        if i < s.len() {
            seq![strip_cr(s.take(i))] + lines(s.skip(i + 1))
        } else {
            seq![s]
        }
    }
}

/// Position of the first whitespace character in `s`, or `s.len()`.
pub open spec fn ws_index(s: Seq<char>) -> nat
    decreases s.len(),
{
    if s.len() == 0 {
        0
    } else if is_ws(s[0]) {
        0
    } else {
        1 + ws_index(s.drop_first())
    }
}

pub proof fn lemma_ws_index(s: Seq<char>)
    ensures
        ws_index(s) <= s.len(),
        ws_index(s) < s.len() ==> is_ws(s[ws_index(s) as int]),
        forall|j: int| 0 <= j < ws_index(s) ==> !is_ws(#[trigger] s[j]),
    decreases s.len(),
{
    if s.len() > 0 && !is_ws(s[0]) {
        lemma_ws_index(s.drop_first());
        assert forall|j: int| 0 <= j < ws_index(s) implies !is_ws(#[trigger] s[j]) by {
            if j > 0 {
                assert(s[j] == s.drop_first()[j - 1]);
            }
        }
    }
}

pub proof fn lemma_ws_index_unique(s: Seq<char>, i: int)
    requires
        0 <= i <= s.len(),
        i < s.len() ==> is_ws(s[i]),
        forall|j: int| 0 <= j < i ==> !is_ws(#[trigger] s[j]),
    ensures
        ws_index(s) == i,
    decreases s.len(),
{
    if s.len() > 0 && i > 0 {
        assert(!is_ws(s[0]));
        assert forall|j: int| 0 <= j < i - 1 implies !is_ws(#[trigger] s.drop_first()[j]) by {
            assert(s.drop_first()[j] == s[j + 1]);
        }
        if i < s.len() {
            assert(s.drop_first()[i - 1] == s[i]);
        }
        lemma_ws_index_unique(s.drop_first(), i - 1);
    }
}

/// `str::split_whitespace`: the maximal runs of non-whitespace characters.
pub open spec fn words(s: Seq<char>) -> Seq<Seq<char>>
    decreases s.len(),
{
    if s.len() == 0 {
        Seq::empty()
    } else if is_ws(s[0]) {
        words(s.drop_first())
    } else {
        let i = ws_index(s) as int;
        proof {
            lemma_ws_index(s);
        }
        if i <= 0 {
            Seq::empty()
        } else {
            seq![s.take(i)] + words(s.skip(i))
        }
    }
}

/// Trim `str::trim` style: whitespace removed from both ends.
/// The views of a sequence of character vectors.
pub open spec fn views(r: Seq<Vec<char>>) -> Seq<Seq<char>> {
    r.map_values(|x: Vec<char>| x@)
}

pub open spec fn trim_start(s: Seq<char>) -> Seq<char>
    decreases s.len(),
{
    if s.len() > 0 && is_ws(s[0]) {
        trim_start(s.drop_first())
    } else {
        s
    }
}

pub open spec fn trim_end(s: Seq<char>) -> Seq<char>
    decreases s.len(),
{
    if s.len() > 0 && is_ws(s.last()) {
        trim_end(s.drop_last())
    } else {
        s
    }
}

pub open spec fn trim(s: Seq<char>) -> Seq<char> {
    trim_end(trim_start(s))
}

/// Whether `s` holds a character that is not whitespace.
pub open spec fn has_non_ws(s: Seq<char>) -> bool {
    exists|i: int| 0 <= i < s.len() && !is_ws(#[trigger] s[i])
}

proof fn lemma_trim_start_blank(s: Seq<char>)
    ensures
        trim_start(s).len() == 0 <==> !has_non_ws(s),
        trim_start(s).len() > 0 ==> !is_ws(trim_start(s)[0]),
    decreases s.len(),
{
    if s.len() > 0 && is_ws(s[0]) {
        let t = s.drop_first();
        lemma_trim_start_blank(t);
        if has_non_ws(s) {
            let i = choose|i: int| 0 <= i < s.len() && !is_ws(#[trigger] s[i]);
            assert(i > 0);
            assert(t[i - 1] == s[i]);
        }
        if has_non_ws(t) {
            let i = choose|i: int| 0 <= i < t.len() && !is_ws(#[trigger] t[i]);
            assert(s[i + 1] == t[i]);
        }
    } else if s.len() > 0 {
        assert(!is_ws(s[0]));
    }
}

proof fn lemma_trim_end_blank(s: Seq<char>)
    ensures
        trim_end(s).len() == 0 <==> !has_non_ws(s),
    decreases s.len(),
{
    if s.len() > 0 && is_ws(s.last()) {
        let t = s.drop_last();
        lemma_trim_end_blank(t);
        if has_non_ws(s) {
            let i = choose|i: int| 0 <= i < s.len() && !is_ws(#[trigger] s[i]);
            assert(i < s.len() - 1);
            assert(t[i] == s[i]);
        }
        if has_non_ws(t) {
            let i = choose|i: int| 0 <= i < t.len() && !is_ws(#[trigger] t[i]);
            assert(s[i] == t[i]);
        }
    } else if s.len() > 0 {
        assert(!is_ws(s[s.len() - 1]));
    }
}

/// Trimming leaves something exactly when the text holds a character that
/// is not whitespace.
pub proof fn law_trim_nonempty(s: Seq<char>)
    ensures
        (trim(s).len() > 0) == (exists|i: int| 0 <= i < s.len() && !is_ws(#[trigger] s[i])),
{
    lemma_trim_start_blank(s);
    let u = trim_start(s);
    lemma_trim_end_blank(u);
    if u.len() > 0 {
        assert(!is_ws(u[0]));
        assert(has_non_ws(u));
    }
}

// ---------------------------------------------------------------------
// Decimal numbers (`u32::from_str`)
// ---------------------------------------------------------------------

pub open spec fn digit_value(c: char) -> nat {
    ((c as u32) - ('0' as u32)) as nat
}

pub open spec fn digits_value(s: Seq<char>) -> nat
    decreases s.len(),
{
    if s.len() == 0 {
        0
    } else {
        digits_value(s.drop_last()) * 10 + digit_value(s.last())
    }
}

/// `u32::from_str`: an optional `+`, then one or more decimal digits whose
/// value fits in a `u32`.
pub open spec fn parse_u32_spec(s: Seq<char>) -> Option<u32> {
    let d = if s.len() > 0 && s[0] == '+' {
        s.drop_first()
    } else {
        s
    };
    if d.len() == 0 || !all_digits(d) || digits_value(d) > u32::MAX {
        None
    } else {
        Some(digits_value(d) as u32)
    }
}

proof fn lemma_digits_value_prefix_le(s: Seq<char>, k: int)
    requires
        0 <= k <= s.len(),
        all_digits(s),
    ensures
        digits_value(s.take(k)) <= digits_value(s),
    decreases s.len(),
{
    if k < s.len() {
        assert(s.drop_last().take(k) =~= s.take(k));
        lemma_digits_value_prefix_le(s.drop_last(), k);
        assert(all_digits(s.drop_last())) by {
            assert forall|i: int| 0 <= i < s.drop_last().len() implies is_digit(
                #[trigger] s.drop_last()[i],
            ) by {
                assert(s.drop_last()[i] == s[i]);
            }
        }
    } else {
        assert(s.take(k) =~= s);
    }
}

// ---------------------------------------------------------------------
// Conversions between strings and character vectors
// ---------------------------------------------------------------------

/// The characters of `s`, in order.
pub fn chars_of(s: &str) -> (v: Vec<char>)
    ensures
        v@ == s@,
{
    let n = s.unicode_len();
    let mut v: Vec<char> = Vec::new();
    let mut i: usize = 0;
    while i < n
        invariant
            n == s@.len(),
            i <= n,
            v@ == s@.take(i as int),
        decreases n - i,
    {
        let c = s.get_char(i);
        v.push(c);
        assert(s@.take(i as int + 1) =~= s@.take(i as int).push(c));
        i = i + 1;
    }
    assert(s@.take(n as int) =~= s@);
    v
}

/// A `String` holding exactly the characters of `v`.
pub fn string_of(v: &Vec<char>) -> (s: String)
    ensures
        s@ == v@,
{
    let mut s = String::new();
    let mut i: usize = 0;
    while i < v.len()
        invariant
            i <= v@.len(),
            s@ == v@.take(i as int),
        decreases v@.len() - i,
    {
        push_char(&mut s, v[i]);
        assert(v@.take(i as int + 1) =~= v@.take(i as int).push(v@[i as int]));
        i = i + 1;
    }
    assert(v@.take(v@.len() as int) =~= v@);
    s
}

/// The characters `v[from..to]` as a vector.
pub fn slice_vec(v: &Vec<char>, from: usize, to: usize) -> (r: Vec<char>)
    requires
        from <= to <= v.len(),
    ensures
        r@ == v@.subrange(from as int, to as int),
{
    let mut r: Vec<char> = Vec::new();
    let mut i = from;
    while i < to
        invariant
            from <= i <= to <= v.len(),
            r@ == v@.subrange(from as int, i as int),
        decreases to - i,
    {
        r.push(v[i]);
        assert(v@.subrange(from as int, i as int + 1) =~= v@.subrange(from as int, i as int).push(
            v@[i as int],
        ));
        i = i + 1;
    }
    r
}

/// Append all of `w` to `v`.
pub fn extend_chars(v: &mut Vec<char>, w: &Vec<char>)
    ensures
        final(v)@ == old(v)@ + w@,
{
    let mut i: usize = 0;
    while i < w.len()
        invariant
            i <= w.len(),
            v@ == old(v)@ + w@.take(i as int),
        decreases w.len() - i,
    {
        v.push(w[i]);
        assert(w@.take(i as int + 1) =~= w@.take(i as int).push(w@[i as int]));
        i = i + 1;
    }
    assert(w@.take(w.len() as int) =~= w@);
}

pub fn extend_str(v: &mut Vec<char>, s: &str)
    ensures
        final(v)@ == old(v)@ + s@,
{
    let w = chars_of(s);
    extend_chars(v, &w);
}

// ---------------------------------------------------------------------
// Scanning
// ---------------------------------------------------------------------

pub fn contains_char(v: &Vec<char>, c: char) -> (r: bool)
    ensures
        r == v@.contains(c),
{
    let mut i: usize = 0;
    while i < v.len()
        invariant
            i <= v.len(),
            forall|j: int| 0 <= j < i ==> v@[j] != c,
        decreases v.len() - i,
    {
        if v[i] == c {
            assert(v@[i as int] == c);
            return true;
        }
        i = i + 1;
    }
    false
}

/// Position of the first `c` at or after `from`, or `v.len()`.
pub fn find_from(v: &Vec<char>, c: char, from: usize) -> (r: usize)
    requires
        from <= v.len(),
    ensures
        r == from + index_of(v@.skip(from as int), c),
        from <= r <= v.len(),
{
    let mut i = from;
    while i < v.len() && v[i] != c
        invariant
            from <= i <= v.len(),
            forall|j: int| from <= j < i ==> v@[j] != c,
        decreases v.len() - i,
    {
        i = i + 1;
    }
    proof {
        let t = v@.skip(from as int);
        assert forall|j: int| 0 <= j < i - from implies t[j] != c by {
            assert(t[j] == v@[from + j]);
        }
        lemma_index_of_unique(t, c, i - from);
    }
    i
}

pub fn index_of_char(v: &Vec<char>, c: char) -> (r: usize)
    ensures
        r == index_of(v@, c),
{
    let r = find_from(v, c, 0);
    assert(v@.skip(0) =~= v@);
    r
}

pub fn has_no_ws(v: &Vec<char>) -> (r: bool)
    ensures
        r == no_ws(v@),
{
    let mut i: usize = 0;
    while i < v.len()
        invariant
            i <= v.len(),
            forall|j: int| 0 <= j < i ==> !is_ws(v@[j]),
        decreases v.len() - i,
    {
        if whitespace(v[i]) {
            return false;
        }
        i = i + 1;
    }
    true
}

pub fn seq_eq(v: &Vec<char>, w: &Vec<char>) -> (r: bool)
    ensures
        r == (v@ == w@),
{
    if v.len() != w.len() {
        return false;
    }
    let mut i: usize = 0;
    while i < v.len()
        invariant
            v.len() == w.len(),
            i <= v.len(),
            forall|j: int| 0 <= j < i ==> v@[j] == w@[j],
        decreases v.len() - i,
    {
        if v[i] != w[i] {
            return false;
        }
        i = i + 1;
    }
    assert(v@ =~= w@);
    true
}

pub fn str_eq(s: &str, t: &str) -> (r: bool)
    ensures
        r == (s@ == t@),
{
    let v = chars_of(s);
    let w = chars_of(t);
    seq_eq(&v, &w)
}

/// Does `v` start with `p`?
pub fn vec_starts_with(v: &Vec<char>, p: &Vec<char>) -> (r: bool)
    ensures
        r == starts_with(v@, p@),
{
    if p.len() > v.len() {
        return false;
    }
    let mut i: usize = 0;
    while i < p.len()
        invariant
            p.len() <= v.len(),
            i <= p.len(),
            forall|j: int| 0 <= j < i ==> v@[j] == p@[j],
        decreases p.len() - i,
    {
        if v[i] != p[i] {
            assert(v@.take(p.len() as int)[i as int] != p@[i as int]);
            return false;
        }
        i = i + 1;
    }
    assert(v@.take(p.len() as int) =~= p@);
    true
}

/// Split `v` into its lines, as `str::lines` does.
pub fn split_lines(v: &Vec<char>) -> (r: Vec<Vec<char>>)
    ensures
        views(r@) == lines(v@),
{
    let mut out: Vec<Vec<char>> = Vec::new();
    let mut pos: usize = 0;
    assert(v@.skip(0) =~= v@);
    assert(views(out@) =~= Seq::<Seq<char>>::empty());
    while pos < v.len()
        invariant
            pos <= v.len(),
            lines(v@) == views(out@) + lines(v@.skip(pos as int)),
        decreases v.len() - pos,
    {
        let ghost rest = v@.skip(pos as int);
        let nl = find_from(v, '\n', pos);
        let end = if nl > pos && v[nl - 1] == '\r' && nl < v.len() {
            nl - 1
        } else {
            nl
        };
        let line = slice_vec(v, pos, end);
        proof {
            let i = index_of(rest, '\n') as int;
            assert(rest.len() > 0);
            if i < rest.len() {
                assert(rest.take(i) =~= v@.subrange(pos as int, nl as int));
                assert(rest.skip(i + 1) =~= v@.skip(nl as int + 1));
                if ends_with_char(rest.take(i), '\r') {
                    assert(rest.take(i).drop_last() =~= line@);
                } else {
                    assert(rest.take(i) =~= line@);
                }
            } else {
                assert(rest =~= line@);
            }
        }
        let ghost before = views(out@);
        out.push(line);
        assert(views(out@) =~= before.push(line@));
        if nl < v.len() {
            pos = nl + 1;
        } else {
            pos = v.len();
            assert(lines(v@.skip(pos as int)) =~= Seq::<Seq<char>>::empty()) by {
                assert(v@.skip(pos as int).len() == 0);
            }
        }
        assert(lines(v@) =~= views(out@) + lines(v@.skip(pos as int)));
    }
    assert(v@.skip(pos as int).len() == 0);
    assert(views(out@) + Seq::<Seq<char>>::empty() =~= views(out@));
    out
}

/// Split `v` at every `c`, as `str::split` does.
pub fn split_at_char(v: &Vec<char>, c: char) -> (r: Vec<Vec<char>>)
    ensures
        views(r@) == split_char(v@, c),
{
    let mut out: Vec<Vec<char>> = Vec::new();
    let mut pos: usize = 0;
    assert(v@.skip(0) =~= v@);
    assert(views(out@) =~= Seq::<Seq<char>>::empty());
    loop
        invariant
            pos <= v.len(),
            split_char(v@, c) == views(out@) + split_char(v@.skip(pos as int), c),
        decreases v.len() - pos,
    {
        let ghost rest = v@.skip(pos as int);
        let sep = find_from(v, c, pos);
        let piece = slice_vec(v, pos, sep);
        let ghost before = views(out@);
        out.push(piece);
        assert(views(out@) =~= before.push(piece@));
        if sep < v.len() {
            proof {
                let i = index_of(rest, c) as int;
                assert(rest.take(i) =~= piece@);
                assert(rest.skip(i + 1) =~= v@.skip(sep as int + 1));
                assert(split_char(v@, c) =~= views(out@) + split_char(
                    v@.skip(sep as int + 1),
                    c,
                ));
            }
            pos = sep + 1;
        } else {
            proof {
                assert(rest =~= piece@);
                assert(split_char(v@, c) =~= views(out@));
            }
            return out;
        }
    }
}

/// `str::trim`.
pub fn trim_vec(v: &Vec<char>) -> (r: Vec<char>)
    ensures
        r@ == trim(v@),
{
    let mut lo: usize = 0;
    assert(v@.skip(0) =~= v@);
    while lo < v.len() && whitespace(v[lo])
        invariant
            lo <= v.len(),
            trim_start(v@) == trim_start(v@.skip(lo as int)),
        decreases v.len() - lo,
    {
        assert(v@.skip(lo as int).drop_first() =~= v@.skip(lo as int + 1));
        lo = lo + 1;
    }
    assert(trim_start(v@.skip(lo as int)) == v@.skip(lo as int));
    let mut hi: usize = v.len();
    while hi > lo && whitespace(v[hi - 1])
        invariant
            lo <= hi <= v.len(),
            trim(v@) == trim_end(v@.subrange(lo as int, hi as int)),
        decreases hi,
    {
        assert(v@.subrange(lo as int, hi as int).drop_last() =~= v@.subrange(
            lo as int,
            hi as int - 1,
        ));
        hi = hi - 1;
    }
    let r = slice_vec(v, lo, hi);
    assert(trim_end(r@) == r@);
    r
}

/// `u32::from_str(..).ok()`.
pub fn parse_u32(v: &Vec<char>) -> (r: Option<u32>)
    ensures
        r == parse_u32_spec(v@),
{
    let start: usize = if v.len() > 0 && v[0] == '+' {
        1
    } else {
        0
    };
    let ghost d = v@.skip(start as int);
    assert(d =~= (if v@.len() > 0 && v@[0] == '+' {
        v@.drop_first()
    } else {
        v@
    }));
    if start == v.len() {
        return None;
    }
    let mut acc: u64 = 0;
    let mut i = start;
    while i < v.len()
        invariant
            start <= i <= v.len(),
            d == v@.skip(start as int),
            d == (if v@.len() > 0 && v@[0] == '+' {
                v@.drop_first()
            } else {
                v@
            }),
            d.len() > 0,
            all_digits(v@.subrange(start as int, i as int)),
            acc == digits_value(v@.subrange(start as int, i as int)),
            acc <= u32::MAX,
        decreases v.len() - i,
    {
        let c = v[i];
        if !digit(c) {
            assert(d[i - start] == c);
            return None;
        }
        let dv: u64 = (c as u32 - '0' as u32) as u64;
        proof {
            let p = v@.subrange(start as int, i as int + 1);
            assert(p.drop_last() =~= v@.subrange(start as int, i as int));
            assert(p.last() == c);
            assert(all_digits(p)) by {
                assert forall|k: int| 0 <= k < p.len() implies is_digit(#[trigger] p[k]) by {
                    if k < p.len() - 1 {
                        assert(p[k] == v@.subrange(start as int, i as int)[k]);
                    }
                }
            }
        }
        acc = acc * 10 + dv;
        if acc > 0xFFFF_FFFFu64 {
            proof {
                let p = v@.subrange(start as int, i as int + 1);
                if all_digits(d) {
                    assert(d.take(i + 1 - start) =~= p);
                    lemma_digits_value_prefix_le(d, i + 1 - start);
                }
            }
            return None;
        }
        i = i + 1;
    }
    assert(v@.subrange(start as int, v.len() as int) =~= d);
    Some(acc as u32)
}

} // verus!

verus! {

/// The characters of `s`, ASCII-lowercased (`str::to_ascii_lowercase`).
pub fn lowered(s: &str) -> (r: Vec<char>)
    ensures
        r@ == lower_seq(s@),
{
    let v = chars_of(s);
    let mut out: Vec<char> = Vec::new();
    let mut i: usize = 0;
    while i < v.len()
        invariant
            i <= v.len(),
            v@ == s@,
            out@ == lower_seq(v@.take(i as int)),
        decreases v.len() - i,
    {
        out.push(to_lower(v[i]));
        assert(lower_seq(v@.take(i as int + 1)) =~= lower_seq(v@.take(i as int)).push(
            lower(v@[i as int]),
        ));
        i = i + 1;
    }
    assert(v@.take(v.len() as int) =~= v@);
    out
}

/// `str::split_whitespace`.
pub fn split_words(v: &Vec<char>) -> (r: Vec<Vec<char>>)
    ensures
        views(r@) == words(v@),
{
    let mut out: Vec<Vec<char>> = Vec::new();
    let mut pos: usize = 0;
    assert(v@.skip(0) =~= v@);
    assert(views(out@) =~= Seq::<Seq<char>>::empty());
    while pos < v.len()
        invariant
            pos <= v.len(),
            words(v@) == views(out@) + words(v@.skip(pos as int)),
        decreases v.len() - pos,
    {
        let ghost rest = v@.skip(pos as int);
        if whitespace(v[pos]) {
            assert(rest.drop_first() =~= v@.skip(pos + 1));
            pos = pos + 1;
        } else {
            let mut end = pos;
            while end < v.len() && !whitespace(v[end])
                invariant
                    pos <= end <= v.len(),
                    forall|j: int| pos <= j < end ==> !is_ws(#[trigger] v@[j]),
                decreases v.len() - end,
            {
                end = end + 1;
            }
            proof {
                assert forall|j: int| 0 <= j < end - pos implies !is_ws(#[trigger] rest[j]) by {
                    assert(rest[j] == v@[pos + j]);
                }
                if end < v.len() {
                    assert(rest[end - pos] == v@[end as int]);
                }
                lemma_ws_index_unique(rest, end - pos);
                assert(rest.take(end - pos) =~= v@.subrange(pos as int, end as int));
                assert(rest.skip(end - pos) =~= v@.skip(end as int));
            }
            let w = slice_vec(v, pos, end);
            let ghost before = views(out@);
            out.push(w);
            assert(views(out@) =~= before.push(w@));
            assert(words(v@) =~= views(out@) + words(v@.skip(end as int)));
            pos = end;
        }
    }
    assert(v@.skip(pos as int).len() == 0);
    assert(views(out@) + Seq::<Seq<char>>::empty() =~= views(out@));
    out
}

/// `String::push`.
#[verifier::external_body]
pub(crate) fn push_char(s: &mut String, c: char)
    ensures
        final(s)@ == old(s)@.push(c),
{
    s.push(c)
}

/// `String::pop`: the last character, taken off.
#[verifier::external_body]
pub(crate) fn pop_char(s: &mut String) -> (r: Option<char>)
    ensures
        old(s)@.len() == 0 ==> r is None && final(s)@ == old(s)@,
        old(s)@.len() > 0 ==> r == Some(old(s)@.last()) && final(s)@ == old(s)@.drop_last(),
{
    s.pop()
}

/// Does `v` hold `p` at position `i`?
pub fn occurs_at(v: &Vec<char>, p: &Vec<char>, i: usize) -> (r: bool)
    requires
        i <= v.len(),
    ensures
        r == (i + p.len() <= v.len() && v@.subrange(i as int, i + p.len()) == p@),
{
    if p.len() > v.len() - i {
        return false;
    }
    let mut j: usize = 0;
    while j < p.len()
        invariant
            i + p.len() <= v.len(),
            j <= p.len(),
            forall|k: int| 0 <= k < j ==> v@[i + k] == p@[k],
        decreases p.len() - j,
    {
        if v[i + j] != p[j] {
            assert(v@.subrange(i as int, i + p.len())[j as int] != p@[j as int]);
            return false;
        }
        j = j + 1;
    }
    assert(v@.subrange(i as int, i + p.len()) =~= p@);
    true
}

/// `str::contains` with a string pattern.
pub fn contains_vec(v: &Vec<char>, p: &Vec<char>) -> (r: bool)
    ensures
        r == contains_seq(v@, p@),
{
    let mut i: usize = 0;
    loop
        invariant
            i <= v.len(),
            forall|k: int|
                0 <= k < i && k + p.len() <= v.len() ==> #[trigger] v@.subrange(k, k + p.len())
                    != p@,
        decreases v.len() - i,
    {
        if occurs_at(v, p, i) {
            return true;
        }
        if i == v.len() {
            assert forall|k: int|
                0 <= k && k + p.len() <= v.len() implies #[trigger] v@.subrange(k, k + p.len())
                != p@ by {
                if k == i as int {
                } else {
                    assert(k < i);
                }
            }
            return false;
        }
        i = i + 1;
    }
}

/// `str::replace`.
pub fn replace_vec(v: &Vec<char>, pat: &Vec<char>, rep: &Vec<char>) -> (r: Vec<char>)
    ensures
        r@ == replace_all(v@, pat@, rep@),
{
    let mut out: Vec<char> = Vec::new();
    let mut i: usize = 0;
    assert(v@.skip(0) =~= v@);
    while i < v.len()
        invariant
            i <= v.len(),
            replace_all(v@, pat@, rep@) == out@ + replace_all(v@.skip(i as int), pat@, rep@),
        decreases v.len() - i,
    {
        let ghost rest = v@.skip(i as int);
        if pat.len() > 0 && occurs_at(v, pat, i) {
            proof {
                assert(rest.take(pat@.len() as int) =~= v@.subrange(i as int, i + pat@.len()));
                assert(rest.skip(pat@.len() as int) =~= v@.skip(i + pat@.len()));
            }
            let ghost before = out@;
            extend_chars(&mut out, rep);
            assert(before + (rep@ + replace_all(v@.skip(i + pat@.len()), pat@, rep@)) =~= out@
                + replace_all(v@.skip(i + pat@.len()), pat@, rep@));
            i = i + pat.len();
        } else {
            proof {
                if pat.len() > 0 && starts_with(rest, pat@) {
                    assert(rest.take(pat@.len() as int) =~= v@.subrange(i as int, i + pat@.len()));
                }
                assert(rest.drop_first() =~= v@.skip(i + 1));
            }
            let ghost before = out@;
            out.push(v[i]);
            assert(before + (seq![rest[0]] + replace_all(v@.skip(i + 1), pat@, rep@)) =~= out@
                + replace_all(v@.skip(i + 1), pat@, rep@));
            i = i + 1;
        }
    }
    assert(out@ + replace_all(v@.skip(i as int), pat@, rep@) =~= out@);
    out
}

} // verus!

verus! {

/// The decimal digit for `d < 10`.
pub open spec fn digit_char(d: nat) -> char {
    ((d + 48) as u32) as char
}

/// `n` in decimal, as `u64::to_string` writes it.
pub open spec fn decimal(n: nat) -> Seq<char>
    decreases n,
{
    if n < 10 {
        seq![digit_char(n)]
    } else {
        decimal(n / 10).push(digit_char(n % 10))
    }
}

/// `n` in decimal.
pub fn decimal_chars(n: u64) -> (r: Vec<char>)
    ensures
        r@ == decimal(n as nat),
{
    let mut rev: Vec<char> = Vec::new();
    let mut m = n;
    let ghost mut tail: Seq<char> = Seq::empty();
    while m >= 10
        invariant
            decimal(n as nat) == decimal(m as nat) + tail,
            tail == rev@.reverse(),
        decreases m,
    {
        let d: u8 = (m % 10) as u8;
        let c: char = (d + 48) as char;
        assert(c == digit_char((m % 10) as nat));
        rev.push(c);
        proof {
            assert(decimal(m as nat) == decimal((m / 10) as nat).push(c));
            assert(decimal(m as nat) + tail =~= decimal((m / 10) as nat) + (seq![c] + tail));
            tail = seq![c] + tail;
            assert(rev@.reverse() =~= tail);
        }
        m = m / 10;
    }
    let d: u8 = m as u8;
    let c: char = (d + 48) as char;
    rev.push(c);
    proof {
        assert(decimal(m as nat) == seq![c]);
        tail = seq![c] + tail;
        assert(rev@.reverse() =~= tail);
        assert(decimal(n as nat) =~= tail);
    }
    let mut out: Vec<char> = Vec::new();
    let mut i = rev.len();
    while i > 0
        invariant
            i <= rev@.len(),
            out@ == rev@.subrange(i as int, rev@.len() as int).reverse(),
        decreases i,
    {
        i = i - 1;
        out.push(rev[i]);
        assert(rev@.subrange(i as int, rev@.len() as int).reverse() =~= rev@.subrange(
            i + 1,
            rev@.len() as int,
        ).reverse().push(rev@[i as int]));
    }
    assert(rev@.subrange(0, rev@.len() as int) =~= rev@);
    out
}

/// `a` sorts strictly before `b` as `str` values do: code point by code
/// point, a proper prefix first.
pub open spec fn text_lt(a: Seq<char>, b: Seq<char>) -> bool
    decreases a.len(),
{
    if a.len() == 0 {
        b.len() > 0
    } else if b.len() == 0 {
        false
    } else if a[0] != b[0] {
        (a[0] as u32) < (b[0] as u32)
    } else {
        text_lt(a.drop_first(), b.drop_first())
    }
}

/// The order of text is transitive.
pub proof fn lemma_text_lt_transitive(a: Seq<char>, b: Seq<char>, c: Seq<char>)
    requires
        text_lt(a, b),
        text_lt(b, c),
    ensures
        text_lt(a, c),
    decreases a.len(),
{
    if a.len() > 0 && b.len() > 0 && c.len() > 0 && a[0] == b[0] && b[0] == c[0] {
        lemma_text_lt_transitive(a.drop_first(), b.drop_first(), c.drop_first());
    }
}

/// No text sorts before itself.
pub proof fn lemma_text_lt_irreflexive(a: Seq<char>)
    ensures
        !text_lt(a, a),
    decreases a.len(),
{
    if a.len() > 0 {
        lemma_text_lt_irreflexive(a.drop_first());
    }
}

/// Whether `a` sorts strictly before `b`.
pub fn text_less(a: &Vec<char>, b: &Vec<char>) -> (r: bool)
    ensures
        r == text_lt(a@, b@),
{
    let mut i: usize = 0;
    assert(a@.skip(0) =~= a@);
    assert(b@.skip(0) =~= b@);
    while i < a.len() && i < b.len()
        invariant
            i <= a@.len(),
            i <= b@.len(),
            text_lt(a@, b@) == text_lt(a@.skip(i as int), b@.skip(i as int)),
        decreases a@.len() - i,
    {
        assert(a@.skip(i as int)[0] == a@[i as int]);
        assert(b@.skip(i as int)[0] == b@[i as int]);
        if a[i] != b[i] {
            let x: u32 = a[i] as u32;
            let y: u32 = b[i] as u32;
            return x < y;
        }
        assert(a@.skip(i as int).drop_first() =~= a@.skip(i as int + 1));
        assert(b@.skip(i as int).drop_first() =~= b@.skip(i as int + 1));
        i = i + 1;
    }
    a.len() < b.len()
}

/// `s` followed by spaces up to `width` characters, as `format!("{:<width$}")`
/// lays it out; text at least that long is left as it is.
pub open spec fn padded(s: Seq<char>, width: nat) -> Seq<char> {
    if s.len() >= width {
        s
    } else {
        s + Seq::new((width - s.len()) as nat, |i: int| ' ')
    }
}

/// `s` left-aligned in a field of `width` characters.
pub fn pad_right(s: &str, width: usize) -> (r: String)
    ensures
        r@ == padded(s@, width as nat),
{
    let mut v = chars_of(s);
    let ghost orig = v@;
    while v.len() < width
        invariant
            orig.len() <= v@.len() <= if orig.len() >= width { orig.len() } else { width as nat },
            v@.subrange(0, orig.len() as int) == orig,
            forall|i: int| orig.len() <= i < v@.len() ==> v@[i] == ' ',
        decreases width - v@.len(),
    {
        v.push(' ');
    }
    assert(v@ =~= padded(orig, width as nat));
    string_of(&v)
}

pub proof fn lemma_decimal_digits(n: nat)
    ensures
        decimal(n).len() > 0,
        all_digits(decimal(n)),
        digits_value(decimal(n)) == n,
    decreases n,
{
    if n < 10 {
        assert(digit_value(digit_char(n)) == n);
        assert(decimal(n).drop_last() =~= Seq::<char>::empty());
        assert(digits_value(Seq::<char>::empty()) == 0);
        assert(digits_value(decimal(n)) == n);
    } else {
        lemma_decimal_digits(n / 10);
        let d = decimal(n / 10);
        let c = digit_char(n % 10);
        assert(digit_value(c) == n % 10);
        assert(decimal(n).drop_last() =~= d);
        assert(decimal(n).last() == c);
        assert(digits_value(decimal(n)) == digits_value(d) * 10 + digit_value(c));
        assert((n / 10) * 10 + n % 10 == n) by (nonlinear_arith);
        assert(digits_value(decimal(n)) == n);
        assert(forall|i: int| 0 <= i < decimal(n).len() ==> is_digit(#[trigger] decimal(n)[i])) by {
            assert forall|i: int| 0 <= i < decimal(n).len() implies is_digit(#[trigger] decimal(n)[i]) by {
                if i < d.len() {
                    assert(decimal(n)[i] == d[i]);
                }
            }
        }
    }
}

/// Reading back a number written in decimal gives the number.
pub proof fn law_decimal_parses_back(n: u32)
    ensures
        parse_u32_spec(decimal(n as nat)) == Some(n),
{
    lemma_decimal_digits(n as nat);
    let d = decimal(n as nat);
    assert(d[0] != '+') by {
        assert(is_digit(d[0]));
    }
}

/// Splitting at `c` a text that starts with a piece free of `c` gives that
/// piece first, then the pieces of the rest.
pub proof fn lemma_split_first(a: Seq<char>, c: char, b: Seq<char>)
    requires
        !a.contains(c),
    ensures
        split_char(a + seq![c] + b, c) == seq![a] + split_char(b, c),
{
    let s = a + seq![c] + b;
    assert(forall|j: int| 0 <= j < a.len() ==> s[j] != c) by {
        assert forall|j: int| 0 <= j < a.len() implies s[j] != c by {
            assert(s[j] == a[j]);
        }
    }
    lemma_index_of_unique(s, c, a.len() as int);
    assert(s.take(a.len() as int) =~= a);
    assert(s.skip(a.len() as int + 1) =~= b);
}

/// A text free of `c` splits into itself alone.
pub proof fn lemma_split_none(a: Seq<char>, c: char)
    requires
        !a.contains(c),
    ensures
        split_char(a, c) == seq![a],
{
    lemma_index_of_unique(a, c, a.len() as int);
}

} // verus!
