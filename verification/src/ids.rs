//! Validated identifiers: Jira ticket keys, `owner/repo` names, git branch
//! names and tmux session names.
use vstd::prelude::*;

use crate::text::{
    all_digits, chars_of, contains_char, extend_str, string_of, digit, has_double_dot, has_no_ws, index_of, index_of_char,
    is_digit, is_upper, lemma_index_of, no_ws, slice_vec, split_once, upper,
};

verus! {

/// Why a string was refused as an identifier.
#[derive(Debug)]
pub enum IdError {
    InvalidTicketKey(String),
    InvalidRepoFullName(String),
    InvalidBranchName,
    InvalidSessionName,
}

/// `Debug` formatting of a string: the text in double quotes with escapes,
/// as `format!("{:?}", s)` gives it.
pub uninterp spec fn debug_str(s: Seq<char>) -> Seq<char>;

/// `format!("{s:?}")`.
#[verifier::external_body]
fn debug_quoted(s: &str) -> (r: String)
    ensures
        r@ == debug_str(s@),
{
    format!("{s:?}")
}

/// The message shown for each kind of refusal.
pub open spec fn id_error_message(e: IdError) -> Seq<char> {
    match e {
        IdError::InvalidTicketKey(s) => "ticket key must look like ABC-123, got "@ + debug_str(s@),
        IdError::InvalidRepoFullName(s) => "repo full name must be 'owner/repo', got "@ + debug_str(
            s@,
        ),
        IdError::InvalidBranchName => "branch name is empty or contains forbidden characters"@,
        IdError::InvalidSessionName => "tmux session name is empty or contains '.' / ':' / whitespace"@,
    }
}

impl IdError {
    /// The text of the error, as its `Display` shows it.
    pub fn message(&self) -> (r: String)
        ensures
            r@ == id_error_message(*self),
    {
        match self {
            IdError::InvalidTicketKey(s) => {
                let mut v = chars_of("ticket key must look like ABC-123, got ");
                extend_str(&mut v, debug_quoted(s.as_str()).as_str());
                string_of(&v)
            },
            IdError::InvalidRepoFullName(s) => {
                let mut v = chars_of("repo full name must be 'owner/repo', got ");
                extend_str(&mut v, debug_quoted(s.as_str()).as_str());
                string_of(&v)
            },
            IdError::InvalidBranchName => "branch name is empty or contains forbidden characters".to_owned(),
            IdError::InvalidSessionName => "tmux session name is empty or contains '.' / ':' / whitespace".to_owned(),
        }
    }
}

// ---------------------------------------------------------------------
// What each identifier accepts
// ---------------------------------------------------------------------

/// A Jira project key: an uppercase ASCII letter, then uppercase letters or digits.
pub open spec fn is_project_key(p: Seq<char>) -> bool {
    &&& p.len() > 0
    &&& is_upper(p[0])
    &&& forall|i: int| 1 <= i < p.len() ==> is_upper(#[trigger] p[i]) || is_digit(p[i])
}

/// `ABC-123`: a project key, a dash, and one or more decimal digits.
pub open spec fn valid_ticket_key(s: Seq<char>) -> bool {
    match split_once(s, '-') {
        Some((proj, num)) => is_project_key(proj) && num.len() > 0 && all_digits(num),
        None => false,
    }
}

/// `owner/repo`: exactly one slash, both sides non-empty, no whitespace.
pub open spec fn valid_repo_full_name(s: Seq<char>) -> bool {
    match split_once(s, '/') {
        Some((owner, repo)) => {
            &&& owner.len() > 0
            &&& repo.len() > 0
            &&& !repo.contains('/')
            &&& no_ws(owner)
            &&& no_ws(repo)
        },
        None => false,
    }
}

/// The part of a full name before its first slash (empty when there is none).
pub open spec fn owner_part(s: Seq<char>) -> Seq<char> {
    match split_once(s, '/') {
        Some((owner, _)) => owner,
        None => Seq::empty(),
    }
}

/// The part of a full name after its first slash (empty when there is none).
pub open spec fn repo_part(s: Seq<char>) -> Seq<char> {
    match split_once(s, '/') {
        Some((_, repo)) => repo,
        None => Seq::empty(),
    }
}

/// The branch names that git's ref-format rules (as far as this tool checks
/// them) accept.
pub open spec fn valid_branch_name(s: Seq<char>) -> bool {
    &&& s.len() > 0
    &&& s[0] != '-'
    &&& !has_double_dot(s)
    &&& !s.contains(' ')
    &&& !s.contains('~')
    &&& !s.contains('^')
    &&& !s.contains(':')
    &&& !s.contains('?')
    &&& !s.contains('*')
    &&& !s.contains('[')
    &&& s.last() != '/'
    &&& s.last() != '.'
}

/// tmux session names: non-empty, no `.`, no `:`, no whitespace.
pub open spec fn valid_session_name(s: Seq<char>) -> bool {
    &&& s.len() > 0
    &&& !s.contains('.')
    &&& !s.contains(':')
    &&& no_ws(s)
}

// ---------------------------------------------------------------------
// TicketKey
// ---------------------------------------------------------------------

/// A Jira issue key such as `PFC-1234`.
#[derive(Debug)]
pub struct TicketKey(String);

impl View for TicketKey {
    type V = Seq<char>;

    closed spec fn view(&self) -> Seq<char> {
        self.0@
    }
}

impl TicketKey {
    /// Every ticket key is of the form `ABC-123`: `new` is the only way to
    /// make one, and it checks.
    #[verifier::type_invariant]
    pub open spec fn well_formed(self) -> bool {
        valid_ticket_key(self@)
    }
}

impl Clone for TicketKey {
    fn clone(&self) -> (r: Self)
        ensures
            r == *self,
    {
        proof {
            use_type_invariant(self);
        }
        TicketKey(self.0.clone())
    }
}

fn is_project_key_exec(v: &Vec<char>, end: usize) -> (r: bool)
    requires
        end <= v.len(),
    ensures
        r == is_project_key(v@.take(end as int)),
{
    let ghost p = v@.take(end as int);
    if end == 0 {
        return false;
    }
    if !upper(v[0]) {
        return false;
    }
    let mut i: usize = 1;
    while i < end
        invariant
            1 <= i <= end <= v.len(),
            p == v@.take(end as int),
            forall|j: int| 1 <= j < i ==> is_upper(#[trigger] p[j]) || is_digit(p[j]),
        decreases end - i,
    {
        if !(upper(v[i]) || digit(v[i])) {
            assert(p[i as int] == v@[i as int]);
            return false;
        }
        i = i + 1;
    }
    true
}

fn all_digits_from(v: &Vec<char>, start: usize) -> (r: bool)
    requires
        start <= v.len(),
    ensures
        r == all_digits(v@.skip(start as int)),
{
    let ghost t = v@.skip(start as int);
    let mut i = start;
    while i < v.len()
        invariant
            start <= i <= v.len(),
            t == v@.skip(start as int),
            forall|j: int| 0 <= j < i - start ==> is_digit(#[trigger] t[j]),
        decreases v.len() - i,
    {
        if !digit(v[i]) {
            assert(t[i - start] == v@[i as int]);
            return false;
        }
        i = i + 1;
    }
    true
}

impl TicketKey {
    /// Accepts exactly the keys of the form `ABC-123`.
    pub fn new(s: &str) -> (r: Result<TicketKey, IdError>)
        ensures
            r is Ok <==> valid_ticket_key(s@),
            r matches Ok(k) ==> k@ == s@,
            r matches Err(e) ==> e matches IdError::InvalidTicketKey(t) && t@ == s@,
    {
        if Self::is_valid(s) {
            Ok(TicketKey(s.to_owned()))
        } else {
            Err(IdError::InvalidTicketKey(s.to_owned()))
        }
    }

    fn is_valid(s: &str) -> (r: bool)
        ensures
            r == valid_ticket_key(s@),
    {
        let v = chars_of(s);
        let dash = index_of_char(&v, '-');
        proof {
            lemma_index_of(v@, '-');
        }
        if dash == v.len() {
            return false;
        }
        if dash + 1 == v.len() {
            return false;
        }
        if !is_project_key_exec(&v, dash) {
            return false;
        }
        all_digits_from(&v, dash + 1)
    }

    pub fn as_str(&self) -> (r: &str)
        ensures
            r@ == self@,
    {
        self.0.as_str()
    }
}

// ---------------------------------------------------------------------
// RepoFullName
// ---------------------------------------------------------------------

/// A GitHub repository name `owner/repo`.
#[derive(Debug)]
pub struct RepoFullName(String);

impl View for RepoFullName {
    type V = Seq<char>;

    closed spec fn view(&self) -> Seq<char> {
        self.0@
    }
}

impl Clone for RepoFullName {
    fn clone(&self) -> (r: Self)
        ensures
            r == *self,
    {
        RepoFullName(self.0.clone())
    }
}

impl RepoFullName {
    /// Accepts exactly the names with one slash, non-empty sides and no whitespace.
    pub fn new(s: &str) -> (r: Result<RepoFullName, IdError>)
        ensures
            r is Ok <==> valid_repo_full_name(s@),
            r matches Ok(n) ==> n@ == s@,
            r matches Err(e) ==> e matches IdError::InvalidRepoFullName(t) && t@ == s@,
    {
        let v = chars_of(s);
        let slash = index_of_char(&v, '/');
        proof {
            lemma_index_of(v@, '/');
        }
        if slash == v.len() {
            return Err(IdError::InvalidRepoFullName(s.to_owned()));
        }
        let owner = slice_vec(&v, 0, slash);
        let repo = slice_vec(&v, slash + 1, v.len());
        assert(owner@ =~= v@.take(slash as int));
        assert(repo@ =~= v@.skip(slash as int + 1));
        if owner.len() == 0 || repo.len() == 0 || contains_char(&owner, '/') || contains_char(
            &repo,
            '/',
        ) || !has_no_ws(&owner) || !has_no_ws(&repo) {
            return Err(IdError::InvalidRepoFullName(s.to_owned()));
        }
        Ok(RepoFullName(s.to_owned()))
    }

    /// Index of the first slash in the name, or its length.
    fn slash_index(&self) -> (r: usize)
        ensures
            r == index_of(self@, '/'),
            r <= self@.len(),
    {
        let v = chars_of(self.0.as_str());
        proof {
            lemma_index_of(v@, '/');
        }
        index_of_char(&v, '/')
    }

    pub fn owner(&self) -> (r: &str)
        ensures
            r@ == owner_part(self@),
    {
        let i = self.slash_index();
        let s = self.0.as_str();
        if i == s.unicode_len() {
            s.substring_char(0, 0)
        } else {
            s.substring_char(0, i)
        }
    }

    pub fn repo(&self) -> (r: &str)
        ensures
            r@ == repo_part(self@),
    {
        let i = self.slash_index();
        let s = self.0.as_str();
        let n = s.unicode_len();
        if i == n {
            s.substring_char(0, 0)
        } else {
            s.substring_char(i + 1, n)
        }
    }

    pub fn as_str(&self) -> (r: &str)
        ensures
            r@ == self@,
    {
        self.0.as_str()
    }
}

/// A valid full name is its owner, a slash, and its repository.
pub proof fn law_full_name_parts(s: Seq<char>)
    requires
        valid_repo_full_name(s),
    ensures
        owner_part(s) + seq!['/'] + repo_part(s) == s,
        owner_part(s).len() > 0,
        repo_part(s).len() > 0,
        !owner_part(s).contains('/'),
        !repo_part(s).contains('/'),
{
    lemma_index_of(s, '/');
    let i = index_of(s, '/') as int;
    assert(s.take(i) + seq!['/'] + s.skip(i + 1) =~= s);
    if owner_part(s).contains('/') {
        let k = choose|k: int| 0 <= k < owner_part(s).len() && owner_part(s)[k] == '/';
        assert(s[k] == '/');
    }
}

// ---------------------------------------------------------------------
// BranchName
// ---------------------------------------------------------------------

/// A git branch name.
#[derive(Debug)]
pub struct BranchName(String);

impl View for BranchName {
    type V = Seq<char>;

    closed spec fn view(&self) -> Seq<char> {
        self.0@
    }
}

impl Clone for BranchName {
    fn clone(&self) -> (r: Self)
        ensures
            r == *self,
    {
        BranchName(self.0.clone())
    }
}

fn has_double_dot_exec(v: &Vec<char>) -> (r: bool)
    ensures
        r == has_double_dot(v@),
{
    let mut i: usize = 0;
    while i < v.len() && i + 1 < v.len()
        invariant
            i <= v.len(),
            forall|j: int| 0 <= j < i && j + 1 < v.len() ==> !(#[trigger] v@[j] == '.' && v@[j + 1] == '.'),
        decreases v.len() - i,
    {
        if v[i] == '.' && v[i + 1] == '.' {
            assert(v@[i as int] == '.' && v@[i + 1] == '.');
            return true;
        }
        i = i + 1;
    }
    false
}

impl BranchName {
    /// Accepts exactly the names of `valid_branch_name`.
    pub fn new(s: &str) -> (r: Result<BranchName, IdError>)
        ensures
            r is Ok <==> valid_branch_name(s@),
            r matches Ok(b) ==> b@ == s@,
            r matches Err(e) ==> e is InvalidBranchName,
    {
        let v = chars_of(s);
        if v.len() == 0 || v[0] == '-' || has_double_dot_exec(&v) || contains_char(&v, ' ')
            || contains_char(&v, '~') || contains_char(&v, '^') || contains_char(&v, ':')
            || contains_char(&v, '?') || contains_char(&v, '*') || contains_char(&v, '[')
            || v[v.len() - 1] == '/' || v[v.len() - 1] == '.' {
            return Err(IdError::InvalidBranchName);
        }
        Ok(BranchName(s.to_owned()))
    }

    pub fn as_str(&self) -> (r: &str)
        ensures
            r@ == self@,
    {
        self.0.as_str()
    }
}

// ---------------------------------------------------------------------
// SessionName
// ---------------------------------------------------------------------

/// A tmux session name.
#[derive(Debug)]
pub struct SessionName(String);

impl View for SessionName {
    type V = Seq<char>;

    closed spec fn view(&self) -> Seq<char> {
        self.0@
    }
}

impl Clone for SessionName {
    fn clone(&self) -> (r: Self)
        ensures
            r == *self,
    {
        SessionName(self.0.clone())
    }
}

impl SessionName {
    /// Accepts exactly the names of `valid_session_name`.
    pub fn new(s: &str) -> (r: Result<SessionName, IdError>)
        ensures
            r is Ok <==> valid_session_name(s@),
            r matches Ok(n) ==> n@ == s@,
            r matches Err(e) ==> e is InvalidSessionName,
    {
        let v = chars_of(s);
        if v.len() == 0 || contains_char(&v, '.') || contains_char(&v, ':') || !has_no_ws(&v) {
            return Err(IdError::InvalidSessionName);
        }
        Ok(SessionName(s.to_owned()))
    }

    pub fn as_str(&self) -> (r: &str)
        ensures
            r@ == self@,
    {
        self.0.as_str()
    }
}

/// A pull-request number.
#[derive(Debug, Clone, Copy, PartialEq, Eq, Structural)]
pub struct PrNumber(pub u64);

} // verus!
