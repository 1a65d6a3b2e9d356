//! The Jira side: status codes, the URLs of the REST API, and turning
//! issues into tickets.
use vstd::prelude::*;

use crate::domain::{status_from_jira, Ticket, TicketStatus};
use crate::ids::{valid_ticket_key, TicketKey};
use crate::text::{chars_of, extend_str, str_eq, string_of};
use crate::weburl::{join_url, parse_rfc3339, parse_url, rfc3339_millis, url_parsed, url_resolved};

verus! {

/// Failures of the Jira client.
#[derive(Debug)]
pub enum JiraError {
    Http(String),
    Unauthorized,
    Forbidden,
    Server { status: u16 },
    InvalidHost { host: String },
    InvalidKey(String),
    Url(String),
}

/// Success for 2xx, else the error for the status code.
pub fn check_status(status: u16) -> (r: Result<(), JiraError>)
    ensures
        200 <= status <= 299 <==> r is Ok,
        status == 401 ==> r matches Err(JiraError::Unauthorized),
        status == 403 ==> r matches Err(JiraError::Forbidden),
        !(200 <= status <= 299 || status == 401 || status == 403) ==> (r matches Err(
            JiraError::Server { status: s },
        ) && s == status),
{
    if 200 <= status && status <= 299 {
        Ok(())
    } else if status == 401 {
        Err(JiraError::Unauthorized)
    } else if status == 403 {
        Err(JiraError::Forbidden)
    } else {
        Err(JiraError::Server { status })
    }
}

/// The site's base URL, `https://<host>/`, as the URL parser reads it.
pub fn base_url(host: &str) -> (r: Result<String, JiraError>)
    ensures
        match url_parsed("https://"@ + host@ + "/"@) {
            Some(u) => r matches Ok(b) && b@ == u,
            None => r matches Err(JiraError::InvalidHost { host: h }) && h@ == host@,
        },
{
    let mut v = chars_of("https://");
    extend_str(&mut v, host);
    extend_str(&mut v, "/");
    let s = string_of(&v);
    match parse_url(s.as_str()) {
        Some(u) => Ok(u),
        None => Err(JiraError::InvalidHost { host: host.to_owned() }),
    }
}

/// The browse URL of an issue: `browse/<KEY>` resolved against the base URL.
pub fn issue_url(base: &str, key: &str) -> (r: Option<String>)
    ensures
        match url_resolved(base@, "browse/"@ + key@) {
            Some(u) => r matches Some(s) && s@ == u,
            None => r is None,
        },
{
    let mut v = chars_of("browse/");
    extend_str(&mut v, key);
    let p = string_of(&v);
    join_url(base, p.as_str())
}

/// The status of an issue, as Jira reports it.
#[derive(Debug)]
pub struct StatusRaw {
    pub name: String,
    pub category: Option<String>,
}

/// An issue from the search or issue endpoints.
#[derive(Debug)]
pub struct IssueRaw {
    pub key: String,
    pub summary: Option<String>,
    pub status: Option<StatusRaw>,
    pub assignee: Option<Option<String>>,
    pub updated: Option<String>,
}

/// `st` is what `TicketStatus::from_jira` gives for a category and name.
pub open spec fn status_for(st: TicketStatus, category: Seq<char>, name: Seq<char>) -> bool {
    &&& (st is Other) == (status_from_jira(category, name) is Other)
    &&& (st matches TicketStatus::Other(n) ==> n@ == name)
    &&& (!(st is Other) ==> st == status_from_jira(category, name))
}

/// The ticket of an issue: none when the key is not a ticket key; else an
/// empty summary when there is none, the status from its category and name
/// (unknown as `?`), the assignee's display name, the update time (or `now`
/// when it is missing or not RFC 3339), and the browse URL (or
/// `https://example.invalid/` when it does not resolve).
pub open spec fn ticket_of(t: Ticket, raw: IssueRaw, base: Seq<char>, now: i64) -> bool {
    &&& t.key@ == raw.key@
    &&& t.summary@ == match raw.summary {
        Some(s) => s@,
        None => Seq::empty(),
    }
    &&& match raw.status {
        Some(s) => status_for(
            t.status,
            match s.category {
                Some(c) => c@,
                None => Seq::empty(),
            },
            s.name@,
        ),
        None => t.status matches TicketStatus::Other(n) && n@ == "?"@,
    }
    &&& match raw.assignee {
        Some(Some(a)) => t.assignee matches Some(x) && x@ == a@,
        _ => t.assignee is None,
    }
    &&& t.updated == match raw.updated {
        Some(u) => match rfc3339_millis(u@) {
            Some(m) => m,
            None => now,
        },
        None => now,
    }
    &&& t.url@ == match url_resolved(base, "browse/"@ + raw.key@) {
        Some(u) => u,
        None => "https://example.invalid/"@,
    }
}

pub fn issue_to_ticket(raw: &IssueRaw, base: &str, now: i64) -> (r: Option<Ticket>)
    ensures
        valid_ticket_key(raw.key@) <==> r is Some,
        r matches Some(t) ==> ticket_of(t, *raw, base@, now),
{
    let key = match TicketKey::new(raw.key.as_str()) {
        Ok(k) => k,
        Err(_) => {
            return None;
        },
    };
    let summary = match &raw.summary {
        Some(s) => s.clone(),
        None => String::new(),
    };
    let status = match &raw.status {
        Some(s) => {
            let cat = match &s.category {
                Some(c) => c.clone(),
                None => String::new(),
            };
            TicketStatus::from_jira(cat.as_str(), s.name.as_str())
        },
        None => TicketStatus::Other("?".to_owned()),
    };
    let assignee = match &raw.assignee {
        Some(Some(a)) => Some(a.clone()),
        _ => None,
    };
    let updated = match &raw.updated {
        Some(u) => match parse_rfc3339(u.as_str()) {
            Some(m) => m,
            None => now,
        },
        None => now,
    };
    let url = match issue_url(base, raw.key.as_str()) {
        Some(u) => u,
        None => "https://example.invalid/".to_owned(),
    };
    Some(Ticket { key, summary, status, assignee, url, updated })
}

/// The issues whose key is a ticket key, in order.
pub open spec fn kept_issues(s: Seq<IssueRaw>) -> Seq<IssueRaw>
    decreases s.len(),
{
    if s.len() == 0 {
        Seq::empty()
    } else if valid_ticket_key(s.last().key@) {
        kept_issues(s.drop_last()).push(s.last())
    } else {
        kept_issues(s.drop_last())
    }
}

/// The tickets of a search result, in its order, skipping issues whose key
/// is not a ticket key.
pub fn issues_to_tickets(raw: &Vec<IssueRaw>, base: &str, now: i64) -> (r: Vec<Ticket>)
    ensures
        r@.len() == kept_issues(raw@).len(),
        forall|i: int| 0 <= i < r@.len() ==> ticket_of(#[trigger] r@[i], kept_issues(raw@)[i], base@, now),
{
    let mut out: Vec<Ticket> = Vec::new();
    let mut i: usize = 0;
    while i < raw.len()
        invariant
            i <= raw@.len(),
            out@.len() == kept_issues(raw@.take(i as int)).len(),
            forall|j: int| 0 <= j < out@.len() ==> ticket_of(#[trigger] out@[j], kept_issues(raw@.take(i as int))[j], base@, now),
        decreases raw@.len() - i,
    {
        assert(raw@.take(i as int + 1).drop_last() =~= raw@.take(i as int));
        assert(raw@.take(i as int + 1).last() == raw@[i as int]);
        match issue_to_ticket(&raw[i], base, now) {
            Some(t) => {
                out.push(t);
            },
            None => {},
        }
        i = i + 1;
    }
    assert(raw@.take(raw@.len() as int) =~= raw@);
    out
}

/// The search endpoint, `rest/api/3/search/jql` resolved against the base URL.
pub fn search_endpoint(base: &str) -> (r: Result<String, JiraError>)
    ensures
        match url_resolved(base@, "rest/api/3/search/jql"@) {
            Some(u) => r matches Ok(s) && s@ == u,
            None => r matches Err(JiraError::Url(_)),
        },
{
    match join_url(base, "rest/api/3/search/jql") {
        Some(u) => Ok(u),
        None => Err(JiraError::Url("rest/api/3/search/jql".to_owned())),
    }
}

/// The endpoint of one issue, `rest/api/3/issue/<KEY>` resolved against the
/// base URL.
pub fn issue_endpoint(base: &str, key: &TicketKey) -> (r: Result<String, JiraError>)
    ensures
        match url_resolved(base@, "rest/api/3/issue/"@ + key@) {
            Some(u) => r matches Ok(s) && s@ == u,
            None => r matches Err(JiraError::Url(p)) && p@ == "rest/api/3/issue/"@ + key@,
        },
{
    let mut v = chars_of("rest/api/3/issue/");
    extend_str(&mut v, key.as_str());
    let p = string_of(&v);
    match join_url(base, p.as_str()) {
        Some(u) => Ok(u),
        None => Err(JiraError::Url(p)),
    }
}

/// The ticket of the issue fetched for `key`; an invalid-key error when the
/// issue's own key is not a ticket key.
pub fn fetched_issue(raw: &IssueRaw, key: &TicketKey, base: &str, now: i64) -> (r: Result<
    Ticket,
    JiraError,
>)
    ensures
        valid_ticket_key(raw.key@) <==> r is Ok,
        r matches Ok(t) ==> ticket_of(t, *raw, base@, now),
        r matches Err(e) ==> (e matches JiraError::InvalidKey(k) && k@ == key@),
{
    match issue_to_ticket(raw, base, now) {
        Some(t) => Ok(t),
        None => Err(JiraError::InvalidKey(key.as_str().to_owned())),
    }
}

/// A stand-in for Jira that serves a fixed list of tickets (`--mock`).
pub struct MockJira {
    pub tickets: Vec<Ticket>,
}

/// The position of the first ticket with key `key`, or the length when
/// there is none.
pub open spec fn key_index(s: Seq<Ticket>, key: Seq<char>) -> nat
    decreases s.len(),
{
    if s.len() == 0 {
        0
    } else if s[0].key@ == key {
        0
    } else {
        1 + key_index(s.drop_first(), key)
    }
}

proof fn lemma_key_index_unique(s: Seq<Ticket>, key: Seq<char>, i: int)
    requires
        0 <= i <= s.len(),
        i < s.len() ==> s[i].key@ == key,
        forall|j: int| 0 <= j < i ==> (#[trigger] s[j]).key@ != key,
    ensures
        key_index(s, key) == i,
    decreases s.len(),
{
    if s.len() > 0 && i > 0 {
        assert forall|j: int| 0 <= j < i - 1 implies (#[trigger] s.drop_first()[j]).key@ != key by {
            assert(s.drop_first()[j] == s[j + 1]);
        }
        lemma_key_index_unique(s.drop_first(), key, i - 1);
    }
}

impl MockJira {
    pub fn with_tickets(tickets: Vec<Ticket>) -> (r: MockJira)
        ensures
            r.tickets == tickets,
    {
        MockJira { tickets }
    }

    /// The first `max` tickets, whatever the query.
    pub fn search(&self, jql: &str, max: usize) -> (r: Result<Vec<Ticket>, JiraError>)
        ensures
            r matches Ok(v) && v@ == self.tickets@.take(
                if max < self.tickets@.len() { max as int } else { self.tickets@.len() as int },
            ),
    {
        let n = if max < self.tickets.len() {
            max
        } else {
            self.tickets.len()
        };
        let mut out: Vec<Ticket> = Vec::new();
        let mut i: usize = 0;
        while i < n
            invariant
                i <= n <= self.tickets@.len(),
                out@ == self.tickets@.take(i as int),
            decreases n - i,
        {
            out.push(self.tickets[i].clone());
            assert(self.tickets@.take(i as int + 1) =~= self.tickets@.take(i as int).push(
                self.tickets@[i as int],
            ));
            i = i + 1;
        }
        Ok(out)
    }

    /// The first ticket with the key, or an invalid-key error.
    pub fn get(&self, key: &TicketKey) -> (r: Result<Ticket, JiraError>)
        ensures
            ({
                let i = key_index(self.tickets@, key@) as int;
                if i < self.tickets@.len() {
                    r == Ok::<Ticket, JiraError>(self.tickets@[i])
                } else {
                    r matches Err(JiraError::InvalidKey(k)) && k@ == key@
                }
            }),
    {
        let mut i: usize = 0;
        while i < self.tickets.len() && !str_eq(self.tickets[i].key.as_str(), key.as_str())
            invariant
                i <= self.tickets@.len(),
                forall|j: int| 0 <= j < i ==> (#[trigger] self.tickets@[j]).key@ != key@,
            decreases self.tickets@.len() - i,
        {
            i = i + 1;
        }
        proof {
            lemma_key_index_unique(self.tickets@, key@, i as int);
        }
        if i < self.tickets.len() {
            Ok(self.tickets[i].clone())
        } else {
            Err(JiraError::InvalidKey(key.as_str().to_owned()))
        }
    }
}

} // verus!
