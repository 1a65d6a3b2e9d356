//! Seed data for `--mock` mode: a few tickets, repositories and one pull
//! request, served without Jira or GitHub.
use vstd::prelude::*;

use crate::domain::{Pr, PrState, Ticket, TicketStatus};
use crate::github::{MockGithub, RepoSummary};
use crate::ids::{
    valid_branch_name, valid_repo_full_name, valid_ticket_key, BranchName, PrNumber, RepoFullName,
    TicketKey,
};
use crate::jira::MockJira;
use crate::text::lemma_index_of_unique;

verus! {

fn key(s: &str) -> (r: TicketKey)
    requires
        valid_ticket_key(s@),
    ensures
        r@ == s@,
{
    match TicketKey::new(s) {
        Ok(k) => k,
        Err(_) => vstd::pervasive::unreached(),
    }
}

fn repo(s: &str) -> (r: RepoFullName)
    requires
        valid_repo_full_name(s@),
    ensures
        r@ == s@,
{
    match RepoFullName::new(s) {
        Ok(n) => n,
        Err(_) => vstd::pervasive::unreached(),
    }
}

fn branch(s: &str) -> (r: BranchName)
    requires
        valid_branch_name(s@),
    ensures
        r@ == s@,
{
    match BranchName::new(s) {
        Ok(b) => b,
        Err(_) => vstd::pervasive::unreached(),
    }
}

fn ticket(k: &str, summary: &str, status: TicketStatus, now: i64) -> (r: Ticket)
    requires
        valid_ticket_key(k@),
    ensures
        r.key@ == k@,
        r.summary@ == summary@,
        r.status == status,
        r.assignee matches Some(a) && a@ == "you"@,
        r.url@ == "https://example.atlassian.net/browse/"@ + k@,
        r.updated == now,
{
    let mut u = crate::text::chars_of("https://example.atlassian.net/browse/");
    crate::text::extend_str(&mut u, k);
    Ticket {
        key: key(k),
        summary: summary.to_owned(),
        status,
        assignee: Some("you".to_owned()),
        url: crate::text::string_of(&u),
        updated: now,
    }
}

/// The seed tickets, repositories and pull request, all updated and pushed
/// at `now`.
pub fn mocks(now: i64) -> (r: (MockJira, MockGithub))
    ensures
        r.0.tickets@.len() == 3,
        r.0.tickets@[0].key@ == "PFC-1234"@,
        r.0.tickets@[0].summary@ == "Fix the login screen flicker"@,
        r.0.tickets@[0].status == TicketStatus::InProgress,
        r.0.tickets@[1].key@ == "PFC-1240"@,
        r.0.tickets@[1].summary@ == "Add OAuth callback handling"@,
        r.0.tickets@[1].status == TicketStatus::Todo,
        r.0.tickets@[2].key@ == "PFC-1252"@,
        r.0.tickets@[2].summary@ == "Investigate pager duty alert noise"@,
        r.0.tickets@[2].status == TicketStatus::InReview,
        forall|i: int|
            0 <= i < 3 ==> {
                let t = #[trigger] r.0.tickets@[i];
                &&& t.assignee matches Some(a) && a@ == "you"@
                &&& t.url@ == "https://example.atlassian.net/browse/"@ + t.key@
                &&& t.updated == now
            },
        r.1.repos@.len() == 2,
        r.1.repos@[0].full_name@ == "pfc/pfc-ledger"@,
        r.1.repos@[1].full_name@ == "pfc/pfc-edge"@,
        forall|i: int|
            0 <= i < 2 ==> (#[trigger] r.1.repos@[i]).default_branch@ == "main"@
                && r.1.repos@[i].pushed_at == now,
        r.1.prs@.len() == 1,
        r.1.prs@[0].repo@ == "pfc/pfc-ledger"@,
        r.1.prs@[0].number == PrNumber(45),
        r.1.prs@[0].title@ == "feat: add invoice endpoint"@,
        r.1.prs@[0].head_ref@ == "PFC-1100-invoice-endpoint"@,
        r.1.prs@[0].author@ == "alice"@,
        !r.1.prs@[0].draft,
        r.1.prs@[0].state == PrState::Open,
        r.1.prs@[0].url@ == "https://github.com/pfc/pfc-ledger/pull/45"@,
{
    proof {
        reveal_strlit("PFC-1234");
        reveal_strlit("PFC-1240");
        reveal_strlit("PFC-1252");
        reveal_strlit("pfc/pfc-ledger");
        reveal_strlit("pfc/pfc-edge");
        reveal_strlit("main");
        reveal_strlit("PFC-1100-invoice-endpoint");
        lemma_index_of_unique("PFC-1234"@, '-', 3);
        lemma_index_of_unique("PFC-1240"@, '-', 3);
        lemma_index_of_unique("PFC-1252"@, '-', 3);
        lemma_index_of_unique("pfc/pfc-ledger"@, '/', 3);
        lemma_index_of_unique("pfc/pfc-edge"@, '/', 3);
        assert("PFC-1234"@.take(3) =~= seq!['P', 'F', 'C']);
        assert("PFC-1234"@.skip(4) =~= seq!['1', '2', '3', '4']);
        assert("PFC-1240"@.take(3) =~= seq!['P', 'F', 'C']);
        assert("PFC-1240"@.skip(4) =~= seq!['1', '2', '4', '0']);
        assert("PFC-1252"@.take(3) =~= seq!['P', 'F', 'C']);
        assert("PFC-1252"@.skip(4) =~= seq!['1', '2', '5', '2']);
        assert("pfc/pfc-ledger"@.take(3) =~= seq!['p', 'f', 'c']);
        assert("pfc/pfc-ledger"@.skip(4) =~= seq!['p', 'f', 'c', '-', 'l', 'e', 'd', 'g', 'e', 'r']);
        assert("pfc/pfc-edge"@.take(3) =~= seq!['p', 'f', 'c']);
        assert("pfc/pfc-edge"@.skip(4) =~= seq!['p', 'f', 'c', '-', 'e', 'd', 'g', 'e']);
    }
    let tickets = vec![
        ticket("PFC-1234", "Fix the login screen flicker", TicketStatus::InProgress, now),
        ticket("PFC-1240", "Add OAuth callback handling", TicketStatus::Todo, now),
        ticket("PFC-1252", "Investigate pager duty alert noise", TicketStatus::InReview, now),
    ];
    let repos = vec![
        RepoSummary { full_name: repo("pfc/pfc-ledger"), default_branch: branch("main"), pushed_at: now },
        RepoSummary { full_name: repo("pfc/pfc-edge"), default_branch: branch("main"), pushed_at: now },
    ];
    let prs = vec![
        Pr {
            repo: repo("pfc/pfc-ledger"),
            number: PrNumber(45),
            title: "feat: add invoice endpoint".to_owned(),
            head_ref: branch("PFC-1100-invoice-endpoint"),
            author: "alice".to_owned(),
            draft: false,
            state: PrState::Open,
            url: "https://github.com/pfc/pfc-ledger/pull/45".to_owned(),
        },
    ];
    (MockJira::with_tickets(tickets), MockGithub { repos, prs })
}

} // verus!
