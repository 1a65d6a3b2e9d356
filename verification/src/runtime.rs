//! The registry of in-flight fetches and their cancellation tokens.
use std::collections::HashMap;

use tokio_util::sync::CancellationToken;
use vstd::prelude::*;

use crate::msg::FetchId;

verus! {

#[verifier::external_type_specification]
#[verifier::external_body]
pub struct ExCancellationToken(CancellationToken);

/// A fresh, uncancelled token (`CancellationToken::new`).
#[verifier::external_body]
fn token_new() -> (t: CancellationToken) {
    CancellationToken::new()
}

/// A handle on the same token (`CancellationToken::clone`); nothing about
/// the token's shared state is stated.
#[verifier::external_body]
fn token_clone(t: &CancellationToken) -> (r: CancellationToken) {
    t.clone()
}

/// Cancel the token and every handle on it (`CancellationToken::cancel`);
/// its effect on the token's shared state is not stated.
#[verifier::external_body]
fn token_cancel(t: &CancellationToken) {
    t.cancel()
}

/// Tracks in-flight fetches and their cancellation tokens.
pub struct Registry {
    next: u64,
    tokens: HashMap<u64, CancellationToken>,
}

impl Registry {
    /// The id the next `issue` hands out.
    pub closed spec fn next_id(&self) -> u64 {
        self.next
    }

    /// The ids of the fetches in flight.
    pub closed spec fn pending(&self) -> Set<u64> {
        self.tokens@.dom()
    }

    /// Finitely many ids are pending, each issued before the next one.
    pub open spec fn wf(&self) -> bool {
        &&& self.pending().finite()
        &&& forall|k: u64| self.pending().contains(k) ==> k < self.next_id()
    }

    /// Only finitely many fetches are ever pending.
    pub proof fn lemma_pending_finite(&self)
        ensures
            self.pending().finite(),
    {
        broadcast use vstd::std_specs::hash::group_hash_axioms;

    }

    pub fn new() -> (r: Registry)
        ensures
            r.next_id() == 0,
            r.pending() == Set::<u64>::empty(),
            r.wf(),
    {
        broadcast use vstd::std_specs::hash::group_hash_axioms;

        Registry { next: 0, tokens: HashMap::new() }
    }

    /// Issue a new fetch id with its token; the id becomes pending.
    pub fn issue(&mut self) -> (r: (FetchId, CancellationToken))
        ensures
            issued_id(*old(self), *final(self), r.0.0),
            final(self).pending().finite(),
            old(self).wf() ==> !old(self).pending().contains(r.0.0) && final(self).pending().len()
                == old(self).pending().len() + 1,
            old(self).wf() && old(self).next_id() < u64::MAX ==> final(self).wf(),
    {
        broadcast use vstd::std_specs::hash::group_hash_axioms;

        let id = FetchId(self.next);
        self.next = self.next.wrapping_add(1);
        let token = token_new();
        let handle = token_clone(&token);
        self.tokens.insert(id.0, handle);
        assert(self.pending() =~= old(self).pending().insert(id.0));
        proof {
            if old(self).wf() && old(self).next_id() < u64::MAX {
                assert forall|k: u64| self.pending().contains(k) implies k < self.next_id() by {
                    if k != id.0 {
                        assert(old(self).pending().contains(k));
                    }
                }
            }
        }
        (id, token)
    }

    /// Cancel a fetch: its token is cancelled and it is no longer pending.
    pub fn cancel(&mut self, id: FetchId)
        ensures
            cancelled(*old(self), *final(self), id.0),
            final(self).pending().finite(),
            final(self).pending().len() == if old(self).pending().contains(id.0) {
                old(self).pending().len() - 1
            } else {
                old(self).pending().len() as int
            },
            old(self).wf() ==> final(self).wf(),
    {
        broadcast use vstd::std_specs::hash::group_hash_axioms;

        match self.tokens.remove(&id.0) {
            Some(t) => token_cancel(&t),
            None => {},
        }
    }

    /// Mark a fetch done. Returns whether it was still pending; a result of
    /// a fetch that was cancelled or already completed returns `false`.
    pub fn complete(&mut self, id: FetchId) -> (r: bool)
        ensures
            completed(*old(self), *final(self), id.0, r),
            final(self).pending().finite(),
            final(self).pending().len() == if r {
                old(self).pending().len() - 1
            } else {
                old(self).pending().len() as int
            },
            old(self).wf() ==> final(self).wf(),
    {
        broadcast use vstd::std_specs::hash::group_hash_axioms;

        self.tokens.remove(&id.0).is_some()
    }

    /// Cancel every fetch in flight.
    pub fn cancel_all(&mut self)
        ensures
            final(self).next_id() == old(self).next_id(),
            final(self).pending() == Set::<u64>::empty(),
            final(self).wf(),
    {
        broadcast use vstd::std_specs::hash::group_hash_axioms;

        for t in self.tokens.values() {
            token_cancel(t);
        }
        self.tokens.clear();
    }

    /// How many fetches are in flight.
    pub fn in_flight(&self) -> (r: usize)
        ensures
            r == self.pending().len(),
    {
        broadcast use vstd::std_specs::hash::group_hash_axioms;

        self.tokens.len()
    }
}

/// `r1` is `r0` after `issue` handed out `id`: the next id, now pending.
pub open spec fn issued_id(r0: Registry, r1: Registry, id: u64) -> bool {
    &&& id == r0.next_id()
    &&& r1.next_id() == (if r0.next_id() == u64::MAX {
        0
    } else {
        r0.next_id() + 1
    })
    &&& r1.pending() == r0.pending().insert(id)
}

/// `r1` is `r0` after `cancel(id)`: `id` is no longer pending.
pub open spec fn cancelled(r0: Registry, r1: Registry, id: u64) -> bool {
    &&& r1.next_id() == r0.next_id()
    &&& r1.pending() == r0.pending().remove(id)
}

/// `r1` is `r0` after `complete(id)` returned `r`: `r` says whether `id`
/// was pending, and it no longer is.
pub open spec fn completed(r0: Registry, r1: Registry, id: u64, r: bool) -> bool {
    &&& r == r0.pending().contains(id)
    &&& cancelled(r0, r1, id)
}

/// A result that arrives after its fetch was cancelled is dropped: `complete`
/// after `cancel` of the same id returns `false`.
pub proof fn law_cancelled_result_dropped(r0: Registry, r1: Registry, r2: Registry, id: u64, r: bool)
    requires
        cancelled(r0, r1, id),
        completed(r1, r2, id, r),
    ensures
        !r,
{
}

/// A fetch completes once: a second `complete` of the same id returns `false`.
pub proof fn law_complete_once(
    r0: Registry,
    r1: Registry,
    r2: Registry,
    id: u64,
    first: bool,
    second: bool,
)
    requires
        completed(r0, r1, id, first),
        completed(r1, r2, id, second),
    ensures
        !second,
{
}

/// An issued fetch is pending, and stays pending while other fetches are
/// cancelled or complete; its own completion then reports it.
pub proof fn law_issued_pending(
    r0: Registry,
    r1: Registry,
    r2: Registry,
    r3: Registry,
    id: u64,
    other: u64,
    r: bool,
)
    requires
        issued_id(r0, r1, id),
        other != id,
        cancelled(r1, r2, other),
        completed(r2, r3, id, r),
    ensures
        r1.pending().contains(id),
        r2.pending().contains(id),
        r,
{
}

/// A fetch issued by a well-formed registry and then completed, with no
/// cancel in between, reports itself as still pending; the count in flight
/// rises by one on issue and falls back on completion.
pub proof fn law_issue_then_complete(r0: Registry, r1: Registry, r2: Registry, id: u64, r: bool)
    requires
        r0.wf(),
        issued_id(r0, r1, id),
        completed(r1, r2, id, r),
    ensures
        r,
        r1.pending().len() == r0.pending().len() + 1,
        r2.pending() == r0.pending(),
        r2.pending().len() == r0.pending().len(),
{
    assert(!r0.pending().contains(id));
    assert(r2.pending() =~= r0.pending());
}

/// Ids handed out one after another by a well-formed registry differ, and
/// the first was not pending before; nor was the second, unless the counter
/// wrapped around between them.
pub proof fn law_fresh_ids(r0: Registry, r1: Registry, r2: Registry, a: u64, b: u64)
    requires
        r0.wf(),
        issued_id(r0, r1, a),
        issued_id(r1, r2, b),
    ensures
        a != b,
        !r0.pending().contains(a),
        r0.next_id() < u64::MAX ==> !r1.pending().contains(b),
{
}

} // verus!
