//! Connection acceptor bookkeeping.
//!
//! The accept loop itself — binding the listen endpoint, awaiting each
//! inbound stream, spawning one relay task per stream — is asynchronous
//! work done at the network edge. What the library holds is the loop's
//! decision rule and its only piece of state: the process-wide
//! connection counter. Each successful accept is dispatched under a
//! fresh, monotonically increasing connection identifier and the loop
//! goes on accepting at once; an accept failure stops the loop, since
//! the listener itself is then unusable.

use vstd::prelude::*;

verus! {

/// What the accept loop does with one accept result.
#[derive(Debug, Clone, Copy, PartialEq, Eq, Structural)]
pub enum AcceptDecision {
    /// Dispatch an independent relay task for the accepted stream, under
    /// this connection identifier, and keep accepting.
    Dispatch(u64),
    /// The listener failed: stop accepting.
    Stop,
}

/// The accept loop's state: the identifier the next connection will get.
pub struct Acceptor {
    /// Identifiers already handed out are exactly those below this.
    pub next_id: u64,
}

impl Acceptor {
    /// A fresh acceptor; identifiers start at zero on process start.
    pub fn new() -> (a: Acceptor)
        ensures
            a.next_id == 0,
    {
        Acceptor { next_id: 0 }
    }

    /// Decide what to do with one accept result. A success is dispatched
    /// under the current counter value, which no earlier or later
    /// connection of this process shares; a failure stops the loop and
    /// leaves the counter untouched.
    pub fn on_accept_result(&mut self, ok: bool) -> (d: AcceptDecision)
        requires
            old(self).next_id < u64::MAX,
        ensures
            ok ==> d == AcceptDecision::Dispatch(old(self).next_id) && final(self).next_id
                == old(self).next_id + 1,
            !ok ==> d == AcceptDecision::Stop && final(self).next_id == old(self).next_id,
    {
        if ok {
            let id = self.next_id;
            self.next_id = self.next_id + 1;
            AcceptDecision::Dispatch(id)
        } else {
            AcceptDecision::Stop
        }
    }
}

/// The identifiers the loop hands out, starting from counter value
/// `next`, over a run of accept results: one per success, up to the
/// first failure.
pub open spec fn accept_ids(next: int, results: Seq<bool>) -> Seq<int>
    decreases results.len(),
{
    if results.len() == 0 {
        Seq::empty()
    } else if results[0] {
        seq![next] + accept_ids(next + 1, results.skip(1))
    } else {
        Seq::empty()
    }
}

/// Each identifier of a run is the starting counter plus its position:
/// identifiers are consecutive and strictly increasing.
pub proof fn lemma_accept_ids_consecutive(next: int, results: Seq<bool>)
    ensures
        forall|k: int|
            0 <= k < accept_ids(next, results).len() ==> #[trigger] accept_ids(next, results)[k]
                == next + k,
    decreases results.len(),
{
    if results.len() == 0 {
    } else if results[0] {
        lemma_accept_ids_consecutive(next + 1, results.skip(1));
        let ids = accept_ids(next, results);
        let rest = accept_ids(next + 1, results.skip(1));
        assert forall|k: int| 0 <= k < ids.len() implies #[trigger] ids[k] == next + k by {
            if k > 0 {
                assert(ids[k] == rest[k - 1]);
            }
        }
    }
}

/// Connection identifiers are unique (law): no two connections of one
/// process run ever share an identifier, however many accepts succeed.
pub proof fn lemma_accept_ids_unique(next: int, results: Seq<bool>)
    ensures
        forall|j: int, k: int|
            0 <= j < k < accept_ids(next, results).len() ==> #[trigger] accept_ids(next, results)[j]
                != #[trigger] accept_ids(next, results)[k],
{
    lemma_accept_ids_consecutive(next, results);
}

} // verus!
