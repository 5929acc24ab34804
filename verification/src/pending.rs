//! The requests that wait for their response, keyed by sequence number.

use std::collections::HashMap;
use vstd::prelude::*;

verus! {

broadcast use vstd::std_specs::hash::group_hash_axioms;

/// A response reaches the waiter registered for its sequence number, and
/// only once: after `register(seq, w)`, `take(seq)` gives `w` and leaves no
/// waiter for `seq`, while the waiters of other requests stay as they were.
pub proof fn lemma_response_reaches_its_waiter<V>(table: Map<u32, V>, seq: u32, waiter: V, other: u32)
    requires
        other != seq,
    ensures
        table.insert(seq, waiter).contains_key(seq),
        table.insert(seq, waiter)[seq] == waiter,
        !table.insert(seq, waiter).remove(seq).contains_key(seq),
        table.insert(seq, waiter).remove(seq).contains_key(other) == table.contains_key(other),
        table.contains_key(other) ==> table.insert(seq, waiter).remove(seq)[other] == table[other],
{
}

/// For each request in flight, the waiter that its response goes to.
#[derive(Debug)]
pub struct PendingTable<V> {
    waiters: HashMap<u32, V>,
}

impl<V> View for PendingTable<V> {
    type V = Map<u32, V>;

    closed spec fn view(&self) -> Map<u32, V> {
        self.waiters@
    }
}

impl<V> PendingTable<V> {
    /// A table with no request in flight.
    pub fn new() -> (t: Self)
        ensures
            t@ == Map::<u32, V>::empty(),
    {
        PendingTable { waiters: HashMap::new() }
    }

    /// Registers `waiter` for the response to request `seq`, replacing any
    /// waiter registered for it before.
    pub fn register(&mut self, seq: u32, waiter: V)
        ensures
            final(self)@ == old(self)@.insert(seq, waiter),
    {
        self.waiters.insert(seq, waiter);
    }

    /// Drops every waiter, as when the connection is gone and no response
    /// will come.
    pub fn clear(&mut self)
        ensures
            final(self)@ == Map::<u32, V>::empty(),
    {
        self.waiters.clear();
    }

    /// Removes and returns the waiter for the response to request `seq`;
    /// `None`, with the table unchanged, when none is registered.
    pub fn take(&mut self, seq: u32) -> (w: Option<V>)
        ensures
            old(self)@.contains_key(seq) ==> w == Some(old(self)@[seq]) && final(self)@ == old(
                self,
            )@.remove(seq),
            !old(self)@.contains_key(seq) ==> w is None && final(self)@ == old(self)@,
    {
        let w = self.waiters.remove(&seq);
        proof {
            if !old(self)@.contains_key(seq) {
                assert(old(self)@.remove(seq) =~= old(self)@);
            }
        }
        w
    }
}

} // verus!
