//! The correlation table: which client is waiting on each transaction ID.

use vstd::prelude::*;
use std::collections::HashMap;
use crate::net::SockAddr;

verus! {

broadcast use vstd::std_specs::hash::group_hash_axioms;

/// Maps each in-flight DNS transaction ID to the client address that the
/// eventual reply must be sent back to. Entries are created when a query is
/// forwarded upstream and consumed when its reply arrives. At most one entry
/// is live per ID; a second query reusing an ID overwrites the first
/// (last writer wins).
pub struct CorrelationTable {
    map: HashMap<u16, SockAddr>,
}

impl View for CorrelationTable {
    type V = Map<u16, SockAddr>;

    closed spec fn view(&self) -> Map<u16, SockAddr> {
        self.map@
    }
}

impl CorrelationTable {
    /// A fresh table with no pending queries.
    pub fn new() -> (r: CorrelationTable)
        ensures
            r@ == Map::<u16, SockAddr>::empty(),
    {
        CorrelationTable { map: HashMap::new() }
    }

    /// Records that the reply bearing `id` belongs to `client`,
    /// overwriting any entry already held under `id`.
    pub fn record(&mut self, id: u16, client: SockAddr)
        ensures
            final(self)@ == old(self)@.insert(id, client),
    {
        let _ = self.map.insert(id, client);
    }

    /// Takes out and returns the client waiting on `id`, or returns `None`,
    /// leaving the table unchanged, when no query with `id` is pending.
    pub fn resolve(&mut self, id: u16) -> (r: Option<SockAddr>)
        ensures
            old(self)@.contains_key(id) ==> r == Some(old(self)@[id]) && final(self)@ == old(
                self,
            )@.remove(id),
            !old(self)@.contains_key(id) ==> r is None && final(self)@ == old(self)@,
    {
        if self.map.contains_key(&id) {
            self.map.remove(&id)
        } else {
            None
        }
    }

    /// The number of pending queries.
    pub fn len(&self) -> (r: usize)
        ensures
            r == self@.dom().len(),
    {
        self.map.len()
    }
}

} // verus!
