//! The zone table: configured CIDR zones and most-specific-match lookup.

use vstd::prelude::*;
use crate::net::{Cidr, IpAddress, lemma_size_orders_as_host_bits};

verus! {

/// One configured geographic zone: a CIDR prefix and the nameserver that
/// queries from inside it are forwarded to. Immutable once loaded.
#[derive(Clone, Debug)]
pub struct GeoZone {
    pub name: String,
    pub cidr: Cidr,
    pub nameserver: IpAddress,
}

impl GeoZone {
    pub open spec fn wf(self) -> bool {
        self.cidr.wf()
    }
}

/// The ordered set of configured zones. Read-only after loading. Lookup
/// returns the zone covering the fewest addresses among those containing
/// the queried address; on a tie, the earliest zone in table order wins.
pub struct ZoneTable {
    pub zones: Vec<GeoZone>,
}

impl ZoneTable {
    pub open spec fn wf(self) -> bool {
        forall|i: int|
            0 <= i < self.zones@.len() ==> (#[trigger] self.zones@[i]).wf()
    }

    /// Whether the zone at index `i` contains address `a`.
    pub open spec fn zone_matches(self, i: int, a: IpAddress) -> bool {
        self.zones@[i].cidr.spec_contains(a)
    }

    /// `r` is the index lookup must return for `a`: its zone contains `a`,
    /// no matching zone covers fewer addresses, and every matching zone
    /// before it covers strictly more (ties go to the earliest).
    pub open spec fn is_lookup_winner(self, a: IpAddress, r: int) -> bool {
        &&& 0 <= r < self.zones@.len()
        &&& self.zone_matches(r, a)
        &&& forall|j: int|
            0 <= j < self.zones@.len() && #[trigger] self.zone_matches(j, a)
                ==> self.zones@[r].cidr.size() <= self.zones@[j].cidr.size()
        &&& forall|j: int|
            0 <= j < r && #[trigger] self.zone_matches(j, a) ==> self.zones@[r].cidr.size()
                < self.zones@[j].cidr.size()
    }

    /// Finds the most specific zone containing `a`: the matching zone with
    /// the fewest addresses in its prefix, the earliest in table order on a
    /// tie, or `None` when no zone contains `a`.
    pub fn lookup(&self, a: &IpAddress) -> (r: Option<usize>)
        requires
            self.wf(),
        ensures
            match r {
                Some(i) => self.is_lookup_winner(*a, i as int),
                None => forall|j: int|
                    0 <= j < self.zones@.len() ==> !(#[trigger] self.zone_matches(j, *a)),
            },
    {
        let mut best: Option<usize> = None;
        let mut best_host: u32 = 0;
        let n = self.zones.len();
        let mut k: usize = 0;
        while k < n
            invariant
                n == self.zones@.len(),
                k <= n,
                self.wf(),
                match best {
                    Some(i) => {
                        &&& i < k
                        &&& self.zone_matches(i as int, *a)
                        &&& best_host as nat == self.zones@[i as int].cidr.host_bits()
                        &&& forall|j: int|
                            0 <= j < k && #[trigger] self.zone_matches(j, *a)
                                ==> self.zones@[i as int].cidr.size()
                                <= self.zones@[j].cidr.size()
                        &&& forall|j: int|
                            0 <= j < i && #[trigger] self.zone_matches(j, *a)
                                ==> self.zones@[i as int].cidr.size()
                                < self.zones@[j].cidr.size()
                    },
                    None => forall|j: int|
                        0 <= j < k ==> !(#[trigger] self.zone_matches(j, *a)),
                },
            decreases n - k,
        {
            let z = &self.zones[k];
            if z.cidr.contains(a) {
                let h = z.cidr.host_bit_count();
                match best {
                    None => {
                        best = Some(k);
                        best_host = h;
                    },
                    Some(i) => {
                        proof {
                            lemma_size_orders_as_host_bits(
                                self.zones@[k as int].cidr,
                                self.zones@[i as int].cidr,
                            );
                        }
                        if h < best_host {
                            proof {
                                assert forall|j: int|
                                    0 <= j < k && #[trigger] self.zone_matches(j, *a)
                                        implies self.zones@[k as int].cidr.size()
                                        < self.zones@[j].cidr.size() by {
                                    lemma_size_orders_as_host_bits(
                                        self.zones@[i as int].cidr,
                                        self.zones@[j].cidr,
                                    );
                                }
                            }
                            best = Some(k);
                            best_host = h;
                        }
                    },
                }
            }
            k = k + 1;
        }
        best
    }

    /// The nameserver for queries from `a`: that of the most specific zone
    /// containing `a`, or `None` when no zone does.
    pub fn get_ns_addr(&self, a: &IpAddress) -> (r: Option<IpAddress>)
        requires
            self.wf(),
        ensures
            match r {
                Some(ns) => exists|i: int|
                    self.is_lookup_winner(*a, i) && ns == (#[trigger] self.zones@[i]).nameserver,
                None => forall|j: int|
                    0 <= j < self.zones@.len() ==> !(#[trigger] self.zone_matches(j, *a)),
            },
    {
        match self.lookup(a) {
            None => None,
            Some(i) => {
                let ns = self.zones[i].nameserver;
                proof {
                    assert(self.is_lookup_winner(*a, i as int) && ns == self.zones@[i as int].nameserver);
                }
                Some(ns)
            },
        }
    }
}

} // verus!
