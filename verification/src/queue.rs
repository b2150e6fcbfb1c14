//! A FIFO queue of packets handed from one stage of the pipeline to the next.

use vstd::prelude::*;
use std::collections::VecDeque;
use crate::packet::ProxiedPacket;

verus! {

/// A first-in-first-out queue of packets. One stage pushes at the back, the
/// next pops from the front, so no packet ever leaves out of the order it
/// entered. The surrounding process guards a shared queue with a lock and a
/// wakeup signal; the order itself is fixed here.
pub struct PacketQueue {
    items: VecDeque<ProxiedPacket>,
}

impl View for PacketQueue {
    type V = Seq<ProxiedPacket>;

    closed spec fn view(&self) -> Seq<ProxiedPacket> {
        self.items@
    }
}

impl PacketQueue {
    /// Every queued packet fits in one legacy UDP DNS datagram.
    pub open spec fn wf(self) -> bool {
        forall|i: int| 0 <= i < self@.len() ==> (#[trigger] self@[i]).wf()
    }

    /// An empty queue.
    pub fn new() -> (r: PacketQueue)
        ensures
            r@ == Seq::<ProxiedPacket>::empty(),
            r.wf(),
    {
        PacketQueue { items: VecDeque::new() }
    }

    /// Appends `p` behind every packet already queued.
    pub fn push(&mut self, p: ProxiedPacket)
        requires
            old(self).wf(),
            p.wf(),
        ensures
            final(self)@ == old(self)@.push(p),
            final(self).wf(),
    {
        self.items.push_back(p);
        proof {
            assert forall|i: int| 0 <= i < self@.len() implies (#[trigger] self@[i]).wf() by {
                if i < old(self)@.len() {
                    assert(self@[i] == old(self)@[i]);
                } else {
                    assert(self@[i] == p);
                }
            }
        }
    }

    /// Takes out the packet that has waited longest, or returns `None` on an
    /// empty queue.
    pub fn pop(&mut self) -> (r: Option<ProxiedPacket>)
        requires
            old(self).wf(),
        ensures
            old(self)@.len() > 0 ==> r == Some(old(self)@[0]) && final(self)@ == old(
                self,
            )@.subrange(1, old(self)@.len() as int),
            old(self)@.len() == 0 ==> r is None && final(self)@ == old(self)@,
            final(self).wf(),
            r matches Some(p) ==> p.wf(),
    {
        self.items.pop_front()
    }

    /// The number of queued packets.
    pub fn len(&self) -> (r: usize)
        ensures
            r == self@.len(),
    {
        self.items.len()
    }

    /// Whether nothing is queued.
    pub fn is_empty(&self) -> (r: bool)
        ensures
            r == (self@.len() == 0),
    {
        self.items.len() == 0
    }
}

} // verus!
