//! Datagrams in flight and the DNS transaction ID they carry.

use vstd::prelude::*;
use crate::net::SockAddr;

verus! {

/// The largest legacy UDP DNS payload this proxy handles.
pub const MAX_PACKET_LEN: usize = 512;

/// A datagram read off a socket: its payload and the peer it came from
/// (or, once a reply is resolved, the client it must go back to).
#[derive(Clone, Debug)]
pub struct ProxiedPacket {
    pub data: Vec<u8>,
    pub peer: SockAddr,
}

impl ProxiedPacket {
    /// The payload fits in one legacy UDP DNS datagram.
    pub open spec fn wf(self) -> bool {
        self.data@.len() <= MAX_PACKET_LEN
    }
}

/// The DNS transaction ID: the first two payload bytes, big-endian.
pub open spec fn spec_packet_id(s: Seq<u8>) -> u16
    recommends
        s.len() >= 2,
{
    ((s[0] as u16) << 8) | (s[1] as u16)
}

/// Reads the transaction ID out of a DNS message.
pub fn get_packet_id(packet: &[u8]) -> (r: u16)
    requires
        packet@.len() >= 2,
    ensures
        r == spec_packet_id(packet@),
{
    ((packet[0] as u16) << 8) | (packet[1] as u16)
}

} // verus!
