//! Per-packet decisions: where a query goes, and who a reply goes back to.

use vstd::prelude::*;
use crate::net::SockAddr;
use crate::packet::{ProxiedPacket, spec_packet_id, get_packet_id};
use crate::zones::ZoneTable;
use crate::correlation::CorrelationTable;

verus! {

/// What the dispatcher decided for one inbound query.
pub enum DispatchDecision {
    /// Forward the query to `nameserver`, the correlation now pending under
    /// `txn_id`. `zone` is the index of the winning zone, for the log line.
    Forward { zone: usize, nameserver: crate::net::IpAddress, txn_id: u16 },
    /// No zone contains the client: drop the query and log a diagnostic.
    /// Nothing is sent upstream and no correlation entry is made.
    NoRoute,
}

/// What the upstream reply handler decided for one reply datagram.
pub enum ReplyDecision {
    /// Send `packet.data` — the reply, verbatim — back to `packet.peer`,
    /// the client recorded for the reply's transaction ID.
    Deliver { packet: ProxiedPacket },
    /// No query is pending under the reply's transaction ID (a stale,
    /// duplicate or spoofed reply): drop it and log a diagnostic.
    Stale,
}

/// The client a reply carrying ID `spec_packet_id(reply)` must go to:
/// whoever the correlation map holds under that ID, if anyone.
pub open spec fn spec_reply_client(m: Map<u16, SockAddr>, reply: Seq<u8>) -> Option<SockAddr> {
    if m.contains_key(spec_packet_id(reply)) {
        Some(m[spec_packet_id(reply)])
    } else {
        None
    }
}

/// Decides one inbound query: looks the client's address up in the zone
/// table; on a match records the query's transaction ID against the client
/// and says where to forward, on a miss changes nothing and says to drop.
pub fn dispatch(table: &ZoneTable, corr: &mut CorrelationTable, packet: &ProxiedPacket) -> (r:
    DispatchDecision)
    requires
        table.wf(),
        packet.wf(),
        packet.data@.len() >= 2,
    ensures
        match r {
            DispatchDecision::Forward { zone, nameserver, txn_id } => {
                &&& table.is_lookup_winner(packet.peer.ip, zone as int)
                &&& nameserver == table.zones@[zone as int].nameserver
                &&& txn_id == spec_packet_id(packet.data@)
                &&& final(corr)@ == old(corr)@.insert(txn_id, packet.peer)
            },
            DispatchDecision::NoRoute => {
                &&& forall|j: int|
                    0 <= j < table.zones@.len() ==> !(#[trigger] table.zone_matches(
                        j,
                        packet.peer.ip,
                    ))
                &&& final(corr)@ == old(corr)@
            },
        },
{
    match table.lookup(&packet.peer.ip) {
        None => DispatchDecision::NoRoute,
        Some(zone) => {
            let txn_id = get_packet_id(packet.data.as_slice());
            let nameserver = table.zones[zone].nameserver;
            corr.record(txn_id, packet.peer);
            DispatchDecision::Forward { zone, nameserver, txn_id }
        },
    }
}

/// Decides one upstream reply: resolves its transaction ID against the
/// correlation table. A pending ID is consumed and the reply is handed back
/// verbatim, addressed to the recorded client; an unknown ID leaves the
/// table unchanged and the reply is dropped as stale.
pub fn handle_reply(corr: &mut CorrelationTable, reply: Vec<u8>) -> (r: ReplyDecision)
    requires
        reply@.len() >= 2,
        reply@.len() <= 512,
    ensures
        match r {
            ReplyDecision::Deliver { packet } => {
                &&& spec_reply_client(old(corr)@, reply@) == Some(packet.peer)
                &&& packet.data@ == reply@
                &&& packet.wf()
                &&& final(corr)@ == old(corr)@.remove(spec_packet_id(reply@))
            },
            ReplyDecision::Stale => {
                &&& spec_reply_client(old(corr)@, reply@) is None
                &&& final(corr)@ == old(corr)@
            },
        },
{
    let id = get_packet_id(reply.as_slice());
    match corr.resolve(id) {
        Some(client) => ReplyDecision::Deliver {
            packet: ProxiedPacket { data: reply, peer: client },
        },
        None => ReplyDecision::Stale,
    }
}

} // verus!
