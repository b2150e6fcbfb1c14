//! Laws relating the dispatcher's bookkeeping to the reply handler.

use vstd::prelude::*;
use crate::net::SockAddr;
use crate::packet::spec_packet_id;
use crate::dispatch::spec_reply_client;

verus! {

/// End-to-end correlation: once the dispatcher has recorded a forwarded
/// query's transaction ID against its client, a reply bearing that ID is
/// delivered to exactly that client — whatever else the table holds.
pub proof fn lemma_end_to_end_correlation(
    m: Map<u16, SockAddr>,
    id: u16,
    client: SockAddr,
    reply: Seq<u8>,
)
    requires
        reply.len() >= 2,
        spec_packet_id(reply) == id,
    ensures
        spec_reply_client(m.insert(id, client), reply) == Some(client),
{
}

/// The duplicate-ID race resolves last-writer-wins: when a second query
/// reuses a transaction ID before the first resolves, its recording
/// overwrites the first, so the one reply goes to the second client and
/// the first client gets nothing through this ID.
pub proof fn lemma_duplicate_id_last_writer_wins(
    m: Map<u16, SockAddr>,
    id: u16,
    first: SockAddr,
    second: SockAddr,
    reply: Seq<u8>,
)
    requires
        reply.len() >= 2,
        spec_packet_id(reply) == id,
    ensures
        spec_reply_client(m.insert(id, first).insert(id, second), reply) == Some(second),
{
}

/// A consumed correlation entry is gone: after a reply under `id` is
/// delivered the table no longer routes that ID, so a second reply with the
/// same ID is dropped as stale.
pub proof fn lemma_reply_consumes_entry(m: Map<u16, SockAddr>, id: u16, reply: Seq<u8>)
    requires
        reply.len() >= 2,
        spec_packet_id(reply) == id,
    ensures
        spec_reply_client(m.remove(id), reply) is None,
{
}

} // verus!
