//! The per-query worker of the worker-pool architecture, as a step function.
//!
//! In this architecture each matched query gets its own task: the task opens
//! an ephemeral upstream socket, sends the query, and loops reading replies
//! with a fixed receive timeout, forwarding each one straight to the client
//! address it captured — no shared correlation table. The surrounding
//! process performs the socket work and feeds what happened into
//! [`worker_step`]; the decision of what to do next is fixed here.

use vstd::prelude::*;
use crate::net::SockAddr;
use crate::packet::ProxiedPacket;

verus! {

/// What the task's blocking receive came back with.
pub enum WorkerEvent {
    /// A reply datagram arrived within the timeout.
    Reply { data: Vec<u8> },
    /// The receive timed out: the query's round trip is over.
    TimedOut,
    /// The receive failed. Logged by the caller; the task still ends
    /// cleanly rather than crash anything else in flight.
    RecvFailed,
}

/// What the task does next.
pub enum WorkerAction {
    /// Send `packet.data` — the reply, verbatim — to `packet.peer`, then
    /// keep listening for further replies to the same query.
    Forward { packet: ProxiedPacket },
    /// Stop: the task terminates without forwarding anything further.
    Exit,
}

/// Decides the task's next move after one receive on its ephemeral socket:
/// a reply is forwarded verbatim to the captured client and the loop goes
/// on; a timeout or a receive failure ends the task, forwarding nothing.
pub fn worker_step(client: SockAddr, event: WorkerEvent) -> (r: WorkerAction)
    requires
        event matches WorkerEvent::Reply { data } ==> data@.len() <= 512,
    ensures
        match event {
            WorkerEvent::Reply { data } => r == (WorkerAction::Forward {
                packet: ProxiedPacket { data, peer: client },
            }) && (r matches WorkerAction::Forward { packet } ==> packet.wf()),
            WorkerEvent::TimedOut => r == WorkerAction::Exit,
            WorkerEvent::RecvFailed => r == WorkerAction::Exit,
        },
{
    match event {
        WorkerEvent::Reply { data } => WorkerAction::Forward {
            packet: ProxiedPacket { data, peer: client },
        },
        WorkerEvent::TimedOut => WorkerAction::Exit,
        WorkerEvent::RecvFailed => WorkerAction::Exit,
    }
}

} // verus!
