//! The per-connection relay: a session id counter shared by all
//! accepted connections, and the decision core of the relay loop that
//! forwards packets verbatim between a client and its upstream
//! connection.
//!
//! The relay session is modelled as a small state machine with states
//! `Relaying` and `Closing`. End of stream from either side, or an
//! unrecoverable stream error, moves the session to `Closing` so both
//! sides are torn down — a deliberate deviation from looping forever,
//! made for resource correctness. A failure while forwarding a single
//! packet is logged by the caller and otherwise swallowed: the session
//! keeps relaying and the packet is simply not delivered.

use vstd::prelude::*;

use crate::packet::Packet;

verus! {

/// Hands out relay session ids: owned by the relay component, starting
/// at 1, advanced by one atomic step per accepted connection, never
/// reused.
pub struct SessionCounter {
    next: u32,
}

impl SessionCounter {
    /// The id the next accepted connection will receive.
    pub closed spec fn spec_next(self) -> u32 {
        self.next
    }

    /// A fresh counter: session ids start at 1.
    pub fn new() -> (c: Self)
        ensures
            c.spec_next() == 1,
    {
        SessionCounter { next: 1 }
    }

    /// Whether another id can still be handed out.
    pub fn has_next(&self) -> (r: bool)
        ensures
            r == (self.spec_next() < 0xFFFFFFFF),
    {
        self.next < 0xFFFFFFFF
    }

    /// Takes the next session id and advances the counter by exactly
    /// one.
    pub fn next_id(&mut self) -> (r: u32)
        requires
            old(self).spec_next() < 0xFFFFFFFF,
        ensures
            r == old(self).spec_next(),
            final(self).spec_next() == old(self).spec_next() + 1,
    {
        let r = self.next;
        self.next = self.next + 1;
        r
    }
}

/// Relay session ids across the process lifetime: starting at 1 and
/// advancing by exactly one per accepted connection, the k-th session
/// receives id k + 1, so ids are strictly increasing and no two
/// sessions share one.
pub proof fn lemma_relay_ids_strictly_increasing(ids: Seq<u32>)
    requires
        ids.len() > 0 ==> ids[0] == 1,
        forall|k: int| 0 <= k < ids.len() - 1 ==> #[trigger] ids[k + 1] == ids[k] + 1,
    ensures
        forall|k: int| 0 <= k < ids.len() ==> ids[k] == k + 1,
        forall|a: int, b: int| 0 <= a < b < ids.len() ==> ids[a] < ids[b],
{
    assert forall|k: int| 0 <= k < ids.len() implies ids[k] == k + 1 by {
        lemma_relay_ids_are_offsets(ids, k);
    }
}

/// The k-th id of a run that starts at 1 and advances by one is k + 1.
proof fn lemma_relay_ids_are_offsets(ids: Seq<u32>, k: int)
    requires
        0 <= k < ids.len(),
        ids.len() > 0 ==> ids[0] == 1,
        forall|j: int| 0 <= j < ids.len() - 1 ==> #[trigger] ids[j + 1] == ids[j] + 1,
    ensures
        ids[k] == k + 1,
    decreases k,
{
    if k > 0 {
        lemma_relay_ids_are_offsets(ids, k - 1);
        assert(ids[(k - 1) + 1] == ids[k - 1] + 1);
    }
}

/// The phase a relay session is in.
#[derive(Debug, Copy, Clone, PartialEq, Eq, Structural)]
pub enum RelayState {
    /// Both streams are live; packets are being forwarded.
    Relaying,
    /// One side ended or failed; both sides are to be torn down.
    Closing,
}

/// One thing the relay loop observed: whichever side produced it first.
pub enum RelayEvent {
    /// The client sent a packet.
    ClientPacket(Packet),
    /// The upstream sent a packet.
    UpstreamPacket(Packet),
    /// The client's stream ended.
    ClientClosed,
    /// The upstream's stream ended.
    UpstreamClosed,
    /// Reading from the client failed.
    ClientError,
    /// Reading from the upstream failed.
    UpstreamError,
    /// The previous forward failed to send.
    ForwardFailed,
}

/// What the relay loop must do next.
pub enum RelayAction {
    /// Send this packet, unmodified, to the upstream side.
    ForwardToUpstream(Packet),
    /// Send this packet, unmodified, to the client side.
    ForwardToClient(Packet),
    /// Nothing to send; keep racing the next reads.
    Continue,
    /// Tear down both streams and end the session.
    Shutdown,
}

/// One step of the relay session: a packet from either side is handed
/// back verbatim to be forwarded to the opposite side; end of stream or
/// a read error on either side closes the session; a failed forward is
/// swallowed and the session keeps relaying.
pub fn relay_step(state: RelayState, event: RelayEvent) -> (r: (RelayState, RelayAction))
    ensures
        state is Closing ==> r.0 is Closing && r.1 is Shutdown,
        state is Relaying ==> match event {
            RelayEvent::ClientPacket(p) => r.0 is Relaying && (r.1 matches
                RelayAction::ForwardToUpstream(q) && q == p),
            RelayEvent::UpstreamPacket(p) => r.0 is Relaying && (r.1 matches
                RelayAction::ForwardToClient(q) && q == p),
            RelayEvent::ForwardFailed => r.0 is Relaying && r.1 is Continue,
            _ => r.0 is Closing && r.1 is Shutdown,
        },
{
    match state {
        RelayState::Closing => (RelayState::Closing, RelayAction::Shutdown),
        RelayState::Relaying => match event {
            RelayEvent::ClientPacket(p) => (RelayState::Relaying, RelayAction::ForwardToUpstream(p)),
            RelayEvent::UpstreamPacket(p) => (RelayState::Relaying, RelayAction::ForwardToClient(p)),
            RelayEvent::ForwardFailed => (RelayState::Relaying, RelayAction::Continue),
            _ => (RelayState::Closing, RelayAction::Shutdown),
        },
    }
}

} // verus!
