//! Per-iteration decisions of the two forwarding loops.
//!
//! Each bridged connection runs two loops: an outbound one that reads
//! frames from the client stream and forwards their payload as datagrams,
//! and an inbound one that receives datagrams and writes them back to the
//! stream behind a regenerated header. Both poll a shared liveness flag
//! once per iteration; the socket work and the flag itself live with the
//! caller, which reports what happened as an event and performs the action
//! decided here.

use vstd::prelude::*;
use crate::packet::{decode_outbound_frame, spec_decode, Ipv4Endpoint, MAX_PAYLOAD_LEN};

verus! {

/// What one read from the client stream produced.
#[derive(Clone, Copy, Debug, PartialEq, Eq, Structural)]
pub enum StreamEvent {
    /// A zero-length read: the client closed the connection.
    Closed,
    /// This many bytes were read into the buffer.
    Data(usize),
    /// The read timed out with no data; the liveness flag gets re-checked.
    Timeout,
    /// Any other read error.
    Failed,
}

/// What the outbound loop does with one stream event.
#[derive(Clone, Copy, Debug, PartialEq, Eq, Structural)]
pub enum OutboundAction {
    /// Clear the liveness flag and exit the loop.
    Shutdown,
    /// Send the payload bytes (offsets 12 up to 12 plus the given length)
    /// to the given destination over the datagram socket, then loop. A send
    /// failure is logged and does not terminate the loop: forwarding is
    /// best-effort and per-datagram failure cannot be signalled back.
    Forward(Ipv4Endpoint, usize),
    /// Nothing to forward this iteration; loop again.
    Idle,
}

/// What one receive on the datagram socket produced.
#[derive(Clone, Copy, Debug, PartialEq, Eq, Structural)]
pub enum DatagramEvent {
    /// A datagram of the given length arrived from the given source.
    Received(Ipv4Endpoint, usize),
    /// The receive timed out; the liveness flag gets re-checked.
    Timeout,
    /// Any other receive error.
    Failed,
}

/// What the inbound loop does with one datagram event.
#[derive(Clone, Copy, Debug, PartialEq, Eq, Structural)]
pub enum InboundAction {
    /// Clear the liveness flag and exit the loop.
    Shutdown,
    /// Write the header for this source and length, then the datagram body,
    /// to the stream, and flush at once.
    Reply(Ipv4Endpoint, usize),
    /// Nothing arrived this iteration; loop again.
    Idle,
}

/// The outbound decision: a closed stream or a read error shuts the bridge
/// down, a timeout is idle, and read data is forwarded to the destination
/// its frame header names. A frame the received bytes do not cover is
/// dropped and forwarding continues, like a failed send.
pub open spec fn spec_outbound_action(b: Seq<u8>, ev: StreamEvent) -> OutboundAction {
    match ev {
        StreamEvent::Closed => OutboundAction::Shutdown,
        StreamEvent::Failed => OutboundAction::Shutdown,
        StreamEvent::Timeout => OutboundAction::Idle,
        StreamEvent::Data(n) => match spec_decode(b.subrange(0, n as int)) {
            Ok((dest, len)) => OutboundAction::Forward(dest, len),
            Err(_) => OutboundAction::Idle,
        },
    }
}

/// The inbound decision: a receive error shuts the bridge down, a timeout
/// is idle, and a received datagram is written back to the client behind a
/// header regenerated from its source and length. A datagram too large for
/// the 16-bit length field is dropped.
pub open spec fn spec_inbound_action(ev: DatagramEvent) -> InboundAction {
    match ev {
        DatagramEvent::Received(src, n) => if n <= MAX_PAYLOAD_LEN {
            InboundAction::Reply(src, n)
        } else {
            InboundAction::Idle
        },
        DatagramEvent::Timeout => InboundAction::Idle,
        DatagramEvent::Failed => InboundAction::Shutdown,
    }
}

/// One iteration of the outbound (stream to datagram) loop, given the bytes
/// the read left in `buffer` and what the read reported.
pub fn outbound_step(buffer: &[u8], event: StreamEvent) -> (a: OutboundAction)
    requires
        event matches StreamEvent::Data(n) ==> n <= buffer@.len(),
    ensures
        a == spec_outbound_action(buffer@, event),
{
    match event {
        StreamEvent::Closed => OutboundAction::Shutdown,
        StreamEvent::Failed => OutboundAction::Shutdown,
        StreamEvent::Timeout => OutboundAction::Idle,
        StreamEvent::Data(n) => match decode_outbound_frame(&buffer[0..n]) {
            Ok((dest, len)) => OutboundAction::Forward(dest, len),
            Err(_) => OutboundAction::Idle,
        },
    }
}

/// One iteration of the inbound (datagram to stream) loop, given what the
/// receive reported.
pub fn inbound_step(event: DatagramEvent) -> (a: InboundAction)
    ensures
        a == spec_inbound_action(event),
{
    match event {
        DatagramEvent::Received(src, n) => if n <= MAX_PAYLOAD_LEN {
            InboundAction::Reply(src, n)
        } else {
            InboundAction::Idle
        },
        DatagramEvent::Timeout => InboundAction::Idle,
        DatagramEvent::Failed => InboundAction::Shutdown,
    }
}

/// A forwarded payload always lies within the received bytes: when the
/// outbound step decides to forward, the frame's 12 header bytes and `len`
/// payload bytes all fit in what the read produced.
pub proof fn lemma_forward_in_bounds(b: Seq<u8>, n: usize, dest: Ipv4Endpoint, len: usize)
    requires
        n <= b.len(),
        spec_outbound_action(b, StreamEvent::Data(n)) == OutboundAction::Forward(dest, len),
    ensures
        12 + len <= n,
{
}

} // verus!
