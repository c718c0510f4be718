//! A TCP-to-UDP relay core: a fixed-layout binary framing codec, connection
//! admission control, the per-iteration decisions of the two forwarding
//! loops, and the per-connection supervisor state machine.
//!
//! The wire format disguises itself as a TLS record stream: every frame and
//! the one-time greeting start with the bytes `0x17 0x03 0x03`.

pub mod admission;
pub mod bridge;
pub mod greeting;
pub mod packet;
pub mod supervisor;

use vstd::prelude::*;

verus! {

} // verus!
