//! A transparent TCP tunneling proxy speaking the HTTP CONNECT method.
//!
//! The crate holds the per-connection core: the request parser that
//! interprets the inbound byte stream as a CONNECT handshake, the session
//! state machine that owns the lifecycle from first byte to tunnel
//! establishment, and the forwarding engine that relays bytes in both
//! directions with per-direction buffering and partial-write handling.
//! Sockets, the accept loop and the scheduling of reads and writes live
//! outside the crate; they hand bytes and events in and carry chunks out.

pub mod parser;
pub mod relay;
pub mod session;

use vstd::prelude::*;

verus! {

/// The exact response sent to the client once the tunnel to the target is up.
pub fn established_response() -> (r: &'static str)
    ensures
        r@ == "HTTP/1.1 200 Connection established\r\n\r\n"@,
{
    "HTTP/1.1 200 Connection established\r\n\r\n"
}

} // verus!
