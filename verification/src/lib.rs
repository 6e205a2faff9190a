//! Timed replay of captured network traffic.
//!
//! The library holds the verified core of a replay tool: extracting the UDP
//! application payload out of a raw captured Ethernet frame, and the
//! scheduling logic that reconstructs the original inter-frame pacing from
//! capture timestamps.  Reading the capture container, sleeping and sending
//! datagrams are left to an unverified shell around the library.

use vstd::prelude::*;

pub mod extract;
pub mod fetch;
pub mod schedule;

verus! {

/// The UDP port payloads are broadcast to when none is configured.
pub const DEFAULT_PORT: u16 = 8080;

/// Configuration consumed by the replay engine, supplied by the
/// command-line layer: the capture file to read, the destination port
/// (`DEFAULT_PORT` when absent) and whether to replay continuously.
pub struct Args {
    pub input: String,
    pub port: Option<u16>,
    pub repeat: bool,
}

impl Args {
    /// The port replay will actually send to: the configured one, or the
    /// default when none was given.
    pub fn effective_port(&self) -> (p: u16)
        ensures
            p == match self.port {
                Some(q) => q,
                None => DEFAULT_PORT,
            },
    {
        match self.port {
            Some(q) => q,
            None => DEFAULT_PORT,
        }
    }
}

} // verus!
