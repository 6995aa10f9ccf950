//! Device synchronisation over a local network: the packet codec, the
//! pairing and connection state machines, capability-based plugin dispatch
//! and the feature plugins that ride on them.
//!
//! Everything here is pure: sockets, timers and the desktop shell live with
//! the caller, which feeds events in and carries the returned actions out.

pub mod connection;
pub mod device;
pub mod discovery;
pub mod error;
pub mod fields;
pub mod json;
pub mod keyed;
pub mod manager;
pub mod messages;
pub mod mpris;
pub mod packet;
pub mod pairing;
pub mod payload;
pub mod plugins;
pub mod text;
pub mod trust;

use vstd::prelude::*;

verus! {

/// Version of the wire protocol spoken in identity and pairing packets.
pub const PROTOCOL_VERSION: u32 = 7;

} // verus!
