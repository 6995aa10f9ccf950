//! The ways a protocol operation can fail.

use vstd::prelude::*;

verus! {

/// What went wrong, by the layer that noticed.
///
/// None of these is fatal to the process: a malformed frame is dropped, a
/// transport failure ends one connection, pairing failures return the device
/// to its unpaired state, and plugin and transfer failures stay with the one
/// plugin or transfer that raised them.
#[derive(Debug, Clone, PartialEq, Eq)]
pub enum ProtocolError {
    /// A frame or body that does not have the shape the protocol asks for.
    MalformedPacket(String),
    /// The connection failed or was closed.
    Transport(String),
    /// The peer presented a certificate other than the one it was paired with.
    UntrustedCertificate,
    /// A pairing request went unanswered for the whole timeout window.
    PairingTimedOut,
    /// The peer, or the local user, declined to pair.
    PairingRejected,
    /// The operation does not apply to the device in its current state.
    NotApplicable,
    /// No device is known under the given id.
    UnknownDevice,
    /// A plugin could not handle a packet.
    Plugin(String),
    /// A payload transfer did not deliver what was declared.
    Transfer(String),
}

impl ProtocolError {
    /// The message a variant carries; the empty string for those that carry none.
    pub open spec fn message(self) -> Seq<char> {
        match self {
            ProtocolError::MalformedPacket(m) => m@,
            ProtocolError::Transport(m) => m@,
            ProtocolError::Plugin(m) => m@,
            ProtocolError::Transfer(m) => m@,
            _ => Seq::empty(),
        }
    }
}

} // verus!
