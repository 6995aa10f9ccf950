//! Screen share: picking the stream a screencast session offers.

use vstd::prelude::*;
use crate::error::ProtocolError;

verus! {

/// What a granted screencast session hands to the capture pipeline.
#[derive(Debug, Clone, Copy, PartialEq, Eq, Structural)]
pub struct PortalSession {
    /// PipeWire node id of the stream.
    pub pipewire_node_id: u32,
}

impl PortalSession {
    /// The session for the first stream the portal offered.
    ///
    /// `streams` holds the node ids of the offered streams, in the portal's
    /// order. A session that offers no stream is an error.
    pub fn from_streams(streams: &Vec<u32>) -> (r: Result<PortalSession, ProtocolError>)
        ensures
            match r {
                Ok(session) => streams.len() > 0 && session.pipewire_node_id == streams[0],
                Err(e) => streams.len() == 0 && e is Plugin && e.message()
                    == "No streams available"@,
            },
    {
        if streams.len() == 0 {
            Err(ProtocolError::Plugin("No streams available".to_owned()))
        } else {
            Ok(PortalSession { pipewire_node_id: streams[0] })
        }
    }
}

} // verus!
