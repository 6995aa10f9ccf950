//! Payload transfers: bulk data sent beside the packet stream.
//!
//! A packet announces a transfer by declaring, in its body, how many bytes
//! will come and on which port. The receiver then reads exactly that many
//! bytes from a connection of its own to that port. This module reads the
//! announcement and keeps the count; the sockets are the caller's. A failed
//! transfer is its own failure: nothing here touches the packet connection.

use vstd::prelude::*;
use crate::error::ProtocolError;
use crate::json::{as_i64, json_of, member, Json};
use crate::packet::Packet;

verus! {

/// What is said when more bytes arrive than were declared.
pub const TOO_MANY_BYTES: &'static str = "more bytes than declared";

/// What is said when the sender closes before everything has arrived.
pub const CLOSED_EARLY: &'static str = "sender closed before all bytes arrived";

/// What a packet says about the payload that goes with it.
#[derive(Debug, Clone, Copy, PartialEq, Eq, Structural)]
pub struct FileTransferInfo {
    /// How many bytes the sender will deliver.
    pub size: u64,
    /// The port on the sender's address where the payload is served.
    pub port: u16,
}

/// The transfer a packet body announces, if it announces one: a
/// `payloadSize` that is a non-negative integer, and a `payloadTransferInfo`
/// object whose `port` is an integer from 1 to 65535.
pub open spec fn transfer_of(body: Json) -> Option<FileTransferInfo> {
    match (body.member("payloadSize"@), body.member("payloadTransferInfo"@)) {
        (Some(size), Some(info)) => match (size.as_i64(), info.member("port"@)) {
            (Some(size), Some(port)) => match port.as_i64() {
                Some(port) => if size >= 0 && 1 <= port <= 65535 {
                    Some(FileTransferInfo { size: size as u64, port: port as u16 })
                } else {
                    None
                },
                None => None,
            },
            _ => None,
        },
        _ => None,
    }
}

impl FileTransferInfo {
    /// Reads the transfer a packet announces.
    pub fn from_packet(packet: &Packet) -> (r: Option<FileTransferInfo>)
        ensures
            r == transfer_of(packet@.body),
    {
        let size = match member(&packet.body, "payloadSize") {
            Some(v) => as_i64(v),
            None => None,
        };
        let port = match member(&packet.body, "payloadTransferInfo") {
            Some(info) => match member(info, "port") {
                Some(v) => as_i64(v),
                None => None,
            },
            None => None,
        };
        match (size, port) {
            (Some(size), Some(port)) => if size >= 0 && 1 <= port && port <= 65535 {
                Some(FileTransferInfo { size: size as u64, port: port as u16 })
            } else {
                None
            },
            _ => None,
        }
    }
}

/// The receiving end of one transfer: how much was declared, how much came.
#[derive(Debug, Clone, Copy, PartialEq, Eq)]
pub struct Transfer {
    expected: u64,
    received: u64,
}

impl Transfer {
    pub closed spec fn expected(&self) -> u64 {
        self.expected
    }

    pub closed spec fn received(&self) -> u64 {
        self.received
    }

    #[verifier::type_invariant]
    spec fn within(self) -> bool {
        self.received <= self.expected
    }

    /// A transfer of which nothing has arrived yet.
    pub fn new(info: FileTransferInfo) -> (t: Transfer)
        ensures
            t.expected() == info.size,
            t.received() == 0,
    {
        Transfer { expected: info.size, received: 0 }
    }

    /// How many bytes are still to come.
    pub fn remaining(&self) -> (r: u64)
        ensures
            r == self.expected() - self.received(),
            self.received() <= self.expected(),
    {
        proof {
            use_type_invariant(self);
        }
        self.expected - self.received
    }

    /// Whether everything declared has arrived.
    pub fn is_complete(&self) -> (r: bool)
        ensures
            r == (self.received() == self.expected()),
    {
        self.received == self.expected
    }

    /// Counts `count` more bytes. More bytes than were declared is an error,
    /// and the count stays where it was.
    pub fn receive(&mut self, count: u64) -> (r: Result<(), ProtocolError>)
        ensures
            final(self).expected() == old(self).expected(),
            match r {
                Ok(_) => {
                    &&& old(self).received() + count <= old(self).expected()
                    &&& final(self).received() == old(self).received() + count
                },
                Err(e) => old(self).received() + count > old(self).expected() && e is Transfer
                    && e.message() == TOO_MANY_BYTES@ && final(self).received() == old(self).received(),
            },
    {
        proof {
            use_type_invariant(&*self);
        }
        if count > self.expected - self.received {
            Err(ProtocolError::Transfer(TOO_MANY_BYTES.to_owned()))
        } else {
            *self = Transfer { expected: self.expected, received: self.received + count };
            Ok(())
        }
    }

    /// The sender closed the connection: the transfer succeeded exactly if
    /// everything declared had arrived.
    pub fn finish(self) -> (r: Result<u64, ProtocolError>)
        ensures
            match r {
                Ok(size) => self.received() == self.expected() && size == self.expected(),
                Err(e) => self.received() != self.expected() && e is Transfer && e.message()
                    == CLOSED_EARLY@,
            },
    {
        if self.received == self.expected {
            Ok(self.expected)
        } else {
            Err(ProtocolError::Transfer(CLOSED_EARLY.to_owned()))
        }
    }
}

} // verus!
