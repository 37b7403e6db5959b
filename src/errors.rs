use crate::kmbox_net::cmd::CMD;
use crate::DeviceOperation;
use vstd::prelude::*;

verus! {

/// `std::io::Error`, the transport failure that sockets report. The library
/// only carries it from the socket to the caller; it never looks inside.
#[verifier::external_type_specification]
#[verifier::external_body]
pub struct ExIoError(std::io::Error);

/// Why a connection to a device could not be established.
#[derive(Debug)]
pub enum ConnectionFailure {
    /// The transport failed or timed out.
    Transport(std::io::Error),
    /// The handshake reply did not echo the request's sequence and opcode.
    ReplyMismatch { sent_sequence: u32, sent_opcode: u32, reply_sequence: u32, reply_opcode: u32 },
    /// The handshake reply was not one whole packet.
    MalformedReply { length: usize },
    /// The device identifier does not start with eight hexadecimal digits.
    InvalidIdentifier,
    /// The device address could not be read.
    InvalidAddress,
    /// The operating system gave no random value for the request's nonce.
    NoRandomness,
}

/// Why a command could not be carried out.
#[derive(Debug)]
pub enum SendFailure {
    /// The transport failed or timed out while sending or awaiting the reply.
    Transport(std::io::Error),
    /// The backend does not implement this operation.
    Unsupported(DeviceOperation),
    /// The session has no send-side behaviour for this command.
    UnsupportedCommand(CMD),
    /// The device port leaves no port above it for monitor mode.
    NoMonitorPort,
    /// The operating system gave no random value for the packet's nonce.
    NoRandomness,
}

/// A connection failure, whatever the backend.
#[derive(Debug)]
pub struct InputMiddlewareConnectionError(pub ConnectionFailure);

/// A failed device action, whatever the backend.
#[derive(Debug)]
pub struct InputMiddlewareSendError(pub SendFailure);

impl InputMiddlewareSendError {
    /// Whether the backend does not implement the operation.
    pub fn is_unsupported(&self) -> (r: bool)
        ensures
            r <==> (self.0 is Unsupported || self.0 is UnsupportedCommand),
    {
        match &self.0 {
            SendFailure::Unsupported(_) | SendFailure::UnsupportedCommand(_) => true,
            _ => false,
        }
    }
}

} // verus!
