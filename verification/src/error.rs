//! Error taxonomy of the IPC protocol.

use vstd::prelude::*;

verus! {

/// Errors surfaced by the IPC protocol layer.
///
/// `IoError` carries the rendered text of the underlying I/O failure;
/// the unverified transport layer performs the rendering.
#[derive(Debug)]
pub enum IpcError {
    /// Connection could not be established, or the handshake failed.
    ConnectionFailed(String),
    /// An I/O failure on the transport, rendered to text.
    IoError(String),
    /// The outbound queue or a result channel was closed.
    ChannelClosed,
    /// The per-request local timer fired before a response arrived.
    Timeout,
    /// The request was cancelled by the caller.
    Cancelled,
    /// A frame failed validation (magic, version, size, checksum, payload).
    InvalidFrame(String),
    /// An admission cap was reached; the request was not sent.
    Backpressure,
}

impl IpcError {
    /// Human-readable text for the error, usable in logs and responses.
    pub fn message(&self) -> (r: String)
        ensures
            r@ == self.message_spec(),
    {
        match self {
            IpcError::ConnectionFailed(s) => "Connection failed: ".to_owned().concat(s.as_str()),
            IpcError::IoError(s) => "IO error: ".to_owned().concat(s.as_str()),
            IpcError::ChannelClosed => "Channel closed".to_owned(),
            IpcError::Timeout => "Request timeout".to_owned(),
            IpcError::Cancelled => "Request cancelled".to_owned(),
            IpcError::InvalidFrame(s) => "Invalid frame: ".to_owned().concat(s.as_str()),
            IpcError::Backpressure => "Backpressure: too many pending requests".to_owned(),
        }
    }

    /// The text `message` returns, as a sequence of characters.
    pub open spec fn message_spec(&self) -> Seq<char> {
        match self {
            IpcError::ConnectionFailed(s) => "Connection failed: "@ + s@,
            IpcError::IoError(s) => "IO error: "@ + s@,
            IpcError::ChannelClosed => "Channel closed"@,
            IpcError::Timeout => "Request timeout"@,
            IpcError::Cancelled => "Request cancelled"@,
            IpcError::InvalidFrame(s) => "Invalid frame: "@ + s@,
            IpcError::Backpressure => "Backpressure: too many pending requests"@,
        }
    }
}

} // verus!
