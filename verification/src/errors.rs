//! The failure taxonomy of the camera client.

use vstd::prelude::*;

verus! {

/// Everything the connect and fetch paths can report.
#[derive(Clone, Copy, Debug, PartialEq, Eq, Structural)]
pub enum GcError {
    /// The transport failed while connecting or during the handshake.
    ConnectionError,
    /// An operation that needs a live connection ran before one was made.
    NotConnectedError,
    /// The received bytes were not a well-formed envelope.
    ProtocolError,
    /// The decoded raster has no standard displayable form.
    FormatConversionError,
}

impl GcError {
    /// The human-readable account of the error, fit for a dialog message.
    pub open spec fn text(self) -> Seq<char> {
        match self {
            GcError::ConnectionError => "Could not connect to the camera server."@,
            GcError::NotConnectedError => "Not connected to the camera server."@,
            GcError::ProtocolError => "The camera server sent a malformed reply."@,
            GcError::FormatConversionError => "The received image has no displayable form."@,
        }
    }

    pub fn message(&self) -> (r: &'static str)
        ensures
            r@ == self.text(),
    {
        match self {
            GcError::ConnectionError => "Could not connect to the camera server.",
            GcError::NotConnectedError => "Not connected to the camera server.",
            GcError::ProtocolError => "The camera server sent a malformed reply.",
            GcError::FormatConversionError => "The received image has no displayable form.",
        }
    }
}

} // verus!
