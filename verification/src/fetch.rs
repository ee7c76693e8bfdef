//! The image-fetch client's state: whether a connection was established,
//! and the single slot of display-ready PNG bytes. The transport itself
//! (connect, write, read) runs outside this crate and hands back plain
//! values; every decision about them is made and proved here.

use vstd::prelude::*;

use crate::envelope::{
    decode_envelope, envelope_displayable, envelope_parse_ok, envelope_png, trimmed_view,
};
use crate::errors::GcError;

verus! {

/// Mathematical state of the fetch client.
pub struct FetchView {
    pub connected: bool,
    pub data: Option<Seq<u8>>,
}

/// The fetch client: owns the connection flag and the last good frame's
/// encoded bytes. A failed fetch never disturbs the previous frame.
pub struct FetchClient {
    server_connection: bool,
    data: Option<Vec<u8>>,
}

impl View for FetchClient {
    type V = FetchView;

    closed spec fn view(&self) -> FetchView {
        FetchView {
            connected: self.server_connection,
            data: match self.data {
                Some(bytes) => Some(bytes@),
                None => None,
            },
        }
    }
}

impl Default for FetchClient {
    /// Starts disconnected, with no frame ever received.
    fn default() -> (r: Self)
        ensures
            !r@.connected,
            r@.data is None,
    {
        FetchClient { server_connection: false, data: None }
    }
}

impl FetchClient {
    /// Record the outcome of the transport-level connect-and-greeting
    /// exchange, which runs outside this crate: success marks the client
    /// connected, failure is a connection error and changes nothing.
    pub fn complete_connect(&mut self, transport_ok: bool) -> (r: Result<(), GcError>)
        ensures
            final(self)@.data == old(self)@.data,
            transport_ok ==> r is Ok && final(self)@.connected,
            !transport_ok ==> r == Err::<(), GcError>(GcError::ConnectionError) && final(self)@
                == old(self)@,
    {
        if transport_ok {
            self.server_connection = true;
            Ok(())
        } else {
            Err(GcError::ConnectionError)
        }
    }

    /// The fixed command that asks the peer for a frame; refused, with the
    /// state untouched, when no connection was ever established.
    pub fn fetch_command(&self) -> (r: Result<&'static str, GcError>)
        ensures
            self@.connected ==> r is Ok && r->Ok_0@ == "SEND IMAGE TEST"@,
            !self@.connected ==> r == Err::<&'static str, GcError>(GcError::NotConnectedError),
    {
        if self.server_connection {
            Ok("SEND IMAGE TEST")
        } else {
            Err(GcError::NotConnectedError)
        }
    }

    /// Decode a received envelope buffer and install the PNG bytes as the
    /// new display data. Before any successful connect this is a
    /// not-connected error; bytes that do not deserialize are a protocol
    /// error; a raster with no displayable PNG form is a conversion error;
    /// otherwise the fetch succeeds and the envelope's PNG encoding
    /// replaces the data slot. On every failure the previous data stays
    /// exactly as it was.
    pub fn complete_fetch(&mut self, buffer: &[u8]) -> (r: Result<(), GcError>)
        ensures
            final(self)@.connected == old(self)@.connected,
            r is Err ==> final(self)@ == old(self)@,
            !old(self)@.connected ==> r == Err::<(), GcError>(GcError::NotConnectedError),
            r is Ok <==> (old(self)@.connected && envelope_parse_ok(trimmed_view(buffer@))
                && envelope_displayable(trimmed_view(buffer@))),
            r is Ok ==> final(self)@.data == Some(envelope_png(trimmed_view(buffer@))),
            old(self)@.connected ==> ((r is Err && r->Err_0 == GcError::ProtocolError)
                <==> !envelope_parse_ok(trimmed_view(buffer@))),
            old(self)@.connected && r is Err ==> (r->Err_0 == GcError::ProtocolError || r->Err_0
                == GcError::FormatConversionError),
    {
        if !self.server_connection {
            return Err(GcError::NotConnectedError);
        }
        match decode_envelope(buffer) {
            Ok(bytes) => {
                self.data = Some(bytes);
                Ok(())
            },
            Err(e) => Err(e),
        }
    }

    /// Whether a connection was established.
    pub fn is_connected(&self) -> (r: bool)
        ensures
            r == self@.connected,
    {
        self.server_connection
    }

    /// The last good frame's PNG bytes, if any fetch ever succeeded.
    pub fn encoded_data(&self) -> (r: &Option<Vec<u8>>)
        ensures
            r is Some <==> self@.data is Some,
            r is Some ==> r->Some_0@ == self@.data->Some_0,
    {
        &self.data
    }
}

} // verus!
