//! The application-state aggregate: one dialog controller, one fetch
//! client, and the source identifier under which the display layer caches
//! the encoded bytes. Every connect or fetch failure surfaces as an
//! error-severity dialog request instead of being swallowed.

use vstd::prelude::*;

use crate::dialog::{
    frame_transition, request_transition, DialogController, DialogType, DialogView, Modal,
};
use crate::envelope::{envelope_displayable, envelope_parse_ok, envelope_png, trimmed_view};
use crate::errors::GcError;
use crate::fetch::{FetchClient, FetchView};

verus! {

/// Mathematical state of the whole application core.
pub struct GuiView {
    pub dialog: DialogView,
    pub client: FetchView,
    pub uri: Seq<char>,
}

/// The application core handed to the per-frame render routines.
pub struct GenCamGUI {
    dialog: DialogController,
    client: FetchClient,
    uri: String,
}

impl View for GenCamGUI {
    type V = GuiView;

    closed spec fn view(&self) -> GuiView {
        GuiView { dialog: self.dialog@, client: self.client@, uri: self.uri@ }
    }
}

impl Default for GenCamGUI {
    /// No dialog active, no connection, no frame received, and the bytes
    /// published to the display layer under the PNG source identifier.
    fn default() -> (r: Self)
        ensures
            !r@.dialog.active,
            r@.dialog.severity == DialogType::Debug,
            r@.dialog.message == Seq::<char>::empty(),
            !r@.client.connected,
            r@.client.data is None,
            r@.uri == "image/png"@,
    {
        GenCamGUI {
            dialog: DialogController::default(),
            client: FetchClient::default(),
            uri: "image/png".to_owned(),
        }
    }
}

impl Modal for GenCamGUI {
    open spec fn modal_view(&self) -> DialogView {
        self@.dialog
    }

    fn dialog(&mut self, dialog_type: DialogType, message: &str) -> (accepted: bool)
    {
        self.request_dialog(dialog_type, message)
    }

    fn show_dialog(&mut self, close_requested: bool)
    {
        self.render_dialog(close_requested);
    }
}

impl GenCamGUI {
    /// Request a dialog: the dialog state takes the request transition
    /// (first active wins) and nothing else of the application state
    /// moves. Returns whether the request was accepted.
    pub fn request_dialog(&mut self, dialog_type: DialogType, message: &str) -> (accepted: bool)
        ensures
            final(self)@.dialog == request_transition(old(self)@.dialog, dialog_type, message@),
            final(self)@.client == old(self)@.client,
            final(self)@.uri == old(self)@.uri,
            accepted == !old(self)@.dialog.active,
    {
        self.dialog.dialog(dialog_type, message)
    }

    /// Record the outcome of rendering the dialog window for one frame:
    /// the dialog state takes the frame transition (active re-asserted,
    /// cleared exactly by the close affordance) and nothing else of the
    /// application state moves.
    pub fn render_dialog(&mut self, close_requested: bool)
        ensures
            final(self)@.dialog == frame_transition(old(self)@.dialog, close_requested),
            final(self)@.client == old(self)@.client,
            final(self)@.uri == old(self)@.uri,
    {
        self.dialog.show_dialog(close_requested);
    }
    /// Whether the modal dialog is active this frame; while it is, every
    /// other panel must be rendered disabled.
    pub fn modal_active(&self) -> (r: bool)
        ensures
            r == self@.dialog.active,
    {
        self.dialog.is_active()
    }

    /// The active dialog's window title: its severity's display name.
    pub fn dialog_title(&self) -> (r: &'static str)
        ensures
            r@ == self@.dialog.severity.title(),
    {
        self.dialog.severity().as_str()
    }

    /// The active dialog's message text.
    pub fn dialog_message(&self) -> (r: &String)
        ensures
            r@ == self@.dialog.message,
    {
        self.dialog.message()
    }

    /// Record the outcome of the transport-level connect-and-greeting
    /// exchange. A failure is a connection error, surfaced as an
    /// error-severity dialog request; nothing else changes.
    pub fn connect_to_server(&mut self, transport_ok: bool) -> (r: Result<(), GcError>)
        ensures
            final(self)@.client.data == old(self)@.client.data,
            final(self)@.uri == old(self)@.uri,
            transport_ok ==> r is Ok && final(self)@.client.connected && final(self)@.dialog
                == old(self)@.dialog,
            !transport_ok ==> ({
                &&& r == Err::<(), GcError>(GcError::ConnectionError)
                &&& final(self)@.client == old(self)@.client
                &&& final(self)@.dialog == request_transition(
                    old(self)@.dialog,
                    DialogType::Error,
                    GcError::ConnectionError.text(),
                )
            }),
    {
        match self.client.complete_connect(transport_ok) {
            Ok(()) => Ok(()),
            Err(e) => {
                let _ = self.dialog.dialog(DialogType::Error, e.message());
                Err(e)
            },
        }
    }

    /// First half of a fetch: the fixed command to send to the peer, or a
    /// not-connected error, surfaced as an error-severity dialog request,
    /// when no connection was ever established.
    pub fn request_image(&mut self) -> (r: Result<&'static str, GcError>)
        ensures
            final(self)@.client == old(self)@.client,
            final(self)@.uri == old(self)@.uri,
            old(self)@.client.connected ==> r is Ok && r->Ok_0@ == "SEND IMAGE TEST"@
                && final(self)@.dialog == old(self)@.dialog,
            !old(self)@.client.connected ==> ({
                &&& r == Err::<&'static str, GcError>(GcError::NotConnectedError)
                &&& final(self)@.dialog == request_transition(
                    old(self)@.dialog,
                    DialogType::Error,
                    GcError::NotConnectedError.text(),
                )
            }),
    {
        match self.client.fetch_command() {
            Ok(command) => Ok(command),
            Err(e) => {
                let _ = self.dialog.dialog(DialogType::Error, e.message());
                Err(e)
            },
        }
    }

    /// Second half of a fetch: decode the received envelope buffer and
    /// install the PNG bytes as the new display data, replacing the
    /// previous frame. On any failure the previous data stays untouched
    /// and the error surfaces as an error-severity dialog request.
    pub fn receive_test_image(&mut self, buffer: &[u8]) -> (r: Result<(), GcError>)
        ensures
            final(self)@.uri == old(self)@.uri,
            final(self)@.client.connected == old(self)@.client.connected,
            r is Err ==> final(self)@.client == old(self)@.client,
            !old(self)@.client.connected ==> r == Err::<(), GcError>(GcError::NotConnectedError),
            r is Ok <==> (old(self)@.client.connected && envelope_parse_ok(trimmed_view(buffer@))
                && envelope_displayable(trimmed_view(buffer@))),
            r is Ok ==> final(self)@.client.data == Some(envelope_png(trimmed_view(buffer@))),
            old(self)@.client.connected ==> ((r is Err && r->Err_0 == GcError::ProtocolError)
                <==> !envelope_parse_ok(trimmed_view(buffer@))),
            old(self)@.client.connected && r is Err ==> (r->Err_0 == GcError::ProtocolError
                || r->Err_0 == GcError::FormatConversionError),
            r is Ok ==> final(self)@.dialog == old(self)@.dialog,
            r is Err ==> final(self)@.dialog == request_transition(
                old(self)@.dialog,
                DialogType::Error,
                r->Err_0.text(),
            ),
    {
        match self.client.complete_fetch(buffer) {
            Ok(()) => Ok(()),
            Err(e) => {
                let _ = self.dialog.dialog(DialogType::Error, e.message());
                Err(e)
            },
        }
    }

    /// Whether a connection was established.
    pub fn is_connected(&self) -> (r: bool)
        ensures
            r == self@.client.connected,
    {
        self.client.is_connected()
    }

    /// The last good frame's PNG bytes, if any fetch ever succeeded.
    pub fn encoded_data(&self) -> (r: &Option<Vec<u8>>)
        ensures
            r is Some <==> self@.client.data is Some,
            r is Some ==> r->Some_0@ == self@.client.data->Some_0,
    {
        self.client.encoded_data()
    }

    /// The source identifier under which the display layer caches the
    /// encoded bytes; the caller must invalidate it whenever they change.
    pub fn uri(&self) -> (r: &String)
        ensures
            r@ == self@.uri,
    {
        &self.uri
    }
}

/// One frame of the update loop, as a transition on the whole state: an
/// active dialog is re-asserted and cleared only by its close affordance,
/// and nothing else of the state moves during rendering.
pub open spec fn update_frame_transition(v: GuiView, close_requested: bool) -> GuiView {
    if v.dialog.active {
        GuiView { dialog: frame_transition(v.dialog, close_requested), ..v }
    } else {
        v
    }
}

impl GenCamGUI {
    /// The per-frame modal gate: render the dialog window only while one
    /// is active, and record whether its close affordance was used.
    pub fn update_modal(&mut self, close_requested: bool)
        ensures
            final(self)@ == update_frame_transition(old(self)@, close_requested),
    {
        if self.dialog.is_active() {
            self.dialog.show_dialog(close_requested);
        }
    }
}

} // verus!
