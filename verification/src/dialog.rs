//! The modal-dialog controller: at most one notification is visible at a
//! time, the first request wins, and closing the window is the only way
//! back to the inactive state.

use vstd::prelude::*;

verus! {

/// Severity of a modal notification.
#[derive(Clone, Copy, Debug, PartialEq, Eq, Structural)]
pub enum DialogType {
    Debug,
    Info,
    Warn,
    Error,
}

impl DialogType {
    /// The display name used as the dialog window's title.
    pub open spec fn title(self) -> Seq<char> {
        match self {
            DialogType::Debug => "DEBUG"@,
            DialogType::Info => "INFO"@,
            DialogType::Warn => "WARN"@,
            DialogType::Error => "ERROR"@,
        }
    }

    pub fn as_str(&self) -> (r: &'static str)
        ensures
            r@ == self.title(),
    {
        match self {
            DialogType::Debug => "DEBUG",
            DialogType::Info => "INFO",
            DialogType::Warn => "WARN",
            DialogType::Error => "ERROR",
        }
    }
}

/// Mathematical state of the dialog controller.
pub struct DialogView {
    pub active: bool,
    pub severity: DialogType,
    pub message: Seq<char>,
}

/// What a request to show a dialog does to the state: while one is active,
/// the request is dropped and nothing changes; otherwise the dialog is
/// activated with the requested severity and message.
pub open spec fn request_transition(
    v: DialogView,
    severity: DialogType,
    message: Seq<char>,
) -> DialogView {
    if v.active {
        v
    } else {
        DialogView { active: true, severity, message }
    }
}

/// What one rendered frame does to the state: the active flag is
/// defensively re-asserted on entry, and the window's close affordance is
/// the one thing that clears it.
pub open spec fn frame_transition(v: DialogView, close_requested: bool) -> DialogView {
    DialogView { active: !close_requested, ..v }
}

/// The dialog controller: the single allowed active notification.
pub struct DialogController {
    dialog_type: DialogType,
    modal_active: bool,
    modal_message: String,
}

impl View for DialogController {
    type V = DialogView;

    closed spec fn view(&self) -> DialogView {
        DialogView {
            active: self.modal_active,
            severity: self.dialog_type,
            message: self.modal_message@,
        }
    }
}

/// The two per-frame duties of whatever owns a dialog controller:
/// accepting requests and rendering-and-gating the active dialog.
pub trait Modal: Sized {
    spec fn modal_view(&self) -> DialogView;

    /// Request a dialog; returns whether the request was accepted.
    fn dialog(&mut self, dialog_type: DialogType, message: &str) -> (accepted: bool)
        ensures
            final(self).modal_view() == request_transition(
                old(self).modal_view(),
                dialog_type,
                message@,
            ),
            accepted == !old(self).modal_view().active,
    ;

    /// Record the outcome of rendering the dialog window for one frame:
    /// the state is re-asserted active, then cleared exactly when the
    /// window's close affordance was used.
    fn show_dialog(&mut self, close_requested: bool)
        ensures
            final(self).modal_view() == frame_transition(
                old(self).modal_view(),
                close_requested,
            ),
    ;
}

impl Default for DialogController {
    /// Starts inactive, with the lowest severity and an empty message.
    fn default() -> (r: Self)
        ensures
            !r@.active,
            r@.severity == DialogType::Debug,
            r@.message == Seq::<char>::empty(),
    {
        DialogController {
            dialog_type: DialogType::Debug,
            modal_active: false,
            modal_message: String::new(),
        }
    }
}

impl Modal for DialogController {
    open spec fn modal_view(&self) -> DialogView {
        self@
    }

    fn dialog(&mut self, dialog_type: DialogType, message: &str) -> (accepted: bool)
    {
        if self.modal_active {
            false
        } else {
            self.modal_active = true;
            self.dialog_type = dialog_type;
            self.modal_message = message.to_owned();
            true
        }
    }

    fn show_dialog(&mut self, close_requested: bool)
    {
        self.modal_active = true;
        if close_requested {
            self.modal_active = false;
        }
    }
}

impl DialogController {
    /// Whether a dialog is active; while it is, every other panel is to be
    /// rendered disabled.
    pub fn is_active(&self) -> (r: bool)
        ensures
            r == self@.active,
    {
        self.modal_active
    }

    /// The active dialog's severity.
    pub fn severity(&self) -> (r: DialogType)
        ensures
            r == self@.severity,
    {
        self.dialog_type
    }

    /// The active dialog's message.
    pub fn message(&self) -> (r: &String)
        ensures
            r@ == self@.message,
    {
        &self.modal_message
    }
}

/// At most one dialog is ever active, and the first request wins: a
/// request made while a dialog is active leaves the active dialog's
/// severity and message exactly as they were.
pub proof fn lemma_first_request_wins(
    v: DialogView,
    s1: DialogType,
    m1: Seq<char>,
    s2: DialogType,
    m2: Seq<char>,
)
    requires
        !v.active,
    ensures
        ({
            let v1 = request_transition(v, s1, m1);
            &&& v1.active
            &&& v1.severity == s1
            &&& v1.message == m1
            &&& request_transition(v1, s2, m2) == v1
        }),
{
}

/// Closing the window is the only transition out of the active state:
/// a request never deactivates a dialog, and a rendered frame leaves it
/// active unless the close affordance was used.
pub proof fn lemma_dismissal_is_only_deactivation(
    v: DialogView,
    s: DialogType,
    m: Seq<char>,
    close_requested: bool,
)
    requires
        v.active,
    ensures
        request_transition(v, s, m).active,
        request_transition(v, s, m) == v,
        frame_transition(v, close_requested).active == !close_requested,
        frame_transition(v, close_requested).severity == v.severity,
        frame_transition(v, close_requested).message == v.message,
{
}

} // verus!
