//! Verified core of a camera-control front end: the modal-dialog state
//! machine that gates the rest of the interface, and the image-fetch
//! client that turns a padded wire buffer into displayable PNG bytes.
//!
//! Network and window plumbing live outside this crate; it is handed plain
//! values (buffers, flags) and hands plain values back.

pub mod dialog;
pub mod envelope;
pub mod errors;
pub mod fetch;
pub mod gui;
