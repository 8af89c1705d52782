//! State machine of a small syntax-highlighting editor window.
//!
//! The window holds two text buffers: an editable input buffer for Typst
//! source and a read-only output buffer for its ANSI-highlighted form,
//! together with a light/dark theme. Events from the user interface are
//! dispatched to [`state::App::update`]; what each event does to the state
//! is stated in its contract. The widget shell around this crate renders the
//! state and performs the clipboard command that `update` can return.

pub mod buffer;
pub mod highlight;
pub mod state;
pub mod theme;
