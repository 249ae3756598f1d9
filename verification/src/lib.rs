//! Application bootstrap logic for a desktop shell: decode an embedded icon
//! image and assign it, best effort, to every window that is open when the
//! framework runs the one-time setup hook.
//!
//! The windowing framework itself (event loop, window lifecycle, rendering)
//! is an outside collaborator; this crate holds the decisions the setup hook
//! makes — when setup fails, how many icon assignments are attempted, and
//! what a single window's failure means for the rest — as verified code.

use vstd::prelude::*;

pub mod phase;
pub mod setup;

verus! {

/// The one fatal failure of application setup: the embedded icon bytes
/// could not be decoded into an image.
#[derive(Clone, Copy, Debug, PartialEq, Eq, Structural)]
pub enum SetupError {
    InvalidIcon,
}

} // verus!
