//! What can go wrong before a session runs.

use vstd::prelude::*;

verus! {

/// A failure at startup. Each one is final: nothing is retried, and no
/// window is shown.
#[derive(Clone, Copy, Debug, PartialEq, Eq)]
pub enum Error {
    /// No display is focused, so there is none to capture.
    NoOutput,
    /// The captured image is not a raster of the stated size.
    Image,
}

} // verus!
