//! Viewport logic of a screen-magnifier overlay.
//!
//! The overlay shows one captured image full-screen and lets the user zoom it
//! with the scroll wheel, pan it by dragging, and light a spotlight under the
//! pointer while a key is held. This crate holds the part that decides: the
//! view state, the routing of input events to state changes and render
//! requests, the layout of a frame, and the choice of the display to capture.
//! Windowing, painting and process handling belong to the host.
//!
//! All quantities are integers. The zoom factor is counted in tenths, and
//! viewport coordinates in 1/256 of a pixel, the resolution in which a Wayland
//! compositor reports pointer positions.

pub mod error;
pub mod geometry;
pub mod image;
pub mod output;
pub mod render;
pub mod router;
pub mod session;
pub mod state;
