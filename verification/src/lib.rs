//! The logic of a drag-and-drop image viewer: where a picture goes inside a
//! window, how large the window should become for a picture, and how the
//! viewer's state answers the events of its window.
//!
//! All lengths are whole numbers on the way in and exact fractions on the way
//! out, so that every statement about a layout holds exactly.

pub mod asset;
pub mod layout;
pub mod rational;
pub mod screen;
pub mod viewer;
