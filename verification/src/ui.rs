//! Resizing the window.

pub mod animations;
