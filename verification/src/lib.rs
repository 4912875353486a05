//! Decision logic of a desktop companion that keeps a small utility window
//! docked to the screen edges and moves input focus between that window and a
//! target application, depending on where the cursor is and for how long it
//! has been away.
//!
//! Everything here works on plain values. The hosting application queries the
//! operating system, hands the observations in, and carries out the actions
//! that come back.

pub mod audio;
pub mod dock;
pub mod geometry;
pub mod state;
pub mod text;
pub mod tray;
pub mod ui;
pub mod update;
pub mod window_utils;
