//! System sounds.

pub mod audio_manager;
