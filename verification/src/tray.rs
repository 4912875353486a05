//! The tray icon and its menu.

pub mod handlers;
