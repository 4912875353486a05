//! The application's settings and counters, and the operations on them.

pub mod store;
pub mod types;
