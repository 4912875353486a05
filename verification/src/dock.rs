//! Edge-snap docking: the engine that decides where a moved window belongs,
//! and the flag that keeps its evaluations from overlapping.

pub mod dock_events;
pub mod dock_manager;
