//! The gameplay core of a top-down survival game: spawning, steering,
//! contact damage through timed hurt windows, the dying and removal of
//! actors, and the experience pickups that drive leveling.
//!
//! Everything is integer arithmetic: time in milliseconds, positions in
//! thousandths of a pixel. Rendering, audio playback, input polling and the
//! physics engine are collaborators outside this crate: they hand in plain
//! values (contacts, overlaps, elapsed time) and take back plain requests.
use vstd::prelude::*;

pub mod actor;
pub mod audio;
mod chance;
pub mod combat;
pub mod geometry;
pub mod menu;
pub mod particle;
pub mod progression;
pub mod shooting;
pub mod simulation;
pub mod spawner;
pub mod steering;
pub mod timer;
pub mod world;
pub mod xp;
