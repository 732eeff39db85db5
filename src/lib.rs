//! Scrolling obstacle pipes for a side-scrolling arcade game: spawning,
//! per-frame movement and recycling, and collision against a hitbox.

pub mod geometry;
pub mod pipe;
pub mod pipes;
