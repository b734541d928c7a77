//! Verified decision and rendering logic of the Sabrage stage pipeline.

pub mod events;
pub mod paths;
pub mod process;
pub mod stages;
pub mod text;
