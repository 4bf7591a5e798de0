//! What the Docker engine reports, and what follows from it.

pub mod apply;
pub mod engine;
pub mod model;
pub mod prune;
pub mod update;
pub mod usage;
