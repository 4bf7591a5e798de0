//! The full-screen terminal UI: application state, events, and rendering.

pub mod actions;
pub mod app;
pub mod changelog;
pub mod laws;
pub mod layout;
pub mod model;
pub mod overlays;
pub mod progress;
pub mod schedule;
pub mod screen;
pub mod sort;
pub mod types;
pub mod ui;
pub mod view;
