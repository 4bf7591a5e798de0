//! Verified core of DockerSmith, a terminal manager for Docker images and containers.

pub mod cli;
pub mod clock;
pub mod config;
pub mod docker;
pub mod json;
pub mod md;
pub mod notify;
pub mod refmap;
pub mod registry;
pub mod selfupdate;
pub mod style;
pub mod text;
pub mod theme;
pub mod tui;
pub mod util;
