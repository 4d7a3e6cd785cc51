//! Named Taskwarrior profiles for taskwarrior-tui: the profile model, the
//! validation and path resolution of `profiles.toml`, the profile picker and
//! the startup decisions that select one profile.

pub mod text;
pub mod paths;
pub mod profile;
pub mod config;
pub mod validation;
pub mod menu;
pub mod startup;
