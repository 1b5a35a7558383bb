//! Ephemeral browser profiles: configuration model, profile file contents,
//! launch arguments and the decisions around cached downloads and stale
//! profiles, with their contracts proved by Verus.

pub mod config;
pub mod text;
pub mod browser;
