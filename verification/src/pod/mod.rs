//! Pods: a user-configured Docker container together with its known lifecycle state.

pub mod config;
pub mod docker_config;
pub mod id;
pub mod lifecycle;
pub mod manager;
pub mod state;
