//! Verified core of the deimos game-server daemon: token keys, pod state machines, UPnP lease
//! bookkeeping, API token issuance rules and the conversion of pod configuration into Docker
//! container specifications.

pub mod api;
pub mod auth;
pub mod config;
pub mod container;
pub mod ctl;
pub mod logger;
pub mod pod;
pub mod text;
pub mod token_key;
pub mod upnp;
pub mod util;
