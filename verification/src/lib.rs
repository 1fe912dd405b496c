//! Verified core of a relay that puts an isolated Unix socket in front of a raw one.

pub mod cmdline;
pub mod config;
pub mod proxy;
pub mod relay;
pub mod supervisor;
pub mod template;
