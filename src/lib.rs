//! Supervision core of the TunnelForge desktop companion: a bounded log
//! buffer, the server configuration, the start/stop/restart state machine
//! and the per-platform integration descriptors.

pub mod text;
pub mod log_buffer;
pub mod config;
pub mod supervisor;
pub mod lifecycle;
pub mod platform;
