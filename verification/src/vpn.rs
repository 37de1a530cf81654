//! The VPN: its settings and the manager of its tunnel.

pub mod config;
pub mod wireguard;
