//! Configuration model and DNS management decisions of a corplink VPN client.

pub mod text;
pub mod config;
pub mod digest;
pub mod dns;
