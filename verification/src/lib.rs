//! Autospot: the decisions behind a Wi-Fi watchdog that turns a Mobile Hotspot on when
//! Wi-Fi stays down.

pub mod adapters;
pub mod blocking;
pub mod cli;
pub mod companion;
pub mod config;
pub mod diagnostics;
pub mod hotspot;
pub mod lists;
pub mod logging;
pub mod paths;
pub mod policy;
pub mod service;
pub mod status;
pub mod status_dump;
pub mod text;
pub mod time;
pub mod uplink;
pub mod watchdog;
pub mod wifi;
