//! Decision and text logic of a push agent that watches local network
//! devices and reports their state to an Uptime Kuma server.
pub mod text;
pub mod push;
pub mod config;
pub mod monitor;
pub mod settings;
pub mod autostart;
pub mod ui;
