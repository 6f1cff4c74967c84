//! Core of a device-introspection multiplexer: a stream registry and a
//! pending-request table correlate asynchronous fetch commands with the
//! replies a remote device eventually delivers, under per-request timeouts
//! and connect/disconnect churn. Also holds the parsing of device-tool
//! output (connected-device listing, foreground-activity report).

pub mod activity;
pub mod adb;
pub mod laws;
pub mod mux;
pub mod text;
pub mod tokenmap;
