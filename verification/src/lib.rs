//! A remote shell: a host issues shell commands to a device over a WebSocket connection and
//! awaits their output.
//!
//! The crate holds what the two sides decide and compute. Every wait for the network, for a
//! process or for a terminal is an action that the caller performs, and whose outcome the caller
//! hands back as an event.

pub mod address;
pub mod astarte;
pub mod command;
pub mod device;
pub mod device_server;
pub mod host;
pub mod io_handler;
pub mod protocol;
pub mod sender_client;
pub mod service;
pub mod session;
pub mod shell;
pub mod stream;
pub mod text;
pub mod tls;
pub mod transport;
pub mod websocket;
