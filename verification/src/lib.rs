//! The control plane and dispatch core of a host-based reverse proxy.
//!
//! The proxy terminates HTTP, HTTPS and WebSocket traffic and sends each
//! request to the upstream that is configured for the request's host. This
//! library holds its decisions, each with a contract that Verus proves:
//!
//! - [`config`], [`hosts`] and [`cell`]: the configuration snapshot, its
//!   validation, and the slot that holds the current snapshot;
//! - [`watch`]: when a look at the modification times of the watched files
//!   calls for a reload or for a restart;
//! - [`signature`] and [`supervisor`]: when the HTTPS listener is started,
//!   restarted and stopped;
//! - [`dispatch`]: to which upstream a request goes, and how;
//! - [`websocket`]: the opening handshake and the relay of frames;
//! - [`tls`]: reading certificates and keys, and choosing the certificate
//!   for a server name.
//!
//! Listening, file access and timers are left to the program around it.

pub mod assoc;
pub mod cell;
pub mod config;
pub mod dispatch;
pub mod hosts;
pub mod signature;
pub mod supervisor;
pub mod text;
pub mod tls;
pub mod watch;
pub mod websocket;
