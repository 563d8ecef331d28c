//! A connection engine for a key-value store that speaks the RESP protocol:
//! command construction, reply normalization, telemetry records, the
//! connection registry and the registry of streaming sessions.
//!
//! The engine performs no I/O. Whoever drives it sends the commands it hands
//! out over a transport and reports back what the transport answered.

pub mod command;
pub mod conn;
pub mod err;
pub mod fields;
pub mod form;
pub mod info;
pub mod model;
pub mod reply;
pub mod route;
pub mod ssh;
pub mod state;
pub mod text;
pub mod topology;
pub mod utils;
