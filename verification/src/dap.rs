//! A debug-adapter protocol client without I/O.
//!
//! The caller owns the byte streams, the adapter process and the tasks that
//! wait on them. This module owns every decision: how an adapter is started,
//! how bytes become messages, which reply belongs to which request, what each
//! command sends and what its answer means.
pub mod config;
pub mod launcher;
pub mod client;
pub mod codec;
pub mod payload;
pub mod transport;
pub mod types;
pub mod commands;
