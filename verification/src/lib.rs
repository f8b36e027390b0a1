//! IPC fabric between an IDE's user-facing process and its backend daemon.
//!
//! The core of this crate is the binary frame format (magic, version,
//! length, CRC-32 checksum), the deterministic envelope encoding, the
//! client-side pending-request table with admission control, and the
//! server-side per-connection dispatcher with deadline enforcement,
//! backpressure and cancellation. The surrounding editor domain types
//! (text positions, settings, project metadata, error taxonomy) are
//! modelled alongside.

pub mod error;
pub mod wire;
pub mod codec;
pub mod encode;
pub mod decode;
pub mod frame;
pub mod table;
pub mod client;
pub mod server;
pub mod strutil;
pub mod text;
pub mod core_types;
pub mod error_handling;
pub mod project;
pub mod settings;
pub mod logging;
pub mod ui;
pub mod compat;
pub mod index_types;

pub use error::IpcError;
