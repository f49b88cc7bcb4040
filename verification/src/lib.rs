//! Driver for a serial-attached WiFi co-processor speaking line-oriented
//! AT commands.
//!
//! The crate centres on a fixed-capacity byte buffer that accumulates the
//! device's replies, a family of conditions that decide when a reply is
//! complete, a streaming parser for asynchronous notifications, a command
//! orchestrator with timeout enforcement, and a session event loop that
//! frames length-prefixed payloads.

pub use crate::buffer::ByteBuffer;
pub use crate::error::Error;
pub use crate::module::{Module, RawResponse};
pub use crate::network_session::{NetworkEvent, NetworkSession, SessionInfo, SocketAddr};
pub use crate::parser::{CifsrResponse, CommandResponse, Ipv4Addr};
pub use crate::softap::{JoinApConfig, SoftApConfig, WifiMode};
pub use crate::storage::BUF_CAPACITY;

pub mod buffer;
pub mod clock;
pub mod conditions;
pub mod encode;
pub mod error;
pub mod module;
pub mod network_session;
pub mod parser;
pub mod reader_part;
pub mod serial;
pub mod softap;
mod storage;
