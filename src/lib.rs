//! Client library for a remote chat and tool-execution service.
//!
//! The data model, the wire form of requests, the client configuration and
//! the decisions taken around each HTTP exchange are verified here; the
//! transport itself is driven by the caller.

pub mod client;
pub mod error;
pub mod types;

pub use client::{FemtoClient, HttpCall, HttpMethod, Prepared};
pub use error::SdkError;
pub use types::{ChatRequest, Message, Response, Role, ToolCall, ToolRequest, WireMessage};
