//! Automation backend for a screen-bot authoring tool: value types, the
//! colour, constellation and template matching decisions on a captured frame,
//! the frame cache, and the request/response rules of the protocol server.
//!
//! Everything here is pure: capture, inference, synthetic input and sockets
//! are performed by the embedding program, which hands plain values in and
//! takes plain values back.

pub mod app;
pub mod capture;
pub mod commands;
pub mod error;
pub mod input;
pub mod interpreter;
pub mod json;
pub mod platform;
pub mod project;
pub mod record;
pub mod text;
pub mod types;
pub mod websocket;

pub use error::Error;
pub use json::Json;
pub use platform::Platform;
