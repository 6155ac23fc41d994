//! What the protocol's methods and the user interface's commands take and
//! give.

pub mod frontend;
pub mod websocket;
