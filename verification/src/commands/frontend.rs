//! What the user interface's commands share, and the command that thins its
//! detections.

pub mod frame;
pub mod result;

pub use result::CommandError;
pub use result::CommandResult;
