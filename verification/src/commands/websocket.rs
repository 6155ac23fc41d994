//! The methods of the automation protocol.

pub mod frame;
pub mod input;
pub mod utils;
