//! The rules of the automation protocol: what a request is, which method it
//! names, and what is sent back.

pub mod message;
pub mod server;

pub use message::error_message;
pub use message::ok_message;
pub use message::probe_request;
pub use message::probe_response;
pub use server::get_method_handler;
pub use server::shutdown;
pub use server::Method;
