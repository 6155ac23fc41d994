//! The application context: the engines, the open project and the
//! configuration, held by one value.

pub mod application;
pub mod config;
pub mod log;

pub use application::App;
pub use config::Config;
pub use config::ConfigApp;
pub use log::Level;
