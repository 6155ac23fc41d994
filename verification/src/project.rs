//! The project that is open.

pub mod config;
pub mod project;

pub use config::Config;
pub use config::ConfigProject;
pub use project::Project;
pub use project::ProjectInfo;
pub use project::VerifyStatus;
