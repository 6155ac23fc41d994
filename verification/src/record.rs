//! Recording what the user does, as input tokens.

pub mod engine;

pub use engine::Engine;
