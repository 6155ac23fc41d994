//! Synthetic input: the keys, the tokens, and the queue they wait in.

pub mod engine;
pub mod key;
pub mod system_key;
pub mod token;

pub use engine::Engine;
pub use key::Key;
pub use system_key::SystemKey;
pub use token::Axis;
pub use token::Button;
pub use token::Coordinate;
pub use token::Direction;
pub use token::Token;
