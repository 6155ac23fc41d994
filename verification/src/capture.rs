//! Frames and what can be found on them.

pub mod color;
pub mod engine;
pub mod frame;
pub mod image;
pub mod mat;
pub mod scores;
pub mod text;

pub use engine::Engine;
pub use frame::Frame;
pub use image::FindResult;
pub use image::MatchInput;
pub use mat::Mat;
pub use mat::MatExt;
pub use scores::ScoreSurface;
