//! Plain value types shared by every component.

pub mod base64_png;
pub mod colored_point;
pub mod hex_color;
pub mod limited_queue;
pub mod point;
pub mod progress;
pub mod rgb_color;
pub mod rgb_offset;
pub mod size;
pub mod weight_point;

pub use base64_png::Base64Png;
pub use base64_png::Base64PngExt;
pub use colored_point::ColoredPoint;
pub use hex_color::HexColor;
pub use hex_color::HexColorExt;
pub use limited_queue::LimitedQueue;
pub use point::Point;
pub use progress::Progress;
pub use rgb_color::RgbColor;
pub use rgb_offset::RgbOffset;
pub use size::Size;
pub use size::SizeError;
pub use weight_point::Weight;
pub use weight_point::WeightPoint;
pub use weight_point::WeightPointsExt;
