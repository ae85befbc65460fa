//! Bitmap fonts cut from a grid atlas: glyph addressing, the rotation and
//! mirror algebra of glyphs, the pixel a transformed glyph reads from the
//! atlas, and the draw commands of a frame.

pub mod batch;
pub mod char;
pub mod char_transforms;
pub mod font;
pub mod rgba;
pub mod traits;
pub mod transform;
