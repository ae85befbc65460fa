use vstd::prelude::*;

use crate::char_transforms::{CharMirror, CharRotation};
use crate::traits::Color;

verus! {

/// One glyph to draw: its index in the font, its colours and its transforms.
#[derive(Clone, Copy, Debug)]
pub struct BunnyChar<C> {
    pub index: usize,
    pub foreground: C,
    pub background: Option<C>,
    pub rotation: CharRotation,
    pub mirror: CharMirror,
}

impl<C: Color> BunnyChar<C> {
    pub fn new(
        index: usize,
        foreground: C,
        background: Option<C>,
        rotation: CharRotation,
        mirror: CharMirror,
    ) -> (r: Self)
        ensures
            r.index == index,
            r.foreground == foreground,
            r.background == background,
            r.rotation == rotation,
            r.mirror == mirror,
    {
        BunnyChar { index, foreground, background, rotation, mirror }
    }

    /// The same glyph with another foreground colour.
    pub fn foreground(self, foreground: C) -> (r: Self)
        ensures
            r == (BunnyChar { foreground, ..self }),
    {
        BunnyChar { foreground, ..self }
    }

    /// The same glyph with another background colour, or none.
    pub fn background(self, background: Option<C>) -> (r: Self)
        ensures
            r == (BunnyChar { background, ..self }),
    {
        BunnyChar { background, ..self }
    }

    /// The same glyph with another rotation.
    pub fn rotation(self, rotation: CharRotation) -> (r: Self)
        ensures
            r == (BunnyChar { rotation, ..self }),
    {
        BunnyChar { rotation, ..self }
    }

    /// The same glyph with another mirror.
    pub fn mirror(self, mirror: CharMirror) -> (r: Self)
        ensures
            r == (BunnyChar { mirror, ..self }),
    {
        BunnyChar { mirror, ..self }
    }
}

} // verus!
