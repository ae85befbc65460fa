use vstd::prelude::*;

use crate::traits::{Color, IntoScalar, Lerpable, PixelIndexable, SourceImage};

verus! {

/// An 8-bit RGBA colour.
#[derive(Clone, Copy, Debug, PartialEq, Eq, Structural)]
pub struct Rgba8 {
    pub r: u8,
    pub g: u8,
    pub b: u8,
    pub a: u8,
}

/// The blend scalar of a colour, in 256ths: the sum of its four channels.
pub open spec fn coverage(c: Rgba8) -> int {
    c.r + c.g + c.b + c.a
}

/// One channel taken `s` 256ths of the way from `a` to `b`, rounded down;
/// a scalar above 256 counts as 256.
pub open spec fn lerp_channel(a: u8, b: u8, s: u16) -> u8 {
    let t = if s > 256 { 256 } else { s as int };
    ((a * (256 - t) + b * t) / 256) as u8
}

fn lerp_channel_exec(a: u8, b: u8, s: u16) -> (r: u8)
    ensures
        r == lerp_channel(a, b, s),
{
    let t: u32 = if s > 256 { 256 } else { s as u32 };
    let a32 = a as u32;
    let b32 = b as u32;
    proof {
        assert(a32 * (256 - t) + b32 * t <= 255 * 256) by (nonlinear_arith)
            requires
                a32 <= 255,
                b32 <= 255,
                t <= 256,
        ;
    }
    ((a32 * (256 - t) + b32 * t) / 256) as u8
}

impl Color for Rgba8 {
}

impl Lerpable<u16> for Rgba8 {
    open spec fn lerp_spec(a: Rgba8, b: Rgba8, scalar: u16) -> Rgba8 {
        Rgba8 {
            r: lerp_channel(a.r, b.r, scalar),
            g: lerp_channel(a.g, b.g, scalar),
            b: lerp_channel(a.b, b.b, scalar),
            a: lerp_channel(a.a, b.a, scalar),
        }
    }

    fn lerp(a: &Rgba8, b: &Rgba8, scalar: u16) -> (r: Rgba8) {
        Rgba8 {
            r: lerp_channel_exec(a.r, b.r, scalar),
            g: lerp_channel_exec(a.g, b.g, scalar),
            b: lerp_channel_exec(a.b, b.b, scalar),
            a: lerp_channel_exec(a.a, b.a, scalar),
        }
    }
}

impl IntoScalar<u16> for Rgba8 {
    open spec fn scalar_spec(&self) -> u16 {
        coverage(*self) as u16
    }

    fn into_scalar(&self) -> (r: u16) {
        self.r as u16 + self.g as u16 + self.b as u16 + self.a as u16
    }
}

/// An RGBA image held row by row, for sampling glyphs on the CPU.
pub struct RgbaAtlas {
    width: usize,
    height: usize,
    pixels: Vec<Rgba8>,
    outside: Rgba8,
}

impl RgbaAtlas {
    pub closed spec fn width_spec(&self) -> int {
        self.width as int
    }

    pub closed spec fn height_spec(&self) -> int {
        self.height as int
    }

    pub closed spec fn pixels_spec(&self) -> Seq<Rgba8> {
        self.pixels@
    }

    /// An image of `width` by `height` pixels, given row by row; pixels
    /// missing from `pixels` read as transparent black.
    pub fn new(width: usize, height: usize, pixels: Vec<Rgba8>) -> (r: RgbaAtlas)
        ensures
            r.width_spec() == width,
            r.height_spec() == height,
            r.pixels_spec() == pixels@,
    {
        RgbaAtlas { width, height, pixels, outside: Rgba8 { r: 0, g: 0, b: 0, a: 0 } }
    }
}

impl SourceImage for RgbaAtlas {
    type Color = Rgba8;

    fn get_pixel_dimensions(&self) -> (usize, usize) {
        (self.width, self.height)
    }
}

impl PixelIndexable<Rgba8> for RgbaAtlas {
    /// The pixel at `(x, y)`; transparent black outside the image or past the
    /// pixels held.
    closed spec fn pixel_spec(&self, x: int, y: int) -> Rgba8 {
        let i = y * self.width + x;
        if 0 <= x < self.width && 0 <= y < self.height && i < self.pixels@.len() {
            self.pixels@[i]
        } else {
            self.outside
        }
    }

    fn get_pixel_at(&self, x: usize, y: usize) -> (r: &Rgba8) {
        let len = self.pixels.len();
        if x < self.width && y < self.height {
            if let Some(row) = y.checked_mul(self.width) {
                if let Some(i) = row.checked_add(x) {
                    if i < len {
                        return &self.pixels[i];
                    }
                }
            }
        }
        &self.outside
    }
}

} // verus!
