use vstd::prelude::*;

verus! {

/// A colour value of some rendering or image backend.
pub trait Color {
}

/// An image that a font can be cut from.
pub trait SourceImage {
    type Color: Color;

    /// The width and height of the image, in pixels.
    fn get_pixel_dimensions(&self) -> (usize, usize);
}

/// An image whose pixels can be read one at a time.
pub trait PixelIndexable<T> {
    /// The pixel at `(x, y)`.
    spec fn pixel_spec(&self, x: int, y: int) -> T;

    fn get_pixel_at(&self, x: usize, y: usize) -> (r: &T)
        ensures
            *r == self.pixel_spec(x as int, y as int),
    ;
}

/// A value that can be mixed with another of its kind by a scalar of type `S`.
pub trait Lerpable<S>: Sized {
    /// The value `scalar` of the way from `a` to `b`.
    spec fn lerp_spec(a: Self, b: Self, scalar: S) -> Self;

    fn lerp(a: &Self, b: &Self, scalar: S) -> (r: Self)
        ensures
            r == Self::lerp_spec(*a, *b, scalar),
    ;
}

/// A value that can be read as a blend scalar of type `S`.
pub trait IntoScalar<S> {
    /// The blend scalar that this value stands for.
    spec fn scalar_spec(&self) -> S;

    fn into_scalar(&self) -> (r: S)
        ensures
            r == self.scalar_spec(),
    ;
}

/// The types that a rendering backend supplies to the library.
pub trait GraphicsBackend {
    type Texture: SourceImage;
    type Color: Color;
    type Error;
}

} // verus!
