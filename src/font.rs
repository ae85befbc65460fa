use vstd::prelude::*;

use crate::char::BunnyChar;
use crate::char_transforms::{CharMirror, CharRotation};
use crate::traits::{IntoScalar, Lerpable, PixelIndexable, SourceImage};

verus! {

/// Why a font could not be cut from an image.
#[derive(Clone, Copy, Debug, PartialEq, Eq, Structural)]
pub enum FontError {
    /// The image width is not a multiple of the glyph width (or the glyph width is 0).
    WidthNotMultiple { texture_width: usize, char_width: usize },
    /// The image height is not a multiple of the glyph height (or the glyph height is 0).
    HeightNotMultiple { texture_height: usize, char_height: usize },
    /// The number of glyphs does not fit in a `usize`.
    TooManyChars { columns: usize, rows: usize },
}

/// The error, if any, of cutting glyphs of `cw` by `ch` pixels from an image
/// of `tw` by `th` pixels.
pub open spec fn dimensions_error(tw: usize, th: usize, cw: usize, ch: usize) -> Option<
    FontError,
> {
    if cw == 0 || tw % cw != 0 {
        Some(FontError::WidthNotMultiple { texture_width: tw, char_width: cw })
    } else if ch == 0 || th % ch != 0 {
        Some(FontError::HeightNotMultiple { texture_height: th, char_height: ch })
    } else if (tw / cw) * (th / ch) > usize::MAX {
        Some(FontError::TooManyChars { columns: (tw / cw) as usize, rows: (th / ch) as usize })
    } else {
        None
    }
}

/// A rectangle of atlas pixels.
#[derive(Clone, Copy, Debug, PartialEq, Eq, Structural)]
pub struct PixelRect {
    pub x: usize,
    pub y: usize,
    pub width: usize,
    pub height: usize,
}

/// A bitmap font: an atlas image cut into a grid of equally sized glyphs,
/// numbered row by row.
pub struct BunnyFont<T> {
    texture: T,
    texture_width: usize,
    texture_height: usize,
    char_width: usize,
    char_height: usize,
}

impl<T> BunnyFont<T> {
    pub closed spec fn texture_spec(&self) -> T {
        self.texture
    }

    pub closed spec fn texture_width_spec(&self) -> int {
        self.texture_width as int
    }

    pub closed spec fn texture_height_spec(&self) -> int {
        self.texture_height as int
    }

    pub closed spec fn char_width_spec(&self) -> int {
        self.char_width as int
    }

    pub closed spec fn char_height_spec(&self) -> int {
        self.char_height as int
    }

    /// The number of glyphs in a row of the atlas.
    pub open spec fn columns(&self) -> int {
        self.texture_width_spec() / self.char_width_spec()
    }

    /// The number of glyphs in a column of the atlas.
    pub open spec fn rows(&self) -> int {
        self.texture_height_spec() / self.char_height_spec()
    }

    /// The number of glyphs in the atlas.
    pub open spec fn len_spec(&self) -> int {
        self.columns() * self.rows()
    }

    /// The glyph grid divides the atlas exactly and its size fits in a `usize`.
    pub open spec fn wf(&self) -> bool {
        &&& 0 <= self.texture_width_spec() <= usize::MAX
        &&& 0 <= self.texture_height_spec() <= usize::MAX
        &&& 0 < self.char_width_spec() <= usize::MAX
        &&& 0 < self.char_height_spec() <= usize::MAX
        &&& self.texture_width_spec() % self.char_width_spec() == 0
        &&& self.texture_height_spec() % self.char_height_spec() == 0
        &&& self.len_spec() <= usize::MAX
    }

    /// The grid position `(column, row)` of the glyph numbered `index`.
    pub open spec fn char_pos_spec(&self, index: int) -> (int, int) {
        (index % self.columns(), index / self.columns())
    }

    /// The number of the glyph at grid position `(x, y)`.
    pub open spec fn index_spec(&self, x: int, y: int) -> int {
        y * self.columns() + x
    }

    /// The atlas rectangle `(x, y, width, height)`, in pixels, of the glyph
    /// numbered `index`; divided by the atlas size it is the glyph's UV rectangle.
    pub open spec fn src_rect_spec(&self, index: int) -> (int, int, int, int) {
        let (col, row) = self.char_pos_spec(index);
        (
            col * self.char_width_spec(),
            row * self.char_height_spec(),
            self.char_width_spec(),
            self.char_height_spec(),
        )
    }

    /// Whether the atlas rectangle of the glyph numbered `index` can be held in `usize`.
    pub open spec fn src_rect_fits(&self, index: int) -> bool {
        (index / self.columns()) * self.char_height_spec() <= usize::MAX
    }

    /// Where the pixel `(x, y)` of a glyph, after its rotation and then its
    /// mirror, is read from within its cell.
    pub open spec fn local_pos_spec(
        &self,
        rotation: CharRotation,
        mirror: CharMirror,
        x: int,
        y: int,
    ) -> (int, int) {
        let w = self.char_width_spec();
        let h = self.char_height_spec();
        let p = rotation.rotate_spec(x, y, w, h);
        mirror.mirror_spec(p.0, p.1, w, h)
    }

    /// Whether `p` lies inside a glyph cell.
    pub open spec fn in_cell(&self, p: (int, int)) -> bool {
        0 <= p.0 < self.char_width_spec() && 0 <= p.1 < self.char_height_spec()
    }

    /// The atlas pixel that the pixel `(x, y)` of the glyph numbered `index`
    /// is read from.
    pub open spec fn pixel_pos_spec(
        &self,
        index: int,
        rotation: CharRotation,
        mirror: CharMirror,
        x: int,
        y: int,
    ) -> (int, int) {
        let (col, row) = self.char_pos_spec(index);
        let p = self.local_pos_spec(rotation, mirror, x, y);
        (p.0 + col * self.char_width_spec(), p.1 + row * self.char_height_spec())
    }

    /// Whether `r` is the outcome of cutting glyphs of `char_size` from
    /// `texture`, an image of `tw` by `th` pixels.
    pub open spec fn is_cut_from(
        r: Result<Self, FontError>,
        texture: T,
        tw: usize,
        th: usize,
        char_size: (usize, usize),
    ) -> bool {
        match dimensions_error(tw, th, char_size.0, char_size.1) {
            Some(e) => r == Err::<Self, FontError>(e),
            None => r matches Ok(f) && f.wf() && f.texture_spec() == texture
                && f.texture_width_spec() == tw && f.texture_height_spec() == th
                && f.char_width_spec() == char_size.0 && f.char_height_spec() == char_size.1,
        }
    }

    /// Cuts a font with glyphs of `char_size` from a texture of `dimensions`.
    pub fn from_dimensions(texture: T, dimensions: (usize, usize), char_size: (usize, usize)) -> (r:
        Result<Self, FontError>)
        ensures
            Self::is_cut_from(r, texture, dimensions.0, dimensions.1, char_size),
    {
        let (texture_width, texture_height) = dimensions;
        let (char_width, char_height) = char_size;
        if char_width == 0 || texture_width % char_width != 0 {
            return Err(FontError::WidthNotMultiple { texture_width, char_width });
        }
        if char_height == 0 || texture_height % char_height != 0 {
            return Err(FontError::HeightNotMultiple { texture_height, char_height });
        }
        let columns = texture_width / char_width;
        let rows = texture_height / char_height;
        match columns.checked_mul(rows) {
            None => Err(FontError::TooManyChars { columns, rows }),
            Some(_) => Ok(BunnyFont { texture, texture_width, texture_height, char_width, char_height }),
        }
    }

    pub fn texture(&self) -> (r: &T)
        ensures
            *r == self.texture_spec(),
    {
        &self.texture
    }

    /// The width and height of the atlas, in pixels.
    pub fn texture_dimensions(&self) -> (r: (usize, usize))
        ensures
            r.0 == self.texture_width_spec(),
            r.1 == self.texture_height_spec(),
    {
        (self.texture_width, self.texture_height)
    }

    /// The number of glyphs in the atlas.
    pub fn len(&self) -> (r: usize)
        requires
            self.wf(),
        ensures
            r == self.len_spec(),
    {
        (self.texture_width / self.char_width) * (self.texture_height / self.char_height)
    }

    /// The atlas rectangle, in pixels, of the glyph numbered `index`. No bound
    /// is checked: an index past the last glyph gives a rectangle below the atlas.
    pub fn get_src_rect(&self, index: usize) -> (r: PixelRect)
        requires
            self.wf(),
            self.columns() > 0,
            self.src_rect_fits(index as int),
        ensures
            (r.x as int, r.y as int, r.width as int, r.height as int) == self.src_rect_spec(
                index as int,
            ),
            r.x < self.texture_width_spec(),
    {
        let (x, y) = self.get_char_pos_from_index(index);
        let cw = self.char_width;
        let tw = self.texture_width;
        let columns = tw / cw;
        proof {
            assert(tw == columns * cw) by (nonlinear_arith)
                requires
                    tw % cw == 0,
                    cw > 0,
                    columns == tw / cw,
            ;
            assert(x * cw < tw) by (nonlinear_arith)
                requires
                    x < columns,
                    tw == columns * cw,
                    cw > 0,
            ;
        }
        PixelRect { x: x * cw, y: y * self.char_height, width: cw, height: self.char_height }
    }

    /// The number of the glyph at grid position `(x, y)`.
    pub fn get_index_from_char_pos(&self, x: usize, y: usize) -> (r: usize)
        requires
            self.wf(),
            self.index_spec(x as int, y as int) <= usize::MAX,
        ensures
            r == self.index_spec(x as int, y as int),
    {
        let (charset_width, _charset_height) = self.charset_dimensions();
        proof {
            assert(0 <= y * charset_width) by (nonlinear_arith)
                requires
                    charset_width >= 0,
            ;
        }
        y * charset_width + x
    }

    /// The grid position `(column, row)` of the glyph numbered `index`.
    pub fn get_char_pos_from_index(&self, index: usize) -> (r: (usize, usize))
        requires
            self.wf(),
            self.columns() > 0,
        ensures
            (r.0 as int, r.1 as int) == self.char_pos_spec(index as int),
            r.0 < self.columns(),
    {
        let (charset_width, _charset_height) = self.charset_dimensions();
        (index % charset_width, index / charset_width)
    }

    /// The width and height of a glyph, in pixels.
    pub fn char_dimensions(&self) -> (r: (usize, usize))
        ensures
            r.0 == self.char_width_spec(),
            r.1 == self.char_height_spec(),
    {
        (self.char_width, self.char_height)
    }

    /// The width and height of the atlas, in glyphs.
    pub fn charset_dimensions(&self) -> (r: (usize, usize))
        requires
            self.wf(),
        ensures
            r.0 == self.columns(),
            r.1 == self.rows(),
            r.0 > 0 || self.texture_width_spec() == 0,
    {
        proof {
            let tw = self.texture_width as int;
            let cw = self.char_width as int;
            assert(tw / cw > 0 || tw == 0) by (nonlinear_arith)
                requires
                    tw % cw == 0,
                    cw > 0,
                    tw >= 0,
            ;
        }
        (self.texture_width / self.char_width, self.texture_height / self.char_height)
    }

    /// The number of glyphs in the atlas.
    pub fn total_char_indices(&self) -> (r: usize)
        requires
            self.wf(),
        ensures
            r == self.len_spec(),
    {
        let (charset_width, charset_height) = self.charset_dimensions();
        charset_width * charset_height
    }

    /// The number of the last glyph.
    pub fn highest_char_index(&self) -> (r: usize)
        requires
            self.wf(),
            self.len_spec() > 0,
        ensures
            r == self.len_spec() - 1,
    {
        self.total_char_indices() - 1
    }
}

impl<T: SourceImage> BunnyFont<T> {
    /// Cuts a font with glyphs of `char_size` from `source_image`; fails when
    /// the glyph size does not divide the image size.
    pub fn new(source_image: T, char_size: (usize, usize)) -> (r: Result<Self, FontError>)
        ensures
            exists|tw: usize, th: usize| #[trigger] Self::is_cut_from(r, source_image, tw, th, char_size),
    {
        let dimensions = source_image.get_pixel_dimensions();
        BunnyFont::from_dimensions(source_image, dimensions, char_size)
    }
}

impl<T> BunnyFont<T> {
    /// The atlas pixel that the pixel `(x, y)` of `bunny_char` is read from:
    /// inside the glyph's cell, the rotation is applied first and the mirror after.
    pub fn char_pixel_pos<C>(&self, bunny_char: &BunnyChar<C>, x: usize, y: usize) -> (r: (
        usize,
        usize,
    ))
        requires
            self.wf(),
            bunny_char.index < self.len_spec(),
            x < self.char_width_spec(),
            y < self.char_height_spec(),
            self.in_cell(
                self.local_pos_spec(bunny_char.rotation, bunny_char.mirror, x as int, y as int),
            ),
        ensures
            (r.0 as int, r.1 as int) == self.pixel_pos_spec(
                bunny_char.index as int,
                bunny_char.rotation,
                bunny_char.mirror,
                x as int,
                y as int,
            ),
            r.0 < self.texture_width_spec(),
            r.1 < self.texture_height_spec(),
    {
        let index = bunny_char.index;
        let columns = self.texture_width / self.char_width;
        let rows = self.texture_height / self.char_height;
        proof {
            assert(columns > 0) by (nonlinear_arith)
                requires
                    index < columns * rows,
                    rows >= 0,
            ;
        }
        let (char_x, char_y) = self.get_char_pos_from_index(index);
        let (w, h) = (self.char_width, self.char_height);
        let (rx, ry) = bunny_char.rotation.rotate_pos(x, y, w, h);
        let (mx, my) = bunny_char.mirror.mirror_pos(rx, ry, w, h);
        let tw = self.texture_width;
        let th = self.texture_height;
        proof {
            assert(char_y < rows) by (nonlinear_arith)
                requires
                    index < columns * rows,
                    char_y == index / columns,
                    columns > 0,
            ;
            assert(tw == columns * w) by (nonlinear_arith)
                requires
                    tw % w == 0,
                    w > 0,
                    columns == tw / w,
            ;
            assert(th == rows * h) by (nonlinear_arith)
                requires
                    th % h == 0,
                    h > 0,
                    rows == th / h,
            ;
            assert(mx + char_x * w < tw) by (nonlinear_arith)
                requires
                    mx < w,
                    char_x < columns,
                    tw == columns * w,
            ;
            assert(my + char_y * h < th) by (nonlinear_arith)
                requires
                    my < h,
                    char_y < rows,
                    th == rows * h,
            ;
        }
        (mx + char_x * w, my + char_y * h)
    }

    /// The colour of the pixel `(x, y)` of `ch`: the atlas texel it is read
    /// from gives the blend scalar, and the result is blended from the
    /// background (or, without one, from the texel itself) towards the foreground.
    pub open spec fn char_pixel_spec<C, S>(&self, ch: BunnyChar<C>, x: int, y: int) -> C where
        T: PixelIndexable<C>,
        C: Lerpable<S> + IntoScalar<S>,
     {
        let p = self.pixel_pos_spec(ch.index as int, ch.rotation, ch.mirror, x, y);
        let texel = self.texture_spec().pixel_spec(p.0, p.1);
        let base = match ch.background {
            Some(b) => b,
            None => texel,
        };
        C::lerp_spec(base, ch.foreground, texel.scalar_spec())
    }

    /// The colour of the pixel `(x, y)` of `bunny_char`: the atlas texel it is
    /// read from gives the blend scalar, and the result is blended from the
    /// background (or, without one, from the texel itself) towards the foreground.
    pub fn char_pixel<C, S>(&self, bunny_char: &BunnyChar<C>, x: usize, y: usize) -> (r: C) where
        T: PixelIndexable<C>,
        C: Lerpable<S> + IntoScalar<S>,

        requires
            self.wf(),
            bunny_char.index < self.len_spec(),
            x < self.char_width_spec(),
            y < self.char_height_spec(),
            self.in_cell(
                self.local_pos_spec(bunny_char.rotation, bunny_char.mirror, x as int, y as int),
            ),
        ensures
            r == self.char_pixel_spec(*bunny_char, x as int, y as int),
    {
        let (px, py) = self.char_pixel_pos(bunny_char, x, y);
        let texel = self.texture.get_pixel_at(px, py);
        let scalar = texel.into_scalar();
        let base = match &bunny_char.background {
            Some(background) => background,
            None => texel,
        };
        C::lerp(base, &bunny_char.foreground, scalar)
    }
}

/// Grid positions and glyph numbers are mutual inverses: every glyph number
/// of the atlas comes back from its position, and every position of the grid
/// comes back from its number.
pub proof fn lemma_index_round_trip<T>(font: BunnyFont<T>, index: int, x: int, y: int)
    requires
        font.wf(),
    ensures
        0 <= index < font.len_spec() ==> font.index_spec(
            font.char_pos_spec(index).0,
            font.char_pos_spec(index).1,
        ) == index,
        0 <= x < font.columns() && 0 <= y < font.rows() ==> font.char_pos_spec(
            font.index_spec(x, y),
        ) == (x, y),
{
    let c = font.columns();
    if 0 <= index < font.len_spec() {
        assert(c > 0) by (nonlinear_arith)
            requires
                0 <= index < c * font.rows(),
                font.rows() >= 0,
        ;
        vstd::arithmetic::div_mod::lemma_fundamental_div_mod(index, c);
        assert((index / c) * c == c * (index / c)) by (nonlinear_arith);
    }
    if 0 <= x < c && 0 <= y < font.rows() {
        vstd::arithmetic::div_mod::lemma_fundamental_div_mod_converse(y * c + x, c, y, x);
    }
}

/// On a square glyph cell, a rotated glyph sampled at the position that the
/// inverse rotation gives shows the colour of the unrotated glyph at `(x, y)`.
pub proof fn lemma_char_pixel_rotation<T, C, S>(
    font: BunnyFont<T>,
    ch: BunnyChar<C>,
    rotation: CharRotation,
    x: int,
    y: int,
) where T: PixelIndexable<C>, C: Lerpable<S> + IntoScalar<S>
    requires
        font.char_width_spec() == font.char_height_spec(),
        0 <= x < font.char_width_spec(),
        0 <= y < font.char_height_spec(),
    ensures
        ({
            let n = font.char_width_spec();
            let p = rotation.inverse().rotate_spec(x, y, n, n);
            font.char_pixel_spec::<C, S>(BunnyChar { rotation, ..ch }, p.0, p.1)
                == font.char_pixel_spec::<C, S>(
                BunnyChar { rotation: CharRotation::NoRotation, ..ch },
                x,
                y,
            )
        }),
{
}

} // verus!
