use vstd::prelude::*;

use crate::char::BunnyChar;
use crate::font::{BunnyFont, PixelRect};
use crate::transform::CellTransform;

verus! {

/// The glyph whose atlas cell is drawn, tinted, under a glyph with a background.
pub const BACKGROUND_CHAR_INDEX: usize = 0x2c7;

/// One textured quad for the renderer to draw.
#[derive(Clone, Copy, Debug)]
pub struct DrawCommand<C> {
    /// The atlas rectangle that the quad shows.
    pub src: PixelRect,
    /// Where the unit cell is drawn, in grid cells; the renderer scales it by
    /// the glyph size and its display scaling.
    pub transform: CellTransform,
    /// The tint of the quad.
    pub color: C,
}

/// The draw commands of one frame, all cut from one font.
pub struct GgBunnyFontBatch<T, C> {
    font: BunnyFont<T>,
    commands: Vec<DrawCommand<C>>,
}

/// The command that draws the atlas cell of glyph `index` of `font` with
/// `transform` and `color`.
pub open spec fn quad<T, C>(
    font: BunnyFont<T>,
    index: int,
    transform: CellTransform,
    color: C,
) -> DrawCommand<C> {
    let r = font.src_rect_spec(index);
    let src = PixelRect {
        x: r.0 as usize,
        y: r.1 as usize,
        width: r.2 as usize,
        height: r.3 as usize,
    };
    DrawCommand { src, transform, color }
}

/// The commands that draw `ch` at grid position `dest`: a background quad
/// when it has a background colour, then the glyph itself, both placed with
/// its rotation first and its mirror after.
pub open spec fn glyph_commands<T, C>(font: BunnyFont<T>, ch: BunnyChar<C>, dest: (i32, i32)) -> Seq<
    DrawCommand<C>,
> {
    let t = CellTransform::placement_spec(ch.rotation, ch.mirror, dest);
    let front = seq![quad(font, ch.index as int, t, ch.foreground)];
    match ch.background {
        Some(b) => seq![quad(font, BACKGROUND_CHAR_INDEX as int, t, b)] + front,
        None => front,
    }
}

impl<T, C> GgBunnyFontBatch<T, C> {
    pub closed spec fn font_spec(&self) -> BunnyFont<T> {
        self.font
    }

    pub closed spec fn commands_spec(&self) -> Seq<DrawCommand<C>> {
        self.commands@
    }

    /// An empty batch for `font`.
    pub fn new(font: BunnyFont<T>) -> (r: Self)
        ensures
            r.font_spec() == font,
            r.commands_spec() == Seq::<DrawCommand<C>>::empty(),
    {
        GgBunnyFontBatch { font, commands: Vec::new() }
    }

    pub fn font(&self) -> (r: &BunnyFont<T>)
        ensures
            *r == self.font_spec(),
    {
        &self.font
    }

    /// The commands gathered since the last `clear`, in order.
    pub fn commands(&self) -> (r: &Vec<DrawCommand<C>>)
        ensures
            r@ == self.commands_spec(),
    {
        &self.commands
    }

    /// Drops every gathered command.
    pub fn clear(&mut self)
        ensures
            final(self).font_spec() == old(self).font_spec(),
            final(self).commands_spec() == Seq::<DrawCommand<C>>::empty(),
    {
        self.commands.clear();
    }
}

impl<C: Copy> BunnyChar<C> {
    /// Adds the commands that draw this glyph at grid position `dest`.
    pub fn draw_to_font_batch<T>(&self, batch: &mut GgBunnyFontBatch<T, C>, dest: (i32, i32))
        requires
            old(batch).font_spec().wf(),
            old(batch).font_spec().columns() > 0,
            old(batch).font_spec().src_rect_fits(self.index as int),
            self.background is Some ==> old(batch).font_spec().src_rect_fits(
                BACKGROUND_CHAR_INDEX as int,
            ),
        ensures
            final(batch).font_spec() == old(batch).font_spec(),
            final(batch).commands_spec() == old(batch).commands_spec() + glyph_commands(
                old(batch).font_spec(),
                *self,
                dest,
            ),
    {
        let transform = CellTransform::placement(self.rotation, self.mirror, dest);
        let src = batch.font.get_src_rect(self.index);
        let front = DrawCommand { src, transform, color: self.foreground };
        match self.background {
            Some(background) => {
                let src = batch.font.get_src_rect(BACKGROUND_CHAR_INDEX);
                batch.commands.push(DrawCommand { src, transform, color: background });
            },
            None => {},
        }
        batch.commands.push(front);
        assert(batch.commands@ =~= old(batch).commands_spec() + glyph_commands(
            old(batch).font_spec(),
            *self,
            dest,
        ));
    }
}

} // verus!
