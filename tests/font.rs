use bunnyfont::batch::{GgBunnyFontBatch, BACKGROUND_CHAR_INDEX};
use bunnyfont::char::BunnyChar;
use bunnyfont::char_transforms::{CharMirror, CharRotation};
use bunnyfont::font::{BunnyFont, FontError, PixelRect};
use bunnyfont::rgba::{Rgba8, RgbaAtlas};
use bunnyfont::traits::{IntoScalar, Lerpable, PixelIndexable, SourceImage};
use bunnyfont::transform::{CellTransform, IVec2};

fn rgba(r: u8, g: u8, b: u8, a: u8) -> Rgba8 {
    Rgba8 { r, g, b, a }
}

/// An atlas of one colour.
fn plain(width: usize, height: usize, c: Rgba8) -> RgbaAtlas {
    RgbaAtlas::new(width, height, vec![c; width * height])
}

/// An atlas whose pixel at (x, y) has red `x` and green `y`.
fn coded(width: usize, height: usize) -> RgbaAtlas {
    let mut pixels = Vec::new();
    for y in 0..height {
        for x in 0..width {
            pixels.push(rgba(x as u8, y as u8, 0, 0));
        }
    }
    RgbaAtlas::new(width, height, pixels)
}

fn font(w: usize, h: usize, cw: usize, ch: usize) -> BunnyFont<RgbaAtlas> {
    BunnyFont::new(plain(w, h, rgba(0, 0, 0, 0)), (cw, ch)).unwrap()
}

const WHITE: Rgba8 = Rgba8 { r: 255, g: 255, b: 255, a: 255 };
const BLACK: Rgba8 = Rgba8 { r: 0, g: 0, b: 0, a: 255 };

fn glyph(index: usize) -> BunnyChar<Rgba8> {
    BunnyChar::new(index, WHITE, None, CharRotation::NoRotation, CharMirror::NoMirror)
}

#[test]
fn it_works() {
    assert_eq!(2 + 2, 4);
}

#[test]
fn grid_geometry_of_atlas() {
    let f = font(128, 64, 8, 16);
    assert_eq!(f.char_dimensions(), (8, 16));
    assert_eq!(f.charset_dimensions(), (16, 4));
    assert_eq!(f.texture_dimensions(), (128, 64));
    assert_eq!(f.len(), 64);
    assert_eq!(f.total_char_indices(), 64);
    assert_eq!(f.highest_char_index(), 63);
    assert_eq!(f.texture().get_pixel_dimensions(), (128, 64));
}

#[test]
fn index_and_position_are_inverse() {
    let f = font(128, 128, 8, 8);
    for i in 0..f.len() {
        let (x, y) = f.get_char_pos_from_index(i);
        assert_eq!(f.get_index_from_char_pos(x, y), i);
    }
    assert_eq!(f.get_char_pos_from_index(17), (1, 1));
    assert_eq!(f.get_index_from_char_pos(3, 2), 35);
}

fn uv(f: &BunnyFont<RgbaAtlas>, index: usize) -> (f32, f32, f32, f32) {
    let (tw, th) = f.texture_dimensions();
    let r = f.get_src_rect(index);
    (
        r.x as f32 / tw as f32,
        r.y as f32 / th as f32,
        r.width as f32 / tw as f32,
        r.height as f32 / th as f32,
    )
}

#[test]
fn uv_rect_of_first_glyphs() {
    let f = font(128, 128, 8, 8);
    assert_eq!(f.get_src_rect(0), PixelRect { x: 0, y: 0, width: 8, height: 8 });
    assert_eq!(f.get_src_rect(17), PixelRect { x: 8, y: 8, width: 8, height: 8 });
    let s = 1.0 / 16.0;
    assert_eq!(uv(&f, 0), (0.0, 0.0, s, s));
    assert_eq!(uv(&f, 17), (s, s, s, s));
}

#[test]
fn uv_rect_out_of_range_lies_below_atlas() {
    let f = font(16, 16, 8, 8);
    assert_eq!(f.get_src_rect(5), PixelRect { x: 8, y: 16, width: 8, height: 8 });
}

#[test]
fn construction_fails_when_cell_does_not_divide_atlas() {
    let r = BunnyFont::new(plain(100, 100, BLACK), (7, 7));
    assert!(matches!(
        r,
        Err(FontError::WidthNotMultiple { texture_width: 100, char_width: 7 })
    ));
}

#[test]
fn construction_fails_on_height() {
    let r = BunnyFont::new(plain(16, 10, BLACK), (8, 4));
    assert!(matches!(
        r,
        Err(FontError::HeightNotMultiple { texture_height: 10, char_height: 4 })
    ));
}

#[test]
fn construction_fails_on_zero_cell() {
    let r = BunnyFont::new(plain(16, 16, BLACK), (0, 4));
    assert!(matches!(
        r,
        Err(FontError::WidthNotMultiple { texture_width: 16, char_width: 0 })
    ));
}

#[test]
fn construction_fails_when_glyph_count_overflows() {
    let r = BunnyFont::from_dimensions((), (usize::MAX, usize::MAX), (1, 1));
    assert!(matches!(
        r,
        Err(FontError::TooManyChars { columns: usize::MAX, rows: usize::MAX })
    ));
}

#[test]
fn char_pixel_pos_applies_rotation_then_mirror() {
    let f = font(32, 32, 4, 4);
    // glyph 9 sits at column 1, row 1: its cell starts at (4, 4)
    let g = glyph(9);
    assert_eq!(f.char_pixel_pos(&g, 1, 2), (5, 6));
    let g = glyph(9).rotation(CharRotation::Rotation90);
    assert_eq!(f.char_pixel_pos(&g, 1, 2), (4 + 1, 4 + 1));
    let g = glyph(9).mirror(CharMirror::MirrorX);
    assert_eq!(f.char_pixel_pos(&g, 1, 2), (4 + 2, 4 + 2));
    // rotation 90 sends (0, 0) to (3, 0); mirror Y then sends it to (3, 3)
    let g = glyph(9).rotation(CharRotation::Rotation90).mirror(CharMirror::MirrorY);
    assert_eq!(f.char_pixel_pos(&g, 0, 0), (4 + 3, 4 + 3));
}

#[test]
fn char_pixel_at_full_coverage_is_foreground() {
    // channels summing to 256 give full coverage
    let f = BunnyFont::new(plain(32, 32, rgba(0, 0, 1, 255)), (4, 4)).unwrap();
    let g = glyph(9).foreground(rgba(50, 60, 70, 255));
    assert_eq!(f.char_pixel(&g, 1, 2), rgba(50, 60, 70, 255));
}

#[test]
fn char_pixel_is_deterministic() {
    let f = BunnyFont::new(coded(32, 32), (4, 4)).unwrap();
    let g = glyph(9).rotation(CharRotation::Rotation180).background(Some(BLACK));
    assert_eq!(f.char_pixel(&g, 3, 1), f.char_pixel(&g, 3, 1));
}

#[test]
fn char_pixel_blends_background_to_foreground() {
    // texel coverage 128 / 256: the midpoint of black and white, rounded down
    let f = BunnyFont::new(plain(8, 8, rgba(128, 0, 0, 0)), (8, 8)).unwrap();
    let g = glyph(0).background(Some(BLACK));
    assert_eq!(f.char_pixel(&g, 3, 4), rgba(127, 127, 127, 255));
}

#[test]
fn char_pixel_without_background_blends_from_texel() {
    let f = BunnyFont::new(plain(8, 8, rgba(128, 0, 0, 0)), (8, 8)).unwrap();
    let g = glyph(0);
    assert_eq!(f.char_pixel(&g, 3, 4), rgba(191, 127, 127, 127));
}

#[test]
fn char_pixel_reads_the_transformed_texel() {
    // glyph 9 of a 32 by 32 atlas of 4 by 4 cells sits at (4, 4); rotation 90
    // then mirror Y reads pixel (0, 0) from (3, 3) of the cell, whose texel
    // holds its own position and has coverage 14
    let f = BunnyFont::new(coded(32, 32), (4, 4)).unwrap();
    let g = glyph(9).rotation(CharRotation::Rotation90).mirror(CharMirror::MirrorY);
    let texel = rgba(7, 7, 0, 0);
    assert_eq!(f.char_pixel(&g, 0, 0), Rgba8::lerp(&texel, &WHITE, 14));
    assert_eq!(f.char_pixel(&g, 0, 0), rgba(20, 20, 13, 13));
}

#[test]
fn rgba_scalar_and_lerp() {
    assert_eq!(rgba(1, 2, 3, 4).into_scalar(), 10);
    assert_eq!(Rgba8::lerp(&BLACK, &WHITE, 0), BLACK);
    assert_eq!(Rgba8::lerp(&BLACK, &WHITE, 256), WHITE);
    assert_eq!(Rgba8::lerp(&BLACK, &WHITE, 1000), WHITE);
    assert_eq!(Rgba8::lerp(&BLACK, &WHITE, 64), rgba(63, 63, 63, 255));
}

#[test]
fn rgba_atlas_reads_rows_and_transparent_outside() {
    let a = coded(4, 3);
    assert_eq!(*a.get_pixel_at(2, 1), rgba(2, 1, 0, 0));
    assert_eq!(*a.get_pixel_at(4, 1), rgba(0, 0, 0, 0));
    assert_eq!(*a.get_pixel_at(1, 3), rgba(0, 0, 0, 0));
    let short = RgbaAtlas::new(4, 3, vec![WHITE; 5]);
    assert_eq!(*short.get_pixel_at(0, 1), WHITE);
    assert_eq!(*short.get_pixel_at(1, 1), rgba(0, 0, 0, 0));
}

#[test]
fn builders_replace_one_field() {
    let g = glyph(7)
        .foreground(BLACK)
        .background(Some(WHITE))
        .rotation(CharRotation::Rotation270)
        .mirror(CharMirror::MirrorY);
    assert_eq!(g.index, 7);
    assert_eq!(g.foreground, BLACK);
    assert_eq!(g.background, Some(WHITE));
    assert_eq!(g.rotation, CharRotation::Rotation270);
    assert_eq!(g.mirror, CharMirror::MirrorY);
}

#[test]
fn batch_gathers_background_then_glyph_and_clears() {
    // 256 by 256 atlas of 8 by 8 glyphs: 32 columns
    let f = BunnyFont::new(plain(256, 256, BLACK), (8, 8)).unwrap();
    let mut batch: GgBunnyFontBatch<RgbaAtlas, Rgba8> = GgBunnyFontBatch::new(f);
    assert_eq!(batch.commands().len(), 0);
    glyph(33).draw_to_font_batch(&mut batch, (2, 5));
    glyph(1)
        .background(Some(BLACK))
        .rotation(CharRotation::Rotation180)
        .draw_to_font_batch(&mut batch, (0, 1));
    let cmds = batch.commands();
    assert_eq!(cmds.len(), 3);
    assert_eq!(cmds[0].src, PixelRect { x: 8, y: 8, width: 8, height: 8 });
    assert_eq!(cmds[0].transform.translation, IVec2 { x: 2, y: 5 });
    assert_eq!(cmds[0].color, WHITE);
    let bg = BACKGROUND_CHAR_INDEX;
    assert_eq!(cmds[1].src, PixelRect { x: (bg % 32) * 8, y: (bg / 32) * 8, width: 8, height: 8 });
    assert_eq!(cmds[1].color, BLACK);
    assert_eq!(cmds[2].src, PixelRect { x: 8, y: 0, width: 8, height: 8 });
    assert_eq!(cmds[2].color, WHITE);
    let expected = CellTransform::placement(CharRotation::Rotation180, CharMirror::NoMirror, (0, 1));
    assert_eq!(cmds[1].transform, expected);
    assert_eq!(cmds[2].transform.translation, IVec2 { x: 1, y: 2 });
    assert_eq!(batch.font().len(), 1024);
    batch.clear();
    assert_eq!(batch.commands().len(), 0);
}

#[test]
fn rotated_sample_at_inverse_position_matches_unrotated() {
    let f = BunnyFont::new(coded(32, 32), (4, 4)).unwrap();
    let g = glyph(10).background(Some(BLACK));
    for (r, inv) in [
        (CharRotation::Rotation90, CharRotation::Rotation270),
        (CharRotation::Rotation180, CharRotation::Rotation180),
        (CharRotation::Rotation270, CharRotation::Rotation90),
    ] {
        for x in 0..4 {
            for y in 0..4 {
                let (px, py) = inv.rotate_pos(x, y, 4, 4);
                assert_eq!(f.char_pixel(&g.rotation(r), px, py), f.char_pixel(&g, x, y));
            }
        }
    }
}
