//! Rasterization of patterned underline decorations (dotted, dashed) and
//! their atlas keys.
//!
//! Each pattern is rasterized once into an alpha bitmap at the current cell
//! width and stroke thickness, then inserted into the monochrome atlas. The
//! prepare phase emits one glyph instance per decorated cell instead of O(w)
//! rect instances.

use vstd::prelude::*;

use super::{pixel, Canvas, FaceIdx, GlyphFormat, RasterKey, RasterizedGlyph, SyntheticFlags};

verus! {

/// Synthetic glyph ID for curly underline pattern.
pub const CURLY_GLYPH_ID: u16 = 0xFFF0;

/// Synthetic glyph ID for dotted underline pattern.
pub const DOTTED_GLYPH_ID: u16 = 0xFFF1;

/// Synthetic glyph ID for dashed underline pattern.
pub const DASHED_GLYPH_ID: u16 = 0xFFF2;

/// Construct a [`RasterKey`] for a decoration pattern glyph.
pub fn decoration_key(glyph_id: u16, size_q6: u32) -> (k: RasterKey)
    ensures
        k.glyph_id == glyph_id,
        k.face_idx.0 == 0xFFFF,
        k.size_q6 == size_q6,
        k.synthetic.0 == 0,
{
    RasterKey { glyph_id, face_idx: FaceIdx::builtin(), size_q6, synthetic: SyntheticFlags::none() }
}

/// Whether a glyph is a `w`×`h` alpha bitmap whose pixel `(x, y)` is 255
/// exactly where `on(x)` holds and 0 elsewhere.
pub open spec fn column_pattern(g: RasterizedGlyph, w: u32, h: u32, on: spec_fn(int) -> bool) -> bool {
    &&& g.width == w
    &&& g.height == h
    &&& g.bearing_x == 0
    &&& g.bearing_y == 0
    &&& g.format == GlyphFormat::Alpha
    &&& g.bitmap@.len() == w * h
    &&& forall|x: int, y: int|
        0 <= x < w && 0 <= y < h ==> #[trigger] pixel(g.bitmap@, w as int, x, y) == if on(x) {
            255u8
        } else {
            0u8
        }
}

/// Fill whole columns `dx` of a fresh `w`×`h` canvas where `on(dx)` holds.
fn fill_columns(w: u32, h: u32, step_on: u32, period: u32) -> (g: RasterizedGlyph)
    requires
        w > 0,
        h > 0,
        w * h <= u32::MAX,
        0 < step_on <= period,
    ensures
        column_pattern(g, w, h, |x: int| x % (period as int) < step_on),
{
    let mut canvas = Canvas::new(w, h);
    let mut dx: u32 = 0;
    proof {
        assert forall|x: int, y: int| 0 <= x < w && 0 <= y < h implies #[trigger] canvas.at(x, y) == 0u8 by {
            super::lemma_pixel_index(w as int, h as int, x, y, x, y);
        }
    }
    while dx < w
        invariant
            canvas.wf(),
            canvas.spec_width() == w,
            canvas.spec_height() == h,
            0 < step_on <= period,
            dx <= w,
            forall|x: int, y: int|
                0 <= x < w && 0 <= y < h ==> #[trigger] canvas.at(x, y) == if x < dx && x % (period as int) < step_on {
                    255u8
                } else {
                    0u8
                },
        decreases w - dx,
    {
        if dx % period < step_on {
            canvas.fill_rect(dx, 0, dx + 1, h, 255);
        }
        dx = dx + 1;
    }
    let g = canvas.into_rasterized_glyph();
    proof {
        let on = |x: int| x % (period as int) < step_on;
        assert forall|x: int, y: int| 0 <= x < w && 0 <= y < h implies #[trigger] pixel(g.bitmap@, w as int, x, y)
            == if on(x) { 255u8 } else { 0u8 } by {
            assert(canvas.at(x, y) == pixel(g.bitmap@, w as int, x, y));
        }
    }
    g
}

/// Rasterize a dotted underline pattern (1px on, 1px off) for a cell `w`
/// pixels wide and a stroke `h` pixels thick; `None` when either is zero.
pub fn rasterize_dotted(w: u32, h: u32) -> (r: Option<RasterizedGlyph>)
    requires
        w * h <= u32::MAX,
    ensures
        w == 0 || h == 0 ==> r is None,
        w > 0 && h > 0 ==> r is Some && column_pattern(r->0, w, h, |x: int| x % 2 == 0),
{
    if w == 0 || h == 0 {
        return None;
    }
    let g = fill_columns(w, h, 1, 2);
    proof {
        assert forall|x: int| (#[trigger] (x % 2) < 1) == (x % 2 == 0) by {}
    }
    Some(g)
}

/// Rasterize a dashed underline pattern (3px on, 2px off) for a cell `w`
/// pixels wide and a stroke `h` pixels thick; `None` when either is zero.
pub fn rasterize_dashed(w: u32, h: u32) -> (r: Option<RasterizedGlyph>)
    requires
        w * h <= u32::MAX,
    ensures
        w == 0 || h == 0 ==> r is None,
        w > 0 && h > 0 ==> r is Some && column_pattern(r->0, w, h, |x: int| x % 5 < 3),
{
    if w == 0 || h == 0 {
        return None;
    }
    let g = fill_columns(w, h, 3, 5);
    Some(g)
}

} // verus!
