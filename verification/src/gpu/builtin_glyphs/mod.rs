//! Built-in geometric glyph rasterization support: the alpha canvas that
//! box drawing, block elements, braille, powerline symbols and underline
//! decorations are drawn on, the atlas keys for built-in glyphs, the
//! codepoint ranges rendered without a font, and caching a frame's built-in
//! glyphs and underline patterns in the atlas.

use vstd::prelude::*;

pub mod decorations;

use self::decorations::{decoration_key, CURLY_GLYPH_ID, DASHED_GLYPH_ID, DOTTED_GLYPH_ID};
use crate::gpu::atlas::{inserted, lemma_inserted_adds_only_key, spec_key_code, AtlasEntry, GlyphAtlas};
use crate::gpu::prepare::decorations::DecorationFlags;

verus! {

// ── Glyph keys ──

/// Index of a font face within a collection.
#[derive(Debug, Clone, Copy, PartialEq, Eq, Structural, Hash)]
pub struct FaceIdx(pub u16);

impl FaceIdx {
    /// The pseudo-face of glyphs rasterized without a font.
    pub fn builtin() -> (f: FaceIdx)
        ensures
            f.0 == 0xFFFF,
    {
        FaceIdx(0xFFFF)
    }
}

/// Synthetic styling applied when rasterizing (emboldening, oblique).
#[derive(Debug, Clone, Copy, PartialEq, Eq, Structural, Hash)]
pub struct SyntheticFlags(pub u8);

impl SyntheticFlags {
    /// No synthetic styling.
    pub fn none() -> (f: SyntheticFlags)
        ensures
            f.0 == 0,
    {
        SyntheticFlags(0)
    }
}

/// Atlas cache key of a rasterized glyph.
#[derive(Debug, Clone, Copy, PartialEq, Eq, Structural, Hash)]
pub struct RasterKey {
    pub glyph_id: u16,
    pub face_idx: FaceIdx,
    pub size_q6: u32,
    pub synthetic: SyntheticFlags,
}

/// Pixel format of a rasterized glyph.
#[derive(Debug, Clone, Copy, PartialEq, Eq, Structural, Hash)]
pub enum GlyphFormat {
    /// One coverage byte per pixel.
    Alpha,
    /// Three coverage bytes per pixel (subpixel).
    SubpixelRgb,
    /// Four bytes per pixel, premultiplied RGBA.
    Color,
}

/// An alpha (or color) bitmap ready for atlas insertion.
#[derive(Debug, Clone)]
pub struct RasterizedGlyph {
    pub width: u32,
    pub height: u32,
    pub bearing_x: i32,
    pub bearing_y: i32,
    pub format: GlyphFormat,
    pub bitmap: Vec<u8>,
}

/// Construct a [`RasterKey`] for a built-in glyph.
///
/// Uses the built-in face index and the character's codepoint (truncated to
/// 16 bits; all built-in codepoints fit) as the glyph ID.
pub fn raster_key(ch: char, size_q6: u32) -> (k: RasterKey)
    ensures
        k.glyph_id as u32 == (ch as u32) % 65536,
        k.face_idx.0 == 0xFFFF,
        k.size_q6 == size_q6,
        k.synthetic.0 == 0,
{
    RasterKey {
        glyph_id: ((ch as u32) % 65536) as u16,
        face_idx: FaceIdx::builtin(),
        size_q6,
        synthetic: SyntheticFlags::none(),
    }
}

/// Codepoints drawn by the built-in rasterizer: box drawing and block
/// elements (U+2500–U+259F), braille (U+2800–U+28FF) and the powerline
/// separators U+E0B0–U+E0B4 and U+E0B6.
pub open spec fn spec_is_builtin(c: u32) -> bool {
    (0x2500 <= c <= 0x259F) || (0x2800 <= c <= 0x28FF) || (0xE0B0 <= c <= 0xE0B4) || c == 0xE0B6
}

/// Whether `ch` is rendered by the built-in rasterizer instead of a font.
pub fn is_builtin(ch: char) -> (b: bool)
    ensures
        b == spec_is_builtin(ch as u32),
{
    let c = ch as u32;
    (0x2500 <= c && c <= 0x259F) || (0x2800 <= c && c <= 0x28FF) || (0xE0B0 <= c && c <= 0xE0B4)
        || c == 0xE0B6
}

// ── Canvas ──

/// Index of pixel `(x, y)` in a row-major bitmap `w` pixels wide.
pub open spec fn pixel_index(w: int, x: int, y: int) -> int {
    y * w + x
}

/// The pixel `(x, y)` of a row-major bitmap `w` pixels wide.
pub open spec fn pixel(data: Seq<u8>, w: int, x: int, y: int) -> u8 {
    data[pixel_index(w, x, y)]
}

/// Pixel indices of a `w`×`h` bitmap are in range and distinct.
pub proof fn lemma_pixel_index(w: int, h: int, x1: int, y1: int, x2: int, y2: int)
    requires
        0 <= x1 < w,
        0 <= y1 < h,
        0 <= x2 < w,
        0 <= y2 < h,
    ensures
        0 <= pixel_index(w, x1, y1) < w * h,
        pixel_index(w, x1, y1) == pixel_index(w, x2, y2) ==> x1 == x2 && y1 == y2,
{
    assert(0 <= y1 * w + x1 < w * h) by (nonlinear_arith)
        requires 0 <= x1 < w, 0 <= y1 < h;
    assert(y1 * w + x1 == y2 * w + x2 ==> x1 == x2 && y1 == y2) by (nonlinear_arith)
        requires 0 <= x1 < w, 0 <= x2 < w, 0 <= y1, 0 <= y2;
}

/// Simple alpha bitmap for rasterizing built-in glyphs.
///
/// Coordinates are in pixel space relative to the cell origin (0, 0).
/// All drawing operations clip to canvas bounds.
pub struct Canvas {
    data: Vec<u8>,
    width: u32,
    height: u32,
}

impl Canvas {
    /// Canvas width.
    pub closed spec fn spec_width(&self) -> u32 {
        self.width
    }

    /// Canvas height.
    pub closed spec fn spec_height(&self) -> u32 {
        self.height
    }

    /// Row-major alpha values.
    pub closed spec fn data(&self) -> Seq<u8> {
        self.data@
    }

    /// The bitmap holds exactly `width * height` bytes.
    pub closed spec fn wf(&self) -> bool {
        &&& self.data@.len() == self.width * self.height
        &&& self.width * self.height <= u32::MAX
    }

    /// Alpha at `(x, y)`.
    pub open spec fn at(&self, x: int, y: int) -> u8 {
        pixel(self.data(), self.spec_width() as int, x, y)
    }

    /// Create a zero-filled canvas of the given pixel dimensions.
    pub fn new(width: u32, height: u32) -> (c: Canvas)
        requires
            width * height <= u32::MAX,
        ensures
            c.wf(),
            c.spec_width() == width,
            c.spec_height() == height,
            c.data() == Seq::new((width * height) as nat, |i: int| 0u8),
    {
        let n = (width * height) as usize;
        let mut data: Vec<u8> = Vec::with_capacity(n);
        let mut i: usize = 0;
        while i < n
            invariant
                i <= n,
                data@ == Seq::new(i as nat, |k: int| 0u8),
            decreases n - i,
        {
            data.push(0);
            i = i + 1;
            proof {
                assert(data@ =~= Seq::new(i as nat, |k: int| 0u8));
            }
        }
        Canvas { data, width, height }
    }

    /// Canvas width in pixels.
    pub fn width(&self) -> (w: u32)
        ensures
            w == self.spec_width(),
    {
        self.width
    }

    /// Canvas height in pixels.
    pub fn height(&self) -> (h: u32)
        ensures
            h == self.spec_height(),
    {
        self.height
    }

    /// The alpha value at `(x, y)`.
    pub fn get(&self, x: u32, y: u32) -> (a: u8)
        requires
            self.wf(),
            x < self.spec_width(),
            y < self.spec_height(),
        ensures
            a == self.at(x as int, y as int),
    {
        proof {
            lemma_pixel_index(self.width as int, self.height as int, x as int, y as int, x as int, y as int);
        }
        self.data[(y * self.width + x) as usize]
    }

    /// Blend an alpha value at a single pixel (saturating add, clamped to 255).
    ///
    /// Out-of-bounds coordinates are silently ignored.
    pub fn blend_pixel(&mut self, x: i32, y: i32, alpha: u8)
        requires
            old(self).wf(),
        ensures
            final(self).wf(),
            final(self).spec_width() == old(self).spec_width(),
            final(self).spec_height() == old(self).spec_height(),
            forall|px: int, py: int|
                0 <= px < old(self).spec_width() && 0 <= py < old(self).spec_height() ==> #[trigger] final(self).at(px, py)
                    == if px == x && py == y {
                    if old(self).at(px, py) + alpha > 255 {
                        255u8
                    } else {
                        (old(self).at(px, py) + alpha) as u8
                    }
                } else {
                    old(self).at(px, py)
                },
    {
        if x >= 0 && y >= 0 && (x as u32) < self.width && (y as u32) < self.height {
            let xu = x as u32;
            let yu = y as u32;
            proof {
                lemma_pixel_index(self.width as int, self.height as int, xu as int, yu as int, xu as int, yu as int);
            }
            let idx = (yu * self.width + xu) as usize;
            let cur = self.data[idx];
            let v = if cur as u32 + alpha as u32 > 255 { 255u8 } else { cur + alpha };
            let ghost before = self.data@;
            self.data.set(idx, v);
            proof {
                assert forall|px: int, py: int|
                    0 <= px < self.width && 0 <= py < self.height implies pixel(self.data@, self.width as int, px, py)
                    == if px == x && py == y { v } else { pixel(before, self.width as int, px, py) } by {
                    lemma_pixel_index(self.width as int, self.height as int, px, py, xu as int, yu as int);
                }
            }
        }
    }

    /// Fill the pixel rectangle `[x0, x1) × [y0, y1)`, clipped to the canvas,
    /// with a solid alpha value.
    pub fn fill_rect(&mut self, x0: u32, y0: u32, x1: u32, y1: u32, alpha: u8)
        requires
            old(self).wf(),
        ensures
            final(self).wf(),
            final(self).spec_width() == old(self).spec_width(),
            final(self).spec_height() == old(self).spec_height(),
            forall|px: int, py: int|
                0 <= px < old(self).spec_width() && 0 <= py < old(self).spec_height() ==> #[trigger] final(self).at(px, py)
                    == if x0 <= px < x1 && y0 <= py < y1 {
                    alpha
                } else {
                    old(self).at(px, py)
                },
    {
        let w = self.width;
        let h = self.height;
        let xe = if x1 < w { x1 } else { w };
        let ye = if y1 < h { y1 } else { h };
        let ghost before = self.data@;
        let mut py = y0;
        while py < ye
            invariant
                self.width == w,
                self.height == h,
                self.data@.len() == w * h,
                w * h <= u32::MAX,
                before.len() == w * h,
                xe <= w,
                ye <= h,
                y0 <= py,
                py <= ye || py == y0,
                forall|px: int, qy: int|
                    0 <= px < w && 0 <= qy < h ==> #[trigger] pixel(self.data@, w as int, px, qy) == if x0 <= px < xe
                        && y0 <= qy < py {
                        alpha
                    } else {
                        pixel(before, w as int, px, qy)
                    },
            decreases ye - py,
        {
            let mut px = x0;
            while px < xe
                invariant
                    self.width == w,
                    self.height == h,
                    self.data@.len() == w * h,
                    xe <= w,
                    py < ye <= h,
                    y0 <= py,
                    x0 <= px,
                    px <= xe || px == x0,
                    w * h <= u32::MAX,
                    forall|qx: int, qy: int|
                        0 <= qx < w && 0 <= qy < h ==> #[trigger] pixel(self.data@, w as int, qx, qy) == if (x0 <= qx
                            < xe && y0 <= qy < py) || (qy == py && x0 <= qx < px) {
                            alpha
                        } else {
                            pixel(before, w as int, qx, qy)
                        },
                decreases xe - px,
            {
                proof {
                    lemma_pixel_index(w as int, h as int, px as int, py as int, px as int, py as int);
                }
                let idx = (py * w + px) as usize;
                let ghost cur = self.data@;
                self.data.set(idx, alpha);
                proof {
                    assert forall|qx: int, qy: int| 0 <= qx < w && 0 <= qy < h implies #[trigger] pixel(
                        self.data@,
                        w as int,
                        qx,
                        qy,
                    ) == if qx == px && qy == py {
                        alpha
                    } else {
                        pixel(cur, w as int, qx, qy)
                    } by {
                        lemma_pixel_index(w as int, h as int, qx, qy, px as int, py as int);
                    }
                }
                px = px + 1;
            }
            py = py + 1;
        }
    }

    /// Consume the canvas and produce a [`RasterizedGlyph`] filling the whole
    /// cell: `bearing_x = 0`, `bearing_y = 0`, alpha format.
    pub fn into_rasterized_glyph(self) -> (g: RasterizedGlyph)
        ensures
            g.width == self.spec_width(),
            g.height == self.spec_height(),
            g.bearing_x == 0,
            g.bearing_y == 0,
            g.format == GlyphFormat::Alpha,
            g.bitmap@ == self.data(),
    {
        RasterizedGlyph {
            width: self.width,
            height: self.height,
            bearing_x: 0,
            bearing_y: 0,
            format: GlyphFormat::Alpha,
            bitmap: self.data,
        }
    }
}

// ── Caching ──

/// The atlas key of built-in glyph `glyph_id` at `size_q6`.
pub open spec fn builtin_key(glyph_id: u16, size_q6: u32) -> RasterKey {
    RasterKey { glyph_id, face_idx: FaceIdx(0xFFFF), size_q6, synthetic: SyntheticFlags(0) }
}

/// The atlas key of built-in character `ch` at `size_q6`.
pub open spec fn char_key(ch: char, size_q6: u32) -> RasterKey {
    builtin_key(((ch as u32) % 65536) as u16, size_q6)
}

/// What caching the glyph of `key` does, where `produced` holds of what its
/// rasterizer may return: a cached glyph has its page touched; a key known
/// to be empty is left alone; otherwise the rasterizer runs, and its glyph
/// is inserted, or the key is marked empty when it produces none. The
/// atlas's frame counter, page size, page limit and format stay.
pub open spec fn glyph_cached(
    before: GlyphAtlas,
    after: GlyphAtlas,
    key: RasterKey,
    produced: spec_fn(Option<RasterizedGlyph>) -> bool,
) -> bool {
    let c = spec_key_code(key);
    &&& after.frame() == before.frame()
    &&& after.spec_page_size() == before.spec_page_size()
    &&& after.spec_max_pages() == before.spec_max_pages()
    &&& after.spec_format() == before.spec_format()
    &&& if before.entries().contains_key(c) {
        &&& after.entries() == before.entries()
        &&& after.empty_set() == before.empty_set()
        &&& after.page_free() == before.page_free()
        &&& after.page_frames() == before.page_frames().update(before.entries()[c].page as int, before.frame())
    } else if before.empty_set().contains(c) {
        &&& after.entries() == before.entries()
        &&& after.empty_set() == before.empty_set()
        &&& after.page_free() == before.page_free()
        &&& after.page_frames() == before.page_frames()
    } else {
        exists|g: Option<RasterizedGlyph>|
            #![trigger produced(g)]
            produced(g) && match g {
                None => {
                    &&& after.entries() == before.entries()
                    &&& after.empty_set() == before.empty_set().insert(c)
                    &&& after.page_free() == before.page_free()
                    &&& after.page_frames() == before.page_frames()
                },
                Some(glyph) => exists|r: Option<AtlasEntry>| #[trigger] inserted(before, after, key, glyph, r),
            }
    }
}

/// Cache the glyph of `key` unless it is already cached or known to be
/// empty: rasterize it, then insert it, or mark the key empty when it
/// rasterizes to nothing.
fn cache_glyph<R: FnOnce() -> Option<RasterizedGlyph>>(key: RasterKey, atlas: &mut GlyphAtlas, rasterize: R)
    requires
        old(atlas).wf(),
        call_requires(rasterize, ()),
    ensures
        final(atlas).wf(),
        glyph_cached(*old(atlas), *final(atlas), key, |g: Option<RasterizedGlyph>| call_ensures(rasterize, (), g)),
{
    let ghost a0 = *atlas;
    let ghost c = spec_key_code(key);
    if atlas.lookup_touch(key).is_some() || atlas.is_known_empty(key) {
        assert(a0.entries().contains_key(c) ==> atlas.page_frames() == a0.page_frames().update(
            a0.entries()[c].page as int,
            a0.frame(),
        ));
        return;
    }
    let ghost produced = |g: Option<RasterizedGlyph>| call_ensures(rasterize, (), g);
    let g = rasterize();
    match g {
        Some(glyph) => {
            let r = atlas.insert(key, &glyph);
            assert(inserted(a0, *atlas, key, glyph, r));
        },
        None => {
            atlas.mark_empty(key);
        },
    }
    assert(produced(g));
}

/// Caching with a rasterizer of which more is known is caching with one of
/// which less is.
proof fn lemma_glyph_cached_weaken(
    before: GlyphAtlas,
    after: GlyphAtlas,
    key: RasterKey,
    p1: spec_fn(Option<RasterizedGlyph>) -> bool,
    p2: spec_fn(Option<RasterizedGlyph>) -> bool,
)
    requires
        glyph_cached(before, after, key, p1),
        forall|g: Option<RasterizedGlyph>| #[trigger] p1(g) ==> p2(g),
    ensures
        glyph_cached(before, after, key, p2),
{
    let c = spec_key_code(key);
    if !before.entries().contains_key(c) && !before.empty_set().contains(c) {
        let g = choose|g: Option<RasterizedGlyph>|
            #![trigger p1(g)]
            p1(g) && match g {
                None => {
                    &&& after.entries() == before.entries()
                    &&& after.empty_set() == before.empty_set().insert(c)
                    &&& after.page_free() == before.page_free()
                    &&& after.page_frames() == before.page_frames()
                },
                Some(glyph) => exists|r: Option<AtlasEntry>| #[trigger] inserted(before, after, key, glyph, r),
            };
        assert(p2(g));
    }
}

/// Cache one decoration pattern unless it is already cached or known to
/// be empty.
pub fn cache_decoration<R: FnOnce() -> Option<RasterizedGlyph>>(
    glyph_id: u16,
    size_q6: u32,
    atlas: &mut GlyphAtlas,
    rasterize: R,
)
    requires
        old(atlas).wf(),
        call_requires(rasterize, ()),
    ensures
        final(atlas).wf(),
        glyph_cached(
            *old(atlas),
            *final(atlas),
            builtin_key(glyph_id, size_q6),
            |g: Option<RasterizedGlyph>| call_ensures(rasterize, (), g),
        ),
{
    let key = decoration_key(glyph_id, size_q6);
    assert(key == builtin_key(glyph_id, size_q6));
    cache_glyph(key, atlas, rasterize);
}

/// Whether one of the first `n` cells carries the underline pattern
/// `glyph_id` (curly, dotted or dashed).
pub open spec fn pattern_in(cells: Seq<(char, DecorationFlags)>, glyph_id: u16, n: int) -> bool {
    exists|i: int|
        0 <= i < n && {
            let f = (#[trigger] cells[i]).1;
            ||| glyph_id == CURLY_GLYPH_ID && f.curly_underline
            ||| glyph_id == DOTTED_GLYPH_ID && f.dotted_underline
            ||| glyph_id == DASHED_GLYPH_ID && f.dashed_underline
        }
}

/// Whether some cell carries the underline pattern `glyph_id`.
pub open spec fn pattern_needed(cells: Seq<(char, DecorationFlags)>, glyph_id: u16) -> bool {
    pattern_in(cells, glyph_id, cells.len() as int)
}

/// One cell of the scan: a built-in character has its glyph cached,
/// rasterized by `rasterize`; any other character leaves the atlas alone.
pub open spec fn builtin_step<R: Fn(char) -> Option<RasterizedGlyph>>(
    before: GlyphAtlas,
    after: GlyphAtlas,
    ch: char,
    size_q6: u32,
    rasterize: R,
) -> bool {
    if spec_is_builtin(ch as u32) {
        glyph_cached(before, after, char_key(ch, size_q6), |g: Option<RasterizedGlyph>| call_ensures(rasterize, (ch,), g))
    } else {
        after == before
    }
}

/// One pattern after the scan: cached, rasterized by `rasterize`, when some
/// cell carries it; the atlas left alone otherwise.
pub open spec fn pattern_step<R: FnOnce() -> Option<RasterizedGlyph>>(
    before: GlyphAtlas,
    after: GlyphAtlas,
    cells: Seq<(char, DecorationFlags)>,
    glyph_id: u16,
    size_q6: u32,
    rasterize: R,
) -> bool {
    if pattern_needed(cells, glyph_id) {
        glyph_cached(before, after, builtin_key(glyph_id, size_q6), |g: Option<RasterizedGlyph>| call_ensures(rasterize, (), g))
    } else {
        after == before
    }
}

/// The atlas states of caching a frame's built-ins: `states[j + 1]` follows
/// `states[j]` by the step of cell `j`, then come the curly, dotted and
/// dashed pattern steps, in that order.
pub open spec fn builtins_cached<
    R: Fn(char) -> Option<RasterizedGlyph>,
    C: FnOnce() -> Option<RasterizedGlyph>,
    D: FnOnce() -> Option<RasterizedGlyph>,
    E: FnOnce() -> Option<RasterizedGlyph>,
>(
    cells: Seq<(char, DecorationFlags)>,
    size_q6: u32,
    states: Seq<GlyphAtlas>,
    rasterize: R,
    curly: C,
    dotted: D,
    dashed: E,
) -> bool {
    let n = cells.len() as int;
    &&& states.len() == n + 4
    &&& forall|j: int| 0 <= j < n ==> builtin_step(states[j], states[j + 1], (#[trigger] cells[j]).0, size_q6, rasterize)
    &&& pattern_step(states[n], states[n + 1], cells, CURLY_GLYPH_ID, size_q6, curly)
    &&& pattern_step(states[n + 1], states[n + 2], cells, DOTTED_GLYPH_ID, size_q6, dotted)
    &&& pattern_step(states[n + 2], states[n + 3], cells, DASHED_GLYPH_ID, size_q6, dashed)
}

/// Whether `k` is the atlas key, at `size_q6`, of the built-in glyph of
/// one of `cells`, or of an underline pattern one of them carries.
pub open spec fn frame_builtin_key(cells: Seq<(char, DecorationFlags)>, size_q6: u32, k: RasterKey) -> bool {
    ||| exists|i: int| 0 <= i < cells.len() && spec_is_builtin((#[trigger] cells[i]).0 as u32) && k == char_key(cells[i].0, size_q6)
    ||| (k.glyph_id == CURLY_GLYPH_ID || k.glyph_id == DOTTED_GLYPH_ID || k.glyph_id == DASHED_GLYPH_ID) && pattern_needed(
        cells,
        k.glyph_id,
    ) && k == builtin_key(k.glyph_id, size_q6)
}

/// Whether `c` is the key code of a built-in glyph or pattern of `cells`.
pub open spec fn frame_builtin_code(cells: Seq<(char, DecorationFlags)>, size_q6: u32, c: u128) -> bool {
    exists|k: RasterKey| #[trigger] spec_key_code(k) == c && frame_builtin_key(cells, size_q6, k)
}

/// Rasterize and cache the built-in glyphs and underline patterns a frame
/// uses.
///
/// One pass over the cells: each built-in character (box drawing, block
/// elements, braille, powerline) is rasterized with `rasterize` on a cache
/// miss, or marked empty when it draws nothing; the curly, dotted and dashed
/// underline flags are collected, and each pattern in use is then cached
/// once, rasterized by `curly`, `dotted` or `dashed`.
pub fn ensure_builtins_cached<
    R: Fn(char) -> Option<RasterizedGlyph>,
    C: FnOnce() -> Option<RasterizedGlyph>,
    D: FnOnce() -> Option<RasterizedGlyph>,
    E: FnOnce() -> Option<RasterizedGlyph>,
>(cells: &[(char, DecorationFlags)], size_q6: u32, atlas: &mut GlyphAtlas, rasterize: R, curly: C, dotted: D, dashed: E)
    requires
        old(atlas).wf(),
        forall|ch: char| call_requires(rasterize, (ch,)),
        call_requires(curly, ()),
        call_requires(dotted, ()),
        call_requires(dashed, ()),
    ensures
        final(atlas).wf(),
        exists|states: Seq<GlyphAtlas>|
            #![trigger builtins_cached(cells@, size_q6, states, rasterize, curly, dotted, dashed)]
            builtins_cached(cells@, size_q6, states, rasterize, curly, dotted, dashed) && states[0] == *old(atlas)
                && states.last() == *final(atlas),
{
    let ghost a0 = *atlas;
    let ghost mut states: Seq<GlyphAtlas> = seq![a0];
    let mut need_curly = false;
    let mut need_dotted = false;
    let mut need_dashed = false;
    let n = cells.len();
    let mut i: usize = 0;
    while i < n
        invariant
            n == cells.len(),
            0 <= i <= n,
            atlas.wf(),
            forall|ch: char| call_requires(rasterize, (ch,)),
            states.len() == i + 1,
            states[0] == a0,
            states.last() == *atlas,
            forall|j: int| 0 <= j < i ==> builtin_step(states[j], states[j + 1], (#[trigger] cells@[j]).0, size_q6, rasterize),
            need_curly == pattern_in(cells@, CURLY_GLYPH_ID, i as int),
            need_dotted == pattern_in(cells@, DOTTED_GLYPH_ID, i as int),
            need_dashed == pattern_in(cells@, DASHED_GLYPH_ID, i as int),
        decreases n - i,
    {
        let (ch, flags) = cells[i];
        let ghost before = *atlas;
        if is_builtin(ch) {
            let key = raster_key(ch, size_q6);
            assert(key == char_key(ch, size_q6));
            let rasterize_ch = || -> (g: Option<RasterizedGlyph>)
                requires
                    call_requires(rasterize, (ch,)),
                ensures
                    call_ensures(rasterize, (ch,), g),
                { rasterize(ch) };
            cache_glyph(key, atlas, rasterize_ch);
            proof {
                lemma_glyph_cached_weaken(
                    before,
                    *atlas,
                    key,
                    |g: Option<RasterizedGlyph>| call_ensures(rasterize_ch, (), g),
                    |g: Option<RasterizedGlyph>| call_ensures(rasterize, (ch,), g),
                );
            }
        }
        proof {
            assert(cells@[i as int] == (ch, flags));
            states = states.push(*atlas);
            assert(builtin_step(states[i as int], states[i + 1], cells@[i as int].0, size_q6, rasterize));
        }
        if !(need_curly && need_dotted && need_dashed) {
            need_curly = need_curly || flags.curly_underline;
            need_dotted = need_dotted || flags.dotted_underline;
            need_dashed = need_dashed || flags.dashed_underline;
        }
        i = i + 1;
    }
    proof {
        assert(cells@.len() == n);
    }
    if need_curly {
        cache_decoration(CURLY_GLYPH_ID, size_q6, atlas, curly);
    }
    proof {
        states = states.push(*atlas);
    }
    if need_dotted {
        cache_decoration(DOTTED_GLYPH_ID, size_q6, atlas, dotted);
    }
    proof {
        states = states.push(*atlas);
    }
    if need_dashed {
        cache_decoration(DASHED_GLYPH_ID, size_q6, atlas, dashed);
    }
    proof {
        states = states.push(*atlas);
        assert(builtins_cached(cells@, size_q6, states, rasterize, curly, dotted, dashed));
    }
}

/// One caching step adds no entry and no empty key but its own, and alters
/// no entry it keeps.
proof fn lemma_glyph_cached_adds_only_key(
    before: GlyphAtlas,
    after: GlyphAtlas,
    key: RasterKey,
    produced: spec_fn(Option<RasterizedGlyph>) -> bool,
)
    requires
        glyph_cached(before, after, key, produced),
    ensures
        forall|c: u128| #[trigger]
            after.entries().contains_key(c) && c != spec_key_code(key) ==> before.entries().contains_key(c)
                && after.entries()[c] == before.entries()[c],
        forall|c: u128| #[trigger] after.empty_set().contains(c) && c != spec_key_code(key) ==> before.empty_set().contains(c),
{
    let c = spec_key_code(key);
    if !before.entries().contains_key(c) && !before.empty_set().contains(c) {
        let g = choose|g: Option<RasterizedGlyph>|
            #![trigger produced(g)]
            produced(g) && match g {
                None => {
                    &&& after.entries() == before.entries()
                    &&& after.empty_set() == before.empty_set().insert(c)
                    &&& after.page_free() == before.page_free()
                    &&& after.page_frames() == before.page_frames()
                },
                Some(glyph) => exists|r: Option<AtlasEntry>| #[trigger] inserted(before, after, key, glyph, r),
            };
        if let Some(glyph) = g {
            let r = choose|r: Option<AtlasEntry>| #[trigger] inserted(before, after, key, glyph, r);
            lemma_inserted_adds_only_key(before, after, key, glyph, r);
        }
    }
}

/// Whether `after` holds no entry and no empty key that `before` lacks but
/// a built-in key of `cells`, and keeps the entries of `before` it keeps.
pub open spec fn adds_only_frame_keys(
    before: GlyphAtlas,
    after: GlyphAtlas,
    cells: Seq<(char, DecorationFlags)>,
    size_q6: u32,
) -> bool {
    &&& forall|c: u128| #[trigger]
        after.entries().contains_key(c) ==> (before.entries().contains_key(c) && after.entries()[c] == before.entries()[c])
            || frame_builtin_code(cells, size_q6, c)
    &&& forall|c: u128| #[trigger]
        after.empty_set().contains(c) ==> before.empty_set().contains(c) || frame_builtin_code(cells, size_q6, c)
}

/// The property holds from `states[0]` to `states[j]` for the cell steps.
proof fn lemma_cell_steps_add_only_frame_keys<
    R: Fn(char) -> Option<RasterizedGlyph>,
    C: FnOnce() -> Option<RasterizedGlyph>,
    D: FnOnce() -> Option<RasterizedGlyph>,
    E: FnOnce() -> Option<RasterizedGlyph>,
>(
    cells: Seq<(char, DecorationFlags)>,
    size_q6: u32,
    states: Seq<GlyphAtlas>,
    rasterize: R,
    curly: C,
    dotted: D,
    dashed: E,
    j: int,
)
    requires
        builtins_cached(cells, size_q6, states, rasterize, curly, dotted, dashed),
        0 <= j <= cells.len(),
    ensures
        adds_only_frame_keys(states[0], states[j], cells, size_q6),
    decreases j,
{
    if j > 0 {
        lemma_cell_steps_add_only_frame_keys(cells, size_q6, states, rasterize, curly, dotted, dashed, j - 1);
        let ch = cells[j - 1].0;
        assert(builtin_step(states[j - 1], states[j], cells[j - 1].0, size_q6, rasterize));
        if spec_is_builtin(ch as u32) {
            let key = char_key(ch, size_q6);
            assert(frame_builtin_key(cells, size_q6, key));
            assert(frame_builtin_code(cells, size_q6, spec_key_code(key)));
            lemma_glyph_cached_adds_only_key(
                states[j - 1],
                states[j],
                key,
                |g: Option<RasterizedGlyph>| call_ensures(rasterize, (ch,), g),
            );
        }
    }
}

/// A pattern step keeps the property.
proof fn lemma_pattern_step_adds_only_frame_keys<R: FnOnce() -> Option<RasterizedGlyph>>(
    first: GlyphAtlas,
    before: GlyphAtlas,
    after: GlyphAtlas,
    cells: Seq<(char, DecorationFlags)>,
    glyph_id: u16,
    size_q6: u32,
    rasterize: R,
)
    requires
        glyph_id == CURLY_GLYPH_ID || glyph_id == DOTTED_GLYPH_ID || glyph_id == DASHED_GLYPH_ID,
        adds_only_frame_keys(first, before, cells, size_q6),
        pattern_step(before, after, cells, glyph_id, size_q6, rasterize),
    ensures
        adds_only_frame_keys(first, after, cells, size_q6),
{
    if pattern_needed(cells, glyph_id) {
        let key = builtin_key(glyph_id, size_q6);
        assert(frame_builtin_key(cells, size_q6, key));
        assert(frame_builtin_code(cells, size_q6, spec_key_code(key)));
        lemma_glyph_cached_adds_only_key(before, after, key, |g: Option<RasterizedGlyph>| call_ensures(rasterize, (), g));
    }
}

/// Caching a frame's built-ins adds to the atlas no entry and no empty key
/// but those of the frame's built-in glyphs and the underline patterns its
/// cells carry, and alters no entry it keeps.
pub proof fn law_builtins_add_only_frame_keys<
    R: Fn(char) -> Option<RasterizedGlyph>,
    C: FnOnce() -> Option<RasterizedGlyph>,
    D: FnOnce() -> Option<RasterizedGlyph>,
    E: FnOnce() -> Option<RasterizedGlyph>,
>(
    cells: Seq<(char, DecorationFlags)>,
    size_q6: u32,
    states: Seq<GlyphAtlas>,
    rasterize: R,
    curly: C,
    dotted: D,
    dashed: E,
)
    requires
        builtins_cached(cells, size_q6, states, rasterize, curly, dotted, dashed),
    ensures
        adds_only_frame_keys(states[0], states.last(), cells, size_q6),
{
    let n = cells.len() as int;
    lemma_cell_steps_add_only_frame_keys(cells, size_q6, states, rasterize, curly, dotted, dashed, n);
    lemma_pattern_step_adds_only_frame_keys(states[0], states[n], states[n + 1], cells, CURLY_GLYPH_ID, size_q6, curly);
    lemma_pattern_step_adds_only_frame_keys(states[0], states[n + 1], states[n + 2], cells, DOTTED_GLYPH_ID, size_q6, dotted);
    lemma_pattern_step_adds_only_frame_keys(states[0], states[n + 2], states[n + 3], cells, DASHED_GLYPH_ID, size_q6, dashed);
}

/// Whether every built-in key of `cells` is cached or known empty in `a`.
pub open spec fn frame_keys_known(a: GlyphAtlas, cells: Seq<(char, DecorationFlags)>, size_q6: u32) -> bool {
    forall|k: RasterKey|
        frame_builtin_key(cells, size_q6, k) ==> a.entries().contains_key(#[trigger] spec_key_code(k)) || a.empty_set().contains(
            spec_key_code(k),
        )
}

/// Steps whose keys are all known change no entry, no empty key and no
/// free space.
proof fn lemma_known_cell_steps<
    R: Fn(char) -> Option<RasterizedGlyph>,
    C: FnOnce() -> Option<RasterizedGlyph>,
    D: FnOnce() -> Option<RasterizedGlyph>,
    E: FnOnce() -> Option<RasterizedGlyph>,
>(
    cells: Seq<(char, DecorationFlags)>,
    size_q6: u32,
    states: Seq<GlyphAtlas>,
    rasterize: R,
    curly: C,
    dotted: D,
    dashed: E,
    j: int,
)
    requires
        builtins_cached(cells, size_q6, states, rasterize, curly, dotted, dashed),
        frame_keys_known(states[0], cells, size_q6),
        0 <= j <= cells.len(),
    ensures
        states[j].entries() == states[0].entries(),
        states[j].empty_set() == states[0].empty_set(),
        states[j].page_free() == states[0].page_free(),
    decreases j,
{
    if j > 0 {
        lemma_known_cell_steps(cells, size_q6, states, rasterize, curly, dotted, dashed, j - 1);
        let ch = cells[j - 1].0;
        assert(builtin_step(states[j - 1], states[j], cells[j - 1].0, size_q6, rasterize));
        if spec_is_builtin(ch as u32) {
            assert(frame_builtin_key(cells, size_q6, char_key(ch, size_q6)));
        }
    }
}

/// A frame whose built-in glyphs and patterns are all cached or known
/// empty rasterizes nothing: caching it again changes no entry and no
/// empty key, only the recency of the pages it uses.
pub proof fn law_known_builtins_not_rasterized<
    R: Fn(char) -> Option<RasterizedGlyph>,
    C: FnOnce() -> Option<RasterizedGlyph>,
    D: FnOnce() -> Option<RasterizedGlyph>,
    E: FnOnce() -> Option<RasterizedGlyph>,
>(
    cells: Seq<(char, DecorationFlags)>,
    size_q6: u32,
    states: Seq<GlyphAtlas>,
    rasterize: R,
    curly: C,
    dotted: D,
    dashed: E,
)
    requires
        builtins_cached(cells, size_q6, states, rasterize, curly, dotted, dashed),
        frame_keys_known(states[0], cells, size_q6),
    ensures
        states.last().entries() == states[0].entries(),
        states.last().empty_set() == states[0].empty_set(),
        states.last().page_free() == states[0].page_free(),
{
    let n = cells.len() as int;
    lemma_known_cell_steps(cells, size_q6, states, rasterize, curly, dotted, dashed, n);
    assert(frame_builtin_key(cells, size_q6, builtin_key(CURLY_GLYPH_ID, size_q6)) || !pattern_needed(cells, CURLY_GLYPH_ID));
    assert(frame_builtin_key(cells, size_q6, builtin_key(DOTTED_GLYPH_ID, size_q6)) || !pattern_needed(cells, DOTTED_GLYPH_ID));
    assert(frame_builtin_key(cells, size_q6, builtin_key(DASHED_GLYPH_ID, size_q6)) || !pattern_needed(cells, DASHED_GLYPH_ID));
}

/// Families of built-in characters, each drawn by its own drawer.
#[derive(Debug, Clone, Copy, PartialEq, Eq, Structural)]
pub enum BuiltinFamily {
    /// Box drawing, U+2500–U+257F.
    BoxDrawing,
    /// Block elements, U+2580–U+259F.
    Blocks,
    /// Braille patterns, U+2800–U+28FF.
    Braille,
    /// Powerline separators, U+E0B0–U+E0B4 and U+E0B6.
    Powerline,
}

/// The family that draws `c`, if it is a built-in character.
pub open spec fn spec_builtin_family(c: u32) -> Option<BuiltinFamily> {
    if 0x2500 <= c <= 0x257F {
        Some(BuiltinFamily::BoxDrawing)
    } else if 0x2580 <= c <= 0x259F {
        Some(BuiltinFamily::Blocks)
    } else if 0x2800 <= c <= 0x28FF {
        Some(BuiltinFamily::Braille)
    } else if (0xE0B0 <= c <= 0xE0B4) || c == 0xE0B6 {
        Some(BuiltinFamily::Powerline)
    } else {
        None
    }
}

/// The family that draws `ch`, if it is a built-in character.
pub fn builtin_family(ch: char) -> (f: Option<BuiltinFamily>)
    ensures
        f == spec_builtin_family(ch as u32),
        f is Some <==> spec_is_builtin(ch as u32),
{
    let c = ch as u32;
    if 0x2500 <= c && c <= 0x257F {
        Some(BuiltinFamily::BoxDrawing)
    } else if 0x2580 <= c && c <= 0x259F {
        Some(BuiltinFamily::Blocks)
    } else if 0x2800 <= c && c <= 0x28FF {
        Some(BuiltinFamily::Braille)
    } else if (0xE0B0 <= c && c <= 0xE0B4) || c == 0xE0B6 {
        Some(BuiltinFamily::Powerline)
    } else {
        None
    }
}

/// Rasterize a built-in glyph into a cell-sized alpha bitmap.
///
/// `None` when a cell dimension is zero, when `ch` is not a built-in
/// character, or when its family's drawer (`draw`, given the family, the
/// character and a blank canvas) does not handle it. Otherwise the glyph is
/// the canvas the drawer returns, at the origin and filling the cell.
pub fn rasterize<D: FnOnce(BuiltinFamily, char, Canvas) -> (Canvas, bool)>(
    ch: char,
    cell_w: u32,
    cell_h: u32,
    draw: D,
) -> (g: Option<RasterizedGlyph>)
    requires
        cell_w * cell_h <= u32::MAX,
        forall|f: BuiltinFamily, c: Canvas| c.wf() ==> call_requires(draw, (f, ch, c)),
    ensures
        cell_w == 0 || cell_h == 0 || spec_builtin_family(ch as u32) is None ==> g is None,
        cell_w > 0 && cell_h > 0 && spec_builtin_family(ch as u32) is Some ==> exists|blank: Canvas, out: Canvas, handled: bool|
            #![trigger call_ensures(draw, (spec_builtin_family(ch as u32)->0, ch, blank), (out, handled))]
            {
                &&& blank.wf()
                &&& blank.spec_width() == cell_w
                &&& blank.spec_height() == cell_h
                &&& blank.data() == Seq::new((cell_w * cell_h) as nat, |i: int| 0u8)
                &&& call_ensures(draw, (spec_builtin_family(ch as u32)->0, ch, blank), (out, handled))
                &&& if handled {
                    g matches Some(glyph) && glyph.width == out.spec_width() && glyph.height == out.spec_height()
                        && glyph.bearing_x == 0 && glyph.bearing_y == 0 && glyph.format == GlyphFormat::Alpha
                        && glyph.bitmap@ == out.data()
                } else {
                    g is None
                }
            },
{
    if cell_w == 0 || cell_h == 0 {
        return None;
    }
    let family = match builtin_family(ch) {
        Some(f) => f,
        None => {
            return None;
        },
    };
    let canvas = Canvas::new(cell_w, cell_h);
    let (out, handled) = draw(family, ch, canvas);
    if handled {
        Some(out.into_rasterized_glyph())
    } else {
        None
    }
}

} // verus!
