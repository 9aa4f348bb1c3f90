//! Glyph atlas: guillotine-packed pages of a texture array.
//!
//! [`GlyphAtlas`] decides where each glyph bitmap goes: which page (texture
//! array layer) and which pixel position. Pages are packed with
//! best-short-side-fit guillotine packing and evicted least-recently-used
//! first once all pages are full. Glyphs are inserted once and looked up by
//! [`RasterKey`] on later frames. Uploading the bitmap to the placement it
//! was given is the caller's part.

pub mod rect_packer;

use std::collections::{HashMap, HashSet};
use vstd::prelude::*;

use self::rect_packer::{disjoint, spec_best, spec_split, within, Rect, RectPacker};
use crate::gpu::builtin_glyphs::{GlyphFormat, RasterKey, RasterizedGlyph};

verus! {

broadcast use vstd::std_specs::hash::group_hash_axioms;

/// Atlas page dimension (width = height).
pub const PAGE_SIZE: u32 = 2048;

/// Maximum number of texture array layers.
pub const MAX_PAGES: u32 = 4;

/// Padding between glyphs to prevent texture filtering artifacts.
pub const GLYPH_PADDING: u32 = 1;

/// Location and metrics of a cached glyph in the atlas.
#[derive(Debug, Clone, Copy, PartialEq, Eq, Structural)]
pub struct AtlasEntry {
    /// Page index (texture array layer).
    pub page: u32,
    /// Left edge in page pixels.
    pub x: u32,
    /// Top edge in page pixels.
    pub y: u32,
    /// Bitmap width in pixels.
    pub width: u32,
    /// Bitmap height in pixels.
    pub height: u32,
    /// Horizontal bearing (pixels from glyph origin to left edge).
    pub bearing_x: i32,
    /// Vertical bearing (pixels from baseline to top edge; positive = above).
    pub bearing_y: i32,
    /// Whether this entry lives in the color (RGBA) atlas.
    pub is_color: bool,
}

/// The page area an entry occupies: its bitmap plus one pixel of padding
/// to the right and below.
pub open spec fn slot(e: AtlasEntry) -> Rect {
    Rect { x: e.x, y: e.y, w: (e.width + 1) as u32, h: (e.height + 1) as u32 }
}

/// The integer a raster key is cached under: its four fields side by side.
pub open spec fn spec_key_code(k: RasterKey) -> u128 {
    (k.glyph_id as u128) | ((k.face_idx.0 as u128) << 16u128) | ((k.size_q6 as u128) << 32u128) | ((
    k.synthetic.0 as u128) << 64u128)
}

/// Distinct raster keys are cached under distinct codes.
pub proof fn lemma_key_code_injective(a: RasterKey, b: RasterKey)
    ensures
        spec_key_code(a) == spec_key_code(b) ==> a == b,
{
    let (g1, f1, s1, y1) = (a.glyph_id, a.face_idx.0, a.size_q6, a.synthetic.0);
    let (g2, f2, s2, y2) = (b.glyph_id, b.face_idx.0, b.size_q6, b.synthetic.0);
    assert(((g1 as u128) | ((f1 as u128) << 16u128) | ((s1 as u128) << 32u128) | ((y1 as u128) << 64u128))
        == ((g2 as u128) | ((f2 as u128) << 16u128) | ((s2 as u128) << 32u128) | ((y2 as u128) << 64u128))
        ==> g1 == g2 && f1 == f2 && s1 == s2 && y1 == y2) by (bit_vector);
}

/// The cache code of a raster key.
pub fn key_code(key: &RasterKey) -> (c: u128)
    ensures
        c == spec_key_code(*key),
{
    (key.glyph_id as u128) | ((key.face_idx.0 as u128) << 16u128) | ((key.size_q6 as u128) << 32u128) | ((
    key.synthetic.0 as u128) << 64u128)
}

/// Index of the first page with the smallest last-used frame.
pub open spec fn lru_index(frames: Seq<u64>) -> int
    decreases frames.len(),
{
    if frames.len() <= 1 {
        0
    } else {
        let j = lru_index(frames.drop_last());
        if frames.last() < frames[j] {
            frames.len() - 1
        } else {
            j
        }
    }
}

/// The first page, from index `i` on, whose free space can hold a `w`×`h`
/// request.
pub open spec fn first_fit_from(frees: Seq<Seq<Rect>>, i: int, w: u32, h: u32) -> Option<int>
    decreases frees.len() - i,
{
    if i >= frees.len() || i < 0 {
        None
    } else if spec_best(frees[i], w, h) is Some {
        Some(i)
    } else {
        first_fit_from(frees, i + 1, w, h)
    }
}

/// The free list of an empty `size`×`size` page.
pub open spec fn fresh_free(size: u32) -> Seq<Rect> {
    seq![Rect { x: 0, y: 0, w: size, h: size }]
}

/// Every cached entry sits on a page that has handed out its slot, with the
/// atlas's color flag, and no two entries on one page overlap.
pub open spec fn entries_ok(cache: Map<u128, AtlasEntry>, placed: Seq<Seq<Rect>>, is_color: bool) -> bool {
    &&& forall|k: u128| #[trigger] cache.contains_key(k) ==> {
        let e = cache[k];
        &&& e.page < placed.len()
        &&& e.width > 0
        &&& e.height > 0
        &&& e.is_color == is_color
        &&& exists|i: int| 0 <= i < placed[e.page as int].len() && #[trigger] placed[e.page as int][i] == slot(e)
    }
    &&& forall|k1: u128, k2: u128|
        cache.contains_key(k1) && cache.contains_key(k2) && k1 != k2 && #[trigger] cache[k1].page
            == #[trigger] cache[k2].page ==> disjoint(slot(cache[k1]), slot(cache[k2]))
}

/// Growing the pages' placement lists keeps every entry placed.
proof fn lemma_entries_extend(cache: Map<u128, AtlasEntry>, pl: Seq<Seq<Rect>>, pl2: Seq<Seq<Rect>>, is_color: bool)
    requires
        entries_ok(cache, pl, is_color),
        pl.len() <= pl2.len(),
        forall|p: int| 0 <= p < pl.len() ==> #[trigger] pl[p].len() <= pl2[p].len() && pl2[p].take(pl[p].len() as int) == pl[p],
    ensures
        entries_ok(cache, pl2, is_color),
{
    assert forall|k: u128| #[trigger] cache.contains_key(k) implies {
        let e = cache[k];
        &&& e.page < pl2.len()
        &&& exists|i: int| 0 <= i < pl2[e.page as int].len() && #[trigger] pl2[e.page as int][i] == slot(e)
    } by {
        let e = cache[k];
        let p = e.page as int;
        let i = choose|i: int| 0 <= i < pl[p].len() && #[trigger] pl[p][i] == slot(e);
        assert(pl[p].len() <= pl2[p].len() && pl2[p].take(pl[p].len() as int) == pl[p]);
        assert(pl2[p].take(pl[p].len() as int)[i] == pl2[p][i]);
        assert(pl2[p][i] == slot(e));
    }
}

/// Adding an entry whose slot was handed out on its page and overlaps no
/// entry already there keeps the cache well placed.
proof fn lemma_entries_insert(cache: Map<u128, AtlasEntry>, pl: Seq<Seq<Rect>>, is_color: bool, code: u128, e: AtlasEntry, i: int)
    requires
        entries_ok(cache, pl, is_color),
        !cache.contains_key(code),
        e.page < pl.len(),
        e.width > 0,
        e.height > 0,
        e.is_color == is_color,
        0 <= i < pl[e.page as int].len(),
        pl[e.page as int][i] == slot(e),
        forall|k: u128| #[trigger] cache.contains_key(k) && cache[k].page == e.page ==> disjoint(slot(cache[k]), slot(e)),
    ensures
        entries_ok(cache.insert(code, e), pl, is_color),
{
    let c2 = cache.insert(code, e);
    assert forall|k: u128| #[trigger] c2.contains_key(k) implies {
        let f = c2[k];
        &&& f.page < pl.len()
        &&& f.width > 0
        &&& f.height > 0
        &&& f.is_color == is_color
        &&& exists|j: int| 0 <= j < pl[f.page as int].len() && #[trigger] pl[f.page as int][j] == slot(f)
    } by {
        if k == code {
            assert(pl[e.page as int][i] == slot(e));
        } else {
            assert(cache.contains_key(k));
        }
    }
    assert forall|k1: u128, k2: u128|
        c2.contains_key(k1) && c2.contains_key(k2) && k1 != k2 && #[trigger] c2[k1].page
            == #[trigger] c2[k2].page implies disjoint(slot(c2[k1]), slot(c2[k2])) by {
        if k1 == code {
            assert(cache.contains_key(k2));
            assert(disjoint(slot(cache[k2]), slot(e)));
        } else if k2 == code {
            assert(cache.contains_key(k1));
            assert(disjoint(slot(cache[k1]), slot(e)));
        } else {
            assert(cache.contains_key(k1) && cache.contains_key(k2));
        }
    }
}

/// Emptying page `v` and dropping its entries keeps the cache well placed.
proof fn lemma_entries_evict(cache: Map<u128, AtlasEntry>, pl: Seq<Seq<Rect>>, is_color: bool, v: int, cache2: Map<u128, AtlasEntry>)
    requires
        entries_ok(cache, pl, is_color),
        0 <= v < pl.len(),
        forall|k: u128| #[trigger] cache2.contains_key(k) <==> cache.contains_key(k) && cache[k].page != v,
        forall|k: u128| #[trigger] cache2.contains_key(k) ==> cache2[k] == cache[k],
    ensures
        entries_ok(cache2, pl.update(v, Seq::empty()), is_color),
{
    let pl2 = pl.update(v, Seq::<Rect>::empty());
    assert forall|k: u128| #[trigger] cache2.contains_key(k) implies {
        let f = cache2[k];
        &&& f.page < pl2.len()
        &&& f.width > 0
        &&& f.height > 0
        &&& f.is_color == is_color
        &&& exists|j: int| 0 <= j < pl2[f.page as int].len() && #[trigger] pl2[f.page as int][j] == slot(f)
    } by {
        assert(cache.contains_key(k));
        let f = cache[k];
        let j = choose|j: int| 0 <= j < pl[f.page as int].len() && #[trigger] pl[f.page as int][j] == slot(f);
        assert(pl2[f.page as int] == pl[f.page as int]);
        assert(pl2[f.page as int][j] == slot(f));
    }
    assert forall|k1: u128, k2: u128|
        cache2.contains_key(k1) && cache2.contains_key(k2) && k1 != k2 && #[trigger] cache2[k1].page
            == #[trigger] cache2[k2].page implies disjoint(slot(cache2[k1]), slot(cache2[k2])) by {
        assert(cache.contains_key(k1) && cache.contains_key(k2));
        assert(cache[k1].page == cache[k2].page);
    }
}

/// Whether a cached entry lies on a page other than `page`.
fn off_page(e: &AtlasEntry, page: u32) -> (b: bool)
    ensures
        b == (e.page != page),
{
    e.page != page
}

/// Calls `HashMap::retain`, keeping exactly the entries that are not on
/// `page`. std documents `retain` as removing every pair for which the
/// predicate returns `false` and keeping the rest as they are.
#[verifier::external_body]
fn retain_off_page(cache: &mut HashMap<u128, AtlasEntry>, page: u32)
    ensures
        forall|k: u128| #[trigger] final(cache)@.contains_key(k) <==> old(cache)@.contains_key(k) && old(cache)@[k].page != page,
        forall|k: u128| #[trigger] final(cache)@.contains_key(k) ==> final(cache)@[k] == old(cache)@[k],
{
    cache.retain(|_, e| off_page(e, page));
}

/// The LRU index lies among the pages.
proof fn lemma_lru_index(frames: Seq<u64>)
    requires
        frames.len() >= 1,
    ensures
        0 <= lru_index(frames) < frames.len(),
    decreases frames.len(),
{
    if frames.len() > 1 {
        lemma_lru_index(frames.drop_last());
    }
}

/// Pages that cannot hold the request are skipped by the first-fit scan.
proof fn lemma_first_fit_skip(frees: Seq<Seq<Rect>>, i: int, w: u32, h: u32)
    requires
        0 <= i < frees.len(),
        spec_best(frees[i], w, h) is None,
    ensures
        first_fit_from(frees, i, w, h) == first_fit_from(frees, i + 1, w, h),
{
}

/// A fresh page holds any request no larger than the page.
proof fn lemma_fresh_fits(size: u32, w: u32, h: u32)
    requires
        0 < w <= size,
        0 < h <= size,
    ensures
        spec_best(fresh_free(size), w, h) == Some(0int),
{
    let free = fresh_free(size);
    assert(free.drop_last() =~= Seq::<Rect>::empty());
    assert(spec_best(free.drop_last(), w, h) is None);
}

/// What inserting `glyph` under `key` does to the atlas and returns: the
/// cached entry when the key is present; nothing (recording the key as
/// empty) for a zero-size glyph; nothing for a glyph larger than a page
/// allows; else a fresh placement at [`GlyphAtlas::spec_place`].
pub open spec fn inserted(before: GlyphAtlas, after: GlyphAtlas, key: RasterKey, glyph: RasterizedGlyph, r: Option<AtlasEntry>) -> bool {
    let c = spec_key_code(key);
    let ps = before.spec_page_size();
    if before.entries().contains_key(c) {
        &&& r == Some(before.entries()[c])
        &&& after.entries() == before.entries()
        &&& after.empty_set() == before.empty_set()
        &&& after.page_frames() == before.page_frames()
        &&& after.page_free() == before.page_free()
    } else if glyph.width == 0 || glyph.height == 0 {
        &&& r is None
        &&& after.entries() == before.entries()
        &&& after.empty_set() == before.empty_set().insert(c)
        &&& after.page_frames() == before.page_frames()
        &&& after.page_free() == before.page_free()
    } else if glyph.width > ps - GLYPH_PADDING || glyph.height > ps - GLYPH_PADDING {
        &&& r is None
        &&& after.entries() == before.entries()
        &&& after.empty_set() == before.empty_set()
        &&& after.page_frames() == before.page_frames()
        &&& after.page_free() == before.page_free()
    } else {
        let pw = (glyph.width + GLYPH_PADDING) as u32;
        let ph = (glyph.height + GLYPH_PADDING) as u32;
        let place = before.spec_place(pw, ph);
        let e = AtlasEntry {
            page: place.0 as u32,
            x: place.1,
            y: place.2,
            width: glyph.width,
            height: glyph.height,
            bearing_x: glyph.bearing_x,
            bearing_y: glyph.bearing_y,
            is_color: before.spec_format() == GlyphFormat::Color,
        };
        &&& r == Some(e)
        &&& after.entries() == before.entries_after_place(pw, ph).insert(c, e)
        &&& after.empty_set() == before.empty_set()
        &&& after.page_frames() == before.frames_after_place(pw, ph)
        &&& after.page_free() == before.free_after_place(pw, ph)
    }
}

/// Per-page packing state and LRU metadata.
struct AtlasPage {
    packer: RectPacker,
    last_used_frame: u64,
    glyph_count: u32,
}

/// Page packing invariant: a well-formed square packer of the page size that
/// has counted each of its placements.
spec fn page_ok(pg: AtlasPage, size: u32) -> bool {
    &&& pg.packer.wf()
    &&& pg.packer.spec_width() == size
    &&& pg.packer.spec_height() == size
    &&& pg.glyph_count == pg.packer.placed().len()
}

/// Texture atlas placement for glyph bitmaps.
///
/// Manages up to [`MAX_PAGES`] pages of [`PAGE_SIZE`]² pixels. Glyphs are
/// packed with guillotine best-short-side-fit and cached by [`RasterKey`].
/// When all pages are full, the least-recently-used page is evicted.
pub struct GlyphAtlas {
    /// Per-page packing state + LRU metadata.
    pages: Vec<AtlasPage>,
    /// Glyph cache: raster key code → atlas entry.
    cache: HashMap<u128, AtlasEntry>,
    /// Keys known to produce zero-size glyphs (spaces, non-printing chars).
    empty_keys: HashSet<u128>,
    page_size: u32,
    max_pages: u32,
    /// Monotonically increasing frame counter for LRU tracking.
    frame_counter: u64,
    /// Pixel format of this atlas.
    format: GlyphFormat,
}

impl GlyphAtlas {
    /// The cached entries, by raster key code.
    pub closed spec fn entries(&self) -> Map<u128, AtlasEntry> {
        self.cache@
    }

    /// Codes of the keys known to produce no visible glyph.
    pub closed spec fn empty_set(&self) -> Set<u128> {
        self.empty_keys@
    }

    /// The frame counter.
    pub closed spec fn frame(&self) -> u64 {
        self.frame_counter
    }

    /// The frame each active page was last used in.
    pub closed spec fn page_frames(&self) -> Seq<u64> {
        self.pages@.map_values(|p: AtlasPage| p.last_used_frame)
    }

    /// The free rectangles of each active page.
    pub closed spec fn page_free(&self) -> Seq<Seq<Rect>> {
        self.pages@.map_values(|p: AtlasPage| p.packer.free_rects())
    }

    /// Page width and height in pixels.
    pub closed spec fn spec_page_size(&self) -> u32 {
        self.page_size
    }

    /// Most pages the atlas allocates.
    pub closed spec fn spec_max_pages(&self) -> u32 {
        self.max_pages
    }

    /// Pixel format of the atlas.
    pub closed spec fn spec_format(&self) -> GlyphFormat {
        self.format
    }

    /// The rectangles placed on each active page.
    closed spec fn placed_all(&self) -> Seq<Seq<Rect>> {
        self.pages@.map_values(|p: AtlasPage| p.packer.placed())
    }

    /// Where a padded `pw`×`ph` request is placed: `(page, x, y)`. The first
    /// page whose packer can hold it; else a new page while under the page
    /// limit; else the least-recently-used page, emptied.
    pub open spec fn spec_place(&self, pw: u32, ph: u32) -> (int, u32, u32) {
        let free = self.page_free();
        match first_fit_from(free, 0, pw, ph) {
            Some(p) => {
                let f = free[p][spec_best(free[p], pw, ph)->0];
                (p, f.x, f.y)
            },
            None => if free.len() < self.spec_max_pages() {
                (free.len() as int, 0u32, 0u32)
            } else {
                (lru_index(self.page_frames()), 0u32, 0u32)
            },
        }
    }

    /// Whether placing a padded `pw`×`ph` request evicts a page.
    pub open spec fn place_evicts(&self, pw: u32, ph: u32) -> bool {
        first_fit_from(self.page_free(), 0, pw, ph) is None && self.page_free().len() >= self.spec_max_pages()
    }

    /// The pages' free lists after placing a padded `pw`×`ph` request.
    pub open spec fn free_after_place(&self, pw: u32, ph: u32) -> Seq<Seq<Rect>> {
        let free = self.page_free();
        let p = self.spec_place(pw, ph).0;
        match first_fit_from(free, 0, pw, ph) {
            Some(q) => free.update(q, spec_split(free[q], spec_best(free[q], pw, ph)->0, pw, ph)),
            None => if free.len() < self.spec_max_pages() {
                free.push(spec_split(fresh_free(self.spec_page_size()), 0, pw, ph))
            } else {
                free.update(p, spec_split(fresh_free(self.spec_page_size()), 0, pw, ph))
            },
        }
    }

    /// The pages' last-used frames after placing a request: the page it went
    /// to is used now.
    pub open spec fn frames_after_place(&self, pw: u32, ph: u32) -> Seq<u64> {
        let frames = self.page_frames();
        let p = self.spec_place(pw, ph).0;
        if p == frames.len() {
            frames.push(self.frame())
        } else {
            frames.update(p, self.frame())
        }
    }

    /// The cached entries after placing a request: those of an evicted page
    /// are dropped.
    pub open spec fn entries_after_place(&self, pw: u32, ph: u32) -> Map<u128, AtlasEntry> {
        if self.place_evicts(pw, ph) {
            let v = self.spec_place(pw, ph).0;
            self.entries().restrict(self.entries().dom().filter(|k: u128| self.entries()[k].page != v))
        } else {
            self.entries()
        }
    }

    /// Atlas invariant: between one and the maximum number of well-formed
    /// pages, and every cached entry occupies its own placement on its page.
    pub closed spec fn wf(&self) -> bool {
        &&& 1 <= self.pages@.len() <= self.max_pages
        &&& 2 <= self.page_size <= 65535
        &&& forall|p: int| 0 <= p < self.pages@.len() ==> page_ok(#[trigger] self.pages@[p], self.page_size)
        &&& entries_ok(self.cache@, self.placed_all(), self.format == GlyphFormat::Color)
    }

    /// Every cached entry lies inside its page, and two cached entries on
    /// the same page never share a pixel (padding included).
    pub proof fn law_glyphs_never_overlap(&self)
        requires
            self.wf(),
        ensures
            forall|k: u128| #[trigger] self.entries().contains_key(k) ==> {
                let e = self.entries()[k];
                &&& e.page < self.page_frames().len()
                &&& within(slot(e), self.spec_page_size(), self.spec_page_size())
                &&& e.width > 0 && e.height > 0
            },
            forall|k1: u128, k2: u128|
                self.entries().contains_key(k1) && self.entries().contains_key(k2) && k1 != k2
                    && #[trigger] self.entries()[k1].page == #[trigger] self.entries()[k2].page ==> disjoint(
                    slot(self.entries()[k1]),
                    slot(self.entries()[k2]),
                ),
    {
        assert forall|k: u128| #[trigger] self.entries().contains_key(k) implies {
            let e = self.entries()[k];
            &&& e.page < self.page_frames().len()
            &&& within(slot(e), self.spec_page_size(), self.spec_page_size())
            &&& e.width > 0 && e.height > 0
        } by {
            let e = self.cache@[k];
            let pg = self.pages@[e.page as int];
            assert(self.placed_all()[e.page as int] == pg.packer.placed());
            assert(page_ok(pg, self.page_size));
            let i = choose|i: int| 0 <= i < pg.packer.placed().len() && #[trigger] pg.packer.placed()[i] == slot(e);
            pg.packer.lemma_placed_within(i);
        }
    }

    /// Create an empty atlas with one active page.
    pub fn new(format: GlyphFormat) -> (a: GlyphAtlas)
        ensures
            a.wf(),
            a.entries() == Map::<u128, AtlasEntry>::empty(),
            a.empty_set() == Set::<u128>::empty(),
            a.frame() == 0,
            a.page_frames() == seq![0u64],
            a.page_free() == seq![fresh_free(PAGE_SIZE)],
            a.spec_page_size() == PAGE_SIZE,
            a.spec_max_pages() == MAX_PAGES,
            a.spec_format() == format,
    {
        let packer = RectPacker::new(PAGE_SIZE, PAGE_SIZE);
        let mut pages: Vec<AtlasPage> = Vec::new();
        pages.push(AtlasPage { packer, last_used_frame: 0, glyph_count: 0 });
        let a = GlyphAtlas {
            pages,
            cache: HashMap::new(),
            empty_keys: HashSet::new(),
            page_size: PAGE_SIZE,
            max_pages: MAX_PAGES,
            frame_counter: 0,
            format,
        };
        proof {
            assert(a.page_frames() =~= seq![0u64]);
            assert(a.page_free() =~= seq![fresh_free(PAGE_SIZE)]);
        }
        a
    }

    /// Increment the frame counter for LRU tracking.
    ///
    /// Call at the start of each frame before any glyph lookups or inserts.
    pub fn begin_frame(&mut self)
        requires
            old(self).wf(),
            old(self).frame() < u64::MAX,
        ensures
            final(self).wf(),
            final(self).frame() == old(self).frame() + 1,
            final(self).entries() == old(self).entries(),
            final(self).empty_set() == old(self).empty_set(),
            final(self).page_frames() == old(self).page_frames(),
            final(self).page_free() == old(self).page_free(),
            final(self).spec_page_size() == old(self).spec_page_size(),
            final(self).spec_max_pages() == old(self).spec_max_pages(),
            final(self).spec_format() == old(self).spec_format(),
    {
        self.frame_counter = self.frame_counter + 1;
    }

    /// Look up a previously inserted glyph.
    ///
    /// For LRU correctness, callers with `&mut` access should also call
    /// [`touch_page`](Self::touch_page) with the entry's page index.
    pub fn lookup(&self, key: RasterKey) -> (r: Option<&AtlasEntry>)
        ensures
            match r {
                Some(e) => self.entries().contains_key(spec_key_code(key)) && *e == self.entries()[spec_key_code(key)],
                None => !self.entries().contains_key(spec_key_code(key)),
            },
    {
        let code = key_code(&key);
        self.cache.get(&code)
    }

    /// Mark a page as used this frame for LRU tracking; out-of-range pages
    /// are ignored.
    pub fn touch_page(&mut self, page: u32)
        requires
            old(self).wf(),
        ensures
            final(self).wf(),
            final(self).page_frames() == if page < old(self).page_frames().len() {
                old(self).page_frames().update(page as int, old(self).frame())
            } else {
                old(self).page_frames()
            },
            final(self).frame() == old(self).frame(),
            final(self).entries() == old(self).entries(),
            final(self).empty_set() == old(self).empty_set(),
            final(self).page_free() == old(self).page_free(),
            final(self).spec_page_size() == old(self).spec_page_size(),
            final(self).spec_max_pages() == old(self).spec_max_pages(),
            final(self).spec_format() == old(self).spec_format(),
    {
        if (page as usize) < self.pages.len() {
            let ghost old_pages = self.pages@;
            let frame = self.frame_counter;
            self.pages[page as usize].last_used_frame = frame;
            proof {
                assert(self.pages@ == old_pages.update(page as int, self.pages@[page as int]));
                assert(self.page_frames() =~= old(self).page_frames().update(page as int, frame));
                assert(self.page_free() =~= old(self).page_free());
                assert(self.placed_all() =~= old(self).placed_all());
            }
        }
    }

    /// Look up a glyph and touch its page for LRU tracking in one call.
    pub fn lookup_touch(&mut self, key: RasterKey) -> (r: Option<AtlasEntry>)
        requires
            old(self).wf(),
        ensures
            final(self).wf(),
            match r {
                Some(e) => old(self).entries().contains_key(spec_key_code(key)) && e == old(self).entries()[spec_key_code(key)]
                    && final(self).page_frames() == old(self).page_frames().update(e.page as int, old(self).frame()),
                None => !old(self).entries().contains_key(spec_key_code(key)) && final(self).page_frames()
                    == old(self).page_frames(),
            },
            final(self).frame() == old(self).frame(),
            final(self).entries() == old(self).entries(),
            final(self).empty_set() == old(self).empty_set(),
            final(self).page_free() == old(self).page_free(),
            final(self).spec_page_size() == old(self).spec_page_size(),
            final(self).spec_max_pages() == old(self).spec_max_pages(),
            final(self).spec_format() == old(self).spec_format(),
    {
        let code = key_code(&key);
        let found = match self.cache.get(&code) {
            Some(e) => Some(*e),
            None => None,
        };
        match found {
            Some(entry) => {
                self.touch_page(entry.page);
                Some(entry)
            },
            None => None,
        }
    }

    /// Whether the key is known to produce a zero-size glyph.
    pub fn is_known_empty(&self, key: RasterKey) -> (b: bool)
        ensures
            b == self.empty_set().contains(spec_key_code(key)),
    {
        let code = key_code(&key);
        self.empty_keys.contains(&code)
    }

    /// Record that a key produces no visible glyph.
    pub fn mark_empty(&mut self, key: RasterKey)
        requires
            old(self).wf(),
        ensures
            final(self).wf(),
            final(self).empty_set() == old(self).empty_set().insert(spec_key_code(key)),
            final(self).entries() == old(self).entries(),
            final(self).frame() == old(self).frame(),
            final(self).page_frames() == old(self).page_frames(),
            final(self).page_free() == old(self).page_free(),
            final(self).spec_page_size() == old(self).spec_page_size(),
            final(self).spec_max_pages() == old(self).spec_max_pages(),
            final(self).spec_format() == old(self).spec_format(),
    {
        let code = key_code(&key);
        self.empty_keys.insert(code);
    }

    /// Number of cached glyph entries.
    pub fn len(&self) -> (n: usize)
        ensures
            n == self.entries().len(),
    {
        self.cache.len()
    }

    /// Whether the cache is empty.
    pub fn is_empty(&self) -> (b: bool)
        ensures
            b == (self.entries().len() == 0),
    {
        self.cache.is_empty()
    }

    /// Number of active atlas pages.
    pub fn page_count(&self) -> (n: usize)
        ensures
            n == self.page_frames().len(),
    {
        self.pages.len()
    }

    /// Clear all cached glyphs and reset packing state.
    ///
    /// Resets to one active page. Called on font size change when all cached
    /// glyphs become invalid.
    pub fn clear(&mut self)
        requires
            old(self).wf(),
        ensures
            final(self).wf(),
            final(self).entries() == Map::<u128, AtlasEntry>::empty(),
            final(self).empty_set() == Set::<u128>::empty(),
            final(self).frame() == old(self).frame(),
            final(self).page_frames() == seq![old(self).page_frames()[0]],
            final(self).page_free() == seq![fresh_free(old(self).spec_page_size())],
            final(self).spec_page_size() == old(self).spec_page_size(),
            final(self).spec_max_pages() == old(self).spec_max_pages(),
            final(self).spec_format() == old(self).spec_format(),
    {
        self.cache.clear();
        self.empty_keys.clear();
        let ghost frames0 = self.page_frames();
        let mut i: usize = 0;
        while i < self.pages.len()
            invariant
                i <= self.pages@.len(),
                self.pages@.len() == old(self).pages@.len(),
                1 <= self.pages@.len() <= self.max_pages,
                2 <= self.page_size <= 65535,
                self.page_size == old(self).page_size,
                self.max_pages == old(self).max_pages,
                self.format == old(self).format,
                self.frame_counter == old(self).frame_counter,
                self.cache@ == Map::<u128, AtlasEntry>::empty(),
                self.empty_keys@ == Set::<u128>::empty(),
                self.page_frames() == frames0,
                forall|p: int| 0 <= p < self.pages@.len() ==> page_ok(#[trigger] self.pages@[p], self.page_size),
                forall|p: int| 0 <= p < i ==> (#[trigger] self.pages@[p]).packer.free_rects() == fresh_free(self.page_size),
            decreases self.pages@.len() - i,
        {
            let ghost before = self.pages@;
            self.pages[i].packer.reset();
            self.pages[i].glyph_count = 0;
            proof {
                assert forall|p: int| 0 <= p < self.pages@.len() implies page_ok(#[trigger] self.pages@[p], self.page_size) by {
                    if p != i {
                        assert(self.pages@[p] == before[p]);
                    }
                }
                assert forall|p: int| 0 <= p < i + 1 implies (#[trigger] self.pages@[p]).packer.free_rects() == fresh_free(self.page_size) by {
                    if p != i {
                        assert(self.pages@[p] == before[p]);
                    }
                }
                assert(self.page_frames() =~= frames0);
            }
            i = i + 1;
        }
        self.pages.truncate(1);
        proof {
            assert(self.page_frames() =~= seq![frames0[0]]);
            assert(self.page_free() =~= seq![fresh_free(self.page_size)]);
            assert(page_ok(self.pages@[0], self.page_size));
        }
    }

    /// Find the page index with the smallest `last_used_frame` (the first
    /// such page on ties).
    fn find_lru_page(&self) -> (i: usize)
        requires
            self.wf(),
        ensures
            i == lru_index(self.page_frames()),
            i < self.page_frames().len(),
    {
        let ghost frames = self.page_frames();
        let mut best: usize = 0;
        let mut i: usize = 1;
        proof {
            assert(frames.take(1).len() == 1);
        }
        while i < self.pages.len()
            invariant
                1 <= i <= self.pages@.len(),
                frames == self.page_frames(),
                best < i,
                best == lru_index(frames.take(i as int)),
            decreases self.pages@.len() - i,
        {
            proof {
                assert(frames.take(i as int + 1).drop_last() =~= frames.take(i as int));
                lemma_lru_index(frames.take(i as int));
            }
            if self.pages[i].last_used_frame < self.pages[best].last_used_frame {
                best = i;
            }
            i = i + 1;
        }
        proof {
            assert(frames.take(i as int) =~= frames);
        }
        best
    }

    /// Evict a page: reset its packer and remove all cache entries on it.
    fn evict_page(&mut self, page_idx: usize)
        requires
            old(self).wf(),
            page_idx < old(self).page_frames().len(),
        ensures
            final(self).wf(),
            forall|k: u128| #[trigger] final(self).entries().contains_key(k) <==> old(self).entries().contains_key(k)
                && old(self).entries()[k].page != page_idx,
            forall|k: u128| #[trigger] final(self).entries().contains_key(k) ==> final(self).entries()[k] == old(self).entries()[k],
            final(self).page_frames() == old(self).page_frames().update(page_idx as int, old(self).frame()),
            final(self).page_free() == old(self).page_free().update(page_idx as int, fresh_free(old(self).spec_page_size())),
            final(self).placed_all() == old(self).placed_all().update(page_idx as int, Seq::empty()),
            final(self).empty_set() == old(self).empty_set(),
            final(self).frame() == old(self).frame(),
            final(self).spec_page_size() == old(self).spec_page_size(),
            final(self).spec_max_pages() == old(self).spec_max_pages(),
            final(self).spec_format() == old(self).spec_format(),
    {
        let ghost before = self.pages@;
        let frame = self.frame_counter;
        self.pages[page_idx].packer.reset();
        self.pages[page_idx].glyph_count = 0;
        self.pages[page_idx].last_used_frame = frame;
        retain_off_page(&mut self.cache, page_idx as u32);
        proof {
            assert forall|p: int| 0 <= p < self.pages@.len() implies page_ok(#[trigger] self.pages@[p], self.page_size) by {
                if p != page_idx {
                    assert(self.pages@[p] == before[p]);
                }
            }
            assert(self.page_frames() =~= old(self).page_frames().update(page_idx as int, frame));
            assert(self.page_free() =~= old(self).page_free().update(page_idx as int, fresh_free(self.page_size)));
            assert(self.pages@[page_idx as int].packer.placed() =~= Seq::<Rect>::empty());
            assert(self.placed_all() =~= old(self).placed_all().update(page_idx as int, Seq::empty()));
            lemma_entries_evict(
                old(self).cache@,
                old(self).placed_all(),
                self.format == GlyphFormat::Color,
                page_idx as int,
                self.cache@,
            );
        }
    }

    /// Find space for a glyph, returning `(page_idx, x, y)`.
    ///
    /// Tries each existing page's guillotine packer. If all are full and
    /// fewer than `max_pages` exist, adds a new page. If at the page limit,
    /// evicts the least-recently-used page.
    fn find_space(&mut self, w: u32, h: u32) -> (r: (u32, u32, u32))
        requires
            old(self).wf(),
            0 < w,
            0 < h,
            w + GLYPH_PADDING <= old(self).spec_page_size(),
            h + GLYPH_PADDING <= old(self).spec_page_size(),
        ensures
            ({
                let pw = (w + GLYPH_PADDING) as u32;
                let ph = (h + GLYPH_PADDING) as u32;
                let rect = Rect { x: r.1, y: r.2, w: pw, h: ph };
                &&& final(self).wf()
                &&& (r.0 as int, r.1, r.2) == old(self).spec_place(pw, ph)
                &&& final(self).page_free() == old(self).free_after_place(pw, ph)
                &&& final(self).entries() == old(self).entries_after_place(pw, ph)
                &&& final(self).page_frames().update(r.0 as int, old(self).frame()) == old(self).frames_after_place(pw, ph)
                &&& r.0 < final(self).page_frames().len()
                &&& final(self).placed_all()[r.0 as int].len() > 0
                &&& final(self).placed_all()[r.0 as int].last() == rect
                &&& forall|k: u128| #[trigger] final(self).entries().contains_key(k) && final(self).entries()[k].page == r.0
                    ==> disjoint(slot(final(self).entries()[k]), rect)
            }),
            final(self).empty_set() == old(self).empty_set(),
            final(self).frame() == old(self).frame(),
            final(self).spec_page_size() == old(self).spec_page_size(),
            final(self).spec_max_pages() == old(self).spec_max_pages(),
            final(self).spec_format() == old(self).spec_format(),
    {
        let padded_w = w + GLYPH_PADDING;
        let padded_h = h + GLYPH_PADDING;
        let ghost free0 = self.page_free();
        let ghost placed0 = self.placed_all();
        let is_color = self.format == GlyphFormat::Color;

        // Try existing pages.
        let mut i: usize = 0;
        while i < self.pages.len()
            invariant
                i <= self.pages@.len(),
                self.wf(),
                self.pages@.len() == old(self).pages@.len(),
                self.page_free() == free0,
                self.placed_all() == placed0,
                free0 == old(self).page_free(),
                placed0 == old(self).placed_all(),
                self.page_frames() == old(self).page_frames(),
                self.cache@ == old(self).cache@,
                self.empty_keys@ == old(self).empty_keys@,
                self.frame_counter == old(self).frame_counter,
                self.page_size == old(self).page_size,
                self.max_pages == old(self).max_pages,
                self.format == old(self).format,
                padded_w == w + GLYPH_PADDING,
                padded_h == h + GLYPH_PADDING,
                is_color == (self.format == GlyphFormat::Color),
                0 < padded_w <= self.page_size,
                0 < padded_h <= self.page_size,
                first_fit_from(free0, 0, padded_w, padded_h) == first_fit_from(free0, i as int, padded_w, padded_h),
            decreases self.pages@.len() - i,
        {
            let ghost before = self.pages@;
            proof {
                assert(page_ok(before[i as int], self.page_size));
                assert(free0[i as int] == before[i as int].packer.free_rects());
            }
            let r = self.pages[i].packer.pack(padded_w, padded_h);
            match r {
                Some((x, y)) => {
                    proof {
                        before[i as int].packer.lemma_placed_count();
                        self.pages@[i as int].packer.lemma_placed_count();
                        assert(self.pages@[i as int].glyph_count == before[i as int].packer.placed().len());
                        assert(self.page_size as int * self.page_size as int <= 65535 * 65535) by (nonlinear_arith)
                            requires self.page_size <= 65535;
                    }
                    let count = self.pages[i].glyph_count;
                    self.pages[i].glyph_count = count + 1;
                    proof {
                        let rect = Rect { x, y, w: padded_w, h: padded_h };
                        let np = before[i as int].packer.placed().push(rect);
                        assert(self.pages@[i as int].packer.placed() == np);
                        assert forall|p: int| 0 <= p < self.pages@.len() implies page_ok(#[trigger] self.pages@[p], self.page_size) by {
                            if p != i {
                                assert(self.pages@[p] == before[p]);
                            }
                        }
                        assert(self.placed_all() =~= placed0.update(i as int, np));
                        assert forall|p: int| 0 <= p < placed0.len() implies #[trigger] placed0[p].len() <= self.placed_all()[p].len()
                            && self.placed_all()[p].take(placed0[p].len() as int) == placed0[p] by {
                            if p == i {
                                assert(np.take(placed0[p].len() as int) =~= placed0[p]);
                            } else {
                                assert(self.placed_all()[p].take(placed0[p].len() as int) =~= placed0[p]);
                            }
                        }
                        lemma_entries_extend(self.cache@, placed0, self.placed_all(), is_color);
                        assert(self.page_free() =~= free0.update(i as int, self.pages@[i as int].packer.free_rects()));
                        assert(self.page_frames() =~= old(self).page_frames());
                        assert(first_fit_from(free0, i as int, padded_w, padded_h) == Some(i as int));
                        assert forall|k: u128| #[trigger] self.cache@.contains_key(k) && self.cache@[k].page == i implies disjoint(
                            slot(self.cache@[k]),
                            rect,
                        ) by {
                            let e = self.cache@[k];
                            let j = choose|j: int| 0 <= j < placed0[i as int].len() && #[trigger] placed0[i as int][j] == slot(e);
                            assert(disjoint(rect, before[i as int].packer.placed()[j]));
                        }
                        assert(self.page_frames().update(i as int, old(self).frame()) =~= old(self).frames_after_place(padded_w, padded_h));
                    }
                    return (i as u32, x, y);
                },
                None => {
                    proof {
                        lemma_first_fit_skip(free0, i as int, padded_w, padded_h);
                        assert forall|p: int| 0 <= p < self.pages@.len() implies page_ok(#[trigger] self.pages@[p], self.page_size) by {
                            if p != i {
                                assert(self.pages@[p] == before[p]);
                            }
                        }
                        assert(self.placed_all() =~= placed0);
                        assert(self.page_free() =~= free0);
                        assert(self.page_frames() =~= old(self).page_frames());
                    }
                },
            }
            i = i + 1;
        }
        proof {
            assert(first_fit_from(free0, i as int, padded_w, padded_h) is None);
            lemma_fresh_fits(self.page_size, padded_w, padded_h);
        }

        // All pages full — add a new one if under the limit.
        if (self.pages.len() as u32) < self.max_pages {
            let page_idx = self.pages.len();
            let mut packer = RectPacker::new(self.page_size, self.page_size);
            let (x, y) = packer.pack(padded_w, padded_h).unwrap();
            let frame = self.frame_counter;
            let ghost before = self.pages@;
            self.pages.push(AtlasPage { packer, last_used_frame: frame, glyph_count: 1 });
            proof {
                let rect = Rect { x, y, w: padded_w, h: padded_h };
                assert(self.pages@[page_idx as int].packer.placed() =~= seq![rect]);
                assert forall|p: int| 0 <= p < self.pages@.len() implies page_ok(#[trigger] self.pages@[p], self.page_size) by {
                    if p != page_idx {
                        assert(self.pages@[p] == before[p]);
                    }
                }
                assert(self.placed_all() =~= placed0.push(seq![rect]));
                assert forall|p: int| 0 <= p < placed0.len() implies #[trigger] placed0[p].len() <= self.placed_all()[p].len()
                    && self.placed_all()[p].take(placed0[p].len() as int) == placed0[p] by {
                    assert(self.placed_all()[p].take(placed0[p].len() as int) =~= placed0[p]);
                }
                lemma_entries_extend(self.cache@, placed0, self.placed_all(), is_color);
                assert(self.page_free() =~= free0.push(spec_split(fresh_free(self.page_size), 0, padded_w, padded_h)));
                assert(self.page_frames() =~= old(self).page_frames().push(frame));
                assert(self.page_frames().update(page_idx as int, old(self).frame()) =~= old(self).frames_after_place(padded_w, padded_h));
            }
            return (page_idx as u32, x, y);
        }

        // At max pages — LRU eviction.
        let evicted = self.find_lru_page();
        self.evict_page(evicted);
        let ghost mid = self.pages@;
        let ghost placed1 = self.placed_all();
        let ghost e1 = self.entries();
        let ghost f1 = self.page_free();
        proof {
            assert(self.page_frames().len() == self.pages@.len());
            assert(evicted < self.pages@.len());
            assert(placed1[evicted as int] == mid[evicted as int].packer.placed());
            assert(mid[evicted as int].packer.free_rects() == self.page_free()[evicted as int]);
            assert(self.page_free()[evicted as int] == fresh_free(self.page_size));
            assert(self.page_free() == free0.update(evicted as int, fresh_free(self.page_size)));
            assert(old(self).page_free().len() == old(self).pages@.len());
            assert(old(self).place_evicts(padded_w, padded_h));
            assert(old(self).spec_place(padded_w, padded_h).0 == evicted);
            assert(page_ok(mid[evicted as int], self.page_size));
            assert(self.page_free()[evicted as int] == mid[evicted as int].packer.free_rects());
        }
        let (x, y) = self.pages[evicted].packer.pack(padded_w, padded_h).unwrap();
        let count = self.pages[evicted].glyph_count;
        proof {
            assert(count == 0);
        }
        self.pages[evicted].glyph_count = count + 1;
        proof {
            let rect = Rect { x, y, w: padded_w, h: padded_h };
            assert(self.pages@[evicted as int].packer.placed() =~= seq![rect]);
            assert forall|p: int| 0 <= p < self.pages@.len() implies page_ok(#[trigger] self.pages@[p], self.page_size) by {
                if p != evicted {
                    assert(self.pages@[p] == mid[p]);
                }
            }
            assert(self.placed_all() =~= placed1.update(evicted as int, seq![rect]));
            assert forall|p: int| 0 <= p < placed1.len() implies #[trigger] placed1[p].len() <= self.placed_all()[p].len()
                && self.placed_all()[p].take(placed1[p].len() as int) == placed1[p] by {
                assert(self.placed_all()[p].take(placed1[p].len() as int) =~= placed1[p]);
            }
            lemma_entries_extend(self.cache@, placed1, self.placed_all(), is_color);
            assert(self.pages@[evicted as int].packer.free_rects() == spec_split(fresh_free(self.page_size), 0, padded_w, padded_h));
            assert forall|p: int| 0 <= p < self.pages@.len() implies #[trigger] self.page_free()[p] == free0.update(
                evicted as int,
                spec_split(fresh_free(self.page_size), 0, padded_w, padded_h),
            )[p] by {
                if p != evicted {
                    assert(self.pages@[p] == mid[p]);
                    assert(f1[p] == mid[p].packer.free_rects());
                    assert(f1[p] == free0[p]);
                }
            }
            assert(self.page_free() =~= free0.update(evicted as int, spec_split(fresh_free(self.page_size), 0, padded_w, padded_h)));
            assert(self.page_frames() =~= old(self).page_frames().update(evicted as int, old(self).frame()));
            assert(self.page_frames().update(evicted as int, old(self).frame()) =~= old(self).frames_after_place(padded_w, padded_h));
            let oe = old(self).entries();
            assert(old(self).entries_after_place(padded_w, padded_h) == oe.restrict(
                oe.dom().filter(|k: u128| oe[k].page != evicted),
            ));
            assert(self.entries() == e1);
            assert forall|k: u128| #[trigger] e1.contains_key(k) <==> oe.contains_key(k) && oe[k].page != evicted by {}
            assert forall|k: u128| e1.contains_key(k) implies #[trigger] e1[k] == oe[k] by {}
            assert(e1 =~= oe.restrict(oe.dom().filter(|k: u128| oe[k].page != evicted)));
        }
        (evicted as u32, x, y)
    }

    /// Insert a rasterized glyph into the atlas.
    ///
    /// Returns the cached entry if the key is already present. Otherwise
    /// finds space via guillotine packing and caches the entry; the caller
    /// uploads the bitmap to the returned placement. Returns `None` for
    /// zero-size glyphs (recording the key as known empty) or glyphs too
    /// large for an atlas page.
    pub fn insert(&mut self, key: RasterKey, glyph: &RasterizedGlyph) -> (r: Option<AtlasEntry>)
        requires
            old(self).wf(),
        ensures
            final(self).wf(),
            final(self).frame() == old(self).frame(),
            final(self).spec_page_size() == old(self).spec_page_size(),
            final(self).spec_max_pages() == old(self).spec_max_pages(),
            final(self).spec_format() == old(self).spec_format(),
            inserted(*old(self), *final(self), key, *glyph, r),
    {
        let code = key_code(&key);
        match self.cache.get(&code) {
            Some(e) => {
                return Some(*e);
            },
            None => {},
        }

        if glyph.width == 0 || glyph.height == 0 {
            self.empty_keys.insert(code);
            return None;
        }

        let max_dim = self.page_size.saturating_sub(GLYPH_PADDING);
        if glyph.width > max_dim || glyph.height > max_dim {
            return None;
        }

        let (page_idx, x, y) = self.find_space(glyph.width, glyph.height);
        let ghost before = self.pages@;
        let ghost placed1 = self.placed_all();
        let ghost f1 = self.page_free();
        let ghost e1 = self.entries();
        let ghost fr1 = self.page_frames();
        let frame = self.frame_counter;
        self.pages[page_idx as usize].last_used_frame = frame;
        proof {
            assert forall|p: int| 0 <= p < self.pages@.len() implies page_ok(#[trigger] self.pages@[p], self.page_size) by {
                if p != page_idx {
                    assert(self.pages@[p] == before[p]);
                }
            }
            assert(self.placed_all() =~= placed1);
            assert forall|p: int| 0 <= p < self.pages@.len() implies #[trigger] self.page_free()[p] == f1[p] by {
                if p != page_idx {
                    assert(self.pages@[p] == before[p]);
                }
            }
            assert(self.page_free() =~= f1);
            assert(self.page_frames() =~= fr1.update(page_idx as int, frame));
        }

        let is_color = self.format == GlyphFormat::Color;
        let entry = AtlasEntry {
            page: page_idx,
            x,
            y,
            width: glyph.width,
            height: glyph.height,
            bearing_x: glyph.bearing_x,
            bearing_y: glyph.bearing_y,
            is_color,
        };
        proof {
            let n = placed1[page_idx as int].len();
            assert(placed1[page_idx as int][n - 1] == slot(entry));
            lemma_entries_insert(self.cache@, placed1, is_color, code, entry, n - 1);
        }
        self.cache.insert(code, entry);
        proof {
            let pw = (glyph.width + GLYPH_PADDING) as u32;
            let ph = (glyph.height + GLYPH_PADDING) as u32;
            assert(max_dim == self.page_size - GLYPH_PADDING);
            assert(self.page_frames() == old(self).frames_after_place(pw, ph));
            assert(self.page_free() == old(self).free_after_place(pw, ph));
            assert(self.entries() == e1.insert(code, entry));
            assert(e1 == old(self).entries_after_place(pw, ph));
            assert(self.empty_set() == old(self).empty_set());
            assert(old(self).spec_place(pw, ph) == (page_idx as int, x, y));
        }
        Some(entry)
    }

    /// Look up or insert a glyph in one call.
    ///
    /// If the key is already cached, returns the entry (touching LRU). If
    /// the key is known empty, returns `None`. Otherwise calls `rasterize`
    /// to produce the glyph and inserts it.
    pub fn get_or_insert<F: FnOnce() -> Option<RasterizedGlyph>>(&mut self, key: RasterKey, rasterize: F) -> (r: Option<
        AtlasEntry,
    >)
        requires
            old(self).wf(),
            call_requires(rasterize, ()),
        ensures
            final(self).wf(),
            final(self).frame() == old(self).frame(),
            final(self).spec_page_size() == old(self).spec_page_size(),
            final(self).spec_max_pages() == old(self).spec_max_pages(),
            final(self).spec_format() == old(self).spec_format(),
            ({
                let c = spec_key_code(key);
                if old(self).entries().contains_key(c) {
                    let e = old(self).entries()[c];
                    &&& r == Some(e)
                    &&& final(self).entries() == old(self).entries()
                    &&& final(self).empty_set() == old(self).empty_set()
                    &&& final(self).page_frames() == old(self).page_frames().update(e.page as int, old(self).frame())
                    &&& final(self).page_free() == old(self).page_free()
                } else if old(self).empty_set().contains(c) {
                    &&& r is None
                    &&& final(self).entries() == old(self).entries()
                    &&& final(self).empty_set() == old(self).empty_set()
                    &&& final(self).page_frames() == old(self).page_frames()
                    &&& final(self).page_free() == old(self).page_free()
                } else {
                    exists|g: Option<RasterizedGlyph>|
                        #![trigger call_ensures(rasterize, (), g)]
                        call_ensures(rasterize, (), g) && match g {
                            None => r is None && final(self).entries() == old(self).entries() && final(self).empty_set()
                                == old(self).empty_set() && final(self).page_frames() == old(self).page_frames()
                                && final(self).page_free() == old(self).page_free(),
                            Some(glyph) => inserted(*old(self), *final(self), key, glyph, r),
                        }
                }
            }),
    {
        let code = key_code(&key);
        let found = match self.cache.get(&code) {
            Some(e) => Some(*e),
            None => None,
        };
        if let Some(entry) = found {
            self.touch_page(entry.page);
            return Some(entry);
        }
        if self.empty_keys.contains(&code) {
            return None;
        }
        let glyph = rasterize();
        match glyph {
            Some(g) => self.insert(key, &g),
            None => None,
        }
    }

    /// Current frame counter value.
    pub fn frame_counter(&self) -> (f: u64)
        ensures
            f == self.frame(),
    {
        self.frame_counter
    }
}

/// A glyph handed out by an insertion is what a lookup of its key then
/// finds.
pub proof fn law_insert_then_lookup(before: GlyphAtlas, after: GlyphAtlas, key: RasterKey, glyph: RasterizedGlyph, r: Option<AtlasEntry>)
    requires
        inserted(before, after, key, glyph, r),
        r is Some,
    ensures
        after.entries().contains_key(spec_key_code(key)),
        after.entries()[spec_key_code(key)] == r->0,
{
}

/// Inserting a glyph leaves every other cached glyph where it was, unless
/// the insertion had to evict the page that glyph was on.
pub proof fn law_insert_keeps_others(
    before: GlyphAtlas,
    after: GlyphAtlas,
    key: RasterKey,
    glyph: RasterizedGlyph,
    r: Option<AtlasEntry>,
    other: RasterKey,
)
    requires
        inserted(before, after, key, glyph, r),
        other != key,
        before.entries().contains_key(spec_key_code(other)),
    ensures
        ({
            let c = spec_key_code(other);
            let e = before.entries()[c];
            let pw = (glyph.width + GLYPH_PADDING) as u32;
            let ph = (glyph.height + GLYPH_PADDING) as u32;
            ||| after.entries().contains_key(c) && after.entries()[c] == e
            ||| glyph.width > 0 && glyph.height > 0 && before.place_evicts(pw, ph) && e.page == before.spec_place(pw, ph).0
        }),
{
    lemma_key_code_injective(key, other);
}

/// An insertion adds no entry and no empty key but its own, and alters no
/// entry it keeps.
pub proof fn lemma_inserted_adds_only_key(
    before: GlyphAtlas,
    after: GlyphAtlas,
    key: RasterKey,
    glyph: RasterizedGlyph,
    r: Option<AtlasEntry>,
)
    requires
        inserted(before, after, key, glyph, r),
    ensures
        forall|c: u128| #[trigger] after.entries().contains_key(c) && c != spec_key_code(key) ==> before.entries().contains_key(c)
            && after.entries()[c] == before.entries()[c],
        forall|c: u128| #[trigger] after.empty_set().contains(c) && c != spec_key_code(key) ==> before.empty_set().contains(c),
{
}

/// Clearing forgets every glyph, and the next glyph goes to the top-left
/// corner of the first page.
pub proof fn law_clear_then_insert_at_origin(
    cleared: GlyphAtlas,
    after: GlyphAtlas,
    key: RasterKey,
    glyph: RasterizedGlyph,
    r: Option<AtlasEntry>,
)
    requires
        cleared.wf(),
        cleared.entries() == Map::<u128, AtlasEntry>::empty(),
        cleared.page_free() == seq![fresh_free(cleared.spec_page_size())],
        inserted(cleared, after, key, glyph, r),
        0 < glyph.width <= cleared.spec_page_size() - GLYPH_PADDING,
        0 < glyph.height <= cleared.spec_page_size() - GLYPH_PADDING,
    ensures
        r matches Some(e) && e.page == 0 && e.x == 0 && e.y == 0,
{
    let pw = (glyph.width + GLYPH_PADDING) as u32;
    let ph = (glyph.height + GLYPH_PADDING) as u32;
    lemma_fresh_fits(cleared.spec_page_size(), pw, ph);
    assert(first_fit_from(cleared.page_free(), 0, pw, ph) == Some(0int));
}

} // verus!
