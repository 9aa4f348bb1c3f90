//! Guillotine rectangle packer with best-short-side-fit placement.
//!
//! Each atlas page owns a [`RectPacker`]. Free space is a list of disjoint
//! rectangles; a request is placed at the origin of the free rectangle whose
//! shorter leftover side is smallest (first such rectangle on ties), and the
//! rest of that free rectangle is split along the shorter leftover axis into
//! a right strip and a bottom strip.

use vstd::prelude::*;

verus! {

/// An axis-aligned rectangle in page pixels.
#[derive(Debug, Clone, Copy, PartialEq, Eq, Structural)]
pub struct Rect {
    pub x: u32,
    pub y: u32,
    pub w: u32,
    pub h: u32,
}

/// Whether `r` lies inside a `width`×`height` page.
pub open spec fn within(r: Rect, width: u32, height: u32) -> bool {
    r.x + r.w <= width && r.y + r.h <= height
}

/// Whether `r` covers at least one pixel.
pub open spec fn nonempty(r: Rect) -> bool {
    r.w > 0 && r.h > 0
}

/// Whether two rectangles share no pixel.
pub open spec fn disjoint(a: Rect, b: Rect) -> bool {
    a.x + a.w <= b.x || b.x + b.w <= a.x || a.y + a.h <= b.y || b.y + b.h <= a.y
}

/// Whether `a` lies inside `b`.
pub open spec fn inside(a: Rect, b: Rect) -> bool {
    b.x <= a.x && a.x + a.w <= b.x + b.w && b.y <= a.y && a.y + a.h <= b.y + b.h
}

/// Whether a `w`×`h` request fits in `r`.
pub open spec fn fits(r: Rect, w: u32, h: u32) -> bool {
    r.w >= w && r.h >= h
}

/// The shorter of the two leftover sides when a `w`×`h` request is placed in `r`.
pub open spec fn short_side(r: Rect, w: u32, h: u32) -> int {
    let lw = r.w - w;
    let lh = r.h - h;
    if lw < lh {
        lw
    } else {
        lh
    }
}

/// Index of the free rectangle chosen for a `w`×`h` request: among the
/// rectangles it fits in, one with the smallest short leftover side, the
/// first such on ties.
pub open spec fn spec_best(free: Seq<Rect>, w: u32, h: u32) -> Option<int>
    decreases free.len(),
{
    if free.len() == 0 {
        None
    } else {
        let b = spec_best(free.drop_last(), w, h);
        let last = free.last();
        if fits(last, w, h) && (b is None || short_side(last, w, h) < short_side(free[b->0], w, h)) {
            Some(free.len() - 1)
        } else {
            b
        }
    }
}

/// The right strip left over when a `w`×`h` request is placed in `f`.
pub open spec fn right_piece(f: Rect, w: u32, h: u32) -> Rect {
    let lw = (f.w - w) as u32;
    let lh = (f.h - h) as u32;
    if lw < lh {
        Rect { x: (f.x + w) as u32, y: f.y, w: lw, h }
    } else {
        Rect { x: (f.x + w) as u32, y: f.y, w: lw, h: f.h }
    }
}

/// The bottom strip left over when a `w`×`h` request is placed in `f`.
pub open spec fn bottom_piece(f: Rect, w: u32, h: u32) -> Rect {
    let lw = (f.w - w) as u32;
    let lh = (f.h - h) as u32;
    if lw < lh {
        Rect { x: f.x, y: (f.y + h) as u32, w: f.w, h: lh }
    } else {
        Rect { x: f.x, y: (f.y + h) as u32, w, h: lh }
    }
}

/// `s` with `r` appended when `r` covers at least one pixel.
pub open spec fn push_nonempty(s: Seq<Rect>, r: Rect) -> Seq<Rect> {
    if nonempty(r) {
        s.push(r)
    } else {
        s
    }
}

/// The free list after placing a `w`×`h` request in `free[i]`.
pub open spec fn spec_split(free: Seq<Rect>, i: int, w: u32, h: u32) -> Seq<Rect> {
    let f = free[i];
    push_nonempty(push_nonempty(free.remove(i), right_piece(f, w, h)), bottom_piece(f, w, h))
}


/// A rectangle inside another inherits its disjointness.
proof fn lemma_inside_disjoint(a: Rect, f: Rect, b: Rect)
    requires
        inside(a, f),
        disjoint(f, b),
    ensures
        disjoint(a, b),
        disjoint(b, a),
{
}

/// The placed rectangle and the two leftover strips lie inside the free
/// rectangle they were cut from and do not overlap each other.
proof fn lemma_split_pieces(f: Rect, w: u32, h: u32)
    requires
        fits(f, w, h),
        w > 0,
        h > 0,
        f.x + f.w <= u32::MAX,
        f.y + f.h <= u32::MAX,
    ensures
        inside(Rect { x: f.x, y: f.y, w, h }, f),
        inside(right_piece(f, w, h), f),
        inside(bottom_piece(f, w, h), f),
        disjoint(right_piece(f, w, h), bottom_piece(f, w, h)),
        disjoint(bottom_piece(f, w, h), right_piece(f, w, h)),
        disjoint(Rect { x: f.x, y: f.y, w, h }, right_piece(f, w, h)),
        disjoint(right_piece(f, w, h), Rect { x: f.x, y: f.y, w, h }),
        disjoint(Rect { x: f.x, y: f.y, w, h }, bottom_piece(f, w, h)),
        disjoint(bottom_piece(f, w, h), Rect { x: f.x, y: f.y, w, h }),
{
}

/// The chosen index is a fitting free rectangle.
proof fn lemma_best_fits(free: Seq<Rect>, w: u32, h: u32)
    ensures
        spec_best(free, w, h) matches Some(i) ==> 0 <= i < free.len() && fits(free[i], w, h),
    decreases free.len(),
{
    if free.len() > 0 {
        lemma_best_fits(free.drop_last(), w, h);
    }
}

/// No chosen index means no free rectangle fits.
proof fn lemma_best_none(free: Seq<Rect>, w: u32, h: u32)
    ensures
        spec_best(free, w, h) is None ==> forall|j: int| 0 <= j < free.len() ==> !fits(#[trigger] free[j], w, h),
    decreases free.len(),
{
    if free.len() > 0 {
        lemma_best_none(free.drop_last(), w, h);
        if spec_best(free, w, h) is None {
            assert forall|j: int| 0 <= j < free.len() implies !fits(#[trigger] free[j], w, h) by {
                if j < free.len() - 1 {
                    assert(free.drop_last()[j] == free[j]);
                }
            }
        }
    }
}

/// Guillotine bin packer for one atlas page.
pub struct RectPacker {
    width: u32,
    height: u32,
    free: Vec<Rect>,
    /// Rectangles handed out since creation or the last reset.
    placed: Ghost<Seq<Rect>>,
}

impl RectPacker {
    /// Page width.
    pub closed spec fn spec_width(&self) -> u32 {
        self.width
    }

    /// Page height.
    pub closed spec fn spec_height(&self) -> u32 {
        self.height
    }

    /// The free rectangles, in list order.
    pub closed spec fn free_rects(&self) -> Seq<Rect> {
        self.free@
    }

    /// The rectangles placed since creation or the last reset.
    pub closed spec fn placed(&self) -> Seq<Rect> {
        self.placed@
    }

    /// Packing invariant: free and placed rectangles lie inside the page,
    /// cover at least one pixel, and no two of them overlap.
    pub closed spec fn wf(&self) -> bool {
        &&& forall|i: int| 0 <= i < self.free@.len() ==> within(#[trigger] self.free@[i], self.width, self.height)
            && nonempty(self.free@[i])
        &&& forall|k: int| 0 <= k < self.placed@.len() ==> within(#[trigger] self.placed@[k], self.width, self.height)
            && nonempty(self.placed@[k])
        &&& forall|i: int, j: int|
            0 <= i < self.free@.len() && 0 <= j < self.free@.len() && i != j ==> disjoint(
                #[trigger] self.free@[i],
                #[trigger] self.free@[j],
            )
        &&& forall|i: int, k: int|
            0 <= i < self.free@.len() && 0 <= k < self.placed@.len() ==> disjoint(
                #[trigger] self.free@[i],
                #[trigger] self.placed@[k],
            )
        &&& forall|k: int, l: int|
            0 <= k < self.placed@.len() && 0 <= l < self.placed@.len() && k != l ==> disjoint(
                #[trigger] self.placed@[k],
                #[trigger] self.placed@[l],
            )
    }

    /// Create a packer for an empty `width`×`height` page.
    pub fn new(width: u32, height: u32) -> (p: RectPacker)
        ensures
            p.wf(),
            p.spec_width() == width,
            p.spec_height() == height,
            p.placed().len() == 0,
            p.free_rects() == (if width > 0 && height > 0 {
                seq![Rect { x: 0, y: 0, w: width, h: height }]
            } else {
                Seq::empty()
            }),
    {
        let mut free: Vec<Rect> = Vec::new();
        if width > 0 && height > 0 {
            free.push(Rect { x: 0, y: 0, w: width, h: height });
        }
        let p = RectPacker { width, height, free, placed: Ghost(Seq::empty()) };
        proof {
            assert(p.free@ =~= (if width > 0 && height > 0 {
                seq![Rect { x: 0, y: 0, w: width, h: height }]
            } else {
                Seq::<Rect>::empty()
            }));
        }
        p
    }

    /// Forget every placement: the whole page is free again.
    pub fn reset(&mut self)
        requires
            old(self).wf(),
        ensures
            final(self).wf(),
            final(self).spec_width() == old(self).spec_width(),
            final(self).spec_height() == old(self).spec_height(),
            final(self).placed().len() == 0,
            final(self).free_rects() == (if old(self).spec_width() > 0 && old(self).spec_height() > 0 {
                seq![Rect { x: 0, y: 0, w: old(self).spec_width(), h: old(self).spec_height() }]
            } else {
                Seq::empty()
            }),
    {
        let fresh = RectPacker::new(self.width, self.height);
        *self = fresh;
    }

    /// Place a `w`×`h` rectangle, returning its top-left corner, or `None`
    /// when no free rectangle can hold it (or the request is empty).
    pub fn pack(&mut self, w: u32, h: u32) -> (r: Option<(u32, u32)>)
        requires
            old(self).wf(),
        ensures
            final(self).wf(),
            final(self).spec_width() == old(self).spec_width(),
            final(self).spec_height() == old(self).spec_height(),
            (w == 0 || h == 0) ==> r is None && final(self).free_rects() == old(self).free_rects()
                && final(self).placed() == old(self).placed(),
            (w > 0 && h > 0) ==> match spec_best(old(self).free_rects(), w, h) {
                None => r is None && final(self).free_rects() == old(self).free_rects()
                    && final(self).placed() == old(self).placed(),
                Some(i) => r == Some((old(self).free_rects()[i].x, old(self).free_rects()[i].y))
                    && final(self).free_rects() == spec_split(old(self).free_rects(), i, w, h)
                    && final(self).placed() == old(self).placed().push(
                    Rect { x: old(self).free_rects()[i].x, y: old(self).free_rects()[i].y, w, h },
                ),
            },
            r matches Some((x, y)) ==> {
                &&& x + w <= old(self).spec_width()
                &&& y + h <= old(self).spec_height()
                &&& forall|k: int|
                    0 <= k < old(self).placed().len() ==> disjoint(
                        Rect { x, y, w, h },
                        #[trigger] old(self).placed()[k],
                    )
            },
            r is None && w > 0 && h > 0 ==> forall|j: int|
                0 <= j < old(self).free_rects().len() ==> !fits(#[trigger] old(self).free_rects()[j], w, h),
    {
        if w == 0 || h == 0 {
            return None;
        }
        let ghost old_free = self.free@;
        let ghost old_placed = self.placed@;
        let mut best: Option<usize> = None;
        let mut best_short: u32 = 0;
        let mut i: usize = 0;
        proof {
            assert(old_free.take(0) =~= Seq::<Rect>::empty());
        }
        while i < self.free.len()
            invariant
                i <= self.free@.len(),
                self.free@ == old_free,
                match best {
                    Some(b) => spec_best(old_free.take(i as int), w, h) == Some(b as int) && b < i
                        && best_short == short_side(old_free[b as int], w, h),
                    None => spec_best(old_free.take(i as int), w, h) is None,
                },
            decreases self.free.len() - i,
        {
            let f = self.free[i];
            proof {
                assert(old_free.take(i + 1).drop_last() =~= old_free.take(i as int));
                assert(old_free.take(i + 1).last() == f);
                if let Some(b) = best {
                    assert(old_free.take(i + 1)[b as int] == old_free[b as int]);
                }
            }
            if f.w >= w && f.h >= h {
                let lw = f.w - w;
                let lh = f.h - h;
                let sh = if lw < lh { lw } else { lh };
                let better = match best {
                    None => true,
                    Some(_) => sh < best_short,
                };
                if better {
                    best = Some(i);
                    best_short = sh;
                }
            }
            i = i + 1;
        }
        proof {
            assert(old_free.take(i as int) =~= old_free);
            lemma_best_fits(old_free, w, h);
            lemma_best_none(old_free, w, h);
        }
        let bi = match best {
            None => {
                return None;
            },
            Some(b) => b,
        };
        let f = self.free.remove(bi);
        let lw = f.w - w;
        let lh = f.h - h;
        let (right, bottom) = if lw < lh {
            (Rect { x: f.x + w, y: f.y, w: lw, h }, Rect { x: f.x, y: f.y + h, w: f.w, h: lh })
        } else {
            (Rect { x: f.x + w, y: f.y, w: lw, h: f.h }, Rect { x: f.x, y: f.y + h, w, h: lh })
        };
        let ghost placed_rect = Rect { x: f.x, y: f.y, w, h };
        proof {
            assert(right == right_piece(f, w, h));
            assert(bottom == bottom_piece(f, w, h));
            lemma_split_pieces(f, w, h);
        }
        if right.w > 0 && right.h > 0 {
            self.free.push(right);
        }
        if bottom.w > 0 && bottom.h > 0 {
            self.free.push(bottom);
        }
        self.placed = Ghost(old_placed.push(placed_rect));
        proof {
            let b = bi as int;
            let removed = old_free.remove(b);
            assert(self.free@ =~= spec_split(old_free, b, w, h));
            assert(forall|j: int| 0 <= j < removed.len() ==> #[trigger] removed[j] == old_free[if j < b { j } else { j + 1 }]);
            // every free rectangle lies inside the page, is nonempty, and is either an old free
            // rectangle other than `f` or inside `f`
            assert forall|j: int| 0 <= j < self.free@.len() implies
                within(#[trigger] self.free@[j], self.width, self.height) && nonempty(self.free@[j])
                && ((j < removed.len() && self.free@[j] == removed[j]) || inside(self.free@[j], f))
            by {
                if j < removed.len() {
                    assert(self.free@[j] == removed[j]);
                }
            }
            assert forall|j1: int, j2: int|
                0 <= j1 < self.free@.len() && 0 <= j2 < self.free@.len() && j1 != j2 implies disjoint(
                    #[trigger] self.free@[j1],
                    #[trigger] self.free@[j2],
                ) by {
                if j1 < removed.len() && j2 < removed.len() {
                    let o1 = if j1 < b { j1 } else { j1 + 1 };
                    let o2 = if j2 < b { j2 } else { j2 + 1 };
                    assert(removed[j1] == old_free[o1]);
                    assert(removed[j2] == old_free[o2]);
                } else if j1 < removed.len() {
                    let o1 = if j1 < b { j1 } else { j1 + 1 };
                    assert(removed[j1] == old_free[o1]);
                    assert(disjoint(old_free[o1], old_free[b]));
                    lemma_inside_disjoint(self.free@[j2], f, old_free[o1]);
                } else if j2 < removed.len() {
                    let o2 = if j2 < b { j2 } else { j2 + 1 };
                    assert(removed[j2] == old_free[o2]);
                    assert(disjoint(old_free[o2], old_free[b]));
                    lemma_inside_disjoint(self.free@[j1], f, old_free[o2]);
                } else {
                    assert(self.free@[j1] == right || self.free@[j1] == bottom);
                    assert(self.free@[j2] == right || self.free@[j2] == bottom);
                }
            }
            assert forall|k: int| 0 <= k < self.placed@.len() implies
                within(#[trigger] self.placed@[k], self.width, self.height) && nonempty(self.placed@[k])
            by {
                if k < old_placed.len() {
                    assert(self.placed@[k] == old_placed[k]);
                }
            }
            assert forall|k: int| 0 <= k < old_placed.len() implies disjoint(placed_rect, #[trigger] old_placed[k]) by {
                assert(disjoint(old_free[b], old_placed[k]));
                lemma_inside_disjoint(placed_rect, f, old_placed[k]);
            }
            assert forall|j: int, k: int|
                0 <= j < self.free@.len() && 0 <= k < self.placed@.len() implies disjoint(
                    #[trigger] self.free@[j],
                    #[trigger] self.placed@[k],
                ) by {
                if k < old_placed.len() {
                    assert(self.placed@[k] == old_placed[k]);
                    if j < removed.len() {
                        let o = if j < b { j } else { j + 1 };
                        assert(removed[j] == old_free[o]);
                        assert(disjoint(old_free[o], old_placed[k]));
                    } else {
                        assert(disjoint(old_free[b], old_placed[k]));
                        lemma_inside_disjoint(self.free@[j], f, old_placed[k]);
                    }
                } else {
                    assert(self.placed@[k] == placed_rect);
                    if j < removed.len() {
                        let o = if j < b { j } else { j + 1 };
                        assert(removed[j] == old_free[o]);
                        assert(disjoint(old_free[o], old_free[b]));
                        lemma_inside_disjoint(placed_rect, f, old_free[o]);
                    } else {
                        assert(self.free@[j] == right || self.free@[j] == bottom);
                    }
                }
            }
            assert forall|k: int, l: int|
                0 <= k < self.placed@.len() && 0 <= l < self.placed@.len() && k != l implies disjoint(
                    #[trigger] self.placed@[k],
                    #[trigger] self.placed@[l],
                ) by {
                if k < old_placed.len() && l < old_placed.len() {
                    assert(self.placed@[k] == old_placed[k]);
                    assert(self.placed@[l] == old_placed[l]);
                } else if k < old_placed.len() {
                    assert(self.placed@[l] == placed_rect);
                    assert(self.placed@[k] == old_placed[k]);
                    assert(disjoint(placed_rect, old_placed[k]));
                } else {
                    assert(self.placed@[k] == placed_rect);
                    assert(self.placed@[l] == old_placed[l]);
                    assert(disjoint(placed_rect, old_placed[l]));
                }
            }
        }
        Some((f.x, f.y))
    }

    /// Each placed rectangle lies inside the page and covers a pixel.
    pub proof fn lemma_placed_within(&self, i: int)
        requires
            self.wf(),
            0 <= i < self.placed().len(),
        ensures
            within(self.placed()[i], self.spec_width(), self.spec_height()),
            nonempty(self.placed()[i]),
    {
    }

    /// A page holds at most one placed rectangle per pixel: each placed
    /// rectangle owns its top-left pixel.
    pub proof fn lemma_placed_count(&self)
        requires
            self.wf(),
        ensures
            self.placed().len() <= self.spec_width() as int * self.spec_height() as int,
    {
        let s = self.placed@;
        let w = self.width as int;
        let h = self.height as int;
        let idx = s.map(|k: int, r: Rect| r.y * w + r.x);
        assert forall|i: int, j: int| 0 <= i < idx.len() && 0 <= j < idx.len() && i != j implies idx[i] != idx[j] by {
            let a = s[i];
            let b = s[j];
            assert(disjoint(a, b));
            if a.y * w + a.x == b.y * w + b.x {
                assert(a.x == b.x && a.y == b.y) by (nonlinear_arith)
                    requires
                        a.y * w + a.x == b.y * w + b.x,
                        0 <= a.x < w,
                        0 <= b.x < w,
                        0 <= a.y,
                        0 <= b.y;
            }
        }
        assert(idx.no_duplicates());
        idx.unique_seq_to_set();
        vstd::set_lib::lemma_int_range(0, w * h);
        assert forall|v: int| idx.to_set().contains(v) implies vstd::set_lib::set_int_range(0, w * h).contains(v) by {
            let i = choose|i: int| 0 <= i < idx.len() && idx[i] == v;
            let r = s[i];
            assert(0 <= r.y * w + r.x < w * h) by (nonlinear_arith)
                requires
                    0 <= r.x < w,
                    0 <= r.y < h;
        }
        vstd::set_lib::lemma_len_subset(idx.to_set(), vstd::set_lib::set_int_range(0, w * h));
    }
}

} // verus!
