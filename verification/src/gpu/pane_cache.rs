//! Per-pane caching of prepared frames for multi-pane rendering.
//!
//! Unchanged panes are not prepared again on every frame. Only dirty panes
//! (new output, or a layout change) go through the full preparation; clean
//! panes reuse the frame cached for them. The cache is generic over the
//! prepared frame and over the layout it was prepared for; a frame is reused
//! only while the pane's layout compares equal to the cached one.

use std::collections::HashMap;
use vstd::prelude::*;
use vstd::std_specs::cmp::PartialEqSpec;

verus! {

broadcast use vstd::std_specs::hash::group_hash_axioms;

/// A cached frame and the layout it was prepared at.
struct CachedPaneFrame<F, L> {
    prepared: F,
    layout: L,
}

/// Per-pane render cache, keyed by pane id.
///
/// Stores one prepared frame per pane. Callers ask
/// [`get_or_prepare`](Self::get_or_prepare) each frame: a clean pane whose
/// layout is unchanged gets its cached frame back without preparing.
pub struct PaneRenderCache<F, L> {
    entries: HashMap<u64, CachedPaneFrame<F, L>>,
}

/// Frame of each entry of a cache map.
spec fn frames_of<F, L>(m: Map<u64, CachedPaneFrame<F, L>>) -> Map<u64, F> {
    m.map_values(|c: CachedPaneFrame<F, L>| c.prepared)
}

/// Layout of each entry of a cache map.
spec fn layouts_of<F, L>(m: Map<u64, CachedPaneFrame<F, L>>) -> Map<u64, L> {
    m.map_values(|c: CachedPaneFrame<F, L>| c.layout)
}

/// Whether two layouts compare equal with `==`, for a layout type whose
/// `==` is specified.
pub open spec fn same_layout<L: PartialEq>(a: L, b: L) -> bool {
    L::obeys_eq_spec() && a.eq_spec(&b)
}

/// Whether two layouts compare unequal with `==`, for a layout type whose
/// `==` is specified.
pub open spec fn other_layout<L: PartialEq>(a: L, b: L) -> bool {
    L::obeys_eq_spec() && !a.eq_spec(&b)
}

impl<F, L: PartialEq + Copy> PaneRenderCache<F, L> {
    /// The cached frame of each pane.
    pub closed spec fn frames(&self) -> Map<u64, F> {
        frames_of(self.entries@)
    }

    /// The layout each pane's cached frame was prepared at.
    pub closed spec fn layouts(&self) -> Map<u64, L> {
        layouts_of(self.entries@)
    }

    /// Every cached frame has its layout.
    pub closed spec fn wf(&self) -> bool {
        self.frames().dom() == self.layouts().dom()
    }

    /// Views of a cache map after inserting or replacing one entry.
    proof fn lemma_views_insert(m: Map<u64, CachedPaneFrame<F, L>>, id: u64, c: CachedPaneFrame<F, L>)
        ensures
            frames_of(m.insert(id, c)) == frames_of(m).insert(id, c.prepared),
            layouts_of(m.insert(id, c)) == layouts_of(m).insert(id, c.layout),
            frames_of(m).dom() == m.dom(),
            layouts_of(m).dom() == m.dom(),
    {
        assert(frames_of(m.insert(id, c)) =~= frames_of(m).insert(id, c.prepared));
        assert(layouts_of(m.insert(id, c)) =~= layouts_of(m).insert(id, c.layout));
        assert(frames_of(m).dom() =~= m.dom());
        assert(layouts_of(m).dom() =~= m.dom());
    }

    /// Views of a cache map after removing one entry.
    proof fn lemma_views_remove(m: Map<u64, CachedPaneFrame<F, L>>, id: u64)
        ensures
            frames_of(m.remove(id)) == frames_of(m).remove(id),
            layouts_of(m.remove(id)) == layouts_of(m).remove(id),
            frames_of(m).dom() == m.dom(),
            layouts_of(m).dom() == m.dom(),
    {
        assert(frames_of(m.remove(id)) =~= frames_of(m).remove(id));
        assert(layouts_of(m.remove(id)) =~= layouts_of(m).remove(id));
        assert(frames_of(m).dom() =~= m.dom());
        assert(layouts_of(m).dom() =~= m.dom());
    }

    /// Create an empty cache.
    pub fn new() -> (c: Self)
        ensures
            c.wf(),
            c.frames() == Map::<u64, F>::empty(),
            c.layouts() == Map::<u64, L>::empty(),
    {
        let c = PaneRenderCache { entries: HashMap::new() };
        proof {
            assert(c.frames() =~= Map::<u64, F>::empty());
            assert(c.layouts() =~= Map::<u64, L>::empty());
        }
        c
    }

    /// Get the cached frame of a pane, or prepare a new one.
    ///
    /// Returns the cached frame when the pane is not `dirty` and `layout`
    /// compares equal to the layout it was cached at. Otherwise calls
    /// `prepare` with the pane's previous frame (to refill in place; `None`
    /// when the pane has none), stores what it returns at `layout`, and
    /// returns that.
    pub fn get_or_prepare<P: FnOnce(Option<F>) -> F>(&mut self, pane_id: u64, layout: &L, dirty: bool, prepare: P) -> (r:
        &F)
        requires
            old(self).wf(),
            call_requires(prepare, (old(self).frames().get(pane_id),)),
        ensures
            final(self).wf(),
            looked_up(
                old(self).frames(),
                old(self).layouts(),
                final(self).frames(),
                final(self).layouts(),
                pane_id,
                *layout,
                dirty,
                prepare,
                *r,
            ),
    {
        let ghost m0 = self.entries@;
        proof {
            Self::lemma_views_remove(m0, pane_id);
        }
        let hit = match self.entries.get(&pane_id) {
            Some(c) => !dirty && c.layout == *layout,
            None => false,
        };
        if !hit {
            let prev = match self.entries.remove(&pane_id) {
                Some(c) => Some(c.prepared),
                None => None,
            };
            let f = prepare(prev);
            let c = CachedPaneFrame { prepared: f, layout: *layout };
            proof {
                Self::lemma_views_insert(m0.remove(pane_id), pane_id, c);
                assert(m0.remove(pane_id).insert(pane_id, c) =~= m0.insert(pane_id, c));
                Self::lemma_views_insert(m0, pane_id, c);
            }
            self.entries.insert(pane_id, c);
        }
        &self.entries.get(&pane_id).unwrap().prepared
    }

    /// Whether the pane has a cached frame prepared at a layout that
    /// compares equal to `layout`.
    pub fn is_cached(&self, pane_id: u64, layout: &L) -> (b: bool)
        requires
            self.wf(),
        ensures
            b ==> self.frames().contains_key(pane_id),
            self.frames().contains_key(pane_id) && same_layout(self.layouts()[pane_id], *layout) ==> b,
            self.frames().contains_key(pane_id) && other_layout(self.layouts()[pane_id], *layout) ==> !b,
    {
        proof {
            Self::lemma_views_remove(self.entries@, pane_id);
        }
        match self.entries.get(&pane_id) {
            Some(c) => c.layout == *layout,
            None => false,
        }
    }

    /// The cached frame of a pane, whatever layout it was prepared at.
    pub fn get_cached(&self, pane_id: u64) -> (r: Option<&F>)
        requires
            self.wf(),
        ensures
            match r {
                Some(f) => self.frames().contains_key(pane_id) && *f == self.frames()[pane_id],
                None => !self.frames().contains_key(pane_id),
            },
    {
        proof {
            Self::lemma_views_remove(self.entries@, pane_id);
        }
        match self.entries.get(&pane_id) {
            Some(c) => Some(&c.prepared),
            None => None,
        }
    }

    /// Force a pane to be prepared again on its next frame.
    pub fn invalidate(&mut self, pane_id: u64)
        requires
            old(self).wf(),
        ensures
            final(self).wf(),
            final(self).frames() == old(self).frames().remove(pane_id),
            final(self).layouts() == old(self).layouts().remove(pane_id),
    {
        self.remove(pane_id);
    }

    /// Drop a closed pane's cached frame.
    pub fn remove(&mut self, pane_id: u64)
        requires
            old(self).wf(),
        ensures
            final(self).wf(),
            final(self).frames() == old(self).frames().remove(pane_id),
            final(self).layouts() == old(self).layouts().remove(pane_id),
    {
        proof {
            Self::lemma_views_remove(self.entries@, pane_id);
        }
        self.entries.remove(&pane_id);
    }

    /// Drop every cached frame (after an atlas rebuild or a font change).
    pub fn invalidate_all(&mut self)
        requires
            old(self).wf(),
        ensures
            final(self).wf(),
            final(self).frames() == Map::<u64, F>::empty(),
            final(self).layouts() == Map::<u64, L>::empty(),
    {
        self.entries.clear();
        proof {
            assert(self.frames() =~= Map::<u64, F>::empty());
            assert(self.layouts() =~= Map::<u64, L>::empty());
        }
    }
}

/// What a lookup of `pane_id` at `layout` does: a clean pane cached at a
/// layout that compares equal is reused; a pane with no cached frame, a
/// dirty one, or one cached at a layout that compares unequal is prepared
/// again; and whatever the layout type's `==` does, it is one of the two.
pub open spec fn looked_up<F, L: PartialEq, P: FnOnce(Option<F>) -> F>(
    frames: Map<u64, F>,
    layouts: Map<u64, L>,
    new_frames: Map<u64, F>,
    new_layouts: Map<u64, L>,
    pane_id: u64,
    layout: L,
    dirty: bool,
    prepare: P,
    r: F,
) -> bool {
    &&& frames.contains_key(pane_id) && !dirty && same_layout(layouts[pane_id], layout) ==> reused(
        frames,
        layouts,
        new_frames,
        new_layouts,
        pane_id,
        r,
    )
    &&& !frames.contains_key(pane_id) || dirty || other_layout(layouts[pane_id], layout) ==> prepared(
        frames,
        layouts,
        new_frames,
        new_layouts,
        pane_id,
        layout,
        prepare,
        r,
    )
    &&& reused(frames, layouts, new_frames, new_layouts, pane_id, r) || prepared(
        frames,
        layouts,
        new_frames,
        new_layouts,
        pane_id,
        layout,
        prepare,
        r,
    )
}

/// A lookup that reused the pane's cached frame: nothing changed, and the
/// cached frame is returned.
pub open spec fn reused<F, L>(
    frames: Map<u64, F>,
    layouts: Map<u64, L>,
    new_frames: Map<u64, F>,
    new_layouts: Map<u64, L>,
    pane_id: u64,
    r: F,
) -> bool {
    &&& frames.contains_key(pane_id)
    &&& new_frames == frames
    &&& new_layouts == layouts
    &&& r == frames[pane_id]
}

/// A lookup that prepared the pane again: `prepare` was given the pane's
/// previous frame, if any, and what it returned is now cached at `layout`
/// and returned.
pub open spec fn prepared<F, L, P: FnOnce(Option<F>) -> F>(
    frames: Map<u64, F>,
    layouts: Map<u64, L>,
    new_frames: Map<u64, F>,
    new_layouts: Map<u64, L>,
    pane_id: u64,
    layout: L,
    prepare: P,
    r: F,
) -> bool {
    &&& call_ensures(prepare, (frames.get(pane_id),), r)
    &&& new_frames == frames.insert(pane_id, r)
    &&& new_layouts == layouts.insert(pane_id, layout)
}

/// A lookup changes the cache entry of the looked-up pane only: every other
/// pane keeps its cached frame and layout.
pub proof fn law_other_panes_untouched<F, L: PartialEq, P: FnOnce(Option<F>) -> F>(
    frames: Map<u64, F>,
    layouts: Map<u64, L>,
    new_frames: Map<u64, F>,
    new_layouts: Map<u64, L>,
    pane_id: u64,
    layout: L,
    dirty: bool,
    prepare: P,
    r: F,
)
    requires
        looked_up(frames, layouts, new_frames, new_layouts, pane_id, layout, dirty, prepare, r),
    ensures
        new_frames.remove(pane_id) == frames.remove(pane_id),
        new_layouts.remove(pane_id) == layouts.remove(pane_id),
{
    assert(frames.insert(pane_id, r).remove(pane_id) =~= frames.remove(pane_id));
    assert(layouts.insert(pane_id, layout).remove(pane_id) =~= layouts.remove(pane_id));
}

/// Looking a pane up at a layout, then again at the same layout with the
/// pane clean, gives back the same frame the second time without preparing
/// and without changing the cache (for a layout that compares equal to
/// itself).
pub proof fn law_clean_lookup_reuses<F, L: PartialEq, P: FnOnce(Option<F>) -> F, Q: FnOnce(Option<F>) -> F>(
    frames: Map<u64, F>,
    layouts: Map<u64, L>,
    frames1: Map<u64, F>,
    layouts1: Map<u64, L>,
    frames2: Map<u64, F>,
    layouts2: Map<u64, L>,
    pane_id: u64,
    layout: L,
    dirty: bool,
    prepare: P,
    prepare_again: Q,
    r1: F,
    r2: F,
)
    requires
        same_layout(layout, layout),
        looked_up(frames, layouts, frames1, layouts1, pane_id, layout, dirty, prepare, r1),
        looked_up(frames1, layouts1, frames2, layouts2, pane_id, layout, false, prepare_again, r2),
    ensures
        r2 == r1,
        frames2 == frames1,
        layouts2 == layouts1,
{
    if !prepared(frames, layouts, frames1, layouts1, pane_id, layout, prepare, r1) {
        assert(same_layout(layouts[pane_id], layout));
    }
    assert(frames1.contains_key(pane_id) && same_layout(layouts1[pane_id], layout));
}

/// A pane with no cached frame (never looked up, or dropped by `remove`,
/// `invalidate` or `invalidate_all`) is prepared on its next lookup, dirty
/// or not, from no previous frame.
pub proof fn law_uncached_pane_is_prepared<F, L: PartialEq, P: FnOnce(Option<F>) -> F>(
    frames: Map<u64, F>,
    layouts: Map<u64, L>,
    new_frames: Map<u64, F>,
    new_layouts: Map<u64, L>,
    pane_id: u64,
    layout: L,
    dirty: bool,
    prepare: P,
    r: F,
)
    requires
        !frames.contains_key(pane_id),
        looked_up(frames, layouts, new_frames, new_layouts, pane_id, layout, dirty, prepare, r),
    ensures
        call_ensures(prepare, (None::<F>,), r),
        new_frames == frames.insert(pane_id, r),
        new_layouts == layouts.insert(pane_id, layout),
{
}

} // verus!
