//! Texture cache for inline terminal images.
//!
//! Each image gets its own texture (not atlased — images vary wildly in
//! size). Textures are created lazily when images enter the viewport and
//! evicted least-recently-used first when their memory exceeds the limit.
//! The cache is generic over the texture payload; the caller supplies how a
//! texture is created and uploaded.

use std::collections::HashMap;
use std::collections::hash_map::Entry;
use vstd::std_specs::iter::IteratorSpec;
use vstd::prelude::*;

verus! {

broadcast use vstd::std_specs::hash::group_hash_axioms;

/// Default memory limit for image textures (512 MiB).
pub const DEFAULT_GPU_MEMORY_LIMIT: usize = 536870912;

/// Size and recency of one cached image texture.
pub struct ImageSlot {
    /// Bytes of texture memory (4 per pixel).
    pub size_bytes: usize,
    /// Frame the texture was last used in.
    pub last_frame: u64,
}

/// Total texture memory of the cached images.
pub open spec fn total(m: Map<u64, ImageSlot>) -> nat
    decreases m.dom().len(),
{
    if m.dom().finite() && m.dom().len() > 0 {
        let k = m.dom().choose();
        m[k].size_bytes as nat + total(m.remove(k))
    } else {
        0
    }
}

/// Removing one image takes its size off the total, whichever image it is.
pub proof fn lemma_total_remove(m: Map<u64, ImageSlot>, k: u64)
    requires
        m.dom().finite(),
        m.dom().contains(k),
    ensures
        total(m) == m[k].size_bytes + total(m.remove(k)),
    decreases m.dom().len(),
{
    let j = m.dom().choose();
    if j != k {
        assert(m.remove(j).dom().contains(k));
        lemma_total_remove(m.remove(j), k);
        assert(m.remove(k).dom().contains(j));
        lemma_total_remove(m.remove(k), j);
        assert(m.remove(j).remove(k) =~= m.remove(k).remove(j));
    }
}

/// An uploaded image texture.
struct ImageEntry<T> {
    texture: T,
    size_bytes: usize,
    last_frame: u64,
}

/// Texture cache for inline images, keyed by image id.
///
/// Uploads are lazy (on first viewport appearance). LRU eviction keeps
/// texture memory bounded.
pub struct ImageTextureCache<T> {
    textures: HashMap<u64, ImageEntry<T>>,
    gpu_memory_used: usize,
    gpu_memory_limit: usize,
    frame_counter: u64,
}

/// Size and recency of each entry of a cache map.
spec fn slots_of<T>(m: Map<u64, ImageEntry<T>>) -> Map<u64, ImageSlot> {
    m.map_values(|e: ImageEntry<T>| ImageSlot { size_bytes: e.size_bytes, last_frame: e.last_frame })
}

/// Texture of each entry of a cache map.
spec fn textures_of<T>(m: Map<u64, ImageEntry<T>>) -> Map<u64, T> {
    m.map_values(|e: ImageEntry<T>| e.texture)
}

/// Views of a cache map after inserting or replacing one entry.
proof fn lemma_views_insert<T>(m: Map<u64, ImageEntry<T>>, id: u64, e: ImageEntry<T>)
    ensures
        slots_of(m.insert(id, e)) == slots_of(m).insert(id, ImageSlot { size_bytes: e.size_bytes, last_frame: e.last_frame }),
        textures_of(m.insert(id, e)) == textures_of(m).insert(id, e.texture),
        m.dom().finite() ==> slots_of(m).dom().finite(),
{
    assert(slots_of(m.insert(id, e)) =~= slots_of(m).insert(id, ImageSlot { size_bytes: e.size_bytes, last_frame: e.last_frame }));
    assert(textures_of(m.insert(id, e)) =~= textures_of(m).insert(id, e.texture));
    assert(slots_of(m).dom() =~= m.dom());
}

/// Views of a cache map after removing one entry.
proof fn lemma_views_remove<T>(m: Map<u64, ImageEntry<T>>, id: u64)
    ensures
        slots_of(m.remove(id)) == slots_of(m).remove(id),
        textures_of(m.remove(id)) == textures_of(m).remove(id),
        slots_of(m).dom() == m.dom(),
{
    assert(slots_of(m.remove(id)) =~= slots_of(m).remove(id));
    assert(textures_of(m.remove(id)) =~= textures_of(m).remove(id));
    assert(slots_of(m).dom() =~= m.dom());
}

/// Eviction down to `limit` so far: the kept images are some of the
/// images there before, none older than any removed one, and when anything was
/// removed, putting back one removed image would exceed the limit.
pub open spec fn evicted_lru_step(before: Map<u64, ImageSlot>, after: Map<u64, ImageSlot>, limit: usize) -> bool {
    &&& forall|k: u64| #[trigger] after.contains_key(k) ==> before.contains_key(k) && after[k] == before[k]
    &&& forall|r: u64, k: u64|
        before.contains_key(r) && !after.contains_key(r) && #[trigger] after.contains_key(k) ==> #[trigger] before[r].last_frame
            <= before[k].last_frame
    &&& (exists|r: u64| before.contains_key(r) && !after.contains_key(r)) ==> exists|r: u64|
        #[trigger] before.contains_key(r) && !after.contains_key(r) && total(after) + before[r].size_bytes > limit
}

/// Eviction down to `limit`, finished: as [`evicted_lru_step`], and the
/// kept images fit the limit unless none is kept.
pub open spec fn evicted_lru(before: Map<u64, ImageSlot>, after: Map<u64, ImageSlot>, limit: usize) -> bool {
    &&& evicted_lru_step(before, after, limit)
    &&& total(after) <= limit || after.dom() == Set::<u64>::empty()
}

/// Removing a least recently used image while over the limit extends an
/// eviction.
proof fn lemma_evict_step(s0: Map<u64, ImageSlot>, cur: Map<u64, ImageSlot>, limit: usize, id: u64)
    requires
        evicted_lru_step(s0, cur, limit),
        cur.dom().finite(),
        cur.contains_key(id),
        total(cur) > limit,
        total(cur) == cur[id].size_bytes + total(cur.remove(id)),
        forall|k: u64| #[trigger] cur.contains_key(k) ==> cur[id].last_frame <= cur[k].last_frame,
    ensures
        evicted_lru_step(s0, cur.remove(id), limit),
{
    let next = cur.remove(id);
    assert(s0.contains_key(id) && !next.contains_key(id) && total(next) + s0[id].size_bytes > limit);
    assert forall|r: u64, k: u64|
        s0.contains_key(r) && !next.contains_key(r) && #[trigger] next.contains_key(k) implies #[trigger] s0[r].last_frame
            <= s0[k].last_frame by {
        if r != id {
            assert(!cur.contains_key(r));
        }
    }
}

/// Bytes of an RGBA texture of the given size.
pub open spec fn image_bytes(width: u32, height: u32) -> int {
    width as int * height as int * 4
}

/// The keys of a map, each once, in the map's iteration order.
pub(crate) fn map_keys<V>(m: &HashMap<u64, V>) -> (v: Vec<u64>)
    ensures
        v@.to_set() == m@.dom(),
        v@.no_duplicates(),
{
    let ghost all = vstd::std_specs::hash::spec_keys_iter(m).remaining().unref();
    let mut v: Vec<u64> = Vec::new();
    for k in it: m.keys()
        invariant
            it.seq().unref() == all,
            v@ == all.take(it.index() as int),
    {
        v.push(*k);
        proof {
            assert(all.take(it.index() as int + 1) =~= all.take(it.index() as int).push(*k));
        }
    }
    proof {
        assert(v@ =~= all);
    }
    v
}

impl<T> ImageTextureCache<T> {
    /// Size and recency of each cached image.
    pub closed spec fn slots(&self) -> Map<u64, ImageSlot> {
        slots_of(self.textures@)
    }

    /// The texture of each cached image.
    pub closed spec fn textures(&self) -> Map<u64, T> {
        textures_of(self.textures@)
    }

    /// Texture memory in use, in bytes.
    pub closed spec fn memory(&self) -> usize {
        self.gpu_memory_used
    }

    /// Texture memory limit, in bytes.
    pub closed spec fn limit(&self) -> usize {
        self.gpu_memory_limit
    }

    /// The frame counter.
    pub closed spec fn frame(&self) -> u64 {
        self.frame_counter
    }

    /// Cache invariant: the memory in use is the total size of the cached
    /// textures.
    pub closed spec fn wf(&self) -> bool {
        self.gpu_memory_used == total(self.slots())
    }

    /// Create a new empty cache with the default memory limit.
    pub fn new() -> (c: Self)
        ensures
            c.wf(),
            c.slots() == Map::<u64, ImageSlot>::empty(),
            c.textures() == Map::<u64, T>::empty(),
            c.memory() == 0,
            c.limit() == DEFAULT_GPU_MEMORY_LIMIT,
            c.frame() == 0,
    {
        let c = ImageTextureCache {
            textures: HashMap::new(),
            gpu_memory_used: 0,
            gpu_memory_limit: DEFAULT_GPU_MEMORY_LIMIT,
            frame_counter: 0,
        };
        proof {
            assert(c.slots() =~= Map::<u64, ImageSlot>::empty());
            assert(c.textures() =~= Map::<u64, T>::empty());
        }
        c
    }

    /// Advance the frame counter. Call once per frame before `ensure_uploaded`.
    pub fn begin_frame(&mut self)
        requires
            old(self).wf(),
            old(self).frame() < u64::MAX,
        ensures
            final(self).wf(),
            final(self).frame() == old(self).frame() + 1,
            final(self).slots() == old(self).slots(),
            final(self).textures() == old(self).textures(),
            final(self).memory() == old(self).memory(),
            final(self).limit() == old(self).limit(),
    {
        self.frame_counter = self.frame_counter + 1;
    }

    /// Ensure the image is uploaded, returning its texture.
    ///
    /// If already uploaded, touches the LRU counter. If not, calls `create`
    /// with the image size to create and upload the texture, and accounts
    /// for its memory (4 bytes per pixel).
    pub fn ensure_uploaded<F: FnOnce(u32, u32) -> T>(&mut self, id: u64, width: u32, height: u32, create: F) -> (t: &T)
        requires
            old(self).wf(),
            call_requires(create, (width, height)),
            image_bytes(width, height) <= usize::MAX,
            old(self).memory() + image_bytes(width, height) <= usize::MAX,
        ensures
            final(self).wf(),
            final(self).frame() == old(self).frame(),
            final(self).limit() == old(self).limit(),
            if old(self).slots().contains_key(id) {
                &&& final(self).slots() == old(self).slots().insert(
                    id,
                    ImageSlot { size_bytes: old(self).slots()[id].size_bytes, last_frame: old(self).frame() },
                )
                &&& final(self).textures() == old(self).textures()
                &&& final(self).memory() == old(self).memory()
                &&& *t == old(self).textures()[id]
            } else {
                &&& final(self).slots() == old(self).slots().insert(
                    id,
                    ImageSlot { size_bytes: image_bytes(width, height) as usize, last_frame: old(self).frame() },
                )
                &&& final(self).textures().dom() == old(self).textures().dom().insert(id)
                &&& final(self).textures().remove(id) == old(self).textures().remove(id)
                &&& call_ensures(create, (width, height), final(self).textures()[id])
                &&& *t == final(self).textures()[id]
                &&& final(self).memory() == old(self).memory() + image_bytes(width, height)
            },
    {
        let frame = self.frame_counter;
        let ghost old_slots = self.slots();
        let ghost old_map = self.textures@;
        proof {
            assert(old_map.dom().finite());
            lemma_views_remove(old_map, id);
            if old_slots.contains_key(id) {
                lemma_total_remove(old_slots, id);
                let ghost new_e = ImageEntry { texture: old_map[id].texture, size_bytes: old_map[id].size_bytes, last_frame: frame };
                lemma_views_insert(old_map, id, new_e);
            }
        }
        match self.textures.entry(id) {
            Entry::Occupied(e) => {
                let entry = e.into_mut();
                entry.last_frame = frame;
                proof {
                    let new_slots = old_slots.insert(id, ImageSlot { size_bytes: old_slots[id].size_bytes, last_frame: frame });
                    lemma_total_remove(new_slots, id);
                    assert(new_slots.remove(id) =~= old_slots.remove(id));
                }
                &entry.texture
            },
            Entry::Vacant(e) => {
                let texture = create(width, height);
                let size_bytes = (width as usize) * (height as usize) * 4;
                self.gpu_memory_used = self.gpu_memory_used + size_bytes;
                proof {
                    lemma_views_insert(old_map, id, ImageEntry { texture, size_bytes, last_frame: frame });
                }
                let entry = e.insert(ImageEntry { texture, size_bytes, last_frame: frame });
                proof {
                    let new_slots = old_slots.insert(id, ImageSlot { size_bytes, last_frame: frame });
                    lemma_total_remove(new_slots, id);
                    assert(new_slots.remove(id) =~= old_slots);
                }
                &entry.texture
            },
        }
    }

    /// The texture of an already-uploaded image.
    pub fn get_bind_group(&self, id: u64) -> (t: Option<&T>)
        ensures
            match t {
                Some(t) => self.textures().contains_key(id) && *t == self.textures()[id],
                None => !self.textures().contains_key(id),
            },
    {
        match self.textures.get(&id) {
            Some(e) => Some(&e.texture),
            None => None,
        }
    }

    /// Remove a specific image texture.
    pub fn remove(&mut self, id: u64)
        requires
            old(self).wf(),
        ensures
            final(self).wf(),
            final(self).slots() == old(self).slots().remove(id),
            final(self).textures() == old(self).textures().remove(id),
            final(self).memory() == total(final(self).slots()),
            final(self).frame() == old(self).frame(),
            final(self).limit() == old(self).limit(),
    {
        let ghost old_map = self.textures@;
        proof {
            assert(old_map.dom().finite());
            lemma_views_remove(old_map, id);
            if old_map.contains_key(id) {
                lemma_total_remove(slots_of(old_map), id);
            } else {
                assert(slots_of(old_map).remove(id) =~= slots_of(old_map));
            }
        }
        if let Some(tex) = self.textures.remove(&id) {
            self.gpu_memory_used = self.gpu_memory_used.saturating_sub(tex.size_bytes);
        }
    }

    /// Evict textures not used in the last `threshold` frames: those last
    /// used before the frame counter minus `threshold` (saturating at 0).
    pub fn evict_unused(&mut self, threshold: u64)
        requires
            old(self).wf(),
        ensures
            final(self).wf(),
            ({
                let cutoff = if old(self).frame() >= threshold { old(self).frame() - threshold } else { 0 };
                &&& forall|k: u64| #[trigger] final(self).slots().contains_key(k) <==> old(self).slots().contains_key(k)
                    && old(self).slots()[k].last_frame >= cutoff
                &&& forall|k: u64| #[trigger] final(self).slots().contains_key(k) ==> final(self).slots()[k] == old(self).slots()[k]
                    && final(self).textures()[k] == old(self).textures()[k]
            }),
            final(self).textures().dom() == final(self).slots().dom(),
            final(self).frame() == old(self).frame(),
            final(self).limit() == old(self).limit(),
    {
        let cutoff = self.frame_counter.saturating_sub(threshold);
        let ids = map_keys(&self.textures);
        let ghost m0 = self.textures@;
        let mut i: usize = 0;
        while i < ids.len()
            invariant
                i <= ids@.len(),
                ids@.to_set() == m0.dom(),
                ids@.no_duplicates(),
                self.wf(),
                self.frame_counter == old(self).frame_counter,
                self.gpu_memory_limit == old(self).gpu_memory_limit,
                m0 == old(self).textures@,
                cutoff == if old(self).frame() >= threshold { old(self).frame() - threshold } else { 0 },
                forall|k: u64| #[trigger] self.textures@.contains_key(k) <==> m0.contains_key(k) && !(
                    ids@.take(i as int).contains(k) && m0[k].last_frame < cutoff),
                forall|k: u64| #[trigger] self.textures@.contains_key(k) ==> self.textures@[k] == m0[k],
            decreases ids@.len() - i,
        {
            let id = ids[i];
            let ghost before = self.textures@;
            proof {
                assert(before.dom().finite());
                lemma_views_remove(before, id);
                assert(ids@.take(i as int + 1) =~= ids@.take(i as int).push(id));
                assert(!ids@.take(i as int).contains(id)) by {
                    if ids@.take(i as int).contains(id) {
                        let t0 = ids@.take(i as int);
                        let j = choose|j: int| 0 <= j < t0.len() && #[trigger] t0[j] == id;
                        assert(ids@[j] == ids@[i as int]);
                    }
                }
                assert(ids@.to_set().contains(id));
            }
            let old_entry = match self.textures.get(&id) {
                Some(tex) => tex.last_frame < cutoff,
                None => false,
            };
            if old_entry {
                proof {
                    lemma_total_remove(slots_of(before), id);
                }
                if let Some(tex) = self.textures.remove(&id) {
                    self.gpu_memory_used = self.gpu_memory_used.saturating_sub(tex.size_bytes);
                }
            }
            proof {
                assert(before.contains_key(id) && before[id] == m0[id]);
                assert(old_entry == (m0[id].last_frame < cutoff));
                assert forall|k: u64| #[trigger] self.textures@.contains_key(k) <==> m0.contains_key(k) && !(
                    ids@.take(i as int + 1).contains(k) && m0[k].last_frame < cutoff) by {
                    if k != id {
                        assert(ids@.take(i as int + 1).contains(k) == ids@.take(i as int).contains(k)) by {
                            if ids@.take(i as int + 1).contains(k) {
                                let t1 = ids@.take(i as int + 1);
                                let j = choose|j: int| 0 <= j < t1.len() && #[trigger] t1[j] == k;
                                assert(ids@.take(i as int)[j] == k);
                            }
                            if ids@.take(i as int).contains(k) {
                                let t0 = ids@.take(i as int);
                                let j = choose|j: int| 0 <= j < t0.len() && #[trigger] t0[j] == k;
                                assert(ids@.take(i as int + 1)[j] == k);
                            }
                        }
                    } else {
                        assert(ids@.take(i as int + 1)[i as int] == id);
                    }
                }
            }
            i = i + 1;
        }
        proof {
            assert(ids@.take(ids@.len() as int) =~= ids@);
            assert forall|k: u64| #[trigger] self.slots().contains_key(k) <==> old(self).slots().contains_key(k)
                && old(self).slots()[k].last_frame >= cutoff by {
                lemma_views_remove(self.textures@, k);
                lemma_views_remove(m0, k);
                if m0.contains_key(k) {
                    assert(ids@.to_set().contains(k));
                }
            }
            assert forall|k: u64| #[trigger] self.slots().contains_key(k) implies self.slots()[k] == old(self).slots()[k]
                && self.textures()[k] == old(self).textures()[k] by {
                lemma_views_remove(self.textures@, k);
            }
            lemma_views_remove(self.textures@, 0);
            assert(self.textures().dom() =~= self.slots().dom());
        }
    }

    /// Evict the least recently used textures until memory is under the
    /// limit (or nothing is left).
    ///
    /// Textures are removed one at a time, each time one not used more
    /// recently than any other; which of several equally old textures goes
    /// first is left open.
    pub fn evict_over_limit(&mut self)
        requires
            old(self).wf(),
        ensures
            final(self).wf(),
            evicted_lru(old(self).slots(), final(self).slots(), old(self).limit()),
            forall|k: u64| #[trigger] final(self).textures().contains_key(k) ==> old(self).textures().contains_key(k)
                && final(self).textures()[k] == old(self).textures()[k],
            final(self).textures().dom() == final(self).slots().dom(),
            final(self).frame() == old(self).frame(),
            final(self).limit() == old(self).limit(),
    {
        let ghost s0 = self.slots();
        let ghost m0 = self.textures@;
        proof {
            lemma_views_remove(m0, 0);
            assert(m0.dom().finite());
        }
        while self.gpu_memory_used > self.gpu_memory_limit && self.textures.len() > 0
            invariant
                self.wf(),
                self.frame_counter == old(self).frame_counter,
                self.gpu_memory_limit == old(self).gpu_memory_limit,
                s0 == old(self).slots(),
                m0 == old(self).textures@,
                s0.dom() == m0.dom(),
                m0.dom().finite(),
                evicted_lru_step(s0, self.slots(), self.gpu_memory_limit),
                forall|k: u64| #[trigger] self.textures@.contains_key(k) ==> m0.contains_key(k) && self.textures@[k] == m0[k],
            decreases self.textures@.len(),
        {
            let ghost before = self.textures@;
            proof {
                assert(before.dom().finite());
                lemma_views_remove(before, 0);
            }
            let ids = map_keys(&self.textures);
            proof {
                ids@.unique_seq_to_set();
                assert(ids@.len() > 0);
            }
            // Find the least recently used texture.
            let mut oldest: usize = 0;
            let mut oldest_frame: u64 = match self.textures.get(&ids[0]) {
                Some(t) => t.last_frame,
                None => 0,
            };
            proof {
                assert(ids@.to_set().contains(ids@[0]));
            }
            let mut j: usize = 1;
            while j < ids.len()
                invariant
                    self.textures@ == before,
                    ids@.to_set() == before.dom(),
                    1 <= j <= ids@.len(),
                    oldest < ids@.len(),
                    before.contains_key(ids@[oldest as int]),
                    oldest_frame == before[ids@[oldest as int]].last_frame,
                    forall|q: int| 0 <= q < j ==> oldest_frame <= before[#[trigger] ids@[q]].last_frame,
                decreases ids@.len() - j,
            {
                proof {
                    assert(ids@.to_set().contains(ids@[j as int]));
                }
                let f = match self.textures.get(&ids[j]) {
                    Some(t) => t.last_frame,
                    None => 0,
                };
                if f < oldest_frame {
                    oldest = j;
                    oldest_frame = f;
                }
                j = j + 1;
            }
            let id = ids[oldest];
            proof {
                lemma_total_remove(slots_of(before), id);
                lemma_views_remove(before, id);
                assert forall|k: u64| #[trigger] before.contains_key(k) implies oldest_frame <= before[k].last_frame by {
                    assert(ids@.to_set().contains(k));
                    let q = choose|q: int| 0 <= q < ids@.len() && ids@[q] == k;
                    assert(oldest_frame <= before[ids@[q]].last_frame);
                }
                lemma_evict_step(s0, slots_of(before), self.gpu_memory_limit, id);
            }
            if let Some(tex) = self.textures.remove(&id) {
                self.gpu_memory_used = self.gpu_memory_used.saturating_sub(tex.size_bytes);
            }
        }
        proof {
            lemma_views_remove(self.textures@, 0);
            assert(self.textures().dom() =~= self.slots().dom());
            assert forall|k: u64| #[trigger] self.textures().contains_key(k) implies old(self).textures().contains_key(k)
                && self.textures()[k] == old(self).textures()[k] by {
                lemma_views_remove(m0, k);
            }
            if self.textures@.len() == 0 {
                assert(self.textures@.dom() =~= Set::<u64>::empty());
                assert(self.slots().dom() =~= Set::<u64>::empty());
            }
        }
    }

    /// Update the memory limit, then evict if currently over it.
    pub fn set_gpu_memory_limit(&mut self, limit: usize)
        requires
            old(self).wf(),
        ensures
            final(self).wf(),
            final(self).limit() == limit,
            evicted_lru(old(self).slots(), final(self).slots(), limit),
            forall|k: u64| #[trigger] final(self).textures().contains_key(k) ==> old(self).textures().contains_key(k)
                && final(self).textures()[k] == old(self).textures()[k],
            final(self).textures().dom() == final(self).slots().dom(),
            final(self).frame() == old(self).frame(),
    {
        self.gpu_memory_limit = limit;
        self.evict_over_limit();
    }

    /// Total memory used by image textures.
    pub fn gpu_memory_used(&self) -> (n: usize)
        ensures
            n == self.memory(),
    {
        self.gpu_memory_used
    }

    /// Number of textures currently cached.
    pub fn texture_count(&self) -> (n: usize)
        ensures
            n == self.slots().len(),
    {
        proof {
            lemma_views_remove(self.textures@, 0);
        }
        self.textures.len()
    }
}

} // verus!
