//! Layer compositor support: which pooled render target each layer draws
//! into, uniform alignment, and the render target pool itself.
//!
//! Layers with non-identity opacity or transform render into offscreen
//! targets taken from a [`RenderTargetPool`]; the compositor keeps one
//! assignment per layer and hands targets back to the pool when a layer is
//! released or grows past its target.

pub mod composition_pass;
pub mod render_target_pool;

use std::collections::HashMap;
use vstd::prelude::*;

use self::render_target_pool::{first_free, lemma_first_free, spec_bucket, EntryView, PooledTargetId, RenderTargetPool};
use crate::gpu::image_render::map_keys;

verus! {

broadcast use vstd::std_specs::hash::group_hash_axioms;

/// Index of the entry an acquisition of a `bw`×`bh` bucket uses: the first
/// free entry of that size, else a new one at the end.
pub open spec fn acquired_index(es: Seq<EntryView>, bw: u32, bh: u32) -> int {
    match first_free(es, bw, bh) {
        Some(i) => i,
        None => es.len() as int,
    }
}

/// The pool's entries after an acquisition of a `bw`×`bh` bucket.
pub open spec fn after_acquire(es: Seq<EntryView>, bw: u32, bh: u32) -> Seq<EntryView> {
    match first_free(es, bw, bh) {
        Some(i) => es.update(i, EntryView { width: bw, height: bh, in_use: true }),
        None => es.push(EntryView { width: bw, height: bh, in_use: true }),
    }
}

/// Every layer's target is an entry in use, no two layers share one, and
/// every entry in use belongs to a layer.
pub open spec fn assign_ok(t: Map<u64, PooledTargetId>, es: Seq<EntryView>) -> bool {
    &&& forall|l: u64| #[trigger] t.contains_key(l) ==> t[l].0 < es.len() && es[t[l].0 as int].in_use
    &&& forall|l1: u64, l2: u64| t.contains_key(l1) && t.contains_key(l2) && l1 != l2 ==> #[trigger] t[l1] != #[trigger] t[l2]
    &&& forall|i: int| 0 <= i < es.len() && (#[trigger] es[i]).in_use ==> exists|l: u64| t.contains_key(l) && #[trigger] t[l].0 == i
}

/// Releasing one layer's target keeps the assignment consistent.
proof fn lemma_assign_release(t: Map<u64, PooledTargetId>, es: Seq<EntryView>, l: u64)
    requires
        assign_ok(t, es),
        t.contains_key(l),
    ensures
        assign_ok(t.remove(l), es.update(t[l].0 as int, EntryView { in_use: false, ..es[t[l].0 as int] })),
{
    let o = t[l].0 as int;
    let t2 = t.remove(l);
    let es2 = es.update(o, EntryView { in_use: false, ..es[o] });
    assert forall|l2: u64| #[trigger] t2.contains_key(l2) implies t2[l2].0 < es2.len() && es2[t2[l2].0 as int].in_use by {
        assert(t[l2] != t[l]);
    }
    assert forall|i: int| 0 <= i < es2.len() && (#[trigger] es2[i]).in_use implies exists|l2: u64|
        t2.contains_key(l2) && #[trigger] t2[l2].0 == i by {
        assert(es[i].in_use);
        let l2 = choose|l2: u64| t.contains_key(l2) && #[trigger] t[l2].0 == i;
        assert(l2 != l);
        assert(t2.contains_key(l2) && t2[l2].0 == i);
    }
}

/// Acquiring a target for a layer without one keeps the assignment
/// consistent.
proof fn lemma_assign_acquire(t: Map<u64, PooledTargetId>, es: Seq<EntryView>, l: u64, bw: u32, bh: u32)
    requires
        assign_ok(t, es),
        !t.contains_key(l),
    ensures
        acquired_index(es, bw, bh) <= usize::MAX ==> assign_ok(
            t.insert(l, PooledTargetId(acquired_index(es, bw, bh) as usize)),
            after_acquire(es, bw, bh),
        ),
{
    let idx = acquired_index(es, bw, bh);
    if idx <= usize::MAX {
        lemma_first_free(es, bw, bh);
        let t2 = t.insert(l, PooledTargetId(idx as usize));
        let es2 = after_acquire(es, bw, bh);
        assert(0 <= idx <= es.len());
        assert(idx < es.len() ==> !es[idx].in_use);
        assert(es2.len() == if idx < es.len() { es.len() } else { es.len() + 1 });
        assert(es2[idx].in_use);
        assert forall|l2: u64| #[trigger] t2.contains_key(l2) implies t2[l2].0 < es2.len() && es2[t2[l2].0 as int].in_use by {
            if l2 != l {
                assert(t2[l2] == t[l2]);
                assert(t[l2].0 != idx);
            }
        }
        assert forall|l1: u64, l2: u64| t2.contains_key(l1) && t2.contains_key(l2) && l1 != l2 implies #[trigger] t2[l1]
            != #[trigger] t2[l2] by {
            if l1 == l {
                assert(t[l2].0 != idx);
            } else if l2 == l {
                assert(t[l1].0 != idx);
            }
        }
        assert forall|i: int| 0 <= i < es2.len() && (#[trigger] es2[i]).in_use implies exists|l2: u64|
            t2.contains_key(l2) && #[trigger] t2[l2].0 == i by {
            if i == idx {
                assert(t2.contains_key(l) && t2[l].0 == i);
            } else {
                assert(es2[i] == es[i]);
                let l2 = choose|l2: u64| t.contains_key(l2) && #[trigger] t[l2].0 == i;
                assert(t2.contains_key(l2) && t2[l2].0 == i);
            }
        }
    }
}

/// A layer's pooled target and the bind group that samples it.
struct TextureAssignment<B> {
    target_id: PooledTargetId,
    bind_group: B,
}

/// Request to ensure a layer has a render target of at least the given size.
#[derive(Debug, Clone, Copy, PartialEq, Eq, Structural)]
pub struct LayerTargetRequest {
    /// The layer needing a target.
    pub layer_id: u64,
    /// Required width in physical pixels.
    pub width: u32,
    /// Required height in physical pixels.
    pub height: u32,
}

/// Assigns pooled render targets to compositor layers.
///
/// Generic over the texture `T` the pool holds and the bind group `B` that
/// samples it; the caller supplies how each is created.
pub struct GpuCompositor<T, B> {
    pool: RenderTargetPool<T>,
    layer_textures: HashMap<u64, TextureAssignment<B>>,
}

impl<T, B> GpuCompositor<T, B> {
    /// The target assigned to each layer.
    pub closed spec fn targets(&self) -> Map<u64, PooledTargetId> {
        self.layer_textures@.map_values(|a: TextureAssignment<B>| a.target_id)
    }

    /// The bind group of each layer's target.
    pub closed spec fn bind_groups(&self) -> Map<u64, B> {
        self.layer_textures@.map_values(|a: TextureAssignment<B>| a.bind_group)
    }

    /// Size and usage of each pooled target.
    pub closed spec fn pool_entries(&self) -> Seq<EntryView> {
        self.pool.entries()
    }

    /// The texture of each pooled target.
    pub closed spec fn pool_textures(&self) -> Seq<T> {
        self.pool.textures()
    }

    /// Assignment invariant: every layer's target is a pooled target in use,
    /// no two layers share a target, and every target in use belongs to a
    /// layer.
    pub closed spec fn wf(&self) -> bool {
        assign_ok(self.targets(), self.pool.entries())
    }

    /// Create a compositor with an empty pool and no layer targets.
    pub fn new() -> (c: Self)
        ensures
            c.wf(),
            c.targets() == Map::<u64, PooledTargetId>::empty(),
            c.pool_entries().len() == 0,
    {
        let c = GpuCompositor { pool: RenderTargetPool::new(), layer_textures: HashMap::new() };
        proof {
            assert(c.targets() =~= Map::<u64, PooledTargetId>::empty());
        }
        c
    }

    /// The pooled texture a layer renders into, if it has one.
    pub fn layer_target(&self, layer_id: u64) -> (t: Option<&T>)
        requires
            self.wf(),
        ensures
            match t {
                Some(t) => self.targets().contains_key(layer_id) && *t == self.pool_textures()[self.targets()[layer_id].0 as int],
                None => !self.targets().contains_key(layer_id),
            },
    {
        match self.layer_textures.get(&layer_id) {
            Some(a) => {
                proof {
                    assert(self.targets().contains_key(layer_id));
                }
                Some(self.pool.texture(a.target_id))
            },
            None => None,
        }
    }

    /// The bind group sampling a layer's target, if it has one.
    pub fn layer_bind_group(&self, layer_id: u64) -> (b: Option<&B>)
        ensures
            match b {
                Some(b) => self.bind_groups().contains_key(layer_id) && *b == self.bind_groups()[layer_id],
                None => !self.bind_groups().contains_key(layer_id),
            },
    {
        match self.layer_textures.get(&layer_id) {
            Some(a) => Some(&a.bind_group),
            None => None,
        }
    }

    /// The underlying render target pool.
    pub fn pool(&self) -> (p: &RenderTargetPool<T>)
        ensures
            p.entries() == self.pool_entries(),
            p.textures() == self.pool_textures(),
    {
        &self.pool
    }

    /// Ensure a layer has a render target of at least the requested size.
    ///
    /// Keeps the layer's current target when it is large enough. Otherwise
    /// releases it (if any), acquires a target of the bucketed size from the
    /// pool (calling `create` when the pool has none free) and makes its bind
    /// group with `bind`.
    pub fn ensure_layer_target<F: FnOnce(u32, u32) -> T, G: FnOnce(&T) -> B>(
        &mut self,
        req: &LayerTargetRequest,
        create: F,
        bind: G,
    )
        requires
            old(self).wf(),
            req.width <= 0x8000_0000,
            req.height <= 0x8000_0000,
            call_requires(create, (spec_bucket(req.width) as u32, spec_bucket(req.height) as u32)),
            forall|t: &T| call_requires(bind, (t,)),
        ensures
            final(self).wf(),
            ({
                let l = req.layer_id;
                let t = old(self).targets();
                let es = old(self).pool_entries();
                if t.contains_key(l) && es[t[l].0 as int].width >= req.width && es[t[l].0 as int].height >= req.height {
                    &&& final(self).targets() == t
                    &&& final(self).bind_groups() == old(self).bind_groups()
                    &&& final(self).pool_entries() == es
                    &&& final(self).pool_textures() == old(self).pool_textures()
                } else {
                    let es1 = if t.contains_key(l) {
                        es.update(t[l].0 as int, (EntryView { in_use: false, ..es[t[l].0 as int] }))
                    } else {
                        es
                    };
                    let bw = spec_bucket(req.width) as u32;
                    let bh = spec_bucket(req.height) as u32;
                    let idx = acquired_index(es1, bw, bh);
                    &&& final(self).pool_entries() == after_acquire(es1, bw, bh)
                    &&& final(self).targets() == t.insert(l, PooledTargetId(idx as usize))
                    &&& final(self).bind_groups().remove(l) == old(self).bind_groups().remove(l)
                    &&& final(self).bind_groups().contains_key(l)
                    &&& call_ensures(bind, (&final(self).pool_textures()[idx],), final(self).bind_groups()[l])
                    &&& if idx < es1.len() {
                        final(self).pool_textures() == old(self).pool_textures()
                    } else {
                        &&& final(self).pool_textures().drop_last() == old(self).pool_textures()
                        &&& call_ensures(create, (bw, bh), final(self).pool_textures().last())
                    }
                }
            }),
    {
        let l = req.layer_id;
        let ghost t0 = self.targets();
        let ghost es0 = self.pool.entries();
        let ghost b0 = self.bind_groups();
        let existing = match self.layer_textures.get(&l) {
            Some(a) => Some(a.target_id),
            None => None,
        };
        if let Some(old_id) = existing {
            proof {
                assert(t0.contains_key(l) && t0[l] == old_id);
            }
            let (ew, eh) = self.pool.size(old_id);
            if ew >= req.width && eh >= req.height {
                return;
            }
            self.pool.release(old_id);
            proof {
                lemma_assign_release(t0, es0, l);
            }
        }
        proof {
            if !t0.contains_key(l) {
                assert(t0.remove(l) =~= t0);
            }
        }
        let ghost es1 = self.pool.entries();
        proof {
            lemma_first_free(es1, spec_bucket(req.width) as u32, spec_bucket(req.height) as u32);
        }
        let target_id = self.pool.acquire(req.width, req.height, create);
        proof {
            self.pool.lemma_views_len();
            lemma_assign_acquire(t0.remove(l), es1, l, spec_bucket(req.width) as u32, spec_bucket(req.height) as u32);
        }
        let bind_group = bind(self.pool.texture(target_id));
        let ghost m0 = self.layer_textures@;
        self.layer_textures.insert(l, TextureAssignment { target_id, bind_group });
        proof {
            assert(self.targets() =~= t0.insert(l, target_id));
            assert(t0.remove(l).insert(l, target_id) =~= t0.insert(l, target_id));
            assert(self.bind_groups().remove(l) =~= b0.remove(l));
            assert(target_id.0 == acquired_index(es1, spec_bucket(req.width) as u32, spec_bucket(req.height) as u32));
            assert(self.pool.entries() == after_acquire(es1, spec_bucket(req.width) as u32, spec_bucket(req.height) as u32));
            assert(assign_ok(self.targets(), self.pool.entries()));
            assert(es1 == if t0.contains_key(l) {
                es0.update(t0[l].0 as int, (EntryView { in_use: false, ..es0[t0[l].0 as int] }))
            } else {
                es0
            });
        }
    }

    /// Release a layer's render target back to the pool.
    pub fn release_layer_target(&mut self, layer_id: u64)
        requires
            old(self).wf(),
        ensures
            final(self).wf(),
            final(self).targets() == old(self).targets().remove(layer_id),
            final(self).bind_groups() == old(self).bind_groups().remove(layer_id),
            final(self).pool_entries() == if old(self).targets().contains_key(layer_id) {
                let o = old(self).targets()[layer_id].0 as int;
                old(self).pool_entries().update(o, (EntryView { in_use: false, ..old(self).pool_entries()[o] }))
            } else {
                old(self).pool_entries()
            },
            final(self).pool_textures() == old(self).pool_textures(),
    {
        let ghost t0 = self.targets();
        let ghost es0 = self.pool.entries();
        let ghost m0 = self.layer_textures@;
        if let Some(assignment) = self.layer_textures.remove(&layer_id) {
            proof {
                assert(t0.contains_key(layer_id) && t0[layer_id] == assignment.target_id);
                lemma_assign_release(t0, es0, layer_id);
            }
            self.pool.release(assignment.target_id);
        }
        proof {
            assert(self.targets() =~= t0.remove(layer_id));
            assert(self.bind_groups() =~= m0.map_values(|a: TextureAssignment<B>| a.bind_group).remove(layer_id));
            if t0.contains_key(layer_id) {
                assert(self.pool.entries() == es0.update(
                    t0[layer_id].0 as int,
                    (EntryView { in_use: false, ..es0[t0[layer_id].0 as int] }),
                ));
            } else {
                assert(self.pool.entries() == es0);
                assert(t0.remove(layer_id) =~= t0);
            }
            assert(assign_ok(self.targets(), self.pool.entries()));
        }
    }

    /// Release every layer's target and forget all assignments.
    pub fn clear_layer_targets(&mut self)
        requires
            old(self).wf(),
        ensures
            final(self).wf(),
            final(self).targets() == Map::<u64, PooledTargetId>::empty(),
            final(self).bind_groups() == Map::<u64, B>::empty(),
            final(self).pool_entries().len() == old(self).pool_entries().len(),
            forall|i: int| 0 <= i < old(self).pool_entries().len() ==> #[trigger] final(self).pool_entries()[i] == (EntryView {
                in_use: false,
                ..old(self).pool_entries()[i]
            }),
            final(self).pool_textures() == old(self).pool_textures(),
    {
        let ghost t0 = self.targets();
        let ghost es0 = self.pool.entries();
        let keys = map_keys(&self.layer_textures);
        let mut k: usize = 0;
        while k < keys.len()
            invariant
                k <= keys@.len(),
                keys@.to_set() == t0.dom(),
                keys@.no_duplicates(),
                self.targets() == t0,
                assign_ok(t0, es0),
                self.pool.entries().len() == es0.len(),
                self.pool.textures() == old(self).pool_textures(),
                forall|i: int| 0 <= i < es0.len() ==> #[trigger] self.pool.entries()[i] == (EntryView {
                    in_use: es0[i].in_use && !(exists|j: int| 0 <= j < k && t0[#[trigger] keys@[j]].0 == i),
                    ..es0[i]
                }),
            decreases keys@.len() - k,
        {
            let id = match self.layer_textures.get(&keys[k]) {
                Some(a) => a.target_id,
                None => PooledTargetId(0),
            };
            proof {
                assert(keys@.to_set().contains(keys@[k as int]));
                assert(t0.contains_key(keys@[k as int]) && t0[keys@[k as int]] == id);
            }
            let ghost before = self.pool.entries();
            self.pool.release(id);
            proof {
                assert forall|i: int| 0 <= i < es0.len() implies #[trigger] self.pool.entries()[i] == EntryView {
                    in_use: es0[i].in_use && !(exists|j: int| 0 <= j < k + 1 && t0[#[trigger] keys@[j]].0 == i),
                    ..es0[i]
                } by {
                    if i == id.0 {
                        assert(t0[keys@[k as int]].0 == i);
                    } else {
                        assert((exists|j: int| 0 <= j < k + 1 && t0[#[trigger] keys@[j]].0 == i) == (exists|j: int|
                            0 <= j < k && t0[#[trigger] keys@[j]].0 == i));
                    }
                }
            }
            k = k + 1;
        }
        self.layer_textures.clear();
        proof {
            assert(self.targets() =~= Map::<u64, PooledTargetId>::empty());
            assert(self.bind_groups() =~= Map::<u64, B>::empty());
            assert forall|i: int| 0 <= i < es0.len() implies !(#[trigger] self.pool.entries()[i]).in_use by {
                if es0[i].in_use {
                    let l = choose|l: u64| t0.contains_key(l) && #[trigger] t0[l].0 == i;
                    assert(keys@.to_set().contains(l));
                    let j = choose|j: int| 0 <= j < keys@.len() && keys@[j] == l;
                    assert(t0[keys@[j]].0 == i);
                }
            }
        }
    }

    /// Reclaim the pooled textures no layer uses.
    ///
    /// Must only be called once no layer holds a target (after
    /// [`clear_layer_targets`](Self::clear_layer_targets)): the pool compacts
    /// its entries, which would invalidate stored target handles.
    pub fn trim_pool(&mut self)
        requires
            old(self).wf(),
            old(self).targets() == Map::<u64, PooledTargetId>::empty(),
        ensures
            final(self).wf(),
            final(self).targets() == old(self).targets(),
            final(self).bind_groups() == old(self).bind_groups(),
            final(self).pool_entries().len() == 0,
            final(self).pool_textures().len() == 0,
    {
        proof {
            assert forall|i: int| 0 <= i < self.pool.entries().len() implies !(#[trigger] self.pool.entries()[i]).in_use by {
                if self.pool.entries()[i].in_use {
                    let l = choose|l: u64| self.targets().contains_key(l) && #[trigger] self.targets()[l].0 == i;
                }
            }
        }
        self.pool.trim();
        proof {
            self.pool.lemma_views_len();
        }
    }

    /// No two layers render into the same pooled target, and each layer's
    /// target is one the pool has marked in use.
    pub proof fn law_targets_exclusive(&self)
        requires
            self.wf(),
        ensures
            forall|l1: u64, l2: u64|
                self.targets().contains_key(l1) && self.targets().contains_key(l2) && l1 != l2 ==> #[trigger] self.targets()[l1]
                    != #[trigger] self.targets()[l2],
            forall|l: u64| #[trigger] self.targets().contains_key(l) ==> self.targets()[l].0 < self.pool_entries().len()
                && self.pool_entries()[self.targets()[l].0 as int].in_use,
    {
    }
}

} // verus!
