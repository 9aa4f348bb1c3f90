//! Pooled render target allocation with power-of-two bucketing.
//!
//! [`RenderTargetPool`] manages offscreen textures used as layer render
//! targets. Textures are reused across frames to avoid per-frame allocation.
//! Dimensions are rounded up to power-of-two buckets (minimum 256) to maximize
//! reuse when layer sizes vary slightly. The pool is generic over the texture
//! payload; the caller supplies how a texture of a given size is created.

use vstd::prelude::*;

verus! {

/// The first of `p`, `2p`, `4p`, ... that is at least `m`.
pub open spec fn double_until(p: nat, m: nat) -> nat
    decreases m - p,
    when p > 0
{
    if p >= m {
        p
    } else if 2 * p >= m {
        2 * p
    } else {
        double_until(2 * p, m)
    }
}

/// Whether `n` is a power of two.
pub open spec fn is_pow2(n: nat) -> bool
    decreases n,
{
    if n == 1 {
        true
    } else if n == 0 || n % 2 == 1 {
        false
    } else {
        is_pow2(n / 2)
    }
}

/// Bucketed size: the smallest power of two that is at least `size` and 256.
pub open spec fn spec_bucket(size: u32) -> nat {
    double_until(256, size as nat)
}

proof fn lemma_double_until(p: nat, m: nat)
    requires
        p > 0,
        is_pow2(p),
    ensures
        double_until(p, m) >= m,
        double_until(p, m) >= p,
        is_pow2(double_until(p, m)),
        double_until(p, m) == p || double_until(p, m) < 2 * m,
    decreases m - p,
{
    if p < m && 2 * p < m {
        assert((2 * p) % 2 == 0);
        assert((2 * p) / 2 == p);
        lemma_double_until(2 * p, m);
    }
}

/// Round a dimension up to the next power-of-two bucket (minimum 256).
pub fn round_up_to_bucket(size: u32) -> (r: u32)
    requires
        size <= 0x8000_0000,
    ensures
        r == spec_bucket(size),
        r >= size,
        r >= 256,
        is_pow2(r as nat),
        r == 256 || r < 2 * size,
{
    proof {
        reveal_with_fuel(is_pow2, 10);
        assert(is_pow2(256));
        lemma_double_until(256, size as nat);
    }
    let mut p: u32 = 256;
    while p < size
        invariant
            256 <= p,
            size <= 0x8000_0000,
            is_pow2(p as nat),
            double_until(p as nat, size as nat) == spec_bucket(size),
            p < 2 * (size as int) || p == 256,
        decreases 0x1_0000_0000 - p,
    {
        proof {
            assert((2 * p) as nat % 2 == 0);
            assert((2 * p) as nat / 2 == p as nat);
        }
        p = p * 2;
    }
    p
}

/// Handle to a pooled render target.
///
/// Obtained from [`RenderTargetPool::acquire`], used to access the texture
/// and release the target back to the pool when done.
#[derive(Debug, Clone, Copy, PartialEq, Eq, Structural, Hash)]
pub struct PooledTargetId(pub usize);

/// Size and usage of one pooled texture.
pub struct EntryView {
    pub width: u32,
    pub height: u32,
    pub in_use: bool,
}

/// Internal entry tracking a single pooled texture.
struct PoolEntry<T> {
    texture: T,
    /// Allocated width (power-of-two bucketed).
    width: u32,
    /// Allocated height (power-of-two bucketed).
    height: u32,
    /// Whether this entry is currently in use by a layer.
    in_use: bool,
}

/// A pool of reusable offscreen render target textures.
pub struct RenderTargetPool<T> {
    entries: Vec<PoolEntry<T>>,
}

/// Number of entries in use.
pub open spec fn count_in_use(es: Seq<EntryView>) -> nat
    decreases es.len(),
{
    if es.len() == 0 {
        0
    } else {
        count_in_use(es.drop_last()) + if es.last().in_use { 1nat } else { 0nat }
    }
}

/// The entries still in use, in order.
pub open spec fn keep_in_use(es: Seq<EntryView>) -> Seq<EntryView>
    decreases es.len(),
{
    if es.len() == 0 {
        Seq::empty()
    } else if es.last().in_use {
        keep_in_use(es.drop_last()).push(es.last())
    } else {
        keep_in_use(es.drop_last())
    }
}

/// Index of the first free entry of exactly `w`×`h`, if any.
pub open spec fn first_free(es: Seq<EntryView>, w: u32, h: u32) -> Option<int>
    decreases es.len(),
{
    if es.len() == 0 {
        None
    } else {
        match first_free(es.drop_last(), w, h) {
            Some(i) => Some(i),
            None => if !es.last().in_use && es.last().width == w && es.last().height == h {
                Some(es.len() - 1)
            } else {
                None
            },
        }
    }
}


proof fn lemma_first_free_prefix(es: Seq<EntryView>, k: int, w: u32, h: u32)
    requires
        0 <= k <= es.len(),
        first_free(es.take(k), w, h) is Some,
    ensures
        first_free(es, w, h) == first_free(es.take(k), w, h),
    decreases es.len() - k,
{
    if k < es.len() {
        assert(es.take(k + 1).drop_last() =~= es.take(k));
        lemma_first_free_prefix(es, k + 1, w, h);
    } else {
        assert(es.take(k) =~= es);
    }
}

/// The first free entry of a size is free and of that size.
pub proof fn lemma_first_free(es: Seq<EntryView>, w: u32, h: u32)
    ensures
        first_free(es, w, h) matches Some(i) ==> 0 <= i < es.len() && !es[i].in_use && es[i].width == w && es[i].height == h,
    decreases es.len(),
{
    if es.len() > 0 {
        lemma_first_free(es.drop_last(), w, h);
    }
}

/// With nothing in use, nothing is kept.
proof fn lemma_keep_none(es: Seq<EntryView>)
    requires
        forall|i: int| 0 <= i < es.len() ==> !(#[trigger] es[i]).in_use,
    ensures
        keep_in_use(es).len() == 0,
    decreases es.len(),
{
    if es.len() > 0 {
        assert forall|i: int| 0 <= i < es.drop_last().len() implies !(#[trigger] es.drop_last()[i]).in_use by {
            assert(es.drop_last()[i] == es[i]);
        }
        lemma_keep_none(es.drop_last());
        assert(!es[es.len() - 1].in_use);
    }
}

impl<T> RenderTargetPool<T> {
    /// Size and usage of each pooled texture, in allocation order.
    pub closed spec fn entries(&self) -> Seq<EntryView> {
        self.entries@.map_values(|e: PoolEntry<T>| EntryView { width: e.width, height: e.height, in_use: e.in_use })
    }

    /// The texture of each entry, in allocation order.
    pub closed spec fn textures(&self) -> Seq<T> {
        self.entries@.map_values(|e: PoolEntry<T>| e.texture)
    }

    /// There is one texture per entry.
    pub proof fn lemma_views_len(&self)
        ensures
            self.textures().len() == self.entries().len(),
    {
    }

    /// Creates an empty pool.
    pub fn new() -> (p: Self)
        ensures
            p.entries().len() == 0,
    {
        RenderTargetPool { entries: Vec::new() }
    }

    /// Acquires a render target of at least `width`×`height` pixels.
    ///
    /// Dimensions are rounded up to power-of-two buckets (minimum 256).
    /// Reuses the first unused target of that bucket size if one exists;
    /// otherwise calls `create` with the bucket size and pools the texture it
    /// returns.
    pub fn acquire<F: FnOnce(u32, u32) -> T>(&mut self, width: u32, height: u32, create: F) -> (id: PooledTargetId)
        requires
            width <= 0x8000_0000,
            height <= 0x8000_0000,
            call_requires(create, (spec_bucket(width) as u32, spec_bucket(height) as u32)),
        ensures
            ({
                let bw = spec_bucket(width) as u32;
                let bh = spec_bucket(height) as u32;
                match first_free(old(self).entries(), bw, bh) {
                    Some(i) => id.0 == i && final(self).entries() == old(self).entries().update(
                        i,
                        EntryView { width: bw, height: bh, in_use: true },
                    ) && final(self).textures() == old(self).textures(),
                    None => id.0 == old(self).entries().len() && final(self).entries() == old(self).entries().push(
                        EntryView { width: bw, height: bh, in_use: true },
                    ) && final(self).textures().drop_last() == old(self).textures() && call_ensures(
                        create,
                        (bw, bh),
                        final(self).textures().last(),
                    ),
                }
            }),
    {
        let bw = round_up_to_bucket(width);
        let bh = round_up_to_bucket(height);
        let ghost es = self.entries();
        let mut i: usize = 0;
        proof {
            assert(es.take(0) =~= Seq::<EntryView>::empty());
        }
        while i < self.entries.len()
            invariant
                i <= self.entries@.len(),
                es == self.entries(),
                self.entries@ == old(self).entries@,
                bw == spec_bucket(width),
                bh == spec_bucket(height),
                first_free(es.take(i as int), bw, bh) is None,
            decreases self.entries.len() - i,
        {
            proof {
                assert(es.take(i + 1).drop_last() =~= es.take(i as int));
                assert(es.take(i + 1).last() == es[i as int]);
            }
            let e = &self.entries[i];
            if !e.in_use && e.width == bw && e.height == bh {
                proof {
                    assert(es[i as int] == EntryView { width: e.width, height: e.height, in_use: e.in_use });
                    assert(first_free(es.take(i + 1), bw, bh) == Some(i as int));
                    lemma_first_free_prefix(es, i as int + 1, bw, bh);
                }
                self.entries[i].in_use = true;
                proof {
                    assert(self.entries() =~= es.update(i as int, EntryView { width: bw, height: bh, in_use: true }));
                    assert(self.textures() =~= old(self).textures());
                }
                return PooledTargetId(i);
            }
            i = i + 1;
        }
        proof {
            assert(es.take(i as int) =~= es);
        }
        let texture = create(bw, bh);
        let id = PooledTargetId(self.entries.len());
        self.entries.push(PoolEntry { texture, width: bw, height: bh, in_use: true });
        proof {
            assert(self.entries() =~= es.push(EntryView { width: bw, height: bh, in_use: true }));
            assert forall|k: int| 0 <= k < old(self).entries@.len() implies self.textures().drop_last()[k]
                == old(self).textures()[k] by {
                assert(self.entries@[k] == old(self).entries@[k]);
            }
            assert(self.textures().drop_last() =~= old(self).textures());
        }
        id
    }

    /// Returns the pooled texture (render attachment and sampler source).
    pub fn texture(&self, id: PooledTargetId) -> (t: &T)
        requires
            id.0 < self.entries().len(),
        ensures
            *t == self.textures()[id.0 as int],
    {
        &self.entries[id.0].texture
    }

    /// Returns the allocated (bucketed) dimensions of the target.
    pub fn size(&self, id: PooledTargetId) -> (wh: (u32, u32))
        requires
            id.0 < self.entries().len(),
        ensures
            wh == (self.entries()[id.0 as int].width, self.entries()[id.0 as int].height),
    {
        let e = &self.entries[id.0];
        (e.width, e.height)
    }

    /// Releases a render target back to the pool for reuse.
    pub fn release(&mut self, id: PooledTargetId)
        requires
            id.0 < old(self).entries().len(),
        ensures
            final(self).entries() == old(self).entries().update(
                id.0 as int,
                EntryView { in_use: false, ..old(self).entries()[id.0 as int] },
            ),
            final(self).textures() == old(self).textures(),
    {
        self.entries[id.0].in_use = false;
        proof {
            assert(self.entries() =~= old(self).entries().update(
                id.0 as int,
                EntryView { in_use: false, ..old(self).entries()[id.0 as int] },
            ));
            assert(self.textures() =~= old(self).textures());
        }
    }

    /// Reclaims all unused textures, freeing their memory.
    ///
    /// Must only be called when all targets have been released: kept
    /// entries would move down and invalidate stored handles.
    pub fn trim(&mut self)
        requires
            forall|i: int| 0 <= i < old(self).entries().len() ==> !(#[trigger] old(self).entries()[i]).in_use,
        ensures
            final(self).entries() == keep_in_use(old(self).entries()),
            final(self).entries().len() == 0,
    {
        let ghost es = self.entries();
        let mut kept: Vec<PoolEntry<T>> = Vec::new();
        let mut rest = Vec::new();
        std::mem::swap(&mut rest, &mut self.entries);
        let ghost mut j: int = 0;
        proof {
            assert(es.take(0) =~= Seq::<EntryView>::empty());
        }
        let ghost view_of = |e: PoolEntry<T>| EntryView { width: e.width, height: e.height, in_use: e.in_use };
        while rest.len() > 0
            invariant
                0 <= j <= es.len(),
                kept@.map_values(view_of) == keep_in_use(es.take(j)),
                rest@.map_values(view_of) == es.skip(j),
                view_of == (|e: PoolEntry<T>| EntryView { width: e.width, height: e.height, in_use: e.in_use }),
            decreases rest.len(),
        {
            let ghost before = rest@;
            proof {
                assert(rest@.map_values(view_of).len() == rest@.len());
                assert(j < es.len());
                assert(es.skip(j)[0] == es[j]);
            }
            let e = rest.remove(0);
            proof {
                assert(before.map_values(view_of)[0] == view_of(e));
                assert(es.take(j + 1).drop_last() =~= es.take(j));
                assert(es.take(j + 1).last() == es[j]);
                assert forall|k: int| 0 <= k < rest@.len() implies rest@.map_values(view_of)[k] == es.skip(j + 1)[k] by {
                    assert(rest@[k] == before[k + 1]);
                    assert(before.map_values(view_of)[k + 1] == es.skip(j)[k + 1]);
                }
                assert(rest@.map_values(view_of) =~= es.skip(j + 1));
            }
            if e.in_use {
                let ghost prev = kept@;
                kept.push(e);
                proof {
                    assert(kept@.map_values(view_of) =~= prev.map_values(view_of).push(view_of(e)));
                }
            }
            proof {
                j = j + 1;
            }
        }
        proof {
            assert(es.skip(j).len() == 0);
            assert(es.take(j) =~= es);
        }
        self.entries = kept;
        proof {
            assert(self.entries() =~= kept@.map_values(view_of));
            lemma_keep_none(es);
        }
    }

    /// Returns the number of currently in-use targets.
    pub fn active_count(&self) -> (n: usize)
        ensures
            n == count_in_use(self.entries()),
    {
        let ghost es = self.entries();
        let mut n: usize = 0;
        let mut i: usize = 0;
        proof {
            assert(es.take(0) =~= Seq::<EntryView>::empty());
        }
        while i < self.entries.len()
            invariant
                i <= self.entries@.len(),
                es == self.entries(),
                n == count_in_use(es.take(i as int)),
                n <= i,
            decreases self.entries.len() - i,
        {
            proof {
                assert(es.take(i + 1).drop_last() =~= es.take(i as int));
                assert(es.take(i + 1).last() == es[i as int]);
            }
            if self.entries[i].in_use {
                n = n + 1;
            }
            i = i + 1;
        }
        proof {
            assert(es.take(i as int) =~= es);
        }
        n
    }

    /// Returns the total number of targets (active + pooled).
    pub fn total_count(&self) -> (n: usize)
        ensures
            n == self.entries().len(),
    {
        self.entries.len()
    }
}

} // verus!
