//! Renderer support: glyph lookup across the three atlases, and how a
//! vertex buffer is grown to hold a frame's instances.

use vstd::prelude::*;

use crate::gpu::atlas::{spec_key_code, AtlasEntry, GlyphAtlas};
use crate::gpu::builtin_glyphs::RasterKey;

pub use crate::gpu::state::SurfaceError;

verus! {

/// Bridges the monochrome, subpixel and color atlases for glyph lookup.
///
/// During the prepare phase, lookups probe the monochrome atlas first (most
/// glyphs are mono text), then the subpixel atlas, then the color atlas.
pub struct CombinedAtlasLookup<'a> {
    pub mono: &'a GlyphAtlas,
    pub subpixel: &'a GlyphAtlas,
    pub color: &'a GlyphAtlas,
}

/// The entry a combined lookup of key code `c` finds: the monochrome
/// atlas's, else the subpixel atlas's, else the color atlas's.
pub open spec fn spec_combined_lookup(mono: GlyphAtlas, subpixel: GlyphAtlas, color: GlyphAtlas, c: u128) -> Option<AtlasEntry> {
    if mono.entries().contains_key(c) {
        Some(mono.entries()[c])
    } else if subpixel.entries().contains_key(c) {
        Some(subpixel.entries()[c])
    } else if color.entries().contains_key(c) {
        Some(color.entries()[c])
    } else {
        None
    }
}

impl<'a> CombinedAtlasLookup<'a> {
    /// Look up a cached glyph by key in the first atlas that has it.
    pub fn lookup_key(&self, key: RasterKey) -> (r: Option<&'a AtlasEntry>)
        ensures
            match r {
                Some(e) => spec_combined_lookup(*self.mono, *self.subpixel, *self.color, spec_key_code(key)) == Some(*e),
                None => spec_combined_lookup(*self.mono, *self.subpixel, *self.color, spec_key_code(key)) is None,
            },
    {
        match self.mono.lookup(key) {
            Some(e) => Some(e),
            None => match self.subpixel.lookup(key) {
                Some(e) => Some(e),
                None => self.color.lookup(key),
            },
        }
    }
}

/// The first power of two from `p` on (doubling `p`) that is at least `n`.
pub open spec fn pow2_from(p: nat, n: nat) -> nat
    decreases 2 * n - p,
{
    if p == 0 || p >= n {
        p
    } else {
        pow2_from(2 * p, n)
    }
}

/// Whether `p` is a power of two.
pub open spec fn power_of_two(p: nat) -> bool
    decreases p,
{
    if p <= 1 {
        p == 1
    } else {
        p % 2 == 0 && power_of_two(p / 2)
    }
}

/// Size of a vertex buffer grown to hold `needed` bytes: the next power of
/// two, and at least 256 bytes.
pub open spec fn grown_size(needed: nat) -> nat {
    let p = pow2_from(1, needed);
    if p < 256 {
        256
    } else {
        p
    }
}

/// What uploading instance bytes into a vertex buffer slot does.
#[derive(Debug, Clone, Copy, PartialEq, Eq, Structural)]
pub enum BufferUpload {
    /// No bytes: nothing is uploaded.
    Skip,
    /// The current buffer is large enough: write into it.
    Write,
    /// Create a buffer of `size` bytes in place of the current one (if
    /// any), then write into it.
    Recreate { size: u64 },
}

/// How `needed` bytes are uploaded into a slot whose buffer holds
/// `current` bytes (`None` when the slot has no buffer yet): skipped when
/// there is nothing to upload, written into the current buffer when it is
/// large enough, else written into a new buffer grown to the next power of
/// two (at least 256 bytes), for amortized growth.
pub fn plan_buffer_upload(current: Option<u64>, needed: u64) -> (u: BufferUpload)
    requires
        needed <= 0x8000_0000_0000_0000,
    ensures
        u == (if needed == 0 {
            BufferUpload::Skip
        } else if current matches Some(c) && c >= needed {
            BufferUpload::Write
        } else {
            BufferUpload::Recreate { size: grown_size(needed as nat) as u64 }
        }),
{
    if needed == 0 {
        return BufferUpload::Skip;
    }
    if let Some(c) = current {
        if c >= needed {
            return BufferUpload::Write;
        }
    }
    let mut p: u64 = 1;
    while p < needed
        invariant
            1 <= p < 2 * needed,
            needed <= 0x8000_0000_0000_0000,
            pow2_from(p as nat, needed as nat) == pow2_from(1, needed as nat),
        decreases 2 * needed - p,
    {
        p = p * 2;
    }
    let size = if p < 256 { 256 } else { p };
    BufferUpload::Recreate { size }
}

/// The doubling from a power of two `p` below `2n` stops at a power of two
/// at least `n` and below `2n`.
proof fn lemma_pow2_from(p: nat, n: nat)
    requires
        power_of_two(p),
        p < 2 * n,
    ensures
        power_of_two(pow2_from(p, n)),
        n <= pow2_from(p, n) < 2 * n,
    decreases 2 * n - p,
{
    if p < n {
        assert((2 * p) / 2 == p);
        lemma_pow2_from(2 * p, n);
    }
}

/// A grown buffer holds the bytes it is grown for: its size is a power of
/// two, at least 256 bytes and at least the bytes needed, and below twice
/// them once they exceed 128.
pub proof fn law_grown_size_fits(needed: nat)
    requires
        needed > 0,
    ensures
        power_of_two(grown_size(needed)),
        grown_size(needed) >= needed,
        grown_size(needed) >= 256,
        needed > 128 ==> grown_size(needed) < 2 * needed,
{
    lemma_pow2_from(1, needed);
    if pow2_from(1, needed) < 256 {
        reveal_with_fuel(power_of_two, 10);
        assert(power_of_two(256));
    }
}

} // verus!
