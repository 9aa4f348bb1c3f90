//! CPU side of offscreen render target readback: removing the row padding
//! that GPU buffer copies insert.

use vstd::prelude::*;

verus! {

/// Tightly packed rows: the first `unpadded` bytes of each of the first
/// `height` rows of `data`, rows being `padded` bytes apart.
pub open spec fn spec_strip(data: Seq<u8>, unpadded: int, height: int, padded: int) -> Seq<u8>
    decreases height,
{
    if height <= 0 {
        Seq::empty()
    } else {
        spec_strip(data, unpadded, height - 1, padded) + data.subrange(
            (height - 1) * padded,
            (height - 1) * padded + unpadded,
        )
    }
}

proof fn lemma_strip_unpadded(data: Seq<u8>, unpadded: int, height: int)
    requires
        0 <= unpadded,
        0 <= height,
        unpadded * height <= data.len(),
    ensures
        spec_strip(data, unpadded, height, unpadded) == data.take(unpadded * height),
    decreases height,
{
    if height > 0 {
        assert((height - 1) * unpadded + unpadded == unpadded * height) by (nonlinear_arith);
        assert(0 <= (height - 1) * unpadded) by (nonlinear_arith) requires height >= 1, unpadded >= 0;
        assert(unpadded * (height - 1) == (height - 1) * unpadded) by (nonlinear_arith);
        assert(unpadded * (height - 1) <= unpadded * height) by (nonlinear_arith) requires height >= 1, unpadded >= 0;
        lemma_strip_unpadded(data, unpadded, height - 1);
        assert(data.take(unpadded * (height - 1)) + data.subrange((height - 1) * unpadded, (height - 1) * unpadded + unpadded)
            =~= data.take(unpadded * height));
    } else {
        assert(unpadded * height == 0) by (nonlinear_arith) requires height == 0;
        assert(data.take(0) =~= Seq::<u8>::empty());
    }
}

/// Strip row padding from GPU readback data, returning tightly-packed RGBA
/// (4 bytes per pixel, `width` pixels per row).
pub fn strip_row_padding(data: &[u8], width: u32, height: u32, padded_row: u32) -> (out: Vec<u8>)
    requires
        width * 4 <= u32::MAX,
        height == 0 || (height - 1) * padded_row <= u32::MAX,
        height == 0 || (height - 1) * padded_row + width * 4 <= data@.len(),
        padded_row == width * 4 ==> width * 4 * height <= data@.len(),
        width * 4 * height <= usize::MAX,
    ensures
        out@ == spec_strip(data@, width * 4, height as int, padded_row as int),
{
    let bytes_per_pixel: u32 = 4;
    let unpadded_row = width * bytes_per_pixel;

    if padded_row == unpadded_row {
        let n = unpadded_row as usize * height as usize;
        proof {
            lemma_strip_unpadded(data@, unpadded_row as int, height as int);
        }
        let mut out: Vec<u8> = Vec::with_capacity(n);
        out.extend_from_slice(vstd::slice::slice_subrange(data, 0, n));
        proof {
            assert(out@ =~= data@.take(n as int));
        }
        return out;
    }

    let mut out: Vec<u8> = Vec::new();
    let data_len = data.len();
    let mut row: u32 = 0;
    while row < height
        invariant
            row <= height,
            data_len == data@.len(),
            unpadded_row == width * 4,
            height == 0 || (height - 1) * padded_row <= u32::MAX,
            height == 0 || (height - 1) * padded_row + unpadded_row <= data@.len(),
            out@ == spec_strip(data@, unpadded_row as int, row as int, padded_row as int),
        decreases height - row,
    {
        proof {
            assert(row * padded_row <= (height - 1) * padded_row) by (nonlinear_arith)
                requires row <= height - 1;
        }
        let start = (row * padded_row) as usize;
        let end = start + unpadded_row as usize;
        let ghost before = out@;
        out.extend_from_slice(vstd::slice::slice_subrange(data, start, end));
        proof {
            assert(out@ =~= before + data@.subrange(start as int, end as int));
        }
        row = row + 1;
    }
    out
}

} // verus!
