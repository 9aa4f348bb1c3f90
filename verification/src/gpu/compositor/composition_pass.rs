//! Compositor uniform layout arithmetic.

use vstd::prelude::*;

verus! {

proof fn lemma_next_multiple(v: int, a: int)
    requires
        a > 0,
        v >= 0,
    ensures
        (v - v % a) % a == 0,
        (v - v % a + a) % a == 0,
        0 <= v % a < a,
        v % a <= v,
{
    let q = v / a;
    vstd::arithmetic::div_mod::lemma_fundamental_div_mod(v, a);
    assert(v - v % a == q * a) by (nonlinear_arith)
        requires v == a * (v / a) + v % a, q == v / a;
    assert(v - v % a + a == (q + 1) * a) by (nonlinear_arith)
        requires v - v % a == q * a;
    vstd::arithmetic::div_mod::lemma_mod_multiples_basic(q, a);
    vstd::arithmetic::div_mod::lemma_mod_multiples_basic(q + 1, a);
    assert(q >= 0) by (nonlinear_arith) requires q == v / a, v >= 0, a > 0;
    assert(q * a >= 0) by (nonlinear_arith) requires q >= 0, a > 0;
}

/// Round `value` up to the next multiple of `alignment`.
pub fn align_up(value: u32, alignment: u32) -> (r: u32)
    requires
        alignment > 0,
        value % alignment == 0 || value - value % alignment + alignment <= u32::MAX,
    ensures
        r % alignment == 0,
        value <= r,
        r < value + alignment,
{
    let rem = value % alignment;
    proof {
        lemma_next_multiple(value as int, alignment as int);
    }
    if rem == 0 {
        value
    } else {
        value - rem + alignment
    }
}

} // verus!
