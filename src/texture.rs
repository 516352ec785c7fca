//! Layout of a texture copied into a buffer for reading back.
use vstd::prelude::*;
use vstd::arithmetic::div_mod::lemma_fundamental_div_mod;

verus! {

/// Bytes per buffer row for a texture row of `width` texels of `texel_size`
/// bytes: the row length rounded up to a multiple of `alignment`.
pub fn padded_bytes_per_row(texel_size: u32, width: u32, alignment: u32) -> (r: u32)
    requires
        alignment > 0,
        texel_size * width + alignment - 1 <= u32::MAX,
    ensures
        r as int % alignment as int == 0,
        texel_size * width <= r < texel_size * width + alignment,
{
    let row = texel_size * width;
    let blocks = (row + (alignment - 1)) / alignment;
    proof {
        let x = row + alignment - 1;
        let a = alignment as int;
        lemma_fundamental_div_mod(x, a);
        assert(x == a * (x / a) + x % a);
        assert(blocks == x / a);
        assert(blocks * a == a * blocks) by (nonlinear_arith);
        lemma_fundamental_div_mod(blocks * a, a);
        vstd::arithmetic::div_mod::lemma_mod_multiples_basic(blocks as int, a);
    }
    let r = blocks * alignment;
    r
}

} // verus!
