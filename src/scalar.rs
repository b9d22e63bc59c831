//! Scalars as bit patterns: every integer field is mutated as a `u64` holding a
//! value of 8, 16, 32 or 64 bits. Signed integers use the same patterns as the
//! unsigned integers of their width.

use vstd::prelude::*;

verus! {

/// A supported scalar width in bits.
pub open spec fn valid_width(width: u32) -> bool {
    width == 8 || width == 16 || width == 32 || width == 64
}

/// The largest pattern of `width` bits.
pub open spec fn width_max(width: u32) -> u64 {
    if width == 8 {
        0xffu64
    } else if width == 16 {
        0xffffu64
    } else if width == 32 {
        0xffff_ffffu64
    } else {
        0xffff_ffff_ffff_ffffu64
    }
}

/// The number of distinct patterns of `width` bits.
pub open spec fn width_modulus(width: u32) -> int {
    width_max(width) + 1
}

/// `x` is a pattern of `width` bits.
pub open spec fn fits(x: u64, width: u32) -> bool {
    x <= width_max(width)
}

/// The mask of `bits` consecutive bits starting at bit `start`.
pub open spec fn run_mask(start: u32, bits: u32) -> u64 {
    if bits >= 64 {
        0xffff_ffff_ffff_ffffu64
    } else {
        (((1u64 << bits) - 1) as u64) << start
    }
}

/// The mask that has exactly the bits listed in `indices` set.
pub open spec fn bits_mask(indices: Seq<u32>) -> u64
    decreases indices.len(),
{
    if indices.len() == 0 {
        0
    } else {
        bits_mask(indices.drop_last()) | (1u64 << indices.last())
    }
}

/// `x` plus `k`, wrapped to `width` bits.
pub open spec fn wrapped_add(x: u64, k: u64, width: u32) -> int {
    (x + k) % width_modulus(width)
}

/// `x` minus `k`, wrapped to `width` bits.
pub open spec fn wrapped_sub(x: u64, k: u64, width: u32) -> int {
    (x - k) % width_modulus(width)
}

/// The exec form of [`width_max`].
pub fn width_max_of(width: u32) -> (r: u64)
    ensures
        r == width_max(width),
{
    if width == 8 {
        0xff
    } else if width == 16 {
        0xffff
    } else if width == 32 {
        0xffff_ffff
    } else {
        0xffff_ffff_ffff_ffff
    }
}

proof fn lemma_xor_fits(x: u64, m: u64, width: u32)
    requires
        valid_width(width),
        fits(x, width),
        fits(m, width),
    ensures
        fits(x ^ m, width),
{
    if width == 8 {
        assert(x <= 0xff && m <= 0xff ==> x ^ m <= 0xff) by (bit_vector);
    } else if width == 16 {
        assert(x <= 0xffff && m <= 0xffff ==> x ^ m <= 0xffff) by (bit_vector);
    } else if width == 32 {
        assert(x <= 0xffff_ffff && m <= 0xffff_ffff ==> x ^ m <= 0xffff_ffff) by (bit_vector);
    }
}

proof fn lemma_or_fits(x: u64, m: u64, width: u32)
    requires
        valid_width(width),
        fits(x, width),
        fits(m, width),
    ensures
        fits(x | m, width),
{
    if width == 8 {
        assert(x <= 0xff && m <= 0xff ==> x | m <= 0xff) by (bit_vector);
    } else if width == 16 {
        assert(x <= 0xffff && m <= 0xffff ==> x | m <= 0xffff) by (bit_vector);
    } else if width == 32 {
        assert(x <= 0xffff_ffff && m <= 0xffff_ffff ==> x | m <= 0xffff_ffff) by (bit_vector);
    }
}

pub(crate) proof fn lemma_bit_fits(idx: u32, width: u32)
    requires
        valid_width(width),
        idx < width,
    ensures
        fits(1u64 << idx, width),
        1u64 << idx != 0,
{
    if width == 8 {
        assert(idx < 8 ==> (1u64 << idx) <= 0xff && (1u64 << idx) != 0) by (bit_vector);
    } else if width == 16 {
        assert(idx < 16 ==> (1u64 << idx) <= 0xffff && (1u64 << idx) != 0) by (bit_vector);
    } else if width == 32 {
        assert(idx < 32 ==> (1u64 << idx) <= 0xffff_ffff && (1u64 << idx) != 0) by (bit_vector);
    } else {
        assert(idx < 64 ==> (1u64 << idx) != 0) by (bit_vector);
    }
}

proof fn lemma_run_fits(start: u32, bits: u32, width: u32)
    requires
        valid_width(width),
        1 <= bits,
        start + bits <= width,
    ensures
        fits(run_mask(start, bits), width),
        run_mask(start, bits) != 0,
{
    if width == 8 {
        assert(1 <= bits && start + bits <= 8 ==> ((((1u64 << bits) - 1) as u64) << start) <= 0xff
            && ((((1u64 << bits) - 1) as u64) << start) != 0) by (bit_vector);
    } else if width == 16 {
        assert(1 <= bits && start + bits <= 16 ==> ((((1u64 << bits) - 1) as u64) << start)
            <= 0xffff && ((((1u64 << bits) - 1) as u64) << start) != 0) by (bit_vector);
    } else if width == 32 {
        assert(1 <= bits && start + bits <= 32 ==> ((((1u64 << bits) - 1) as u64) << start)
            <= 0xffff_ffff && ((((1u64 << bits) - 1) as u64) << start) != 0) by (bit_vector);
    } else if bits < 64 {
        assert(1 <= bits && bits < 64 && start + bits <= 64 ==> ((((1u64 << bits) - 1) as u64)
            << start) != 0) by (bit_vector);
    }
}

proof fn lemma_xor_nonzero_changes(x: u64, m: u64)
    requires
        m != 0,
    ensures
        x ^ m != x,
{
    assert(m != 0 ==> x ^ m != x) by (bit_vector);
}

/// Flips bit `idx` of `x`.
pub fn bit_flip_at(x: u64, idx: u32, width: u32) -> (r: u64)
    requires
        valid_width(width),
        fits(x, width),
        idx < width,
    ensures
        r == x ^ (1u64 << idx),
        fits(r, width),
        r != x,
{
    proof {
        lemma_bit_fits(idx, width);
        lemma_xor_fits(x, 1u64 << idx, width);
        lemma_xor_nonzero_changes(x, 1u64 << idx);
    }
    x ^ (1u64 << idx)
}

/// Flips every bit of `x` whose index is listed in `indices`.
pub fn flip_bits_at(x: u64, indices: &Vec<u32>, width: u32) -> (r: u64)
    requires
        valid_width(width),
        fits(x, width),
        forall|i: int| 0 <= i < indices.len() ==> indices[i] < width,
    ensures
        r == x ^ bits_mask(indices@),
        fits(bits_mask(indices@), width),
        fits(r, width),
{
    let mut mask: u64 = 0;
    let mut i: usize = 0;
    while i < indices.len()
        invariant
            valid_width(width),
            i <= indices.len(),
            forall|j: int| 0 <= j < indices.len() ==> indices[j] < width,
            mask == bits_mask(indices@.subrange(0, i as int)),
            fits(mask, width),
        decreases indices.len() - i,
    {
        proof {
            lemma_bit_fits(indices[i as int], width);
            lemma_or_fits(mask, 1u64 << indices[i as int], width);
            assert(indices@.subrange(0, i + 1).drop_last() == indices@.subrange(0, i as int));
        }
        mask = mask | (1u64 << indices[i]);
        i += 1;
    }
    assert(indices@.subrange(0, indices.len() as int) == indices@);
    proof {
        lemma_xor_fits(x, mask, width);
    }
    x ^ mask
}

/// Flips the run of `bits` consecutive bits of `x` starting at bit `start`.
pub fn flip_run(x: u64, start: u32, bits: u32, width: u32) -> (r: u64)
    requires
        valid_width(width),
        fits(x, width),
        1 <= bits,
        start + bits <= width,
    ensures
        r == x ^ run_mask(start, bits),
        fits(r, width),
        r != x,
{
    proof {
        lemma_run_fits(start, bits, width);
        lemma_xor_fits(x, run_mask(start, bits), width);
        lemma_xor_nonzero_changes(x, run_mask(start, bits));
        assert(bits < 64 ==> (1u64 << bits) >= 1) by (bit_vector);
    }
    if bits >= 64 {
        x ^ 0xffff_ffff_ffff_ffff
    } else {
        x ^ ((((1u64 << bits) - 1) as u64) << start)
    }
}

/// Adds `k` to `x`, wrapping at `width` bits.
pub fn add_wrapping(x: u64, k: u64, width: u32) -> (r: u64)
    requires
        valid_width(width),
        fits(x, width),
        fits(k, width),
    ensures
        r == wrapped_add(x, k, width),
        fits(r, width),
{
    let m: u128 = width_max_of(width) as u128 + 1;
    let s: u128 = (x as u128 + k as u128) % m;
    s as u64
}

/// Subtracts `k` from `x`, wrapping at `width` bits.
pub fn sub_wrapping(x: u64, k: u64, width: u32) -> (r: u64)
    requires
        valid_width(width),
        fits(x, width),
        fits(k, width),
    ensures
        r == wrapped_sub(x, k, width),
        fits(r, width),
{
    let m: u128 = width_max_of(width) as u128 + 1;
    let s: u128 = (x as u128 + m - k as u128) % m;
    proof {
        let mi = width_modulus(width);
        assert(mi == m);
        assert((x + mi - k) % mi == (x - k) % mi) by {
            vstd::arithmetic::div_mod::lemma_mod_add_multiples_vanish(x - k, mi);
        }
    }
    s as u64
}

} // verus!
