//! Boundary values ("dangerous numbers") for each scalar width. Signed integers
//! use the table of the unsigned integer of their width, read as a bit pattern.

use vstd::prelude::*;
use crate::mutator::Mutator;
use crate::rng::rng_range;
use crate::traits::DangerousNumber;

verus! {

/// The ordered table of boundary values for patterns of `width` bits.
pub open spec fn dangerous_table(width: u32) -> Seq<u64> {
    if width == 8 {
        seq![0x00u64, 0xffu64, 0x7fu64, 0x80u64]
    } else if width == 16 {
        seq![0x0000u64, 0xffffu64, 0x7fffu64, 0x8000u64, 0xff7fu64, 0x0080u64]
    } else if width == 32 {
        seq![
            0x0000_0000u64,
            0xffff_ffffu64,
            0x7fff_ffffu64,
            0x8000_0000u64,
            0xffff_ff7fu64,
            0x0000_0080u64,
        ]
    } else {
        seq![
            0x0000_0000_0000_0000u64,
            0xffff_ffff_ffff_ffffu64,
            0x7fff_ffff_ffff_ffffu64,
            0x8000_0000_0000_0000u64,
            0xffff_ffff_ffff_ff7fu64,
            0x0000_0000_0000_0080u64,
        ]
    }
}

/// The number of boundary values for patterns of `width` bits.
pub fn dangerous_numbers_len_of(width: u32) -> (r: usize)
    ensures
        r == dangerous_table(width).len(),
        1 <= r <= 6,
{
    if width == 8 {
        4
    } else {
        6
    }
}

/// Entry `idx` of the boundary-value table for patterns of `width` bits.
pub fn dangerous_number_of(width: u32, idx: usize) -> (r: u64)
    requires
        idx < dangerous_table(width).len(),
    ensures
        r == dangerous_table(width)[idx as int],
        crate::scalar::valid_width(width) ==> crate::scalar::fits(r, width),
{
    if width == 8 {
        let t: [u64; 4] = [0x00, 0xff, 0x7f, 0x80];
        t[idx]
    } else if width == 16 {
        let t: [u64; 6] = [0x0000, 0xffff, 0x7fff, 0x8000, 0xff7f, 0x0080];
        t[idx]
    } else if width == 32 {
        let t: [u64; 6] = [
            0x0000_0000,
            0xffff_ffff,
            0x7fff_ffff,
            0x8000_0000,
            0xffff_ff7f,
            0x0000_0080,
        ];
        t[idx]
    } else {
        let t: [u64; 6] = [
            0x0000_0000_0000_0000,
            0xffff_ffff_ffff_ffff,
            0x7fff_ffff_ffff_ffff,
            0x8000_0000_0000_0000,
            0xffff_ffff_ffff_ff7f,
            0x0000_0000_0000_0080,
        ];
        t[idx]
    }
}

impl DangerousNumber<u8> for u8 {
    open spec fn dangerous_numbers() -> Seq<u8> {
        dangerous_table(8).map_values(|x: u64| x as u8)
    }

    fn select_dangerous_number(mutator: &mut Mutator) -> (r: u8) {
        let len = dangerous_numbers_len_of(8);
        let idx = rng_range(&mut mutator.rng, 0, len as u64) as usize;
        let r = Self::dangerous_number_at_index(idx);
        assert(Self::dangerous_numbers()[idx as int] == r);
        r
    }

    fn dangerous_number_at_index(idx: usize) -> (r: u8) {
        #[verifier::truncate]
        let r = dangerous_number_of(8, idx) as u8;
        r
    }

    fn dangerous_numbers_len() -> (r: usize) {
        dangerous_numbers_len_of(8)
    }
}

impl DangerousNumber<u16> for u16 {
    open spec fn dangerous_numbers() -> Seq<u16> {
        dangerous_table(16).map_values(|x: u64| x as u16)
    }

    fn select_dangerous_number(mutator: &mut Mutator) -> (r: u16) {
        let len = dangerous_numbers_len_of(16);
        let idx = rng_range(&mut mutator.rng, 0, len as u64) as usize;
        let r = Self::dangerous_number_at_index(idx);
        assert(Self::dangerous_numbers()[idx as int] == r);
        r
    }

    fn dangerous_number_at_index(idx: usize) -> (r: u16) {
        #[verifier::truncate]
        let r = dangerous_number_of(16, idx) as u16;
        r
    }

    fn dangerous_numbers_len() -> (r: usize) {
        dangerous_numbers_len_of(16)
    }
}

impl DangerousNumber<u32> for u32 {
    open spec fn dangerous_numbers() -> Seq<u32> {
        dangerous_table(32).map_values(|x: u64| x as u32)
    }

    fn select_dangerous_number(mutator: &mut Mutator) -> (r: u32) {
        let len = dangerous_numbers_len_of(32);
        let idx = rng_range(&mut mutator.rng, 0, len as u64) as usize;
        let r = Self::dangerous_number_at_index(idx);
        assert(Self::dangerous_numbers()[idx as int] == r);
        r
    }

    fn dangerous_number_at_index(idx: usize) -> (r: u32) {
        #[verifier::truncate]
        let r = dangerous_number_of(32, idx) as u32;
        r
    }

    fn dangerous_numbers_len() -> (r: usize) {
        dangerous_numbers_len_of(32)
    }
}

impl DangerousNumber<u64> for u64 {
    open spec fn dangerous_numbers() -> Seq<u64> {
        dangerous_table(64).map_values(|x: u64| x as u64)
    }

    fn select_dangerous_number(mutator: &mut Mutator) -> (r: u64) {
        let len = dangerous_numbers_len_of(64);
        let idx = rng_range(&mut mutator.rng, 0, len as u64) as usize;
        let r = Self::dangerous_number_at_index(idx);
        assert(Self::dangerous_numbers()[idx as int] == r);
        r
    }

    fn dangerous_number_at_index(idx: usize) -> (r: u64) {
        #[verifier::truncate]
        let r = dangerous_number_of(64, idx) as u64;
        r
    }

    fn dangerous_numbers_len() -> (r: usize) {
        dangerous_numbers_len_of(64)
    }
}

impl DangerousNumber<i8> for i8 {
    open spec fn dangerous_numbers() -> Seq<i8> {
        dangerous_table(8).map_values(|x: u64| x as u8 as i8)
    }

    fn select_dangerous_number(mutator: &mut Mutator) -> (r: i8) {
        let len = dangerous_numbers_len_of(8);
        let idx = rng_range(&mut mutator.rng, 0, len as u64) as usize;
        let r = Self::dangerous_number_at_index(idx);
        assert(Self::dangerous_numbers()[idx as int] == r);
        r
    }

    fn dangerous_number_at_index(idx: usize) -> (r: i8) {
        #[verifier::truncate]
        let r = dangerous_number_of(8, idx) as u8 as i8;
        r
    }

    fn dangerous_numbers_len() -> (r: usize) {
        dangerous_numbers_len_of(8)
    }
}

impl DangerousNumber<i16> for i16 {
    open spec fn dangerous_numbers() -> Seq<i16> {
        dangerous_table(16).map_values(|x: u64| x as u16 as i16)
    }

    fn select_dangerous_number(mutator: &mut Mutator) -> (r: i16) {
        let len = dangerous_numbers_len_of(16);
        let idx = rng_range(&mut mutator.rng, 0, len as u64) as usize;
        let r = Self::dangerous_number_at_index(idx);
        assert(Self::dangerous_numbers()[idx as int] == r);
        r
    }

    fn dangerous_number_at_index(idx: usize) -> (r: i16) {
        #[verifier::truncate]
        let r = dangerous_number_of(16, idx) as u16 as i16;
        r
    }

    fn dangerous_numbers_len() -> (r: usize) {
        dangerous_numbers_len_of(16)
    }
}

impl DangerousNumber<i32> for i32 {
    open spec fn dangerous_numbers() -> Seq<i32> {
        dangerous_table(32).map_values(|x: u64| x as u32 as i32)
    }

    fn select_dangerous_number(mutator: &mut Mutator) -> (r: i32) {
        let len = dangerous_numbers_len_of(32);
        let idx = rng_range(&mut mutator.rng, 0, len as u64) as usize;
        let r = Self::dangerous_number_at_index(idx);
        assert(Self::dangerous_numbers()[idx as int] == r);
        r
    }

    fn dangerous_number_at_index(idx: usize) -> (r: i32) {
        #[verifier::truncate]
        let r = dangerous_number_of(32, idx) as u32 as i32;
        r
    }

    fn dangerous_numbers_len() -> (r: usize) {
        dangerous_numbers_len_of(32)
    }
}

impl DangerousNumber<i64> for i64 {
    open spec fn dangerous_numbers() -> Seq<i64> {
        dangerous_table(64).map_values(|x: u64| x as u64 as i64)
    }

    fn select_dangerous_number(mutator: &mut Mutator) -> (r: i64) {
        let len = dangerous_numbers_len_of(64);
        let idx = rng_range(&mut mutator.rng, 0, len as u64) as usize;
        let r = Self::dangerous_number_at_index(idx);
        assert(Self::dangerous_numbers()[idx as int] == r);
        r
    }

    fn dangerous_number_at_index(idx: usize) -> (r: i64) {
        #[verifier::truncate]
        let r = dangerous_number_of(64, idx) as u64 as i64;
        r
    }

    fn dangerous_numbers_len() -> (r: usize) {
        dangerous_numbers_len_of(64)
    }
}

} // verus!
