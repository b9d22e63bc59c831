//! Generation of new random values.

use vstd::prelude::*;
use crate::mode::MutatorMode;
use crate::mutator::{Mutator, CHANCE_TO_IGNORE_MIN_MAX, CHANCE_TO_PICK_INVALID_ENUM, CHANCE_TO_REPEAT_ARRAY_VALUE};
use crate::rng::{rng_range, rng_u64};
use crate::traits::{FixedSize, NewFuzzed, ToPrimitive};
use crate::types::{Constraints, UnsafeEnum, Weighted, allowed_size, constraints_of};

verus! {

/// The bound `o`, or `d` when there is none.
pub open spec fn bound_or(o: Option<u64>, d: u64) -> u64 {
    match o {
        Some(v) => v,
        None => d,
    }
}

/// The bound `o` as an unsigned pattern.
pub open spec fn widen_u8(o: Option<u8>) -> Option<u64> {
    match o {
        Some(v) => Some(v as u64),
        None => None,
    }
}

/// The bound `o` as an unsigned pattern.
pub open spec fn widen_u16(o: Option<u16>) -> Option<u64> {
    match o {
        Some(v) => Some(v as u64),
        None => None,
    }
}

/// The bound `o` as an unsigned pattern.
pub open spec fn widen_u32(o: Option<u32>) -> Option<u64> {
    match o {
        Some(v) => Some(v as u64),
        None => None,
    }
}

fn widen_bound_u8(o: Option<u8>) -> (r: Option<u64>)
    ensures
        r == widen_u8(o),
{
    match o {
        Some(v) => Some(v as u64),
        None => None,
    }
}

fn widen_bound_u16(o: Option<u16>) -> (r: Option<u64>)
    ensures
        r == widen_u16(o),
{
    match o {
        Some(v) => Some(v as u64),
        None => None,
    }
}

fn widen_bound_u32(o: Option<u32>) -> (r: Option<u64>)
    ensures
        r == widen_u32(o),
{
    match o {
        Some(v) => Some(v as u64),
        None => None,
    }
}

/// A number in `[min, max)` (the bounds defaulting to `0` and `type_max`),
/// weighted as asked. In havoc mode each declared bound may be dropped, by a
/// small chance, for the type's own bound.
pub fn gen_bounded(
    mutator: &mut Mutator,
    min: Option<u64>,
    max: Option<u64>,
    type_max: u64,
    weighted: Weighted,
) -> (r: u64)
    requires
        bound_or(min, 0) < bound_or(max, type_max),
        max matches Some(b) ==> b <= type_max,
    ensures
        r < type_max,
        old(mutator).corpus_state.mode != MutatorMode::Havoc ==> bound_or(min, 0) <= r < bound_or(
            max,
            type_max,
        ),
        final(mutator).flags == old(mutator).flags,
        final(mutator).corpus_state == old(mutator).corpus_state,
{
    let havoc = mutator.corpus_state.mode == MutatorMode::Havoc;
    let lo: u64 = match min {
        Some(v) => {
            if havoc && mutator.gen_chance(CHANCE_TO_IGNORE_MIN_MAX) {
                0
            } else {
                v
            }
        },
        None => 0,
    };
    let hi: u64 = match max {
        Some(v) => {
            if havoc && mutator.gen_chance(CHANCE_TO_IGNORE_MIN_MAX) {
                type_max
            } else {
                v
            }
        },
        None => type_max,
    };
    mutator.gen_weighted_range(lo, hi, weighted)
}

impl NewFuzzed for u8 {
    type RangeType = u8;

    open spec fn accepts(min: Option<u8>, max: Option<u8>) -> bool {
        bound_or(widen_u8(min), 0) < bound_or(widen_u8(max), 0xff)
    }

    proof fn lemma_accepts_unbounded() {
    }

    fn new_fuzzed(mutator: &mut Mutator, constraints: Option<&Constraints<u8>>) -> (r: u8)
        ensures
            constraints is Some && old(mutator).corpus_state.mode != MutatorMode::Havoc
                ==> bound_or(widen_u8(constraints.unwrap().min), 0) <= r < bound_or(widen_u8(constraints.unwrap().max), 0xff),
    {
        match constraints {
            Some(c) => gen_bounded(
                mutator,
                widen_bound_u8(c.min),
                widen_bound_u8(c.max),
                0xff,
                c.weighted,
            ) as u8,
            None => rng_range(&mut mutator.rng, 0, 0x100) as u8,
        }
    }
}

impl NewFuzzed for u16 {
    type RangeType = u16;

    open spec fn accepts(min: Option<u16>, max: Option<u16>) -> bool {
        bound_or(widen_u16(min), 0) < bound_or(widen_u16(max), 0xffff)
    }

    proof fn lemma_accepts_unbounded() {
    }

    fn new_fuzzed(mutator: &mut Mutator, constraints: Option<&Constraints<u16>>) -> (r: u16)
        ensures
            constraints is Some && old(mutator).corpus_state.mode != MutatorMode::Havoc
                ==> bound_or(widen_u16(constraints.unwrap().min), 0) <= r < bound_or(widen_u16(constraints.unwrap().max), 0xffff),
    {
        match constraints {
            Some(c) => gen_bounded(
                mutator,
                widen_bound_u16(c.min),
                widen_bound_u16(c.max),
                0xffff,
                c.weighted,
            ) as u16,
            None => rng_range(&mut mutator.rng, 0, 0x1_0000) as u16,
        }
    }
}

impl NewFuzzed for u32 {
    type RangeType = u32;

    open spec fn accepts(min: Option<u32>, max: Option<u32>) -> bool {
        bound_or(widen_u32(min), 0) < bound_or(widen_u32(max), 0xffff_ffff)
    }

    proof fn lemma_accepts_unbounded() {
    }

    fn new_fuzzed(mutator: &mut Mutator, constraints: Option<&Constraints<u32>>) -> (r: u32)
        ensures
            constraints is Some && old(mutator).corpus_state.mode != MutatorMode::Havoc
                ==> bound_or(widen_u32(constraints.unwrap().min), 0) <= r < bound_or(widen_u32(constraints.unwrap().max), 0xffff_ffff),
    {
        match constraints {
            Some(c) => gen_bounded(
                mutator,
                widen_bound_u32(c.min),
                widen_bound_u32(c.max),
                0xffff_ffff,
                c.weighted,
            ) as u32,
            None => rng_range(&mut mutator.rng, 0, 0x1_0000_0000) as u32,
        }
    }
}

impl NewFuzzed for u64 {
    type RangeType = u64;

    open spec fn accepts(min: Option<u64>, max: Option<u64>) -> bool {
        bound_or(min, 0) < bound_or(max, 0xffff_ffff_ffff_ffff)
    }

    proof fn lemma_accepts_unbounded() {
    }

    fn new_fuzzed(mutator: &mut Mutator, constraints: Option<&Constraints<u64>>) -> (r: u64)
        ensures
            constraints is Some && old(mutator).corpus_state.mode != MutatorMode::Havoc
                ==> bound_or(constraints.unwrap().min, 0) <= r < bound_or(constraints.unwrap().max, 0xffff_ffff_ffff_ffff),
    {
        match constraints {
            Some(c) => gen_bounded(mutator, c.min, c.max, 0xffff_ffff_ffff_ffff, c.weighted),
            None => rng_u64(&mut mutator.rng),
        }
    }
}

impl NewFuzzed for bool {
    type RangeType = u8;

    open spec fn accepts(min: Option<u8>, max: Option<u8>) -> bool {
        true
    }

    proof fn lemma_accepts_unbounded() {
    }

    fn new_fuzzed(mutator: &mut Mutator, constraints: Option<&Constraints<u8>>) -> (r: bool) {
        rng_range(&mut mutator.rng, 0, 2) != 0
    }
}

impl<T: NewFuzzed + ToPrimitive<Output = I>, I: NewFuzzed<RangeType = I> + FixedSize> NewFuzzed for UnsafeEnum<
    T,
    I,
> {
    type RangeType = I;

    open spec fn accepts(min: Option<I>, max: Option<I>) -> bool {
        I::accepts(min, max)
    }

    proof fn lemma_accepts_unbounded() {
        I::lemma_accepts_unbounded();
    }

    /// A raw discriminant (generated under the given constraints) by a small
    /// chance, which the flags can force; otherwise a valid value.
    fn new_fuzzed(mutator: &mut Mutator, constraints: Option<&Constraints<I>>) -> (r: UnsafeEnum<
        T,
        I,
    >)
        ensures
            old(mutator).flags.all_chances_succeed ==> r is Invalid,
    {
        if mutator.gen_chance(CHANCE_TO_PICK_INVALID_ENUM) {
            let i = I::new_fuzzed(mutator, constraints);
            proof {
                i.lemma_fixed_size();
            }
            UnsafeEnum::Invalid(i)
        } else {
            let v = T::new_fuzzed(mutator, None);
            proof {
                v.primitive().lemma_fixed_size();
            }
            UnsafeEnum::Valid(v)
        }
    }
}

} // verus!

verus! {

/// The element count a collection is generated with when no maximum is given.
pub const MAX_NUM_ELEMENTS: usize = 0x1000;

/// The bound `o`, or `d` when there is none.
pub open spec fn count_or(o: Option<usize>, d: usize) -> usize {
    match o {
        Some(v) => v,
        None => d,
    }
}

/// Generates up to `count` elements one by one; by a small chance the first
/// element is repeated verbatim instead of generating each anew. Under a
/// budget each element is generated within the room left and counted by its
/// actual size; generation stops at the first element that would not fit.
pub(crate) fn generate_elements<T: NewFuzzed + Clone>(mutator: &mut Mutator, count: usize, budget: Option<
    usize,
>) -> (r: Vec<T>)
    requires
        old(mutator).wf(),
    ensures
        final(mutator).wf(),
        final(mutator).flags == old(mutator).flags,
        r.len() <= count,
        budget matches Some(b) ==> crate::buffer::seq_size(r@) <= b,
        budget is None ==> r.len() == count,
        count > 0 && (budget is Some ==> T::default_size() <= budget.unwrap() < usize::MAX) ==> r.len()
            >= 1,
{
    let repeat = mutator.gen_chance(CHANCE_TO_REPEAT_ARRAY_VALUE);
    let mut first: Option<T> = None;
    let mut out: Vec<T> = Vec::new();
    let mut used: usize = 0;
    let mut i: usize = 0;
    while i < count
        invariant
            i <= count,
            out.len() == i,
            mutator.wf(),
            mutator.flags == old(mutator).flags,
            budget matches Some(b) ==> used == crate::buffer::seq_size(out@) && used <= b,
            i == 0 ==> first is None,
        decreases count - i,
    {
        proof {
            T::lemma_accepts_unbounded();
        }
        let reused: Option<T> = match &first {
            Some(e) => Some(e.clone()),
            None => None,
        };
        let element: T = match budget {
            Some(b) => {
                let room = b - used;
                let e: T = match reused {
                    Some(e) => e,
                    None => {
                        if T::max_default_object_size() > room {
                            return out;
                        }
                        let c: Constraints<T::RangeType> = Constraints::with_max_size(room);
                        T::new_fuzzed(mutator, Some(&c))
                    },
                };
                let size = e.serialized_size();
                if size > room || size == usize::MAX {
                    return out;
                }
                proof {
                    crate::buffer::lemma_size_push(out@, e);
                }
                used = used + size;
                e
            },
            None => match reused {
                Some(e) => e,
                None => T::new_fuzzed(mutator, None),
            },
        };
        if repeat && first.is_none() {
            first = Some(element.clone());
        }
        out.push(element);
        i += 1;
    }
    out
}

impl<T: NewFuzzed + Clone> NewFuzzed for Vec<T> {
    type RangeType = usize;

    open spec fn accepts(min: Option<usize>, max: Option<usize>) -> bool {
        count_or(min, 0) <= count_or(max, MAX_NUM_ELEMENTS)
    }

    proof fn lemma_accepts_unbounded() {
    }

    /// A collection whose length is drawn from `[min, max)` (exactly `min`
    /// when the two are equal), weighted as asked. Under a budget the maximum
    /// is first cut to the number of smallest elements the budget holds, and
    /// generation stops at the first element that would not fit.
    fn new_fuzzed(mutator: &mut Mutator, constraints: Option<&Constraints<usize>>) -> (r: Vec<T>)
        ensures
            constraints is Some && constraints.unwrap().max_size is None ==> ({
                let lo = count_or(constraints.unwrap().min, 0);
                let hi = count_or(constraints.unwrap().max, MAX_NUM_ELEMENTS);
                lo <= r.len() && (lo < hi ==> r.len() < hi) && (lo == hi ==> r.len() == lo)
            }),
            constraints is None ==> r.len() < MAX_NUM_ELEMENTS,
            match allowed_size(constraints_of(constraints), T::default_size()) {
                Some(a) => crate::buffer::seq_size(r@) <= a && (T::min_nonzero_size() > 0 ==> r.len()
                    <= a / T::min_nonzero_size()),
                None => true,
            },
    {
        let ghost c0 = constraints_of(constraints);
        let (min, mut max, weighted, budget) = match constraints {
            Some(c) => {
                let min = match c.min {
                    Some(v) => v,
                    None => 0,
                };
                let max = match c.max {
                    Some(v) => v,
                    None => MAX_NUM_ELEMENTS,
                };
                let budget: Option<usize> = match c.max_size {
                    Some(m) => {
                        if c.base_object_size_accounted_for {
                            let f = T::max_default_object_size();
                            if m <= usize::MAX - f {
                                Some(m + f)
                            } else {
                                Some(usize::MAX)
                            }
                        } else {
                            Some(m)
                        }
                    },
                    None => None,
                };
                (min, max, c.weighted, budget)
            },
            None => (0, MAX_NUM_ELEMENTS, Weighted::Uniform, None),
        };
        proof {
            match budget {
                Some(b) => {
                    assert(allowed_size(c0, T::default_size()) matches Some(a) && b <= a);
                },
                None => {
                    assert(allowed_size(c0, T::default_size()) is None);
                },
            }
        }
        let ghost budget_facts = match budget {
            Some(b) => allowed_size(c0, T::default_size()) matches Some(a) && b <= a,
            None => allowed_size(c0, T::default_size()) is None,
        };
        assert(budget_facts);
        assert(constraints is Some ==> min == count_or(constraints.unwrap().min, 0) && (budget is None
            ==> max == count_or(constraints.unwrap().max, MAX_NUM_ELEMENTS)));
        assert(constraints is None ==> min == 0 && max == MAX_NUM_ELEMENTS && budget is None);
        if let Some(b) = budget {
            let smallest = T::min_nonzero_elements_size();
            if smallest > 0 && b / smallest < max {
                max = b / smallest;
            }
        }
        let count: usize = if max <= min {
            max
        } else {
            mutator.gen_weighted_range(min as u64, max as u64, weighted) as usize
        };
        proof {
            if budget is Some && T::min_nonzero_size() > 0 {
                let b = budget.unwrap();
                let a = allowed_size(c0, T::default_size()).unwrap();
                let d = T::min_nonzero_size() as int;
                assert(count as int <= (b as int) / d);
                vstd::arithmetic::div_mod::lemma_div_is_ordered(b as int, a as int, d);
            }
        }
        generate_elements(mutator, count, budget)
    }
}

} // verus!

verus! {

/// A bound of an `i8` moved to the order-preserving unsigned patterns
/// (`i8::MIN` maps to 0).
pub open spec fn ordered_i8(o: Option<i8>) -> Option<u64> {
    match o {
        Some(v) => Some((v + 128) as u64),
        None => None,
    }
}

fn ordered_bound_i8(o: Option<i8>) -> (r: Option<u64>)
    ensures
        r == ordered_i8(o),
{
    match o {
        Some(v) => Some((v as i128 + 128) as u64),
        None => None,
    }
}

impl NewFuzzed for i8 {
    type RangeType = i8;

    open spec fn accepts(min: Option<i8>, max: Option<i8>) -> bool {
        bound_or(ordered_i8(min), 0) < bound_or(ordered_i8(max), 0xff)
    }

    proof fn lemma_accepts_unbounded() {
    }

    fn new_fuzzed(mutator: &mut Mutator, constraints: Option<&Constraints<i8>>) -> (r: i8)
        ensures
            constraints is Some && old(mutator).corpus_state.mode != MutatorMode::Havoc ==> bound_or(
                ordered_i8(constraints.unwrap().min),
                0,
            ) <= r + 128 < bound_or(ordered_i8(constraints.unwrap().max), 0xff),
    {
        let v: u64 = match constraints {
            Some(c) => gen_bounded(
                mutator,
                ordered_bound_i8(c.min),
                ordered_bound_i8(c.max),
                0xff,
                c.weighted,
            ),
            None => rng_range(&mut mutator.rng, 0, 0x100),
        };
        (v as i128 - 128) as i8
    }
}

/// A bound of an `i16` moved to the order-preserving unsigned patterns
/// (`i16::MIN` maps to 0).
pub open spec fn ordered_i16(o: Option<i16>) -> Option<u64> {
    match o {
        Some(v) => Some((v + 32768) as u64),
        None => None,
    }
}

fn ordered_bound_i16(o: Option<i16>) -> (r: Option<u64>)
    ensures
        r == ordered_i16(o),
{
    match o {
        Some(v) => Some((v as i128 + 32768) as u64),
        None => None,
    }
}

impl NewFuzzed for i16 {
    type RangeType = i16;

    open spec fn accepts(min: Option<i16>, max: Option<i16>) -> bool {
        bound_or(ordered_i16(min), 0) < bound_or(ordered_i16(max), 0xffff)
    }

    proof fn lemma_accepts_unbounded() {
    }

    fn new_fuzzed(mutator: &mut Mutator, constraints: Option<&Constraints<i16>>) -> (r: i16)
        ensures
            constraints is Some && old(mutator).corpus_state.mode != MutatorMode::Havoc ==> bound_or(
                ordered_i16(constraints.unwrap().min),
                0,
            ) <= r + 32768 < bound_or(ordered_i16(constraints.unwrap().max), 0xffff),
    {
        let v: u64 = match constraints {
            Some(c) => gen_bounded(
                mutator,
                ordered_bound_i16(c.min),
                ordered_bound_i16(c.max),
                0xffff,
                c.weighted,
            ),
            None => rng_range(&mut mutator.rng, 0, 0x1_0000),
        };
        (v as i128 - 32768) as i16
    }
}

/// A bound of an `i32` moved to the order-preserving unsigned patterns
/// (`i32::MIN` maps to 0).
pub open spec fn ordered_i32(o: Option<i32>) -> Option<u64> {
    match o {
        Some(v) => Some((v + 2147483648) as u64),
        None => None,
    }
}

fn ordered_bound_i32(o: Option<i32>) -> (r: Option<u64>)
    ensures
        r == ordered_i32(o),
{
    match o {
        Some(v) => Some((v as i128 + 2147483648) as u64),
        None => None,
    }
}

impl NewFuzzed for i32 {
    type RangeType = i32;

    open spec fn accepts(min: Option<i32>, max: Option<i32>) -> bool {
        bound_or(ordered_i32(min), 0) < bound_or(ordered_i32(max), 0xffff_ffff)
    }

    proof fn lemma_accepts_unbounded() {
    }

    fn new_fuzzed(mutator: &mut Mutator, constraints: Option<&Constraints<i32>>) -> (r: i32)
        ensures
            constraints is Some && old(mutator).corpus_state.mode != MutatorMode::Havoc ==> bound_or(
                ordered_i32(constraints.unwrap().min),
                0,
            ) <= r + 2147483648 < bound_or(ordered_i32(constraints.unwrap().max), 0xffff_ffff),
    {
        let v: u64 = match constraints {
            Some(c) => gen_bounded(
                mutator,
                ordered_bound_i32(c.min),
                ordered_bound_i32(c.max),
                0xffff_ffff,
                c.weighted,
            ),
            None => rng_range(&mut mutator.rng, 0, 0x1_0000_0000),
        };
        (v as i128 - 2147483648) as i32
    }
}

/// A bound of an `i64` moved to the order-preserving unsigned patterns
/// (`i64::MIN` maps to 0).
pub open spec fn ordered_i64(o: Option<i64>) -> Option<u64> {
    match o {
        Some(v) => Some((v + 9223372036854775808) as u64),
        None => None,
    }
}

fn ordered_bound_i64(o: Option<i64>) -> (r: Option<u64>)
    ensures
        r == ordered_i64(o),
{
    match o {
        Some(v) => Some((v as i128 + 9223372036854775808) as u64),
        None => None,
    }
}

impl NewFuzzed for i64 {
    type RangeType = i64;

    open spec fn accepts(min: Option<i64>, max: Option<i64>) -> bool {
        bound_or(ordered_i64(min), 0) < bound_or(ordered_i64(max), 0xffff_ffff_ffff_ffff)
    }

    proof fn lemma_accepts_unbounded() {
    }

    fn new_fuzzed(mutator: &mut Mutator, constraints: Option<&Constraints<i64>>) -> (r: i64)
        ensures
            constraints is Some && old(mutator).corpus_state.mode != MutatorMode::Havoc ==> bound_or(
                ordered_i64(constraints.unwrap().min),
                0,
            ) <= r + 9223372036854775808 < bound_or(ordered_i64(constraints.unwrap().max), 0xffff_ffff_ffff_ffff),
    {
        let v: u64 = match constraints {
            Some(c) => gen_bounded(
                mutator,
                ordered_bound_i64(c.min),
                ordered_bound_i64(c.max),
                0xffff_ffff_ffff_ffff,
                c.weighted,
            ),
            None => rng_u64(&mut mutator.rng),
        };
        (v as i128 - 9223372036854775808) as i64
    }
}

} // verus!
