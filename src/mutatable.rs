//! In-place mutation.

use vstd::prelude::*;
use crate::buffer::{lemma_prefix_size, lemma_size_concat, lemma_size_push, lemma_size_update, seq_size};
use crate::mode::MutatorMode;
use crate::mode::CorpusFuzzingState;
use crate::mutator::{Mutator, MutatorFlags, scalar_mutation};
use crate::rng::rng_range;
use crate::traits::{FixedSize, Mutatable, NewFuzzed, SerializedSize, ToPrimitive};
use crate::types::{Constraints, UnsafeEnum, allowed_size, constraints_of};

verus! {

impl Mutatable for u8 {
    type RangeType = u8;

    /// One scalar visit of the engine on the 8-bit pattern of this value.
    open spec fn mutation_of(
        &self,
        new: u8,
        before: CorpusFuzzingState,
        flags: MutatorFlags,
        after: CorpusFuzzingState,
    ) -> bool {
        scalar_mutation(*self as u64, new as u64, 8, before, flags, after)
    }

    fn mutate(&mut self, mutator: &mut Mutator, constraints: Option<&Constraints<u8>>) {
        let r = mutator.mutate(*self as u64, 8);
        *self = r as u8;
    }
}

impl Mutatable for u16 {
    type RangeType = u16;

    /// One scalar visit of the engine on the 16-bit pattern of this value.
    open spec fn mutation_of(
        &self,
        new: u16,
        before: CorpusFuzzingState,
        flags: MutatorFlags,
        after: CorpusFuzzingState,
    ) -> bool {
        scalar_mutation(*self as u64, new as u64, 16, before, flags, after)
    }

    fn mutate(&mut self, mutator: &mut Mutator, constraints: Option<&Constraints<u16>>) {
        let r = mutator.mutate(*self as u64, 16);
        *self = r as u16;
    }
}

impl Mutatable for u32 {
    type RangeType = u32;

    /// One scalar visit of the engine on the 32-bit pattern of this value.
    open spec fn mutation_of(
        &self,
        new: u32,
        before: CorpusFuzzingState,
        flags: MutatorFlags,
        after: CorpusFuzzingState,
    ) -> bool {
        scalar_mutation(*self as u64, new as u64, 32, before, flags, after)
    }

    fn mutate(&mut self, mutator: &mut Mutator, constraints: Option<&Constraints<u32>>) {
        let r = mutator.mutate(*self as u64, 32);
        *self = r as u32;
    }
}

impl Mutatable for u64 {
    type RangeType = u64;

    /// One scalar visit of the engine on the 64-bit pattern of this value.
    open spec fn mutation_of(
        &self,
        new: u64,
        before: CorpusFuzzingState,
        flags: MutatorFlags,
        after: CorpusFuzzingState,
    ) -> bool {
        scalar_mutation(*self as u64, new as u64, 64, before, flags, after)
    }

    fn mutate(&mut self, mutator: &mut Mutator, constraints: Option<&Constraints<u64>>) {
        let r = mutator.mutate(*self as u64, 64);
        *self = r as u64;
    }
}

/// The `width`-bit pattern of a signed value (two's complement).
pub open spec fn signed_pattern(x: int, width: nat) -> int {
    if x < 0 {
        x + vstd::arithmetic::power2::pow2(width)
    } else {
        x
    }
}

fn i8_pattern(x: i8) -> (r: u64)
    ensures
        r == signed_pattern(x as int, 8),
        crate::scalar::fits(r, 8),
{
    proof {
        vstd::arithmetic::power2::lemma2_to64();
        vstd::arithmetic::power2::lemma2_to64_rest();
    }
    if x < 0 {
        (x as i16 + 256) as u64
    } else {
        x as u64
    }
}

fn i8_from_pattern(r: u64) -> (x: i8)
    requires
        crate::scalar::fits(r, 8),
    ensures
        signed_pattern(x as int, 8) == r,
{
    proof {
        vstd::arithmetic::power2::lemma2_to64();
        vstd::arithmetic::power2::lemma2_to64_rest();
    }
    if r >= 128 {
        (r as i16 - 256) as i8
    } else {
        r as i8
    }
}

impl Mutatable for i8 {
    type RangeType = i8;

    /// One scalar visit of the engine on the 8-bit two's-complement pattern of this value.
    open spec fn mutation_of(
        &self,
        new: i8,
        before: CorpusFuzzingState,
        flags: MutatorFlags,
        after: CorpusFuzzingState,
    ) -> bool {
        scalar_mutation(signed_pattern(*self as int, 8) as u64, signed_pattern(new as int, 8) as u64, 8, before, flags, after)
    }

    fn mutate(&mut self, mutator: &mut Mutator, constraints: Option<&Constraints<i8>>) {
        let r = mutator.mutate(i8_pattern(*self), 8);
        *self = i8_from_pattern(r);
    }
}

fn i16_pattern(x: i16) -> (r: u64)
    ensures
        r == signed_pattern(x as int, 16),
        crate::scalar::fits(r, 16),
{
    proof {
        vstd::arithmetic::power2::lemma2_to64();
        vstd::arithmetic::power2::lemma2_to64_rest();
    }
    if x < 0 {
        (x as i32 + 65536) as u64
    } else {
        x as u64
    }
}

fn i16_from_pattern(r: u64) -> (x: i16)
    requires
        crate::scalar::fits(r, 16),
    ensures
        signed_pattern(x as int, 16) == r,
{
    proof {
        vstd::arithmetic::power2::lemma2_to64();
        vstd::arithmetic::power2::lemma2_to64_rest();
    }
    if r >= 32768 {
        (r as i32 - 65536) as i16
    } else {
        r as i16
    }
}

impl Mutatable for i16 {
    type RangeType = i16;

    /// One scalar visit of the engine on the 16-bit two's-complement pattern of this value.
    open spec fn mutation_of(
        &self,
        new: i16,
        before: CorpusFuzzingState,
        flags: MutatorFlags,
        after: CorpusFuzzingState,
    ) -> bool {
        scalar_mutation(signed_pattern(*self as int, 16) as u64, signed_pattern(new as int, 16) as u64, 16, before, flags, after)
    }

    fn mutate(&mut self, mutator: &mut Mutator, constraints: Option<&Constraints<i16>>) {
        let r = mutator.mutate(i16_pattern(*self), 16);
        *self = i16_from_pattern(r);
    }
}

fn i32_pattern(x: i32) -> (r: u64)
    ensures
        r == signed_pattern(x as int, 32),
        crate::scalar::fits(r, 32),
{
    proof {
        vstd::arithmetic::power2::lemma2_to64();
        vstd::arithmetic::power2::lemma2_to64_rest();
    }
    if x < 0 {
        (x as i64 + 4294967296) as u64
    } else {
        x as u64
    }
}

fn i32_from_pattern(r: u64) -> (x: i32)
    requires
        crate::scalar::fits(r, 32),
    ensures
        signed_pattern(x as int, 32) == r,
{
    proof {
        vstd::arithmetic::power2::lemma2_to64();
        vstd::arithmetic::power2::lemma2_to64_rest();
    }
    if r >= 2147483648 {
        (r as i64 - 4294967296) as i32
    } else {
        r as i32
    }
}

impl Mutatable for i32 {
    type RangeType = i32;

    /// One scalar visit of the engine on the 32-bit two's-complement pattern of this value.
    open spec fn mutation_of(
        &self,
        new: i32,
        before: CorpusFuzzingState,
        flags: MutatorFlags,
        after: CorpusFuzzingState,
    ) -> bool {
        scalar_mutation(signed_pattern(*self as int, 32) as u64, signed_pattern(new as int, 32) as u64, 32, before, flags, after)
    }

    fn mutate(&mut self, mutator: &mut Mutator, constraints: Option<&Constraints<i32>>) {
        let r = mutator.mutate(i32_pattern(*self), 32);
        *self = i32_from_pattern(r);
    }
}

fn i64_pattern(x: i64) -> (r: u64)
    ensures
        r == signed_pattern(x as int, 64),
        crate::scalar::fits(r, 64),
{
    proof {
        vstd::arithmetic::power2::lemma2_to64();
        vstd::arithmetic::power2::lemma2_to64_rest();
    }
    if x < 0 {
        (x as i128 + 18446744073709551616) as u64
    } else {
        x as u64
    }
}

fn i64_from_pattern(r: u64) -> (x: i64)
    requires
        crate::scalar::fits(r, 64),
    ensures
        signed_pattern(x as int, 64) == r,
{
    proof {
        vstd::arithmetic::power2::lemma2_to64();
        vstd::arithmetic::power2::lemma2_to64_rest();
    }
    if r >= 9223372036854775808 {
        (r as i128 - 18446744073709551616) as i64
    } else {
        r as i64
    }
}

impl Mutatable for i64 {
    type RangeType = i64;

    /// One scalar visit of the engine on the 64-bit two's-complement pattern of this value.
    open spec fn mutation_of(
        &self,
        new: i64,
        before: CorpusFuzzingState,
        flags: MutatorFlags,
        after: CorpusFuzzingState,
    ) -> bool {
        scalar_mutation(signed_pattern(*self as int, 64) as u64, signed_pattern(new as int, 64) as u64, 64, before, flags, after)
    }

    fn mutate(&mut self, mutator: &mut Mutator, constraints: Option<&Constraints<i64>>) {
        let r = mutator.mutate(i64_pattern(*self), 64);
        *self = i64_from_pattern(r);
    }
}

impl Mutatable for bool {
    type RangeType = u8;

    /// A fresh random value; the corpus state is untouched.
    open spec fn mutation_of(
        &self,
        new: bool,
        before: CorpusFuzzingState,
        flags: MutatorFlags,
        after: CorpusFuzzingState,
    ) -> bool {
        after == before
    }

    /// A fresh random value.
    fn mutate(&mut self, mutator: &mut Mutator, constraints: Option<&Constraints<u8>>) {
        *self = rng_range(&mut mutator.rng, 0, 2) != 0;
    }
}

impl<T: ToPrimitive<Output = I>, I: Mutatable + FixedSize + Copy> Mutatable for UnsafeEnum<T, I> {
    type RangeType = I;

    /// The result is a raw discriminant, one mutation of the value's
    /// primitive (a valid value being demoted to its discriminant first).
    open spec fn mutation_of(
        &self,
        new: UnsafeEnum<T, I>,
        before: CorpusFuzzingState,
        flags: MutatorFlags,
        after: CorpusFuzzingState,
    ) -> bool {
        match new {
            UnsafeEnum::Invalid(q) => self.primitive().mutation_of(q, before, flags, after),
            UnsafeEnum::Valid(_) => false,
        }
    }

    /// A valid value is first demoted to its raw discriminant, which is then
    /// mutated: the result is always a raw discriminant.
    fn mutate(&mut self, mutator: &mut Mutator, constraints: Option<&Constraints<I>>)
        ensures
            *final(self) is Invalid,
    {
        let mut raw: I = match self {
            UnsafeEnum::Valid(v) => v.to_primitive(),
            UnsafeEnum::Invalid(i) => *i,
        };
        proof {
            raw.lemma_fixed_size();
        }
        raw.mutate(mutator, None);
        proof {
            raw.lemma_fixed_size();
        }
        *self = UnsafeEnum::Invalid(raw);
    }
}

} // verus!

verus! {

/// Chance that a mutated collection is resized rather than mutated in place.
pub const CHANCE_TO_RESIZE_VEC: u32 = 10;

/// How many elements a resize adds or removes.
#[derive(Debug, Clone, Copy, PartialEq, Eq, Structural)]
pub enum VecResizeCount {
    Quarter,
    Half,
    ThreeQuarters,
    FixedBytes,
    AllBytes,
}

/// Which end of a collection a resize works on.
#[derive(Debug, Clone, Copy, PartialEq, Eq, Structural)]
pub enum VecResizeDirection {
    FromBeginning,
    FromEnd,
}

/// Whether a resize grows or shrinks a collection.
#[derive(Debug, Clone, Copy, PartialEq, Eq, Structural)]
pub enum VecResizeType {
    Grow,
    Shrink,
}

fn pick_resize_count(mutator: &mut Mutator) -> (r: VecResizeCount)
    ensures
        final(mutator).flags == old(mutator).flags,
        final(mutator).corpus_state == old(mutator).corpus_state,
{
    let k = rng_range(&mut mutator.rng, 0, 5);
    if k == 0 {
        VecResizeCount::Quarter
    } else if k == 1 {
        VecResizeCount::Half
    } else if k == 2 {
        VecResizeCount::ThreeQuarters
    } else if k == 3 {
        VecResizeCount::FixedBytes
    } else {
        VecResizeCount::AllBytes
    }
}

fn pick_direction(mutator: &mut Mutator) -> (r: VecResizeDirection)
    ensures
        final(mutator).flags == old(mutator).flags,
        final(mutator).corpus_state == old(mutator).corpus_state,
{
    if rng_range(&mut mutator.rng, 0, 2) == 0 {
        VecResizeDirection::FromBeginning
    } else {
        VecResizeDirection::FromEnd
    }
}

/// The number of elements a shrink of a collection of `len` elements removes
/// for a given count kind, `fixed` being the drawn fixed number.
pub open spec fn shrink_amount(len: usize, count: VecResizeCount, fixed: usize) -> usize {
    match count {
        VecResizeCount::Quarter => len / 4,
        VecResizeCount::Half => len / 2,
        VecResizeCount::ThreeQuarters => (len - len / 4) as usize,
        VecResizeCount::FixedBytes => fixed,
        VecResizeCount::AllBytes => len,
    }
}

/// Exec form of [`shrink_amount`].
pub fn shrink_amount_of(len: usize, count: VecResizeCount, fixed: usize) -> (r: usize)
    ensures
        r == shrink_amount(len, count, fixed),
{
    match count {
        VecResizeCount::Quarter => len / 4,
        VecResizeCount::Half => len / 2,
        VecResizeCount::ThreeQuarters => len - len / 4,
        VecResizeCount::FixedBytes => fixed,
        VecResizeCount::AllBytes => len,
    }
}

/// `new` is `old` with elements removed from one end.
pub open spec fn is_trimmed<T>(old: Seq<T>, new: Seq<T>) -> bool {
    &&& new.len() <= old.len()
    &&& (new == old.subrange(0, new.len() as int) || new == old.subrange(
        old.len() - new.len(),
        old.len() as int,
    ))
}

/// `new` is `old` trimmed at one end, and strictly shorter once `old` has
/// four elements or more (every resize count then removes at least one).
pub open spec fn is_shrunk<T>(old: Seq<T>, new: Seq<T>) -> bool {
    is_trimmed(old, new) && (old.len() >= 4 ==> new.len() < old.len())
}

/// `new` keeps all of `old` at its beginning or at its end, and has more
/// elements.
pub open spec fn is_extended<T>(old: Seq<T>, new: Seq<T>) -> bool {
    &&& new.len() > old.len()
    &&& (new.subrange(0, old.len() as int) == old || new.subrange(
        new.len() - old.len(),
        new.len() as int,
    ) == old)
}

/// The first `states.len() - 1` elements of `olds` were mutated in turn, the
/// engine's corpus state going through `states`; the rest were left as they
/// were, which happens only when the per-iteration field limit stopped the
/// pass.
pub open spec fn in_place_chain<T: Mutatable>(
    olds: Seq<T>,
    news: Seq<T>,
    states: Seq<CorpusFuzzingState>,
    flags: MutatorFlags,
) -> bool {
    &&& states.len() >= 1
    &&& states.len() - 1 <= olds.len()
    &&& news.len() == olds.len()
    &&& forall|i: int|
        0 <= i < states.len() - 1 ==> #[trigger] olds[i].mutation_of(
            news[i],
            states[i],
            flags,
            states[i + 1],
        )
    &&& forall|i: int| states.len() - 1 <= i < olds.len() ==> #[trigger] news[i] == olds[i]
    &&& states.len() - 1 < olds.len() ==> flags.field_count == Some(states.last().fields_fuzzed)
}

proof fn lemma_trimmed_size<T: SerializedSize>(old: Seq<T>, new: Seq<T>)
    requires
        is_trimmed(old, new),
    ensures
        seq_size(new) <= seq_size(old),
{
    let k = new.len() as int;
    if new == old.subrange(0, k) {
        lemma_size_concat(old.subrange(0, k), old.subrange(k, old.len() as int));
        assert(old == old.subrange(0, k) + old.subrange(k, old.len() as int));
    } else {
        let j = old.len() - k;
        lemma_size_concat(old.subrange(0, j), old.subrange(j, old.len() as int));
        assert(old == old.subrange(0, j) + old.subrange(j, old.len() as int));
    }
}

/// Shrinks a collection: removes a quarter, a half, three quarters, a number in
/// `[1, 9)` or all of its elements (a random number when the count rounds to
/// zero) from its beginning or its end; a count that covers the whole
/// collection clears it.
pub fn shrink_vec<T>(vec: &mut Vec<T>, mutator: &mut Mutator)
    ensures
        is_shrunk(old(vec)@, final(vec)@),
        final(mutator).flags == old(mutator).flags,
        final(mutator).corpus_state == old(mutator).corpus_state,
{
    let len = vec.len();
    if len == 0 {
        assert(vec@ == old(vec)@.subrange(0, 0));
        return;
    }
    let count = pick_resize_count(mutator);
    let fixed = if count == VecResizeCount::FixedBytes {
        rng_range(&mut mutator.rng, 1, 9) as usize
    } else {
        0
    };
    let mut n = shrink_amount_of(len, count, fixed);
    if n == 0 {
        n = rng_range(&mut mutator.rng, 0, len as u64 + 1) as usize;
    }
    if n > len {
        n = len;
    }
    if n == len {
        vec.clear();
        assert(vec@ == old(vec)@.subrange(0, 0));
        return;
    }
    match pick_direction(mutator) {
        VecResizeDirection::FromBeginning => {
            let rest = vec.split_off(n);
            *vec = rest;
        },
        VecResizeDirection::FromEnd => {
            vec.truncate(len - n);
        },
    }
}

/// A number in `[1, k]`, or 0 when `k` is 0.
fn count_up_to(mutator: &mut Mutator, k: usize) -> (r: usize)
    ensures
        r <= k,
        k > 0 ==> r >= 1,
        final(mutator).flags == old(mutator).flags,
        final(mutator).corpus_state == old(mutator).corpus_state,
{
    if k == 0 {
        return 0;
    }
    if k as u64 == u64::MAX {
        return rng_range(&mut mutator.rng, 1, u64::MAX) as usize;
    }
    rng_range(&mut mutator.rng, 1, k as u64 + 1) as usize
}

/// Grows a collection: adds a quarter, a half or three quarters of its length,
/// a number in `[1, 9)`, or as many elements as the budget holds, at its
/// beginning or its end. The added elements fit in `max_size` together;
/// generation stops at the first one that would not.
pub fn grow_vec<T: NewFuzzed + Clone>(vec: &mut Vec<T>, mutator: &mut Mutator, max_size: Option<usize>)
    requires
        old(mutator).wf(),
    ensures
        final(mutator).wf(),
        final(mutator).flags == old(mutator).flags,
        final(vec).len() >= old(vec).len(),
        final(vec)@.subrange(0, old(vec).len() as int) == old(vec)@ || final(vec)@.subrange(
            final(vec).len() - old(vec).len(),
            final(vec).len() as int,
        ) == old(vec)@,
        max_size matches Some(b) ==> seq_size(final(vec)@) <= seq_size(old(vec)@) + b,
        T::default_size() > 0 && (old(vec).len() == 0 || old(vec).len() >= 4) && (max_size is Some
            ==> T::default_size() <= max_size.unwrap() < usize::MAX) ==> final(vec).len() > old(
            vec,
        ).len(),
        T::default_size() > 0 && old(vec).len() == 0 && max_size is None ==> 1 <= final(vec).len()
            < 9,
{
    let unit = T::max_default_object_size();
    if unit == 0 {
        return;
    }
    let len = vec.len();
    proof {
        if max_size is Some && unit <= max_size.unwrap() {
            let b = max_size.unwrap();
            assert(b / unit >= 1) by (nonlinear_arith)
                requires
                    0 < unit <= b,
            ;
        }
    }
    let count = pick_resize_count(mutator);
    let mut n: usize = if len == 0 {
        match max_size {
            Some(b) => count_up_to(mutator, b / unit),
            None => rng_range(&mut mutator.rng, 1, 9) as usize,
        }
    } else {
        match count {
            VecResizeCount::Quarter => len / 4,
            VecResizeCount::Half => len / 2,
            VecResizeCount::ThreeQuarters => len - len / 4,
            VecResizeCount::FixedBytes => rng_range(&mut mutator.rng, 1, 9) as usize,
            VecResizeCount::AllBytes => match max_size {
                Some(b) => count_up_to(mutator, b / unit),
                None => count_up_to(mutator, len),
            },
        }
    };
    if let Some(b) = max_size {
        if n > b / unit {
            n = b / unit;
        }
    }
    if n == 0 {
        assert(vec@.subrange(0, vec.len() as int) == vec@);
        return;
    }
    let mut fresh: Vec<T> = crate::new_fuzzed::generate_elements(mutator, n, max_size);
    let ghost f = fresh@;
    proof {
        lemma_size_concat(f, old(vec)@);
        lemma_size_concat(old(vec)@, f);
    }
    match pick_direction(mutator) {
        VecResizeDirection::FromBeginning => {
            fresh.append(vec);
            *vec = fresh;
            assert(vec@ == f + old(vec)@);
            assert(vec@.subrange(vec.len() - old(vec).len(), vec.len() as int) == old(vec)@);
        },
        VecResizeDirection::FromEnd => {
            vec.append(&mut fresh);
            assert(vec@ == old(vec)@ + f);
            assert(vec@.subrange(0, old(vec).len() as int) == old(vec)@);
        },
    }
}

impl<T: NewFuzzed + Mutatable + Clone> Mutatable for Vec<T> {
    type RangeType = usize;

    /// The collection was shrunk, extended, or mutated element by element in
    /// place; a collection whose size is past `usize::MAX` is left as it is.
    open spec fn mutation_of(
        &self,
        new: Vec<T>,
        before: CorpusFuzzingState,
        flags: MutatorFlags,
        after: CorpusFuzzingState,
    ) -> bool {
        ||| is_shrunk(self@, new@)
        ||| is_extended(self@, new@)
        ||| exists|states: Seq<CorpusFuzzingState>|
            #[trigger] in_place_chain(self@, new@, states, flags) && states[0] == before
                && states.last() == after
        ||| (new@ == self@ && seq_size(self@) >= usize::MAX)
    }

    /// By a small chance the collection is resized: grown while the budget
    /// has room (shrunk instead when growing added nothing), or shrunk.
    /// Otherwise each element is mutated in place, within the room the budget
    /// leaves, until the per-iteration field limit stops the pass.
    fn mutate(&mut self, mutator: &mut Mutator, constraints: Option<&Constraints<usize>>) {
        let ghost c0 = constraints_of(constraints);
        let ghost old_size = seq_size(self@);
        let current = self.serialized_size();
        if current == usize::MAX {
            return;
        }
        let room: Option<usize> = match constraints {
            Some(c) => match c.max_size {
                Some(m) => {
                    if c.base_object_size_accounted_for {
                        if m > usize::MAX - current {
                            Some(usize::MAX - current)
                        } else {
                            Some(m)
                        }
                    } else if m >= current {
                        Some(m - current)
                    } else {
                        Some(0)
                    }
                },
                None => None,
            },
            None => None,
        };
        proof {
            match room {
                Some(e) => {
                    assert(allowed_size(c0, old_size) matches Some(a) && (old_size <= a ==> old_size
                        + e <= a));
                },
                None => {
                    assert(allowed_size(c0, old_size) is None);
                },
            }
        }
        let can_grow = match room {
            Some(e) => e > 0,
            None => true,
        };
        if mutator.gen_chance(CHANCE_TO_RESIZE_VEC) {
            let grow = rng_range(&mut mutator.rng, 0, 2) == 0;
            if grow && can_grow {
                let before_len = self.len();
                grow_vec(self, mutator, room);
                if self.len() > before_len {
                    return;
                }
                assert(self@ == self@.subrange(0, before_len as int));
            }
            shrink_vec(self, mutator);
            proof {
                lemma_trimmed_size(old(self)@, self@);
            }
            return;
        }
        let ghost flags0 = mutator.flags;
        let ghost mut states: Seq<CorpusFuzzingState> = seq![mutator.corpus_state];
        let mut extra: usize = match room {
            Some(e) => e,
            None => 0,
        };
        let mut i: usize = 0;
        while i < self.len()
            invariant
                mutator.wf(),
                mutator.flags == old(mutator).flags,
                flags0 == old(mutator).flags,
                self.len() == old(self).len(),
                i <= self.len(),
                room matches Some(e) ==> seq_size(self@) + extra <= old_size + e,
                old_size == seq_size(old(self)@),
                old_size < usize::MAX,
                room matches Some(e) ==> old_size + e <= usize::MAX,
                states.len() == i + 1,
                states[0] == old(mutator).corpus_state,
                states.last() == mutator.corpus_state,
                forall|j: int|
                    0 <= j < i ==> #[trigger] old(self)@[j].mutation_of(
                        self@[j],
                        states[j],
                        flags0,
                        states[j + 1],
                    ),
                forall|j: int| i <= j < self.len() ==> #[trigger] self@[j] == old(self)@[j],
            ensures
                i < self.len() ==> flags0.field_count == Some(mutator.corpus_state.fields_fuzzed),
                i <= self.len(),
            decreases self.len() - i,
        {
            if mutator.should_early_bail_mutation() {
                break;
            }
            let ghost before = self@;
            let ghost state_before = mutator.corpus_state;
            match room {
                Some(e) => {
                    proof {
                        lemma_prefix_size(before, i + 1);
                        lemma_size_update(before, i as int, before[i as int]);
                        assert(before.update(i as int, before[i as int]) == before);
                        let pre = before.subrange(0, i as int);
                        assert(before.subrange(0, i + 1) == pre.push(before[i as int]));
                        lemma_size_push(pre, before[i as int]);
                    }
                    let old_elem = self[i].serialized_size();
                    let mut c: Constraints<<T as Mutatable>::RangeType> = Constraints::with_max_size(
                        extra,
                    );
                    c.base_object_size_accounted_for = true;
                    self[i].mutate(mutator, Some(&c));
                    proof {
                        lemma_size_update(before, i as int, self@[i as int]);
                    }
                    let new_elem = self[i].serialized_size();
                    if new_elem >= old_elem {
                        extra = extra - (new_elem - old_elem);
                    } else {
                        let back = old_elem - new_elem;
                        extra = if extra > usize::MAX - back {
                            usize::MAX
                        } else {
                            extra + back
                        };
                    }
                },
                None => {
                    self[i].mutate(mutator, None);
                },
            }
            proof {
                states = states.push(mutator.corpus_state);
                assert(self@ == before.update(i as int, self@[i as int]));
                assert(old(self)@[i as int] == before[i as int]);
            }
            i += 1;
        }
        proof {
            assert(in_place_chain(old(self)@, self@, states, flags0));
        }
    }
}

} // verus!

verus! {

/// Chance that a mutated optional value switches between present and absent.
pub const CHANCE_TO_FLIP_OPTION_STATE: u32 = 10;

impl<T: SerializedSize> SerializedSize for Option<T> {
    open spec fn byte_size(&self) -> nat {
        match self {
            Some(t) => t.byte_size(),
            None => 0,
        }
    }

    open spec fn min_nonzero_size() -> nat {
        T::min_nonzero_size()
    }

    open spec fn default_size() -> nat {
        0
    }

    fn serialized_size(&self) -> (r: usize) {
        match self {
            Some(t) => t.serialized_size(),
            None => 0,
        }
    }

    fn min_nonzero_elements_size() -> (r: usize) {
        T::min_nonzero_elements_size()
    }

    fn max_default_object_size() -> (r: usize) {
        0
    }

    fn min_enum_variant_size(&self) -> (r: usize) {
        T::min_nonzero_elements_size()
    }
}

impl<T: Mutatable + NewFuzzed> Mutatable for Option<T> {
    type RangeType = <T as Mutatable>::RangeType;

    /// A present value is mutated or dropped; an absent one may become
    /// present.
    open spec fn mutation_of(
        &self,
        new: Option<T>,
        before: CorpusFuzzingState,
        flags: MutatorFlags,
        after: CorpusFuzzingState,
    ) -> bool {
        match *self {
            Some(a) => match new {
                Some(b) => a.mutation_of(b, before, flags, after),
                None => after == before,
            },
            None => true,
        }
    }

    /// By a small chance a present value is dropped, or an absent one is
    /// generated (kept only when it fits the budget); otherwise a present
    /// value is mutated in place.
    fn mutate(&mut self, mutator: &mut Mutator, constraints: Option<&Constraints<<T as Mutatable>::RangeType>>) {
        let flip = mutator.gen_chance(CHANCE_TO_FLIP_OPTION_STATE);
        match self {
            Some(inner) => {
                if flip {
                    *self = None;
                } else {
                    inner.mutate(mutator, constraints);
                }
            },
            None => {
                if flip {
                    let limit: Option<usize> = match constraints {
                        Some(c) => c.max_size,
                        None => None,
                    };
                    let c: Option<Constraints<<T as NewFuzzed>::RangeType>> = match limit {
                        Some(m) => Some(Constraints::with_max_size(m)),
                        None => None,
                    };
                    proof {
                        T::lemma_accepts_unbounded();
                    }
                    let fresh = T::new_fuzzed(mutator, c.as_ref());
                    match limit {
                        Some(m) => {
                            let size = fresh.serialized_size();
                            if size <= m && size < usize::MAX {
                                *self = Some(fresh);
                            }
                        },
                        None => {
                            *self = Some(fresh);
                        },
                    }
                }
            },
        }
    }
}

} // verus!
