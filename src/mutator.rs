//! The engine ("mutator"): one random stream, the per-iteration flags and the
//! corpus state, with range sampling and scalar mutation on top of them.

use vstd::prelude::*;
use crate::dangerous_numbers::{dangerous_table, dangerous_number_of, dangerous_numbers_len_of};
use crate::mode::{MutatorMode, CorpusFuzzingState, initial_corpus_state, next_mode};
use crate::rng::{rng_from_seed, rng_range, rng_ratio, rng_sample_indices, rng_weighted_index, weight_sum};
use crate::scalar::{
    valid_width,
    fits,
    run_mask,
    wrapped_add,
    wrapped_sub,
    bit_flip_at,
    flip_bits_at,
    flip_run,
    add_wrapping,
    sub_wrapping,
};
use crate::types::Weighted;

verus! {

/// Chances are given in parts per thousand.
pub const CHANCE_SCALE: u32 = 1000;

/// Chance that a generated collection repeats its first element.
pub const CHANCE_TO_REPEAT_ARRAY_VALUE: u32 = 10;

/// Chance that a generated sum type takes an out-of-range discriminant.
pub const CHANCE_TO_PICK_INVALID_ENUM: u32 = 10;

/// Chance that a generated scalar ignores one of its declared bounds.
pub const CHANCE_TO_IGNORE_MIN_MAX: u32 = 10;

/// Chance that the post-mutation fixup is skipped.
pub const CHANCE_TO_IGNORE_POST_MUTATION: u32 = 50;

/// Chance that a havoc pass limited to a field count skips a given field.
pub const CHANCE_TO_SKIP_LIMITED_FIELD: u32 = 750;

/// Chance that a new iteration limits the number of fields it mutates.
pub const CHANCE_TO_LIMIT_FIELD_COUNT: u32 = 100;

/// Flags drawn anew for each fuzzing iteration.
#[derive(Debug, Clone, Copy)]
pub struct MutatorFlags {
    /// Mutate at most this many fields in a havoc pass.
    pub field_count: Option<usize>,
    /// Always run the post-mutation fixup.
    pub always_fixup: bool,
    /// Make every chance below certainty succeed.
    pub all_chances_succeed: bool,
}

/// The flags of a fresh engine.
pub open spec fn default_flags() -> MutatorFlags {
    MutatorFlags { field_count: None, always_fixup: false, all_chances_succeed: false }
}

/// The sampling of `[min, max)` is uniform: no weight, or too narrow a range.
pub open spec fn is_uniform(min: u64, max: u64, weighted: Weighted) -> bool {
    weighted == Weighted::Uniform || max - min < 6
}

/// The width of each of the three slices of a weighted range.
pub open spec fn third_of(min: u64, max: u64) -> int {
    (max - min) / 3
}

/// The lower bound of slice `s` (0, 1 or 2) of `[min, max)`.
pub open spec fn slice_low(min: u64, max: u64, s: int) -> int {
    min + s * third_of(min, max)
}

/// The upper bound of slice `s` of `[min, max)`; the last slice ends at `max`.
pub open spec fn slice_high(min: u64, max: u64, s: int) -> int {
    if s == 2 {
        max as int
    } else {
        min + (s + 1) * third_of(min, max)
    }
}

/// The weight of slice `s`: 7 for the favored end, 2 for the middle, 1 for the
/// opposite end.
pub open spec fn slice_weight(weighted: Weighted, s: int) -> u64 {
    if s == 1 {
        2
    } else if (s == 0) == (weighted == Weighted::Min) {
        7
    } else {
        1
    }
}

/// `r` is `x` with exactly one of its `width` bits flipped.
pub open spec fn single_bit_flip(x: u64, r: u64, width: u32) -> bool {
    exists|i: u32| #![trigger (x ^ (1u64 << i))] i < width && r == x ^ (1u64 << i)
}

/// `r` is `x` with a nonempty set of its `width` bits flipped (any number of
/// distinct bits from one to all of them).
pub open spec fn multi_bit_flip(x: u64, r: u64, width: u32) -> bool {
    exists|m: u64| #![trigger (x ^ m)] m != 0 && fits(m, width) && r == x ^ m
}

/// `r` is `x` plus or minus a value in `[1, 16)`, wrapped to `width` bits.
pub open spec fn arithmetic_step(x: u64, r: u64, width: u32) -> bool {
    exists|k: u64|
        #![trigger wrapped_add(x, k, width)]
        1 <= k < 16 && (r == wrapped_add(x, k, width) || r == wrapped_sub(x, k, width))
}

/// What one havoc mutation of the `width`-bit pattern `x` may give: the
/// outcome of one of the three strategies. (A multi-bit flip alone can reach
/// every other pattern of the width; the other two strategies are narrower.)
pub open spec fn havoc_outcome(x: u64, r: u64, width: u32) -> bool {
    single_bit_flip(x, r, width) || multi_bit_flip(x, r, width) || arithmetic_step(x, r, width)
}

/// One scalar visit of the engine on a `width`-bit pattern, from corpus state
/// `before` to `after`: outside havoc, exactly the deterministic visit; in
/// havoc, either the field is skipped under the per-iteration field limit
/// (nothing changes) or the visit is counted and one strategy is applied,
/// nothing else of the corpus state changing.
pub open spec fn scalar_mutation(
    x: u64,
    r: u64,
    width: u32,
    before: CorpusFuzzingState,
    flags: MutatorFlags,
    after: CorpusFuzzingState,
) -> bool {
    if before.mode != MutatorMode::Havoc {
        r == visit_value(before, x, width) && after == visit_state(before, width)
    } else {
        (flags.field_count is Some && r == x && after == before) || (after == (CorpusFuzzingState {
            fields_fuzzed: bumped(before.fields_fuzzed),
            ..before
        }) && havoc_outcome(x, r, width))
    }
}

/// The visited field is the live one of this pass: it is the targeted field
/// and no field has been mutated yet in this pass.
pub open spec fn is_live(cs: CorpusFuzzingState) -> bool {
    cs.fields_fuzzed == cs.targeted_field_idx && !cs.finished_iteration
}

/// The value a deterministic (non-havoc) visit of a `width`-bit scalar leaves:
/// only the live field changes.
pub open spec fn visit_value(cs: CorpusFuzzingState, x: u64, width: u32) -> u64 {
    if !is_live(cs) {
        x
    } else {
        match cs.mode {
            MutatorMode::WalkingBitFlip { bits, current_idx } => {
                if 1 <= bits && current_idx + bits <= width {
                    x ^ run_mask(current_idx as u32, bits as u32)
                } else {
                    x
                }
            },
            MutatorMode::InterestingValues { current_idx } => {
                if current_idx < dangerous_table(width).len() {
                    dangerous_table(width)[current_idx as int]
                } else {
                    x
                }
            },
            MutatorMode::Havoc => x,
        }
    }
}

/// One more visited field, saturating.
pub open spec fn bumped(n: usize) -> usize {
    if n < usize::MAX {
        (n + 1) as usize
    } else {
        n
    }
}

/// The corpus state after a deterministic visit of a `width`-bit scalar: the
/// visit is counted; when the visited field is the live one, the mode
/// advances and the pass is marked as having mutated its field.
pub open spec fn visit_state(cs: CorpusFuzzingState, width: u32) -> CorpusFuzzingState {
    let visited = bumped(cs.fields_fuzzed);
    let total = if cs.target_total_fields >= visited {
        cs.target_total_fields
    } else {
        visited
    };
    if is_live(cs) {
        let (m, t) = next_mode(
            cs.mode,
            cs.targeted_field_idx as nat,
            total as nat,
            width as nat,
            dangerous_table(width).len(),
        );
        CorpusFuzzingState {
            fields_fuzzed: visited,
            mode: m,
            targeted_field_idx: t as usize,
            target_total_fields: total,
            finished_iteration: true,
            ..cs
        }
    } else {
        CorpusFuzzingState { fields_fuzzed: visited, target_total_fields: total, ..cs }
    }
}

impl Default for CorpusFuzzingState {
    fn default() -> (r: CorpusFuzzingState)
        ensures
            r == initial_corpus_state(),
    {
        CorpusFuzzingState::initial()
    }
}

impl Default for MutatorFlags {
    fn default() -> (r: MutatorFlags)
        ensures
            r == default_flags(),
    {
        MutatorFlags { field_count: None, always_fixup: false, all_chances_succeed: false }
    }
}

impl CorpusFuzzingState {
    /// The targeted field never lies beyond the fields seen.
    pub open spec fn wf(&self) -> bool {
        self.targeted_field_idx <= self.target_total_fields
    }

    /// Starts a new pass over the same corpus item.
    pub fn reset(&mut self)
        ensures
            *final(self) == (CorpusFuzzingState {
                fields_fuzzed: 0,
                finished_iteration: false,
                ..*old(self)
            }),
    {
        self.fields_fuzzed = 0;
        self.finished_iteration = false;
    }

    /// The state of a freshly generated base instance.
    pub fn initial() -> (r: CorpusFuzzingState)
        ensures
            r == initial_corpus_state(),
    {
        CorpusFuzzingState {
            fields_fuzzed: 0,
            mode: MutatorMode::WalkingBitFlip { bits: 1, current_idx: 0 },
            targeted_field_idx: 0,
            target_total_fields: 0,
            target_total_passes: 0,
            finished_iteration: false,
        }
    }
}

/// The bounds of slice `s` (0, 1 or 2) of the weighted range `[min, max)`.
pub fn weighted_slice_bounds(min: u64, max: u64, s: usize) -> (r: (u64, u64))
    requires
        min < max,
        s < 3,
    ensures
        r.0 == slice_low(min, max, s as int),
        r.1 == slice_high(min, max, s as int),
        min <= r.0 <= r.1 <= max,
        max - min >= 6 ==> r.0 < r.1,
{
    let third: u64 = (max - min) / 3;
    assert(third * 3 <= max - min) by (nonlinear_arith)
        requires
            third == (max - min) / 3,
    ;
    let low: u64 = if s == 0 {
        min
    } else if s == 1 {
        min + third
    } else {
        min + 2 * third
    };
    let high: u64 = if s == 0 {
        min + third
    } else if s == 1 {
        min + 2 * third
    } else {
        max
    };
    (low, high)
}

/// The weights of the three slices of a weighted range, lowest slice first.
pub fn slice_weights(weighted: Weighted) -> (r: Vec<u64>)
    ensures
        r.len() == 3,
        forall|s: int| 0 <= s < 3 ==> r[s] == slice_weight(weighted, s),
        weight_sum(r@) == 10,
{
    let mut r: Vec<u64> = Vec::new();
    if weighted == Weighted::Min {
        r.push(7);
        r.push(2);
        r.push(1);
    } else {
        r.push(1);
        r.push(2);
        r.push(7);
    }
    proof {
        assert(r@.drop_last().drop_last().drop_last() =~= Seq::<u64>::empty());
        reveal_with_fuel(weight_sum, 4);
    }
    r
}

/// Object which provides helper routines for mutating data structures and
/// manages the random stream.
pub struct Mutator {
    pub rng: rand::rngs::StdRng,
    pub flags: MutatorFlags,
    pub corpus_state: CorpusFuzzingState,
}

impl Mutator {
    /// The engine's invariant.
    pub open spec fn wf(&self) -> bool {
        self.corpus_state.wf()
    }

    /// An engine over the given random stream, with default flags and the
    /// state of a new corpus item.
    pub fn new(rng: rand::rngs::StdRng) -> (r: Mutator)
        ensures
            r.flags == default_flags(),
            r.corpus_state == initial_corpus_state(),
            r.wf(),
    {
        Mutator {
            rng,
            flags: MutatorFlags { field_count: None, always_fixup: false, all_chances_succeed: false },
            corpus_state: CorpusFuzzingState::initial(),
        }
    }

    /// An engine whose random stream is seeded from `seed`.
    pub fn from_seed(seed: u64) -> (r: Mutator)
        ensures
            r.flags == default_flags(),
            r.corpus_state == initial_corpus_state(),
            r.wf(),
    {
        Mutator::new(rng_from_seed(seed))
    }

    /// Replaces the random stream by one seeded from `seed`; nothing else changes.
    pub fn reseed(&mut self, seed: u64)
        ensures
            final(self).flags == old(self).flags,
            final(self).corpus_state == old(self).corpus_state,
    {
        self.rng = rng_from_seed(seed);
    }

    pub fn get_corpus_state(&self) -> (r: CorpusFuzzingState)
        ensures
            r == self.corpus_state,
    {
        self.corpus_state
    }

    pub fn set_corpus_state(&mut self, state: CorpusFuzzingState)
        requires
            state.wf(),
        ensures
            final(self).corpus_state == state,
            final(self).flags == old(self).flags,
            final(self).wf(),
    {
        self.corpus_state = state;
    }

    /// The current mutation mode.
    pub fn mode(&self) -> (r: MutatorMode)
        ensures
            r == self.corpus_state.mode,
    {
        self.corpus_state.mode
    }

    /// Starts a new corpus item: the corpus state is reset fully.
    pub fn begin_new_corpus(&mut self)
        ensures
            final(self).corpus_state == initial_corpus_state(),
            final(self).flags == old(self).flags,
            final(self).wf(),
    {
        self.corpus_state = CorpusFuzzingState::initial();
    }

    /// Starts a new pass over the current corpus item: the visit count is
    /// reset and the pass is counted; mode and targeted field are kept.
    pub fn begin_new_iteration(&mut self)
        requires
            old(self).wf(),
        ensures
            final(self).corpus_state == (CorpusFuzzingState {
                fields_fuzzed: 0,
                finished_iteration: false,
                target_total_passes: bumped(old(self).corpus_state.target_total_passes),
                ..old(self).corpus_state
            }),
            final(self).flags == old(self).flags,
            final(self).wf(),
    {
        self.corpus_state.reset();
        if self.corpus_state.target_total_passes < usize::MAX {
            self.corpus_state.target_total_passes = self.corpus_state.target_total_passes + 1;
        }
    }

    /// Closes the current pass: no further field is mutated in it.
    pub fn end_iteration(&mut self)
        ensures
            final(self).corpus_state == (CorpusFuzzingState {
                finished_iteration: true,
                ..old(self).corpus_state
            }),
            final(self).flags == old(self).flags,
    {
        self.corpus_state.finished_iteration = true;
    }

    /// Counts one visited field without changing it.
    pub fn increment_fields_fuzzed(&mut self)
        ensures
            final(self).corpus_state == (CorpusFuzzingState {
                fields_fuzzed: bumped(old(self).corpus_state.fields_fuzzed),
                ..old(self).corpus_state
            }),
            final(self).flags == old(self).flags,
    {
        if self.corpus_state.fields_fuzzed < usize::MAX {
            self.corpus_state.fields_fuzzed = self.corpus_state.fields_fuzzed + 1;
        }
    }

    /// A random value of type `T`, generated without constraints.
    pub fn gen<T: crate::traits::NewFuzzed>(&mut self) -> (r: T)
        requires
            old(self).wf(),
        ensures
            final(self).wf(),
            final(self).flags == old(self).flags,
    {
        T::new_fuzzed(self, None)
    }

    /// A number in `[min, max)`.
    pub fn gen_range(&mut self, min: u64, max: u64) -> (r: u64)
        requires
            min < max,
        ensures
            min <= r < max,
            final(self).flags == old(self).flags,
            final(self).corpus_state == old(self).corpus_state,
    {
        rng_range(&mut self.rng, min, max)
    }

    /// A number in `[min, max)`, weighted towards one end: unless the range is
    /// uniform, one of three slices is chosen with weights 7, 2 and 1 from the
    /// favored end, then a number uniformly within it.
    pub fn gen_weighted_range(&mut self, min: u64, max: u64, weighted: Weighted) -> (r: u64)
        requires
            min < max,
        ensures
            min <= r < max,
            !is_uniform(min, max, weighted) ==> exists|s: int|
                0 <= s < 3 && #[trigger] slice_low(min, max, s) <= r < slice_high(min, max, s),
            final(self).flags == old(self).flags,
            final(self).corpus_state == old(self).corpus_state,
    {
        if weighted == Weighted::Uniform || max - min < 6 {
            return self.gen_range(min, max);
        }
        let weights = slice_weights(weighted);
        let s = rng_weighted_index(&mut self.rng, &weights);
        let (low, high) = weighted_slice_bounds(min, max, s);
        let r = rng_range(&mut self.rng, low, high);
        assert(slice_low(min, max, s as int) <= r < slice_high(min, max, s as int));
        r
    }

    /// Whether the current pass has already visited as many fields as the
    /// per-iteration field limit allows.
    pub fn should_early_bail_mutation(&self) -> (r: bool)
        ensures
            r == (self.flags.field_count == Some(self.corpus_state.fields_fuzzed)),
    {
        match self.flags.field_count {
            Some(count) => count == self.corpus_state.fields_fuzzed,
            None => false,
        }
    }

    /// Whether an event of chance `chance` (parts per thousand) occurs: never
    /// at 0, always at 1000 or more, always when the flags force chances to
    /// succeed, otherwise at random.
    pub fn gen_chance(&mut self, chance: u32) -> (r: bool)
        ensures
            chance == 0 ==> !r,
            chance > 0 && (chance >= CHANCE_SCALE || old(self).flags.all_chances_succeed) ==> r,
            final(self).flags == old(self).flags,
            final(self).corpus_state == old(self).corpus_state,
    {
        if chance == 0 {
            return false;
        }
        if chance >= CHANCE_SCALE {
            return true;
        }
        if self.flags.all_chances_succeed {
            return true;
        }
        self.gen_chance_ignore_flags(chance)
    }

    /// Like [`Mutator::gen_chance`], regardless of the flags.
    fn gen_chance_ignore_flags(&mut self, chance: u32) -> (r: bool)
        ensures
            chance == 0 ==> !r,
            chance >= CHANCE_SCALE ==> r,
            final(self).flags == old(self).flags,
            final(self).corpus_state == old(self).corpus_state,
    {
        let c: u32 = if chance > CHANCE_SCALE {
            CHANCE_SCALE
        } else {
            chance
        };
        rng_ratio(&mut self.rng, c, CHANCE_SCALE)
    }

    /// Whether the post-mutation fixup should run: always when the flags say
    /// so, otherwise unless the small chance to skip it fires.
    pub fn should_fixup(&mut self) -> (r: bool)
        ensures
            old(self).flags.always_fixup ==> r,
            old(self).flags.all_chances_succeed && !old(self).flags.always_fixup ==> !r,
            final(self).flags == old(self).flags,
            final(self).corpus_state == old(self).corpus_state,
    {
        self.flags.always_fixup || !self.gen_chance(CHANCE_TO_IGNORE_POST_MUTATION)
    }

    /// Draws the flags of a new iteration, discarding the previous ones: a
    /// field limit in `[1, 10)` one time in ten, and each of the two boolean
    /// flags by a fair coin; at most two of the three are ever active, the
    /// fixup flag giving way when the other two are drawn.
    pub fn random_flags(&mut self)
        ensures
            final(self).corpus_state == old(self).corpus_state,
            final(self).flags.field_count matches Some(n) ==> 1 <= n < 10,
            !(final(self).flags.field_count is Some && final(self).flags.all_chances_succeed
                && final(self).flags.always_fixup),
    {
        self.flags = MutatorFlags { field_count: None, always_fixup: false, all_chances_succeed: false };
        if self.gen_chance_ignore_flags(CHANCE_TO_LIMIT_FIELD_COUNT) {
            let n = self.gen_range(1, 10);
            self.flags.field_count = Some(n as usize);
        }
        self.flags.all_chances_succeed = rng_ratio(&mut self.rng, 1, 2);
        let fixup = rng_ratio(&mut self.rng, 1, 2);
        self.flags.always_fixup = fixup && !(self.flags.field_count.is_some()
            && self.flags.all_chances_succeed);
    }

    /// Flips one randomly chosen bit.
    fn bit_flip(&mut self, x: u64, width: u32) -> (r: u64)
        requires
            valid_width(width),
            fits(x, width),
        ensures
            fits(r, width),
            single_bit_flip(x, r, width),
            final(self).flags == old(self).flags,
            final(self).corpus_state == old(self).corpus_state,
    {
        let idx = rng_range(&mut self.rng, 0, width as u64) as u32;
        let r = bit_flip_at(x, idx, width);
        proof {
            crate::scalar::lemma_bit_fits(idx, width);
            assert(r == x ^ (1u64 << idx));
        }
        r
    }

    /// Flips `k` distinct randomly chosen bits, `k` drawn from `[1, width]`.
    fn flip(&mut self, x: u64, width: u32) -> (r: u64)
        requires
            valid_width(width),
            fits(x, width),
        ensures
            fits(r, width),
            multi_bit_flip(x, r, width),
            final(self).flags == old(self).flags,
            final(self).corpus_state == old(self).corpus_state,
    {
        let k = rng_range(&mut self.rng, 1, width as u64 + 1) as usize;
        let picked = rng_sample_indices(&mut self.rng, width as usize, k);
        let mut indices: Vec<u32> = Vec::new();
        let mut i: usize = 0;
        while i < picked.len()
            invariant
                i <= picked.len(),
                indices.len() == i,
                forall|j: int| 0 <= j < picked.len() ==> picked[j] < width,
                forall|j: int| 0 <= j < i ==> indices[j] == picked[j],
            decreases picked.len() - i,
        {
            indices.push(picked[i] as u32);
            i += 1;
        }
        let r = flip_bits_at(x, &indices, width);
        proof {
            crate::scalar::lemma_bit_fits(indices[0], width);
            lemma_distinct_bits_nonzero(indices@, width);
            assert(r == x ^ crate::scalar::bits_mask(indices@));
        }
        r
    }

    /// Adds or subtracts (a fair coin decides) a number drawn from `[1, 16)`,
    /// wrapping.
    fn arithmetic(&mut self, x: u64, width: u32) -> (r: u64)
        requires
            valid_width(width),
            fits(x, width),
        ensures
            fits(r, width),
            arithmetic_step(x, r, width),
            final(self).flags == old(self).flags,
            final(self).corpus_state == old(self).corpus_state,
    {
        let k = rng_range(&mut self.rng, 1, 0x10);
        let r = if rng_range(&mut self.rng, 0, 2) == 0 {
            add_wrapping(x, k, width)
        } else {
            sub_wrapping(x, k, width)
        };
        assert(r == wrapped_add(x, k, width) || r == wrapped_sub(x, k, width));
        r
    }

    /// Mutates the `width`-bit pattern `x` of one scalar field.
    ///
    /// Outside havoc the visit is deterministic: only the targeted field
    /// changes (by the run of flipped bits or the boundary value that the
    /// mode names) and the mode advances. In havoc one of the three random
    /// strategies is applied, unless the per-iteration field limit is reached
    /// or this field is skipped under it.
    pub fn mutate(&mut self, x: u64, width: u32) -> (r: u64)
        requires
            valid_width(width),
            fits(x, width),
            old(self).wf(),
        ensures
            fits(r, width),
            final(self).wf(),
            final(self).flags == old(self).flags,
            scalar_mutation(x, r, width, old(self).corpus_state, old(self).flags, final(self).corpus_state),
            old(self).corpus_state.mode == MutatorMode::Havoc && old(self).flags.field_count
                is None ==> havoc_outcome(x, r, width),
    {
        if self.corpus_state.mode == MutatorMode::Havoc {
            if let Some(count) = self.flags.field_count {
                if self.corpus_state.fields_fuzzed == count || self.gen_chance_ignore_flags(
                    CHANCE_TO_SKIP_LIMITED_FIELD,
                ) {
                    return x;
                }
            }
            self.increment_fields_fuzzed();
            let op = <MutatorOperation as crate::traits::NewFuzzed>::new_fuzzed(self, None);
            match op {
                MutatorOperation::BitFlip => self.bit_flip(x, width),
                MutatorOperation::Flip => self.flip(x, width),
                MutatorOperation::Arithmetic => self.arithmetic(x, width),
            }
        } else {
            self.visit_deterministic(x, width)
        }
    }

    fn visit_deterministic(&mut self, x: u64, width: u32) -> (r: u64)
        requires
            valid_width(width),
            fits(x, width),
            old(self).wf(),
            old(self).corpus_state.mode != MutatorMode::Havoc,
        ensures
            fits(r, width),
            final(self).wf(),
            final(self).flags == old(self).flags,
            r == visit_value(old(self).corpus_state, x, width),
            final(self).corpus_state == visit_state(old(self).corpus_state, width),
    {
        let ghost cs0 = self.corpus_state;
        let idx = self.corpus_state.fields_fuzzed;
        let visited: usize = if idx < usize::MAX {
            idx + 1
        } else {
            idx
        };
        self.corpus_state.fields_fuzzed = visited;
        if self.corpus_state.target_total_fields < visited {
            self.corpus_state.target_total_fields = visited;
        }
        if idx != self.corpus_state.targeted_field_idx || self.corpus_state.finished_iteration {
            return x;
        }
        self.corpus_state.finished_iteration = true;
        let table_len = dangerous_numbers_len_of(width);
        let r: u64 = match self.corpus_state.mode {
            MutatorMode::WalkingBitFlip { bits, current_idx } => {
                if 1 <= bits && (current_idx as u32) + (bits as u32) <= width {
                    flip_run(x, current_idx as u32, bits as u32, width)
                } else {
                    x
                }
            },
            MutatorMode::InterestingValues { current_idx } => {
                if (current_idx as usize) < table_len {
                    dangerous_number_of(width, current_idx as usize)
                } else {
                    x
                }
            },
            MutatorMode::Havoc => x,
        };
        let targeted = self.corpus_state.targeted_field_idx;
        let total = self.corpus_state.target_total_fields;
        match self.corpus_state.mode {
            MutatorMode::WalkingBitFlip { bits, current_idx } => {
                if (bits as u32) >= width {
                    self.corpus_state.mode = MutatorMode::InterestingValues { current_idx: 0 };
                } else if (current_idx as u32) + (bits as u32) >= width {
                    self.corpus_state.mode = MutatorMode::WalkingBitFlip {
                        bits: bits + 1,
                        current_idx: 0,
                    };
                } else {
                    self.corpus_state.mode = MutatorMode::WalkingBitFlip {
                        bits,
                        current_idx: current_idx + 1,
                    };
                }
            },
            MutatorMode::InterestingValues { current_idx } => {
                if (current_idx as usize) + 1 < table_len {
                    self.corpus_state.mode = MutatorMode::InterestingValues {
                        current_idx: current_idx + 1,
                    };
                } else if total == 0 || targeted >= total - 1 {
                    self.corpus_state.mode = MutatorMode::Havoc;
                } else {
                    self.corpus_state.mode = MutatorMode::WalkingBitFlip { bits: 1, current_idx: 0 };
                    self.corpus_state.targeted_field_idx = targeted + 1;
                }
            },
            MutatorMode::Havoc => {},
        }
        assert(self.corpus_state == visit_state(cs0, width));
        r
    }
}

proof fn lemma_distinct_bits_nonzero(indices: Seq<u32>, width: u32)
    requires
        valid_width(width),
        indices.len() >= 1,
        forall|i: int| 0 <= i < indices.len() ==> indices[i] < width,
    ensures
        crate::scalar::bits_mask(indices) != 0,
    decreases indices.len(),
{
    let last = indices.last();
    let rest = crate::scalar::bits_mask(indices.drop_last());
    assert(last < 64);
    assert(last < 64 ==> (rest | (1u64 << last)) != 0) by (bit_vector);
}

} // verus!

verus! {

/// The three havoc strategies for a scalar.
#[derive(Debug, Clone, Copy, PartialEq, Eq, Structural)]
pub enum MutatorOperation {
    BitFlip,
    Flip,
    Arithmetic,
}

impl crate::traits::ToPrimitive for MutatorOperation {
    type Output = u8;

    open spec fn primitive(&self) -> u8 {
        match self {
            MutatorOperation::BitFlip => 0,
            MutatorOperation::Flip => 1,
            MutatorOperation::Arithmetic => 2,
        }
    }

    fn to_primitive(&self) -> (r: u8) {
        match self {
            MutatorOperation::BitFlip => 0,
            MutatorOperation::Flip => 1,
            MutatorOperation::Arithmetic => 2,
        }
    }
}

impl crate::traits::SerializedSize for MutatorOperation {
    open spec fn byte_size(&self) -> nat {
        1
    }

    open spec fn min_nonzero_size() -> nat {
        1
    }

    open spec fn default_size() -> nat {
        1
    }

    fn serialized_size(&self) -> (r: usize) {
        1
    }

    fn min_nonzero_elements_size() -> (r: usize) {
        1
    }

    fn max_default_object_size() -> (r: usize) {
        1
    }

    fn min_enum_variant_size(&self) -> (r: usize) {
        1
    }
}

impl crate::traits::NewFuzzed for MutatorOperation {
    type RangeType = u8;

    open spec fn accepts(min: Option<u8>, max: Option<u8>) -> bool {
        true
    }

    proof fn lemma_accepts_unbounded() {
    }

    /// One of the three strategies, uniformly.
    fn new_fuzzed(mutator: &mut Mutator, constraints: Option<&crate::types::Constraints<u8>>) -> (r:
        MutatorOperation)
        ensures
            final(mutator).corpus_state == old(mutator).corpus_state,
    {
        let k = rng_range(&mut mutator.rng, 0, 3);
        if k == 0 {
            MutatorOperation::BitFlip
        } else if k == 1 {
            MutatorOperation::Flip
        } else {
            MutatorOperation::Arithmetic
        }
    }
}

} // verus!
