//! Helpers for composite values (structs and enums with fields): the order in
//! which fields are generated, the budget shared by the fields, and the choice
//! of an enum variant.

use vstd::prelude::*;
use crate::mutator::{Mutator, CHANCE_SCALE};
use crate::rng::{rng_sample_indices, rng_weighted_index, weight_sum};
use crate::types::{Constraints, Weighted, allowed_size, constraints_of};

verus! {

/// How many times a variant choice is redrawn when its ignore chance fires.
pub const MAX_VARIANT_ATTEMPTS: usize = 5;

/// `r` lists each of `0..count` exactly once.
pub open spec fn is_permutation(r: Seq<usize>, count: nat) -> bool {
    &&& r.len() == count
    &&& forall|i: int| 0 <= i < r.len() ==> r[i] < count
    &&& forall|i: int, j: int| 0 <= i < j < r.len() ==> r[i] != r[j]
}

/// The order in which the `count` fields of a composite value are generated:
/// declaration order, or a random permutation when the value has dynamically
/// sized fields, so that no field is always the one to find the budget spent.
pub fn field_order(mutator: &mut Mutator, count: usize, variable_size: bool) -> (r: Vec<usize>)
    ensures
        is_permutation(r@, count as nat),
        !variable_size ==> forall|i: int| 0 <= i < count ==> r[i] == i,
        final(mutator).flags == old(mutator).flags,
        final(mutator).corpus_state == old(mutator).corpus_state,
{
    if variable_size {
        return rng_sample_indices(&mut mutator.rng, count, count);
    }
    let mut r: Vec<usize> = Vec::new();
    let mut i: usize = 0;
    while i < count
        invariant
            i <= count,
            r.len() == i,
            forall|j: int| 0 <= j < i ==> r[j] == j,
        decreases count - i,
    {
        r.push(i);
        i += 1;
    }
    r
}

/// The byte budget shared by the fields of one composite value.
///
/// `limit` is the total the value may occupy, `used` the actual size of the
/// fields generated so far and `reserved` the footprint of the fields still to
/// come. Each field is offered the room left beyond all footprints, on top of
/// its own footprint.
#[derive(Debug, Clone, Copy)]
pub struct FieldBudget {
    pub limit: Option<usize>,
    pub used: usize,
    pub reserved: usize,
    pub exceeded: bool,
}

impl FieldBudget {
    /// Within the limit so far.
    pub open spec fn wf(&self) -> bool {
        match self.limit {
            Some(l) => !self.exceeded ==> self.used + self.reserved <= l,
            None => true,
        }
    }

    /// The room left beyond the footprints of the fields still to come.
    pub open spec fn room(&self) -> int {
        match self.limit {
            Some(l) => if self.exceeded {
                0
            } else {
                l - self.used - self.reserved
            },
            None => 0,
        }
    }

    /// The budget of a value with footprint `footprint` under `constraints`. A
    /// limit smaller than the footprint leaves no room (the smallest value is
    /// produced) and is marked exceeded.
    pub fn new<T>(constraints: Option<&Constraints<T>>, footprint: usize) -> (r: FieldBudget)
        ensures
            r.wf(),
            r.used == 0,
            r.reserved == footprint,
            r.limit is None <==> allowed_size(constraints_of(constraints), footprint as nat) is None,
            r.limit is Some ==> (allowed_size(constraints_of(constraints), footprint as nat)
                matches Some(a) && r.limit.unwrap() <= a && (a <= usize::MAX ==> r.limit.unwrap()
                == a)),
            r.exceeded == (r.limit is Some && r.limit.unwrap() < footprint),
    {
        let limit: Option<usize> = match constraints {
            Some(c) => match c.max_size {
                Some(m) => {
                    if c.base_object_size_accounted_for {
                        if m > usize::MAX - footprint {
                            Some(usize::MAX)
                        } else {
                            Some(m + footprint)
                        }
                    } else {
                        Some(m)
                    }
                },
                None => None,
            },
            None => None,
        };
        let exceeded = match limit {
            Some(l) => l < footprint,
            None => false,
        };
        FieldBudget { limit, used: 0, reserved: footprint, exceeded }
    }

    /// The constraints offered to the next field: the room left as its budget,
    /// its own footprint being already counted.
    pub fn field_constraints<U>(&self) -> (r: Option<Constraints<U>>)
        requires
            self.wf(),
        ensures
            self.limit is None ==> r is None,
            self.limit is Some ==> (r matches Some(c) && c.min is None && c.max is None
                && c.weighted == Weighted::Uniform && c.base_object_size_accounted_for
                && c.max_size == Some(self.room() as usize)),
    {
        match self.limit {
            Some(l) => {
                let room: usize = if self.exceeded {
                    0
                } else {
                    l - self.used - self.reserved
                };
                Some(
                    Constraints {
                        min: None,
                        max: None,
                        weighted: Weighted::Uniform,
                        max_size: Some(room),
                        base_object_size_accounted_for: true,
                    },
                )
            },
            None => None,
        }
    }

    /// Counts a generated field of footprint `footprint` and actual size
    /// `size`. A field that kept within the room it was offered keeps the
    /// budget within its limit; one that did not uses up the room.
    pub fn record(&mut self, footprint: usize, size: usize)
        requires
            old(self).wf(),
            footprint <= old(self).reserved,
        ensures
            final(self).wf(),
            final(self).limit == old(self).limit,
            final(self).reserved == old(self).reserved - footprint,
            !old(self).exceeded && old(self).limit is Some && size <= old(self).room() + footprint
                ==> !final(self).exceeded && final(self).used == old(self).used + size,
            final(self).exceeded == (old(self).exceeded || (old(self).limit is Some && size
                > old(self).room() + footprint)),
    {
        self.reserved = self.reserved - footprint;
        match self.limit {
            Some(l) => {
                if self.exceeded {
                    return;
                }
                let offered = (l - self.used - self.reserved - footprint) + footprint;
                if size > offered {
                    self.exceeded = true;
                } else {
                    self.used = self.used + size;
                }
            },
            None => {
                if self.used <= usize::MAX - size {
                    self.used = self.used + size;
                }
            },
        }
    }
}

/// Once every field has been counted (nothing is reserved any more) and no
/// field went beyond the room it was offered, the fields together fit in the
/// limit.
pub proof fn lemma_fields_fit_limit(b: FieldBudget)
    requires
        b.wf(),
        b.reserved == 0,
        !b.exceeded,
    ensures
        b.limit is Some ==> b.used <= b.limit.unwrap(),
{
}

/// Picks a variant by weight: a variant of weight zero (one that is always
/// ignored) is never picked. When the ignore chance (parts per thousand) of
/// the picked variant fires, the pick is redrawn, at most five times in all.
pub fn select_variant(mutator: &mut Mutator, weights: &Vec<u64>, ignore_chances: &Vec<u32>) -> (r:
    usize)
    requires
        weights.len() > 0,
        weights.len() == ignore_chances.len(),
        0 < weight_sum(weights@) <= u64::MAX,
    ensures
        r < weights.len(),
        weights[r as int] > 0,
        final(mutator).flags == old(mutator).flags,
        final(mutator).corpus_state == old(mutator).corpus_state,
{
    let mut idx = rng_weighted_index(&mut mutator.rng, weights);
    let mut attempt: usize = 1;
    while attempt < MAX_VARIANT_ATTEMPTS
        invariant
            idx < weights.len(),
            weights[idx as int] > 0,
            weights.len() == ignore_chances.len(),
            0 < weight_sum(weights@) <= u64::MAX,
            mutator.flags == old(mutator).flags,
            mutator.corpus_state == old(mutator).corpus_state,
        decreases MAX_VARIANT_ATTEMPTS - attempt,
    {
        let chance = ignore_chances[idx];
        if chance < CHANCE_SCALE && !mutator.gen_chance(chance) {
            break;
        }
        idx = rng_weighted_index(&mut mutator.rng, weights);
        attempt += 1;
    }
    idx
}

} // verus!
