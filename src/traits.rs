//! The capabilities each fuzzable type provides.

use vstd::prelude::*;
use crate::buffer::ByteOrder;
use crate::mode::CorpusFuzzingState;
use crate::mutator::{Mutator, MutatorFlags};
use crate::types::{Constraints, constraints_of, within_budget};

verus! {

/// `n`, or `usize::MAX` when `n` is larger.
pub open spec fn saturated(n: nat) -> usize {
    if n <= usize::MAX {
        n as usize
    } else {
        usize::MAX
    }
}

/// The size in bytes of a value once serialized.
pub trait SerializedSize {
    /// The serialized size of this value.
    spec fn byte_size(&self) -> nat;

    /// The smallest serialized size with at least one element.
    spec fn min_nonzero_size() -> nat;

    /// The serialized size of a freshly defaulted value: the footprint
    /// reserved for this type before it is generated.
    spec fn default_size() -> nat;

    /// Serialized size in bytes of this value, saturating at `usize::MAX`.
    fn serialized_size(&self) -> (r: usize)
        ensures
            r == saturated(self.byte_size()),
    ;

    /// The smallest size in bytes with at least one element; bounds how many
    /// elements fit in a budget.
    fn min_nonzero_elements_size() -> (r: usize)
        ensures
            r == Self::min_nonzero_size(),
    ;

    /// The size in bytes of a freshly defaulted value.
    fn max_default_object_size() -> (r: usize)
        ensures
            r == Self::default_size(),
    ;

    /// The smallest size among the variants this value could take.
    fn min_enum_variant_size(&self) -> (r: usize)
        ensures
            r == Self::min_nonzero_size(),
    ;
}

/// A value that can be written to a byte buffer in a fixed way.
pub trait BinarySerialize: SerializedSize {
    /// The bytes this value serializes to under byte order `order`.
    spec fn encoding(&self, order: ByteOrder) -> Seq<u8>;

    /// The encoding is exactly as long as the serialized size says.
    proof fn lemma_encoding_len(&self, order: ByteOrder)
        ensures
            self.encoding(order).len() == self.byte_size(),
    ;

    /// Appends the encoding of this value to `buffer`, returning its length.
    fn binary_serialize(&self, buffer: &mut Vec<u8>, order: ByteOrder) -> (r: usize)
        requires
            self.encoding(order).len() <= usize::MAX,
        ensures
            final(buffer)@ == old(buffer)@ + self.encoding(order),
            r == self.encoding(order).len(),
    ;
}

/// A type that can create a random value of itself, within constraints.
pub trait NewFuzzed: Sized + SerializedSize {
    type RangeType;

    /// The bounds this type can be generated within (a nonempty range).
    spec fn accepts(min: Option<Self::RangeType>, max: Option<Self::RangeType>) -> bool;

    /// Generation without bounds is always possible.
    proof fn lemma_accepts_unbounded()
        ensures
            Self::accepts(None, None),
    ;

    /// A random value. With a budget that can hold the type's footprint, the
    /// value fits in the budget.
    fn new_fuzzed(mutator: &mut Mutator, constraints: Option<&Constraints<Self::RangeType>>) -> (r:
        Self)
        requires
            old(mutator).wf(),
            constraints matches Some(c) ==> Self::accepts(c.min, c.max),
        ensures
            final(mutator).wf(),
            final(mutator).flags == old(mutator).flags,
            within_budget(constraints_of(constraints), Self::default_size(), r.byte_size()),
    ;
}

/// A value that can be mutated in place, within constraints.
pub trait Mutatable: Sized + SerializedSize {
    type RangeType;

    /// `new` is what one mutation of this value can give, the engine's corpus
    /// state going from `before` to `after` under the iteration's `flags`.
    spec fn mutation_of(
        &self,
        new: Self,
        before: CorpusFuzzingState,
        flags: MutatorFlags,
        after: CorpusFuzzingState,
    ) -> bool;

    /// Mutates this value. With a budget that can hold the value as it was,
    /// the mutated value fits in it too.
    fn mutate(&mut self, mutator: &mut Mutator, constraints: Option<&Constraints<Self::RangeType>>)
        requires
            old(mutator).wf(),
        ensures
            final(mutator).wf(),
            final(mutator).flags == old(mutator).flags,
            within_budget(constraints_of(constraints), old(self).byte_size(), final(self).byte_size()),
            old(self).mutation_of(
                *final(self),
                old(mutator).corpus_state,
                old(mutator).flags,
                final(mutator).corpus_state,
            ),
    ;
}

/// A type whose values all have the same serialized size.
pub trait FixedSize: SerializedSize {
    proof fn lemma_fixed_size(&self)
        ensures
            self.byte_size() == Self::default_size(),
    ;
}

/// A post-generation or post-mutation pass restoring cross-field consistency.
pub trait Fixup {
    fn fixup(&mut self, mutator: &mut Mutator)
        requires
            old(mutator).wf(),
        ensures
            final(mutator).wf(),
    ;
}

/// The boundary values of a scalar type.
pub trait DangerousNumber<T> {
    /// The ordered table of boundary values.
    spec fn dangerous_numbers() -> Seq<T>;

    /// A boundary value picked at random.
    fn select_dangerous_number(mutator: &mut Mutator) -> (r: T)
        ensures
            Self::dangerous_numbers().contains(r),
            final(mutator).flags == old(mutator).flags,
            final(mutator).corpus_state == old(mutator).corpus_state,
    ;

    /// Entry `idx` of the table.
    fn dangerous_number_at_index(idx: usize) -> (r: T)
        requires
            idx < Self::dangerous_numbers().len(),
        ensures
            r == Self::dangerous_numbers()[idx as int],
    ;

    /// The length of the table.
    fn dangerous_numbers_len() -> (r: usize)
        ensures
            r == Self::dangerous_numbers().len(),
    ;
}

/// A type that converts to a primitive integer, such as a fieldless enum to
/// its discriminant.
pub trait ToPrimitive {
    type Output;

    /// The primitive this value converts to.
    spec fn primitive(&self) -> Self::Output;

    fn to_primitive(&self) -> (r: Self::Output)
        ensures
            r == self.primitive(),
    ;
}

/// Whether a type has dynamically sized parts, in which case composite values
/// generate their fields in a random order.
pub trait VariableSizeObject {
    spec fn variable_size() -> bool;

    fn is_variable_size() -> (r: bool)
        ensures
            r == Self::variable_size(),
    ;
}

} // verus!
