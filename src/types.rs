//! The engine's data model: constraint sets, sum types with out-of-range
//! discriminants, and strings.

use vstd::prelude::*;
use crate::traits::SerializedSize;

verus! {

/// Which end of a range sampling is weighted towards.
#[derive(Debug, Clone, Copy, PartialEq, Eq, Structural)]
pub enum Weighted {
    Uniform,
    Min,
    Max,
}

impl Default for Weighted {
    fn default() -> (r: Weighted)
        ensures
            r == Weighted::Uniform,
    {
        Weighted::Uniform
    }
}

/// Constraints that generation and mutation should respect.
#[derive(Debug, Clone, Copy)]
pub struct Constraints<T> {
    /// The contextual lower bound.
    pub min: Option<T>,
    /// The contextual upper bound (not inclusive).
    pub max: Option<T>,
    /// Which end of the range sampling is weighted towards.
    pub weighted: Weighted,
    /// The byte budget left for this object.
    pub max_size: Option<usize>,
    /// Whether the object's own footprint has already been taken out of
    /// `max_size` by the caller.
    pub base_object_size_accounted_for: bool,
}

/// The total number of bytes an object may occupy under `c`, given its own
/// footprint: the budget, plus the footprint when the caller already took the
/// footprint out of the budget. No total without a budget.
pub open spec fn allowed_size<T>(c: Option<Constraints<T>>, footprint: nat) -> Option<nat> {
    match c {
        Some(c) => match c.max_size {
            Some(m) => Some(
                if c.base_object_size_accounted_for {
                    (m + footprint) as nat
                } else {
                    m as nat
                },
            ),
            None => None,
        },
        None => None,
    }
}

/// The constraints behind an optional reference.
pub open spec fn constraints_of<T>(c: Option<&Constraints<T>>) -> Option<Constraints<T>> {
    match c {
        Some(c) => Some(*c),
        None => None,
    }
}

/// An object of size `size` respects the budget of `c` (with the footprint
/// as in [`allowed_size`]) whenever that budget can hold the footprint.
pub open spec fn within_budget<T>(c: Option<Constraints<T>>, footprint: nat, size: nat) -> bool {
    match allowed_size(c, footprint) {
        Some(b) => footprint <= b ==> size <= b,
        None => true,
    }
}

impl<T> Constraints<T> {
    /// No bounds, no weight, no budget.
    pub fn new() -> (r: Constraints<T>)
        ensures
            r.min is None,
            r.max is None,
            r.weighted == Weighted::Uniform,
            r.max_size is None,
            !r.base_object_size_accounted_for,
    {
        Constraints {
            min: None,
            max: None,
            weighted: Weighted::Uniform,
            max_size: None,
            base_object_size_accounted_for: false,
        }
    }

    /// A budget of `max_size` bytes and nothing else.
    pub fn with_max_size(max_size: usize) -> (r: Constraints<T>)
        ensures
            r.min is None,
            r.max is None,
            r.weighted == Weighted::Uniform,
            r.max_size == Some(max_size),
            !r.base_object_size_accounted_for,
    {
        Constraints {
            min: None,
            max: None,
            weighted: Weighted::Uniform,
            max_size: Some(max_size),
            base_object_size_accounted_for: false,
        }
    }

    pub fn min(&mut self, min: T) -> (r: &mut Constraints<T>)
        ensures
            *r == (Constraints { min: Some(min), ..*old(self) }),
            *final(self) == *final(r),
    {
        self.min = Some(min);
        self
    }

    pub fn max(&mut self, max: T) -> (r: &mut Constraints<T>)
        ensures
            *r == (Constraints { max: Some(max), ..*old(self) }),
            *final(self) == *final(r),
    {
        self.max = Some(max);
        self
    }

    pub fn weighted(&mut self, weighted: Weighted) -> (r: &mut Constraints<T>)
        ensures
            *r == (Constraints { weighted, ..*old(self) }),
            *final(self) == *final(r),
    {
        self.weighted = weighted;
        self
    }

    pub fn max_size(&mut self, max_size: usize) -> (r: &mut Constraints<T>)
        ensures
            *r == (Constraints { max_size: Some(max_size), ..*old(self) }),
            *final(self) == *final(r),
    {
        self.max_size = Some(max_size);
        self
    }

    pub fn set_base_size_accounted_for(&mut self) -> (r: &mut Constraints<T>)
        ensures
            *r == (Constraints { base_object_size_accounted_for: true, ..*old(self) }),
            *final(self) == *final(r),
    {
        self.base_object_size_accounted_for = true;
        self
    }

    /// Takes the footprint of a `U` out of the budget, once: nothing changes
    /// when that was done already; a budget smaller than the footprint
    /// becomes zero.
    pub fn account_for_base_object_size<U: SerializedSize>(&mut self) -> (r: &mut Constraints<T>)
        ensures
            *final(self) == *final(r),
            r.base_object_size_accounted_for,
            r.min == old(self).min,
            r.max == old(self).max,
            r.weighted == old(self).weighted,
            old(self).base_object_size_accounted_for ==> r.max_size == old(self).max_size,
            !old(self).base_object_size_accounted_for ==> r.max_size == match old(self).max_size {
                Some(m) => Some(
                    if U::default_size() > m {
                        0usize
                    } else {
                        (m - U::default_size()) as usize
                    },
                ),
                None => None,
            },
    {
        if !self.base_object_size_accounted_for {
            if let Some(m) = self.max_size {
                let footprint = U::max_default_object_size();
                if footprint > m {
                    self.max_size = Some(0);
                } else {
                    self.max_size = Some(m - footprint);
                }
            }
            self.base_object_size_accounted_for = true;
        }
        self
    }
}

/// A value of enum `T`, or a raw discriminant `I` that no variant of `T` has.
#[derive(Debug, Clone, Copy)]
pub enum UnsafeEnum<T, I> {
    Valid(T),
    Invalid(I),
}

/// A UTF-8 character of a [`Utf8String`].
#[derive(Debug, Clone, Copy, PartialEq, Eq)]
pub struct Utf8Char(pub char);

/// An ASCII character of an [`AsciiString`].
#[derive(Debug, Clone, Copy, PartialEq, Eq)]
pub struct AsciiChar(pub char);

/// A string mutated character by character, any UTF-8 character allowed.
#[derive(Debug, Clone)]
pub struct Utf8String {
    pub inner: Vec<Utf8Char>,
}

/// A string mutated character by character, ASCII characters only.
#[derive(Debug, Clone)]
pub struct AsciiString {
    pub inner: Vec<AsciiChar>,
}

} // verus!
