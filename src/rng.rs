//! The random source of the engine: one seeded `rand::rngs::StdRng` per engine,
//! reached only through the small wrappers below.

use vstd::prelude::*;

verus! {

#[verifier::external_type_specification]
#[verifier::external_body]
pub struct ExStdRng(rand::rngs::StdRng);

/// Relies on `rand::SeedableRng::seed_from_u64`: a generator seeded from `seed`.
#[verifier::external_body]
pub(crate) fn rng_from_seed(seed: u64) -> (r: rand::rngs::StdRng) {
    <rand::rngs::StdRng as rand::SeedableRng>::seed_from_u64(seed)
}

/// Relies on `rand::Rng::gen_range`: a value in `[low, high)`; it panics when
/// `low >= high`.
#[verifier::external_body]
pub(crate) fn rng_range(rng: &mut rand::rngs::StdRng, low: u64, high: u64) -> (r: u64)
    requires
        low < high,
    ensures
        low <= r < high,
{
    rand::Rng::gen_range(rng, low, high)
}

/// Relies on `rand::Rng::gen` for `u64`: any value at all.
#[verifier::external_body]
pub(crate) fn rng_u64(rng: &mut rand::rngs::StdRng) -> (r: u64) {
    rand::Rng::gen::<u64>(rng)
}

/// Relies on `rand::Rng::gen_ratio`: `true` with probability
/// `numerator / denominator`; always `false` for a zero numerator and always
/// `true` when the two are equal. It panics on a zero denominator or a
/// numerator above the denominator.
#[verifier::external_body]
pub(crate) fn rng_ratio(rng: &mut rand::rngs::StdRng, numerator: u32, denominator: u32) -> (r: bool)
    requires
        0 < denominator,
        numerator <= denominator,
    ensures
        numerator == 0 ==> !r,
        numerator == denominator ==> r,
{
    rand::Rng::gen_ratio(rng, numerator, denominator)
}

} // verus!

verus! {

/// The sum of a sequence of weights.
pub open spec fn weight_sum(w: Seq<u64>) -> int
    decreases w.len(),
{
    if w.len() == 0 {
        0
    } else {
        weight_sum(w.drop_last()) + w.last()
    }
}

/// Relies on `rand::distributions::WeightedIndex` over `u64` weights: building it
/// fails on an empty list or a zero total (and overflows past `u64::MAX`); a
/// sample is an index whose cumulative range holds a uniform draw below the
/// total, so its weight is never zero.
#[verifier::external_body]
pub(crate) fn rng_weighted_index(rng: &mut rand::rngs::StdRng, weights: &Vec<u64>) -> (r: usize)
    requires
        weights.len() > 0,
        0 < weight_sum(weights@) <= u64::MAX,
    ensures
        r < weights.len(),
        weights[r as int] > 0,
{
    let dist = rand::distributions::WeightedIndex::new(weights.iter()).unwrap();
    rand::distributions::Distribution::sample(&dist, rng)
}

/// Relies on `rand::seq::index::sample`: `amount` distinct indices below
/// `length`, in random order; it panics when `amount > length`.
#[verifier::external_body]
pub(crate) fn rng_sample_indices(rng: &mut rand::rngs::StdRng, length: usize, amount: usize) -> (r: Vec<usize>)
    requires
        amount <= length,
    ensures
        r.len() == amount,
        forall|i: int| 0 <= i < r.len() ==> r[i] < length,
        forall|i: int, j: int| 0 <= i < j < r.len() ==> r[i] != r[j],
{
    rand::seq::index::sample(rng, length, amount).into_vec()
}

} // verus!

verus! {

/// Relies on `char::from_u32`: the character with code point `v`, or `None`
/// when `v` is not a Unicode scalar value.
#[verifier::external_body]
pub(crate) fn char_from_u32(v: u32) -> (r: Option<char>)
    ensures
        r matches Some(c) ==> c as u32 == v,
        vstd::utf8::is_scalar(v) ==> r is Some,
{
    char::from_u32(v)
}

/// Relies on `rand::Rng::gen` for `char`: any Unicode scalar value.
#[verifier::external_body]
pub(crate) fn rng_char(rng: &mut rand::rngs::StdRng) -> (r: char) {
    rand::Rng::gen::<char>(rng)
}

} // verus!
