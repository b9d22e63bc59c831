use lain::buffer::ByteOrder;
use lain::composite::{field_order, select_variant, FieldBudget};
use lain::dangerous_numbers::dangerous_number_of;
use lain::driver::{is_stalled, iteration_seed, next_action, DriverMode, WorkerAction};
use lain::mode::{CorpusFuzzingState, MutatorMode};
use lain::mutatable::shrink_vec;
use lain::mutator::{slice_weights, weighted_slice_bounds, Mutator, MutatorFlags, MutatorOperation};
use lain::traits::{BinarySerialize, DangerousNumber, Mutatable, NewFuzzed, SerializedSize, ToPrimitive};
use lain::types::{AsciiString, Constraints, UnsafeEnum, Utf8String, Weighted};

fn get_mutator() -> Mutator {
    Mutator::from_seed(0x0101_0101)
}

fn havoc_mutator(seed: u64) -> Mutator {
    let mut m = Mutator::from_seed(seed);
    m.corpus_state.mode = MutatorMode::Havoc;
    m
}

#[test]
fn weighted_sampling_favours_the_low_third() {
    let mut m = get_mutator();
    let mut counts = [0u32; 3];
    for _ in 0..10_000 {
        let v = m.gen_weighted_range(0, 100, Weighted::Min);
        assert!(v < 100);
        if v < 33 {
            counts[0] += 1;
        } else if v < 66 {
            counts[1] += 1;
        } else {
            counts[2] += 1;
        }
    }
    assert!((6500..=7500).contains(&counts[0]), "{:?}", counts);
    assert!((1500..=2500).contains(&counts[1]), "{:?}", counts);
    assert!((500..=1500).contains(&counts[2]), "{:?}", counts);
}

#[test]
fn weighted_slices_of_zero_to_hundred() {
    assert_eq!(weighted_slice_bounds(0, 100, 0), (0, 33));
    assert_eq!(weighted_slice_bounds(0, 100, 1), (33, 66));
    assert_eq!(weighted_slice_bounds(0, 100, 2), (66, 100));
    assert_eq!(slice_weights(Weighted::Min), vec![7, 2, 1]);
    assert_eq!(slice_weights(Weighted::Max), vec![1, 2, 7]);
}

#[test]
fn weighted_sampling_towards_max_and_narrow_ranges() {
    let mut m = get_mutator();
    let mut high = 0;
    for _ in 0..2000 {
        let v = m.gen_weighted_range(10, 40, Weighted::Max);
        assert!((10..40).contains(&v));
        if v >= 30 {
            high += 1;
        }
    }
    assert!(high > 1200);
    for _ in 0..100 {
        let v = m.gen_weighted_range(5, 8, Weighted::Min);
        assert!((5..8).contains(&v));
    }
}

#[test]
fn dangerous_number_tables() {
    let table: Vec<u8> = (0..u8::dangerous_numbers_len()).map(u8::dangerous_number_at_index).collect();
    assert_eq!(table, vec![0, 255, 127, 128]);
    assert_eq!(u16::dangerous_numbers_len(), 6);
    assert_eq!(u32::dangerous_number_at_index(4), 0xffff_ff7f);
    assert_eq!(i8::dangerous_number_at_index(3), -128);
    assert_eq!(i64::dangerous_number_at_index(2), i64::MAX);
    assert_eq!(dangerous_number_of(64, 5), 0x80);
}

#[test]
fn interesting_value_two_sets_a_byte_to_127() {
    let mut m = get_mutator();
    m.corpus_state.mode = MutatorMode::InterestingValues { current_idx: 2 };
    let mut field: u8 = 3;
    field.mutate(&mut m, None);
    assert_eq!(field, 127);
    assert_eq!(m.corpus_state.mode, MutatorMode::InterestingValues { current_idx: 3 });
}

#[test]
fn two_byte_fields_walk_then_hand_over() {
    let mut m = get_mutator();
    m.begin_new_corpus();
    let (a0, b0) = (0x00u8, 0x00u8);
    let mut seen_modes = vec![];
    for pass in 0..40 {
        m.begin_new_iteration();
        let mut a = a0;
        let mut b = b0;
        a.mutate(&mut m, None);
        b.mutate(&mut m, None);
        assert_eq!(b, b0, "second field untouched in pass {}", pass);
        if pass == 0 {
            assert_eq!(a, 0x01);
        }
        if pass == 8 {
            assert_eq!(a, 0x03);
        }
        if pass == 36 + 2 {
            assert_eq!(a, 127);
        }
        seen_modes.push(m.mode());
    }
    assert_eq!(seen_modes[34], MutatorMode::WalkingBitFlip { bits: 8, current_idx: 0 });
    assert_eq!(seen_modes[35], MutatorMode::InterestingValues { current_idx: 0 });
    assert_eq!(seen_modes[38], MutatorMode::InterestingValues { current_idx: 3 });
    assert_eq!(m.mode(), MutatorMode::WalkingBitFlip { bits: 1, current_idx: 0 });
    assert_eq!(m.corpus_state.targeted_field_idx, 1);
    for pass in 0..40 {
        m.begin_new_iteration();
        let mut a = a0;
        let mut b = b0;
        a.mutate(&mut m, None);
        b.mutate(&mut m, None);
        assert_eq!(a, a0);
        if pass == 0 {
            assert_eq!(b, 0x01);
        }
    }
    assert_eq!(m.mode(), MutatorMode::Havoc);
}

#[test]
fn havoc_always_changes_an_unlimited_scalar() {
    let mut m = havoc_mutator(7);
    for i in 0..2000u32 {
        let mut v = (i % 256) as u8;
        let before = v;
        v.mutate(&mut m, None);
        assert_ne!(v, before);
        let mut w = i as i32 - 1000;
        let wb = w;
        w.mutate(&mut m, None);
        assert_ne!(w, wb);
    }
}

#[test]
fn corpus_state_reset_keeps_mode() {
    let mut s = CorpusFuzzingState {
        fields_fuzzed: 5,
        mode: MutatorMode::InterestingValues { current_idx: 1 },
        targeted_field_idx: 2,
        target_total_fields: 6,
        target_total_passes: 9,
        finished_iteration: true,
    };
    s.reset();
    assert_eq!(s.fields_fuzzed, 0);
    assert!(!s.finished_iteration);
    assert_eq!(s.mode, MutatorMode::InterestingValues { current_idx: 1 });
    assert_eq!(s.targeted_field_idx, 2);
}

#[test]
fn forced_chances_pick_invalid_discriminants() {
    let mut m = get_mutator();
    m.flags = MutatorFlags { field_count: None, always_fixup: false, all_chances_succeed: true };
    for _ in 0..200 {
        let v: UnsafeEnum<MutatorOperation, u8> = UnsafeEnum::new_fuzzed(&mut m, None);
        assert!(matches!(v, UnsafeEnum::Invalid(_)));
    }
}

#[test]
fn mutating_a_valid_discriminant_makes_it_invalid() {
    let mut m = havoc_mutator(3);
    for _ in 0..200 {
        let mut v: UnsafeEnum<MutatorOperation, u8> = UnsafeEnum::Valid(MutatorOperation::Flip);
        v.mutate(&mut m, None);
        match v {
            UnsafeEnum::Invalid(raw) => assert_ne!(raw, 1),
            UnsafeEnum::Valid(_) => panic!("still valid"),
        }
    }
    let v: UnsafeEnum<MutatorOperation, u8> = UnsafeEnum::Valid(MutatorOperation::Arithmetic);
    let mut out = vec![];
    v.binary_serialize(&mut out, ByteOrder::BigEndian);
    assert_eq!(out, vec![2]);
    assert_eq!(v.to_primitive(), 2);
    assert_eq!(v.serialized_size(), 1);
}

#[test]
fn test_dynamic_array_limits() {
    let mut mutator = get_mutator();
    let mut c = Constraints::new();
    c.min(1).max(10);
    for _ in 0..1000 {
        let bar: Vec<u32> = Vec::new_fuzzed(&mut mutator, Some(&c));
        assert!(bar.len() >= 1);
        assert!(bar.len() <= 10);
    }
}

#[test]
fn exact_element_count_when_bounds_meet() {
    let mut mutator = get_mutator();
    let mut c = Constraints::new();
    c.min(4).max(4);
    let v: Vec<u8> = Vec::new_fuzzed(&mut mutator, Some(&c));
    assert_eq!(v.len(), 4);
}

#[test]
fn generated_collections_stay_within_budget() {
    let mut mutator = get_mutator();
    for max_size in [0usize, 1, 5, 21, 100] {
        for _ in 0..300 {
            let mut c = Constraints::new();
            c.max_size(max_size);
            let v: Vec<u16> = Vec::new_fuzzed(&mut mutator, Some(&c));
            assert!(v.serialized_size() <= max_size);
            let nested: Vec<Vec<u16>> = Vec::new_fuzzed(&mut mutator, Some(&c));
            assert!(nested.serialized_size() <= max_size);
            let s: Utf8String = Utf8String::new_fuzzed(&mut mutator, Some(&Constraints::with_max_size(max_size)));
            assert!(s.serialized_size() <= max_size);
        }
    }
}

#[test]
fn mutated_collections_stay_within_budget() {
    const MAX_SIZE: usize = 21;
    let mut mutator = get_mutator();
    let mut c = Constraints::new();
    c.max_size(MAX_SIZE);
    for i in 0..2000 {
        let mut v: Vec<u16> = Vec::new_fuzzed(&mut mutator, Some(&c));
        assert!(v.serialized_size() <= MAX_SIZE);
        if i % 2 == 0 {
            mutator.flags.all_chances_succeed = true;
        }
        v.mutate(&mut mutator, Some(&c));
        mutator.flags.all_chances_succeed = false;
        assert!(v.serialized_size() <= MAX_SIZE, "size {}", v.serialized_size());
    }
}

#[test]
fn test_serialized_size_does_not_exceed_constraint() {
    const MAX_SIZE: usize = 21;
    let mut mutator = get_mutator();
    let mut constraints = Constraints::<u8>::new();
    constraints.max_size(MAX_SIZE);
    for _ in 0..1000 {
        let mut budget = FieldBudget::new(Some(&constraints), 0);
        let mut fields: Vec<Vec<u16>> = vec![];
        for idx in field_order(&mut mutator, 2, true) {
            assert!(idx < 2);
            let mut c = budget.field_constraints::<usize>().unwrap();
            c.min = Some(0);
            c.max = Some(1000);
            let field: Vec<u16> = Vec::new_fuzzed(&mut mutator, Some(&c));
            budget.record(0, field.serialized_size());
            fields.push(field);
        }
        assert!(!budget.exceeded);
        let total: usize = fields.iter().map(|f| f.serialized_size()).sum();
        assert!(total <= MAX_SIZE);
    }
}

#[test]
fn field_budget_marks_overflow() {
    let mut c = Constraints::<u8>::new();
    c.max_size(3);
    let budget = FieldBudget::new(Some(&c), 4);
    assert!(budget.exceeded);
    let mut budget = FieldBudget::new(Some(&c), 2);
    assert_eq!(budget.field_constraints::<u8>().unwrap().max_size, Some(1));
    budget.record(1, 2);
    assert!(!budget.exceeded);
    budget.record(1, 3);
    assert!(budget.exceeded);
}

#[test]
fn field_order_is_a_permutation() {
    let mut m = get_mutator();
    let mut order = field_order(&mut m, 6, true);
    order.sort();
    assert_eq!(order, vec![0, 1, 2, 3, 4, 5]);
    assert_eq!(field_order(&mut m, 4, false), vec![0, 1, 2, 3]);
}

#[test]
fn variants_of_zero_weight_are_never_picked() {
    let mut m = get_mutator();
    let weights = vec![0u64, 3, 0, 1];
    let ignore = vec![0u32, 900, 0, 0];
    for _ in 0..500 {
        let v = select_variant(&mut m, &weights, &ignore);
        assert!(v == 1 || v == 3);
    }
}

#[test]
fn shrinking_keeps_one_end() {
    let mut m = get_mutator();
    for _ in 0..500 {
        let before: Vec<u8> = (0..20).collect();
        let mut v = before.clone();
        shrink_vec(&mut v, &mut m);
        assert!(v.len() <= before.len());
        let prefix = &before[..v.len()];
        let suffix = &before[before.len() - v.len()..];
        assert!(v.as_slice() == prefix || v.as_slice() == suffix);
    }
}

#[test]
fn account_for_base_object_size_once_and_clamped() {
    let mut c = Constraints::<u8>::new();
    c.max_size(10);
    c.account_for_base_object_size::<u32>();
    assert_eq!(c.max_size, Some(6));
    c.account_for_base_object_size::<u32>();
    assert_eq!(c.max_size, Some(6));
    let mut small = Constraints::<u8>::new();
    small.max_size(2);
    small.account_for_base_object_size::<u64>();
    assert_eq!(small.max_size, Some(0));
    assert!(small.base_object_size_accounted_for);
}

#[test]
fn same_seed_gives_same_values() {
    let run = |seed: u64| -> Vec<u8> {
        let mut m = Mutator::from_seed(seed);
        let mut out = vec![];
        for i in 10..15u64 {
            m.reseed(iteration_seed(seed, i));
            let v: Vec<u32> = Vec::new_fuzzed(&mut m, Some(Constraints::new().max(8)));
            v.binary_serialize(&mut out, ByteOrder::BigEndian);
        }
        out
    };
    assert_eq!(run(42), run(42));
    assert_ne!(run(42), run(43));
}

#[test]
fn replay_stops_at_its_end_and_reuses_seeds() {
    assert_eq!(iteration_seed(u64::MAX, 2), 1);
    for i in 10..15u64 {
        assert_eq!(
            next_action(DriverMode::Reproduce, i, 15, true, 99),
            next_action(DriverMode::Run, i, 0, false, 99)
        );
    }
    assert_eq!(next_action(DriverMode::Reproduce, 15, 15, false, 99), WorkerAction::Exit);
    assert_eq!(next_action(DriverMode::Run, 3, 0, true, 99), WorkerAction::Exit);
    assert_eq!(next_action(DriverMode::Run, 3, 0, false, 99), WorkerAction::RunIteration { seed: 102 });
    assert!(is_stalled(100, 80, 10));
    assert!(!is_stalled(100, 95, 10));
    assert!(!is_stalled(100, 120, 10));
}

#[test]
fn test_boolean_field_can_be_randomized() {
    let mut mutator = get_mutator();
    let mut seen = [false; 2];
    for _ in 0..100 {
        let b = bool::new_fuzzed(&mut mutator, None);
        seen[b as usize] = true;
    }
    assert!(seen[0] && seen[1]);
}

#[test]
fn bounded_scalars_stay_in_range_outside_havoc() {
    let mut mutator = get_mutator();
    let mut c = Constraints::new();
    c.min(5u32).max(10000);
    for _ in 0..1000 {
        let v = u32::new_fuzzed(&mut mutator, Some(&c));
        assert!((5..10000).contains(&v));
    }
}

#[test]
fn test_string_mutation() {
    let mut mutator = havoc_mutator(5);
    let mut utf8_str = Utf8String::new_fuzzed(&mut mutator, None);
    let len = utf8_str.inner.len();
    utf8_str.mutate(&mut mutator, None);
    assert_eq!(utf8_str.inner.len(), len);
    let mut ascii_str = AsciiString::new_fuzzed(&mut mutator, None);
    assert!(ascii_str.inner.iter().all(|c| (c.0 as u32) < 0x80));
    ascii_str.mutate(&mut mutator, None);
    assert!(ascii_str.inner.len() < 256);
}

#[test]
fn gen_chance_extremes() {
    let mut m = get_mutator();
    for _ in 0..100 {
        assert!(!m.gen_chance(0));
        assert!(m.gen_chance(1000));
    }
    m.flags.all_chances_succeed = true;
    assert!(m.gen_chance(1));
    m.flags.always_fixup = true;
    assert!(m.should_fixup());
}

#[test]
fn signed_scalars_respect_their_bounds() {
    let mut mutator = get_mutator();
    let mut c = Constraints::new();
    c.min(-5i8).max(7);
    for _ in 0..500 {
        let v = i8::new_fuzzed(&mut mutator, Some(&c));
        assert!((-5..7).contains(&v));
    }
    let mut c = Constraints::new();
    c.min(i64::MIN).max(-10);
    for _ in 0..500 {
        let v = i64::new_fuzzed(&mut mutator, Some(&c));
        assert!(v < -10);
    }
}

#[test]
fn optional_values_flip_within_budget() {
    let mut mutator = get_mutator();
    mutator.flags.all_chances_succeed = true;
    let mut v: Option<u32> = None;
    v.mutate(&mut mutator, None);
    assert!(v.is_some());
    v.mutate(&mut mutator, None);
    assert!(v.is_none());
    let mut c = Constraints::new();
    c.max_size(2);
    v.mutate(&mut mutator, Some(&c));
    assert!(v.is_none());
}

#[test]
fn repeated_first_element_when_chances_forced() {
    let mut mutator = get_mutator();
    mutator.flags.all_chances_succeed = true;
    let mut c = Constraints::new();
    c.min(5).max(6);
    let v: Vec<u64> = Vec::new_fuzzed(&mut mutator, Some(&c));
    assert!(!v.is_empty());
    assert!(v.iter().all(|x| *x == v[0]));
}

#[test]
fn gen_uses_no_constraints() {
    let mut m = get_mutator();
    let op: MutatorOperation = m.gen();
    assert!(op.to_primitive() < 3);
}

fn generate_foo(mutator: &mut Mutator, constraints: &Constraints<u8>) -> (u8, u8, Vec<u8>) {
    let footprint = 1 + 1 + <Vec<u8> as SerializedSize>::max_default_object_size();
    let mut budget = FieldBudget::new(Some(constraints), footprint);
    let a = u8::new_fuzzed(mutator, budget.field_constraints::<u8>().as_ref());
    budget.record(1, a.serialized_size());
    let b = u8::new_fuzzed(mutator, budget.field_constraints::<u8>().as_ref());
    budget.record(1, b.serialized_size());
    let mut c = budget.field_constraints::<usize>().unwrap();
    c.min = Some(0);
    c.max = Some(100);
    c.weighted = Weighted::Min;
    let v: Vec<u8> = Vec::new_fuzzed(mutator, Some(&c));
    budget.record(1, v.serialized_size());
    assert!(!budget.exceeded);
    (a, b, v)
}

#[test]
fn test_max_size_constraint_seems_to_work() {
    let mut mutator = get_mutator();
    let mut constraints = Constraints::new();
    constraints.max_size(5);
    for _ in 0..100 {
        let (a, b, v) = generate_foo(&mut mutator, &constraints);
        assert!(a.serialized_size() + b.serialized_size() + v.serialized_size() <= 5);
    }
}

#[test]
fn max_size_constraint_seems_to_work_with_mutation() {
    let mut mutator = get_mutator();
    mutator.corpus_state.mode = MutatorMode::Havoc;
    let mut constraints = Constraints::new();
    constraints.max_size(5);
    let (mut a, mut b, mut v) = generate_foo(&mut mutator, &constraints);
    for _ in 0..100 {
        let current = a.serialized_size() + b.serialized_size() + v.serialized_size();
        let mut budget = FieldBudget::new(Some(&constraints), current);
        let before = a.serialized_size();
        a.mutate(&mut mutator, budget.field_constraints::<u8>().as_ref());
        budget.record(before, a.serialized_size());
        let before = b.serialized_size();
        b.mutate(&mut mutator, budget.field_constraints::<u8>().as_ref());
        budget.record(before, b.serialized_size());
        let before = v.serialized_size();
        v.mutate(&mut mutator, budget.field_constraints::<usize>().as_ref());
        budget.record(before, v.serialized_size());
        assert!(!budget.exceeded);
        assert!(a.serialized_size() + b.serialized_size() + v.serialized_size() <= 5);
    }
}

#[test]
fn at_most_two_iteration_flags() {
    let mut m = get_mutator();
    for _ in 0..5000 {
        m.random_flags();
        let f = m.flags;
        assert!(!(f.field_count.is_some() && f.all_chances_succeed && f.always_fixup));
        if let Some(n) = f.field_count {
            assert!((1..10).contains(&n));
        }
    }
}

#[test]
fn growing_an_empty_collection_adds_one_to_eight() {
    let mut m = get_mutator();
    for _ in 0..300 {
        let mut v: Vec<u16> = vec![];
        lain::mutatable::grow_vec(&mut v, &mut m, None);
        assert!((1..9).contains(&v.len()));
        let mut w: Vec<u16> = vec![1, 2, 3, 4, 5];
        lain::mutatable::grow_vec(&mut w, &mut m, Some(2));
        assert!(w.len() > 5);
        let mut s: Vec<u16> = vec![1, 2, 3, 4];
        shrink_vec(&mut s, &mut m);
        assert!(s.len() < 4);
    }
}

#[test]
fn budgeted_collection_length_is_bounded() {
    let mut m = get_mutator();
    let mut c = Constraints::new();
    c.min(50).max(60).max_size(9);
    for _ in 0..200 {
        let v: Vec<u32> = Vec::new_fuzzed(&mut m, Some(&c));
        assert!(v.len() <= 2);
        assert!(v.serialized_size() <= 9);
    }
}
