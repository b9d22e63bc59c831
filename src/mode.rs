//! The deterministic mutation-mode machine. For the one targeted scalar field it
//! first walks every contiguous run of flipped bits, then every boundary value,
//! then moves on to the next field; after the last field it falls back to
//! randomized ("havoc") mutation for good.

use vstd::prelude::*;

verus! {

/// The mutation strategy applied to the targeted scalar field.
#[derive(Debug, Clone, Copy, PartialEq, Eq, Structural)]
pub enum MutatorMode {
    /// Flip the run of `bits` bits starting at bit `current_idx`.
    WalkingBitFlip { bits: u8, current_idx: u8 },
    /// Replace the value by entry `current_idx` of its boundary-value table.
    InterestingValues { current_idx: u8 },
    /// Randomized mutation; absorbing.
    Havoc,
}

/// The state of the corpus item being fuzzed.
#[derive(Debug, Clone, Copy)]
pub struct CorpusFuzzingState {
    /// Scalar fields visited so far in the current pass.
    pub fields_fuzzed: usize,
    /// The mode applied to the targeted field.
    pub mode: MutatorMode,
    /// The index, in visiting order, of the field the deterministic modes act on.
    pub targeted_field_idx: usize,
    /// The largest number of scalar fields seen in one pass over this item.
    pub target_total_fields: usize,
    /// The number of passes begun over this item.
    pub target_total_passes: usize,
    /// Whether the current pass has already mutated its live field.
    pub finished_iteration: bool,
}

/// The state in which a freshly generated base instance starts.
pub open spec fn initial_corpus_state() -> CorpusFuzzingState {
    CorpusFuzzingState {
        fields_fuzzed: 0,
        mode: MutatorMode::WalkingBitFlip { bits: 1, current_idx: 0 },
        targeted_field_idx: 0,
        target_total_fields: 0,
        target_total_passes: 0,
        finished_iteration: false,
    }
}

/// The next mode and targeted field after the targeted field of a scalar of
/// `width` bits, whose table has `table_len` entries, was mutated once.
pub open spec fn next_mode(
    mode: MutatorMode,
    targeted: nat,
    total: nat,
    width: nat,
    table_len: nat,
) -> (MutatorMode, nat) {
    match mode {
        MutatorMode::WalkingBitFlip { bits, current_idx } => {
            if bits >= width {
                (MutatorMode::InterestingValues { current_idx: 0 }, targeted)
            } else if current_idx + bits >= width {
                (MutatorMode::WalkingBitFlip { bits: (bits + 1) as u8, current_idx: 0 }, targeted)
            } else {
                (MutatorMode::WalkingBitFlip { bits, current_idx: (current_idx + 1) as u8 }, targeted)
            }
        },
        MutatorMode::InterestingValues { current_idx } => {
            if current_idx + 1 < table_len {
                (MutatorMode::InterestingValues { current_idx: (current_idx + 1) as u8 }, targeted)
            } else if targeted + 1 >= total {
                (MutatorMode::Havoc, targeted)
            } else {
                (MutatorMode::WalkingBitFlip { bits: 1, current_idx: 0 }, targeted + 1)
            }
        },
        MutatorMode::Havoc => (MutatorMode::Havoc, targeted),
    }
}

/// The mode after `n` mutations of the targeted field, with the targeted field
/// and the field total as in [`next_mode`].
pub open spec fn modes_after(
    mode: MutatorMode,
    targeted: nat,
    total: nat,
    width: nat,
    table_len: nat,
    n: nat,
) -> (MutatorMode, nat)
    decreases n,
{
    if n == 0 {
        (mode, targeted)
    } else {
        let (m, t) = next_mode(mode, targeted, total, width, table_len);
        modes_after(m, t, total, width, table_len, (n - 1) as nat)
    }
}

/// The number of walking steps from `WalkingBitFlip { bits, current_idx }` until
/// the mode becomes `InterestingValues { current_idx: 0 }`.
pub open spec fn walk_len(bits: nat, idx: nat, width: nat) -> nat
    decreases width - bits, width - idx,
{
    if bits >= width {
        1
    } else if idx + bits >= width {
        1 + walk_len(bits + 1, 0, width)
    } else {
        1 + walk_len(bits, idx + 1, width)
    }
}

proof fn lemma_modes_after_split(
    mode: MutatorMode,
    targeted: nat,
    total: nat,
    width: nat,
    table_len: nat,
    n: nat,
)
    requires
        n >= 1,
    ensures
        modes_after(mode, targeted, total, width, table_len, n) == ({
            let (m, t) = next_mode(mode, targeted, total, width, table_len);
            modes_after(m, t, total, width, table_len, (n - 1) as nat)
        }),
{
}

proof fn lemma_walk_reaches_interesting(bits: u8, idx: u8, targeted: nat, total: nat, width: nat, table_len: nat)
    requires
        1 <= bits,
        width <= 64,
        bits <= width,
        idx + bits <= width,
    ensures
        modes_after(
            MutatorMode::WalkingBitFlip { bits, current_idx: idx },
            targeted,
            total,
            width,
            table_len,
            walk_len(bits as nat, idx as nat, width),
        ) == (MutatorMode::InterestingValues { current_idx: 0 }, targeted),
    decreases width - bits, width - idx,
{
    let mode = MutatorMode::WalkingBitFlip { bits, current_idx: idx };
    let n = walk_len(bits as nat, idx as nat, width);
    lemma_modes_after_split(mode, targeted, total, width, table_len, n);
    if bits as nat >= width {
        assert(n == 1);
    } else if idx + bits >= width {
        lemma_walk_reaches_interesting((bits + 1) as u8, 0, targeted, total, width, table_len);
    } else {
        lemma_walk_reaches_interesting(bits, (idx + 1) as u8, targeted, total, width, table_len);
    }
}

proof fn lemma_walk_len_closed(bits: nat, idx: nat, width: nat)
    requires
        1 <= bits <= width,
        idx + bits <= width,
    ensures
        2 * walk_len(bits, idx, width) == 2 * (width - bits + 1 - idx) + (width - bits) * (width
            - bits + 1),
    decreases width - bits, width - idx,
{
    let d: int = width - bits;
    if bits >= width {
        assert(d == 0);
        assert(d * (d + 1) == 0) by (nonlinear_arith)
            requires
                d == 0,
        ;
    } else if idx + bits >= width {
        lemma_walk_len_closed(bits + 1, 0, width);
        assert(idx == d);
        assert((width - (bits + 1)) * (width - (bits + 1) + 1) == (d - 1) * d);
        assert((d - 1) * d + 2 * d == d * (d + 1)) by (nonlinear_arith);
    } else {
        lemma_walk_len_closed(bits, idx + 1, width);
    }
}

proof fn lemma_interesting_leaves(i: u8, targeted: nat, total: nat, width: nat, table_len: nat)
    requires
        i < table_len,
        table_len <= 255,
    ensures
        modes_after(
            MutatorMode::InterestingValues { current_idx: i },
            targeted,
            total,
            width,
            table_len,
            (table_len - 1 - i) as nat,
        ) == (MutatorMode::InterestingValues { current_idx: (table_len - 1) as u8 }, targeted),
    decreases table_len - i,
{
    if i + 1 < table_len {
        lemma_modes_after_split(
            MutatorMode::InterestingValues { current_idx: i },
            targeted,
            total,
            width,
            table_len,
            (table_len - 1 - i) as nat,
        );
        lemma_interesting_leaves((i + 1) as u8, targeted, total, width, table_len);
    }
}

proof fn lemma_modes_after_add(
    mode: MutatorMode,
    targeted: nat,
    total: nat,
    width: nat,
    table_len: nat,
    a: nat,
    b: nat,
)
    ensures
        modes_after(mode, targeted, total, width, table_len, a + b) == ({
            let (m, t) = modes_after(mode, targeted, total, width, table_len, a);
            modes_after(m, t, total, width, table_len, b)
        }),
    decreases a,
{
    if a > 0 {
        let (m, t) = next_mode(mode, targeted, total, width, table_len);
        lemma_modes_after_add(m, t, total, width, table_len, (a - 1) as nat, b);
        assert((a + b - 1) as nat == (a - 1) as nat + b);
    }
}

/// For a targeted scalar of `width` bits whose table has `table_len` entries,
/// the deterministic phase of a field takes `width * (width + 1) / 2` walking
/// steps (one for each contiguous run of bits) and then `table_len` boundary
/// values: the mode stays on that field for exactly that many mutations, the
/// last of them on the last boundary value, and the next one hands over to the
/// following field (or to havoc after the last field).
pub proof fn lemma_deterministic_phase_length(width: nat, table_len: nat, targeted: nat, total: nat)
    requires
        1 <= width <= 64,
        1 <= table_len <= 255,
    ensures
        2 * walk_len(1, 0, width) == width * (width + 1),
        modes_after(
            MutatorMode::WalkingBitFlip { bits: 1, current_idx: 0 },
            targeted,
            total,
            width,
            table_len,
            (walk_len(1, 0, width) + table_len - 1) as nat,
        ) == (MutatorMode::InterestingValues { current_idx: (table_len - 1) as u8 }, targeted),
        modes_after(
            MutatorMode::WalkingBitFlip { bits: 1, current_idx: 0 },
            targeted,
            total,
            width,
            table_len,
            walk_len(1, 0, width) + table_len,
        ) == (if targeted + 1 >= total {
            (MutatorMode::Havoc, targeted)
        } else {
            (MutatorMode::WalkingBitFlip { bits: 1, current_idx: 0 }, targeted + 1)
        }),
{
    let start = MutatorMode::WalkingBitFlip { bits: 1, current_idx: 0 };
    let w = walk_len(1, 0, width);
    lemma_walk_len_closed(1, 0, width);
    assert(2 * w == 2 * width + (width - 1) * width);
    assert(2 * width + (width - 1) * width == width * (width + 1)) by (nonlinear_arith);
    lemma_walk_reaches_interesting(1, 0, targeted, total, width, table_len);
    lemma_interesting_leaves(0, targeted, total, width, table_len);
    lemma_modes_after_add(start, targeted, total, width, table_len, w, (table_len - 1) as nat);
    assert((w + table_len - 1) as nat == w + (table_len - 1) as nat);
    lemma_modes_after_add(start, targeted, total, width, table_len, (w + table_len - 1) as nat, 1);
    assert(w + table_len == (w + table_len - 1) as nat + 1);
    let last = MutatorMode::InterestingValues { current_idx: (table_len - 1) as u8 };
    lemma_modes_after_split(last, targeted, total, width, table_len, 1);
}

/// The scalar-width-8 instance: 36 walking steps and 4 boundary values, 40 in all.
pub proof fn lemma_byte_phase_is_forty_steps(targeted: nat, total: nat)
    ensures
        walk_len(1, 0, 8) == 36,
        modes_after(
            MutatorMode::WalkingBitFlip { bits: 1, current_idx: 0 },
            targeted,
            total,
            8,
            4,
            39,
        ) == (MutatorMode::InterestingValues { current_idx: 3 }, targeted),
        modes_after(MutatorMode::WalkingBitFlip { bits: 1, current_idx: 0 }, targeted, total, 8, 4, 40)
            == (if targeted + 1 >= total {
            (MutatorMode::Havoc, targeted)
        } else {
            (MutatorMode::WalkingBitFlip { bits: 1, current_idx: 0 }, targeted + 1)
        }),
{
    lemma_deterministic_phase_length(8, 4, targeted, total);
}

} // verus!
