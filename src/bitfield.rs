//! Sub-byte fields packed into a shared backing integer, and zero padding up to
//! a declared object size.

use vstd::prelude::*;
use crate::buffer::{ByteOrder, int_bytes, write_uint};
use crate::scalar::{valid_width, width_max, width_max_of};

verus! {

/// A bitfield as declared: its width in bits and the width of its backing
/// integer.
#[derive(Debug, Clone, Copy, PartialEq, Eq, Structural)]
pub struct BitfieldField {
    pub bits: u32,
    pub backing_width: u32,
}

/// A bitfield as laid out: where its bits go in the backing integer, and
/// whether the backing integer is written out after it.
#[derive(Debug, Clone, Copy, PartialEq, Eq, Structural)]
pub struct BitfieldSlot {
    pub bits: u32,
    pub shift: u32,
    pub backing_width: u32,
    pub flush: bool,
}

/// Why a run of bitfields cannot be laid out.
#[derive(Debug, Clone, Copy, PartialEq, Eq, Structural)]
pub enum BitfieldError {
    /// A field asks for no bits or for more than 64.
    BadBitCount,
    /// A backing integer that is not 8, 16, 32 or 64 bits wide.
    UnsupportedBackingType,
    /// The fields sharing a backing integer need more bits than it has.
    OverflowsBackingType,
}

/// Why an object cannot be padded to its declared size.
#[derive(Debug, Clone, Copy, PartialEq, Eq, Structural)]
pub enum PaddingError {
    /// The object's content is larger than its declared size.
    ContentExceedsDeclaredSize,
}

/// The bit offset at which field `k` of `run` starts: fields share a backing
/// integer until it is exactly full, and the next field starts a new one.
pub open spec fn bit_offset(run: Seq<BitfieldField>, k: int) -> nat
    decreases k,
{
    if k <= 0 {
        0
    } else {
        let end: nat = (bit_offset(run, k - 1) + run[k - 1].bits) as nat;
        if end == run[k - 1].backing_width {
            0
        } else {
            end
        }
    }
}

/// Field `k` of `run` can be laid out.
pub open spec fn field_fits(run: Seq<BitfieldField>, k: int) -> bool {
    &&& 1 <= run[k].bits <= 64
    &&& valid_width(run[k].backing_width)
    &&& bit_offset(run, k) + run[k].bits <= run[k].backing_width
}

/// The error that field `k` of `run` causes, if it cannot be laid out.
pub open spec fn field_error(run: Seq<BitfieldField>, k: int) -> BitfieldError {
    if !(1 <= run[k].bits <= 64) {
        BitfieldError::BadBitCount
    } else if !valid_width(run[k].backing_width) {
        BitfieldError::UnsupportedBackingType
    } else {
        BitfieldError::OverflowsBackingType
    }
}

/// The slot of field `k` of `run`: the backing integer is written out when the
/// field fills it or ends the run.
pub open spec fn slot_of(run: Seq<BitfieldField>, k: int) -> BitfieldSlot {
    BitfieldSlot {
        bits: run[k].bits,
        shift: bit_offset(run, k) as u32,
        backing_width: run[k].backing_width,
        flush: bit_offset(run, k) + run[k].bits == run[k].backing_width || k == run.len() - 1,
    }
}

/// Lays out a run of consecutive bitfields: each field starts where the
/// previous one ended in the same backing integer, and the first field that
/// cannot be laid out decides the error.
pub fn layout_bitfields(run: &Vec<BitfieldField>) -> (r: Result<Vec<BitfieldSlot>, BitfieldError>)
    ensures
        r is Ok <==> forall|k: int| 0 <= k < run.len() ==> #[trigger] field_fits(run@, k),
        r matches Ok(slots) ==> slots.len() == run.len() && forall|k: int|
            0 <= k < run.len() ==> slots[k] == #[trigger] slot_of(run@, k),
        r matches Err(e) ==> exists|k: int|
            0 <= k < run.len() && !#[trigger] field_fits(run@, k) && e == field_error(run@, k)
                && forall|j: int| 0 <= j < k ==> field_fits(run@, j),
{
    let mut slots: Vec<BitfieldSlot> = Vec::new();
    let mut offset: u32 = 0;
    let mut k: usize = 0;
    while k < run.len()
        invariant
            k <= run.len(),
            offset == bit_offset(run@, k as int),
            offset <= 64,
            slots.len() == k,
            forall|j: int| 0 <= j < k ==> #[trigger] field_fits(run@, j),
            forall|j: int| 0 <= j < k ==> slots[j] == #[trigger] slot_of(run@, j),
        decreases run.len() - k,
    {
        let f = run[k];
        if f.bits < 1 || f.bits > 64 {
            assert(!field_fits(run@, k as int));
            assert(field_error(run@, k as int) == BitfieldError::BadBitCount);
            return Err(BitfieldError::BadBitCount);
        }
        if !(f.backing_width == 8 || f.backing_width == 16 || f.backing_width == 32
            || f.backing_width == 64) {
            assert(!field_fits(run@, k as int));
            assert(field_error(run@, k as int) == BitfieldError::UnsupportedBackingType);
            return Err(BitfieldError::UnsupportedBackingType);
        }
        if offset + f.bits > f.backing_width {
            assert(!field_fits(run@, k as int));
            assert(field_error(run@, k as int) == BitfieldError::OverflowsBackingType);
            return Err(BitfieldError::OverflowsBackingType);
        }
        let end = offset + f.bits;
        let flush = end == f.backing_width || k + 1 == run.len();
        assert(field_fits(run@, k as int));
        slots.push(BitfieldSlot { bits: f.bits, shift: offset, backing_width: f.backing_width, flush });
        assert(slots[k as int] == slot_of(run@, k as int));
        offset = if end == f.backing_width {
            0
        } else {
            end
        };
        k += 1;
    }
    Ok(slots)
}

/// The mask of the low `bits` bits.
pub open spec fn low_mask(bits: u32) -> u64 {
    if bits >= 64 {
        0xffff_ffff_ffff_ffffu64
    } else {
        ((1u64 << bits) - 1) as u64
    }
}

/// The accumulator after packing `value` into `slot`.
pub open spec fn packed(acc: u64, value: u64, slot: BitfieldSlot) -> u64 {
    acc | ((value & low_mask(slot.bits)) << slot.shift)
}

/// A slot that a value can be packed into.
pub open spec fn slot_ok(slot: BitfieldSlot) -> bool {
    &&& valid_width(slot.backing_width)
    &&& 1 <= slot.bits
    &&& slot.shift + slot.bits <= slot.backing_width
}

/// The running integer that consecutive bitfields are packed into.
#[derive(Debug, Clone, Copy)]
pub struct BitfieldAccumulator {
    pub acc: u64,
}

impl BitfieldAccumulator {
    /// An empty accumulator.
    pub fn new() -> (r: BitfieldAccumulator)
        ensures
            r.acc == 0,
    {
        BitfieldAccumulator { acc: 0 }
    }

    /// Packs the low `slot.bits` bits of `value` at `slot.shift`; when the slot
    /// flushes, the backing integer is written to `buffer` in byte order
    /// `order` and the accumulator starts again from zero.
    pub fn push(&mut self, value: u64, slot: BitfieldSlot, buffer: &mut Vec<u8>, order: ByteOrder)
        requires
            slot_ok(slot),
        ensures
            slot.flush ==> final(self).acc == 0 && final(buffer)@ == old(buffer)@ + int_bytes(
                (packed(old(self).acc, value, slot) & width_max(slot.backing_width)) as nat,
                (slot.backing_width / 8) as nat,
                order,
            ),
            !slot.flush ==> final(self).acc == packed(old(self).acc, value, slot) && final(buffer)@
                == old(buffer)@,
    {
        let mask: u64 = if slot.bits >= 64 {
            0xffff_ffff_ffff_ffff
        } else {
            proof {
                let b = slot.bits;
                assert(b < 64 ==> (1u64 << b) >= 1) by (bit_vector);
            }
            (1u64 << slot.bits) - 1
        };
        self.acc = self.acc | ((value & mask) << slot.shift);
        if slot.flush {
            let m = width_max_of(slot.backing_width);
            let out = self.acc & m;
            proof {
                let a = self.acc;
                assert(a & m <= m) by (bit_vector);
            }
            write_uint(buffer, out, (slot.backing_width / 8) as usize, order);
            self.acc = 0;
        }
    }
}

/// Pads an object whose content took `written` bytes with zero bytes up to its
/// declared size; content larger than the declared size is an error.
pub fn pad_to_declared_size(buffer: &mut Vec<u8>, written: usize, declared: usize) -> (r: Result<
    usize,
    PaddingError,
>)
    ensures
        written <= declared ==> r == Ok::<usize, PaddingError>(declared) && final(buffer)@
            == old(buffer)@ + Seq::new((declared - written) as nat, |i: int| 0u8),
        written > declared ==> r == Err::<usize, PaddingError>(
            PaddingError::ContentExceedsDeclaredSize,
        ) && final(buffer)@ == old(buffer)@,
{
    if written > declared {
        return Err(PaddingError::ContentExceedsDeclaredSize);
    }
    let mut i: usize = written;
    while i < declared
        invariant
            written <= i <= declared,
            buffer@ == old(buffer)@ + Seq::new((i - written) as nat, |j: int| 0u8),
        decreases declared - i,
    {
        buffer.push(0);
        i += 1;
        assert(buffer@ == old(buffer)@ + Seq::new((i - written) as nat, |j: int| 0u8));
    }
    Ok(declared)
}

} // verus!
