//! Strings mutated character by character.

use vstd::prelude::*;
use vstd::string::StrSliceExecFns;
use vstd::utf8::{encode_scalar, encode_utf8};
use crate::buffer::ByteOrder;
use crate::mode::CorpusFuzzingState;
use crate::mutator::MutatorFlags;
use crate::mutator::{Mutator, CHANCE_TO_REPEAT_ARRAY_VALUE};
use crate::new_fuzzed::{bound_or, count_or, widen_u8};
use crate::rng::{char_from_u32, rng_char, rng_range, rng_sample_indices};
use crate::traits::{BinarySerialize, Mutatable, NewFuzzed, SerializedSize, VariableSizeObject};
use crate::types::{AsciiChar, AsciiString, Constraints, Utf8Char, Utf8String, allowed_size, constraints_of};

verus! {

/// The length a generated string takes when no maximum is given.
pub const MAX_STRING_LENGTH: usize = 256;

/// Characters often used in programming languages.
pub const PROGRAMMING_CHARS: [char; 47] = [
    ' ', ' ', ' ', '\t', '\n', '~', '`', '!', '@', '#', '$', '%', '^', '&', '*', '(', ')', '_', '-',
    '=', '+', '[', ']', '{', '}', ':', ';', '\'', '"', '\\', '|', ',', '<', '>', '.', '/', '?', '0',
    '1', '2', '3', '4', '5', '6', '7', '8', '9',
];

/// Unusual Unicode characters: deprecated, format, tag, private-use and space
/// characters.
pub const TRICKY_CHARS: [char; 44] = [
    '\u{0149}', '\u{fff0}', '\u{fff1}', '\u{fff2}', '\u{fff3}', '\u{fff4}', '\u{fff5}', '\u{fff6}',
    '\u{fff7}', '\u{fff8}', '\u{fff9}', '\u{fffA}', '\u{fffB}', '\u{fffC}', '\u{fffD}', '\u{fffE}',
    '\u{fffF}', '\u{0600}', '\u{0601}', '\u{0602}', '\u{0603}', '\u{0604}', '\u{0605}', '\u{061C}',
    '\u{06DD}', '\u{070F}', '\u{180E}', '\u{110BD}', '\u{1D173}', '\u{e0001}', '\u{e0020}',
    '\u{e000}', '\u{e001}', '\u{ef8ff}', '\u{f0000}', '\u{ffffd}', '\u{ffffe}', '\u{fffff}',
    '\u{100000}', '\u{10FFFD}', '\u{10FFFE}', '\u{10FFFF}', '\u{3000}', '\u{1680}',
];

/// The number of bytes of the UTF-8 encoding of `c`.
pub fn utf8_width(c: char) -> (r: usize)
    ensures
        r == encode_scalar(c as u32).len(),
        1 <= r <= 4,
{
    let v = c as u32;
    if v <= 0x7F {
        1
    } else if v <= 0x7FF {
        2
    } else if v <= 0xFFFF && !(0xD800 <= v && v <= 0xDFFF) {
        3
    } else {
        4
    }
}

/// A character takes one to four bytes in UTF-8.
pub proof fn lemma_scalar_width(c: char)
    ensures
        1 <= encode_scalar(c as u32).len() <= 4,
{
}

/// Appends the UTF-8 encoding of `c` to `buffer`.
pub fn push_utf8(buffer: &mut Vec<u8>, c: char)
    ensures
        final(buffer)@ == old(buffer)@ + encode_scalar(c as u32),
{
    let v = c as u32;
    if v <= 0x7F {
        buffer.push((v & 0x7F) as u8);
        assert(encode_scalar(v) == seq![(v & 0x7F) as u8]);
    } else if v <= 0x7FF {
        let b0 = 0xC0 | ((v >> 6) & 0x1F) as u8;
        let b1 = 0x80 | (v & 0x3F) as u8;
        buffer.push(b0);
        buffer.push(b1);
        assert(encode_scalar(v) == seq![b0, b1]);
    } else if v <= 0xFFFF && !(0xD800 <= v && v <= 0xDFFF) {
        let b0 = 0xE0 | ((v >> 12) & 0x0F) as u8;
        let b1 = 0x80 | ((v >> 6) & 0x3F) as u8;
        let b2 = 0x80 | (v & 0x3F) as u8;
        buffer.push(b0);
        buffer.push(b1);
        buffer.push(b2);
        assert(encode_scalar(v) == seq![b0, b1, b2]);
    } else {
        let b0 = 0xF0 | ((v >> 18) & 0x7) as u8;
        let b1 = 0x80 | ((v >> 12) & 0x3F) as u8;
        let b2 = 0x80 | ((v >> 6) & 0x3F) as u8;
        let b3 = 0x80 | (v & 0x3F) as u8;
        buffer.push(b0);
        buffer.push(b1);
        buffer.push(b2);
        buffer.push(b3);
        assert(encode_scalar(v) == seq![b0, b1, b2, b3]);
    }
}

/// The encoding of a sequence grows by the encoding of each appended
/// character.
pub proof fn lemma_encode_push(s: Seq<char>, c: char)
    ensures
        encode_utf8(s.push(c)) == encode_utf8(s) + encode_scalar(c as u32),
    decreases s.len(),
{
    if s.len() == 0 {
        assert(s.push(c).drop_first() == Seq::<char>::empty());
        assert(encode_utf8(Seq::<char>::empty()) == Seq::<u8>::empty());
    } else {
        lemma_encode_push(s.drop_first(), c);
        assert(s.push(c).drop_first() == s.drop_first().push(c));
    }
}

proof fn lemma_encode_update(s: Seq<char>, i: int, c: char)
    requires
        0 <= i < s.len(),
    ensures
        encode_utf8(s.update(i, c)).len() + encode_scalar(s[i] as u32).len() == encode_utf8(s).len()
            + encode_scalar(c as u32).len(),
    decreases s.len(),
{
    if i > 0 {
        lemma_encode_update(s.drop_first(), i - 1, c);
        assert(s.update(i, c).drop_first() == s.drop_first().update(i - 1, c));
    } else {
        assert(s.update(i, c).drop_first() == s.drop_first());
    }
}


/// The characters of a [`Utf8String`].
pub open spec fn utf8_chars(s: &Utf8String) -> Seq<char> {
    s.inner@.map_values(|c: Utf8Char| c.0)
}

impl Utf8String {
    /// The string holding the characters of `s`.
    pub fn new(s: &str) -> (r: Utf8String)
        ensures
            utf8_chars(&r) == s@,
    {
        let n = s.unicode_len();
        let mut inner: Vec<Utf8Char> = Vec::new();
        let mut i: usize = 0;
        while i < n
            invariant
                i <= n,
                n == s@.len(),
                inner@.map_values(|c: Utf8Char| c.0) == s@.subrange(0, i as int),
            decreases n - i,
        {
            let c = s.get_char(i);
            let ghost before = inner@;
            inner.push(Utf8Char(c));
            assert(inner@ == before.push(Utf8Char(c)));
            assert(s@.subrange(0, i + 1) =~= s@.subrange(0, i as int).push(c));
            assert(inner@.map_values(|c: Utf8Char| c.0) =~= before.map_values(|c: Utf8Char| c.0).push(c));
            i += 1;
        }
        assert(s@.subrange(0, n as int) == s@);
        Utf8String { inner }
    }
}

impl SerializedSize for Utf8String {
    open spec fn byte_size(&self) -> nat {
        encode_utf8(utf8_chars(self)).len()
    }

    open spec fn min_nonzero_size() -> nat {
        1
    }

    open spec fn default_size() -> nat {
        0
    }

    fn serialized_size(&self) -> (r: usize) {
        let mut total: usize = 0;
        let mut i: usize = 0;
        let ghost chars = utf8_chars(self);
        while i < self.inner.len()
            invariant
                i <= self.inner.len(),
                chars == utf8_chars(self),
                chars.len() == self.inner.len(),
                total == encode_utf8(chars.subrange(0, i as int)).len(),
            decreases self.inner.len() - i,
        {
            let w = utf8_width(self.inner[i].0);
            proof {
                lemma_encode_push(chars.subrange(0, i as int), chars[i as int]);
                assert(chars.subrange(0, i + 1) == chars.subrange(0, i as int).push(chars[i as int]));
            }
            if total > usize::MAX - w {
                proof {
                    lemma_encode_prefix_len(chars, i + 1);
                }
                return usize::MAX;
            }
            total = total + w;
            i += 1;
        }
        assert(chars.subrange(0, self.inner.len() as int) == chars);
        total
    }

    fn min_nonzero_elements_size() -> (r: usize) {
        1
    }

    fn max_default_object_size() -> (r: usize) {
        0
    }

    fn min_enum_variant_size(&self) -> (r: usize) {
        1
    }
}

impl BinarySerialize for Utf8String {
    open spec fn encoding(&self, order: ByteOrder) -> Seq<u8> {
        encode_utf8(utf8_chars(self))
    }

    proof fn lemma_encoding_len(&self, order: ByteOrder) {
    }

    fn binary_serialize(&self, buffer: &mut Vec<u8>, order: ByteOrder) -> (r: usize) {
        let ghost chars = utf8_chars(self);
        let mut i: usize = 0;
        let mut written: usize = 0;
        while i < self.inner.len()
            invariant
                i <= self.inner.len(),
                chars == utf8_chars(self),
                chars.len() == self.inner.len(),
                buffer@ == old(buffer)@ + encode_utf8(chars.subrange(0, i as int)),
                written == encode_utf8(chars.subrange(0, i as int)).len(),
                encode_utf8(chars).len() <= usize::MAX,
            decreases self.inner.len() - i,
        {
            let c = self.inner[i].0;
            push_utf8(buffer, c);
            proof {
                lemma_encode_push(chars.subrange(0, i as int), chars[i as int]);
                assert(chars.subrange(0, i + 1) == chars.subrange(0, i as int).push(chars[i as int]));
                lemma_encode_prefix_len(chars, i + 1);
            }
            written = written + utf8_width(c);
            i += 1;
        }
        assert(chars.subrange(0, self.inner.len() as int) == chars);
        written
    }
}

impl VariableSizeObject for Utf8String {
    open spec fn variable_size() -> bool {
        true
    }

    fn is_variable_size() -> (r: bool) {
        true
    }
}

impl NewFuzzed for Utf8String {
    type RangeType = usize;

    open spec fn accepts(min: Option<usize>, max: Option<usize>) -> bool {
        count_or(min, 0) < count_or(max, MAX_STRING_LENGTH)
    }

    proof fn lemma_accepts_unbounded() {
    }

    /// A string whose length is drawn from `[min, max)` (by default
    /// `[0, 256)`), weighted as asked. Characters come one by one; by a small
    /// chance a character is repeated over a run. Under a budget the string
    /// ends at the first character that would not fit.
    fn new_fuzzed(mutator: &mut Mutator, constraints: Option<&Constraints<usize>>) -> (r: Utf8String)
        ensures
            r.inner.len() < count_or(
                match constraints {
                    Some(c) => c.max,
                    None => None,
                },
                MAX_STRING_LENGTH,
            ),
            allowed_size(constraints_of(constraints), 0) is None ==> r.inner.len() >= count_or(
                match constraints {
                    Some(c) => c.min,
                    None => None,
                },
                0,
            ),
    {
        let ghost c0 = constraints_of(constraints);
        let (min, max, weighted, budget) = match constraints {
            Some(c) => {
                let min = match c.min {
                    Some(v) => v,
                    None => 0,
                };
                let max = match c.max {
                    Some(v) => v,
                    None => MAX_STRING_LENGTH,
                };
                (min, max, c.weighted, c.max_size)
            },
            None => (0, MAX_STRING_LENGTH, crate::types::Weighted::Uniform, None),
        };
        assert(budget is None <==> allowed_size(c0, 0) is None);
        assert(budget matches Some(b) ==> allowed_size(c0, 0) == Some(b as nat));
        let drawn = mutator.gen_weighted_range(min as u64, max as u64, weighted);
        let length = drawn as usize;
        assert(min <= length < max);
        let mut inner: Vec<Utf8Char> = Vec::new();
        let mut used: usize = 0;
        let mut current = Utf8Char::generate(mutator);
        let mut repeat_until: usize = 0;
        while inner.len() < length
            invariant
                inner.len() <= length,
                mutator.wf(),
                mutator.flags == old(mutator).flags,
                budget matches Some(b) ==> used == encode_utf8(inner@.map_values(|c: Utf8Char| c.0)).len()
                    && used <= b,
            ensures
                budget is None ==> inner.len() == length,
            decreases length - inner.len(),
        {
            if inner.len() >= repeat_until {
                if inner.len() > 0 {
                    current = Utf8Char::generate(mutator);
                }
                if mutator.gen_chance(CHANCE_TO_REPEAT_ARRAY_VALUE) {
                    repeat_until = rng_range(&mut mutator.rng, inner.len() as u64, length as u64) as usize;
                }
            }
            let w = utf8_width(current.0);
            if let Some(b) = budget {
                if w > b - used {
                    break;
                }
                used = used + w;
            }
            proof {
                lemma_encode_push(inner@.map_values(|c: Utf8Char| c.0), current.0);
                assert(inner@.push(current).map_values(|c: Utf8Char| c.0) =~= inner@.map_values(
                    |c: Utf8Char| c.0,
                ).push(current.0));
            }
            inner.push(current);
        }
        let r = Utf8String { inner };
        assert(utf8_chars(&r) == r.inner@.map_values(|c: Utf8Char| c.0));
        r
    }
}

impl Mutatable for Utf8String {
    type RangeType = usize;

    /// The length is kept and the corpus state untouched.
    open spec fn mutation_of(
        &self,
        new: Utf8String,
        before: CorpusFuzzingState,
        flags: MutatorFlags,
        after: CorpusFuzzingState,
    ) -> bool {
        new.inner.len() == self.inner.len() && after == before
    }

    /// Replaces a random selection of characters (at least one, never all
    /// of a string of two or more) by new random characters; under a budget a
    /// replacement that would not fit is skipped.
    fn mutate(&mut self, mutator: &mut Mutator, constraints: Option<&Constraints<usize>>)
        ensures
            final(self).inner.len() == old(self).inner.len(),
    {
        let len = self.inner.len();
        if len == 0 {
            return;
        }
        let ghost c0 = constraints_of(constraints);
        let ghost old_size = encode_utf8(utf8_chars(self)).len();
        let current = self.serialized_size();
        if current == usize::MAX {
            return;
        }
        let room: Option<usize> = match constraints {
            Some(c) => match c.max_size {
                Some(m) => {
                    if c.base_object_size_accounted_for {
                        if m > usize::MAX - current {
                            Some(usize::MAX - current)
                        } else {
                            Some(m)
                        }
                    } else if m >= current {
                        Some(m - current)
                    } else {
                        return;
                    }
                },
                None => None,
            },
            None => None,
        };
        let mut extra: usize = match room {
            Some(e) => e,
            None => usize::MAX - current,
        };
        let count: usize = if len == 1 {
            1
        } else {
            rng_range(&mut mutator.rng, 1, len as u64) as usize
        };
        let picked = rng_sample_indices(&mut mutator.rng, len, count);
        let mut k: usize = 0;
        while k < picked.len()
            invariant
                self.inner.len() == len,
                forall|j: int| 0 <= j < picked.len() ==> picked[j] < len,
                mutator.wf(),
                mutator.flags == old(mutator).flags,
                mutator.corpus_state == old(mutator).corpus_state,
                encode_utf8(utf8_chars(self)).len() + extra <= old_size + match room {
                    Some(e) => e as int,
                    None => usize::MAX - old_size,
                },
                old_size == current,
                room matches Some(e) ==> old_size + e <= usize::MAX,
            decreases picked.len() - k,
        {
            let idx = picked[k];
            let replacement = Utf8Char::generate(mutator);
            let old_w = utf8_width(self.inner[idx].0);
            let new_w = utf8_width(replacement.0);
            if new_w <= old_w || new_w - old_w <= extra {
                proof {
                    lemma_encode_update(utf8_chars(self), idx as int, replacement.0);
                    assert(self.inner@.update(idx as int, replacement).map_values(|c: Utf8Char| c.0)
                        == utf8_chars(self).update(idx as int, replacement.0));
                }
                self.inner.set(idx, replacement);
                if new_w <= old_w {
                    let back = old_w - new_w;
                    extra = if extra > usize::MAX - back {
                        usize::MAX
                    } else {
                        extra + back
                    };
                } else {
                    extra = extra - (new_w - old_w);
                }
            }
            k += 1;
        }
        proof {
            match room {
                Some(e) => {
                    assert(allowed_size(c0, old_size) matches Some(a) && old_size + e <= a);
                },
                None => {
                    assert(allowed_size(c0, old_size) is None);
                },
            }
        }
    }
}

/// The characters of a [`AsciiString`].
pub open spec fn ascii_chars(s: &AsciiString) -> Seq<char> {
    s.inner@.map_values(|c: AsciiChar| c.0)
}

impl AsciiString {
    /// The string holding the characters of `s`.
    pub fn new(s: &str) -> (r: AsciiString)
        ensures
            ascii_chars(&r) == s@,
    {
        let n = s.unicode_len();
        let mut inner: Vec<AsciiChar> = Vec::new();
        let mut i: usize = 0;
        while i < n
            invariant
                i <= n,
                n == s@.len(),
                inner@.map_values(|c: AsciiChar| c.0) == s@.subrange(0, i as int),
            decreases n - i,
        {
            let c = s.get_char(i);
            let ghost before = inner@;
            inner.push(AsciiChar(c));
            assert(inner@ == before.push(AsciiChar(c)));
            assert(s@.subrange(0, i + 1) =~= s@.subrange(0, i as int).push(c));
            assert(inner@.map_values(|c: AsciiChar| c.0) =~= before.map_values(|c: AsciiChar| c.0).push(c));
            i += 1;
        }
        assert(s@.subrange(0, n as int) == s@);
        AsciiString { inner }
    }
}

impl SerializedSize for AsciiString {
    open spec fn byte_size(&self) -> nat {
        encode_utf8(ascii_chars(self)).len()
    }

    open spec fn min_nonzero_size() -> nat {
        1
    }

    open spec fn default_size() -> nat {
        0
    }

    fn serialized_size(&self) -> (r: usize) {
        let mut total: usize = 0;
        let mut i: usize = 0;
        let ghost chars = ascii_chars(self);
        while i < self.inner.len()
            invariant
                i <= self.inner.len(),
                chars == ascii_chars(self),
                chars.len() == self.inner.len(),
                total == encode_utf8(chars.subrange(0, i as int)).len(),
            decreases self.inner.len() - i,
        {
            let w = utf8_width(self.inner[i].0);
            proof {
                lemma_encode_push(chars.subrange(0, i as int), chars[i as int]);
                assert(chars.subrange(0, i + 1) == chars.subrange(0, i as int).push(chars[i as int]));
            }
            if total > usize::MAX - w {
                proof {
                    lemma_encode_prefix_len(chars, i + 1);
                }
                return usize::MAX;
            }
            total = total + w;
            i += 1;
        }
        assert(chars.subrange(0, self.inner.len() as int) == chars);
        total
    }

    fn min_nonzero_elements_size() -> (r: usize) {
        1
    }

    fn max_default_object_size() -> (r: usize) {
        0
    }

    fn min_enum_variant_size(&self) -> (r: usize) {
        1
    }
}

impl BinarySerialize for AsciiString {
    open spec fn encoding(&self, order: ByteOrder) -> Seq<u8> {
        encode_utf8(ascii_chars(self))
    }

    proof fn lemma_encoding_len(&self, order: ByteOrder) {
    }

    fn binary_serialize(&self, buffer: &mut Vec<u8>, order: ByteOrder) -> (r: usize) {
        let ghost chars = ascii_chars(self);
        let mut i: usize = 0;
        let mut written: usize = 0;
        while i < self.inner.len()
            invariant
                i <= self.inner.len(),
                chars == ascii_chars(self),
                chars.len() == self.inner.len(),
                buffer@ == old(buffer)@ + encode_utf8(chars.subrange(0, i as int)),
                written == encode_utf8(chars.subrange(0, i as int)).len(),
                encode_utf8(chars).len() <= usize::MAX,
            decreases self.inner.len() - i,
        {
            let c = self.inner[i].0;
            push_utf8(buffer, c);
            proof {
                lemma_encode_push(chars.subrange(0, i as int), chars[i as int]);
                assert(chars.subrange(0, i + 1) == chars.subrange(0, i as int).push(chars[i as int]));
                lemma_encode_prefix_len(chars, i + 1);
            }
            written = written + utf8_width(c);
            i += 1;
        }
        assert(chars.subrange(0, self.inner.len() as int) == chars);
        written
    }
}

impl VariableSizeObject for AsciiString {
    open spec fn variable_size() -> bool {
        true
    }

    fn is_variable_size() -> (r: bool) {
        true
    }
}

impl NewFuzzed for AsciiString {
    type RangeType = usize;

    open spec fn accepts(min: Option<usize>, max: Option<usize>) -> bool {
        count_or(min, 0) < count_or(max, MAX_STRING_LENGTH)
    }

    proof fn lemma_accepts_unbounded() {
    }

    /// A string whose length is drawn from `[min, max)` (by default
    /// `[0, 256)`), weighted as asked. Characters come one by one; by a small
    /// chance a character is repeated over a run. Under a budget the string
    /// ends at the first character that would not fit.
    fn new_fuzzed(mutator: &mut Mutator, constraints: Option<&Constraints<usize>>) -> (r: AsciiString)
        ensures
            r.inner.len() < count_or(
                match constraints {
                    Some(c) => c.max,
                    None => None,
                },
                MAX_STRING_LENGTH,
            ),
            allowed_size(constraints_of(constraints), 0) is None ==> r.inner.len() >= count_or(
                match constraints {
                    Some(c) => c.min,
                    None => None,
                },
                0,
            ),
    {
        let ghost c0 = constraints_of(constraints);
        let (min, max, weighted, budget) = match constraints {
            Some(c) => {
                let min = match c.min {
                    Some(v) => v,
                    None => 0,
                };
                let max = match c.max {
                    Some(v) => v,
                    None => MAX_STRING_LENGTH,
                };
                (min, max, c.weighted, c.max_size)
            },
            None => (0, MAX_STRING_LENGTH, crate::types::Weighted::Uniform, None),
        };
        assert(budget is None <==> allowed_size(c0, 0) is None);
        assert(budget matches Some(b) ==> allowed_size(c0, 0) == Some(b as nat));
        let drawn = mutator.gen_weighted_range(min as u64, max as u64, weighted);
        let length = drawn as usize;
        assert(min <= length < max);
        let mut inner: Vec<AsciiChar> = Vec::new();
        let mut used: usize = 0;
        let mut current = AsciiChar::generate(mutator);
        let mut repeat_until: usize = 0;
        while inner.len() < length
            invariant
                inner.len() <= length,
                mutator.wf(),
                mutator.flags == old(mutator).flags,
                budget matches Some(b) ==> used == encode_utf8(inner@.map_values(|c: AsciiChar| c.0)).len()
                    && used <= b,
            ensures
                budget is None ==> inner.len() == length,
            decreases length - inner.len(),
        {
            if inner.len() >= repeat_until {
                if inner.len() > 0 {
                    current = AsciiChar::generate(mutator);
                }
                if mutator.gen_chance(CHANCE_TO_REPEAT_ARRAY_VALUE) {
                    repeat_until = rng_range(&mut mutator.rng, inner.len() as u64, length as u64) as usize;
                }
            }
            let w = utf8_width(current.0);
            if let Some(b) = budget {
                if w > b - used {
                    break;
                }
                used = used + w;
            }
            proof {
                lemma_encode_push(inner@.map_values(|c: AsciiChar| c.0), current.0);
                assert(inner@.push(current).map_values(|c: AsciiChar| c.0) =~= inner@.map_values(
                    |c: AsciiChar| c.0,
                ).push(current.0));
            }
            inner.push(current);
        }
        let r = AsciiString { inner };
        assert(ascii_chars(&r) == r.inner@.map_values(|c: AsciiChar| c.0));
        r
    }
}

impl Mutatable for AsciiString {
    type RangeType = usize;

    /// The length is kept and the corpus state untouched; every replaced character is ASCII.
    open spec fn mutation_of(
        &self,
        new: AsciiString,
        before: CorpusFuzzingState,
        flags: MutatorFlags,
        after: CorpusFuzzingState,
    ) -> bool {
        new.inner.len() == self.inner.len() && after == before
            && forall|i: int|
            0 <= i < new.inner.len() ==> #[trigger] new.inner[i] == self.inner[i] || (new.inner[i].0 as u32) < 0x80
    }

    /// Replaces a random selection of characters (at least one, never all
    /// of a string of two or more) by new random characters; under a budget a
    /// replacement that would not fit is skipped.
    fn mutate(&mut self, mutator: &mut Mutator, constraints: Option<&Constraints<usize>>)
        ensures
            final(self).inner.len() == old(self).inner.len(),
    {
        let len = self.inner.len();
        if len == 0 {
            return;
        }
        let ghost c0 = constraints_of(constraints);
        let ghost old_size = encode_utf8(ascii_chars(self)).len();
        let current = self.serialized_size();
        if current == usize::MAX {
            return;
        }
        let room: Option<usize> = match constraints {
            Some(c) => match c.max_size {
                Some(m) => {
                    if c.base_object_size_accounted_for {
                        if m > usize::MAX - current {
                            Some(usize::MAX - current)
                        } else {
                            Some(m)
                        }
                    } else if m >= current {
                        Some(m - current)
                    } else {
                        return;
                    }
                },
                None => None,
            },
            None => None,
        };
        let mut extra: usize = match room {
            Some(e) => e,
            None => usize::MAX - current,
        };
        let count: usize = if len == 1 {
            1
        } else {
            rng_range(&mut mutator.rng, 1, len as u64) as usize
        };
        let picked = rng_sample_indices(&mut mutator.rng, len, count);
        let mut k: usize = 0;
        while k < picked.len()
            invariant
                self.inner.len() == len,
                forall|j: int| 0 <= j < picked.len() ==> picked[j] < len,
                mutator.wf(),
                mutator.flags == old(mutator).flags,
                mutator.corpus_state == old(mutator).corpus_state,
                forall|j: int|
                    0 <= j < len ==> #[trigger] self.inner[j] == old(self).inner[j] || (self.inner[j].0 as u32) < 0x80,
                encode_utf8(ascii_chars(self)).len() + extra <= old_size + match room {
                    Some(e) => e as int,
                    None => usize::MAX - old_size,
                },
                old_size == current,
                room matches Some(e) ==> old_size + e <= usize::MAX,
            decreases picked.len() - k,
        {
            let idx = picked[k];
            let replacement = AsciiChar::generate(mutator);
            let old_w = utf8_width(self.inner[idx].0);
            let new_w = utf8_width(replacement.0);
            if new_w <= old_w || new_w - old_w <= extra {
                proof {
                    lemma_encode_update(ascii_chars(self), idx as int, replacement.0);
                    assert(self.inner@.update(idx as int, replacement).map_values(|c: AsciiChar| c.0)
                        == ascii_chars(self).update(idx as int, replacement.0));
                }
                self.inner.set(idx, replacement);
                if new_w <= old_w {
                    let back = old_w - new_w;
                    extra = if extra > usize::MAX - back {
                        usize::MAX
                    } else {
                        extra + back
                    };
                } else {
                    extra = extra - (new_w - old_w);
                }
            }
            k += 1;
        }
        proof {
            match room {
                Some(e) => {
                    assert(allowed_size(c0, old_size) matches Some(a) && old_size + e <= a);
                },
                None => {
                    assert(allowed_size(c0, old_size) is None);
                },
            }
        }
    }
}

proof fn lemma_encode_prefix_len(s: Seq<char>, i: int)
    requires
        0 <= i <= s.len(),
    ensures
        encode_utf8(s.subrange(0, i)).len() <= encode_utf8(s).len(),
    decreases s.len() - i,
{
    if i < s.len() {
        lemma_encode_prefix_len(s, i + 1);
        lemma_encode_push(s.subrange(0, i), s[i]);
        assert(s.subrange(0, i + 1) == s.subrange(0, i).push(s[i]));
    } else {
        assert(s.subrange(0, i) == s);
    }
}

impl Utf8Char {
    /// A random character: half of the time one below 0xB0, otherwise one of
    /// the basic plane, one often used in programming languages, an unusual
    /// one, a punctuation character, or any character at all.
    pub fn generate(mutator: &mut Mutator) -> (r: Utf8Char)
        ensures
            final(mutator).flags == old(mutator).flags,
            final(mutator).corpus_state == old(mutator).corpus_state,
    {
        let mode = rng_range(&mut mutator.rng, 0, 100);
        if mode < 50 {
            let v = rng_range(&mut mutator.rng, 0, 0xB0) as u8;
            Utf8Char(v as char)
        } else if mode < 60 {
            let v = rng_range(&mut mutator.rng, 0, 0xD800) as u32;
            match char_from_u32(v) {
                Some(c) => Utf8Char(c),
                None => Utf8Char(' '),
            }
        } else if mode < 85 {
            let i = rng_range(&mut mutator.rng, 0, 47) as usize;
            Utf8Char(PROGRAMMING_CHARS[i])
        } else if mode < 90 {
            let i = rng_range(&mut mutator.rng, 0, 44) as usize;
            Utf8Char(TRICKY_CHARS[i])
        } else if mode < 95 {
            let v = rng_range(&mut mutator.rng, 0x2000, 0x2070) as u32;
            match char_from_u32(v) {
                Some(c) => Utf8Char(c),
                None => Utf8Char(' '),
            }
        } else {
            Utf8Char(rng_char(&mut mutator.rng))
        }
    }
}

impl AsciiChar {
    /// A random ASCII character: half of the time any of them, otherwise one
    /// often used in programming languages.
    pub fn generate(mutator: &mut Mutator) -> (r: AsciiChar)
        ensures
            (r.0 as u32) < 0x80,
            final(mutator).flags == old(mutator).flags,
            final(mutator).corpus_state == old(mutator).corpus_state,
    {
        let mode = rng_range(&mut mutator.rng, 0, 100);
        if mode < 50 {
            let v = rng_range(&mut mutator.rng, 0, 0x80) as u8;
            AsciiChar(v as char)
        } else {
            let i = rng_range(&mut mutator.rng, 0, 47) as usize;
            let c = PROGRAMMING_CHARS[i];
            if (c as u32) < 0x80 {
                AsciiChar(c)
            } else {
                AsciiChar(' ')
            }
        }
    }
}

} // verus!

verus! {

impl SerializedSize for Utf8Char {
    open spec fn byte_size(&self) -> nat {
        encode_scalar(self.0 as u32).len()
    }

    open spec fn min_nonzero_size() -> nat {
        1
    }

    open spec fn default_size() -> nat {
        4
    }

    fn serialized_size(&self) -> (r: usize) {
        utf8_width(self.0)
    }

    fn min_nonzero_elements_size() -> (r: usize) {
        1
    }

    fn max_default_object_size() -> (r: usize) {
        4
    }

    fn min_enum_variant_size(&self) -> (r: usize) {
        1
    }
}

impl SerializedSize for AsciiChar {
    open spec fn byte_size(&self) -> nat {
        encode_scalar(self.0 as u32).len()
    }

    open spec fn min_nonzero_size() -> nat {
        1
    }

    open spec fn default_size() -> nat {
        1
    }

    fn serialized_size(&self) -> (r: usize) {
        utf8_width(self.0)
    }

    fn min_nonzero_elements_size() -> (r: usize) {
        1
    }

    fn max_default_object_size() -> (r: usize) {
        1
    }

    fn min_enum_variant_size(&self) -> (r: usize) {
        1
    }
}

impl SerializedSize for char {
    open spec fn byte_size(&self) -> nat {
        encode_scalar(*self as u32).len()
    }

    open spec fn min_nonzero_size() -> nat {
        1
    }

    open spec fn default_size() -> nat {
        4
    }

    fn serialized_size(&self) -> (r: usize) {
        utf8_width(*self)
    }

    fn min_nonzero_elements_size() -> (r: usize) {
        1
    }

    fn max_default_object_size() -> (r: usize) {
        4
    }

    fn min_enum_variant_size(&self) -> (r: usize) {
        1
    }
}

impl NewFuzzed for Utf8Char {
    type RangeType = u32;

    open spec fn accepts(min: Option<u32>, max: Option<u32>) -> bool {
        true
    }

    proof fn lemma_accepts_unbounded() {
    }

    /// A random character as [`Utf8Char::generate`] picks it; bounds are not
    /// used.
    fn new_fuzzed(mutator: &mut Mutator, constraints: Option<&Constraints<u32>>) -> (r: Utf8Char) {
        let r = Utf8Char::generate(mutator);
        proof {
            lemma_scalar_width(r.0);
        }
        r
    }
}

impl NewFuzzed for char {
    type RangeType = u32;

    open spec fn accepts(min: Option<u32>, max: Option<u32>) -> bool {
        true
    }

    proof fn lemma_accepts_unbounded() {
    }

    /// A random character as [`Utf8Char::generate`] picks it.
    fn new_fuzzed(mutator: &mut Mutator, constraints: Option<&Constraints<u32>>) -> (r: char) {
        let r = Utf8Char::generate(mutator).0;
        proof {
            lemma_scalar_width(r);
        }
        r
    }
}

impl NewFuzzed for AsciiChar {
    type RangeType = u8;

    /// A nonempty range within the ASCII characters.
    open spec fn accepts(min: Option<u8>, max: Option<u8>) -> bool {
        bound_or(widen_u8(min), 0) < bound_or(widen_u8(max), 0x80) <= 0x80
    }

    proof fn lemma_accepts_unbounded() {
    }

    /// Without constraints, as [`AsciiChar::generate`] picks it; with
    /// constraints, a code point drawn from `[min, max)` (by default
    /// `[0, 0x80)`), weighted as asked.
    fn new_fuzzed(mutator: &mut Mutator, constraints: Option<&Constraints<u8>>) -> (r: AsciiChar)
        ensures
            (r.0 as u32) < 0x80,
            constraints is Some ==> bound_or(widen_u8(constraints.unwrap().min), 0) <= (r.0 as u32)
                && (r.0 as u32) < bound_or(widen_u8(constraints.unwrap().max), 0x80),
    {
        match constraints {
            Some(c) => {
                let min: u64 = match c.min {
                    Some(v) => v as u64,
                    None => 0,
                };
                let max: u64 = match c.max {
                    Some(v) => v as u64,
                    None => 0x80,
                };
                let v = mutator.gen_weighted_range(min, max, c.weighted) as u8;
                let r = AsciiChar(v as char);
                proof {
                    lemma_scalar_width(r.0);
                }
                r
            },
            None => {
                let r = AsciiChar::generate(mutator);
                proof {
                    lemma_scalar_width(r.0);
                }
                r
            },
        }
    }
}

} // verus!
