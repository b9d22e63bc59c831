//! Serialized sizes and binary encoding of the built-in types.

use vstd::prelude::*;
use crate::traits::{BinarySerialize, FixedSize, SerializedSize, ToPrimitive, VariableSizeObject};
use crate::types::UnsafeEnum;

verus! {

/// The byte order of multi-byte integers.
#[derive(Debug, Clone, Copy, PartialEq, Eq, Structural)]
pub enum ByteOrder {
    BigEndian,
    LittleEndian,
}

/// The low `n` bytes of `v`, most significant first.
pub open spec fn be_bytes(v: nat, n: nat) -> Seq<u8>
    decreases n,
{
    if n == 0 {
        Seq::empty()
    } else {
        be_bytes(v / 256, (n - 1) as nat).push((v % 256) as u8)
    }
}

/// The low `n` bytes of `v`, least significant first.
pub open spec fn le_bytes(v: nat, n: nat) -> Seq<u8>
    decreases n,
{
    if n == 0 {
        Seq::empty()
    } else {
        seq![(v % 256) as u8] + le_bytes(v / 256, (n - 1) as nat)
    }
}

/// The low `n` bytes of `v` in byte order `order`.
pub open spec fn int_bytes(v: nat, n: nat, order: ByteOrder) -> Seq<u8> {
    match order {
        ByteOrder::BigEndian => be_bytes(v, n),
        ByteOrder::LittleEndian => le_bytes(v, n),
    }
}

proof fn lemma_bytes_len(v: nat, n: nat)
    ensures
        be_bytes(v, n).len() == n,
        le_bytes(v, n).len() == n,
    decreases n,
{
    if n > 0 {
        lemma_bytes_len(v / 256, (n - 1) as nat);
    }
}

/// Relies on `byteorder::BigEndian::write_u16`: the two bytes of `v`, most
/// significant first.
#[verifier::external_body]
fn be_u16(v: u16) -> (r: [u8; 2])
    ensures
        r@ == be_bytes(v as nat, 2),
{
    let mut b = [0u8; 2];
    <byteorder::BigEndian as byteorder::ByteOrder>::write_u16(&mut b, v);
    b
}

/// Relies on `byteorder::LittleEndian::write_u16`: the two bytes of `v`, least
/// significant first.
#[verifier::external_body]
fn le_u16(v: u16) -> (r: [u8; 2])
    ensures
        r@ == le_bytes(v as nat, 2),
{
    let mut b = [0u8; 2];
    <byteorder::LittleEndian as byteorder::ByteOrder>::write_u16(&mut b, v);
    b
}

/// Relies on `byteorder::BigEndian::write_u32`: the four bytes of `v`, most
/// significant first.
#[verifier::external_body]
fn be_u32(v: u32) -> (r: [u8; 4])
    ensures
        r@ == be_bytes(v as nat, 4),
{
    let mut b = [0u8; 4];
    <byteorder::BigEndian as byteorder::ByteOrder>::write_u32(&mut b, v);
    b
}

/// Relies on `byteorder::LittleEndian::write_u32`: the four bytes of `v`, least
/// significant first.
#[verifier::external_body]
fn le_u32(v: u32) -> (r: [u8; 4])
    ensures
        r@ == le_bytes(v as nat, 4),
{
    let mut b = [0u8; 4];
    <byteorder::LittleEndian as byteorder::ByteOrder>::write_u32(&mut b, v);
    b
}

/// Relies on `byteorder::BigEndian::write_u64`: the eight bytes of `v`, most
/// significant first.
#[verifier::external_body]
fn be_u64(v: u64) -> (r: [u8; 8])
    ensures
        r@ == be_bytes(v as nat, 8),
{
    let mut b = [0u8; 8];
    <byteorder::BigEndian as byteorder::ByteOrder>::write_u64(&mut b, v);
    b
}

/// Relies on `byteorder::LittleEndian::write_u64`: the eight bytes of `v`, least
/// significant first.
#[verifier::external_body]
fn le_u64(v: u64) -> (r: [u8; 8])
    ensures
        r@ == le_bytes(v as nat, 8),
{
    let mut b = [0u8; 8];
    <byteorder::LittleEndian as byteorder::ByteOrder>::write_u64(&mut b, v);
    b
}

/// Appends `bytes` to `buffer`.
fn push_all(buffer: &mut Vec<u8>, bytes: &[u8])
    ensures
        final(buffer)@ == old(buffer)@ + bytes@,
{
    let mut i: usize = 0;
    while i < bytes.len()
        invariant
            i <= bytes.len(),
            buffer@ == old(buffer)@ + bytes@.subrange(0, i as int),
        decreases bytes.len() - i,
    {
        buffer.push(bytes[i]);
        i += 1;
        assert(bytes@.subrange(0, i as int) == bytes@.subrange(0, i - 1).push(bytes[i - 1]));
    }
    assert(bytes@.subrange(0, bytes.len() as int) == bytes@);
}

/// Appends the low `n` bytes of `v` (`n` being 1, 2, 4 or 8) in byte order
/// `order`.
pub fn write_uint(buffer: &mut Vec<u8>, v: u64, n: usize, order: ByteOrder)
    requires
        n == 1 || n == 2 || n == 4 || n == 8,
        n == 1 ==> v <= 0xff,
        n == 2 ==> v <= 0xffff,
        n == 4 ==> v <= 0xffff_ffff,
    ensures
        final(buffer)@ == old(buffer)@ + int_bytes(v as nat, n as nat, order),
{
    proof {
        reveal_with_fuel(be_bytes, 2);
        reveal_with_fuel(le_bytes, 2);
    }
    if n == 1 {
        buffer.push(v as u8);
        assert(int_bytes(v as nat, 1, order) == seq![v as u8]);
    } else if n == 2 {
        let b = if order == ByteOrder::BigEndian {
            be_u16(v as u16)
        } else {
            le_u16(v as u16)
        };
        push_all(buffer, &b);
    } else if n == 4 {
        let b = if order == ByteOrder::BigEndian {
            be_u32(v as u32)
        } else {
            le_u32(v as u32)
        };
        push_all(buffer, &b);
    } else {
        let b = if order == ByteOrder::BigEndian {
            be_u64(v)
        } else {
            le_u64(v)
        };
        push_all(buffer, &b);
    }
}

impl SerializedSize for u8 {
    open spec fn byte_size(&self) -> nat {
        1
    }

    open spec fn min_nonzero_size() -> nat {
        1
    }

    open spec fn default_size() -> nat {
        1
    }

    fn serialized_size(&self) -> (r: usize) {
        1
    }

    fn min_nonzero_elements_size() -> (r: usize) {
        1
    }

    fn max_default_object_size() -> (r: usize) {
        1
    }

    fn min_enum_variant_size(&self) -> (r: usize) {
        1
    }
}

impl BinarySerialize for u8 {
    open spec fn encoding(&self, order: ByteOrder) -> Seq<u8> {
        int_bytes(*self as nat, 1, order)
    }

    proof fn lemma_encoding_len(&self, order: ByteOrder) {
        lemma_bytes_len(*self as nat, 1);
    }

    fn binary_serialize(&self, buffer: &mut Vec<u8>, order: ByteOrder) -> (r: usize) {
        write_uint(buffer, *self as u64, 1, order);
        proof {
            lemma_bytes_len(*self as nat, 1);
        }
        1
    }
}

impl SerializedSize for i8 {
    open spec fn byte_size(&self) -> nat {
        1
    }

    open spec fn min_nonzero_size() -> nat {
        1
    }

    open spec fn default_size() -> nat {
        1
    }

    fn serialized_size(&self) -> (r: usize) {
        1
    }

    fn min_nonzero_elements_size() -> (r: usize) {
        1
    }

    fn max_default_object_size() -> (r: usize) {
        1
    }

    fn min_enum_variant_size(&self) -> (r: usize) {
        1
    }
}

impl BinarySerialize for i8 {
    open spec fn encoding(&self, order: ByteOrder) -> Seq<u8> {
        int_bytes((*self as u8) as nat, 1, order)
    }

    proof fn lemma_encoding_len(&self, order: ByteOrder) {
        lemma_bytes_len((*self as u8) as nat, 1);
    }

    fn binary_serialize(&self, buffer: &mut Vec<u8>, order: ByteOrder) -> (r: usize) {
        write_uint(buffer, (*self as u8) as u64, 1, order);
        proof {
            lemma_bytes_len((*self as u8) as nat, 1);
        }
        1
    }
}

impl SerializedSize for bool {
    open spec fn byte_size(&self) -> nat {
        1
    }

    open spec fn min_nonzero_size() -> nat {
        1
    }

    open spec fn default_size() -> nat {
        1
    }

    fn serialized_size(&self) -> (r: usize) {
        1
    }

    fn min_nonzero_elements_size() -> (r: usize) {
        1
    }

    fn max_default_object_size() -> (r: usize) {
        1
    }

    fn min_enum_variant_size(&self) -> (r: usize) {
        1
    }
}

impl BinarySerialize for bool {
    open spec fn encoding(&self, order: ByteOrder) -> Seq<u8> {
        seq![if *self { 1u8 } else { 0u8 }]
    }

    proof fn lemma_encoding_len(&self, order: ByteOrder) {
    }

    fn binary_serialize(&self, buffer: &mut Vec<u8>, order: ByteOrder) -> (r: usize) {
        buffer.push(if *self { 1u8 } else { 0u8 });
        1
    }
}

impl SerializedSize for u16 {
    open spec fn byte_size(&self) -> nat {
        2
    }

    open spec fn min_nonzero_size() -> nat {
        2
    }

    open spec fn default_size() -> nat {
        2
    }

    fn serialized_size(&self) -> (r: usize) {
        2
    }

    fn min_nonzero_elements_size() -> (r: usize) {
        2
    }

    fn max_default_object_size() -> (r: usize) {
        2
    }

    fn min_enum_variant_size(&self) -> (r: usize) {
        2
    }
}

impl BinarySerialize for u16 {
    open spec fn encoding(&self, order: ByteOrder) -> Seq<u8> {
        int_bytes(*self as nat, 2, order)
    }

    proof fn lemma_encoding_len(&self, order: ByteOrder) {
        lemma_bytes_len(*self as nat, 2);
    }

    fn binary_serialize(&self, buffer: &mut Vec<u8>, order: ByteOrder) -> (r: usize) {
        write_uint(buffer, *self as u64, 2, order);
        proof {
            lemma_bytes_len(*self as nat, 2);
        }
        2
    }
}

impl SerializedSize for i16 {
    open spec fn byte_size(&self) -> nat {
        2
    }

    open spec fn min_nonzero_size() -> nat {
        2
    }

    open spec fn default_size() -> nat {
        2
    }

    fn serialized_size(&self) -> (r: usize) {
        2
    }

    fn min_nonzero_elements_size() -> (r: usize) {
        2
    }

    fn max_default_object_size() -> (r: usize) {
        2
    }

    fn min_enum_variant_size(&self) -> (r: usize) {
        2
    }
}

impl BinarySerialize for i16 {
    open spec fn encoding(&self, order: ByteOrder) -> Seq<u8> {
        int_bytes((*self as u16) as nat, 2, order)
    }

    proof fn lemma_encoding_len(&self, order: ByteOrder) {
        lemma_bytes_len((*self as u16) as nat, 2);
    }

    fn binary_serialize(&self, buffer: &mut Vec<u8>, order: ByteOrder) -> (r: usize) {
        write_uint(buffer, (*self as u16) as u64, 2, order);
        proof {
            lemma_bytes_len((*self as u16) as nat, 2);
        }
        2
    }
}

impl SerializedSize for u32 {
    open spec fn byte_size(&self) -> nat {
        4
    }

    open spec fn min_nonzero_size() -> nat {
        4
    }

    open spec fn default_size() -> nat {
        4
    }

    fn serialized_size(&self) -> (r: usize) {
        4
    }

    fn min_nonzero_elements_size() -> (r: usize) {
        4
    }

    fn max_default_object_size() -> (r: usize) {
        4
    }

    fn min_enum_variant_size(&self) -> (r: usize) {
        4
    }
}

impl BinarySerialize for u32 {
    open spec fn encoding(&self, order: ByteOrder) -> Seq<u8> {
        int_bytes(*self as nat, 4, order)
    }

    proof fn lemma_encoding_len(&self, order: ByteOrder) {
        lemma_bytes_len(*self as nat, 4);
    }

    fn binary_serialize(&self, buffer: &mut Vec<u8>, order: ByteOrder) -> (r: usize) {
        write_uint(buffer, *self as u64, 4, order);
        proof {
            lemma_bytes_len(*self as nat, 4);
        }
        4
    }
}

impl SerializedSize for i32 {
    open spec fn byte_size(&self) -> nat {
        4
    }

    open spec fn min_nonzero_size() -> nat {
        4
    }

    open spec fn default_size() -> nat {
        4
    }

    fn serialized_size(&self) -> (r: usize) {
        4
    }

    fn min_nonzero_elements_size() -> (r: usize) {
        4
    }

    fn max_default_object_size() -> (r: usize) {
        4
    }

    fn min_enum_variant_size(&self) -> (r: usize) {
        4
    }
}

impl BinarySerialize for i32 {
    open spec fn encoding(&self, order: ByteOrder) -> Seq<u8> {
        int_bytes((*self as u32) as nat, 4, order)
    }

    proof fn lemma_encoding_len(&self, order: ByteOrder) {
        lemma_bytes_len((*self as u32) as nat, 4);
    }

    fn binary_serialize(&self, buffer: &mut Vec<u8>, order: ByteOrder) -> (r: usize) {
        write_uint(buffer, (*self as u32) as u64, 4, order);
        proof {
            lemma_bytes_len((*self as u32) as nat, 4);
        }
        4
    }
}

impl SerializedSize for u64 {
    open spec fn byte_size(&self) -> nat {
        8
    }

    open spec fn min_nonzero_size() -> nat {
        8
    }

    open spec fn default_size() -> nat {
        8
    }

    fn serialized_size(&self) -> (r: usize) {
        8
    }

    fn min_nonzero_elements_size() -> (r: usize) {
        8
    }

    fn max_default_object_size() -> (r: usize) {
        8
    }

    fn min_enum_variant_size(&self) -> (r: usize) {
        8
    }
}

impl BinarySerialize for u64 {
    open spec fn encoding(&self, order: ByteOrder) -> Seq<u8> {
        int_bytes(*self as nat, 8, order)
    }

    proof fn lemma_encoding_len(&self, order: ByteOrder) {
        lemma_bytes_len(*self as nat, 8);
    }

    fn binary_serialize(&self, buffer: &mut Vec<u8>, order: ByteOrder) -> (r: usize) {
        write_uint(buffer, *self, 8, order);
        proof {
            lemma_bytes_len(*self as nat, 8);
        }
        8
    }
}

impl SerializedSize for i64 {
    open spec fn byte_size(&self) -> nat {
        8
    }

    open spec fn min_nonzero_size() -> nat {
        8
    }

    open spec fn default_size() -> nat {
        8
    }

    fn serialized_size(&self) -> (r: usize) {
        8
    }

    fn min_nonzero_elements_size() -> (r: usize) {
        8
    }

    fn max_default_object_size() -> (r: usize) {
        8
    }

    fn min_enum_variant_size(&self) -> (r: usize) {
        8
    }
}

impl BinarySerialize for i64 {
    open spec fn encoding(&self, order: ByteOrder) -> Seq<u8> {
        int_bytes((*self as u64) as nat, 8, order)
    }

    proof fn lemma_encoding_len(&self, order: ByteOrder) {
        lemma_bytes_len((*self as u64) as nat, 8);
    }

    fn binary_serialize(&self, buffer: &mut Vec<u8>, order: ByteOrder) -> (r: usize) {
        write_uint(buffer, *self as u64, 8, order);
        proof {
            lemma_bytes_len((*self as u64) as nat, 8);
        }
        8
    }
}

} // verus!

verus! {

impl FixedSize for u8 {
    proof fn lemma_fixed_size(&self) {
    }
}

impl FixedSize for i8 {
    proof fn lemma_fixed_size(&self) {
    }
}

impl FixedSize for bool {
    proof fn lemma_fixed_size(&self) {
    }
}

impl FixedSize for u16 {
    proof fn lemma_fixed_size(&self) {
    }
}

impl FixedSize for i16 {
    proof fn lemma_fixed_size(&self) {
    }
}

impl FixedSize for u32 {
    proof fn lemma_fixed_size(&self) {
    }
}

impl FixedSize for i32 {
    proof fn lemma_fixed_size(&self) {
    }
}

impl FixedSize for u64 {
    proof fn lemma_fixed_size(&self) {
    }
}

impl FixedSize for i64 {
    proof fn lemma_fixed_size(&self) {
    }
}

impl VariableSizeObject for u8 {
    open spec fn variable_size() -> bool {
        false
    }

    fn is_variable_size() -> (r: bool) {
        false
    }
}

impl VariableSizeObject for i8 {
    open spec fn variable_size() -> bool {
        false
    }

    fn is_variable_size() -> (r: bool) {
        false
    }
}

impl VariableSizeObject for bool {
    open spec fn variable_size() -> bool {
        false
    }

    fn is_variable_size() -> (r: bool) {
        false
    }
}

impl VariableSizeObject for u16 {
    open spec fn variable_size() -> bool {
        false
    }

    fn is_variable_size() -> (r: bool) {
        false
    }
}

impl VariableSizeObject for i16 {
    open spec fn variable_size() -> bool {
        false
    }

    fn is_variable_size() -> (r: bool) {
        false
    }
}

impl VariableSizeObject for u32 {
    open spec fn variable_size() -> bool {
        false
    }

    fn is_variable_size() -> (r: bool) {
        false
    }
}

impl VariableSizeObject for i32 {
    open spec fn variable_size() -> bool {
        false
    }

    fn is_variable_size() -> (r: bool) {
        false
    }
}

impl VariableSizeObject for u64 {
    open spec fn variable_size() -> bool {
        false
    }

    fn is_variable_size() -> (r: bool) {
        false
    }
}

impl VariableSizeObject for i64 {
    open spec fn variable_size() -> bool {
        false
    }

    fn is_variable_size() -> (r: bool) {
        false
    }
}

impl<T> VariableSizeObject for Vec<T> {
    open spec fn variable_size() -> bool {
        true
    }

    fn is_variable_size() -> (r: bool) {
        true
    }
}

impl VariableSizeObject for String {
    open spec fn variable_size() -> bool {
        true
    }

    fn is_variable_size() -> (r: bool) {
        true
    }
}

impl<T, I> VariableSizeObject for UnsafeEnum<T, I> {
    open spec fn variable_size() -> bool {
        false
    }

    fn is_variable_size() -> (r: bool) {
        false
    }
}

/// The total serialized size of a sequence of values.
pub open spec fn seq_size<T: SerializedSize>(s: Seq<T>) -> nat
    decreases s.len(),
{
    if s.len() == 0 {
        0
    } else {
        seq_size(s.drop_last()) + s.last().byte_size()
    }
}

/// The concatenated encodings of a sequence of values.
pub open spec fn seq_encoding<T: BinarySerialize>(s: Seq<T>, order: ByteOrder) -> Seq<u8>
    decreases s.len(),
{
    if s.len() == 0 {
        Seq::empty()
    } else {
        seq_encoding(s.drop_last(), order) + s.last().encoding(order)
    }
}

/// The size of a prefix never exceeds the size of the whole.
pub proof fn lemma_prefix_size<T: SerializedSize>(s: Seq<T>, i: int)
    requires
        0 <= i <= s.len(),
    ensures
        seq_size(s.subrange(0, i)) <= seq_size(s),
    decreases s.len() - i,
{
    if i < s.len() {
        lemma_prefix_size(s, i + 1);
        assert(s.subrange(0, i + 1).drop_last() == s.subrange(0, i));
    } else {
        assert(s.subrange(0, i) == s);
    }
}

/// The size of a sequence with one more element at the end.
pub proof fn lemma_size_push<T: SerializedSize>(s: Seq<T>, x: T)
    ensures
        seq_size(s.push(x)) == seq_size(s) + x.byte_size(),
{
    assert(s.push(x).drop_last() == s);
}

/// The size of a concatenation is the sum of the sizes.
pub proof fn lemma_size_concat<T: SerializedSize>(a: Seq<T>, b: Seq<T>)
    ensures
        seq_size(a + b) == seq_size(a) + seq_size(b),
    decreases b.len(),
{
    if b.len() == 0 {
        assert(a + b == a);
    } else {
        lemma_size_concat(a, b.drop_last());
        assert((a + b).drop_last() == a + b.drop_last());
    }
}

/// The size of a sequence with element `i` replaced.
pub proof fn lemma_size_update<T: SerializedSize>(s: Seq<T>, i: int, x: T)
    requires
        0 <= i < s.len(),
    ensures
        seq_size(s.update(i, x)) + s[i].byte_size() == seq_size(s) + x.byte_size(),
{
    let pre = s.subrange(0, i);
    let post = s.subrange(i + 1, s.len() as int);
    assert(s == pre.push(s[i]) + post);
    assert(s.update(i, x) == pre.push(x) + post);
    lemma_size_concat(pre.push(s[i]), post);
    lemma_size_concat(pre.push(x), post);
    lemma_size_push(pre, s[i]);
    lemma_size_push(pre, x);
}

/// The encodings of a sequence are as long as its size.
pub proof fn lemma_seq_encoding_len<T: BinarySerialize>(s: Seq<T>, order: ByteOrder)
    ensures
        seq_encoding(s, order).len() == seq_size(s),
    decreases s.len(),
{
    if s.len() > 0 {
        lemma_seq_encoding_len(s.drop_last(), order);
        s.last().lemma_encoding_len(order);
    }
}

proof fn lemma_prefix_encoding<T: BinarySerialize>(s: Seq<T>, i: int, order: ByteOrder)
    requires
        0 <= i <= s.len(),
    ensures
        seq_encoding(s.subrange(0, i), order).len() <= seq_encoding(s, order).len(),
    decreases s.len() - i,
{
    if i < s.len() {
        lemma_prefix_encoding(s, i + 1, order);
        assert(s.subrange(0, i + 1).drop_last() == s.subrange(0, i));
    } else {
        assert(s.subrange(0, i) == s);
    }
}

impl<T: SerializedSize> SerializedSize for Vec<T> {
    open spec fn byte_size(&self) -> nat {
        seq_size(self@)
    }

    open spec fn min_nonzero_size() -> nat {
        T::min_nonzero_size()
    }

    open spec fn default_size() -> nat {
        T::default_size()
    }

    fn serialized_size(&self) -> (r: usize) {
        let mut total: usize = 0;
        let mut i: usize = 0;
        while i < self.len()
            invariant
                i <= self.len(),
                total == seq_size(self@.subrange(0, i as int)),
            decreases self.len() - i,
        {
            proof {
                lemma_prefix_size(self@, i + 1);
                assert(self@.subrange(0, i + 1).drop_last() == self@.subrange(0, i as int));
            }
            let s = self[i].serialized_size();
            if s == usize::MAX || total > usize::MAX - s {
                return usize::MAX;
            }
            total = total + s;
            i += 1;
        }
        assert(self@.subrange(0, self.len() as int) == self@);
        total
    }

    fn min_nonzero_elements_size() -> (r: usize) {
        T::min_nonzero_elements_size()
    }

    fn max_default_object_size() -> (r: usize) {
        T::max_default_object_size()
    }

    fn min_enum_variant_size(&self) -> (r: usize) {
        T::min_nonzero_elements_size()
    }
}

impl<T: BinarySerialize> BinarySerialize for Vec<T> {
    open spec fn encoding(&self, order: ByteOrder) -> Seq<u8> {
        seq_encoding(self@, order)
    }

    proof fn lemma_encoding_len(&self, order: ByteOrder) {
        lemma_seq_encoding_len(self@, order);
    }

    fn binary_serialize(&self, buffer: &mut Vec<u8>, order: ByteOrder) -> (r: usize) {
        let mut written: usize = 0;
        let mut i: usize = 0;
        while i < self.len()
            invariant
                i <= self.len(),
                written == seq_encoding(self@.subrange(0, i as int), order).len(),
                buffer@ == old(buffer)@ + seq_encoding(self@.subrange(0, i as int), order),
                seq_encoding(self@, order).len() <= usize::MAX,
            decreases self.len() - i,
        {
            proof {
                lemma_prefix_encoding(self@, i + 1, order);
                assert(self@.subrange(0, i + 1).drop_last() == self@.subrange(0, i as int));
            }
            let n = self[i].binary_serialize(buffer, order);
            written = written + n;
            i += 1;
        }
        assert(self@.subrange(0, self.len() as int) == self@);
        written
    }
}

impl SerializedSize for String {
    open spec fn byte_size(&self) -> nat {
        vstd::utf8::encode_utf8(self@).len()
    }

    open spec fn min_nonzero_size() -> nat {
        1
    }

    open spec fn default_size() -> nat {
        1
    }

    fn serialized_size(&self) -> (r: usize) {
        self.as_str().as_bytes().len()
    }

    fn min_nonzero_elements_size() -> (r: usize) {
        1
    }

    fn max_default_object_size() -> (r: usize) {
        1
    }

    fn min_enum_variant_size(&self) -> (r: usize) {
        1
    }
}

impl BinarySerialize for String {
    open spec fn encoding(&self, order: ByteOrder) -> Seq<u8> {
        vstd::utf8::encode_utf8(self@)
    }

    proof fn lemma_encoding_len(&self, order: ByteOrder) {
    }

    fn binary_serialize(&self, buffer: &mut Vec<u8>, order: ByteOrder) -> (r: usize) {
        let bytes = self.as_str().as_bytes();
        push_all(buffer, bytes);
        bytes.len()
    }
}

impl<T: ToPrimitive<Output = I>, I: SerializedSize> SerializedSize for UnsafeEnum<T, I> {
    open spec fn byte_size(&self) -> nat {
        match self {
            UnsafeEnum::Valid(v) => v.primitive().byte_size(),
            UnsafeEnum::Invalid(i) => i.byte_size(),
        }
    }

    open spec fn min_nonzero_size() -> nat {
        I::min_nonzero_size()
    }

    open spec fn default_size() -> nat {
        I::default_size()
    }

    fn serialized_size(&self) -> (r: usize) {
        match self {
            UnsafeEnum::Valid(v) => v.to_primitive().serialized_size(),
            UnsafeEnum::Invalid(i) => i.serialized_size(),
        }
    }

    fn min_nonzero_elements_size() -> (r: usize) {
        I::min_nonzero_elements_size()
    }

    fn max_default_object_size() -> (r: usize) {
        I::max_default_object_size()
    }

    fn min_enum_variant_size(&self) -> (r: usize) {
        I::min_nonzero_elements_size()
    }
}

/// A sum type with out-of-range discriminants is written as its discriminant.
impl<T: ToPrimitive<Output = I>, I: BinarySerialize> BinarySerialize for UnsafeEnum<T, I> {
    open spec fn encoding(&self, order: ByteOrder) -> Seq<u8> {
        match self {
            UnsafeEnum::Valid(v) => v.primitive().encoding(order),
            UnsafeEnum::Invalid(i) => i.encoding(order),
        }
    }

    proof fn lemma_encoding_len(&self, order: ByteOrder) {
        match self {
            UnsafeEnum::Valid(v) => v.primitive().lemma_encoding_len(order),
            UnsafeEnum::Invalid(i) => i.lemma_encoding_len(order),
        }
    }

    fn binary_serialize(&self, buffer: &mut Vec<u8>, order: ByteOrder) -> (r: usize) {
        match self {
            UnsafeEnum::Valid(v) => v.to_primitive().binary_serialize(buffer, order),
            UnsafeEnum::Invalid(i) => i.binary_serialize(buffer, order),
        }
    }
}

impl<T: ToPrimitive<Output = I>, I: Copy> ToPrimitive for UnsafeEnum<T, I> {
    type Output = I;

    open spec fn primitive(&self) -> I {
        match self {
            UnsafeEnum::Valid(v) => v.primitive(),
            UnsafeEnum::Invalid(i) => *i,
        }
    }

    fn to_primitive(&self) -> (r: I) {
        match self {
            UnsafeEnum::Valid(v) => v.to_primitive(),
            UnsafeEnum::Invalid(i) => *i,
        }
    }
}

} // verus!
