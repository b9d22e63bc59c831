use lain::bitfield::{
    layout_bitfields, pad_to_declared_size, BitfieldAccumulator, BitfieldError, BitfieldField,
    BitfieldSlot, PaddingError,
};
use lain::buffer::ByteOrder;
use lain::traits::{BinarySerialize, SerializedSize};
use lain::types::{AsciiString, Utf8String};

struct TestStruct {
    single_byte: u8,
    bitfield_1: u8,
    bitfield_2: u8,
    bitfield_3: u8,
    bitfield_4: u8,
    bitfield_5: u8,
    uint32: u32,
    short: u16,
    end_byte: u8,
}

struct NestedStruct {
    test1: u32,
    nested: TestStruct,
    test2: u32,
}

fn byte_bitfields(widths: &[u32]) -> Vec<BitfieldSlot> {
    let run: Vec<BitfieldField> = widths
        .iter()
        .map(|&bits| BitfieldField { bits, backing_width: 8 })
        .collect();
    layout_bitfields(&run).unwrap()
}

fn serialize_test_struct(t: &TestStruct, buffer: &mut Vec<u8>, order: ByteOrder) -> usize {
    let slots = byte_bitfields(&[1, 2, 1, 1, 3]);
    let mut written = t.single_byte.binary_serialize(buffer, order);
    let mut acc = BitfieldAccumulator::new();
    let values = [t.bitfield_1, t.bitfield_2, t.bitfield_3, t.bitfield_4, t.bitfield_5];
    let before = buffer.len();
    for (slot, value) in slots.iter().zip(values.iter()) {
        acc.push(*value as u64, *slot, buffer, order);
    }
    written += buffer.len() - before;
    written += t.uint32.binary_serialize(buffer, order);
    written += t.short.binary_serialize(buffer, order);
    written += t.end_byte.binary_serialize(buffer, order);
    written
}

fn serialize_nested(n: &NestedStruct, buffer: &mut Vec<u8>, order: ByteOrder) -> usize {
    let mut written = n.test1.binary_serialize(buffer, order);
    written += serialize_test_struct(&n.nested, buffer, order);
    written += n.test2.binary_serialize(buffer, order);
    written
}

fn sample_struct() -> TestStruct {
    TestStruct {
        single_byte: 0,
        bitfield_1: 0,
        bitfield_2: 2,
        bitfield_3: 1,
        bitfield_4: 0,
        bitfield_5: 3,
        uint32: 0xFFEEDDCC,
        short: 0xAAFF,
        end_byte: 0x1,
    }
}

fn compare_slices(expected: &[u8], actual: &[u8]) {
    assert_eq!(actual.len(), expected.len());
    for i in 0..expected.len() {
        assert_eq!(actual[i], expected[i], "value at index {} differed", i);
    }
}

#[test]
fn test_little_endian_serialization() {
    let expected_data = vec![0x00u8, 0x6Cu8, 0xCCu8, 0xDDu8, 0xEEu8, 0xFFu8, 0xFFu8, 0xAAu8, 0x01u8];
    let test = sample_struct();
    let mut buffer = Vec::with_capacity(expected_data.len());
    let written = serialize_test_struct(&test, &mut buffer, ByteOrder::LittleEndian);
    assert_eq!(written, expected_data.len());
    compare_slices(&expected_data, &buffer);
}

#[test]
fn test_big_endian_serialization() {
    let expected_data = vec![0x00u8, 0x6Cu8, 0xFFu8, 0xEEu8, 0xDDu8, 0xCCu8, 0xAAu8, 0xFFu8, 0x01u8];
    let test = sample_struct();
    let mut buffer = Vec::with_capacity(expected_data.len());
    serialize_test_struct(&test, &mut buffer, ByteOrder::BigEndian);
    compare_slices(&expected_data, &buffer);
}

#[test]
fn test_nested_struct_big_endian() {
    let expected_data = vec![
        0xAAu8, 0xBBu8, 0xCCu8, 0xDDu8, 0x00u8, 0x6Cu8, 0xFFu8, 0xEEu8, 0xDDu8, 0xCCu8, 0xAAu8,
        0xFFu8, 0x01u8, 0x00u8, 0x11u8, 0x22u8, 0x33u8,
    ];
    let parent = NestedStruct { test1: 0xAABBCCDD, nested: sample_struct(), test2: 0x00112233 };
    let mut buffer = Vec::with_capacity(expected_data.len());
    serialize_nested(&parent, &mut buffer, ByteOrder::BigEndian);
    compare_slices(&expected_data, &buffer);
}

#[test]
fn test_nested_struct_little_endian() {
    let expected_data = vec![
        0xDDu8, 0xCCu8, 0xBBu8, 0xAAu8, 0x00u8, 0x6Cu8, 0xCCu8, 0xDDu8, 0xEEu8, 0xFFu8, 0xFFu8,
        0xAAu8, 0x01u8, 0x33, 0x22, 0x11, 0x0,
    ];
    let parent = NestedStruct { test1: 0xAABBCCDD, nested: sample_struct(), test2: 0x00112233 };
    let mut buffer = Vec::with_capacity(expected_data.len());
    serialize_nested(&parent, &mut buffer, ByteOrder::LittleEndian);
    compare_slices(&expected_data, &buffer);
}

#[test]
fn mutating_string() {
    let mut my_string = Utf8String::new("Hello, world");
    let mut mutator = lain::mutator::Mutator::from_seed(1);
    mutator.corpus_state.mode = lain::mode::MutatorMode::Havoc;
    lain::traits::Mutatable::mutate(&mut my_string, &mut mutator, None);
    assert_eq!(my_string.inner.len(), "Hello, world".chars().count());
}

#[test]
fn string_serialized_size() {
    let my_string = String::from("Hello, world");
    assert!(my_string.serialized_size() == my_string.as_bytes().len());
}

#[test]
fn string_with_unicode_chars_serialized_size() {
    let my_string = String::from("🔥");
    assert!(my_string.serialized_size() == my_string.as_bytes().len());
}

#[test]
fn bitfields_one_two_one_pack_into_one_byte() {
    let slots = byte_bitfields(&[1, 2, 1]);
    assert_eq!(slots[0].shift, 0);
    assert_eq!(slots[1].shift, 1);
    assert_eq!(slots[2].shift, 3);
    assert!(slots[2].flush);
    let mut acc = BitfieldAccumulator::new();
    let mut out = vec![];
    for (slot, value) in slots.iter().zip([1u64, 2, 1].iter()) {
        acc.push(*value, *slot, &mut out, ByteOrder::BigEndian);
    }
    assert_eq!(out, vec![0x0D]);
    assert_eq!(acc.acc, 0);
}

#[test]
fn test_incomplete_bitfield() {
    let run = vec![
        BitfieldField { bits: 1, backing_width: 32 },
        BitfieldField { bits: 1, backing_width: 32 },
    ];
    let slots = layout_bitfields(&run).unwrap();
    assert!(!slots[0].flush);
    assert!(slots[1].flush);
    let mut acc = BitfieldAccumulator::new();
    let mut output = vec![];
    acc.push(0, slots[0], &mut output, ByteOrder::BigEndian);
    acc.push(1, slots[1], &mut output, ByteOrder::BigEndian);
    let expected: [u8; 4] = [0x0, 0x0, 0x0, 0x2];
    compare_slices(&expected[..], output.as_slice());
}

#[test]
fn test_serializing_enum_as_bitfield() {
    let run = vec![BitfieldField { bits: 1, backing_width: 32 }];
    let slots = layout_bitfields(&run).unwrap();
    let mut acc = BitfieldAccumulator::new();
    let mut output = vec![];
    acc.push(1, slots[0], &mut output, ByteOrder::BigEndian);
    assert_eq!(output[3], 1);
}

#[test]
fn bitfield_layout_errors() {
    let too_many = vec![BitfieldField { bits: 65, backing_width: 64 }];
    assert_eq!(layout_bitfields(&too_many), Err(BitfieldError::BadBitCount));
    let none = vec![BitfieldField { bits: 0, backing_width: 8 }];
    assert_eq!(layout_bitfields(&none), Err(BitfieldError::BadBitCount));
    let odd_backing = vec![BitfieldField { bits: 3, backing_width: 12 }];
    assert_eq!(layout_bitfields(&odd_backing), Err(BitfieldError::UnsupportedBackingType));
    let overflow = vec![
        BitfieldField { bits: 5, backing_width: 8 },
        BitfieldField { bits: 4, backing_width: 8 },
    ];
    assert_eq!(layout_bitfields(&overflow), Err(BitfieldError::OverflowsBackingType));
}

#[test]
fn bitfield_run_restarts_after_full_backing() {
    let run = vec![
        BitfieldField { bits: 4, backing_width: 8 },
        BitfieldField { bits: 4, backing_width: 8 },
        BitfieldField { bits: 3, backing_width: 8 },
    ];
    let slots = layout_bitfields(&run).unwrap();
    assert_eq!(slots[1].shift, 4);
    assert!(slots[1].flush);
    assert_eq!(slots[2].shift, 0);
    assert!(slots[2].flush);
}

#[test]
fn test_padded_serialized_size() {
    let mut output = vec![];
    let written = 0u8.binary_serialize(&mut output, ByteOrder::BigEndian);
    assert_eq!(pad_to_declared_size(&mut output, written, 2), Ok(2));
    compare_slices(&[0x0, 0x0], output.as_slice());
}

#[test]
fn padding_rejects_oversized_content() {
    let mut output = vec![1u8, 2, 3];
    assert_eq!(
        pad_to_declared_size(&mut output, 3, 2),
        Err(PaddingError::ContentExceedsDeclaredSize)
    );
    assert_eq!(output, vec![1, 2, 3]);
}

#[test]
fn test_overriding_byteorder_parent_littleendian() {
    let expected: [u8; 8] = [0xDD, 0xCC, 0xBB, 0xAA, 0x00, 0x11, 0x22, 0x33];
    let mut serialized_buffer = Vec::new();
    0xAABBCCDDu32.binary_serialize(&mut serialized_buffer, ByteOrder::LittleEndian);
    0x00112233u32.binary_serialize(&mut serialized_buffer, ByteOrder::BigEndian);
    compare_slices(&expected, &serialized_buffer);
}

#[test]
fn test_overriding_byteorder_parent_bigendian() {
    let expected: [u8; 8] = [0xAA, 0xBB, 0xCC, 0xDD, 0x33, 0x22, 0x11, 0x00];
    let mut serialized_buffer = Vec::new();
    0xAABBCCDDu32.binary_serialize(&mut serialized_buffer, ByteOrder::BigEndian);
    0x00112233u32.binary_serialize(&mut serialized_buffer, ByteOrder::LittleEndian);
    compare_slices(&expected, &serialized_buffer);
}

#[test]
fn serializing_dynamic_array() {
    let expected: [u8; 4] = [0xAA, 0xBB, 0xCC, 0xDD];
    let dynamic_array: Vec<u16> = vec![0xAABB, 0xCCDD];
    let mut serialized_buffer = vec![];
    let written = dynamic_array.binary_serialize(&mut serialized_buffer, ByteOrder::BigEndian);
    assert_eq!(written, 4);
    assert_eq!(dynamic_array.serialized_size(), 4);
    compare_slices(&expected, &serialized_buffer);
}

#[test]
fn serializing_string() {
    let expected: [u8; 4] = [0x54, 0x45, 0x53, 0x54];
    let choice = String::from("TEST");
    let mut serialized_buffer = vec![];
    choice.binary_serialize(&mut serialized_buffer, ByteOrder::LittleEndian);
    compare_slices(&expected, &serialized_buffer);
}

#[test]
fn wide_integers_in_both_byte_orders() {
    let mut out = vec![];
    0x0102030405060708u64.binary_serialize(&mut out, ByteOrder::BigEndian);
    0x0102030405060708u64.binary_serialize(&mut out, ByteOrder::LittleEndian);
    (-2i16).binary_serialize(&mut out, ByteOrder::BigEndian);
    (-1i8).binary_serialize(&mut out, ByteOrder::BigEndian);
    true.binary_serialize(&mut out, ByteOrder::BigEndian);
    assert_eq!(
        out,
        vec![1, 2, 3, 4, 5, 6, 7, 8, 8, 7, 6, 5, 4, 3, 2, 1, 0xFF, 0xFE, 0xFF, 1]
    );
}

#[test]
fn utf8_and_ascii_strings_serialize_as_utf8() {
    let s = Utf8String::new("a\u{e9}\u{20ac}\u{1F525}");
    let mut out = vec![];
    let n = s.binary_serialize(&mut out, ByteOrder::BigEndian);
    assert_eq!(out, "a\u{e9}\u{20ac}\u{1F525}".as_bytes().to_vec());
    assert_eq!(n, 10);
    assert_eq!(s.serialized_size(), 10);
    let a = AsciiString::new("AB");
    let mut out = vec![];
    a.binary_serialize(&mut out, ByteOrder::LittleEndian);
    assert_eq!(out, vec![0x41, 0x42]);
}

#[test]
fn hexdump_of_two_bytes() {
    let dump = lain::hexdump::hexdump(&[0x41, 0x00]);
    let mut expected = String::from("------00 01 02 03 04 05 06 07 08 09 0A 0B 0C 0D 0E 0F ");
    expected += "\t\n0000: 41 00";
    expected += &" ".repeat(14 * 3);
    expected += "\tA.";
    assert_eq!(dump, expected);
}

#[test]
fn hexdump_of_a_full_row_and_more() {
    let data: Vec<u8> = (0x30..0x41).collect();
    let dump = lain::hexdump::hexdump(&data);
    assert!(dump.contains("\n0000: 30 31 32 33 34 35 36 37 38 39 3A 3B 3C 3D 3E 3F\t0123456789:;<=>?\n0010: 40"));
    assert!(dump.ends_with("\t@"));
}
