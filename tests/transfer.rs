use console_log_saver::transfer::{
    body_range, reserved_size, decode_body, decode_transfer, encode_transfer, Corruption, LogRecord, TransferData,
    TransferDataBuilder, TransferDataReader,
};
use console_log_saver::wire::ByteOrder;

fn units(s: &str) -> Vec<u16> {
    s.encode_utf16().collect()
}

fn sample(entries: &[(&str, i32)]) -> TransferData {
    TransferData {
        unity_version: units("2022.3.10f1"),
        os_description: units("Linux 6.1"),
        build_target: units("StandaloneLinux64"),
        current_directory: units("/home/user/project"),
        entries: entries
            .iter()
            .map(|(m, mode)| LogRecord { message: units(m), mode: *mode })
            .collect(),
    }
}

fn same(a: &TransferData, b: &TransferData) -> bool {
    a.unity_version == b.unity_version
        && a.os_description == b.os_description
        && a.build_target == b.build_target
        && a.current_directory == b.current_directory
        && a.entries.len() == b.entries.len()
        && a.entries
            .iter()
            .zip(b.entries.iter())
            .all(|(x, y)| x.message == y.message && x.mode == y.mode)
}

#[test]
fn round_trip_keeps_every_field() {
    let data = sample(&[("Hello", 0), ("Wörld 🌍", -7), ("", i32::MAX), ("x", i32::MIN)]);
    for order in [ByteOrder::Little, ByteOrder::Big] {
        let region = encode_transfer(&data, order);
        let decoded = decode_transfer(region[8..].to_vec(), order).unwrap();
        assert!(same(&data, &decoded));
    }
}

#[test]
fn round_trip_of_empty_strings_and_no_entries() {
    let data = TransferData {
        unity_version: vec![],
        os_description: vec![],
        build_target: vec![],
        current_directory: vec![],
        entries: vec![],
    };
    let region = encode_transfer(&data, ByteOrder::Little);
    // reserved size, byte_length, version, four empty strings, entry count
    assert_eq!(region.len(), 8 + 8 + 4 + 4 * 4 + 4);
    let decoded = decode_transfer(region[8..].to_vec(), ByteOrder::Little).unwrap();
    assert!(same(&data, &decoded));
}

#[test]
fn byte_length_counts_the_bytes_after_it() {
    let data = sample(&[("Hello", 0), ("World", 1)]);
    let region = encode_transfer(&data, ByteOrder::Little);
    let reserved = u64::from_le_bytes(region[0..8].try_into().unwrap());
    let byte_length = u64::from_le_bytes(region[8..16].try_into().unwrap());
    assert_eq!(reserved as usize, region.len());
    assert_eq!(byte_length as usize, region.len() - 16);
}

#[test]
fn exact_layout_of_a_small_buffer() {
    let data = TransferData {
        unity_version: vec![0x41],
        os_description: vec![],
        build_target: vec![],
        current_directory: vec![],
        entries: vec![LogRecord { message: vec![0x42], mode: 2 }],
    };
    let region = encode_transfer(&data, ByteOrder::Big);
    let expected: Vec<u8> = [
        vec![0, 0, 0, 0, 0, 0, 0, 52],
        vec![0, 0, 0, 0, 0, 0, 0, 36],
        vec![0, 0, 0, 1],
        vec![0, 0, 0, 1, 0, 0x41],
        vec![0, 0, 0, 0],
        vec![0, 0, 0, 0],
        vec![0, 0, 0, 0],
        vec![0, 0, 0, 1],
        vec![0, 0, 0, 1, 0, 0x42],
        vec![0, 0, 0, 2],
    ]
    .concat();
    assert_eq!(region, expected);
}

#[test]
fn wrong_byte_length_is_refused() {
    let data = sample(&[("Hello", 0)]);
    let region = encode_transfer(&data, ByteOrder::Little);
    let mut buffer = region[8..].to_vec();
    buffer[0] = buffer[0].wrapping_add(1);
    assert!(matches!(
        decode_transfer(buffer, ByteOrder::Little),
        Err(Corruption::LengthMismatch)
    ));
}

#[test]
fn bytes_after_the_last_entry_are_refused() {
    let data = sample(&[("Hello", 0)]);
    let region = encode_transfer(&data, ByteOrder::Little);
    let mut buffer = region[8..].to_vec();
    buffer.push(0);
    let len = (buffer.len() - 8) as u64;
    buffer[0..8].copy_from_slice(&len.to_le_bytes());
    assert!(matches!(
        decode_transfer(buffer, ByteOrder::Little),
        Err(Corruption::LengthMismatch)
    ));
}

#[test]
fn version_other_than_one_is_refused() {
    let data = sample(&[("Hello", 0)]);
    let region = encode_transfer(&data, ByteOrder::Little);
    let mut body = region[16..].to_vec();
    body[0] = 2;
    assert!(matches!(decode_body(body, ByteOrder::Little), Err(Corruption::UnsupportedVersion)));
    // whatever follows the version field
    let garbage = vec![2, 0, 0, 0, 0xff, 0xff, 0xff, 0xff];
    assert!(matches!(
        decode_body(garbage, ByteOrder::Little),
        Err(Corruption::UnsupportedVersion)
    ));
}

#[test]
fn short_and_negative_fields_are_refused() {
    assert!(matches!(decode_transfer(vec![0, 0, 0], ByteOrder::Little), Err(Corruption::Truncated)));
    assert!(matches!(decode_body(vec![1, 0], ByteOrder::Little), Err(Corruption::Truncated)));
    let negative = vec![1, 0, 0, 0, 0xff, 0xff, 0xff, 0xff];
    assert!(matches!(
        decode_body(negative, ByteOrder::Little),
        Err(Corruption::NegativeLength)
    ));
    let too_long = vec![1, 0, 0, 0, 5, 0, 0, 0, 0x41, 0];
    assert!(matches!(decode_body(too_long, ByteOrder::Little), Err(Corruption::Truncated)));
}

#[test]
fn builder_and_reader_agree() {
    let mut builder = TransferDataBuilder::with_byte_order(ByteOrder::Little);
    builder.write_i32(-2);
    builder.write_string(&units("hi"));
    let region = builder.build();
    assert_eq!(region[16..], [0xfe, 0xff, 0xff, 0xff, 2, 0, 0, 0, 0x68, 0, 0x69, 0]);
    let mut reader = TransferDataReader::with_byte_order(region[16..].to_vec(), ByteOrder::Little);
    assert_eq!(reader.read_i32().unwrap(), -2);
    assert_eq!(reader.read_string().unwrap(), units("hi"));
    assert_eq!(reader.remaining(), 0);
    assert!(matches!(reader.read_i32(), Err(Corruption::Truncated)));
}

#[test]
fn native_builder_round_trips() {
    let mut builder = TransferDataBuilder::new();
    builder.write_i32(7);
    let region = builder.build();
    let mut reader = TransferDataReader::new(region[16..].to_vec());
    assert_eq!(reader.read_i32().unwrap(), 7);
}

#[test]
fn region_records_its_own_size() {
    let data = sample(&[("a", 1)]);
    for order in [ByteOrder::Little, ByteOrder::Big] {
        let region = encode_transfer(&data, order);
        assert_eq!(reserved_size(&region, order) as usize, region.len());
    }
}

#[test]
fn body_lies_after_the_length_field() {
    assert_eq!(body_range(0x1000, 24), Some((0x1008, 24)));
    assert_eq!(body_range(u64::MAX - 8, 0), Some((u64::MAX, 0)));
    assert_eq!(body_range(u64::MAX - 8, 1), None);
    assert_eq!(body_range(u64::MAX, 0), None);
}
