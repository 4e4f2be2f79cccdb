use hotkey_transfer::frame::{
    decode_frame, encode_frame, length_field, put_bytes, DecodeError, FrameField, HEADER_LENGTH,
};
use hotkey_transfer::wire::{get_be32, put_be32};

fn patterned(len: usize) -> Vec<u8> {
    (0..len).map(|i| (i * 31 % 251) as u8).collect()
}

#[test]
fn put_be32_writes_most_significant_byte_first() {
    let mut out = vec![0xAA];
    put_be32(&mut out, 0x0102_0304);
    assert_eq!(out, vec![0xAA, 1, 2, 3, 4]);
}

#[test]
fn put_be32_of_extremes() {
    let mut out = Vec::new();
    put_be32(&mut out, 0);
    put_be32(&mut out, u32::MAX);
    assert_eq!(out, vec![0, 0, 0, 0, 255, 255, 255, 255]);
}

#[test]
fn get_be32_reads_at_an_offset() {
    let bytes = [9, 0, 0, 1, 0, 7];
    assert_eq!(get_be32(&bytes, 1), 256);
    assert_eq!(get_be32(&bytes, 2), 0x0001_0007);
}

#[test]
fn get_be32_agrees_with_the_standard_library() {
    for value in [0u32, 1, 255, 256, 65_535, 65_536, 0x1234_5678, 0x8000_0000, u32::MAX] {
        let mut out = Vec::new();
        put_be32(&mut out, value);
        assert_eq!(out, value.to_be_bytes().to_vec());
        assert_eq!(get_be32(&out, 0), value);
    }
}

#[test]
fn length_field_keeps_small_lengths() {
    assert_eq!(length_field(0), 0);
    assert_eq!(length_field(70_000), 70_000);
}

#[test]
fn put_bytes_appends_a_copy() {
    let mut out = vec![1, 2];
    put_bytes(&mut out, &[3, 4, 5]);
    put_bytes(&mut out, &[]);
    assert_eq!(out, vec![1, 2, 3, 4, 5]);
}

#[test]
fn header_is_eight_bytes() {
    assert_eq!(HEADER_LENGTH, 8);
    assert_eq!(encode_frame("", &[]).len(), 8);
}

#[test]
fn frame_layout_is_lengths_then_name_then_payload() {
    let frame = encode_frame("a.txt", &[1, 2, 3]);
    assert_eq!(frame, vec![0, 0, 0, 5, 0, 0, 0, 3, b'a', b'.', b't', b'x', b't', 1, 2, 3]);
}

#[test]
fn name_length_counts_bytes_not_characters() {
    let frame = encode_frame("é", &[]);
    assert_eq!(frame, vec![0, 0, 0, 2, 0, 0, 0, 0, 0xC3, 0xA9]);
}

#[test]
fn decode_gives_back_what_encode_took() {
    let frame = encode_frame("report.pdf", &[9, 8, 7, 6]);
    let message = decode_frame(&frame).unwrap();
    assert_eq!(message.name, "report.pdf");
    assert_eq!(message.payload, vec![9, 8, 7, 6]);
}

#[test]
fn round_trip_with_empty_payload() {
    let message = decode_frame(&encode_frame("empty.bin", &[])).unwrap();
    assert_eq!(message.name, "empty.bin");
    assert!(message.payload.is_empty());
}

#[test]
fn round_trip_with_non_ascii_name() {
    let name = "レポート 2024 ✓.txt";
    let payload = patterned(300);
    let message = decode_frame(&encode_frame(name, &payload)).unwrap();
    assert_eq!(message.name, name);
    assert_eq!(message.payload, payload);
}

#[test]
fn round_trip_of_a_large_payload() {
    let payload = patterned(70_000);
    let message = decode_frame(&encode_frame("big", &payload)).unwrap();
    assert_eq!(message.name, "big");
    assert_eq!(message.payload, payload);
}

#[test]
fn round_trip_for_many_sizes() {
    for len in [0usize, 1, 2, 255, 256, 257, 4096, 65_535, 65_536, 65_537] {
        let payload = patterned(len);
        let message = decode_frame(&encode_frame("f", &payload)).unwrap();
        assert_eq!(message.payload, payload);
    }
}

#[test]
fn bytes_after_the_frame_are_left_alone() {
    let mut stream = encode_frame("n", &[1, 2]);
    stream.extend_from_slice(&[0xFF, 0xFE, 0xFD]);
    let message = decode_frame(&stream).unwrap();
    assert_eq!(message.name, "n");
    assert_eq!(message.payload, vec![1, 2]);
}

#[test]
fn decode_of_nothing_is_truncated_in_name_length() {
    assert_eq!(decode_frame(&[]).err(), Some(DecodeError::Truncated(FrameField::NameLength)));
}

#[test]
fn decode_of_three_bytes_is_truncated_in_name_length() {
    assert_eq!(
        decode_frame(&[0, 0, 0]).err(),
        Some(DecodeError::Truncated(FrameField::NameLength))
    );
}

#[test]
fn decode_of_seven_bytes_is_truncated_in_payload_length() {
    assert_eq!(
        decode_frame(&[0, 0, 0, 1, 0, 0, 0]).err(),
        Some(DecodeError::Truncated(FrameField::PayloadLength))
    );
}

#[test]
fn decode_with_short_name_is_truncated_in_name() {
    assert_eq!(
        decode_frame(&[0, 0, 0, 3, 0, 0, 0, 0, b'a', b'b']).err(),
        Some(DecodeError::Truncated(FrameField::Name))
    );
}

#[test]
fn decode_with_short_payload_is_truncated_in_payload() {
    assert_eq!(
        decode_frame(&[0, 0, 0, 1, 0, 0, 0, 2, b'a', 7]).err(),
        Some(DecodeError::Truncated(FrameField::Payload))
    );
}

#[test]
fn decode_with_invalid_name_is_an_error() {
    assert_eq!(
        decode_frame(&[0, 0, 0, 2, 0, 0, 0, 0, 0xFF, 0xFE]).err(),
        Some(DecodeError::InvalidName)
    );
}

#[test]
fn invalid_name_is_found_before_the_payload_is_missed() {
    assert_eq!(
        decode_frame(&[0, 0, 0, 1, 0, 0, 0, 9, 0x80]).err(),
        Some(DecodeError::InvalidName)
    );
}

#[test]
fn overlong_and_surrogate_names_are_invalid() {
    assert_eq!(
        decode_frame(&[0, 0, 0, 2, 0, 0, 0, 0, 0xC0, 0x80]).err(),
        Some(DecodeError::InvalidName)
    );
    assert_eq!(
        decode_frame(&[0, 0, 0, 3, 0, 0, 0, 0, 0xED, 0xA0, 0x80]).err(),
        Some(DecodeError::InvalidName)
    );
}

#[test]
fn every_proper_prefix_of_a_frame_is_truncated() {
    let frame = encode_frame("name.txt", &patterned(20));
    for cut in 0..frame.len() {
        match decode_frame(&frame[..cut]) {
            Err(DecodeError::Truncated(_)) => {}
            _ => panic!("prefix of {} bytes was not refused as truncated", cut),
        }
    }
    assert!(decode_frame(&frame).is_ok());
}

#[test]
fn huge_announced_lengths_do_not_overflow() {
    assert_eq!(
        decode_frame(&[255, 255, 255, 255, 255, 255, 255, 255, 1, 2, 3]).err(),
        Some(DecodeError::Truncated(FrameField::Name))
    );
    assert_eq!(
        decode_frame(&[0, 0, 0, 0, 255, 255, 255, 255]).err(),
        Some(DecodeError::Truncated(FrameField::Payload))
    );
}
