//! Frame codec tests: bit layout of command frames, decode of responses,
//! and the big-endian byte order.

use drv8301_dd::frame::{
    decode_response, encode_read, encode_write, frame_from_be_bytes, frame_to_be_bytes,
};

#[test]
fn read_frame_has_operation_bit_and_zero_payload() {
    for address in 0u8..16 {
        let frame = encode_read(address);
        assert_eq!(frame & 0x8000, 0x8000, "operation bit must be set");
        assert_eq!(frame & 0x07FF, 0, "payload bits must be zero");
        assert_eq!((frame >> 11) & 0x0F, address as u16);
    }
}

#[test]
fn read_frame_concrete_values() {
    assert_eq!(encode_read(0x0), 0x8000);
    assert_eq!(encode_read(0x1), 0x8800);
    assert_eq!(encode_read(0x2), 0x9000);
    assert_eq!(encode_read(0x3), 0x9800);
    assert_eq!(encode_read(0xF), 0xF800);
}

#[test]
fn write_frame_concrete_values() {
    assert_eq!(encode_write(0x2, 0x000), 0x1000);
    assert_eq!(encode_write(0x2, 0x7FF), 0x17FF);
    assert_eq!(encode_write(0x3, 0x040), 0x1840);
    assert_eq!(encode_write(0x0, 0x001), 0x0001);
}

#[test]
fn write_frame_round_trips_address_and_value() {
    for address in 0u8..16 {
        for value in [0u16, 1, 0x2AA, 0x555, 0x400, 0x7FF] {
            let frame = encode_write(address, value);
            let (frame_error, data) = decode_response(frame);
            assert!(!frame_error, "a write frame has bit 15 clear");
            assert_eq!(data, value);
            assert_eq!((frame >> 11) & 0x0F, address as u16);
        }
    }
}

#[test]
fn decode_masks_out_unused_bits() {
    let (frame_error, data) = decode_response(0xFFFF);
    assert!(frame_error);
    assert_eq!(data, 0x07FF);

    let (frame_error, data) = decode_response(0x0401);
    assert!(!frame_error);
    assert_eq!(data, 0x0401);

    let (frame_error, data) = decode_response(0x8003);
    assert!(frame_error);
    assert_eq!(data, 0x0003);

    let (frame_error, data) = decode_response(0x7FFF);
    assert!(!frame_error, "only bit 15 is the frame-error flag");
    assert_eq!(data, 0x07FF);
}

#[test]
fn byte_order_is_big_endian() {
    assert_eq!(frame_to_be_bytes(0x1234), [0x12, 0x34]);
    assert_eq!(frame_to_be_bytes(0x8000), [0x80, 0x00]);
    assert_eq!(frame_to_be_bytes(0x00FF), [0x00, 0xFF]);
    assert_eq!(frame_from_be_bytes([0x12, 0x34]), 0x1234);
    assert_eq!(frame_from_be_bytes([0xAB, 0xCD]), 0xABCD);
    for frame in [0u16, 1, 0x8000, 0x1040, 0xFFFF] {
        assert_eq!(frame_from_be_bytes(frame_to_be_bytes(frame)), frame);
    }
}
