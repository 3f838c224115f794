//! Frame codec: pure bit packing and unpacking of the 16-bit command and
//! response frames that travel over the SPI bus.
//!
//! A command frame is laid out as `bit 15 = operation (1 = read, 0 = write)`,
//! `bits 14..11 = register address`, `bits 10..0 = payload`. A response frame
//! carries `bit 15 = frame-error flag` and `bits 10..0 = register data`.
//! Frames are transmitted big-endian, most significant byte first.

use vstd::prelude::*;

verus! {

/// The command frame that requests a read of the register at `address`.
/// The payload bits are don't-care on the wire but are forced to zero
/// so that encoding is deterministic.
pub open spec fn spec_read_frame(address: u8) -> u16 {
    0x8000u16 | (((address as u16) & 0x0F) << 11)
}

/// The command frame that writes `value` to the register at `address`.
pub open spec fn spec_write_frame(address: u8, value: u16) -> u16 {
    (((address as u16) & 0x0F) << 11) | (value & 0x07FF)
}

/// The frame-error flag of a response frame (bit 15).
pub open spec fn spec_frame_error(frame: u16) -> bool {
    frame & 0x8000 != 0
}

/// The 11 data bits of a response frame.
pub open spec fn spec_frame_data(frame: u16) -> u16 {
    frame & 0x07FF
}

/// The register address carried in bits 14..11 of a command frame.
pub open spec fn spec_frame_address(frame: u16) -> u8 {
    ((frame >> 11) & 0x0F) as u8
}

/// Encode a read command for the register at `address`.
#[verifier::when_used_as_spec(spec_read_frame)]
pub fn encode_read(address: u8) -> (frame: u16)
    requires
        address < 16,
    ensures
        frame == spec_read_frame(address),
{
    0x8000u16 | (((address as u16) & 0x0F) << 11)
}

/// Encode a write command that stores the 11-bit `value` in the register at
/// `address`.
#[verifier::when_used_as_spec(spec_write_frame)]
pub fn encode_write(address: u8, value: u16) -> (frame: u16)
    requires
        address < 16,
        value < 0x800,
    ensures
        frame == spec_write_frame(address, value),
{
    (((address as u16) & 0x0F) << 11) | (value & 0x07FF)
}

/// Split a response frame into its frame-error flag and its 11 data bits.
pub fn decode_response(frame: u16) -> (r: (bool, u16))
    ensures
        r.0 == spec_frame_error(frame),
        r.1 == spec_frame_data(frame),
        r.1 < 0x800,
{
    proof {
        assert(frame & 0x07FF < 0x800) by (bit_vector);
    }
    ((frame & 0x8000) != 0, frame & 0x07FF)
}

/// A read command always has its payload bits zero and its operation bit set.
pub proof fn lemma_read_frame_shape(address: u8)
    by (bit_vector)
    ensures
        spec_frame_data(spec_read_frame(address)) == 0,
        spec_frame_error(spec_read_frame(address)),
        address < 16 ==> spec_frame_address(spec_read_frame(address)) == address,
{
}

/// Codec invertibility: a write frame, if it came back unchanged as a
/// response, decodes to the address and value it was built from, and its
/// frame-error bit is clear.
pub proof fn lemma_write_frame_round_trip(address: u8, value: u16)
    by (bit_vector)
    requires
        address < 16,
        value < 0x800,
    ensures
        !spec_frame_error(spec_write_frame(address, value)),
        spec_frame_data(spec_write_frame(address, value)) == value,
        spec_frame_address(spec_write_frame(address, value)) == address,
{
}

/// The big-endian byte image of a frame: most significant byte first.
pub open spec fn spec_frame_hi_byte(frame: u16) -> u8 {
    (frame >> 8) as u8
}

/// The low byte of a frame, transmitted second.
pub open spec fn spec_frame_lo_byte(frame: u16) -> u8 {
    (frame & 0xFF) as u8
}

/// The frame whose big-endian byte image is `hi`, `lo`.
pub open spec fn spec_frame_from_bytes(hi: u8, lo: u8) -> u16 {
    ((hi as u16) << 8) | (lo as u16)
}

/// Serialise a frame into the two bytes that go on the wire, in transmission
/// order (big-endian).
pub fn frame_to_be_bytes(frame: u16) -> (bytes: [u8; 2])
    ensures
        bytes[0] == spec_frame_hi_byte(frame),
        bytes[1] == spec_frame_lo_byte(frame),
{
    proof {
        assert(frame >> 8 < 256) by (bit_vector);
        assert(frame & 0xFF < 256) by (bit_vector);
    }
    [(frame >> 8) as u8, (frame & 0xFF) as u8]
}

/// Reassemble a frame from its two wire bytes, in transmission order.
pub fn frame_from_be_bytes(bytes: [u8; 2]) -> (frame: u16)
    ensures
        frame == spec_frame_from_bytes(bytes[0], bytes[1]),
{
    ((bytes[0] as u16) << 8) | (bytes[1] as u16)
}

/// The byte layer is invertible: serialising a frame and reassembling the
/// bytes yields the frame again.
pub proof fn lemma_be_bytes_round_trip(frame: u16)
    by (bit_vector)
    ensures
        spec_frame_from_bytes(spec_frame_hi_byte(frame), spec_frame_lo_byte(frame)) == frame,
{
}

} // verus!
