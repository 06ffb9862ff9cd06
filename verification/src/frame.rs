//! The wire frame and its two encoders.
//!
//! A frame is a start marker, five more header bytes, the payload, and a
//! checksum over everything but the marker, low byte first:
//!
//! | offset | field          | size |
//! |--------|----------------|------|
//! | 0      | start marker   | 1    |
//! | 1      | payload length | 1    |
//! | 2      | sequence       | 1    |
//! | 3      | system id      | 1    |
//! | 4      | component id   | 1    |
//! | 5      | message id     | 1    |
//! | 6      | payload        | N    |
//! | 6 + N  | checksum       | 2    |

use vstd::prelude::*;
use vstd::slice::slice_subrange;
use crate::buffer::{FRAME_CAPACITY, buffer_as_slice, buffer_bytes, buffer_extend, buffer_new, buffer_set};
use crate::crc::{calculate_crc, crc16};
use crate::sequence::{get_next_sequence_number, sequence_after, SequenceCounter};

verus! {

/// The first byte of every frame.
pub const START_MARKER: u8 = 0xFE;

/// The system that the frames come from.
pub const SYSTEM_ID: u8 = 1;

/// The component of that system that the frames come from.
pub const COMPONENT_ID: u8 = 1;

/// The message id of a heartbeat.
pub const HEARTBEAT_MSG_ID: u8 = 0;

/// The message id of an attitude report.
pub const ATTITUDE_MSG_ID: u8 = 30;

/// The payload length of a heartbeat.
pub const HEARTBEAT_PAYLOAD_LEN: u8 = 9;

/// The payload length of an attitude report.
pub const ATTITUDE_PAYLOAD_LEN: u8 = 28;

/// The bytes before the payload.
pub const HEADER_LEN: usize = 6;

/// The bytes after the payload.
pub const TRAILER_LEN: usize = 2;

/// The two bytes of `value`, low byte first.
pub open spec fn le_bytes_u16(value: u16) -> Seq<u8> {
    seq![(value & 0xff) as u8, ((value >> 8) & 0xff) as u8]
}

/// The four bytes of `value`, low byte first.
pub open spec fn le_bytes_u32(value: u32) -> Seq<u8> {
    seq![
        (value & 0xff) as u8,
        ((value >> 8) & 0xff) as u8,
        ((value >> 16) & 0xff) as u8,
        ((value >> 24) & 0xff) as u8,
    ]
}

/// `count` zero bytes.
pub open spec fn zero_bytes(count: nat) -> Seq<u8> {
    Seq::new(count, |i: int| 0u8)
}

/// The six header bytes of a frame whose payload has `payload_len` bytes.
pub open spec fn frame_header(payload_len: u8, sequence: u8, message_id: u8) -> Seq<u8> {
    seq![0xFEu8, payload_len, sequence, 1u8, 1u8, message_id]
}

/// The whole frame: header, payload, and the checksum of both without the
/// start marker, low byte first.
pub open spec fn frame_bytes(sequence: u8, message_id: u8, payload: Seq<u8>) -> Seq<u8> {
    let body = frame_header(payload.len() as u8, sequence, message_id) + payload;
    body + le_bytes_u16(crc16(body.skip(1)))
}

/// The payload of a heartbeat: type, autopilot, base mode, four bytes of
/// custom mode and the system status, all zero.
pub open spec fn heartbeat_payload() -> Seq<u8> {
    zero_bytes(9)
}

/// The payload of an attitude report: the time since boot, then roll, pitch
/// and yaw in that order, each four bytes low byte first, then twelve zero
/// bytes where the angular velocities would stand.
pub open spec fn attitude_payload(time_boot_ms: u32, attitude: Attitude) -> Seq<u8> {
    le_bytes_u32(time_boot_ms) + le_bytes_u32(attitude.roll) + le_bytes_u32(attitude.pitch)
        + le_bytes_u32(attitude.yaw) + zero_bytes(12)
}

/// What holds of every frame: it starts with the marker, its length byte
/// counts the payload exactly, so that the whole is eight bytes longer than
/// the payload, and its last two bytes are the checksum of the bytes from the
/// length byte to the end of the payload, low byte first.
pub open spec fn is_frame(bytes: Seq<u8>) -> bool {
    &&& bytes.len() >= 8
    &&& bytes[0] == 0xFE
    &&& bytes.len() == 6 + bytes[1] + 2
    &&& bytes.subrange(6 + bytes[1], bytes.len() as int) == le_bytes_u16(
        crc16(bytes.subrange(1, 6 + bytes[1])),
    )
}

/// The orientation that an attitude report carries. Each angle is held as
/// the bit pattern of a 32-bit IEEE 754 number of radians, which is what goes
/// on the wire.
#[derive(Clone, Copy, Debug, PartialEq, Eq, Structural)]
pub struct Attitude {
    pub pitch: u32,
    pub roll: u32,
    pub yaw: u32,
}

/// A complete frame, ready to be sent.
pub struct Frame {
    bytes: heapless::Vec<u8, FRAME_CAPACITY>,
}

impl View for Frame {
    type V = Seq<u8>;

    closed spec fn view(&self) -> Seq<u8> {
        buffer_bytes(self.bytes)
    }
}

impl Frame {
    /// Every frame is well formed: no other can be made.
    #[verifier::type_invariant]
    closed spec fn well_formed(self) -> bool {
        is_frame(buffer_bytes(self.bytes))
    }

    /// The frame's bytes as they go on the wire. They are well formed,
    /// whichever frame this is.
    pub fn as_slice(&self) -> (bytes: &[u8])
        ensures
            bytes@ == self@,
            is_frame(bytes@),
    {
        proof {
            use_type_invariant(self);
        }
        buffer_as_slice(&self.bytes)
    }

    /// The number of bytes in the frame: the payload's and eight more.
    pub fn len(&self) -> (len: usize)
        ensures
            len == self@.len(),
            len == 6 + self@[1] + 2,
    {
        proof {
            use_type_invariant(self);
        }
        buffer_as_slice(&self.bytes).len()
    }

    /// The sequence number that the frame carries.
    pub fn sequence(&self) -> (sequence: u8)
        ensures
            sequence == self@[2],
    {
        proof {
            use_type_invariant(self);
        }
        buffer_as_slice(&self.bytes)[2]
    }
}

/// The two bytes of `value`, low byte first.
pub fn u16_le_bytes(value: u16) -> (bytes: [u8; 2])
    ensures
        bytes@ == le_bytes_u16(value),
{
    let low: u8 = (value & 0xff) as u8;
    let high: u8 = ((value >> 8) & 0xff) as u8;
    let bytes: [u8; 2] = [low, high];
    assert(bytes@ =~= le_bytes_u16(value));
    bytes
}

/// The four bytes of `value`, low byte first.
pub fn u32_le_bytes(value: u32) -> (bytes: [u8; 4])
    ensures
        bytes@ == le_bytes_u32(value),
{
    let b0: u8 = (value & 0xff) as u8;
    let b1: u8 = ((value >> 8) & 0xff) as u8;
    let b2: u8 = ((value >> 16) & 0xff) as u8;
    let b3: u8 = ((value >> 24) & 0xff) as u8;
    let bytes: [u8; 4] = [b0, b1, b2, b3];
    assert(bytes@ =~= le_bytes_u32(value));
    bytes
}

/// A frame body with its sequence byte set and its checksum appended.
pub open spec fn sealed(body: Seq<u8>, sequence: u8) -> Seq<u8> {
    let numbered = body.update(2, sequence);
    numbered + le_bytes_u16(crc16(numbered.skip(1)))
}

/// Finishes a frame whose header and payload are in `buffer`: the sequence
/// byte takes the counter's next number, and the checksum of everything after
/// the start marker is appended.
fn seal_frame(buffer: heapless::Vec<u8, FRAME_CAPACITY>, counter: &mut SequenceCounter) -> (frame: Frame)
    requires
        6 <= buffer_bytes(buffer).len() <= 34,
        buffer_bytes(buffer)[0] == 0xFE,
        buffer_bytes(buffer)[1] == buffer_bytes(buffer).len() - 6,
    ensures
        final(counter).last() == sequence_after(old(counter).last()),
        frame@ == sealed(buffer_bytes(buffer), sequence_after(old(counter).last())),
{
    let mut buffer = buffer;
    let number: u8 = get_next_sequence_number(counter);
    buffer_set(&mut buffer, 2, number);
    let held: &[u8] = buffer_as_slice(&buffer);
    let crc: u16 = calculate_crc(slice_subrange(held, 1, held.len()));
    assert(held@.subrange(1, held@.len() as int) =~= held@.skip(1));
    let trailer: [u8; 2] = u16_le_bytes(crc);
    let fitted = buffer_extend(&mut buffer, trailer.as_slice());
    assert(fitted.is_ok());
    proof {
        let whole = buffer_bytes(buffer);
        assert(whole.subrange(1, 6 + whole[1] as int) =~= held@.skip(1));
        assert(whole.subrange(6 + whole[1] as int, whole.len() as int) =~= trailer@);
    }
    Frame { bytes: buffer }
}

/// Encodes a heartbeat. The frame takes the counter's next number; its
/// payload is nine zero bytes.
pub fn encode_heartbeat(counter: &mut SequenceCounter) -> (frame: Frame)
    ensures
        final(counter).last() == sequence_after(old(counter).last()),
        frame@ == frame_bytes(
            sequence_after(old(counter).last()),
            HEARTBEAT_MSG_ID,
            heartbeat_payload(),
        ),
        is_frame(frame@),
        frame@.len() == 17,
{
    let mut buffer = buffer_new();
    let start: [u8; 15] = [
        START_MARKER,
        HEARTBEAT_PAYLOAD_LEN,
        0,
        SYSTEM_ID,
        COMPONENT_ID,
        HEARTBEAT_MSG_ID,
        0,
        0,
        0,
        0,
        0,
        0,
        0,
        0,
        0,
    ];
    let fitted = buffer_extend(&mut buffer, start.as_slice());
    assert(fitted.is_ok());
    let frame = seal_frame(buffer, counter);
    proof {
        let number = sequence_after(old(counter).last());
        assert(start@.update(2, number) =~= frame_header(9, number, 0) + heartbeat_payload());
        frame_bytes_is_frame(number, HEARTBEAT_MSG_ID, heartbeat_payload());
    }
    frame
}

/// Encodes an attitude report. The frame takes the counter's next number;
/// its payload holds the time since boot, then roll, pitch and yaw in that
/// order, then twelve zero bytes.
pub fn encode_attitude(counter: &mut SequenceCounter, time_boot_ms: u32, attitude: &Attitude) -> (frame:
    Frame)
    ensures
        final(counter).last() == sequence_after(old(counter).last()),
        frame@ == frame_bytes(
            sequence_after(old(counter).last()),
            ATTITUDE_MSG_ID,
            attitude_payload(time_boot_ms, *attitude),
        ),
        is_frame(frame@),
        frame@.len() == 36,
{
    let mut buffer = buffer_new();
    let header: [u8; 6] = [
        START_MARKER,
        ATTITUDE_PAYLOAD_LEN,
        0,
        SYSTEM_ID,
        COMPONENT_ID,
        ATTITUDE_MSG_ID,
    ];
    let fitted = buffer_extend(&mut buffer, header.as_slice());
    assert(fitted.is_ok());
    let time: [u8; 4] = u32_le_bytes(time_boot_ms);
    let fitted = buffer_extend(&mut buffer, time.as_slice());
    assert(fitted.is_ok());
    let roll: [u8; 4] = u32_le_bytes(attitude.roll);
    let fitted = buffer_extend(&mut buffer, roll.as_slice());
    assert(fitted.is_ok());
    let pitch: [u8; 4] = u32_le_bytes(attitude.pitch);
    let fitted = buffer_extend(&mut buffer, pitch.as_slice());
    assert(fitted.is_ok());
    let yaw: [u8; 4] = u32_le_bytes(attitude.yaw);
    let fitted = buffer_extend(&mut buffer, yaw.as_slice());
    assert(fitted.is_ok());
    let rates: [u8; 12] = [0, 0, 0, 0, 0, 0, 0, 0, 0, 0, 0, 0];
    let fitted = buffer_extend(&mut buffer, rates.as_slice());
    assert(fitted.is_ok());
    assert(rates@ =~= zero_bytes(12));
    let ghost body = buffer_bytes(buffer);
    let frame = seal_frame(buffer, counter);
    proof {
        let number = sequence_after(old(counter).last());
        let payload = attitude_payload(time_boot_ms, *attitude);
        assert(body =~= header@ + payload);
        assert(body.update(2, number) =~= frame_header(28, number, 30) + payload);
        frame_bytes_is_frame(number, ATTITUDE_MSG_ID, payload);
    }
    frame
}

/// Every frame that `frame_bytes` describes is well formed, whatever its
/// sequence number, message id and payload: the length byte is the exact
/// count of payload bytes, the whole is `6 + payload + 2` bytes long, and the
/// two bytes after the payload are the checksum of bytes 1 up to the end of
/// the payload, low byte first.
pub proof fn frame_bytes_is_frame(sequence: u8, message_id: u8, payload: Seq<u8>)
    requires
        payload.len() <= 255,
    ensures
        is_frame(frame_bytes(sequence, message_id, payload)),
        frame_bytes(sequence, message_id, payload)[1] == payload.len(),
        frame_bytes(sequence, message_id, payload).len() == 6 + payload.len() + 2,
        frame_bytes(sequence, message_id, payload).subrange(6, 6 + payload.len() as int) == payload,
        frame_bytes(sequence, message_id, payload).subrange(
            6 + payload.len() as int,
            8 + payload.len() as int,
        ) == le_bytes_u16(
            crc16(frame_bytes(sequence, message_id, payload).subrange(1, 6 + payload.len() as int)),
        ),
{
    let body = frame_header(payload.len() as u8, sequence, message_id) + payload;
    let whole = frame_bytes(sequence, message_id, payload);
    let trailer = le_bytes_u16(crc16(body.skip(1)));
    assert(whole == body + trailer);
    assert(whole.subrange(1, 6 + payload.len() as int) =~= body.skip(1));
    assert(whole.subrange(6 + payload.len() as int, whole.len() as int) =~= trailer);
    assert(whole.subrange(6, 6 + payload.len() as int) =~= payload);
}

} // verus!
