//! The fixed-capacity byte buffer that a frame is assembled in.

use vstd::prelude::*;

verus! {

/// The largest frame: six header bytes, twenty-eight of payload, two of
/// checksum.
pub const FRAME_CAPACITY: usize = 36;

/// `heapless::Vec`, a vector of fixed capacity kept in place. Nothing inside
/// it is visible here: what it holds is known only through `buffer_bytes`.
#[verifier::external_type_specification]
#[verifier::external_body]
#[verifier::reject_recursive_types(T)]
pub struct ExHeaplessVec<T, const N: usize>(heapless::Vec<T, N>);

/// The bytes that a frame buffer holds, first to last.
pub uninterp spec fn buffer_bytes(buffer: heapless::Vec<u8, FRAME_CAPACITY>) -> Seq<u8>;

/// `heapless::Vec::new`: a buffer that holds nothing.
#[verifier::external_body]
pub(crate) fn buffer_new() -> (buffer: heapless::Vec<u8, FRAME_CAPACITY>)
    ensures
        buffer_bytes(buffer) == Seq::<u8>::empty(),
{
    heapless::Vec::new()
}

/// `heapless::Vec::extend_from_slice`: where `bytes` fit beside what the
/// buffer holds they are appended in order and `Ok` comes back; where they do
/// not the buffer is left as it was and `Err` comes back.
#[verifier::external_body]
pub(crate) fn buffer_extend(
    buffer: &mut heapless::Vec<u8, FRAME_CAPACITY>,
    bytes: &[u8],
) -> (fitted: Result<(), ()>)
    ensures
        fitted.is_ok() <==> buffer_bytes(*old(buffer)).len() + bytes@.len() <= FRAME_CAPACITY,
        fitted.is_ok() ==> buffer_bytes(*final(buffer)) == buffer_bytes(*old(buffer)) + bytes@,
        fitted.is_err() ==> buffer_bytes(*final(buffer)) == buffer_bytes(*old(buffer)),
{
    buffer.extend_from_slice(bytes)
}

/// `heapless::Vec::as_mut_slice`, then a store into the slice: the byte at
/// `index` becomes `byte`, the others stay.
#[verifier::external_body]
pub(crate) fn buffer_set(buffer: &mut heapless::Vec<u8, FRAME_CAPACITY>, index: usize, byte: u8)
    requires
        index < buffer_bytes(*old(buffer)).len(),
    ensures
        buffer_bytes(*final(buffer)) == buffer_bytes(*old(buffer)).update(index as int, byte),
{
    buffer.as_mut_slice()[index] = byte;
}

/// `heapless::Vec::as_slice`: the bytes held, as a slice.
#[verifier::external_body]
pub(crate) fn buffer_as_slice(buffer: &heapless::Vec<u8, FRAME_CAPACITY>) -> (bytes: &[u8])
    ensures
        bytes@ == buffer_bytes(*buffer),
{
    buffer.as_slice()
}

} // verus!
