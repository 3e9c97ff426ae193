//! Little-endian words in a byte sequence.

use byteorder::{ByteOrder, LittleEndian};
use vstd::prelude::*;
use vstd::slice::slice_subrange;

verus! {

/// The 32-bit value of the four bytes of `bytes` that start at `at`, the
/// least significant byte first.
pub open spec fn le_u32(bytes: Seq<u8>, at: int) -> u32
    recommends
        0 <= at,
        at + 4 <= bytes.len(),
{
    (bytes[at] + 0x100 * bytes[at + 1] + 0x1_0000 * bytes[at + 2] + 0x100_0000 * bytes[at
        + 3]) as u32
}

/// Calls `byteorder::LittleEndian::read_u32`. That function reads the first
/// four bytes of the buffer as a little-endian number and panics on a
/// buffer shorter than four bytes; the contract leaves such a buffer out
/// and states the number that is read. The contract is assumed, not
/// proved: it rests on what `byteorder` documents and does.
#[verifier::external_body]
fn read_u32_le(buf: &[u8]) -> (value: u32)
    requires
        buf@.len() >= 4,
    ensures
        value == le_u32(buf@, 0),
{
    LittleEndian::read_u32(buf)
}

/// The little-endian word of `bytes` that starts at `at`.
pub fn word_at(bytes: &[u8], at: usize) -> (value: u32)
    requires
        at + 4 <= bytes@.len(),
    ensures
        value == le_u32(bytes@, at as int),
{
    let len: usize = bytes.len();
    assert(at + 4 <= len);
    let part = slice_subrange(bytes, at, at + 4);
    read_u32_le(part)
}

} // verus!
