//! Little-endian integers and comparison of byte strings.

use vstd::prelude::*;

verus! {

/// The number that two bytes encode, least significant byte first.
pub open spec fn u16_le(bytes: Seq<u8>) -> nat
    recommends
        bytes.len() == 2,
{
    (bytes[0] + bytes[1] * 0x100) as nat
}

/// The number that four bytes encode, least significant byte first.
pub open spec fn u32_le(bytes: Seq<u8>) -> nat
    recommends
        bytes.len() == 4,
{
    (bytes[0] + bytes[1] * 0x100 + bytes[2] * 0x1_0000 + bytes[3] * 0x100_0000) as nat
}

/// The number that eight bytes encode, least significant byte first.
pub open spec fn u64_le(bytes: Seq<u8>) -> nat
    recommends
        bytes.len() == 8,
{
    u32_le(bytes.subrange(0, 4)) + 0x1_0000_0000 * u32_le(bytes.subrange(4, 8))
}

/// Reads the 16-bit number that starts at `at`.
pub fn read_u16_le(bytes: &[u8], at: usize) -> (out: u16)
    requires
        at + 2 <= bytes.len(),
    ensures
        out == u16_le(bytes@.subrange(at as int, at + 2)),
{
    let low: u16 = bytes[at] as u16;
    let high: u16 = bytes[at + 1] as u16;
    low + high * 0x100
}

/// Reads the 32-bit number that starts at `at`.
pub fn read_u32_le(bytes: &[u8], at: usize) -> (out: u32)
    requires
        at + 4 <= bytes.len(),
    ensures
        out == u32_le(bytes@.subrange(at as int, at + 4)),
{
    let b0: u32 = bytes[at] as u32;
    let b1: u32 = bytes[at + 1] as u32;
    let b2: u32 = bytes[at + 2] as u32;
    let b3: u32 = bytes[at + 3] as u32;
    b0 + b1 * 0x100 + b2 * 0x1_0000 + b3 * 0x100_0000
}

/// Reads the 64-bit number that starts at `at`.
pub fn read_u64_le(bytes: &[u8], at: usize) -> (out: u64)
    requires
        at + 8 <= bytes.len(),
    ensures
        out == u64_le(bytes@.subrange(at as int, at + 8)),
{
    let low: u64 = read_u32_le(bytes, at) as u64;
    let high: u64 = read_u32_le(bytes, at + 4) as u64;
    proof {
        let all = bytes@.subrange(at as int, at + 8);
        assert(all.subrange(0, 4) =~= bytes@.subrange(at as int, at + 4));
        assert(all.subrange(4, 8) =~= bytes@.subrange(at + 4, at + 8));
    }
    low + high * 0x1_0000_0000
}

/// Whether two byte strings have the same length and the same bytes.
pub fn slices_equal(left: &[u8], right: &[u8]) -> (same: bool)
    ensures
        same == (left@ == right@),
{
    if left.len() != right.len() {
        return false;
    }
    let mut i: usize = 0;
    while i < left.len()
        invariant
            i <= left@.len(),
            left@.len() == right@.len(),
            forall|j: int| 0 <= j < i ==> left@[j] == right@[j],
        decreases left@.len() - i,
    {
        if left[i] != right[i] {
            return false;
        }
        i += 1;
    }
    assert(left@ =~= right@);
    true
}

/// Whether every byte is zero.
pub open spec fn all_zero(bytes: Seq<u8>) -> bool {
    forall|i: int| 0 <= i < bytes.len() ==> bytes[i] == 0
}

} // verus!
