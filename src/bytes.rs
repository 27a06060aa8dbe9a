use vstd::prelude::*;

verus! {

/// The little-endian `u16` in `s` at `at`.
pub open spec fn u16_le(s: Seq<u8>, at: int) -> int {
    s[at] + s[at + 1] * 256
}

/// The little-endian `u32` in `s` at `at`.
pub open spec fn u32_le(s: Seq<u8>, at: int) -> int {
    s[at] + s[at + 1] * 0x100 + s[at + 2] * 0x1_0000 + s[at + 3] * 0x100_0000
}

/// The little-endian `u64` in `s` at `at`.
pub open spec fn u64_le(s: Seq<u8>, at: int) -> int {
    s[at] + s[at + 1] * 0x100 + s[at + 2] * 0x1_0000 + s[at + 3] * 0x100_0000 + s[at + 4]
        * 0x1_0000_0000 + s[at + 5] * 0x100_0000_0000 + s[at + 6] * 0x1_0000_0000_0000 + s[at
        + 7] * 0x100_0000_0000_0000
}

pub fn read_u16_le(s: &[u8], at: usize) -> (r: u16)
    requires
        at + 2 <= s@.len(),
    ensures
        r == u16_le(s@, at as int),
{
    s[at] as u16 + s[at + 1] as u16 * 256
}

pub fn read_u32_le(s: &[u8], at: usize) -> (r: u32)
    requires
        at + 4 <= s@.len(),
    ensures
        r == u32_le(s@, at as int),
{
    s[at] as u32 + s[at + 1] as u32 * 0x100 + s[at + 2] as u32 * 0x1_0000 + s[at + 3] as u32
        * 0x100_0000
}

pub fn read_u64_le(s: &[u8], at: usize) -> (r: u64)
    requires
        at + 8 <= s@.len(),
    ensures
        r == u64_le(s@, at as int),
{
    s[at] as u64 + s[at + 1] as u64 * 0x100 + s[at + 2] as u64 * 0x1_0000 + s[at + 3] as u64
        * 0x100_0000 + s[at + 4] as u64 * 0x1_0000_0000 + s[at + 5] as u64 * 0x100_0000_0000
        + s[at + 6] as u64 * 0x1_0000_0000_0000 + s[at + 7] as u64 * 0x100_0000_0000_0000
}

} // verus!
