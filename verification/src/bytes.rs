use vstd::prelude::*;

verus! {

/// The little-endian `u16` stored at `at` in `s`.
pub open spec fn le_u16(s: Seq<u8>, at: int) -> u16 {
    (s[at] as u16) | ((s[at + 1] as u16) << 8u16)
}

/// The little-endian `u32` stored at `at` in `s`.
pub open spec fn le_u32(s: Seq<u8>, at: int) -> u32 {
    (s[at] as u32) | ((s[at + 1] as u32) << 8u32) | ((s[at + 2] as u32) << 16u32) | ((s[at + 3] as u32)
        << 24u32)
}

/// The little-endian `u64` stored at `at` in `s`.
pub open spec fn le_u64(s: Seq<u8>, at: int) -> u64 {
    (le_u32(s, at) as u64) | ((le_u32(s, at + 4) as u64) << 32u64)
}

/// Reads the little-endian `u32` at `at`.
pub fn read_u32_le(bytes: &[u8], at: usize) -> (v: u32)
    requires
        at + 4 <= bytes@.len(),
    ensures
        v == le_u32(bytes@, at as int),
{
    (bytes[at] as u32) | ((bytes[at + 1] as u32) << 8u32) | ((bytes[at + 2] as u32) << 16u32) | ((
    bytes[at + 3] as u32) << 24u32)
}

/// Reads the little-endian `u64` at `at`.
pub fn read_u64_le(bytes: &[u8], at: usize) -> (v: u64)
    requires
        at + 8 <= bytes@.len(),
    ensures
        v == le_u64(bytes@, at as int),
{
    let _ = bytes.len();
    let low = read_u32_le(bytes, at) as u64;
    let high = read_u32_le(bytes, at + 4) as u64;
    low | (high << 32u64)
}

/// Whether every byte of `s` in `[start, end)` is zero.
pub open spec fn all_zero(s: Seq<u8>, start: int, end: int) -> bool {
    forall|i: int| start <= i < end ==> s[i] == 0
}

/// Tests whether every byte of `bytes` in `[start, end)` is zero.
pub fn is_all_zero(bytes: &[u8], start: usize, end: usize) -> (r: bool)
    requires
        start <= end <= bytes@.len(),
    ensures
        r == all_zero(bytes@, start as int, end as int),
{
    let mut i = start;
    while i < end
        invariant
            start <= i <= end <= bytes@.len(),
            all_zero(bytes@, start as int, i as int),
        decreases end - i,
    {
        if bytes[i] != 0 {
            return false;
        }
        i = i + 1;
    }
    true
}

} // verus!
