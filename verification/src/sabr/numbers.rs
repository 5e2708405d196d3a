//! Integer conversions that keep the low bits.
use vstd::prelude::*;

verus! {

/// The signed 32-bit integer whose bits are the low 32 bits of `n`.
pub open spec fn low_i32(n: int) -> int {
    let m = n % 0x1_0000_0000;
    if m >= 0x8000_0000 {
        m - 0x1_0000_0000
    } else {
        m
    }
}

/// Keeps the low 32 bits of `n`.
pub fn truncate_i32(n: i64) -> (res: i32)
    ensures
        res == low_i32(n as int),
{
    let res = #[verifier::truncate] (n as i32);
    assert(res == low_i32(n as int)) by {
        assert(-0x8000_0000 <= n as i32 <= 0x7fff_ffff && (n - (n as i32)) % 0x1_0000_0000 == 0)
            by (bit_vector);
    }
    res
}

/// The unsigned 32-bit integer with the bits of `n`.
pub open spec fn bits_u32(n: int) -> int {
    if n < 0 {
        n + 0x1_0000_0000
    } else {
        n
    }
}

/// Keeps the bits of `n` as an unsigned integer.
pub fn reinterpret_u32(n: i32) -> (res: u32)
    ensures
        res == bits_u32(n as int),
{
    let res = #[verifier::truncate] (n as u32);
    assert(n < 0 ==> n as u32 == n + 0x1_0000_0000) by (bit_vector);
    assert(n >= 0 ==> n as u32 == n) by (bit_vector);
    res
}

} // verus!
