//! Orderings of IEEE-754 numbers given by their bit patterns.
//!
//! Prices, similarities and thresholds cross into the library as bit patterns
//! (`to_bits` of the 64- and 32-bit IEEE types). The library never computes
//! with them; it only orders and compares them, and that is done here.
use vstd::prelude::*;

verus! {

/// Sign bit of a binary64 pattern.
pub open spec fn sign64() -> int {
    0x8000_0000_0000_0000
}

/// Sign bit of a binary32 pattern.
pub open spec fn sign32() -> int {
    0x8000_0000
}

/// Unsigned key whose numeric order is the IEEE-754 `totalOrder` of binary64
/// values (std's `total_cmp`): negative patterns have all bits flipped,
/// non-negative ones get the sign bit set.
pub open spec fn key64(bits: u64) -> int {
    if bits >= sign64() {
        0xFFFF_FFFF_FFFF_FFFF - bits
    } else {
        bits + sign64()
    }
}

/// Unsigned key whose numeric order is the IEEE-754 `totalOrder` of binary32
/// values.
pub open spec fn key32(bits: u32) -> int {
    if bits >= sign32() {
        0xFFFF_FFFF - bits
    } else {
        bits + sign32()
    }
}

/// The magnitude bits of a binary32 pattern (the pattern without its sign).
pub open spec fn magnitude32(bits: u32) -> int {
    if bits >= sign32() {
        bits - sign32()
    } else {
        bits as int
    }
}

/// A binary32 pattern that encodes NaN: all exponent bits set and a non-zero
/// fraction.
pub open spec fn is_nan32(bits: u32) -> bool {
    magnitude32(bits) > 0x7F80_0000
}

/// A binary32 pattern that encodes +0 or -0.
pub open spec fn is_zero32(bits: u32) -> bool {
    magnitude32(bits) == 0
}

/// The IEEE-754 comparison `a >= b` on binary32 values (std's `>=`): false
/// when either side is NaN, true between the two zeros, otherwise the order of
/// the values.
pub open spec fn ge32(a: u32, b: u32) -> bool {
    &&& !is_nan32(a)
    &&& !is_nan32(b)
    &&& (is_zero32(a) && is_zero32(b)) || key32(a) >= key32(b)
}

/// The `totalOrder` key of a binary64 pattern.
pub fn order_key64(bits: u64) -> (k: u64)
    ensures
        k == key64(bits),
{
    if bits >= 0x8000_0000_0000_0000 {
        0xFFFF_FFFF_FFFF_FFFF - bits
    } else {
        bits + 0x8000_0000_0000_0000
    }
}

/// The `totalOrder` key of a binary32 pattern.
pub fn order_key32(bits: u32) -> (k: u32)
    ensures
        k == key32(bits),
{
    if bits >= 0x8000_0000 {
        0xFFFF_FFFF - bits
    } else {
        bits + 0x8000_0000
    }
}

/// IEEE-754 `a >= b` on binary32 patterns (see [`ge32`]).
pub fn at_least32(a: u32, b: u32) -> (r: bool)
    ensures
        r == ge32(a, b),
{
    let ma: u32 = if a >= 0x8000_0000 { a - 0x8000_0000 } else { a };
    let mb: u32 = if b >= 0x8000_0000 { b - 0x8000_0000 } else { b };
    if ma > 0x7F80_0000 || mb > 0x7F80_0000 {
        return false;
    }
    (ma == 0 && mb == 0) || order_key32(a) >= order_key32(b)
}

/// The binary64 keys order patterns without ties: distinct patterns have
/// distinct keys, so sorting by key is sorting by `totalOrder`.
pub proof fn key64_injective(a: u64, b: u64)
    ensures
        key64(a) == key64(b) <==> a == b,
        0 <= key64(a) <= 0xFFFF_FFFF_FFFF_FFFF,
{
}

/// Negative patterns order below non-negative ones, and among non-negative
/// patterns the order is that of the bits (so larger magnitudes rank higher).
pub proof fn key64_sign_order(a: u64, b: u64)
    ensures
        a >= sign64() && b < sign64() ==> key64(a) < key64(b),
        a < sign64() && b < sign64() ==> (key64(a) <= key64(b) <==> a <= b),
        a >= sign64() && b >= sign64() ==> (key64(a) <= key64(b) <==> a >= b),
{
}

} // verus!
