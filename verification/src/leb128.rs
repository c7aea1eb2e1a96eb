//! The variable-length integer encodings of the WebAssembly binary format.

use vstd::prelude::*;

verus! {

/// Unsigned LEB128: seven bits per byte, least significant group first, the
/// top bit set on every byte but the last.
pub open spec fn uleb128(value: nat) -> Seq<u8>
    decreases value,
{
    if value < 128 {
        seq![value as u8]
    } else {
        seq![(value % 128 + 128) as u8] + uleb128(value / 128)
    }
}

/// Signed LEB128: as the unsigned form on the two's-complement digits, ending
/// at the first group whose sign bit already says what the rest would.
pub open spec fn sleb128(value: int) -> Seq<u8>
    decreases (if value >= 0 { value } else { -value }),
{
    let low = value % 128;
    let rest = (value - low) / 128;
    if (rest == 0 && low < 64) || (rest == -1 && low >= 64) {
        seq![low as u8]
    } else {
        seq![(low + 128) as u8] + sleb128(rest)
    }
}

/// Unsigned LEB128 on exactly five bytes, whatever the magnitude, so that the
/// field can be rewritten in place.
pub open spec fn padded_uleb128(value: u32) -> Seq<u8> {
    seq![
        (value % 128 + 128) as u8,
        ((value / 0x80) % 128 + 128) as u8,
        ((value / 0x4000) % 128 + 128) as u8,
        ((value / 0x20_0000) % 128 + 128) as u8,
        (value / 0x1000_0000) as u8,
    ]
}

/// The `count` low bytes of `value`, least significant first.
pub open spec fn le_bytes(value: nat, count: nat) -> Seq<u8>
    decreases count,
{
    if count == 0 {
        Seq::empty()
    } else {
        seq![(value % 256) as u8] + le_bytes(value / 256, (count - 1) as nat)
    }
}

} // verus!
