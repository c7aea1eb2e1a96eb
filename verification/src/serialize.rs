//! Byte buffers and the encoders that write into them.

use crate::arena::{arena_bytes, bytes_as_slice, bytes_push, bytes_set};
use crate::leb128::{le_bytes, padded_uleb128, sleb128, uleb128};
use bumpalo::collections::Vec as ArenaVec;
use vstd::prelude::*;

verus! {

/// A growable sequence of bytes.
pub trait SerialBuffer {
    /// The bytes written so far.
    spec fn bytes(&self) -> Seq<u8>;

    fn append_u8(&mut self, b: u8)
        ensures
            final(self).bytes() == old(self).bytes().push(b),
    ;

    fn overwrite_u8(&mut self, index: usize, b: u8)
        requires
            index < old(self).bytes().len(),
        ensures
            final(self).bytes() == old(self).bytes().update(index as int, b),
    ;

    fn append_slice(&mut self, b: &[u8])
        ensures
            final(self).bytes() == old(self).bytes() + b@,
    ;

    fn size(&self) -> (n: usize)
        ensures
            n == self.bytes().len(),
    ;
}

impl SerialBuffer for Vec<u8> {
    open spec fn bytes(&self) -> Seq<u8> {
        self@
    }

    fn append_u8(&mut self, b: u8) {
        self.push(b);
    }

    fn overwrite_u8(&mut self, index: usize, b: u8) {
        self[index] = b;
    }

    fn append_slice(&mut self, b: &[u8]) {
        let ghost start = self@;
        let mut i: usize = 0;
        while i < b.len()
            invariant
                i <= b.len(),
                self@ == start + b@.take(i as int),
            decreases b.len() - i,
        {
            self.push(b[i]);
            i += 1;
        }
        assert(b@.take(b.len() as int) == b@);
    }

    fn size(&self) -> (n: usize) {
        self.len()
    }
}

impl<'a> SerialBuffer for ArenaVec<'a, u8> {
    open spec fn bytes(&self) -> Seq<u8> {
        arena_bytes(self)
    }

    fn append_u8(&mut self, b: u8) {
        bytes_push(self, b);
    }

    fn overwrite_u8(&mut self, index: usize, b: u8) {
        bytes_set(self, index, b);
    }

    fn append_slice(&mut self, b: &[u8]) {
        let ghost start = arena_bytes(self);
        let mut i: usize = 0;
        while i < b.len()
            invariant
                i <= b.len(),
                arena_bytes(self) == start + b@.take(i as int),
            decreases b.len() - i,
        {
            bytes_push(self, b[i]);
            i += 1;
        }
        assert(b@.take(b.len() as int) == b@);
    }

    fn size(&self) -> (n: usize) {
        bytes_as_slice(self).len()
    }
}

/// Appends the unsigned LEB128 encoding of `value`.
pub fn encode_u32<T: SerialBuffer>(buffer: &mut T, value: u32)
    ensures
        final(buffer).bytes() == old(buffer).bytes() + uleb128(value as nat),
{
    let ghost start = buffer.bytes();
    let mut x: u32 = value;
    while x >= 128
        invariant
            start + uleb128(value as nat) == buffer.bytes() + uleb128(x as nat),
        decreases x,
    {
        let ghost before = buffer.bytes();
        let byte: u8 = (x % 128 + 128) as u8;
        buffer.append_u8(byte);
        assert(before + uleb128(x as nat) == before.push(byte) + uleb128((x / 128) as nat));
        x = x / 128;
    }
    let ghost before = buffer.bytes();
    buffer.append_u8(x as u8);
    assert(before + uleb128(x as nat) == before.push(x as u8));
}

/// Appends the signed LEB128 encoding of `value`.
pub fn encode_i64<T: SerialBuffer>(buffer: &mut T, value: i64)
    ensures
        final(buffer).bytes() == old(buffer).bytes() + sleb128(value as int),
{
    let ghost start = buffer.bytes();
    let mut x: i64 = value;
    loop
        invariant_except_break
            start + sleb128(value as int) == buffer.bytes() + sleb128(x as int),
        ensures
            buffer.bytes() == start + sleb128(value as int),
        decreases (if x >= 0 { x as int } else { -(x as int) }),
    {
        let ghost before = buffer.bytes();
        let low: u8;
        let rest: i64;
        if x >= 0 {
            low = (x % 128) as u8;
            rest = x / 128;
        } else {
            let m: i64 = -(x + 1);
            low = (127 - m % 128) as u8;
            rest = -(m / 128) - 1;
        }
        assert(low as int == (x as int) % 128);
        assert(rest as int == ((x as int) - (low as int)) / 128);
        if (rest == 0 && low < 64) || (rest == -1 && low >= 64) {
            buffer.append_u8(low);
            assert(before + sleb128(x as int) == before.push(low));
            break ;
        }
        let byte: u8 = low + 128;
        buffer.append_u8(byte);
        assert(before + sleb128(x as int) == before.push(byte) + sleb128(rest as int));
        x = rest;
    }
}

/// Appends the signed LEB128 encoding of `value`.
pub fn encode_i32<T: SerialBuffer>(buffer: &mut T, value: i32)
    ensures
        final(buffer).bytes() == old(buffer).bytes() + sleb128(value as int),
{
    encode_i64(buffer, value as i64);
}

/// Appends `value` as an unsigned LEB128 number padded to five bytes.
pub fn encode_padded_u32<T: SerialBuffer>(buffer: &mut T, value: u32)
    ensures
        final(buffer).bytes() == old(buffer).bytes() + padded_uleb128(value),
{
    let ghost start = buffer.bytes();
    buffer.append_u8((value % 128 + 128) as u8);
    buffer.append_u8(((value / 0x80) % 128 + 128) as u8);
    buffer.append_u8(((value / 0x4000) % 128 + 128) as u8);
    buffer.append_u8(((value / 0x20_0000) % 128 + 128) as u8);
    buffer.append_u8((value / 0x1000_0000) as u8);
    assert(buffer.bytes() == start + padded_uleb128(value));
}

/// Writes `value` as an unsigned LEB128 number padded to five bytes over the
/// five bytes that start at `index`.
pub fn overwrite_padded_u32<T: SerialBuffer>(buffer: &mut T, index: usize, value: u32)
    requires
        index + 5 <= old(buffer).bytes().len(),
    ensures
        final(buffer).bytes() == old(buffer).bytes().subrange(0, index as int) + padded_uleb128(
            value,
        ) + old(buffer).bytes().subrange(index + 5, old(buffer).bytes().len() as int),
{
    let ghost start = buffer.bytes();
    let len = buffer.size();
    assert(index + 5 <= len);
    buffer.overwrite_u8(index, (value % 128 + 128) as u8);
    buffer.overwrite_u8(index + 1, ((value / 0x80) % 128 + 128) as u8);
    buffer.overwrite_u8(index + 2, ((value / 0x4000) % 128 + 128) as u8);
    buffer.overwrite_u8(index + 3, ((value / 0x20_0000) % 128 + 128) as u8);
    buffer.overwrite_u8(index + 4, (value / 0x1000_0000) as u8);
    assert(buffer.bytes() == start.subrange(0, index as int) + padded_uleb128(value)
        + start.subrange(index + 5, start.len() as int));
}

/// Appends the four bytes of `value`, least significant first.
pub fn write_unencoded_u32<T: SerialBuffer>(buffer: &mut T, value: u32)
    ensures
        final(buffer).bytes() == old(buffer).bytes() + le_bytes(value as nat, 4),
{
    let ghost start = buffer.bytes();
    let mut x: u32 = value;
    let mut i: usize = 0;
    while i < 4
        invariant
            i <= 4,
            start + le_bytes(value as nat, 4) == buffer.bytes() + le_bytes(
                x as nat,
                (4 - i) as nat,
            ),
        decreases 4 - i,
    {
        let ghost before = buffer.bytes();
        let byte: u8 = (x % 256) as u8;
        buffer.append_u8(byte);
        assert(before + le_bytes(x as nat, (4 - i) as nat) == before.push(byte) + le_bytes(
            (x / 256) as nat,
            (3 - i) as nat,
        ));
        x = x / 256;
        i += 1;
    }
    assert(buffer.bytes() + le_bytes(x as nat, 0) == buffer.bytes());
}

/// Appends the eight bytes of `value`, least significant first.
pub fn write_unencoded_u64<T: SerialBuffer>(buffer: &mut T, value: u64)
    ensures
        final(buffer).bytes() == old(buffer).bytes() + le_bytes(value as nat, 8),
{
    let ghost start = buffer.bytes();
    let mut x: u64 = value;
    let mut i: usize = 0;
    while i < 8
        invariant
            i <= 8,
            start + le_bytes(value as nat, 8) == buffer.bytes() + le_bytes(
                x as nat,
                (8 - i) as nat,
            ),
        decreases 8 - i,
    {
        let ghost before = buffer.bytes();
        let byte: u8 = (x % 256) as u8;
        buffer.append_u8(byte);
        assert(before + le_bytes(x as nat, (8 - i) as nat) == before.push(byte) + le_bytes(
            (x / 256) as nat,
            (7 - i) as nat,
        ));
        x = x / 256;
        i += 1;
    }
    assert(buffer.bytes() + le_bytes(x as nat, 0) == buffer.bytes());
}

} // verus!
