//! Integers and IEEE 754 patterns in byte buffers.

use vstd::prelude::*;

use crate::bits::{F32Bits, F64Bits};

verus! {

// ── Little-endian ──────────────────────────────────────────────────────

/// The little-endian 16-bit integer at offset `o` of `s`.
pub open spec fn u16_le_at(s: Seq<u8>, o: int) -> u16 {
    (s[o] + 0x100 * s[o + 1]) as u16
}

/// The little-endian 32-bit integer at offset `o` of `s`.
pub open spec fn u32_le_at(s: Seq<u8>, o: int) -> u32 {
    (s[o] + 0x100 * s[o + 1] + 0x1_0000 * s[o + 2] + 0x100_0000 * s[o + 3]) as u32
}

/// The little-endian 64-bit integer at offset `o` of `s`.
pub open spec fn u64_le_at(s: Seq<u8>, o: int) -> u64 {
    (u32_le_at(s, o) + 0x1_0000_0000 * u32_le_at(s, o + 4)) as u64
}

/// A 16-bit integer as little-endian bytes.
pub open spec fn u16_le(x: u16) -> Seq<u8> {
    seq![(x % 0x100) as u8, (x / 0x100) as u8]
}

/// A 32-bit integer as little-endian bytes.
pub open spec fn u32_le(x: u32) -> Seq<u8> {
    seq![
        (x % 0x100) as u8,
        (x / 0x100 % 0x100) as u8,
        (x / 0x1_0000 % 0x100) as u8,
        (x / 0x100_0000) as u8,
    ]
}

/// A 64-bit integer as little-endian bytes.
pub open spec fn u64_le(x: u64) -> Seq<u8> {
    u32_le((x % 0x1_0000_0000) as u32) + u32_le((x / 0x1_0000_0000) as u32)
}

// ── Big-endian ─────────────────────────────────────────────────────────

/// The big-endian 32-bit integer at offset `o` of `s`.
pub open spec fn u32_be_at(s: Seq<u8>, o: int) -> u32 {
    (0x100_0000 * s[o] + 0x1_0000 * s[o + 1] + 0x100 * s[o + 2] + s[o + 3]) as u32
}

/// The big-endian 64-bit integer at offset `o` of `s`.
pub open spec fn u64_be_at(s: Seq<u8>, o: int) -> u64 {
    (0x1_0000_0000 * u32_be_at(s, o) + u32_be_at(s, o + 4)) as u64
}

/// A 32-bit integer as big-endian bytes.
pub open spec fn u32_be(x: u32) -> Seq<u8> {
    seq![
        (x / 0x100_0000) as u8,
        (x / 0x1_0000 % 0x100) as u8,
        (x / 0x100 % 0x100) as u8,
        (x % 0x100) as u8,
    ]
}

/// A 64-bit integer as big-endian bytes.
pub open spec fn u64_be(x: u64) -> Seq<u8> {
    u32_be((x / 0x1_0000_0000) as u32) + u32_be((x % 0x1_0000_0000) as u32)
}

// ── Two's complement ───────────────────────────────────────────────────

/// The signed integer with the same 8 bits.
pub open spec fn signed8(x: u8) -> i8 {
    if x < 0x80 {
        x as i8
    } else {
        (x - 0x100) as i8
    }
}

/// The signed integer with the same 16 bits.
pub open spec fn signed16(x: u16) -> i16 {
    if x < 0x8000 {
        x as i16
    } else {
        (x - 0x1_0000) as i16
    }
}

/// The signed integer with the same 32 bits.
pub open spec fn signed32(x: u32) -> i32 {
    if x < 0x8000_0000 {
        x as i32
    } else {
        (x - 0x1_0000_0000) as i32
    }
}

/// The unsigned integer with the same 16 bits.
pub open spec fn unsigned16(x: i16) -> u16 {
    if x >= 0 {
        x as u16
    } else {
        (x + 0x1_0000) as u16
    }
}

/// Reads 8 bits as a signed integer.
pub fn to_signed8(x: u8) -> (r: i8)
    ensures
        r == signed8(x),
{
    if x < 0x80 {
        x as i8
    } else {
        (x as i16 - 0x100) as i8
    }
}

/// Reads 16 bits as a signed integer.
pub fn to_signed16(x: u16) -> (r: i16)
    ensures
        r == signed16(x),
{
    if x < 0x8000 {
        x as i16
    } else {
        (x as i32 - 0x1_0000) as i16
    }
}

/// Reads 32 bits as a signed integer.
pub fn to_signed32(x: u32) -> (r: i32)
    ensures
        r == signed32(x),
{
    if x < 0x8000_0000 {
        x as i32
    } else {
        (x as i64 - 0x1_0000_0000) as i32
    }
}

/// Reads a signed 16-bit integer as its bits.
pub fn to_unsigned16(x: i16) -> (r: u16)
    ensures
        r == unsigned16(x),
{
    if x >= 0 {
        x as u16
    } else {
        (x as i32 + 0x1_0000) as u16
    }
}

// ── Checked reads ──────────────────────────────────────────────────────

/// The byte at `off`, if the buffer reaches that far.
pub fn read_u8(buf: &[u8], off: usize) -> (r: Option<u8>)
    ensures
        r == (if off < buf@.len() { Some(buf@[off as int]) } else { None }),
{
    if off < buf.len() {
        Some(buf[off])
    } else {
        None
    }
}

/// The little-endian 16-bit integer at `off`, if the buffer reaches that far.
pub fn read_u16_le(buf: &[u8], off: usize) -> (r: Option<u16>)
    ensures
        r == (if off + 2 <= buf@.len() { Some(u16_le_at(buf@, off as int)) } else { None }),
{
    if off >= buf.len() || buf.len() - off < 2 {
        return None;
    }
    Some(buf[off] as u16 + 0x100 * (buf[off + 1] as u16))
}

/// The little-endian 32-bit integer at `off`, if the buffer reaches that far.
pub fn read_u32_le(buf: &[u8], off: usize) -> (r: Option<u32>)
    ensures
        r == (if off + 4 <= buf@.len() { Some(u32_le_at(buf@, off as int)) } else { None }),
{
    if off >= buf.len() || buf.len() - off < 4 {
        return None;
    }
    Some(
        buf[off] as u32 + 0x100 * (buf[off + 1] as u32) + 0x1_0000 * (buf[off + 2] as u32)
            + 0x100_0000 * (buf[off + 3] as u32),
    )
}

/// The little-endian 64-bit integer at `off`, if the buffer reaches that far.
pub fn read_u64_le(buf: &[u8], off: usize) -> (r: Option<u64>)
    ensures
        r == (if off + 8 <= buf@.len() { Some(u64_le_at(buf@, off as int)) } else { None }),
{
    if off >= buf.len() || buf.len() - off < 8 {
        return None;
    }
    match (read_u32_le(buf, off), read_u32_le(buf, off + 4)) {
        (Some(low), Some(high)) => Some(low as u64 + 0x1_0000_0000 * (high as u64)),
        _ => None,
    }
}

/// The little-endian binary32 number at `off`, if the buffer reaches that far.
pub fn read_f32_le(buf: &[u8], off: usize) -> (r: Option<F32Bits>)
    ensures
        r == (if off + 4 <= buf@.len() {
            Some(F32Bits { bits: u32_le_at(buf@, off as int) })
        } else {
            None
        }),
{
    match read_u32_le(buf, off) {
        Some(bits) => Some(F32Bits { bits }),
        None => None,
    }
}

/// The little-endian binary64 number at `off`, if the buffer reaches that far.
pub fn read_f64_le(buf: &[u8], off: usize) -> (r: Option<F64Bits>)
    ensures
        r == (if off + 8 <= buf@.len() {
            Some(F64Bits { bits: u64_le_at(buf@, off as int) })
        } else {
            None
        }),
{
    match read_u64_le(buf, off) {
        Some(bits) => Some(F64Bits { bits }),
        None => None,
    }
}

/// The big-endian 32-bit integer at `off`, if the buffer reaches that far.
pub fn read_u32_be(buf: &[u8], off: usize) -> (r: Option<u32>)
    ensures
        r == (if off + 4 <= buf@.len() { Some(u32_be_at(buf@, off as int)) } else { None }),
{
    if off >= buf.len() || buf.len() - off < 4 {
        return None;
    }
    Some(
        0x100_0000 * (buf[off] as u32) + 0x1_0000 * (buf[off + 1] as u32) + 0x100 * (buf[off
            + 2] as u32) + buf[off + 3] as u32,
    )
}

/// The big-endian binary32 number at `off`, if the buffer reaches that far.
pub fn read_f32_be(buf: &[u8], off: usize) -> (r: Option<F32Bits>)
    ensures
        r == (if off + 4 <= buf@.len() {
            Some(F32Bits { bits: u32_be_at(buf@, off as int) })
        } else {
            None
        }),
{
    match read_u32_be(buf, off) {
        Some(bits) => Some(F32Bits { bits }),
        None => None,
    }
}

/// The big-endian binary64 number at `off`, if the buffer reaches that far.
pub fn read_f64_be(buf: &[u8], off: usize) -> (r: Option<F64Bits>)
    ensures
        r == (if off + 8 <= buf@.len() {
            Some(F64Bits { bits: u64_be_at(buf@, off as int) })
        } else {
            None
        }),
{
    if off >= buf.len() || buf.len() - off < 8 {
        return None;
    }
    match (read_u32_be(buf, off), read_u32_be(buf, off + 4)) {
        (Some(high), Some(low)) => Some(
            F64Bits { bits: 0x1_0000_0000 * (high as u64) + low as u64 },
        ),
        _ => None,
    }
}

// ── Appending ──────────────────────────────────────────────────────────

/// Appends a 16-bit integer, low byte first.
pub fn put_u16_le(out: &mut Vec<u8>, x: u16)
    ensures
        final(out)@ == old(out)@ + u16_le(x),
{
    out.push((x % 0x100) as u8);
    out.push((x / 0x100) as u8);
}

/// Appends a 32-bit integer, low byte first.
pub fn put_u32_le(out: &mut Vec<u8>, x: u32)
    ensures
        final(out)@ == old(out)@ + u32_le(x),
{
    out.push((x % 0x100) as u8);
    out.push((x / 0x100 % 0x100) as u8);
    out.push((x / 0x1_0000 % 0x100) as u8);
    out.push((x / 0x100_0000) as u8);
}

/// Appends a 64-bit integer, low byte first.
pub fn put_u64_le(out: &mut Vec<u8>, x: u64)
    ensures
        final(out)@ == old(out)@ + u64_le(x),
{
    put_u32_le(out, (x % 0x1_0000_0000) as u32);
    put_u32_le(out, (x / 0x1_0000_0000) as u32);
}

/// Appends `n` zero bytes.
pub fn put_zeros(out: &mut Vec<u8>, n: usize)
    ensures
        final(out)@ == old(out)@ + zeros(n as nat),
{
    let mut i: usize = 0;
    while i < n
        invariant
            i <= n,
            out@ == old(out)@ + zeros(i as nat),
        decreases n - i,
    {
        out.push(0);
        i = i + 1;
    }
}

/// `n` zero bytes.
pub open spec fn zeros(n: nat) -> Seq<u8> {
    Seq::new(n, |i: int| 0u8)
}

// ── Laws ───────────────────────────────────────────────────────────────

/// Reading a 16-bit integer gives back what was written.
pub proof fn u16_le_roundtrip(s: Seq<u8>, o: int, x: u16)
    requires
        0 <= o,
        o + 2 <= s.len(),
        s.subrange(o, o + 2) == u16_le(x),
    ensures
        u16_le_at(s, o) == x,
{
    let t = s.subrange(o, o + 2);
    assert(s[o] == t[0] && s[o + 1] == t[1]);
}

/// Reading a 32-bit integer gives back what was written.
pub proof fn u32_le_roundtrip(s: Seq<u8>, o: int, x: u32)
    requires
        0 <= o,
        o + 4 <= s.len(),
        s.subrange(o, o + 4) == u32_le(x),
    ensures
        u32_le_at(s, o) == x,
{
    let t = s.subrange(o, o + 4);
    assert(s[o] == t[0] && s[o + 1] == t[1] && s[o + 2] == t[2] && s[o + 3] == t[3]);
}

/// Reading a 64-bit integer gives back what was written.
pub proof fn u64_le_roundtrip(s: Seq<u8>, o: int, x: u64)
    requires
        0 <= o,
        o + 8 <= s.len(),
        s.subrange(o, o + 8) == u64_le(x),
    ensures
        u64_le_at(s, o) == x,
{
    let t = s.subrange(o, o + 8);
    let low = (x % 0x1_0000_0000) as u32;
    let high = (x / 0x1_0000_0000) as u32;
    assert(s.subrange(o, o + 4) =~= t.subrange(0, 4));
    assert(t.subrange(0, 4) =~= u32_le(low));
    assert(s.subrange(o + 4, o + 4 + 4) =~= t.subrange(4, 8));
    assert(t.subrange(4, 8) =~= u32_le(high));
    u32_le_roundtrip(s, o, low);
    u32_le_roundtrip(s, o + 4, high);
}

/// Reading a big-endian 32-bit integer gives back what was written.
pub proof fn u32_be_roundtrip(s: Seq<u8>, o: int, x: u32)
    requires
        0 <= o,
        o + 4 <= s.len(),
        s.subrange(o, o + 4) == u32_be(x),
    ensures
        u32_be_at(s, o) == x,
{
    let t = s.subrange(o, o + 4);
    assert(s[o] == t[0] && s[o + 1] == t[1] && s[o + 2] == t[2] && s[o + 3] == t[3]);
}

/// Reading a big-endian 64-bit integer gives back what was written.
pub proof fn u64_be_roundtrip(s: Seq<u8>, o: int, x: u64)
    requires
        0 <= o,
        o + 8 <= s.len(),
        s.subrange(o, o + 8) == u64_be(x),
    ensures
        u64_be_at(s, o) == x,
{
    let t = s.subrange(o, o + 8);
    let low = (x % 0x1_0000_0000) as u32;
    let high = (x / 0x1_0000_0000) as u32;
    assert(s.subrange(o, o + 4) =~= t.subrange(0, 4));
    assert(t.subrange(0, 4) =~= u32_be(high));
    assert(s.subrange(o + 4, o + 4 + 4) =~= t.subrange(4, 8));
    assert(t.subrange(4, 8) =~= u32_be(low));
    u32_be_roundtrip(s, o, high);
    u32_be_roundtrip(s, o + 4, low);
}

/// The number whose digits to base 256 are the bytes of `s`, the lowest first.
pub open spec fn value_le(s: Seq<u8>) -> int
    decreases s.len(),
{
    if s.len() == 0 {
        0
    } else {
        s[0] + 0x100 * value_le(s.skip(1))
    }
}

/// The number whose digits to base 256 are the bytes of `s`, the highest first.
pub open spec fn value_be(s: Seq<u8>) -> int
    decreases s.len(),
{
    if s.len() == 0 {
        0
    } else {
        0x100 * value_be(s.drop_last()) + s.last()
    }
}

/// Little-endian bytes are the digits of the number, the lowest first.
pub proof fn little_endian_is_lowest_first(a: u16, b: u32, c: u64)
    ensures
        u16_le(a).len() == 2,
        value_le(u16_le(a)) == a,
        u32_le(b).len() == 4,
        value_le(u32_le(b)) == b,
        u64_le(c).len() == 8,
        value_le(u64_le(c)) == c,
{
    reveal_with_fuel(value_le, 9);
    let s = u16_le(a);
    assert(value_le(s) == s[0] + 0x100 * s[1]) by {
        assert(s.skip(1)[0] == s[1]);
    }
    lemma_value_of_four(b);
    let (low, high) = ((c % 0x1_0000_0000) as u32, (c / 0x1_0000_0000) as u32);
    lemma_value_of_four(low);
    lemma_value_of_four(high);
    lemma_value_after_four(u32_le(low), u32_le(high));
}

/// Four little-endian bytes.
proof fn lemma_value_of_four(x: u32)
    ensures
        value_le(u32_le(x)) == x,
{
    reveal_with_fuel(value_le, 5);
    let s = u32_le(x);
    assert(s.skip(1).skip(1) =~= s.skip(2));
    assert(s.skip(2).skip(1) =~= s.skip(3));
    assert(s.skip(1)[0] == s[1] && s.skip(2)[0] == s[2] && s.skip(3)[0] == s[3]);
    assert(s.skip(3).skip(1).len() == 0);
}

/// Bytes behind four others count 2^32 times as much.
proof fn lemma_value_after_four(a: Seq<u8>, b: Seq<u8>)
    requires
        a.len() == 4,
    ensures
        value_le(a + b) == value_le(a) + 0x1_0000_0000 * value_le(b),
{
    reveal_with_fuel(value_le, 5);
    let s = a + b;
    assert(a.skip(1).skip(1) =~= a.skip(2));
    assert(a.skip(2).skip(1) =~= a.skip(3));
    assert(a.skip(1)[0] == a[1] && a.skip(2)[0] == a[2] && a.skip(3)[0] == a[3]);
    assert(a.skip(3).skip(1).len() == 0);
    assert(s.skip(1).skip(1) =~= s.skip(2));
    assert(s.skip(2).skip(1) =~= s.skip(3));
    assert(s.skip(3).skip(1) =~= b);
    assert(s[0] == a[0]);
    assert(s.skip(1)[0] == a[1] && s.skip(2)[0] == a[2] && s.skip(3)[0] == a[3]);
}

/// Big-endian bytes are the digits of the number, the highest first.
pub proof fn big_endian_is_highest_first(x: u32)
    ensures
        u32_be(x).len() == 4,
        value_be(u32_be(x)) == x,
{
    reveal_with_fuel(value_be, 5);
    let s = u32_be(x);
    assert(s.drop_last().drop_last() =~= s.take(2));
    assert(s.take(2).drop_last() =~= s.take(1));
    assert(s.take(1).drop_last().len() == 0);
    assert(s.last() == s[3] && s.drop_last().last() == s[2] && s.take(2).last() == s[1]);
    assert(s.take(1).last() == s[0]);
}

/// The two byte orders are each other's reverse.
pub proof fn byte_orders_are_reversed(x: u32, y: u64)
    ensures
        u32_be(x) == u32_le(x).reverse(),
        u64_be(y) == u64_le(y).reverse(),
{
    assert(u32_be(x) =~= u32_le(x).reverse());
    let (low, high) = ((y % 0x1_0000_0000) as u32, (y / 0x1_0000_0000) as u32);
    assert(u32_be(low) =~= u32_le(low).reverse());
    assert(u32_be(high) =~= u32_le(high).reverse());
    assert(u64_be(y) =~= u64_le(y).reverse());
}

/// What is read little-endian is the value of the bytes that stand there.
pub proof fn little_endian_reads_lowest_first(s: Seq<u8>, o: int)
    requires
        0 <= o,
    ensures
        o + 2 <= s.len() ==> u16_le_at(s, o) == s[o] + 0x100 * s[o + 1],
        o + 4 <= s.len() ==> u32_le_at(s, o) == u16_le_at(s, o) + 0x1_0000 * u16_le_at(s, o + 2),
        o + 8 <= s.len() ==> u64_le_at(s, o) == u32_le_at(s, o) + 0x1_0000_0000 * u32_le_at(
            s,
            o + 4,
        ),
{
}

/// Two's complement: the signed and the unsigned number of the same bits differ by
/// nothing or by the size of the range, and a signed number is negative exactly where
/// its highest bit is set.
pub proof fn signed_is_congruent(a: u8, b: u16, c: u32, d: i16)
    ensures
        (a - signed8(a)) % 0x100 == 0,
        signed8(a) < 0 <==> a >= 0x80,
        (b - signed16(b)) % 0x1_0000 == 0,
        signed16(b) < 0 <==> b >= 0x8000,
        (c - signed32(c)) % 0x1_0000_0000 == 0,
        signed32(c) < 0 <==> c >= 0x8000_0000,
        (unsigned16(d) - d) % 0x1_0000 == 0,
        signed16(unsigned16(d)) == d,
        unsigned16(signed16(b)) == b,
{
}

/// Zeros are as many as asked for, and nothing else.
pub proof fn zeros_are_zero(n: nat)
    ensures
        zeros(n).len() == n,
        forall|i: int| 0 <= i < n ==> zeros(n)[i] == 0,
{
}

} // verus!
