//! Little-endian integers at fixed offsets of a byte buffer.

use byteorder::{ByteOrder, LittleEndian};
use vstd::prelude::*;
use vstd::arithmetic::div_mod::lemma_fundamental_div_mod_converse;

verus! {

/// The weight of byte `j` in a little-endian integer: `256^j`, for `j < 8`.
pub open spec fn byte_weight(j: int) -> int {
    if j == 0 {
        0x1
    } else if j == 1 {
        0x100
    } else if j == 2 {
        0x1_0000
    } else if j == 3 {
        0x100_0000
    } else if j == 4 {
        0x1_0000_0000
    } else if j == 5 {
        0x100_0000_0000
    } else if j == 6 {
        0x1_0000_0000_0000
    } else {
        0x100_0000_0000_0000
    }
}

/// Byte `j` of the little-endian encoding of `n`.
pub open spec fn le_byte(n: int, j: int) -> u8 {
    ((n / byte_weight(j)) % 256) as u8
}

/// The unsigned integer stored in `width` bytes at `off`, least significant first.
pub open spec fn le_uint(b: Seq<u8>, off: int, width: nat) -> int
    decreases width,
{
    if width == 0 {
        0
    } else {
        le_uint(b, off, (width - 1) as nat) + byte_weight(width - 1) * b[off + width - 1]
    }
}

/// `s` with the `width` bytes at `off` replaced by the little-endian encoding of `n`.
pub open spec fn put_le(s: Seq<u8>, off: int, width: nat, n: int) -> Seq<u8> {
    Seq::new(
        s.len(),
        |i: int|
            if off <= i < off + width {
                le_byte(n, i - off)
            } else {
                s[i]
            },
    )
}

/// Relies on byteorder's `LittleEndian::read_u16`: the first two bytes of the
/// slice it is given, least significant first.
#[verifier::external_body]
pub fn read_u16_le(buf: &[u8], off: usize) -> (r: u16)
    requires
        off + 2 <= buf@.len(),
    ensures
        r as int == le_uint(buf@, off as int, 2),
{
    LittleEndian::read_u16(&buf[off..])
}

/// Relies on byteorder's `LittleEndian::read_u32`: the first four bytes of the
/// slice it is given, least significant first.
#[verifier::external_body]
pub fn read_u32_le(buf: &[u8], off: usize) -> (r: u32)
    requires
        off + 4 <= buf@.len(),
    ensures
        r as int == le_uint(buf@, off as int, 4),
{
    LittleEndian::read_u32(&buf[off..])
}

/// Relies on byteorder's `LittleEndian::read_u64`: the first eight bytes of the
/// slice it is given, least significant first.
#[verifier::external_body]
pub fn read_u64_le(buf: &[u8], off: usize) -> (r: u64)
    requires
        off + 8 <= buf@.len(),
    ensures
        r as int == le_uint(buf@, off as int, 8),
{
    LittleEndian::read_u64(&buf[off..])
}

/// Relies on byteorder's `LittleEndian::write_u16`: the two bytes of `n`,
/// least significant first, over the first two bytes of the slice.
#[verifier::external_body]
pub fn write_u16_le(buf: &mut Vec<u8>, off: usize, n: u16)
    requires
        off + 2 <= old(buf)@.len(),
    ensures
        final(buf)@ == put_le(old(buf)@, off as int, 2, n as int),
{
    LittleEndian::write_u16(&mut buf[off..], n)
}

/// Relies on byteorder's `LittleEndian::write_u32`: the four bytes of `n`,
/// least significant first, over the first four bytes of the slice.
#[verifier::external_body]
pub fn write_u32_le(buf: &mut Vec<u8>, off: usize, n: u32)
    requires
        off + 4 <= old(buf)@.len(),
    ensures
        final(buf)@ == put_le(old(buf)@, off as int, 4, n as int),
{
    LittleEndian::write_u32(&mut buf[off..], n)
}

/// Relies on byteorder's `LittleEndian::write_u64`: the eight bytes of `n`,
/// least significant first, over the first eight bytes of the slice.
#[verifier::external_body]
pub fn write_u64_le(buf: &mut Vec<u8>, off: usize, n: u64)
    requires
        off + 8 <= old(buf)@.len(),
    ensures
        final(buf)@ == put_le(old(buf)@, off as int, 8, n as int),
{
    LittleEndian::write_u64(&mut buf[off..], n)
}

proof fn lemma_digit(lo: int, bj: int, hi: int, w: int)
    requires
        0 <= lo < w,
        0 <= bj < 256,
        0 <= hi,
    ensures
        ((lo + w * bj + w * 256 * hi) / w) % 256 == bj,
{
    let x = lo + w * bj + w * 256 * hi;
    assert(x == (bj + 256 * hi) * w + lo) by (nonlinear_arith)
        requires
            x == lo + w * bj + w * 256 * hi,
    {
    }
    lemma_fundamental_div_mod_converse(x, w, bj + 256 * hi, lo);
    lemma_fundamental_div_mod_converse(bj + 256 * hi, 256, hi, bj);
}

proof fn lemma_bytes_1(b0: int)
    requires
        0 <= b0 < 256,
    ensures
        le_byte(0x1 * b0, 0) == b0 as u8,
{
    lemma_digit(0, b0, 0, 0x1);
}

proof fn lemma_bytes_2(b0: int, b1: int)
    requires
        0 <= b0 < 256,
        0 <= b1 < 256,
    ensures
        le_byte(0x1 * b0 + 0x100 * b1, 0) == b0 as u8,
        le_byte(0x1 * b0 + 0x100 * b1, 1) == b1 as u8,
{
    lemma_digit(0, b0, 0x1 * b1, 0x1);
    lemma_digit(0x1 * b0, b1, 0, 0x100);
}

proof fn lemma_bytes_4(b0: int, b1: int, b2: int, b3: int)
    requires
        0 <= b0 < 256,
        0 <= b1 < 256,
        0 <= b2 < 256,
        0 <= b3 < 256,
    ensures
        le_byte(0x1 * b0 + 0x100 * b1 + 0x1_0000 * b2 + 0x100_0000 * b3, 0) == b0 as u8,
        le_byte(0x1 * b0 + 0x100 * b1 + 0x1_0000 * b2 + 0x100_0000 * b3, 1) == b1 as u8,
        le_byte(0x1 * b0 + 0x100 * b1 + 0x1_0000 * b2 + 0x100_0000 * b3, 2) == b2 as u8,
        le_byte(0x1 * b0 + 0x100 * b1 + 0x1_0000 * b2 + 0x100_0000 * b3, 3) == b3 as u8,
{
    lemma_digit(0, b0, 0x1 * b1 + 0x100 * b2 + 0x1_0000 * b3, 0x1);
    lemma_digit(0x1 * b0, b1, 0x1 * b2 + 0x100 * b3, 0x100);
    lemma_digit(0x1 * b0 + 0x100 * b1, b2, 0x1 * b3, 0x1_0000);
    lemma_digit(0x1 * b0 + 0x100 * b1 + 0x1_0000 * b2, b3, 0, 0x100_0000);
}

proof fn lemma_bytes_8(b0: int, b1: int, b2: int, b3: int, b4: int, b5: int, b6: int, b7: int)
    requires
        0 <= b0 < 256,
        0 <= b1 < 256,
        0 <= b2 < 256,
        0 <= b3 < 256,
        0 <= b4 < 256,
        0 <= b5 < 256,
        0 <= b6 < 256,
        0 <= b7 < 256,
    ensures
        le_byte(0x1 * b0 + 0x100 * b1 + 0x1_0000 * b2 + 0x100_0000 * b3 + 0x1_0000_0000 * b4 + 0x100_0000_0000 * b5 + 0x1_0000_0000_0000 * b6 + 0x100_0000_0000_0000 * b7, 0) == b0 as u8,
        le_byte(0x1 * b0 + 0x100 * b1 + 0x1_0000 * b2 + 0x100_0000 * b3 + 0x1_0000_0000 * b4 + 0x100_0000_0000 * b5 + 0x1_0000_0000_0000 * b6 + 0x100_0000_0000_0000 * b7, 1) == b1 as u8,
        le_byte(0x1 * b0 + 0x100 * b1 + 0x1_0000 * b2 + 0x100_0000 * b3 + 0x1_0000_0000 * b4 + 0x100_0000_0000 * b5 + 0x1_0000_0000_0000 * b6 + 0x100_0000_0000_0000 * b7, 2) == b2 as u8,
        le_byte(0x1 * b0 + 0x100 * b1 + 0x1_0000 * b2 + 0x100_0000 * b3 + 0x1_0000_0000 * b4 + 0x100_0000_0000 * b5 + 0x1_0000_0000_0000 * b6 + 0x100_0000_0000_0000 * b7, 3) == b3 as u8,
        le_byte(0x1 * b0 + 0x100 * b1 + 0x1_0000 * b2 + 0x100_0000 * b3 + 0x1_0000_0000 * b4 + 0x100_0000_0000 * b5 + 0x1_0000_0000_0000 * b6 + 0x100_0000_0000_0000 * b7, 4) == b4 as u8,
        le_byte(0x1 * b0 + 0x100 * b1 + 0x1_0000 * b2 + 0x100_0000 * b3 + 0x1_0000_0000 * b4 + 0x100_0000_0000 * b5 + 0x1_0000_0000_0000 * b6 + 0x100_0000_0000_0000 * b7, 5) == b5 as u8,
        le_byte(0x1 * b0 + 0x100 * b1 + 0x1_0000 * b2 + 0x100_0000 * b3 + 0x1_0000_0000 * b4 + 0x100_0000_0000 * b5 + 0x1_0000_0000_0000 * b6 + 0x100_0000_0000_0000 * b7, 6) == b6 as u8,
        le_byte(0x1 * b0 + 0x100 * b1 + 0x1_0000 * b2 + 0x100_0000 * b3 + 0x1_0000_0000 * b4 + 0x100_0000_0000 * b5 + 0x1_0000_0000_0000 * b6 + 0x100_0000_0000_0000 * b7, 7) == b7 as u8,
{
    lemma_digit(0, b0, 0x1 * b1 + 0x100 * b2 + 0x1_0000 * b3 + 0x100_0000 * b4 + 0x1_0000_0000 * b5 + 0x100_0000_0000 * b6 + 0x1_0000_0000_0000 * b7, 0x1);
    lemma_digit(0x1 * b0, b1, 0x1 * b2 + 0x100 * b3 + 0x1_0000 * b4 + 0x100_0000 * b5 + 0x1_0000_0000 * b6 + 0x100_0000_0000 * b7, 0x100);
    lemma_digit(0x1 * b0 + 0x100 * b1, b2, 0x1 * b3 + 0x100 * b4 + 0x1_0000 * b5 + 0x100_0000 * b6 + 0x1_0000_0000 * b7, 0x1_0000);
    lemma_digit(0x1 * b0 + 0x100 * b1 + 0x1_0000 * b2, b3, 0x1 * b4 + 0x100 * b5 + 0x1_0000 * b6 + 0x100_0000 * b7, 0x100_0000);
    lemma_digit(0x1 * b0 + 0x100 * b1 + 0x1_0000 * b2 + 0x100_0000 * b3, b4, 0x1 * b5 + 0x100 * b6 + 0x1_0000 * b7, 0x1_0000_0000);
    lemma_digit(0x1 * b0 + 0x100 * b1 + 0x1_0000 * b2 + 0x100_0000 * b3 + 0x1_0000_0000 * b4, b5, 0x1 * b6 + 0x100 * b7, 0x100_0000_0000);
    lemma_digit(0x1 * b0 + 0x100 * b1 + 0x1_0000 * b2 + 0x100_0000 * b3 + 0x1_0000_0000 * b4 + 0x100_0000_0000 * b5, b6, 0x1 * b7, 0x1_0000_0000_0000);
    lemma_digit(0x1 * b0 + 0x100 * b1 + 0x1_0000 * b2 + 0x100_0000 * b3 + 0x1_0000_0000 * b4 + 0x100_0000_0000 * b5 + 0x1_0000_0000_0000 * b6, b7, 0, 0x100_0000_0000_0000);
}

/// Writing back what was read leaves the bytes as they were.
pub proof fn lemma_put_le_of_read(s: Seq<u8>, off: int, width: nat)
    requires
        0 <= off,
        off + width <= s.len(),
        width == 1 || width == 2 || width == 4 || width == 8,
    ensures
        put_le(s, off, width, le_uint(s, off, width)) == s,
{
    reveal_with_fuel(le_uint, 9);
    let n = le_uint(s, off, width);
    if width == 1 {
        lemma_bytes_1(s[off] as int);
    } else if width == 2 {
        lemma_bytes_2(s[off] as int, s[off + 1] as int);
    } else if width == 4 {
        lemma_bytes_4(s[off] as int, s[off + 1] as int, s[off + 2] as int, s[off + 3] as int);
    } else {
        lemma_bytes_8(
            s[off] as int,
            s[off + 1] as int,
            s[off + 2] as int,
            s[off + 3] as int,
            s[off + 4] as int,
            s[off + 5] as int,
            s[off + 6] as int,
            s[off + 7] as int,
        );
    }
    assert(put_le(s, off, width, n) =~= s);
}

} // verus!
