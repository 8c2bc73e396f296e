//! Bytes, 16-bit words and pages, as arithmetic and as bit patterns.

use vstd::prelude::*;

verus! {

/// The low eight bits of `n`.
pub open spec fn low_byte(n: u16) -> u8 {
    (n % 256) as u8
}

/// The high eight bits of `n`.
pub open spec fn high_byte(n: u16) -> u8 {
    (n / 256) as u8
}

/// The little-endian word made of the bytes `lo` and `hi`.
pub open spec fn word(lo: u8, hi: u8) -> u16 {
    (lo + 256 * hi) as u16
}

/// The byte `b` as a word.
pub open spec fn wide(b: u8) -> u16 {
    b as u16
}

/// `n` reduced modulo 256, the way an 8-bit register wraps.
pub open spec fn wrap8(n: int) -> u8 {
    (n % 256) as u8
}

/// `n` reduced modulo 65536, the way a 16-bit register wraps.
pub open spec fn wrap16(n: int) -> u16 {
    (n % 65536) as u16
}

/// Whether two addresses lie in the same 256-byte page.
pub open spec fn same_page(a: u16, b: u16) -> bool {
    a / 256 == b / 256
}

/// The address after `a` for a fetch that cannot leave the page: the last
/// byte of a page is followed by the first byte of the same page.
pub open spec fn next_in_page(a: u16) -> u16 {
    if a % 256 == 255 {
        (a - 255) as u16
    } else {
        (a + 1) as u16
    }
}

/// The byte `b` read as a two's-complement number.
pub open spec fn signed(b: u8) -> int {
    if b >= 0x80 {
        b - 256
    } else {
        b as int
    }
}

/// Masking with `0x00FF` keeps the low byte.
pub proof fn lemma_low_byte_mask(n: u16)
    by (bit_vector)
    ensures
        n & 0x00FF == n % 256,
{
}

/// Bit 7 is set exactly when the low byte is 128 or more.
pub proof fn lemma_sign_bit(n: u16)
    by (bit_vector)
    ensures
        (n & 0x0080 != 0) <==> n % 256 >= 0x80,
{
}

/// A bit above bit 7 is set exactly when the value exceeds 255.
pub proof fn lemma_high_bits(n: u16)
    by (bit_vector)
    ensures
        (n & 0xFF00 != 0) <==> n > 0xFF,
{
}

/// The exclusive-or test for signed overflow compares the sign of the
/// result `n` with the signs of the two addends `m` and `o`.
pub proof fn lemma_overflow_test(n: u16, m: u16, o: u16)
    by (bit_vector)
    ensures
        ((n ^ m) & (n ^ o) & 0x0080 != 0) <==> ((n % 256 >= 0x80) != (m % 256 >= 0x80) && (n % 256
            >= 0x80) != (o % 256 >= 0x80)),
{
}

/// Shifting left by one doubles, as long as no bit is lost.
pub proof fn lemma_shift_left(v: u16, carry: u16)
    by (bit_vector)
    requires
        v < 0x100,
        carry <= 1,
    ensures
        v << 1 == 2 * v,
        (v << 1) | carry == 2 * v + carry,
{
}

/// Shifting right by one halves; bit 0 is the remainder, and a bit put in
/// from the left lands in bit 7.
pub proof fn lemma_shift_right(v: u16, carry: u16)
    by (bit_vector)
    requires
        v < 0x100,
        carry <= 1,
    ensures
        v >> 1 == v / 2,
        v & 1 == v % 2,
        (v >> 1) | (carry << 7) == v / 2 + 128 * carry,
{
}

/// Flipping the low eight bits of a byte subtracts it from 255.
pub proof fn lemma_complement(v: u16)
    by (bit_vector)
    requires
        v < 0x100,
    ensures
        v ^ 0x00FF == 255 - v,
{
}

/// The two hexadecimal digits of the low byte.
pub proof fn lemma_nibbles(n: u16)
    by (bit_vector)
    ensures
        n & 0x000F == n % 16,
        n & 0x00F0 == ((n / 16) % 16) * 16,
{
}

/// The logical operations on bytes do not depend on the width they are
/// computed in.
pub proof fn lemma_logic_width(a: u8, b: u8)
    by (bit_vector)
    ensures
        (a as u16) & (b as u16) == (a & b) as u16,
        (a as u16) | (b as u16) == (a | b) as u16,
        (a as u16) ^ (b as u16) == (a ^ b) as u16,
{
}

/// The byte `b` as a word.
pub fn widen(b: u8) -> (w: u16)
    ensures
        w == b,
{
    b as u16
}

/// The low byte of `n`.
pub fn lo8(n: u16) -> (b: u8)
    ensures
        b == low_byte(n),
{
    proof {
        lemma_low_byte_mask(n);
    }
    (n & 0x00FF) as u8
}

/// The high byte of `n`.
pub fn hi8(n: u16) -> (b: u8)
    ensures
        b == high_byte(n),
{
    assert(n >> 8 == n / 256) by (bit_vector);
    (n >> 8) as u8
}

/// The word with low byte `lo` and high byte `hi`.
pub fn make_word(lo: u8, hi: u8) -> (w: u16)
    ensures
        w == word(lo, hi),
{
    let l: u16 = lo as u16;
    let h: u16 = hi as u16;
    assert(l | (h << 8) == l + 256 * h) by (bit_vector)
        requires
            l < 256,
            h < 256,
    ;
    l | (h << 8)
}

/// Whether `a` and `b` have the same high byte.
pub fn on_same_page(a: u16, b: u16) -> (same: bool)
    ensures
        same == same_page(a, b),
{
    assert((a & 0xFF00 == b & 0xFF00) <==> (a / 256 == b / 256)) by (bit_vector);
    (a & 0xFF00) == (b & 0xFF00)
}

/// The address after `a`, wrapping to the start of the page of `a`.
pub fn page_successor(a: u16) -> (next: u16)
    ensures
        next == next_in_page(a),
{
    let up: u16 = a.wrapping_add(1);
    assert((a & 0xFF00) | (up & 0x00FF) == if a % 256 == 255 {
        (a - 255) as u16
    } else {
        (a + 1) as u16
    }) by (bit_vector)
        requires
            up == (if a == 0xFFFF {
                0u16
            } else {
                (a + 1) as u16
            }),
    ;
    (a & 0xFF00) | (up & 0x00FF)
}

/// The signed byte `b` as a 16-bit two's-complement number.
pub fn sign_extend(b: u8) -> (w: u16)
    ensures
        w == wrap16(signed(b)),
{
    let mut w: u16 = b as u16;
    if w & 0x0080 != 0 {
        assert(w | 0xFF00 == w + 0xFF00 && w >= 0x80) by (bit_vector)
            requires
                w < 256,
                w & 0x0080 != 0,
        ;
        w |= 0xFF00;
    } else {
        assert(w < 0x80) by (bit_vector)
            requires
                w < 256,
                w & 0x0080 == 0,
        ;
    }
    w
}

} // verus!
