//! Packing and unpacking of 4-bit values.

use vstd::prelude::*;

verus! {

/// A nibble is a value that fits in four bits.
pub open spec fn is_nibble(n: u8) -> bool {
    n < 16
}

/// The high and the low nibble of a byte, in that order.
pub open spec fn split_spec(a: u8) -> (u8, u8) {
    (a / 16, a % 16)
}

/// The byte whose high half is the low four bits of `a`, combined bitwise with `b`.
pub open spec fn merge_spec(a: u8, b: u8) -> u8 {
    (a << 4) | b
}

/// The 16-bit word built from four values, `a` placed highest, each shifted to
/// its nibble position and combined bitwise.
pub open spec fn merge_u16_spec(a: u8, b: u8, c: u8, d: u8) -> u16 {
    ((a as u16) << 12) | ((b as u16) << 8) | ((c as u16) << 4) | (d as u16)
}

/// Splits a byte into its high and low nibble.
pub fn split(a: u8) -> (r: (u8, u8))
    ensures
        r == split_spec(a),
        is_nibble(r.0),
        is_nibble(r.1),
        16 * r.0 + r.1 == a,
{
    let b0: u8 = a & 0x0F;
    let b1: u8 = a >> 4;
    assert(a & 0x0F == a % 16) by (bit_vector);
    assert(a >> 4 == a / 16) by (bit_vector);
    (b1, b0)
}

/// Joins a high and a low nibble into a byte.
pub fn merge(a: u8, b: u8) -> (r: u8)
    ensures
        r == merge_spec(a, b),
        is_nibble(a) && is_nibble(b) ==> r == 16 * a + b,
{
    proof {
        lemma_merge_value(a, b);
    }
    (a << 4) | b
}

/// Joins four nibbles into a 16-bit word, `a` being the most significant.
pub fn merge_u16(a: u8, b: u8, c: u8, d: u8) -> (r: u16)
    ensures
        r == merge_u16_spec(a, b, c, d),
        is_nibble(a) && is_nibble(b) && is_nibble(c) && is_nibble(d) ==> r == 4096 * a + 256 * b
            + 16 * c + d,
{
    proof {
        lemma_merge_u16_value(a, b, c, d);
    }
    ((a as u16) << 12) | ((b as u16) << 8) | ((c as u16) << 4) | d as u16
}

/// On nibbles, merging is positional notation in base 16.
pub proof fn lemma_merge_value(a: u8, b: u8)
    ensures
        is_nibble(a) && is_nibble(b) ==> merge_spec(a, b) == 16 * a + b,
{
    assert(a < 16 && b < 16 ==> ((a << 4) | b) == 16 * a + b) by (bit_vector);
}

/// On nibbles, the merged word is positional notation in base 16.
pub proof fn lemma_merge_u16_value(a: u8, b: u8, c: u8, d: u8)
    ensures
        is_nibble(a) && is_nibble(b) && is_nibble(c) && is_nibble(d) ==> merge_u16_spec(a, b, c, d)
            == 4096 * a + 256 * b + 16 * c + d,
{
    assert(a < 16 && b < 16 && c < 16 && d < 16 ==> (((a as u16) << 12) | ((b as u16) << 8) | ((
    c as u16) << 4) | (d as u16)) == 4096 * a + 256 * b + 16 * c + d) by (bit_vector);
}

/// Splitting a byte and merging the two halves gives the byte back.
pub proof fn lemma_split_then_merge(b: u8)
    ensures
        merge_spec(split_spec(b).0, split_spec(b).1) == b,
{
    assert((((b / 16) as u8) << 4) | ((b % 16) as u8) == b) by (bit_vector);
}

/// Merging two nibbles and splitting the byte gives the nibbles back.
pub proof fn lemma_merge_then_split(a: u8, b: u8)
    requires
        is_nibble(a),
        is_nibble(b),
    ensures
        split_spec(merge_spec(a, b)) == (a, b),
{
    lemma_merge_value(a, b);
}

/// The high byte of a merged word splits into its first two nibbles and the
/// low byte into its last two.
pub proof fn lemma_merge_u16_then_split(a: u8, b: u8, c: u8, d: u8)
    requires
        is_nibble(a),
        is_nibble(b),
        is_nibble(c),
        is_nibble(d),
    ensures
        merge_u16_spec(a, b, c, d) / 256 == 16 * a + b,
        merge_u16_spec(a, b, c, d) % 256 == 16 * c + d,
        split_spec((merge_u16_spec(a, b, c, d) / 256) as u8) == (a, b),
        split_spec((merge_u16_spec(a, b, c, d) % 256) as u8) == (c, d),
{
    lemma_merge_u16_value(a, b, c, d);
}

} // verus!
