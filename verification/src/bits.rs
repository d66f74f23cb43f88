//! Facts about bitwise operations on register-sized words, used by the
//! descriptor and register code.
use vstd::prelude::*;

verus! {

/// Setting the bits of `m` makes them all set and leaves the other bits as they were.
pub proof fn lemma_u32_set_bits(t: u32, m: u32)
    by (bit_vector)
    ensures
        (t | m) & m == m,
        (t | m) & !m == t & !m,
{
}

/// Clearing the bits of `m` makes them all clear and leaves the other bits as they were.
pub proof fn lemma_u32_clear_bits(t: u32, m: u32)
    by (bit_vector)
    ensures
        (t & !m) & m == 0,
        (t & !m) & !m == t & !m,
{
}

/// Replacing the field `m` of `t` by the field `m` of `s`.
pub proof fn lemma_u32_replace_field(t: u32, s: u32, m: u32)
    by (bit_vector)
    ensures
        ((t & !m) | (s & m)) & m == s & m,
        ((t & !m) | (s & m)) & !m == t & !m,
        (s & m) & m == s & m,
        (s & m) & !m == 0,
{
}

/// Clearing then setting: the bits of `set` end set, the bits of `clear`
/// outside `set` end clear, all other bits are kept.
pub proof fn lemma_u32_modify(t: u32, clear: u32, set: u32)
    by (bit_vector)
    ensures
        ((t & !clear) | set) & set == set,
        ((t & !clear) | set) & (clear & !set) == 0,
        ((t & !clear) | set) & !(clear | set) == t & !(clear | set),
{
}

/// A big-endian 16-bit word assembled from two bytes.
pub proof fn lemma_be_word(a: u32, b: u32)
    by (bit_vector)
    requires
        a < 256,
        b < 256,
    ensures
        (a << 8u32) | b == a * 256 + b,
        a << 8u32 == a * 256,
{
}

/// Splitting a word into its high and low 16-bit halves.
pub proof fn lemma_u32_halves(s: u32)
    by (bit_vector)
    ensures
        s & 0xFFFFu32 == s % 65536,
        s >> 16u32 == s / 65536,
{
}

/// The low 16 bits of the complement of a 16-bit value.
pub proof fn lemma_u32_not_low16(s: u32)
    by (bit_vector)
    requires
        s < 65536,
    ensures
        (!s) as u16 == 65535 - s,
{
}

/// The two bytes of a 16-bit value, high byte first.
pub proof fn lemma_u16_bytes(c: u16)
    by (bit_vector)
    ensures
        (c >> 8u16) as u8 as int * 256 + (c & 0xFFu16) as u8 as int == c as int,
        (c >> 8u16) as u8 as int == c as int / 256,
        (c & 0xFFu16) as u8 as int == c as int % 256,
{
}

/// Clearing the two low bits rounds down to a multiple of four.
pub proof fn lemma_usize_clear_low2(y: usize)
    by (bit_vector)
    ensures
        y & !3usize == y - y % 4,
{
}

} // verus!
