//! Word arithmetic: wrapping addition and sign extension of instruction fields.
use vstd::arithmetic::power2::{lemma2_to64, lemma_pow2_strictly_increases, lemma_pow2_unfold, pow2};
use vstd::bits::lemma_u32_shl_is_mul;
use vstd::prelude::*;

verus! {

/// Number of distinct words (and of addressable memory cells).
pub const WORD_SPAN: u32 = 0x1_0000;

/// Sum of two words modulo 2^16.
pub open spec fn word_add(a: u16, b: u16) -> u16 {
    ((a as int + b as int) % 0x1_0000) as u16
}

/// The two's-complement value of the low `width` bits held in `field`.
pub open spec fn signed_value(field: u16, width: nat) -> int {
    if field as int >= pow2((width - 1) as nat) {
        field as int - pow2(width)
    } else {
        field as int
    }
}

/// `field`, read as a signed `width`-bit number, widened to a full word.
pub open spec fn sign_extend_spec(field: u16, width: nat) -> u16 {
    (signed_value(field, width) % 0x1_0000) as u16
}

/// Sum of two words modulo 2^16.
pub fn add_words(a: u16, b: u16) -> (r: u16)
    ensures
        r == word_add(a, b),
{
    a.wrapping_add(b)
}

/// Replicates bit `width - 1` of `field` into the upper bits of the word.
pub fn sign_extend(field: u16, width: u16) -> (r: u16)
    requires
        1 <= width <= 15,
        field < pow2(width as nat),
    ensures
        r == sign_extend_spec(field, width as nat),
        signed_value(field, width as nat) % 0x1_0000 == r as int,
{
    proof {
        lemma2_to64();
        lemma_pow2_strictly_increases(width as nat, 16);
        lemma_pow2_unfold(width as nat);
        lemma_u32_shl_is_mul(1, width as u32);
        lemma_u32_shl_is_mul(1, (width - 1) as u32);
    }
    let span: u32 = 1u32 << (width as u32);
    let half: u32 = 1u32 << ((width - 1) as u32);
    if (field as u32) < half {
        field
    } else {
        (field as u32 + WORD_SPAN - span) as u16
    }
}

} // verus!
