//! The two 16-bit halves of a 32-bit message parameter.

use vstd::prelude::*;

verus! {

/// The low 16 bits of `l`, as a number.
pub open spec fn low_half(l: u32) -> nat {
    (l as nat) % 0x1_0000
}

/// The high 16 bits of `l`, as a number.
pub open spec fn high_half(l: u32) -> nat {
    (l as nat) / 0x1_0000
}

/// The low-order word of a 32-bit value.
pub fn loword(l: u32) -> (w: u16)
    ensures
        w == low_half(l),
{
    let r = l & 0xFFFF;
    assert(r == l % 0x1_0000) by (bit_vector)
        requires
            r == l & 0xFFFF,
    ;
    r as u16
}

/// The high-order word of a 32-bit value.
pub fn hiword(l: u32) -> (w: u16)
    ensures
        w == high_half(l),
{
    let r = (l >> 16) & 0xFFFF;
    assert(r == l / 0x1_0000) by (bit_vector)
        requires
            r == (l >> 16) & 0xFFFF,
    ;
    r as u16
}

/// A 32-bit value is its high word times 65536 plus its low word: the two
/// halves taken apart by `hiword` and `loword` put the value back together.
pub proof fn lemma_words_recompose(l: u32)
    ensures
        high_half(l) * 0x1_0000 + low_half(l) == l,
        low_half(l) < 0x1_0000,
        high_half(l) < 0x1_0000,
{
}

} // verus!
