//! Even parity over 16-bit frames.
use vstd::prelude::*;

verus! {

/// Bit `index` of `word`, as 0 or 1.
pub open spec fn bit_at(word: u16, index: nat) -> nat {
    if (word >> (index as u16)) & 1u16 == 1u16 {
        1
    } else {
        0
    }
}

/// Number of one-bits among the low `width` bits of `word`.
pub open spec fn count_ones(word: u16, width: nat) -> nat
    decreases width,
{
    if width == 0 {
        0
    } else {
        count_ones(word, (width - 1) as nat) + bit_at(word, (width - 1) as nat)
    }
}

/// Whether the low 15 bits of `value` hold an odd number of ones.
pub open spec fn parity_of(value: u16) -> bool {
    count_ones(value, 15) % 2 == 1
}

/// Whether all 16 bits of `frame` hold an even number of ones.
pub open spec fn has_even_parity(frame: u16) -> bool {
    count_ones(frame, 16) % 2 == 0
}

/// `value` with bit 15 replaced by the parity of its low 15 bits.
pub open spec fn sealed(value: u16) -> u16 {
    if parity_of(value) {
        (value & 0x7FFFu16) | 0x8000u16
    } else {
        value & 0x7FFFu16
    }
}

/// Counts the ones among the low `width` bits of `word`.
fn ones_below(word: u16, width: u16) -> (total: u16)
    requires
        width <= 16,
    ensures
        total == count_ones(word, width as nat),
        total <= width,
{
    let mut total: u16 = 0;
    let mut index: u16 = 0;
    while index < width
        invariant
            index <= width <= 16,
            total <= index,
            total == count_ones(word, index as nat),
        decreases width - index,
    {
        let bit: u16 = (word >> index) & 1;
        assert(bit == 0 || bit == 1) by (bit_vector)
            requires
                bit == (word >> index) & 1u16,
        ;
        total = total + bit;
        index = index + 1;
    }
    total
}

/// Calculate even parity bit for the lower 15 bits of a 16-bit value.
///
/// The result is `true` exactly when the parity bit has to be set so that the
/// whole frame carries an even number of ones.
pub fn calculate_parity(value: u16) -> (odd: bool)
    ensures
        odd == parity_of(value),
{
    ones_below(value, 15) % 2 == 1
}

/// Verify even parity of a 16-bit frame.
pub fn verify_parity(frame: u16) -> (even: bool)
    ensures
        even == has_even_parity(frame),
{
    ones_below(frame, 16) % 2 == 0
}

/// The exclusive or of all 16 bits of `word`, in bit 0 of the result.
pub open spec fn folded(word: u16) -> u16 {
    let bytes = word ^ (word >> 8u16);
    let nibbles = bytes ^ (bytes >> 4u16);
    let pairs = nibbles ^ (nibbles >> 2u16);
    (pairs ^ (pairs >> 1u16)) & 1u16
}

/// The number of ones is odd exactly when the exclusive or of the bits is
/// one. This gives both parities in a form that can be evaluated.
pub proof fn parity_by_folding(word: u16)
    ensures
        has_even_parity(word) <==> folded(word) == 0,
        parity_of(word) <==> folded(word & 0x7FFF) == 1,
{
    let b0 = (word >> 0u16) & 1u16;
    let b1 = (word >> 1u16) & 1u16;
    let b2 = (word >> 2u16) & 1u16;
    let b3 = (word >> 3u16) & 1u16;
    let b4 = (word >> 4u16) & 1u16;
    let b5 = (word >> 5u16) & 1u16;
    let b6 = (word >> 6u16) & 1u16;
    let b7 = (word >> 7u16) & 1u16;
    let b8 = (word >> 8u16) & 1u16;
    let b9 = (word >> 9u16) & 1u16;
    let b10 = (word >> 10u16) & 1u16;
    let b11 = (word >> 11u16) & 1u16;
    let b12 = (word >> 12u16) & 1u16;
    let b13 = (word >> 13u16) & 1u16;
    let b14 = (word >> 14u16) & 1u16;
    let b15 = (word >> 15u16) & 1u16;
    let low = b0 + b1 + b2 + b3 + b4 + b5 + b6 + b7 + b8 + b9 + b10 + b11 + b12 + b13 + b14;
    assert({
        &&& b0 <= 1 && b1 <= 1 && b2 <= 1 && b3 <= 1 && b4 <= 1 && b5 <= 1 && b6 <= 1 && b7 <= 1
        &&& b8 <= 1 && b9 <= 1 && b10 <= 1 && b11 <= 1 && b12 <= 1 && b13 <= 1 && b14 <= 1
        &&& b15 <= 1
        &&& (b0 + b1 + b2 + b3 + b4 + b5 + b6 + b7 + b8 + b9 + b10 + b11 + b12 + b13 + b14 + b15)
            % 2 == folded(word)
        &&& (b0 + b1 + b2 + b3 + b4 + b5 + b6 + b7 + b8 + b9 + b10 + b11 + b12 + b13 + b14) % 2
            == folded(word & 0x7FFF)
    }) by (bit_vector)
        requires
            b0 == (word >> 0u16) & 1u16,
            b1 == (word >> 1u16) & 1u16,
            b2 == (word >> 2u16) & 1u16,
            b3 == (word >> 3u16) & 1u16,
            b4 == (word >> 4u16) & 1u16,
            b5 == (word >> 5u16) & 1u16,
            b6 == (word >> 6u16) & 1u16,
            b7 == (word >> 7u16) & 1u16,
            b8 == (word >> 8u16) & 1u16,
            b9 == (word >> 9u16) & 1u16,
            b10 == (word >> 10u16) & 1u16,
            b11 == (word >> 11u16) & 1u16,
            b12 == (word >> 12u16) & 1u16,
            b13 == (word >> 13u16) & 1u16,
            b14 == (word >> 14u16) & 1u16,
            b15 == (word >> 15u16) & 1u16,
    ;
    assert(count_ones(word, 1) == b0) by {
        assert(count_ones(word, 0) == 0);
    }
    assert(count_ones(word, 2) == b0 + b1);
    assert(count_ones(word, 3) == b0 + b1 + b2);
    assert(count_ones(word, 4) == b0 + b1 + b2 + b3);
    assert(count_ones(word, 5) == b0 + b1 + b2 + b3 + b4);
    assert(count_ones(word, 6) == b0 + b1 + b2 + b3 + b4 + b5);
    assert(count_ones(word, 7) == b0 + b1 + b2 + b3 + b4 + b5 + b6);
    assert(count_ones(word, 8) == b0 + b1 + b2 + b3 + b4 + b5 + b6 + b7);
    let half = b0 + b1 + b2 + b3 + b4 + b5 + b6 + b7;
    assert(count_ones(word, 9) == half + b8);
    assert(count_ones(word, 10) == half + b8 + b9);
    assert(count_ones(word, 11) == half + b8 + b9 + b10);
    assert(count_ones(word, 12) == half + b8 + b9 + b10 + b11);
    assert(count_ones(word, 13) == half + b8 + b9 + b10 + b11 + b12);
    assert(count_ones(word, 14) == half + b8 + b9 + b10 + b11 + b12 + b13);
    assert(count_ones(word, 15) == low);
    assert(count_ones(word, 16) == low + b15);
}

/// The mask of the parity bit, the most significant bit of a frame.
pub const PARITY_BIT: u16 = 0x8000;

/// Sets or clears the parity bit of `value` so that the frame has even parity.
pub fn with_parity(value: u16) -> (frame: u16)
    ensures
        frame == sealed(value),
        has_even_parity(frame),
        frame & 0x7FFF == value & 0x7FFF,
{
    proof {
        sealing_gives_even_parity(value);
    }
    let low: u16 = value & 0x7FFF;
    if calculate_parity(value) {
        low | PARITY_BIT
    } else {
        low
    }
}

/// Words that agree on their low 15 bits hold equally many ones in any
/// prefix of those bits.
pub proof fn count_ones_of_low_bits(a: u16, b: u16, width: nat)
    requires
        width <= 15,
        a & 0x7FFF == b & 0x7FFF,
    ensures
        count_ones(a, width) == count_ones(b, width),
    decreases width,
{
    if width > 0 {
        count_ones_of_low_bits(a, b, (width - 1) as nat);
        let index = (width - 1) as u16;
        assert((a >> index) & 1u16 == (b >> index) & 1u16) by (bit_vector)
            requires
                a & 0x7FFF == b & 0x7FFF,
                index < 15,
        ;
    }
}

/// A sealed word passes the parity check and keeps the low 15 bits of the
/// word it was made from.
pub proof fn sealing_gives_even_parity(value: u16)
    ensures
        has_even_parity(sealed(value)),
        sealed(value) & 0x7FFF == value & 0x7FFF,
        parity_of(sealed(value)) == parity_of(value),
{
    let frame = sealed(value);
    assert(((value & 0x7FFFu16) | 0x8000u16) & 0x7FFF == value & 0x7FFF) by (bit_vector);
    assert((value & 0x7FFFu16) & 0x7FFF == value & 0x7FFF) by (bit_vector);
    count_ones_of_low_bits(frame, value, 15);
    assert((((value & 0x7FFFu16) | 0x8000u16) >> 15u16) & 1u16 == 1u16) by (bit_vector);
    assert(((value & 0x7FFFu16) >> 15u16) & 1u16 == 0u16) by (bit_vector);
    assert(count_ones(frame, 16) == count_ones(frame, 15) + bit_at(frame, 15));
}

/// The parity check looks at all 16 bits: a frame passes exactly when its
/// parity bit equals the parity of its low 15 bits.
pub proof fn parity_bit_matches(frame: u16)
    ensures
        has_even_parity(frame) <==> (frame & 0x8000 != 0) == parity_of(frame),
        has_even_parity(frame) <==> frame == sealed(frame),
{
    assert(count_ones(frame, 16) == count_ones(frame, 15) + bit_at(frame, 15));
    assert(((frame >> 15u16) & 1u16 == 1u16) == (frame & 0x8000u16 != 0)) by (bit_vector);
    assert(frame & 0x8000u16 != 0 ==> (frame & 0x7FFFu16) | 0x8000u16 == frame) by (bit_vector);
    assert(frame & 0x8000u16 == 0 ==> frame & 0x7FFFu16 == frame) by (bit_vector);
    assert(frame & 0x8000u16 != 0 ==> frame & 0x7FFFu16 != frame) by (bit_vector);
    assert(frame & 0x8000u16 == 0 ==> (frame & 0x7FFFu16) | 0x8000u16 != frame) by (bit_vector);
}

} // verus!
