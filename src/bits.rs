//! Bit-level helpers: bit reversal, odd parity and the extraction of a scancode
//! from a received AT frame word.

use bit_reverse::BitwiseReverse;
use vstd::prelude::*;

verus! {

/// Bit `i` of `b`, as 0 or 1.
pub open spec fn bit_of(b: u8, i: u8) -> u8 {
    (b >> i) & 1
}

/// `b` with its bit order reversed: bit `i` of the input is bit `7 - i` of the result.
pub open spec fn reverse_bits(b: u8) -> u8 {
    (((b & 0x01) << 7u8) | ((b & 0x02) << 5u8) | ((b & 0x04) << 3u8) | ((b & 0x08) << 1u8)
        | ((b & 0x10) >> 1u8) | ((b & 0x20) >> 3u8) | ((b & 0x40) >> 5u8) | ((b & 0x80) >> 7u8))
        as u8
}

/// The bits of `b`, least significant first.
pub open spec fn lsb_first(b: u8) -> Seq<bool> {
    Seq::new(8, |i: int| bit_of(b, i as u8) == 1)
}

/// Number of one bits among the lowest `n` bits of `b`.
pub open spec fn ones_below(b: u8, n: nat) -> nat
    decreases n,
{
    if n == 0 {
        0
    } else {
        ones_below(b, (n - 1) as nat) + bit_of(b, (n - 1) as u8) as nat
    }
}

/// The parity bit that makes the eight data bits and itself hold an odd number of ones.
pub open spec fn odd_parity(b: u8) -> bool {
    ones_below(b, 8) % 2 == 0
}

/// The scancode carried by a received frame word: the start and stop positions
/// masked off, the two lowest bits dropped, the low byte taken and reversed.
pub open spec fn scancode_of(word: u16) -> u8 {
    reverse_bits((((word & !0x4001u16) >> 2u16) & 0xff) as u8)
}

/// Relies on bit_reverse's `BitwiseReverse::swap_bits` for `u8`, which moves bit
/// `i` of its argument to bit `7 - i`.
#[verifier::external_body]
fn swap_bits(b: u8) -> (r: u8)
    ensures
        r == reverse_bits(b),
{
    BitwiseReverse::swap_bits(b)
}

/// Reversing twice gives the byte back.
pub proof fn lemma_reverse_involutive(b: u8)
    ensures
        reverse_bits(reverse_bits(b)) == b,
{
    assert(reverse_bits(reverse_bits(b)) == b) by (bit_vector);
}

/// The parity bit to send after the data byte `b` so that the frame has odd parity.
pub fn odd_parity_bit(b: u8) -> (r: bool)
    ensures
        r == odd_parity(b),
{
    let mut count: u8 = 0;
    let mut i: u8 = 0;
    while i < 8
        invariant
            i <= 8,
            count as nat == ones_below(b, i as nat),
            count <= i,
        decreases 8 - i,
    {
        assert(((b >> i) & 1) <= 1) by (bit_vector);
        count = count + ((b >> i) & 1);
        i = i + 1;
    }
    count % 2 == 0
}

/// The scancode held in a received frame word.
pub fn scancode_from_frame(word: u16) -> (r: u8)
    ensures
        r == scancode_of(word),
{
    let body: u16 = (word & !0x4001u16) >> 2u16;
    swap_bits((body & 0xff) as u8)
}

/// Extracting and reversing the word that a frame of `b` with its parity bit
/// forms gives `b` back: the data sits reversed above the parity bit, with the
/// masked positions set.
pub proof fn lemma_extraction_inverts(b: u8, parity: bool)
    ensures
        scancode_of(
            (0x4001u16 | ((reverse_bits(b) as u16) << 2u16) | ((if parity { 1u16 } else { 0u16 }) << 1u16)) as u16,
        ) == b,
{
    let p: u16 = if parity { 1u16 } else { 0u16 };
    let rb = reverse_bits(b);
    let w: u16 = (0x4001u16 | ((rb as u16) << 2u16) | (p << 1u16)) as u16;
    assert((((w & !0x4001u16) >> 2u16) & 0xff) as u8 == rb) by (bit_vector)
        requires
            w == (0x4001u16 | ((rb as u16) << 2u16) | (p << 1u16)) as u16,
            p <= 1,
    ;
    lemma_reverse_involutive(b);
}

} // verus!
