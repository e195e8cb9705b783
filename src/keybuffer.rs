//! The AT shift registers and the one-slot hand-off buffer between the
//! clock-edge handler and the main loop.

use crate::bits::{bit_of, lsb_first, odd_parity, odd_parity_bit};
use vstd::prelude::*;

verus! {

/// Number of bits in an AT frame: start, eight data bits, parity, stop.
pub const FRAME_BITS: u8 = 11;

/// Bit `i` of a 16-bit word, as a boolean.
pub open spec fn word_bit(w: u16, i: int) -> bool {
    (w >> (i as u16)) & 1 == 1
}

/// The AT frame that carries `b`: start bit low, the data least significant
/// bit first, the odd parity bit, stop bit high.
pub open spec fn at_frame(b: u8) -> Seq<bool> {
    seq![false] + lsb_first(b) + seq![odd_parity(b), true]
}

/// Accumulates an incoming AT frame one bit per clock edge. Each bit enters at
/// the top of an 11-bit window, bit 11, while the earlier ones move down, so a
/// complete frame has its start bit at bit 1, the data least significant bit
/// first in bits 2 to 9, the parity bit at bit 10 and the stop bit at bit 11;
/// bit 0 and bits 12 to 15 stay clear.
pub struct KeyIn {
    contents: u16,
    pos: u8,
}

impl View for KeyIn {
    type V = Seq<bool>;

    /// The bits received since the last clear, oldest first.
    closed spec fn view(&self) -> Seq<bool> {
        Seq::new(self.pos as nat, |j: int| word_bit(self.contents, 12 - self.pos + j))
    }
}

proof fn lemma_shift_in_bits(w: u16, b: u16, k: u16)
    by (bit_vector)
    requires
        b <= 1,
        k < 12,
        w < 0x1000,
    ensures
        ((((w >> 1u16) | (b << 11u16)) >> k) & 1) == if k == 11 {
            b
        } else {
            (w >> ((k + 1) as u16)) & 1
        },
{
}

proof fn lemma_shift_in_low(w: u16, b: u16, n: u16)
    by (bit_vector)
    requires
        b <= 1,
        2 <= n <= 12,
        w & ((1u16 << n) - 1) as u16 == 0,
        w < 0x1000,
    ensures
        ((w >> 1u16) | (b << 11u16)) & ((1u16 << ((n - 1) as u16)) - 1) as u16 == 0,
        ((w >> 1u16) | (b << 11u16)) < 0x1000,
{
}

impl KeyIn {
    /// The register's own invariant: at most a frame's worth of bits, and only
    /// the positions those bits occupy may be set.
    pub closed spec fn wf(&self) -> bool {
        &&& self.pos <= FRAME_BITS
        &&& self.contents < 0x1000
        &&& self.contents & ((1u16 << ((12 - self.pos) as u16)) - 1) as u16 == 0
    }

    /// The raw accumulator.
    pub closed spec fn word(&self) -> u16 {
        self.contents
    }

    pub fn new() -> (r: KeyIn)
        ensures
            r.wf(),
            r@ == Seq::<bool>::empty(),
    {
        assert(0u16 & ((1u16 << 12u16) - 1) as u16 == 0) by (bit_vector);
        KeyIn { contents: 0, pos: 0 }
    }

    pub fn is_full(&self) -> (r: bool)
        requires
            self.wf(),
        ensures
            r == (self@.len() == FRAME_BITS as nat),
    {
        self.pos >= FRAME_BITS
    }

    pub fn clear(&mut self)
        ensures
            final(self).wf(),
            final(self)@ == Seq::<bool>::empty(),
    {
        assert(0u16 & ((1u16 << 12u16) - 1) as u16 == 0) by (bit_vector);
        self.contents = 0;
        self.pos = 0;
    }

    /// Appends one received bit.
    pub fn shift_in(&mut self, bit: bool)
        requires
            old(self).wf(),
            old(self)@.len() < FRAME_BITS as nat,
        ensures
            final(self).wf(),
            final(self)@ == old(self)@.push(bit),
    {
        let b: u16 = if bit { 1 } else { 0 };
        let ghost w = self.contents;
        let ghost n = (12 - self.pos) as u16;
        proof {
            lemma_shift_in_low(w, b, n);
        }
        self.contents = (self.contents >> 1u16) | (b << 11u16);
        self.pos = self.pos + 1;
        let ghost nw = self.contents;
        proof {
            assert forall|j: int| 0 <= j < self.pos implies word_bit(nw, 12 - self.pos + j)
                == old(self)@.push(bit)[j] by {
                let k = (12 - self.pos + j) as u16;
                lemma_shift_in_bits(w, b, k);
                if j < old(self).pos {
                    assert((k + 1) as u16 == (12 - old(self).pos + j) as u16);
                }
            }
            assert(self@ =~= old(self)@.push(bit));
        }
    }

    /// Where a complete frame stands in the accumulated word: received bit `j`
    /// at bit `j + 1`, every other bit clear.
    pub proof fn lemma_full_word(&self)
        requires
            self.wf(),
            self@.len() == FRAME_BITS as nat,
        ensures
            forall|j: int| 0 <= j < FRAME_BITS ==> word_bit(self.word(), j + 1) == #[trigger] self@[j],
            self.word() & 1 == 0,
            self.word() < 0x1000,
    {
        let w = self.contents;
        assert(w & ((1u16 << 1u16) - 1) as u16 == 0 ==> w & 1 == 0) by (bit_vector);
        assert forall|j: int| 0 <= j < FRAME_BITS implies word_bit(self.word(), j + 1) == #[trigger] self@[j] by {
            assert(12 - self.pos + j == j + 1);
        }
    }

    /// The accumulated word, once a whole frame is in.
    pub fn take(&self) -> (r: Option<u16>)
        requires
            self.wf(),
        ensures
            r == (if self@.len() == FRAME_BITS as nat {
                Some(self.word())
            } else {
                None
            }),
    {
        if self.pos >= FRAME_BITS {
            Some(self.contents)
        } else {
            None
        }
    }
}

/// Holds the AT frame being sent to the keyboard and hands it out one bit per
/// clock edge, start bit first.
pub struct KeyOut {
    frame: u16,
    pos: u8,
}

impl View for KeyOut {
    type V = Seq<bool>;

    /// The bits not yet sent, next one first.
    closed spec fn view(&self) -> Seq<bool> {
        Seq::new((FRAME_BITS - self.pos) as nat, |i: int| word_bit(self.frame, self.pos + i))
    }
}

proof fn lemma_frame_word_bits(bb: u16, p: u16, i: u16)
    by (bit_vector)
    requires
        bb < 256,
        p <= 1,
        i < 11,
    ensures
        ((((bb << 1u16) | (p << 9u16) | 0x400u16) >> i) & 1) == if i == 0 {
            0u16
        } else if i <= 8 {
            (bb >> ((i - 1) as u16)) & 1
        } else if i == 9 {
            p
        } else {
            1u16
        },
{
}

proof fn lemma_byte_bit_widen(b: u8, bb: u16, i: u16)
    by (bit_vector)
    requires
        bb == b as u16,
        i < 8,
    ensures
        ((bb >> i) & 1 == 1) == ((b >> (i as u8)) & 1 == 1),
{
}

impl KeyOut {
    pub closed spec fn wf(&self) -> bool {
        self.pos <= FRAME_BITS
    }

    /// An empty register: nothing to send.
    pub fn new() -> (r: KeyOut)
        ensures
            r.wf(),
            r@ == Seq::<bool>::empty(),
    {
        KeyOut { frame: 0, pos: FRAME_BITS }
    }

    pub fn is_empty(&self) -> (r: bool)
        requires
            self.wf(),
        ensures
            r == (self@.len() == 0),
    {
        self.pos >= FRAME_BITS
    }

    /// Drops whatever is left to send.
    pub fn clear(&mut self)
        ensures
            final(self).wf(),
            final(self)@ == Seq::<bool>::empty(),
    {
        self.pos = FRAME_BITS;
    }

    /// Loads the frame for `byte` into an empty register; a register that still
    /// holds bits to send is left as it is and reported.
    pub fn put(&mut self, byte: u8) -> (r: Result<(), ()>)
        requires
            old(self).wf(),
        ensures
            final(self).wf(),
            r is Ok <==> old(self)@.len() == 0,
            r is Ok ==> final(self)@ == at_frame(byte),
            r is Err ==> final(self)@ == old(self)@,
    {
        if self.pos < FRAME_BITS {
            return Err(());
        }
        let parity: u16 = if odd_parity_bit(byte) { 1 } else { 0 };
        let bb: u16 = byte as u16;
        self.frame = (bb << 1u16) | (parity << 9u16) | 0x400u16;
        self.pos = 0;
        proof {
            assert forall|i: int| 0 <= i < FRAME_BITS implies word_bit(self.frame, i)
                == at_frame(byte)[i] by {
                lemma_frame_word_bits(bb, parity, i as u16);
                if 1 <= i <= 8 {
                    lemma_byte_bit_widen(byte, bb, (i - 1) as u16);
                }
            }
            assert(self@ =~= at_frame(byte));
        }
        Ok(())
    }

    /// Hands out the next bit to send.
    pub fn shift_out(&mut self) -> (r: bool)
        requires
            old(self).wf(),
            old(self)@.len() > 0,
        ensures
            final(self).wf(),
            r == old(self)@[0],
            final(self)@ == old(self)@.drop_first(),
    {
        let bit = (self.frame >> (self.pos as u16)) & 1 == 1;
        self.pos = self.pos + 1;
        assert(self@ =~= old(self)@.drop_first());
        bit
    }
}

/// One slot that carries a completed frame word from the clock-edge handler to
/// the main loop. A second word put before the first is taken replaces it.
pub struct KeycodeBuffer {
    present: bool,
    word: u16,
}

impl View for KeycodeBuffer {
    type V = Option<u16>;

    closed spec fn view(&self) -> Option<u16> {
        if self.present {
            Some(self.word)
        } else {
            None
        }
    }
}

impl KeycodeBuffer {
    pub fn new() -> (r: KeycodeBuffer)
        ensures
            r@ is None,
    {
        KeycodeBuffer { present: false, word: 0 }
    }

    pub fn is_empty(&self) -> (r: bool)
        ensures
            r == (self@ is None),
    {
        !self.present
    }

    pub fn put(&mut self, word: u16)
        ensures
            final(self)@ == Some(word),
    {
        self.present = true;
        self.word = word;
    }

    /// Removes and returns the stored word, if there is one.
    pub fn take(&mut self) -> (r: Option<u16>)
        ensures
            r == old(self)@,
            final(self)@ is None,
    {
        if self.present {
            self.present = false;
            Some(self.word)
        } else {
            None
        }
    }

    pub fn flush(&mut self)
        ensures
            final(self)@ is None,
    {
        self.present = false;
    }
}

} // verus!
