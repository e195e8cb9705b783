//! The state that the AT clock-edge handler and the main loop share, and the
//! decisions each of them takes on it.

use crate::bits::{odd_parity, odd_parity_bit, lsb_first, reverse_bits, scancode_from_frame, scancode_of};
use crate::keybuffer::{word_bit, KeyIn, KeyOut, KeycodeBuffer, FRAME_BITS};
use vstd::prelude::*;

verus! {

/// `w` is the accumulated word of the complete frame `s`: bit `j` of the frame
/// at bit `j + 1`, all other bits clear.
pub open spec fn word_holds(w: u16, s: Seq<bool>) -> bool {
    &&& s.len() == FRAME_BITS as nat
    &&& w < 0x1000
    &&& w & 1 == 0
    &&& forall|j: int| 0 <= j < FRAME_BITS ==> word_bit(w, j + 1) == #[trigger] s[j]
}

/// What the pins must do after one falling edge of the AT clock. The pending
/// edge is cleared in every case.
#[derive(Clone, Copy, Debug, PartialEq, Eq, Structural)]
pub enum EdgeAction {
    /// Drive the AT data line to `level`; with `release`, let go of both AT lines afterwards.
    DriveData { level: bool, release: bool },
    /// The keyboard acknowledged the byte sent to it.
    AckSeen,
    /// A whole frame came in: inhibit the keyboard, then release both AT lines.
    FrameStored,
    /// Nothing to drive.
    NoAction,
}

/// What one look at the input buffer and the host reset line while waiting for a key decided.
#[derive(Clone, Copy, Debug, PartialEq, Eq, Structural)]
pub enum WaitStep {
    /// Nothing yet: look again.
    KeepWaiting,
    /// The host pulled its reset line low with no key pending.
    HostReset,
    /// A key came in; this is its scancode.
    Key(u8),
}

/// The flags, shift registers and input buffer shared by the clock-edge handler
/// and the main loop.
pub struct AtBus {
    /// The firmware is driving the AT bus, sending a byte to the keyboard.
    pub host_mode: bool,
    /// The keyboard acknowledged the last byte sent to it.
    pub device_ack: bool,
    pub key_in: KeyIn,
    pub key_out: KeyOut,
    pub in_buffer: KeycodeBuffer,
}

proof fn lemma_data_byte(w: u16, b: u8)
    by (bit_vector)
    requires
        (w >> 2u16) & 1 == (b & 1) as u16,
        (w >> 3u16) & 1 == ((b >> 1u8) & 1) as u16,
        (w >> 4u16) & 1 == ((b >> 2u8) & 1) as u16,
        (w >> 5u16) & 1 == ((b >> 3u8) & 1) as u16,
        (w >> 6u16) & 1 == ((b >> 4u8) & 1) as u16,
        (w >> 7u16) & 1 == ((b >> 5u8) & 1) as u16,
        (w >> 8u16) & 1 == ((b >> 6u8) & 1) as u16,
        (w >> 9u16) & 1 == ((b >> 7u8) & 1) as u16,
    ensures
        (((w & !0x4001u16) >> 2u16) & 0xff) as u8 == b,
{
}

proof fn lemma_bit_as_bool(x: u16, y: u8)
    by (bit_vector)
    requires
        x <= 1,
        y <= 1,
        (x == 1) == (y == 1),
    ensures
        x == y as u16,
{
}

proof fn lemma_data_bit(w: u16, s: Seq<bool>, b: u8, i: u16)
    requires
        word_holds(w, s),
        s.subrange(1, 9) == lsb_first(b),
        i < 8,
    ensures
        (w >> ((i + 2) as u16)) & 1 == ((b >> (i as u8)) & 1) as u16,
{
    assert(word_bit(w, (i + 1) as int + 1) == s[(i + 1) as int]);
    assert(s.subrange(1, 9)[i as int] == s[(i + 1) as int]);
    let x = (w >> ((i + 2) as u16)) & 1;
    let y = (b >> (i as u8)) & 1;
    assert(x <= 1) by (bit_vector)
        requires
            x == (w >> ((i + 2) as u16)) & 1,
    ;
    assert(y <= 1) by (bit_vector)
        requires
            y == (b >> (i as u8)) & 1,
    ;
    lemma_bit_as_bool(x, y);
}

/// A frame word whose data positions carry `b`, least significant bit lowest,
/// holds the scancode `reverse_bits(b)`.
pub proof fn lemma_scancode_of_frame(w: u16, s: Seq<bool>, b: u8)
    requires
        word_holds(w, s),
        s.subrange(1, 9) == lsb_first(b),
    ensures
        scancode_of(w) == reverse_bits(b),
{
    lemma_data_bit(w, s, b, 0);
    lemma_data_bit(w, s, b, 1);
    lemma_data_bit(w, s, b, 2);
    lemma_data_bit(w, s, b, 3);
    lemma_data_bit(w, s, b, 4);
    lemma_data_bit(w, s, b, 5);
    lemma_data_bit(w, s, b, 6);
    lemma_data_bit(w, s, b, 7);
    assert((b >> 0u8) & 1 == b & 1) by (bit_vector);
    assert((w >> 2u16) & 1 == (b & 1) as u16);
    lemma_data_byte(w, b);
}

impl AtBus {
    /// Between edges the input register never holds a whole frame.
    pub open spec fn wf(&self) -> bool {
        &&& self.key_in.wf()
        &&& self.key_in@.len() < FRAME_BITS as nat
        &&& self.key_out.wf()
    }

    /// The state at power-on: receiving, no flag set, registers and buffer empty.
    pub fn new() -> (r: AtBus)
        ensures
            r.wf(),
            !r.host_mode,
            !r.device_ack,
            r.key_in@ == Seq::<bool>::empty(),
            r.key_out@ == Seq::<bool>::empty(),
            r.in_buffer@ is None,
    {
        AtBus {
            host_mode: false,
            device_ack: false,
            key_in: KeyIn::new(),
            key_out: KeyOut::new(),
            in_buffer: KeycodeBuffer::new(),
        }
    }

    /// Handles one falling edge of the AT clock; `at_data_high` is the level of
    /// the AT data line sampled at that edge. In host mode the next bit of the
    /// outgoing frame is driven, or, once it is all out, a low data line is the
    /// keyboard's acknowledgement. Otherwise the bit is shifted in, and a whole
    /// frame goes to the input buffer.
    pub fn on_clock_edge(&mut self, at_data_high: bool) -> (r: EdgeAction)
        requires
            old(self).wf(),
        ensures
            final(self).wf(),
            final(self).host_mode == old(self).host_mode,
            old(self).host_mode && old(self).key_out@.len() > 0 ==> {
                &&& r == (EdgeAction::DriveData {
                    level: old(self).key_out@[0],
                    release: old(self).key_out@.len() == 1,
                })
                &&& final(self).key_out@ == old(self).key_out@.drop_first()
                &&& final(self).device_ack == old(self).device_ack
                &&& final(self).key_in@ == old(self).key_in@
                &&& final(self).in_buffer@ == old(self).in_buffer@
            },
            old(self).host_mode && old(self).key_out@.len() == 0 ==> {
                &&& r == (if at_data_high { EdgeAction::NoAction } else { EdgeAction::AckSeen })
                &&& final(self).device_ack == (old(self).device_ack || !at_data_high)
                &&& final(self).key_out@ == Seq::<bool>::empty()
                &&& final(self).key_in@ == old(self).key_in@
                &&& final(self).in_buffer@ == old(self).in_buffer@
            },
            !old(self).host_mode ==> {
                let s = old(self).key_in@.push(at_data_high);
                &&& final(self).device_ack == old(self).device_ack
                &&& final(self).key_out@ == old(self).key_out@
                &&& if s.len() == FRAME_BITS as nat {
                    &&& r == EdgeAction::FrameStored
                    &&& final(self).key_in@ == Seq::<bool>::empty()
                    &&& final(self).in_buffer@ is Some
                    &&& word_holds(final(self).in_buffer@->0, s)
                } else {
                    &&& r == EdgeAction::NoAction
                    &&& final(self).key_in@ == s
                    &&& final(self).in_buffer@ == old(self).in_buffer@
                }
            },
    {
        if self.host_mode {
            if !self.key_out.is_empty() {
                let level = self.key_out.shift_out();
                let release = self.key_out.is_empty();
                EdgeAction::DriveData { level, release }
            } else if !at_data_high {
                self.device_ack = true;
                self.key_out.clear();
                EdgeAction::AckSeen
            } else {
                EdgeAction::NoAction
            }
        } else {
            self.key_in.shift_in(at_data_high);
            if self.key_in.is_full() {
                proof {
                    self.key_in.lemma_full_word();
                }
                match self.key_in.take() {
                    Some(w) => self.in_buffer.put(w),
                    None => {},
                }
                self.key_in.clear();
                EdgeAction::FrameStored
            } else {
                EdgeAction::NoAction
            }
        }
    }

    /// Loads the byte to send to the keyboard into the output register, which
    /// must be empty; a register still busy is reported and left alone.
    pub fn load_frame(&mut self, byte: u8) -> (r: Result<(), ()>)
        requires
            old(self).wf(),
        ensures
            final(self).wf(),
            r is Ok <==> old(self).key_out@.len() == 0,
            r is Ok ==> final(self).key_out@ == crate::keybuffer::at_frame(byte),
            r is Err ==> final(self).key_out@ == old(self).key_out@,
            final(self).host_mode == old(self).host_mode,
            final(self).device_ack == old(self).device_ack,
            final(self).key_in@ == old(self).key_in@,
            final(self).in_buffer@ == old(self).in_buffer@,
    {
        self.key_out.put(byte)
    }

    /// Hands the rest of the frame to the clock-edge handler: host mode on,
    /// any earlier acknowledgement forgotten, and any frame the keyboard had
    /// begun before it was inhibited dropped, so that what it sends after the
    /// transmission is received from its first bit.
    pub fn hand_over(&mut self)
        requires
            old(self).wf(),
        ensures
            final(self).wf(),
            final(self).host_mode,
            !final(self).device_ack,
            final(self).key_out@ == old(self).key_out@,
            final(self).key_in@ == Seq::<bool>::empty(),
            final(self).in_buffer@ == old(self).in_buffer@,
    {
        self.key_in.clear();
        self.host_mode = true;
        self.device_ack = false;
    }

    /// Ends a transmission once the keyboard acknowledged it: back to receiving.
    pub fn finish_transmit(&mut self)
        requires
            old(self).wf(),
        ensures
            final(self).wf(),
            !final(self).host_mode,
            final(self).device_ack == old(self).device_ack,
            final(self).key_out@ == old(self).key_out@,
            final(self).key_in@ == old(self).key_in@,
            final(self).in_buffer@ == old(self).in_buffer@,
    {
        self.host_mode = false;
    }

    /// Empties the input buffer.
    pub fn flush(&mut self)
        requires
            old(self).wf(),
        ensures
            final(self).wf(),
            final(self).in_buffer@ is None,
            final(self).host_mode == old(self).host_mode,
            final(self).device_ack == old(self).device_ack,
            final(self).key_out@ == old(self).key_out@,
            final(self).key_in@ == old(self).key_in@,
    {
        self.in_buffer.flush();
    }

    /// One look while waiting for a key: a pending word is taken and its
    /// scancode returned; with none pending, a low host reset line
    /// (`xt_sense_high` false) asks for a reset.
    pub fn wait_for_key_step(&mut self, xt_sense_high: bool) -> (r: WaitStep)
        requires
            old(self).wf(),
        ensures
            final(self).wf(),
            final(self).host_mode == old(self).host_mode,
            final(self).device_ack == old(self).device_ack,
            final(self).key_out@ == old(self).key_out@,
            final(self).key_in@ == old(self).key_in@,
            match old(self).in_buffer@ {
                Some(w) => r == WaitStep::Key(scancode_of(w)) && final(self).in_buffer@ is None,
                None => final(self).in_buffer@ is None && r == (if xt_sense_high {
                    WaitStep::KeepWaiting
                } else {
                    WaitStep::HostReset
                }),
            },
    {
        match self.in_buffer.take() {
            Some(w) => WaitStep::Key(scancode_from_frame(w)),
            None => if xt_sense_high {
                WaitStep::KeepWaiting
            } else {
                WaitStep::HostReset
            },
        }
    }
}

/// Receiving the frame of `b` and extracting its scancode gives the bit
/// reversal of `b`.
pub proof fn lemma_received_scancode(w: u16, b: u8)
    requires
        word_holds(w, crate::keybuffer::at_frame(b)),
    ensures
        scancode_of(w) == reverse_bits(b),
{
    let s = crate::keybuffer::at_frame(b);
    assert(s.subrange(1, 9) =~= lsb_first(b));
    lemma_scancode_of_frame(w, s, b);
}

/// Whether the parity bit of a received frame word makes the data byte and it
/// hold an odd number of ones. The bridge forwards frames without this check;
/// it is there for callers that want to drop damaged frames.
pub fn frame_parity_ok(w: u16) -> (r: bool)
    ensures
        r == (odd_parity(((w >> 2u16) & 0xff) as u8) == word_bit(w, 10)),
{
    let data: u8 = ((w >> 2u16) & 0xff) as u8;
    odd_parity_bit(data) == ((w >> 10u16) & 1 == 1)
}

/// On a received frame, the parity check holds exactly when the frame's parity
/// bit is the odd parity of its data byte.
pub proof fn lemma_frame_parity(w: u16, b: u8, s: Seq<bool>)
    requires
        word_holds(w, s),
        s.subrange(1, 9) == lsb_first(b),
    ensures
        ((w >> 2u16) & 0xff) as u8 == b,
        (odd_parity(((w >> 2u16) & 0xff) as u8) == word_bit(w, 10)) == (odd_parity(b) == s[9]),
{
    lemma_data_bit(w, s, b, 0);
    lemma_data_bit(w, s, b, 1);
    lemma_data_bit(w, s, b, 2);
    lemma_data_bit(w, s, b, 3);
    lemma_data_bit(w, s, b, 4);
    lemma_data_bit(w, s, b, 5);
    lemma_data_bit(w, s, b, 6);
    lemma_data_bit(w, s, b, 7);
    assert((b >> 0u8) & 1 == b & 1) by (bit_vector);
    assert((w >> 2u16) & 1 == (b & 1) as u16);
    lemma_data_byte_plain(w, b);
}

proof fn lemma_data_byte_plain(w: u16, b: u8)
    by (bit_vector)
    requires
        (w >> 2u16) & 1 == (b & 1) as u16,
        (w >> 3u16) & 1 == ((b >> 1u8) & 1) as u16,
        (w >> 4u16) & 1 == ((b >> 2u8) & 1) as u16,
        (w >> 5u16) & 1 == ((b >> 3u8) & 1) as u16,
        (w >> 6u16) & 1 == ((b >> 4u8) & 1) as u16,
        (w >> 7u16) & 1 == ((b >> 5u8) & 1) as u16,
        (w >> 8u16) & 1 == ((b >> 6u8) & 1) as u16,
        (w >> 9u16) & 1 == ((b >> 7u8) & 1) as u16,
    ensures
        ((w >> 2u16) & 0xff) as u8 == b,
{
}

} // verus!
