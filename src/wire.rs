//! The pin-level sequences that the main loop carries out: one XT frame to the
//! host, one byte to the keyboard, an LED update and the answer to a host reset.
//! Each is a list of steps; the platform performs them in order.

use crate::bits::{bit_of, lsb_first, reverse_bits, scancode_of};
use crate::bus::{lemma_received_scancode, word_holds};
use crate::keybuffer::at_frame;
use vstd::prelude::*;

verus! {

/// Half-period of an XT bit cell, in microseconds.
pub const XT_HALF_PERIOD_US: u16 = 55;
/// How long the AT clock is held low to ask the keyboard to listen, in microseconds.
pub const AT_INHIBIT_US: u16 = 100;
/// Time between pulling AT data low and releasing the AT clock, in microseconds.
pub const AT_START_US: u16 = 33;
/// Pause between the LED command and its mask, in microseconds.
pub const LED_PAUSE_US: u16 = 3000;
/// The keyboard command that sets the LEDs; the mask byte follows it.
pub const SET_LEDS: u8 = 0xED;
/// The keyboard command that resets the keyboard.
pub const RESET_KEYBOARD: u8 = 0xFF;
/// What a keyboard reports after a successful self-test, and what the host is sent after a reset.
pub const SELF_TEST_PASSED: u8 = 0xAA;

/// One step of a pin-level sequence.
#[derive(Clone, Copy, Debug, PartialEq, Eq, Structural)]
pub enum Action {
    /// Poll until the host has released both XT lines (both read high).
    WaitXtRelease,
    /// Make both XT lines outputs, driven high.
    XtLinesOut,
    /// Drive XT data high (`true`) or low.
    XtData(bool),
    /// Pull XT clock low.
    XtClockLow,
    /// Release XT clock high.
    XtClockHigh,
    /// Return both XT lines to inputs.
    XtLinesIn,
    /// Busy-wait this many microseconds.
    DelayUs(u16),
    /// With interrupts masked: load the byte into the outgoing AT register
    /// (`AtBus::load_frame`) and disable the AT clock-edge interrupt.
    LoadAtFrame(u8),
    /// Poll until the AT clock reads high (the keyboard is idle).
    WaitAtClockHigh,
    /// Drive AT clock low.
    AtInhibit,
    /// Drive AT data low: the start bit.
    AtDataLow,
    /// With interrupts masked: release AT clock to a pulled-up input, clear a
    /// pending edge, enable the clock-edge interrupt and call `AtBus::hand_over`.
    HandOver,
    /// Poll until the keyboard's acknowledgement is flagged, then call `AtBus::finish_transmit`.
    WaitDeviceAck,
}

/// One XT bit cell: data set, clock low for a half-period, clock released.
pub open spec fn xt_cell(bit: bool) -> Seq<Action> {
    seq![
        Action::XtData(bit),
        Action::XtClockLow,
        Action::DelayUs(XT_HALF_PERIOD_US),
        Action::XtClockHigh,
    ]
}

/// The bit cells for `bits`, in order.
pub open spec fn xt_cells(bits: Seq<bool>) -> Seq<Action>
    decreases bits.len(),
{
    if bits.len() == 0 {
        Seq::empty()
    } else {
        xt_cells(bits.drop_last()) + xt_cell(bits.last())
    }
}

/// The bits of an XT frame: the start pair low then high, then the data least
/// significant bit first.
pub open spec fn xt_frame_bits(byte: u8) -> Seq<bool> {
    seq![false, true] + lsb_first(byte)
}

/// A whole XT frame: wait for the host to let go, take the lines, clock the
/// frame out, give the lines back.
pub open spec fn xt_script(byte: u8) -> Seq<Action> {
    seq![Action::WaitXtRelease, Action::XtLinesOut] + xt_cells(xt_frame_bits(byte))
        + seq![Action::XtLinesIn]
}

/// Sending one byte to the keyboard: load it, wait for an idle clock, inhibit,
/// present the start bit, hand over to the clock-edge handler and wait for the
/// acknowledgement.
pub open spec fn at_script(byte: u8) -> Seq<Action> {
    seq![
        Action::LoadAtFrame(byte),
        Action::WaitAtClockHigh,
        Action::AtInhibit,
        Action::DelayUs(AT_INHIBIT_US),
        Action::AtDataLow,
        Action::DelayUs(AT_START_US),
        Action::HandOver,
        Action::WaitDeviceAck,
    ]
}

/// Setting the keyboard LEDs to `mask`: the LED command, a pause, the mask.
pub open spec fn led_script(mask: u8) -> Seq<Action> {
    at_script(SET_LEDS) + seq![Action::DelayUs(LED_PAUSE_US)] + at_script(mask)
}

/// The answer to a host reset: reset the keyboard, then report a passed
/// self-test to the host.
pub open spec fn host_reset_script() -> Seq<Action> {
    at_script(RESET_KEYBOARD) + xt_script(SELF_TEST_PASSED)
}

fn push_xt_cell(v: &mut Vec<Action>, bit: bool)
    ensures
        final(v)@ == old(v)@ + xt_cell(bit),
{
    v.push(Action::XtData(bit));
    v.push(Action::XtClockLow);
    v.push(Action::DelayUs(XT_HALF_PERIOD_US));
    v.push(Action::XtClockHigh);
    assert(final(v)@ =~= old(v)@ + xt_cell(bit));
}

fn push_at_byte(v: &mut Vec<Action>, byte: u8)
    ensures
        final(v)@ == old(v)@ + at_script(byte),
{
    v.push(Action::LoadAtFrame(byte));
    v.push(Action::WaitAtClockHigh);
    v.push(Action::AtInhibit);
    v.push(Action::DelayUs(AT_INHIBIT_US));
    v.push(Action::AtDataLow);
    v.push(Action::DelayUs(AT_START_US));
    v.push(Action::HandOver);
    v.push(Action::WaitDeviceAck);
    assert(final(v)@ =~= old(v)@ + at_script(byte));
}

/// One XT bit cell for `bit`: data high exactly when `bit` is 1.
pub fn send_xt_bit(bit: u8) -> (r: Vec<Action>)
    ensures
        r@ == xt_cell(bit == 1),
{
    let mut v: Vec<Action> = Vec::new();
    push_xt_cell(&mut v, bit == 1);
    v
}

fn push_xt_frame(v: &mut Vec<Action>, byte: u8)
    ensures
        final(v)@ == old(v)@ + seq![Action::WaitXtRelease, Action::XtLinesOut] + xt_cells(
            xt_frame_bits(byte),
        ) + seq![Action::XtLinesIn],
{
    let ghost start = old(v)@;
    let ghost bits = xt_frame_bits(byte);
    v.push(Action::WaitXtRelease);
    v.push(Action::XtLinesOut);
    let mut cell = send_xt_bit(0);
    v.append(&mut cell);
    let mut cell = send_xt_bit(1);
    v.append(&mut cell);
    proof {
        assert(bits.take(0) =~= Seq::<bool>::empty());
        assert(bits.take(1).drop_last() =~= bits.take(0));
        assert(bits.take(2).drop_last() =~= bits.take(1));
        assert(bits[0] == false && bits[1] == true);
        assert(xt_cells(bits.take(0)) == Seq::<Action>::empty());
        assert(xt_cells(bits.take(1)) == xt_cells(bits.take(0)) + xt_cell(false));
        assert(xt_cells(bits.take(2)) == xt_cells(bits.take(1)) + xt_cell(true));
        assert(v@ =~= start + seq![Action::WaitXtRelease, Action::XtLinesOut] + xt_cells(
            bits.take(2),
        ));
    }
    let mut rest: u8 = byte;
    let mut i: u8 = 0;
    assert(rest == byte >> 0u8) by (bit_vector)
        requires
            rest == byte,
    ;
    while i < 8
        invariant
            i <= 8,
            rest == byte >> i,
            v@ == start + seq![Action::WaitXtRelease, Action::XtLinesOut] + xt_cells(
                bits.take(2 + i),
            ),
            bits == xt_frame_bits(byte),
        decreases 8 - i,
    {
        let mut cell = send_xt_bit(rest & 0x01);
        v.append(&mut cell);
        proof {
            assert((rest & 0x01 == 1) == (bit_of(byte, i) == 1)) by (bit_vector)
                requires
                    rest == byte >> i,
            ;
            assert(bits[2 + i] == lsb_first(byte)[i as int]);
            assert(bits.take(2 + i + 1).drop_last() =~= bits.take(2 + i));
        }
        rest = rest >> 1u8;
        assert(rest == byte >> ((i + 1) as u8)) by (bit_vector)
            requires
                rest == (byte >> i) >> 1u8,
                i < 8,
        ;
        i = i + 1;
    }
    v.push(Action::XtLinesIn);
    assert(bits.take(10) =~= bits);
}

/// The XT frame that sends `byte` to the host.
pub fn send_byte_to_pc(byte: u8) -> (r: Vec<Action>)
    ensures
        r@ == xt_script(byte),
{
    let mut v: Vec<Action> = Vec::new();
    push_xt_frame(&mut v, byte);
    assert(v@ =~= xt_script(byte));
    v
}

/// The steps that send `byte` to the keyboard.
pub fn send_byte_to_at_keyboard(byte: u8) -> (r: Vec<Action>)
    ensures
        r@ == at_script(byte),
{
    let mut v: Vec<Action> = Vec::new();
    push_at_byte(&mut v, byte);
    assert(v@ =~= at_script(byte));
    v
}

/// The steps that set the keyboard LEDs to `mask`.
pub fn toggle_leds(mask: u8) -> (r: Vec<Action>)
    ensures
        r@ == led_script(mask),
{
    let mut v: Vec<Action> = Vec::new();
    push_at_byte(&mut v, SET_LEDS);
    v.push(Action::DelayUs(LED_PAUSE_US));
    push_at_byte(&mut v, mask);
    assert(v@ =~= led_script(mask));
    v
}

/// The steps that answer a host reset.
pub fn host_reset() -> (r: Vec<Action>)
    ensures
        r@ == host_reset_script(),
{
    let mut v: Vec<Action> = Vec::new();
    push_at_byte(&mut v, RESET_KEYBOARD);
    push_xt_frame(&mut v, SELF_TEST_PASSED);
    assert(v@ =~= host_reset_script());
    v
}

/// Frame round trip: when the keyboard sends the frame of `b` (start bit, `b`
/// least significant bit first, odd parity, stop bit) and the received word is
/// forwarded, the host gets exactly one XT frame, whose data bits, least
/// significant first, are those of the bit reversal of `b`.
pub proof fn lemma_frame_round_trip(w: u16, b: u8)
    requires
        word_holds(w, at_frame(b)),
    ensures
        scancode_of(w) == reverse_bits(b),
        xt_script(scancode_of(w)) == seq![Action::WaitXtRelease, Action::XtLinesOut] + xt_cells(
            seq![false, true] + lsb_first(reverse_bits(b)),
        ) + seq![Action::XtLinesIn],
{
    lemma_received_scancode(w, b);
}

/// Host hold-off: an XT frame starts by waiting for the host to release both
/// lines, and nothing is clocked or delayed before that wait; once it ends, the
/// first clock pulse follows with no delay in between.
pub proof fn lemma_xt_hold_off(byte: u8)
    ensures
        xt_script(byte)[0] == Action::WaitXtRelease,
        xt_script(byte)[1] == Action::XtLinesOut,
        xt_script(byte)[2] == Action::XtData(false),
        xt_script(byte)[3] == Action::XtClockLow,
{
    let bits = xt_frame_bits(byte);
    assert(bits.drop_last().len() == 9);
    lemma_xt_cells_prefix(bits);
}

proof fn lemma_xt_cells_prefix(bits: Seq<bool>)
    requires
        bits.len() >= 1,
    ensures
        xt_cells(bits).len() == 4 * bits.len(),
        xt_cells(bits)[0] == Action::XtData(bits[0]),
        xt_cells(bits)[1] == Action::XtClockLow,
    decreases bits.len(),
{
    if bits.len() == 1 {
        assert(bits.drop_last() =~= Seq::<bool>::empty());
    } else {
        lemma_xt_cells_prefix(bits.drop_last());
    }
}

/// Host-initiated reset: the answer first sends the keyboard its reset command
/// and waits for its acknowledgement, and only then sends the host a frame
/// reporting a passed self-test.
pub proof fn lemma_host_reset_order()
    ensures
        host_reset_script().subrange(0, 8) == at_script(RESET_KEYBOARD),
        host_reset_script()[0] == Action::LoadAtFrame(RESET_KEYBOARD),
        host_reset_script()[7] == Action::WaitDeviceAck,
        host_reset_script().subrange(8, host_reset_script().len() as int) == xt_script(
            SELF_TEST_PASSED,
        ),
{
    let s = host_reset_script();
    assert(s.subrange(0, 8) =~= at_script(RESET_KEYBOARD));
    assert(s.subrange(8, s.len() as int) =~= xt_script(SELF_TEST_PASSED));
}

} // verus!
