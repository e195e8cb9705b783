//! The control state machine: boot the keyboard, light the LEDs in turn, then
//! forward keys, and start over when the host resets. It is a Mealy machine:
//! the main loop hands it the outcome of the last command and gets the next one.

use crate::bits::{reverse_bits, scancode_of};
use crate::bus::{lemma_received_scancode, word_holds};
use crate::keybuffer::at_frame;
use vstd::prelude::*;

verus! {

/// The code for a passed self-test, which the keyboard sends and the host is sent.
pub const BAT_OK: u8 = 0xAA;
/// The keyboard's self-test code as it reads once received: every received
/// code comes out bit-reversed, and `0xAA` reversed is `0x55`.
pub const BAT_RECEIVED: u8 = 0x55;
/// Num Lock LED.
pub const LED_NUM: u8 = 0x02;
/// Caps Lock LED.
pub const LED_CAPS: u8 = 0x04;

/// What the main loop is asked to do next.
#[derive(Clone, Copy, Debug, PartialEq, Eq, Structural)]
pub enum Cmd {
    /// Empty the input buffer.
    ClearBuffer,
    /// Set the keyboard LEDs to this mask.
    ToggleLed(u8),
    /// Send this byte to the host.
    SendXTKey(u8),
    /// Wait for a key from the keyboard, or for a host reset.
    WaitForKey,
}

/// What came of the last command.
#[derive(Clone, Copy, Debug, PartialEq, Eq, Structural)]
pub enum ProcReply {
    /// Nothing has run yet.
    NothingToDo,
    /// A key with this scancode arrived.
    GrabbedKey(u8),
    /// This byte went to the host.
    SentKey(u8),
    /// The input buffer was emptied.
    ClearedBuffer,
    /// The LEDs were set to this mask.
    LedToggled(u8),
    /// The host asked for a reset, and the keyboard and host were answered.
    KeyboardReset,
}

impl ProcReply {
    /// The reply handed to a machine that has not issued a command yet.
    pub fn init() -> (r: ProcReply)
        ensures
            r == ProcReply::NothingToDo,
    {
        ProcReply::NothingToDo
    }
}

#[derive(Clone, Copy, Debug, PartialEq, Eq, Structural)]
pub enum State {
    /// Nothing issued yet.
    Start,
    /// Waiting for the keyboard's self-test code.
    ExpectBat,
    /// Reporting the self-test code to the host.
    SendBat,
    /// First LED update under way.
    LedInit1,
    /// Second LED update under way.
    LedInit2,
    /// Third LED update under way.
    LedInit3,
    /// Waiting for keys.
    Steady,
    /// Forwarding this key to the host.
    Emit(u8),
    /// Emptying the input buffer after a host reset.
    Flushing,
}

/// The LED masks set in turn after boot: Num Lock, Num and Caps Lock, none.
pub open spec fn led_mask(step: int) -> u8 {
    if step == 0 {
        LED_NUM
    } else if step == 1 {
        LED_CAPS | LED_NUM
    } else {
        0x00
    }
}

/// The transition table: the next state and the command it issues, or `None`
/// where the reply does not fit the state.
pub open spec fn next(s: State, reply: ProcReply) -> Option<(State, Cmd)> {
    match (s, reply) {
        (State::Start, ProcReply::NothingToDo) => Some((State::ExpectBat, Cmd::WaitForKey)),
        (State::ExpectBat, ProcReply::GrabbedKey(k)) => if k == BAT_RECEIVED {
            Some((State::SendBat, Cmd::SendXTKey(BAT_OK)))
        } else {
            Some((State::ExpectBat, Cmd::WaitForKey))
        },
        (State::ExpectBat, ProcReply::KeyboardReset) => Some((State::Flushing, Cmd::ClearBuffer)),
        (State::SendBat, ProcReply::SentKey(k)) => if k == BAT_OK {
            Some((State::LedInit1, Cmd::ToggleLed(led_mask(0))))
        } else {
            None
        },
        (State::LedInit1, ProcReply::LedToggled(m)) => if m == led_mask(0) {
            Some((State::LedInit2, Cmd::ToggleLed(led_mask(1))))
        } else {
            None
        },
        (State::LedInit2, ProcReply::LedToggled(m)) => if m == led_mask(1) {
            Some((State::LedInit3, Cmd::ToggleLed(led_mask(2))))
        } else {
            None
        },
        (State::LedInit3, ProcReply::LedToggled(m)) => if m == led_mask(2) {
            Some((State::Steady, Cmd::WaitForKey))
        } else {
            None
        },
        (State::Steady, ProcReply::GrabbedKey(k)) => Some((State::Emit(k), Cmd::SendXTKey(k))),
        (State::Steady, ProcReply::KeyboardReset) => Some((State::Flushing, Cmd::ClearBuffer)),
        (State::Emit(k), ProcReply::SentKey(j)) => if j == k {
            Some((State::Steady, Cmd::WaitForKey))
        } else {
            None
        },
        (State::Flushing, ProcReply::ClearedBuffer) => Some((State::ExpectBat, Cmd::WaitForKey)),
        _ => None,
    }
}

/// The control state machine.
pub struct Fsm {
    pub state: State,
}

impl Fsm {
    pub fn start() -> (r: Fsm)
        ensures
            r.state == State::Start,
    {
        Fsm { state: State::Start }
    }

    /// Takes the outcome of the last command and returns the next one. A reply
    /// that does not fit the current state gives `None` and changes nothing.
    pub fn run(&mut self, reply: &ProcReply) -> (r: Option<Cmd>)
        ensures
            match next(old(self).state, *reply) {
                Some((s, c)) => r == Some(c) && final(self).state == s,
                None => r is None && final(self).state == old(self).state,
            },
    {
        let step: Option<(State, Cmd)> = match (self.state, *reply) {
            (State::Start, ProcReply::NothingToDo) => Some((State::ExpectBat, Cmd::WaitForKey)),
            (State::ExpectBat, ProcReply::GrabbedKey(k)) => if k == BAT_RECEIVED {
                Some((State::SendBat, Cmd::SendXTKey(BAT_OK)))
            } else {
                Some((State::ExpectBat, Cmd::WaitForKey))
            },
            (State::ExpectBat, ProcReply::KeyboardReset) => Some(
                (State::Flushing, Cmd::ClearBuffer),
            ),
            (State::SendBat, ProcReply::SentKey(k)) => if k == BAT_OK {
                Some((State::LedInit1, Cmd::ToggleLed(LED_NUM)))
            } else {
                None
            },
            (State::LedInit1, ProcReply::LedToggled(m)) => if m == LED_NUM {
                Some((State::LedInit2, Cmd::ToggleLed(LED_CAPS | LED_NUM)))
            } else {
                None
            },
            (State::LedInit2, ProcReply::LedToggled(m)) => if m == LED_CAPS | LED_NUM {
                Some((State::LedInit3, Cmd::ToggleLed(0x00)))
            } else {
                None
            },
            (State::LedInit3, ProcReply::LedToggled(m)) => if m == 0x00 {
                Some((State::Steady, Cmd::WaitForKey))
            } else {
                None
            },
            (State::Steady, ProcReply::GrabbedKey(k)) => Some((State::Emit(k), Cmd::SendXTKey(k))),
            (State::Steady, ProcReply::KeyboardReset) => Some((State::Flushing, Cmd::ClearBuffer)),
            (State::Emit(k), ProcReply::SentKey(j)) => if j == k {
                Some((State::Steady, Cmd::WaitForKey))
            } else {
                None
            },
            (State::Flushing, ProcReply::ClearedBuffer) => Some(
                (State::ExpectBat, Cmd::WaitForKey),
            ),
            _ => None,
        };
        match step {
            Some((s, c)) => {
                self.state = s;
                Some(c)
            },
            None => None,
        }
    }
}

/// Boot sequence: once the keyboard reports a passed self-test, the host is told
/// so, then the LEDs are set to Num Lock, to Num and Caps Lock, and to none,
/// each update only once the previous one is reported done (no other reply is
/// accepted meanwhile), and then keys are awaited. Any other code while waiting
/// for the self-test keeps the machine waiting.
pub proof fn lemma_boot_sequence(k: u8, reply: ProcReply)
    ensures
        next(State::ExpectBat, ProcReply::GrabbedKey(BAT_RECEIVED)) == Some(
            (State::SendBat, Cmd::SendXTKey(BAT_OK)),
        ),
        k != BAT_RECEIVED ==> next(State::ExpectBat, ProcReply::GrabbedKey(k)) == Some(
            (State::ExpectBat, Cmd::WaitForKey),
        ),
        next(State::SendBat, ProcReply::SentKey(BAT_OK)) == Some(
            (State::LedInit1, Cmd::ToggleLed(0x02)),
        ),
        next(State::LedInit1, ProcReply::LedToggled(0x02)) == Some(
            (State::LedInit2, Cmd::ToggleLed(0x06)),
        ),
        next(State::LedInit2, ProcReply::LedToggled(0x06)) == Some(
            (State::LedInit3, Cmd::ToggleLed(0x00)),
        ),
        next(State::LedInit3, ProcReply::LedToggled(0x00)) == Some((State::Steady, Cmd::WaitForKey)),
        next(State::LedInit1, reply) is Some ==> reply == ProcReply::LedToggled(0x02),
        next(State::LedInit2, reply) is Some ==> reply == ProcReply::LedToggled(0x06),
        next(State::LedInit3, reply) is Some ==> reply == ProcReply::LedToggled(0x00),
{
    assert(LED_CAPS | LED_NUM == 0x06) by (bit_vector);
}

/// Host reset: whenever keys are awaited, a reset clears the buffer and the
/// machine then waits for the keyboard's self-test again.
pub proof fn lemma_host_reset_restarts(s: State)
    requires
        s == State::Steady || s == State::ExpectBat,
    ensures
        next(s, ProcReply::KeyboardReset) == Some((State::Flushing, Cmd::ClearBuffer)),
        next(State::Flushing, ProcReply::ClearedBuffer) == Some((State::ExpectBat, Cmd::WaitForKey)),
{
}

/// The keyboard's self-test frame is recognised: waiting for the self-test, the
/// word received from the frame of `0xAA` makes the machine report `0xAA` to the host.
pub proof fn lemma_self_test_recognised(w: u16)
    requires
        word_holds(w, at_frame(BAT_OK)),
    ensures
        next(State::ExpectBat, ProcReply::GrabbedKey(scancode_of(w))) == Some(
            (State::SendBat, Cmd::SendXTKey(BAT_OK)),
        ),
{
    lemma_received_scancode(w, BAT_OK);
    assert(reverse_bits(0xAAu8) == 0x55u8) by (bit_vector);
}

} // verus!
