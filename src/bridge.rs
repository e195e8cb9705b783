//! The main loop's glue between the state machine, the shared bus state and the
//! pin-level sequences: which steps a command takes and what it replies.

use crate::bus::WaitStep;
use crate::keyfsm::{Cmd, ProcReply};
use crate::wire::{
    at_script, host_reset, led_script, send_byte_to_at_keyboard, send_byte_to_pc, toggle_leds,
    xt_script, host_reset_script, RESET_KEYBOARD, Action,
};
use vstd::prelude::*;

verus! {

/// The steps that run once at boot, before the state machine starts: a keyboard reset.
pub fn boot() -> (r: Vec<Action>)
    ensures
        r@ == at_script(RESET_KEYBOARD),
{
    send_byte_to_at_keyboard(RESET_KEYBOARD)
}

/// The pin-level steps that carry out `cmd`. Emptying the buffer and waiting
/// for a key take none: they work on the shared state.
pub fn actions_for(cmd: Cmd) -> (r: Vec<Action>)
    ensures
        r@ == match cmd {
            Cmd::ToggleLed(m) => led_script(m),
            Cmd::SendXTKey(k) => xt_script(k),
            Cmd::ClearBuffer => Seq::<Action>::empty(),
            Cmd::WaitForKey => Seq::<Action>::empty(),
        },
{
    match cmd {
        Cmd::ToggleLed(m) => toggle_leds(m),
        Cmd::SendXTKey(k) => send_byte_to_pc(k),
        Cmd::ClearBuffer => Vec::new(),
        Cmd::WaitForKey => Vec::new(),
    }
}

/// The reply owed once the steps of `cmd` are done; waiting for a key has none
/// of its own (see `reply_for_wait`).
pub fn reply_for(cmd: Cmd) -> (r: Option<ProcReply>)
    ensures
        r == match cmd {
            Cmd::ToggleLed(m) => Some(ProcReply::LedToggled(m)),
            Cmd::SendXTKey(k) => Some(ProcReply::SentKey(k)),
            Cmd::ClearBuffer => Some(ProcReply::ClearedBuffer),
            Cmd::WaitForKey => None,
        },
{
    match cmd {
        Cmd::ToggleLed(m) => Some(ProcReply::LedToggled(m)),
        Cmd::SendXTKey(k) => Some(ProcReply::SentKey(k)),
        Cmd::ClearBuffer => Some(ProcReply::ClearedBuffer),
        Cmd::WaitForKey => None,
    }
}

/// What one look while waiting for a key leads to: the steps to carry out and,
/// when the wait is over, the reply. A host reset is answered by resetting the
/// keyboard and reporting a passed self-test to the host.
pub fn reply_for_wait(step: WaitStep) -> (r: (Vec<Action>, Option<ProcReply>))
    ensures
        match step {
            WaitStep::KeepWaiting => r.0@ == Seq::<Action>::empty() && r.1 is None,
            WaitStep::HostReset => r.0@ == host_reset_script() && r.1 == Some(ProcReply::KeyboardReset),
            WaitStep::Key(k) => r.0@ == Seq::<Action>::empty() && r.1 == Some(ProcReply::GrabbedKey(k)),
        },
{
    match step {
        WaitStep::KeepWaiting => (Vec::new(), None),
        WaitStep::HostReset => (host_reset(), Some(ProcReply::KeyboardReset)),
        WaitStep::Key(k) => (Vec::new(), Some(ProcReply::GrabbedKey(k))),
    }
}

} // verus!
