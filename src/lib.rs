//! A bridge between an AT keyboard and an XT host: the frame codecs, the
//! clock-edge engine, the transmit scripts and the control state machine.

pub mod bits;
pub mod keybuffer;
pub mod bus;
pub mod wire;
pub mod keyfsm;
pub mod bridge;
