use at2xt::bits::{odd_parity_bit, scancode_from_frame};
use at2xt::bridge::{actions_for, boot, reply_for, reply_for_wait};
use at2xt::bus::{frame_parity_ok, AtBus, EdgeAction, WaitStep};
use at2xt::keybuffer::{KeyIn, KeyOut, KeycodeBuffer};
use at2xt::keyfsm::{Cmd, Fsm, ProcReply, State};
use at2xt::wire::{host_reset, send_byte_to_at_keyboard, send_byte_to_pc, send_xt_bit, toggle_leds, Action};

fn parity(b: u8) -> bool {
    b.count_ones() % 2 == 0
}

fn at_frame(b: u8) -> Vec<bool> {
    let mut v = vec![false];
    for i in 0..8 {
        v.push((b >> i) & 1 == 1);
    }
    v.push(parity(b));
    v.push(true);
    v
}

/// Clocks one frame from the keyboard into the bus, as the edge handler sees it.
fn keyboard_sends(bus: &mut AtBus, b: u8) -> Vec<EdgeAction> {
    at_frame(b).into_iter().map(|bit| bus.on_clock_edge(bit)).collect()
}

/// The data bytes of the XT frames in a script, checking each frame's shape.
fn xt_bytes(script: &[Action]) -> Vec<u8> {
    let mut out = Vec::new();
    let mut bits: Vec<bool> = Vec::new();
    let mut open = false;
    for a in script {
        match *a {
            Action::WaitXtRelease => {}
            Action::XtLinesOut => {
                open = true;
                bits.clear();
            }
            Action::XtData(b) => {
                assert!(open);
                bits.push(b);
            }
            Action::XtLinesIn => {
                assert!(open);
                assert_eq!(bits.len(), 10);
                assert!(!bits[0] && bits[1]);
                let mut byte = 0u8;
                for (i, b) in bits[2..].iter().enumerate() {
                    if *b {
                        byte |= 1 << i;
                    }
                }
                out.push(byte);
                open = false;
            }
            _ => {}
        }
    }
    out
}

/// A bench of keyboard and host around the library: carries out the steps and
/// records what went over each bus.
struct Bench {
    bus: AtBus,
    to_keyboard: Vec<u8>,
    to_host: Vec<u8>,
    bus_log: Vec<&'static str>,
    /// The keyboard starts clocking a frame of its own before the host's byte is acknowledged.
    keyboard_busy: Option<u8>,
}

impl Bench {
    fn new() -> Bench {
        Bench { bus: AtBus::new(), to_keyboard: vec![], to_host: vec![], bus_log: vec![], keyboard_busy: None }
    }

    fn run(&mut self, script: &[Action]) {
        let mut xt_bits: Vec<bool> = vec![];
        for a in script {
            match *a {
                Action::LoadAtFrame(b) => {
                    self.bus.load_frame(b).unwrap();
                }
                Action::HandOver => {
                    self.bus.hand_over();
                    // The keyboard clocks the frame in: eleven edges, then the acknowledge edge.
                    let mut sent = vec![];
                    for _ in 0..11 {
                        match self.bus.on_clock_edge(true) {
                            EdgeAction::DriveData { level, .. } => sent.push(level),
                            other => panic!("unexpected {:?}", other),
                        }
                    }
                    assert!(!sent[0] && sent[10]);
                    let mut byte = 0u8;
                    for i in 0..8 {
                        if sent[1 + i] {
                            byte |= 1 << i;
                        }
                    }
                    assert_eq!(sent[9], parity(byte));
                    assert_eq!(self.bus.on_clock_edge(false), EdgeAction::AckSeen);
                    self.to_keyboard.push(byte);
                    self.bus_log.push("at");
                }
                Action::WaitDeviceAck => {
                    assert!(self.bus.device_ack);
                    self.bus.finish_transmit();
                    let b = self.to_keyboard[self.to_keyboard.len() - 1];
                    keyboard_sends(&mut self.bus, 0xFA);
                    if b == 0xFF {
                        keyboard_sends(&mut self.bus, 0xAA);
                    }
                    if let Some(k) = self.keyboard_busy.take() {
                        keyboard_sends(&mut self.bus, k);
                    }
                }
                Action::XtLinesOut => xt_bits.clear(),
                Action::XtData(b) => xt_bits.push(b),
                Action::XtLinesIn => {
                    let got = xt_bytes(&script_of_bits(&xt_bits));
                    self.to_host.extend(got);
                    self.bus_log.push("xt");
                }
                _ => {}
            }
        }
    }
}

fn script_of_bits(bits: &[bool]) -> Vec<Action> {
    let mut v = vec![Action::XtLinesOut];
    for b in bits {
        v.push(Action::XtData(*b));
    }
    v.push(Action::XtLinesIn);
    v
}

/// Runs the state machine until it waits for a key with an empty buffer.
fn drive_until_idle(bench: &mut Bench, fsm: &mut Fsm, mut reply: ProcReply) -> ProcReply {
    loop {
        let cmd = fsm.run(&reply).unwrap();
        match cmd {
            Cmd::WaitForKey => {
                let step = bench.bus.wait_for_key_step(true);
                match step {
                    WaitStep::KeepWaiting => return reply,
                    _ => {
                        let (script, r) = reply_for_wait(step);
                        bench.run(&script);
                        reply = r.unwrap();
                    }
                }
            }
            Cmd::ClearBuffer => {
                bench.bus.flush();
                reply = reply_for(cmd).unwrap();
            }
            _ => {
                bench.run(&actions_for(cmd));
                reply = reply_for(cmd).unwrap();
            }
        }
    }
}

#[test]
fn frame_round_trip_every_byte() {
    for b in 0..=255u8 {
        let mut bus = AtBus::new();
        let acts = keyboard_sends(&mut bus, b);
        assert_eq!(acts[10], EdgeAction::FrameStored);
        assert!(acts[..10].iter().all(|a| *a == EdgeAction::NoAction));
        let k = match bus.wait_for_key_step(true) {
            WaitStep::Key(k) => k,
            other => panic!("no key: {:?}", other),
        };
        assert_eq!(k, b.reverse_bits());
        assert_eq!(xt_bytes(&send_byte_to_pc(k)), vec![b.reverse_bits()]);
    }
}

#[test]
fn extraction_inverts_every_byte() {
    for b in 0..=255u8 {
        for p in [false, true] {
            let w: u16 = 0x4001 | ((b.reverse_bits() as u16) << 2) | ((p as u16) << 1);
            assert_eq!(scancode_from_frame(w), b);
        }
    }
}

#[test]
fn scancode_from_frame_values() {
    assert_eq!(scancode_from_frame(0x0000), 0x00);
    assert_eq!(scancode_from_frame(0x0004), 0x80);
    assert_eq!(scancode_from_frame(0x0200), 0x01);
    assert_eq!(scancode_from_frame(0x4001 | (0x38 << 2)), 0x1C);
}

#[test]
fn odd_parity_values() {
    assert!(odd_parity_bit(0x00));
    assert!(odd_parity_bit(0xA5));
    assert!(!odd_parity_bit(0x01));
    assert!(odd_parity_bit(0xFF));
    assert!(!odd_parity_bit(0x1C));
    assert!(odd_parity_bit(0xED) == (0xEDu8.count_ones() % 2 == 0));
}

#[test]
fn xt_frame_waits_for_host_first() {
    let s = send_byte_to_pc(0x5A);
    assert_eq!(s[0], Action::WaitXtRelease);
    assert_eq!(s[1], Action::XtLinesOut);
    assert_eq!(s[2], Action::XtData(false));
    assert_eq!(s[3], Action::XtClockLow);
    assert!(!s[..3].iter().any(|a| matches!(a, Action::DelayUs(_) | Action::XtClockLow)));
    assert_eq!(s.len(), 2 + 40 + 1);
    assert_eq!(*s.last().unwrap(), Action::XtLinesIn);
    assert_eq!(xt_bytes(&s), vec![0x5A]);
}

#[test]
fn xt_bit_cell() {
    assert_eq!(
        send_xt_bit(1),
        vec![Action::XtData(true), Action::XtClockLow, Action::DelayUs(55), Action::XtClockHigh]
    );
    assert_eq!(send_xt_bit(0)[0], Action::XtData(false));
    assert_eq!(send_xt_bit(2)[0], Action::XtData(false));
}

#[test]
fn at_byte_steps() {
    let s = send_byte_to_at_keyboard(0xF4);
    assert_eq!(
        s,
        vec![
            Action::LoadAtFrame(0xF4),
            Action::WaitAtClockHigh,
            Action::AtInhibit,
            Action::DelayUs(100),
            Action::AtDataLow,
            Action::DelayUs(33),
            Action::HandOver,
            Action::WaitDeviceAck,
        ]
    );
}

#[test]
fn led_update_steps() {
    let s = toggle_leds(0x06);
    assert_eq!(s.len(), 17);
    assert_eq!(s[0], Action::LoadAtFrame(0xED));
    assert_eq!(s[7], Action::WaitDeviceAck);
    assert_eq!(s[8], Action::DelayUs(3000));
    assert_eq!(s[9], Action::LoadAtFrame(0x06));
    assert_eq!(s[16], Action::WaitDeviceAck);
}

#[test]
fn host_reset_sends_keyboard_reset_then_self_test_code() {
    let mut bus = AtBus::new();
    assert_eq!(bus.wait_for_key_step(false), WaitStep::HostReset);
    let (script, reply) = reply_for_wait(WaitStep::HostReset);
    assert_eq!(reply, Some(ProcReply::KeyboardReset));
    assert_eq!(script, host_reset());
    assert_eq!(script[0], Action::LoadAtFrame(0xFF));
    let first_xt = script.iter().position(|a| *a == Action::WaitXtRelease).unwrap();
    assert_eq!(first_xt, 8);
    assert_eq!(xt_bytes(&script), vec![0xAA]);
}

#[test]
fn pending_key_wins_over_host_reset() {
    let mut bus = AtBus::new();
    keyboard_sends(&mut bus, 0x1C);
    assert_eq!(bus.wait_for_key_step(false), WaitStep::Key(0x38));
    assert_eq!(bus.wait_for_key_step(true), WaitStep::KeepWaiting);
}

#[test]
fn key_out_frame_bits() {
    let mut k = KeyOut::new();
    assert!(k.is_empty());
    assert_eq!(k.put(0x1C), Ok(()));
    assert_eq!(k.put(0x00), Err(()));
    let mut bits = vec![];
    while !k.is_empty() {
        bits.push(k.shift_out());
    }
    assert_eq!(bits, at_frame(0x1C));
    k.put(0x01).unwrap();
    k.clear();
    assert!(k.is_empty());
}

#[test]
fn key_in_fills_after_eleven_bits() {
    let mut k = KeyIn::new();
    for (i, bit) in at_frame(0x1C).into_iter().enumerate() {
        assert!(!k.is_full());
        assert_eq!(k.take(), None);
        k.shift_in(bit);
        assert_eq!(k.is_full(), i == 10);
    }
    let w = k.take().unwrap();
    assert_eq!(w & 1, 0);
    assert_eq!((w >> 1) & 1, 0);
    assert_eq!((w >> 10) & 1, 0);
    assert_eq!(w >> 11, 1);
    assert_eq!((w >> 2) as u8, 0x1C);
    assert_eq!(scancode_from_frame(w), 0x38);
    k.clear();
    assert!(!k.is_full());
}

#[test]
fn buffer_overwrites_and_flushes() {
    let mut b = KeycodeBuffer::new();
    assert!(b.is_empty());
    assert_eq!(b.take(), None);
    b.put(1);
    b.put(2);
    assert!(!b.is_empty());
    assert_eq!(b.take(), Some(2));
    assert!(b.is_empty());
    b.put(3);
    b.flush();
    assert_eq!(b.take(), None);
}

#[test]
fn edge_handler_sends_frame_then_sees_ack() {
    let mut bus = AtBus::new();
    bus.load_frame(0xED).unwrap();
    assert_eq!(bus.load_frame(0x00), Err(()));
    bus.hand_over();
    assert!(bus.host_mode && !bus.device_ack);
    let expected = at_frame(0xED);
    for i in 0..11 {
        assert_eq!(
            bus.on_clock_edge(true),
            EdgeAction::DriveData { level: expected[i], release: i == 10 }
        );
    }
    assert_eq!(bus.on_clock_edge(true), EdgeAction::NoAction);
    assert!(!bus.device_ack);
    assert_eq!(bus.on_clock_edge(false), EdgeAction::AckSeen);
    assert!(bus.device_ack);
    bus.finish_transmit();
    assert!(!bus.host_mode);
    assert_eq!(bus.load_frame(0x02), Ok(()));
}

#[test]
fn fsm_rejects_replies_out_of_turn() {
    let mut fsm = Fsm::start();
    assert_eq!(fsm.run(&ProcReply::SentKey(1)), None);
    assert_eq!(fsm.state, State::Start);
    assert_eq!(fsm.run(&ProcReply::init()), Some(Cmd::WaitForKey));
    assert_eq!(fsm.run(&ProcReply::GrabbedKey(0x12)), Some(Cmd::WaitForKey));
    assert_eq!(fsm.run(&ProcReply::GrabbedKey(0xAA)), Some(Cmd::WaitForKey));
    assert_eq!(fsm.run(&ProcReply::GrabbedKey(0x55)), Some(Cmd::SendXTKey(0xAA)));
    assert_eq!(fsm.run(&ProcReply::GrabbedKey(0x12)), None);
    assert_eq!(fsm.state, State::SendBat);
}

#[test]
fn fsm_led_sequence_after_self_test() {
    let mut fsm = Fsm { state: State::ExpectBat };
    assert_eq!(fsm.run(&ProcReply::GrabbedKey(0x55)), Some(Cmd::SendXTKey(0xAA)));
    assert_eq!(fsm.run(&ProcReply::SentKey(0xAA)), Some(Cmd::ToggleLed(0x02)));
    assert_eq!(fsm.run(&ProcReply::LedToggled(0x02)), Some(Cmd::ToggleLed(0x06)));
    assert_eq!(fsm.run(&ProcReply::LedToggled(0x06)), Some(Cmd::ToggleLed(0x00)));
    assert_eq!(fsm.run(&ProcReply::LedToggled(0x00)), Some(Cmd::WaitForKey));
    assert_eq!(fsm.state, State::Steady);
    assert_eq!(fsm.run(&ProcReply::KeyboardReset), Some(Cmd::ClearBuffer));
    assert_eq!(fsm.run(&ProcReply::ClearedBuffer), Some(Cmd::WaitForKey));
    assert_eq!(fsm.state, State::ExpectBat);
}

#[test]
fn boot_scenario() {
    let mut bench = Bench::new();
    bench.run(&boot());
    assert_eq!(bench.to_keyboard, vec![0xFF]);
    let mut fsm = Fsm::start();
    drive_until_idle(&mut bench, &mut fsm, ProcReply::init());
    assert_eq!(bench.to_host[0], 0xAA);
    assert_eq!(bench.to_keyboard, vec![0xFF, 0xED, 0x02, 0xED, 0x06, 0xED, 0x00]);
    assert!(matches!(fsm.state, State::Steady | State::Emit(_)));
}

fn steady_bench() -> (Bench, Fsm) {
    let mut bench = Bench::new();
    let mut fsm = Fsm { state: State::LedInit3 };
    let reply = fsm.run(&ProcReply::LedToggled(0x00)).unwrap();
    assert_eq!(reply, Cmd::WaitForKey);
    assert_eq!(fsm.state, State::Steady);
    bench.bus = AtBus::new();
    (bench, fsm)
}

fn press(bench: &mut Bench, fsm: &mut Fsm, codes: &[u8]) {
    for c in codes {
        keyboard_sends(&mut bench.bus, *c);
        let step = bench.bus.wait_for_key_step(true);
        let (_, reply) = reply_for_wait(step);
        let cmd = fsm.run(&reply.unwrap()).unwrap();
        bench.run(&actions_for(cmd));
        assert_eq!(fsm.run(&reply_for(cmd).unwrap()), Some(Cmd::WaitForKey));
    }
}

#[test]
fn keypress_a_scenario() {
    let (mut bench, mut fsm) = steady_bench();
    press(&mut bench, &mut fsm, &[0x1C]);
    assert_eq!(bench.to_host, vec![0x38]);
}

#[test]
fn break_a_scenario() {
    let (mut bench, mut fsm) = steady_bench();
    press(&mut bench, &mut fsm, &[0xF0, 0x1C]);
    assert_eq!(bench.to_host, vec![0x0F, 0x38]);
}

#[test]
fn host_reset_mid_idle_scenario() {
    let (mut bench, mut fsm) = steady_bench();
    let step = bench.bus.wait_for_key_step(false);
    assert_eq!(step, WaitStep::HostReset);
    let (script, reply) = reply_for_wait(step);
    bench.run(&script);
    assert_eq!(bench.bus_log, vec!["at", "xt"]);
    assert_eq!(bench.to_keyboard, vec![0xFF]);
    assert_eq!(bench.to_host, vec![0xAA]);
    assert_eq!(fsm.run(&reply.unwrap()), Some(Cmd::ClearBuffer));
    bench.bus.flush();
    assert_eq!(fsm.run(&ProcReply::ClearedBuffer), Some(Cmd::WaitForKey));
    assert_eq!(fsm.state, State::ExpectBat);
}

#[test]
fn simultaneous_ack_scenario() {
    let mut bench = Bench::new();
    bench.keyboard_busy = Some(0x1C);
    bench.run(&send_byte_to_at_keyboard(0xF4));
    assert_eq!(bench.to_keyboard, vec![0xF4]);
    assert!(!bench.bus.host_mode);
    assert_eq!(bench.bus.wait_for_key_step(true), WaitStep::Key(0x38));
}

#[test]
fn self_test_frame_is_recognised() {
    let mut bus = AtBus::new();
    keyboard_sends(&mut bus, 0xAA);
    let k = match bus.wait_for_key_step(true) {
        WaitStep::Key(k) => k,
        other => panic!("no key: {:?}", other),
    };
    assert_eq!(k, 0x55);
    let mut fsm = Fsm { state: State::ExpectBat };
    assert_eq!(fsm.run(&ProcReply::GrabbedKey(k)), Some(Cmd::SendXTKey(0xAA)));
}

#[test]
fn transmit_drops_half_received_frame() {
    let mut bus = AtBus::new();
    // The keyboard gets four bits of a frame out before it is inhibited.
    for bit in at_frame(0xF0).into_iter().take(4) {
        assert_eq!(bus.on_clock_edge(bit), EdgeAction::NoAction);
    }
    bus.load_frame(0xED).unwrap();
    bus.hand_over();
    for _ in 0..11 {
        assert!(matches!(bus.on_clock_edge(true), EdgeAction::DriveData { .. }));
    }
    assert_eq!(bus.on_clock_edge(false), EdgeAction::AckSeen);
    bus.finish_transmit();
    assert!(bus.device_ack && !bus.host_mode);
    assert!(bus.key_out.is_empty());
    // The keyboard then sends a whole frame; it arrives unmixed.
    let acts = keyboard_sends(&mut bus, 0x1C);
    assert_eq!(acts[10], EdgeAction::FrameStored);
    assert_eq!(bus.wait_for_key_step(true), WaitStep::Key(0x38));
}

#[test]
fn parity_check_on_received_words() {
    for b in [0x00u8, 0x1C, 0xAA, 0xFF] {
        let mut bus = AtBus::new();
        keyboard_sends(&mut bus, b);
        let w = bus.in_buffer.take().unwrap();
        assert!(frame_parity_ok(w));
        assert!(!frame_parity_ok(w ^ (1 << 10)));
        assert!(!frame_parity_ok(w ^ (1 << 4)));
    }
}
