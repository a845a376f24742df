//! Digital (bool-codec) pin-state, wait and bind-decision tests.

use uds_io::{
    next_bind_step, BindAction, BindPhase, BoolCodec, Codec, InputState, OutputState,
    StepOutcome, WaitKind, Waiter, HIGH, LOW, MAX_DATAGRAM,
};

fn frame_of(out: &OutputState<BoolCodec>) -> Vec<u8> {
    let mut buf = [0u8; MAX_DATAGRAM];
    let n = out.frame(&mut buf);
    buf[..n].to_vec()
}

/// Runs a wait the way a pin does: level waits drain the queue before each
/// observation, edge waits apply one queued event per observation. Returns
/// how many events were applied when the wait ended, or `None`.
fn run_wait(input: &mut InputState<BoolCodec>, kind: WaitKind, queue: &[Vec<u8>]) -> Option<usize> {
    let mut w = Waiter::new(kind, input.value());
    let mut next = 0;
    loop {
        if w.drains_first() {
            let rest: Vec<Vec<u8>> = queue[next..].to_vec();
            input.drain(&rest, &Vec::new());
            next = queue.len();
        }
        if w.observe(input.value()) {
            return Some(next);
        }
        if next == queue.len() {
            return None;
        }
        input.apply_datagram(&queue[next]);
        next += 1;
    }
}

#[test]
fn bool_codec_encodes_ascii_levels() {
    let mut buf = [0u8; MAX_DATAGRAM];
    assert_eq!(BoolCodec::encode(true, &mut buf), 1);
    assert_eq!(buf[0], b'1');
    assert_eq!(BoolCodec::encode(false, &mut buf), 1);
    assert_eq!(buf[0], b'0');
    assert_eq!(&buf[1..], &[0u8; 15]);
    assert_eq!((LOW, HIGH), (b'0', b'1'));
}

#[test]
fn bool_codec_decodes_only_level_bytes() {
    assert_eq!(BoolCodec::decode(b"0"), Some(false));
    assert_eq!(BoolCodec::decode(b"1"), Some(true));
    assert_eq!(BoolCodec::decode(b"X"), None);
    assert_eq!(BoolCodec::decode(&[0u8]), None);
    assert_eq!(BoolCodec::decode(&[1u8]), None);
    assert_eq!(BoolCodec::decode(b"10"), None);
    assert_eq!(BoolCodec::decode(b""), None);
}

#[test]
fn output_high_triggers_input_wait_for_high() {
    let mut input = InputState::<BoolCodec>::new(false);
    let mut output = OutputState::<BoolCodec>::new(false);
    let mut queue = vec![frame_of(&output)];
    output.set(true);
    queue.push(frame_of(&output));
    assert_eq!(run_wait(&mut input, WaitKind::High, &queue), Some(2));
    assert!(input.is_high());
}

#[test]
fn output_low_triggers_input_wait_for_low() {
    let mut input = InputState::<BoolCodec>::new(true);
    let mut output = OutputState::<BoolCodec>::new(true);
    let mut queue = vec![frame_of(&output)];
    output.set(false);
    queue.push(frame_of(&output));
    assert_eq!(run_wait(&mut input, WaitKind::Low, &queue), Some(2));
    assert!(input.is_low());
}

#[test]
fn level_wait_is_over_at_once_when_level_matches() {
    let mut input = InputState::<BoolCodec>::new(true);
    assert_eq!(run_wait(&mut input, WaitKind::High, &[]), Some(0));
    assert_eq!(run_wait(&mut input, WaitKind::Low, &[]), None);
}

#[test]
fn wait_for_rising_edge_only_fires_on_low_to_high() {
    // Starting HIGH, a queued LOW then HIGH: the wait ends on the HIGH.
    let mut input = InputState::<BoolCodec>::new(true);
    let queue = vec![b"0".to_vec(), b"1".to_vec()];
    assert_eq!(run_wait(&mut input, WaitKind::RisingEdge, &queue), Some(2));
    // A HIGH alone on a HIGH input is no edge.
    let mut input = InputState::<BoolCodec>::new(true);
    assert_eq!(run_wait(&mut input, WaitKind::RisingEdge, &[b"1".to_vec()]), None);
}

#[test]
fn wait_for_falling_edge_only_fires_on_high_to_low() {
    let mut input = InputState::<BoolCodec>::new(false);
    let queue = vec![b"1".to_vec(), b"0".to_vec()];
    assert_eq!(run_wait(&mut input, WaitKind::FallingEdge, &queue), Some(2));
    let mut input = InputState::<BoolCodec>::new(false);
    assert_eq!(run_wait(&mut input, WaitKind::FallingEdge, &[b"0".to_vec()]), None);
}

#[test]
fn wait_for_any_edge_resolves_on_change() {
    let mut input = InputState::<BoolCodec>::new(false);
    let queue = vec![b"0".to_vec(), b"X".to_vec(), b"1".to_vec()];
    assert_eq!(run_wait(&mut input, WaitKind::AnyEdge, &queue), Some(3));
    assert!(input.is_high());
}

#[test]
fn waiter_step_by_step() {
    let mut w = Waiter::new(WaitKind::RisingEdge, true);
    assert!(!w.drains_first());
    assert!(!w.observe(true));
    assert!(!w.observe(false));
    assert_eq!(w.reference, false);
    assert!(w.observe(true));

    let mut w = Waiter::new(WaitKind::AnyEdge, true);
    assert!(!w.observe(true));
    assert!(w.observe(false));
    assert_eq!(w.reference, true);

    let mut w = Waiter::new(WaitKind::Low, true);
    assert!(w.drains_first());
    assert!(w.observe(false));
}

#[test]
fn injector_drives_unbound_pin() {
    let mut input = InputState::<BoolCodec>::new(false);
    input.apply_injection(true);
    let mut w = Waiter::new(WaitKind::High, input.value());
    assert!(w.observe(input.value()));
    assert!(input.is_high());
}

#[test]
fn injector_overrides_bound_pin_without_peer() {
    let mut input = InputState::<BoolCodec>::new(false);
    input.drain(&vec![b"0".to_vec()], &vec![true]);
    assert!(input.is_high());
}

#[test]
fn is_high_reflects_latest_received_state() {
    let mut input = InputState::<BoolCodec>::new(false);
    let mut output = OutputState::<BoolCodec>::new(false);
    let mut queue = Vec::new();
    for level in [true, false, true, false] {
        output.set(level);
        queue.push(frame_of(&output));
    }
    input.drain(&queue, &Vec::new());
    assert!(input.is_low(), "expected final state LOW");
}

#[test]
fn unknown_wire_bytes_do_not_change_state() {
    let mut input = InputState::<BoolCodec>::new(false);
    assert!(!input.apply_datagram(b"X"));
    assert!(input.is_low(), "unknown byte must not flip state");
    input.drain(&vec![b"1".to_vec(), b"X".to_vec(), b"".to_vec()], &Vec::new());
    assert!(input.is_high());
}

#[test]
fn stateful_output_pin_tracks_state() {
    let mut output = OutputState::<BoolCodec>::new(false);
    assert!(output.is_set_low());
    output.set(true);
    assert!(output.is_set_high());
    output.set(false);
    assert!(output.is_set_low());
}

#[test]
fn output_frames_its_level() {
    let mut output = OutputState::<BoolCodec>::new(true);
    assert_eq!(frame_of(&output), b"1".to_vec());
    output.set(false);
    assert_eq!(frame_of(&output), b"0".to_vec());
    assert!(!output.get());
}

#[test]
fn bind_removes_stale_socket_file() {
    assert_eq!(next_bind_step(BindPhase::Bind, StepOutcome::AddrInUse), BindAction::ProbePeer);
    assert_eq!(
        next_bind_step(BindPhase::Probe, StepOutcome::ConnectionRefused),
        BindAction::RemoveStaleAndRebind
    );
    assert_eq!(next_bind_step(BindPhase::Rebind, StepOutcome::Succeeded), BindAction::Claimed);
}

#[test]
fn bind_refuses_to_clobber_a_live_peer() {
    assert_eq!(next_bind_step(BindPhase::Probe, StepOutcome::Succeeded), BindAction::RefuseLivePeer);
}

#[test]
fn bind_decisions_on_other_outcomes() {
    assert_eq!(next_bind_step(BindPhase::Bind, StepOutcome::Succeeded), BindAction::Claimed);
    assert_eq!(next_bind_step(BindPhase::Bind, StepOutcome::OtherError), BindAction::Fail);
    assert_eq!(next_bind_step(BindPhase::Bind, StepOutcome::ConnectionRefused), BindAction::Fail);
    assert_eq!(next_bind_step(BindPhase::Probe, StepOutcome::AddrInUse), BindAction::Fail);
    assert_eq!(next_bind_step(BindPhase::Probe, StepOutcome::OtherError), BindAction::Fail);
    assert_eq!(next_bind_step(BindPhase::Rebind, StepOutcome::AddrInUse), BindAction::Fail);
    assert_eq!(next_bind_step(BindPhase::Rebind, StepOutcome::ConnectionRefused), BindAction::Fail);
}
