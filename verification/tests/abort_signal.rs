use rustww::abort::{AbortGate, AbortState, GateStep};

#[test]
fn abort_is_idempotent() {
    let mut s: AbortState<u8> = AbortState::new();
    s.register(1);
    s.register(2);
    assert_eq!(s.abort(), vec![1, 2]);
    assert!(s.is_aborted());
    assert_eq!(s.abort(), Vec::<u8>::new());
    assert!(s.is_aborted());
}

#[test]
fn register_then_abort_wakes_exactly_once() {
    let mut s: AbortState<u8> = AbortState::new();
    let mut gate = AbortGate::new();
    assert_eq!(gate.on_poll(&mut s, 9), GateStep::PollInner);
    let woken = s.abort();
    assert_eq!(woken.iter().filter(|w| **w == 9).count(), 1);
    assert_eq!(s.abort(), Vec::<u8>::new());
}

#[test]
fn abort_then_poll_is_aborted_without_registration() {
    let mut s: AbortState<u8> = AbortState::new();
    assert_eq!(s.abort(), Vec::<u8>::new());
    let mut gate = AbortGate::new();
    assert_eq!(gate.on_poll(&mut s, 9), GateStep::Aborted);
    assert_eq!(s.abort(), Vec::<u8>::new());
}

#[test]
fn gate_registers_only_on_its_first_poll() {
    let mut s: AbortState<u8> = AbortState::new();
    let mut gate = AbortGate::new();
    assert_eq!(gate.on_poll(&mut s, 4), GateStep::PollInner);
    assert_eq!(gate.on_poll(&mut s, 4), GateStep::PollInner);
    assert_eq!(gate.on_poll(&mut s, 4), GateStep::PollInner);
    assert_eq!(s.abort(), vec![4]);
}

#[test]
fn two_gates_register_independently() {
    let mut s: AbortState<u8> = AbortState::new();
    let mut first = AbortGate::new();
    let mut second = AbortGate::new();
    assert_eq!(first.on_poll(&mut s, 1), GateStep::PollInner);
    assert_eq!(second.on_poll(&mut s, 2), GateStep::PollInner);
    assert_eq!(s.abort(), vec![1, 2]);
}

#[test]
fn a_flag_born_aborted_stops_every_gate() {
    let mut s: AbortState<u8> = AbortState::new_aborted();
    assert!(s.is_aborted());
    let mut gate = AbortGate::new();
    assert_eq!(gate.on_poll(&mut s, 1), GateStep::Aborted);
}
