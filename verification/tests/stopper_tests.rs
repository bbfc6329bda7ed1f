use traffic_junction::command::{Command, Commands, QUEUE_CAPACITY};
use traffic_junction::pin_mockup::Pin;
use traffic_junction::stopper::{apply_at, Stopper, StopperOp, STOPPER_ACTIVE};

fn list(out: &Commands) -> Vec<Command> {
    (0..out.len()).map(|i| out.get(i)).collect()
}

/// The level of a pin whose stopper blocks: low.
const BLOCKING: bool = false;
/// The level of a pin whose stopper lets cars pass: high.
const CLEAR: bool = true;

#[test]
fn pin_keeps_the_level_given() {
    assert!(Pin::new(true).is_high());
    assert!(!Pin::new(true).is_low());
    assert!(Pin::new(false).is_low());
    assert!(!Pin::new(false).is_high());
}

#[test]
fn pin_follows_writes() {
    let mut pin = Pin::new(false);
    pin.set_high();
    assert!(pin.is_high());
    pin.set_low();
    assert!(pin.is_low());
    pin.set_state(true);
    assert!(pin.is_high());
    pin.set_state(false);
    assert!(pin.is_low());
}

#[test]
fn new_stopper_lets_cars_pass_whatever_the_pin_showed() {
    for level in [false, true] {
        let stopper = Stopper::new(Pin::new(level)).0;
        assert!(!stopper.get_state());
        assert_eq!(stopper.number_locks(), 0);
        assert!(!stopper.intersection_locked());
        assert_eq!(stopper.pin().is_high(), CLEAR);
    }
}

#[test]
fn stopper_pin_is_high_while_cars_may_pass() {
    assert!(!STOPPER_ACTIVE);
    let mut stopper = Stopper::new(Pin::new(false)).0;
    assert_eq!(stopper.get_state(), STOPPER_ACTIVE);
    assert!(stopper.pin().is_high());
    stopper.lock();
    assert!(stopper.pin().is_low());
}

#[test]
fn lock_lock_release_writes_once_at_the_first_lock() {
    let mut stopper = Stopper::new(Pin::new(false)).0;
    assert_eq!(stopper.lock(), Some(BLOCKING));
    assert!(stopper.get_state());
    assert_eq!(stopper.lock(), None);
    assert!(stopper.get_state());
    assert_eq!(stopper.release(), None);
    assert!(stopper.get_state());
    assert_eq!(stopper.number_locks(), 1);
    assert_eq!(stopper.pin().is_high(), BLOCKING);
}

#[test]
fn last_release_writes_the_clear_level() {
    let mut stopper = Stopper::new(Pin::new(false)).0;
    stopper.lock();
    stopper.lock();
    assert_eq!(stopper.release(), None);
    assert_eq!(stopper.release(), Some(CLEAR));
    assert!(!stopper.get_state());
    assert_eq!(stopper.pin().is_high(), CLEAR);
}

#[test]
fn release_without_a_lock_changes_nothing_and_writes_nothing() {
    let mut stopper = Stopper::new(Pin::new(false)).0;
    assert_eq!(stopper.release(), None);
    assert_eq!(stopper.number_locks(), 0);
    assert!(!stopper.get_state());
    assert_eq!(stopper.release(), None);
    assert_eq!(stopper.number_locks(), 0);
}

#[test]
fn override_writes_only_when_no_section_holds_a_lock() {
    let mut stopper = Stopper::new(Pin::new(false)).0;
    assert_eq!(stopper.intersection_lock(), Some(BLOCKING));
    assert!(stopper.get_state());
    assert_eq!(stopper.intersection_release(), Some(CLEAR));
    assert!(!stopper.get_state());

    stopper.lock();
    assert_eq!(stopper.intersection_lock(), None);
    assert!(stopper.get_state());
    assert_eq!(stopper.intersection_release(), None);
    assert!(stopper.get_state());
}

#[test]
fn override_set_twice_writes_once() {
    let mut stopper = Stopper::new(Pin::new(false)).0;
    assert_eq!(stopper.intersection_lock(), Some(BLOCKING));
    assert_eq!(stopper.intersection_lock(), None);
    assert!(stopper.intersection_locked());
    assert_eq!(stopper.intersection_release(), Some(CLEAR));
    assert_eq!(stopper.intersection_release(), None);
    assert!(!stopper.intersection_locked());
}

#[test]
fn section_locks_are_masked_by_the_override() {
    let mut stopper = Stopper::new(Pin::new(false)).0;
    assert_eq!(stopper.intersection_lock(), Some(BLOCKING));
    assert_eq!(stopper.lock(), None);
    assert_eq!(stopper.release(), None);
    assert!(stopper.get_state());
    assert_eq!(stopper.lock(), None);
    assert_eq!(stopper.intersection_release(), None);
    assert!(stopper.get_state());
    assert_eq!(stopper.release(), Some(CLEAR));
    assert!(!stopper.get_state());
}

#[test]
fn pin_always_shows_the_blocking_state() {
    let ops = [
        StopperOp::Lock,
        StopperOp::IntersectionLock,
        StopperOp::Release,
        StopperOp::Release,
        StopperOp::IntersectionRelease,
        StopperOp::IntersectionRelease,
        StopperOp::Lock,
        StopperOp::Lock,
        StopperOp::IntersectionLock,
        StopperOp::Release,
        StopperOp::IntersectionRelease,
        StopperOp::Release,
    ];
    let mut stopper = Stopper::new(Pin::new(true)).0;
    let mut writes = 0;
    let mut transitions = 0;
    for op in ops {
        let before = stopper.get_state();
        let written = stopper.apply(op);
        let after = stopper.get_state();
        assert_eq!(after, stopper.number_locks() > 0 || stopper.intersection_locked());
        assert_eq!(stopper.pin().is_high(), if after { BLOCKING } else { CLEAR });
        assert_eq!(written.is_some(), before != after);
        if let Some(level) = written {
            assert_eq!(level, stopper.pin().is_high());
            writes += 1;
        }
        if before != after {
            transitions += 1;
        }
    }
    assert_eq!(writes, transitions);
    assert_eq!(writes, 4);
}

#[test]
fn apply_does_what_the_named_call_does() {
    let mut by_name = Stopper::new(Pin::new(false)).0;
    let mut by_op = Stopper::new(Pin::new(false)).0;
    assert_eq!(by_name.lock(), by_op.apply(StopperOp::Lock));
    assert_eq!(by_name.intersection_lock(), by_op.apply(StopperOp::IntersectionLock));
    assert_eq!(by_name.release(), by_op.apply(StopperOp::Release));
    assert_eq!(by_name.intersection_release(), by_op.apply(StopperOp::IntersectionRelease));
    assert_eq!(by_name.get_state(), by_op.get_state());
    assert_eq!(by_name.number_locks(), by_op.number_locks());
}

#[test]
fn can_lock_until_the_counter_is_full() {
    let stopper = Stopper::new(Pin::new(false)).0;
    assert!(stopper.can_lock());
}

#[test]
fn new_stopper_reports_its_first_write() {
    for level in [false, true] {
        let (stopper, first) = Stopper::new(Pin::new(level));
        assert_eq!(first, CLEAR);
        assert_eq!(stopper.pin().is_high(), first);
    }
}

#[test]
fn will_write_says_what_the_request_then_does() {
    let ops = [
        StopperOp::Lock,
        StopperOp::Lock,
        StopperOp::IntersectionLock,
        StopperOp::Release,
        StopperOp::IntersectionRelease,
        StopperOp::Release,
        StopperOp::Release,
        StopperOp::IntersectionRelease,
    ];
    let mut stopper = Stopper::new(Pin::new(false)).0;
    for op in ops {
        let expected = stopper.will_write(op);
        assert_eq!(stopper.apply(op).is_some(), expected);
    }
}

#[test]
fn apply_at_treats_one_stopper_and_reports_its_write() {
    let mut stoppers = vec![Stopper::new(Pin::new(false)).0, Stopper::new(Pin::new(false)).0];
    let mut out = Commands::new();
    out.push(Command::Stopper { stopper: 9, high: true });
    apply_at(&mut stoppers, 1, StopperOp::Lock, &mut out);
    assert!(!stoppers[0].get_state());
    assert!(stoppers[1].get_state());
    assert_eq!(
        list(&out),
        vec![
            Command::Stopper { stopper: 9, high: true },
            Command::Stopper { stopper: 1, high: BLOCKING },
        ]
    );
    apply_at(&mut stoppers, 1, StopperOp::Lock, &mut out);
    assert_eq!(out.len(), 2);
    assert_eq!(stoppers[1].number_locks(), 2);
}

#[test]
fn list_of_writes_keeps_their_order_up_to_its_capacity() {
    assert_eq!(QUEUE_CAPACITY, 64);
    let mut out = Commands::new();
    assert!(out.is_empty());
    assert_eq!(out.room(), 64);
    for servo in 0..QUEUE_CAPACITY {
        out.push(Command::Pulse { servo, high: servo % 2 == 0 });
    }
    assert_eq!(out.len(), 64);
    assert_eq!(out.room(), 0);
    assert_eq!(out.get(0), Command::Pulse { servo: 0, high: true });
    assert_eq!(out.get(63), Command::Pulse { servo: 63, high: false });
    out.clear();
    assert!(out.is_empty());
    assert_eq!(out.room(), 64);
}
