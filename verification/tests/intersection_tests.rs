use traffic_junction::command::{Arm, Command, Commands};
use traffic_junction::intersection::{
    CustomIterator, DefaultIntersectionStates, Intersection, IntersectionActionDirection,
    IntersectionActionLight, IntersectionArm, IntersectionState, CYCLE_TIME, LONG_STATE_TIME,
    MAX_PHASE_COMMANDS, PHASES, SHORT_STATE_TIME,
};
use traffic_junction::lights::Light;
use traffic_junction::pin_mockup::Pin;
use traffic_junction::servo::Servo;
use traffic_junction::stopper::Stopper;

const GREEN_RIGHT: IntersectionActionLight =
    IntersectionActionLight::Green(IntersectionActionDirection::Right);
const GREEN_LEFT: IntersectionActionLight =
    IntersectionActionLight::Green(IntersectionActionDirection::Left);
const YELLOW: IntersectionActionLight = IntersectionActionLight::Yellow;
const RED: IntersectionActionLight = IntersectionActionLight::Red;
const RED_YELLOW: IntersectionActionLight = IntersectionActionLight::RedYellow;

/// Position of the left, right and upper arm's stopper and servo.
const LEFT: usize = 0;
const RIGHT: usize = 1;
const UPPER: usize = 2;

fn phase(
    left_action: IntersectionActionLight,
    right_action: IntersectionActionLight,
    upper_action: IntersectionActionLight,
    duration: u32,
) -> IntersectionState {
    IntersectionState { left_action, right_action, upper_action, duration }
}

fn table() -> [IntersectionState; 8] {
    [
        phase(GREEN_RIGHT, GREEN_RIGHT, GREEN_RIGHT, 18),
        phase(GREEN_RIGHT, YELLOW, GREEN_RIGHT, 2),
        phase(GREEN_LEFT, RED, GREEN_RIGHT, 18),
        phase(GREEN_LEFT, RED_YELLOW, YELLOW, 2),
        phase(GREEN_RIGHT, GREEN_LEFT, RED, 18),
        phase(YELLOW, GREEN_LEFT, RED_YELLOW, 2),
        phase(RED, GREEN_RIGHT, GREEN_LEFT, 18),
        phase(RED_YELLOW, GREEN_RIGHT, GREEN_LEFT, 2),
    ]
}

fn arm(position: usize) -> IntersectionArm {
    IntersectionArm {
        entry_stopper: position,
        light: Light::new(Pin::new(false), Pin::new(false), Pin::new(false)).0,
        servo: position,
    }
}

fn stoppers() -> Vec<Stopper> {
    vec![Stopper::new(Pin::new(false)).0, Stopper::new(Pin::new(false)).0, Stopper::new(Pin::new(false)).0]
}

fn servos() -> Vec<Servo> {
    vec![
        Servo::new(Pin::new(false), 10, 110, 0, 0x40).0,
        Servo::new(Pin::new(false), 20, 120, 1, 0x40).0,
        Servo::new(Pin::new(false), 30, 130, 2, 0x41).0,
    ]
}

fn junction(
    stoppers: &mut Vec<Stopper>,
    servos: &Vec<Servo>,
    out: &mut Commands,
) -> Intersection<DefaultIntersectionStates> {
    Intersection::new(
        arm(LEFT),
        arm(RIGHT),
        arm(UPPER),
        DefaultIntersectionStates::new(),
        stoppers,
        servos,
        out,
    )
}

fn list(out: &Commands) -> Vec<Command> {
    (0..out.len()).map(|i| out.get(i)).collect()
}

fn light(arm: Arm, green: bool, yellow: bool, red: bool) -> Command {
    Command::Light { arm, green, yellow, red }
}

#[test]
fn phase_lengths() {
    assert_eq!(LONG_STATE_TIME, 18);
    assert_eq!(SHORT_STATE_TIME, 2);
    assert_eq!(PHASES, 8);
    assert_eq!(CYCLE_TIME, 80);
    let total: u32 = table().iter().map(|state| state.duration).sum();
    assert_eq!(total, CYCLE_TIME);
}

#[test]
fn default_cycle_starts_before_its_first_phase() {
    let cycle = DefaultIntersectionStates::new();
    assert_eq!(cycle.phase(), 7);
    assert_eq!(*cycle.current(), table()[7]);
}

#[test]
fn default_cycle_runs_through_the_table_and_starts_again() {
    let mut cycle = DefaultIntersectionStates::new();
    for round in 0..3 {
        for (number, expected) in table().iter().enumerate() {
            let state = *cycle.next();
            assert_eq!(state, *expected, "round {} phase {}", round, number);
            assert_eq!(cycle.phase(), number);
            assert_eq!(*cycle.current(), *expected);
        }
    }
}

#[test]
fn current_does_not_move_the_cursor() {
    let mut cycle = DefaultIntersectionStates::new();
    cycle.next();
    cycle.next();
    assert_eq!(*cycle.current(), table()[1]);
    assert_eq!(*cycle.current(), table()[1]);
    assert_eq!(cycle.phase(), 1);
}

#[test]
fn arm_wiring_is_checked_against_the_vectors() {
    assert!(arm(2).is_wired(3, 3));
    assert!(!arm(3).is_wired(3, 4));
    assert!(!arm(3).is_wired(4, 3));
    assert!(!arm(0).is_wired(0, 1));
}

#[test]
fn new_junction_applies_the_first_phase_at_once() {
    let mut stoppers = stoppers();
    let servos = servos();
    let mut out = Commands::new();
    let junction = junction(&mut stoppers, &servos, &mut out);
    assert_eq!(junction.states().phase(), 0);
    assert_eq!(junction.time_counter(), 0);
    assert_eq!(
        list(&out),
        vec![
            light(Arm::Right, true, false, false),
            light(Arm::Left, true, false, false),
            light(Arm::Upper, true, false, false),
            Command::Servo { address: 0x40, id: 1, angle: 20 },
            Command::Servo { address: 0x40, id: 0, angle: 10 },
            Command::Servo { address: 0x41, id: 2, angle: 30 },
        ]
    );
    assert_eq!(junction.left_arm().light.levels(), (true, false, false));
    assert_eq!(junction.right_arm().light.levels(), (true, false, false));
    assert_eq!(junction.upper_arm().light.levels(), (true, false, false));
    assert!(stoppers.iter().all(|stopper| !stopper.get_state()));
    assert_eq!(junction.left_arm().entry_stopper, LEFT);
    assert_eq!(junction.right_arm().servo, RIGHT);
    assert_eq!(junction.upper_arm().entry_stopper, UPPER);
}

#[test]
fn junction_wiring_is_checked_against_the_vectors() {
    let mut stoppers = stoppers();
    let servos = servos();
    let mut out = Commands::new();
    let junction = junction(&mut stoppers, &servos, &mut out);
    assert!(junction.is_wired(3, 3));
    assert!(junction.is_wired(7, 4));
    assert!(!junction.is_wired(2, 3));
    assert!(!junction.is_wired(3, 2));
    assert!(!junction.is_wired(0, 0));
}

#[test]
fn new_junction_adds_to_the_writes_already_there() {
    let mut stoppers = stoppers();
    let servos = servos();
    let mut out = Commands::new();
    out.push(Command::Pulse { servo: 0, high: true });
    junction(&mut stoppers, &servos, &mut out);
    assert_eq!(out.len(), 7);
    assert_eq!(out.get(0), Command::Pulse { servo: 0, high: true });
}

#[test]
fn nothing_is_written_while_a_phase_lasts() {
    let mut stoppers = stoppers();
    let servos = servos();
    let mut out = Commands::new();
    let mut junction = junction(&mut stoppers, &servos, &mut out);
    out.clear();
    for call in 1..LONG_STATE_TIME {
        junction.call(&mut stoppers, &servos, &mut out);
        assert!(out.is_empty());
        assert_eq!(junction.time_counter(), call);
        assert_eq!(junction.states().phase(), 0);
    }
}

#[test]
fn yellow_sets_the_override_and_green_clears_it() {
    let mut stoppers = stoppers();
    let servos = servos();
    let mut out = Commands::new();
    let mut junction = junction(&mut stoppers, &servos, &mut out);
    out.clear();
    for _ in 0..LONG_STATE_TIME {
        junction.call(&mut stoppers, &servos, &mut out);
    }
    // phase 1: left green right, right yellow, upper green right
    assert_eq!(junction.states().phase(), 1);
    assert_eq!(junction.time_counter(), 0);
    assert_eq!(
        list(&out),
        vec![
            Command::Stopper { stopper: RIGHT, high: false },
            light(Arm::Right, false, true, false),
            light(Arm::Left, true, false, false),
            light(Arm::Upper, true, false, false),
            Command::Servo { address: 0x40, id: 0, angle: 10 },
            Command::Servo { address: 0x41, id: 2, angle: 30 },
        ]
    );
    assert!(stoppers[RIGHT].get_state());
    assert!(stoppers[RIGHT].intersection_locked());
    assert!(!stoppers[LEFT].get_state());
    assert!(!stoppers[UPPER].get_state());

    out.clear();
    for _ in 0..SHORT_STATE_TIME {
        junction.call(&mut stoppers, &servos, &mut out);
    }
    // phase 2: left green left, right red, upper green right
    assert_eq!(junction.states().phase(), 2);
    assert_eq!(
        list(&out),
        vec![
            light(Arm::Right, false, false, true),
            light(Arm::Left, true, false, false),
            light(Arm::Upper, true, false, false),
            Command::Servo { address: 0x40, id: 0, angle: 110 },
            Command::Servo { address: 0x41, id: 2, angle: 30 },
        ]
    );
    assert!(stoppers[RIGHT].get_state());

    out.clear();
    for _ in 0..LONG_STATE_TIME + SHORT_STATE_TIME {
        junction.call(&mut stoppers, &servos, &mut out);
    }
    // phase 3 has set the upper arm's override, phase 4 has cleared the
    // right arm's
    assert_eq!(junction.states().phase(), 4);
    assert_eq!(
        list(&out),
        vec![
            Command::Stopper { stopper: UPPER, high: false },
            light(Arm::Right, false, true, true),
            light(Arm::Left, true, false, false),
            light(Arm::Upper, false, true, false),
            Command::Servo { address: 0x40, id: 0, angle: 110 },
            Command::Stopper { stopper: RIGHT, high: true },
            light(Arm::Right, true, false, false),
            light(Arm::Left, true, false, false),
            light(Arm::Upper, false, false, true),
            Command::Servo { address: 0x40, id: 1, angle: 120 },
            Command::Servo { address: 0x40, id: 0, angle: 10 },
        ]
    );
    assert!(!stoppers[RIGHT].get_state());
    assert!(stoppers[UPPER].get_state());
}

#[test]
fn junction_visits_eight_phases_in_eighty_calls() {
    let mut stoppers = stoppers();
    let servos = servos();
    let mut out = Commands::new();
    let mut junction = junction(&mut stoppers, &servos, &mut out);
    for round in 0..2 {
        let mut lengths = Vec::new();
        let mut calls_in_phase = 0;
        let mut visited = vec![junction.states().phase()];
        for _ in 0..CYCLE_TIME {
            let before = junction.states().phase();
            out.clear();
            junction.call(&mut stoppers, &servos, &mut out);
            calls_in_phase += 1;
            let after = junction.states().phase();
            if after != before {
                assert_eq!(after, (before + 1) % PHASES);
                lengths.push(calls_in_phase);
                calls_in_phase = 0;
                visited.push(after);
            }
        }
        assert_eq!(lengths, vec![18, 2, 18, 2, 18, 2, 18, 2], "round {}", round);
        assert_eq!(visited, vec![0, 1, 2, 3, 4, 5, 6, 7, 0]);
        assert_eq!(junction.states().phase(), 0);
        assert_eq!(junction.time_counter(), 0);
    }
}

#[test]
fn lights_follow_the_table_in_every_phase() {
    let mut stoppers = stoppers();
    let servos = servos();
    let mut out = Commands::new();
    let mut junction = junction(&mut stoppers, &servos, &mut out);
    for _ in 0..CYCLE_TIME {
        let state = table()[junction.states().phase()];
        let mut expected = Light::new(Pin::new(false), Pin::new(false), Pin::new(false)).0;
        assert_eq!(junction.left_arm().light.levels(), expected.set_state(&state.left_action));
        assert_eq!(junction.right_arm().light.levels(), expected.set_state(&state.right_action));
        assert_eq!(junction.upper_arm().light.levels(), expected.set_state(&state.upper_action));
        out.clear();
        junction.call(&mut stoppers, &servos, &mut out);
    }
}

#[test]
fn override_meets_a_section_lock_on_a_shared_stopper() {
    let mut stoppers = stoppers();
    let servos = servos();
    let mut out = Commands::new();
    let mut junction = junction(&mut stoppers, &servos, &mut out);
    // a section has locked the right arm's stopper
    assert_eq!(stoppers[RIGHT].lock(), Some(false));
    out.clear();
    for _ in 0..LONG_STATE_TIME {
        junction.call(&mut stoppers, &servos, &mut out);
    }
    // yellow on the right arm: the stopper blocks already, no write
    assert!(!list(&out).iter().any(|command| matches!(command, Command::Stopper { .. })));
    assert!(stoppers[RIGHT].intersection_locked());
    assert_eq!(stoppers[RIGHT].release(), None);
    assert!(stoppers[RIGHT].get_state());
}

#[test]
fn two_arms_may_share_a_stopper_and_a_servo() {
    let mut stoppers = vec![Stopper::new(Pin::new(false)).0];
    let servos = vec![Servo::new(Pin::new(false), 5, 95, 7, 3).0];
    let mut out = Commands::new();
    let mut junction = Intersection::new(
        arm(0),
        arm(0),
        arm(0),
        DefaultIntersectionStates::new(),
        &mut stoppers,
        &servos,
        &mut out,
    );
    out.clear();
    for _ in 0..LONG_STATE_TIME {
        junction.call(&mut stoppers, &servos, &mut out);
    }
    // phase 1: the right arm's yellow sets the override, then the left
    // arm's green clears it again, then the upper arm's green finds it clear
    assert_eq!(
        list(&out),
        vec![
            Command::Stopper { stopper: 0, high: false },
            Command::Stopper { stopper: 0, high: true },
            light(Arm::Right, false, true, false),
            light(Arm::Left, true, false, false),
            light(Arm::Upper, true, false, false),
            Command::Servo { address: 3, id: 7, angle: 5 },
            Command::Servo { address: 3, id: 7, angle: 5 },
        ]
    );
    assert!(!stoppers[0].get_state());
}

/// A cycle of two phases: the left arm goes, then the left arm stops.
struct Blink {
    states: [IntersectionState; 2],
    at: usize,
}

impl CustomIterator for Blink {
    fn inv(&self) -> bool {
        self.at < 2
    }

    fn current_spec(&self) -> IntersectionState {
        self.states[self.at]
    }

    fn advanced(&self) -> Self {
        Blink { states: self.states, at: 1 - self.at }
    }

    fn next(&mut self) -> &IntersectionState {
        self.at = 1 - self.at;
        &self.states[self.at]
    }

    fn current(&self) -> &IntersectionState {
        &self.states[self.at]
    }
}

#[test]
fn junction_runs_through_a_cycle_of_the_callers_own() {
    let blink = Blink {
        states: [
            phase(GREEN_LEFT, RED, IntersectionActionLight::Off, 3),
            phase(YELLOW, RED, IntersectionActionLight::Off, 1),
        ],
        at: 1,
    };
    let mut stoppers = stoppers();
    let servos = servos();
    let mut out = Commands::new();
    let mut junction =
        Intersection::new(arm(LEFT), arm(RIGHT), arm(UPPER), blink, &mut stoppers, &servos, &mut out);
    assert_eq!(
        list(&out),
        vec![
            light(Arm::Right, false, false, true),
            light(Arm::Left, true, false, false),
            light(Arm::Upper, false, false, false),
            Command::Servo { address: 0x40, id: 0, angle: 110 },
        ]
    );
    out.clear();
    junction.call(&mut stoppers, &servos, &mut out);
    junction.call(&mut stoppers, &servos, &mut out);
    assert!(out.is_empty());
    junction.call(&mut stoppers, &servos, &mut out);
    assert_eq!(
        list(&out),
        vec![
            Command::Stopper { stopper: LEFT, high: false },
            light(Arm::Right, false, false, true),
            light(Arm::Left, false, true, false),
            light(Arm::Upper, false, false, false),
        ]
    );
    out.clear();
    // a phase of one call is over with the next call
    junction.call(&mut stoppers, &servos, &mut out);
    assert_eq!(out.get(0), Command::Stopper { stopper: LEFT, high: true });
    assert_eq!(junction.states().at, 0);
}

#[test]
fn junction_holds_back_exactly_the_arms_without_green() {
    let mut stoppers = stoppers();
    let servos = servos();
    let mut out = Commands::new();
    let mut junction = junction(&mut stoppers, &servos, &mut out);
    for call in 0..2 * CYCLE_TIME {
        let state = table()[junction.states().phase()];
        let green = |action: IntersectionActionLight| matches!(action, IntersectionActionLight::Green(_));
        assert_eq!(stoppers[LEFT].intersection_locked(), !green(state.left_action));
        assert_eq!(stoppers[RIGHT].intersection_locked(), !green(state.right_action));
        assert_eq!(stoppers[UPPER].intersection_locked(), !green(state.upper_action));
        // sections lock and release in between
        if call % 3 == 0 {
            stoppers[(call % 3) as usize].lock();
            stoppers[RIGHT].release();
        }
        out.clear();
        junction.call(&mut stoppers, &servos, &mut out);
    }
}

#[test]
fn a_phase_gives_at_most_nine_writes() {
    assert_eq!(MAX_PHASE_COMMANDS, 9);
    let mut stoppers = stoppers();
    let servos = servos();
    let mut out = Commands::new();
    let mut junction = junction(&mut stoppers, &servos, &mut out);
    for _ in 0..CYCLE_TIME {
        out.clear();
        junction.call(&mut stoppers, &servos, &mut out);
        assert!(out.len() <= MAX_PHASE_COMMANDS);
    }
}
