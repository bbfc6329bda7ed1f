//! The junction: three arms and the cycle of phases that they run through.

use vstd::prelude::*;
use crate::command::{has_room, Arm, Command, Commands};
use crate::lights::{light_levels, Light};
use crate::servo::{Servo, ServoState};
use crate::stopper::{
    applied_at, apply_at, command_at, stopper_states, Stopper, StopperOp, StopperState,
};

verus! {

/// How many calls a phase lasts in which an arm has its full green.
pub const LONG_STATE_TIME: u32 = 18;

/// How many calls a phase lasts in which right of way is handed over.
pub const SHORT_STATE_TIME: u32 = 2;

/// How many phases the default cycle has.
pub const PHASES: usize = 8;

/// The way a car is steered that enters the junction.
#[derive(Clone, Copy, Debug, PartialEq, Eq, Structural)]
pub enum IntersectionActionDirection {
    Right,
    Left,
}

/// What the light of one arm shows during a phase. An arm with green also
/// says which way its cars are steered.
#[derive(Clone, Copy, Debug, PartialEq, Eq, Structural)]
pub enum IntersectionActionLight {
    Green(IntersectionActionDirection),
    Yellow,
    Red,
    RedYellow,
    Off,
}

/// One phase: what each arm shows, and for how many calls.
#[derive(Clone, Copy, Debug, PartialEq, Eq, Structural)]
pub struct IntersectionState {
    pub left_action: IntersectionActionLight,
    pub right_action: IntersectionActionLight,
    pub upper_action: IntersectionActionLight,
    pub duration: u32,
}

/// A cycle of phases with a cursor on the current one. The junction is
/// driven by any type that has these two operations.
pub trait CustomIterator: Sized {
    /// What must hold of a cycle for its operations to be called.
    spec fn inv(&self) -> bool;

    /// The phase under the cursor.
    spec fn current_spec(&self) -> IntersectionState;

    /// The cycle with the cursor moved on to the next phase.
    spec fn advanced(&self) -> Self;

    /// Moves the cursor on and returns the phase that it then stands on.
    fn next(&mut self) -> (state: &IntersectionState)
        requires
            old(self).inv(),
        ensures
            final(self).inv(),
            *final(self) == old(self).advanced(),
            *state == old(self).advanced().current_spec(),
    ;

    /// The phase under the cursor.
    fn current(&self) -> (state: &IntersectionState)
        requires
            self.inv(),
        ensures
            *state == self.current_spec(),
    ;
}

/// Phase number `phase` of the default cycle, counting from 0. The three
/// arms take turns: each phase with an even number gives full green, the
/// phase after it hands over with yellow on the arm that has to stop and
/// red with yellow on the arm that goes next.
pub open spec fn default_state(phase: int) -> IntersectionState {
    let right = IntersectionActionLight::Green(IntersectionActionDirection::Right);
    let left = IntersectionActionLight::Green(IntersectionActionDirection::Left);
    if phase == 0 {
        IntersectionState {
            left_action: right,
            right_action: right,
            upper_action: right,
            duration: LONG_STATE_TIME,
        }
    } else if phase == 1 {
        IntersectionState {
            left_action: right,
            right_action: IntersectionActionLight::Yellow,
            upper_action: right,
            duration: SHORT_STATE_TIME,
        }
    } else if phase == 2 {
        IntersectionState {
            left_action: left,
            right_action: IntersectionActionLight::Red,
            upper_action: right,
            duration: LONG_STATE_TIME,
        }
    } else if phase == 3 {
        IntersectionState {
            left_action: left,
            right_action: IntersectionActionLight::RedYellow,
            upper_action: IntersectionActionLight::Yellow,
            duration: SHORT_STATE_TIME,
        }
    } else if phase == 4 {
        IntersectionState {
            left_action: right,
            right_action: left,
            upper_action: IntersectionActionLight::Red,
            duration: LONG_STATE_TIME,
        }
    } else if phase == 5 {
        IntersectionState {
            left_action: IntersectionActionLight::Yellow,
            right_action: left,
            upper_action: IntersectionActionLight::RedYellow,
            duration: SHORT_STATE_TIME,
        }
    } else if phase == 6 {
        IntersectionState {
            left_action: IntersectionActionLight::Red,
            right_action: right,
            upper_action: left,
            duration: LONG_STATE_TIME,
        }
    } else {
        IntersectionState {
            left_action: IntersectionActionLight::RedYellow,
            right_action: right,
            upper_action: left,
            duration: SHORT_STATE_TIME,
        }
    }
}

/// The default cycle of eight phases.
#[derive(Clone, Copy, Debug)]
pub struct DefaultIntersectionStates {
    states: [IntersectionState; 8],
    count: usize,
}

impl DefaultIntersectionStates {
    /// The number of the phase under the cursor, counting from 0.
    pub closed spec fn position(&self) -> nat {
        self.count as nat
    }

    /// The default cycle, with the cursor on its last phase, so that the
    /// first move goes to phase 0.
    pub fn new() -> (cycle: DefaultIntersectionStates)
        ensures
            cycle.inv(),
            cycle.position() == PHASES - 1,
            cycle.current_spec() == default_state(PHASES - 1),
    {
        let states: [IntersectionState; 8] = [
            IntersectionState {
                left_action: IntersectionActionLight::Green(IntersectionActionDirection::Right),
                right_action: IntersectionActionLight::Green(IntersectionActionDirection::Right),
                upper_action: IntersectionActionLight::Green(IntersectionActionDirection::Right),
                duration: LONG_STATE_TIME,
            },
            IntersectionState {
                left_action: IntersectionActionLight::Green(IntersectionActionDirection::Right),
                right_action: IntersectionActionLight::Yellow,
                upper_action: IntersectionActionLight::Green(IntersectionActionDirection::Right),
                duration: SHORT_STATE_TIME,
            },
            IntersectionState {
                left_action: IntersectionActionLight::Green(IntersectionActionDirection::Left),
                right_action: IntersectionActionLight::Red,
                upper_action: IntersectionActionLight::Green(IntersectionActionDirection::Right),
                duration: LONG_STATE_TIME,
            },
            IntersectionState {
                left_action: IntersectionActionLight::Green(IntersectionActionDirection::Left),
                right_action: IntersectionActionLight::RedYellow,
                upper_action: IntersectionActionLight::Yellow,
                duration: SHORT_STATE_TIME,
            },
            IntersectionState {
                left_action: IntersectionActionLight::Green(IntersectionActionDirection::Right),
                right_action: IntersectionActionLight::Green(IntersectionActionDirection::Left),
                upper_action: IntersectionActionLight::Red,
                duration: LONG_STATE_TIME,
            },
            IntersectionState {
                left_action: IntersectionActionLight::Yellow,
                right_action: IntersectionActionLight::Green(IntersectionActionDirection::Left),
                upper_action: IntersectionActionLight::RedYellow,
                duration: SHORT_STATE_TIME,
            },
            IntersectionState {
                left_action: IntersectionActionLight::Red,
                right_action: IntersectionActionLight::Green(IntersectionActionDirection::Right),
                upper_action: IntersectionActionLight::Green(IntersectionActionDirection::Left),
                duration: LONG_STATE_TIME,
            },
            IntersectionState {
                left_action: IntersectionActionLight::RedYellow,
                right_action: IntersectionActionLight::Green(IntersectionActionDirection::Right),
                upper_action: IntersectionActionLight::Green(IntersectionActionDirection::Left),
                duration: SHORT_STATE_TIME,
            },
        ];
        DefaultIntersectionStates { states, count: 7 }
    }

    /// The number of the phase under the cursor, counting from 0.
    pub fn phase(&self) -> (phase: usize)
        ensures
            phase == self.position(),
    {
        self.count
    }

    /// The cursor of the default cycle stays within its eight phases, shows
    /// the phase of its position, and moves on by one, from the last phase
    /// back to the first.
    pub proof fn lemma_cycle(&self)
        requires
            self.inv(),
        ensures
            self.position() < PHASES,
            self.current_spec() == default_state(self.position() as int),
            self.advanced().inv(),
            self.advanced().position() == (self.position() + 1) % (PHASES as nat),
    {
    }
}

impl CustomIterator for DefaultIntersectionStates {
    closed spec fn inv(&self) -> bool {
        &&& self.count < PHASES
        &&& forall|phase: int| 0 <= phase < PHASES ==> self.states[phase] == default_state(phase)
    }

    closed spec fn current_spec(&self) -> IntersectionState {
        self.states[self.count as int]
    }

    closed spec fn advanced(&self) -> Self {
        DefaultIntersectionStates {
            states: self.states,
            count: if self.count + 1 == PHASES {
                0
            } else {
                (self.count + 1) as usize
            },
        }
    }

    fn next(&mut self) -> (state: &IntersectionState) {
        self.count += 1;
        if self.count == self.states.len() {
            self.count = 0;
        }
        &self.states[self.count]
    }

    fn current(&self) -> (state: &IntersectionState) {
        &self.states[self.count]
    }
}

/// One arm of the junction: the stopper at its entry and its servo, each
/// named by its position in the caller's slice, and its light.
#[derive(Clone, Copy, Debug)]
pub struct IntersectionArm {
    pub entry_stopper: usize,
    pub light: Light,
    pub servo: usize,
}

impl IntersectionArm {
    /// The arm's stopper and servo exist among `stoppers` stoppers and
    /// `servos` servos.
    pub open spec fn wired(self, stoppers: nat, servos: nat) -> bool {
        self.entry_stopper < stoppers && self.servo < servos
    }

    /// Whether the arm's stopper and servo exist among `stoppers` stoppers
    /// and `servos` servos.
    pub fn is_wired(&self, stoppers: usize, servos: usize) -> (wired: bool)
        ensures
            wired == self.wired(stoppers as nat, servos as nat),
    {
        self.entry_stopper < stoppers && self.servo < servos
    }
}

/// What a phase asks of the stopper of an arm: green clears the junction's
/// override, yellow sets it, anything else leaves the stopper alone.
pub open spec fn override_op(action: IntersectionActionLight) -> Option<StopperOp> {
    match action {
        IntersectionActionLight::Green(_) => Some(StopperOp::IntersectionRelease),
        IntersectionActionLight::Yellow => Some(StopperOp::IntersectionLock),
        _ => None,
    }
}

/// The stoppers after the one at position `at` has been treated as `action`
/// asks.
pub open spec fn overridden_at(
    stoppers: Seq<StopperState>,
    at: usize,
    action: IntersectionActionLight,
) -> Seq<StopperState> {
    match override_op(action) {
        Some(op) => applied_at(stoppers, at, op),
        None => stoppers,
    }
}

/// The write, if any, that is due when the stopper at position `at` is
/// treated as `action` asks.
pub open spec fn override_command(
    stoppers: Seq<StopperState>,
    at: usize,
    action: IntersectionActionLight,
) -> Seq<Command> {
    match override_op(action) {
        Some(op) => command_at(stoppers, at, op),
        None => Seq::empty(),
    }
}

/// The write that shows `action` on the light of `arm`.
pub open spec fn light_command(arm: Arm, action: IntersectionActionLight) -> Command {
    let levels = light_levels(action);
    Command::Light { arm, green: levels.0, yellow: levels.1, red: levels.2 }
}

/// The bus write, if any, that `action` asks of a servo: an arm with green
/// is steered the way that its action names.
pub open spec fn steer_command(servo: ServoState, action: IntersectionActionLight) -> Seq<
    Command,
> {
    match action {
        IntersectionActionLight::Green(direction) => seq![servo.frame(direction)],
        _ => Seq::empty(),
    }
}

/// The most writes that applying one phase gives: a stopper, a light and a
/// servo for each arm.
pub const MAX_PHASE_COMMANDS: usize = 9;

/// The positions of the stoppers and servos of the three arms.
pub struct Wiring {
    pub left_stopper: usize,
    pub right_stopper: usize,
    pub upper_stopper: usize,
    pub left_servo: usize,
    pub right_servo: usize,
    pub upper_servo: usize,
}

/// The wiring of a junction with the given arms.
pub open spec fn wiring_of(
    left_arm: IntersectionArm,
    right_arm: IntersectionArm,
    upper_arm: IntersectionArm,
) -> Wiring {
    Wiring {
        left_stopper: left_arm.entry_stopper,
        right_stopper: right_arm.entry_stopper,
        upper_stopper: upper_arm.entry_stopper,
        left_servo: left_arm.servo,
        right_servo: right_arm.servo,
        upper_servo: upper_arm.servo,
    }
}

/// Applying a phase gives at most [`MAX_PHASE_COMMANDS`] writes, so a list
/// with that much room has room for them.
pub proof fn lemma_phase_commands_bounded(
    wiring: Wiring,
    stoppers: Seq<StopperState>,
    servos: Seq<Servo>,
    phase: IntersectionState,
    used: nat,
)
    ensures
        wiring.commands(stoppers, servos, phase).len() <= MAX_PHASE_COMMANDS,
        used + MAX_PHASE_COMMANDS <= crate::command::QUEUE_CAPACITY ==> has_room(
            used,
            wiring.commands(stoppers, servos, phase),
        ),
{
}

impl Wiring {
    /// Every stopper and servo named exists among `stoppers` stoppers and
    /// `servos` servos.
    pub open spec fn fits(self, stoppers: nat, servos: nat) -> bool {
        &&& self.left_stopper < stoppers
        &&& self.right_stopper < stoppers
        &&& self.upper_stopper < stoppers
        &&& self.left_servo < servos
        &&& self.right_servo < servos
        &&& self.upper_servo < servos
    }

    /// The stoppers after `phase` has been applied to the arms.
    pub open spec fn stoppers_after(
        self,
        stoppers: Seq<StopperState>,
        phase: IntersectionState,
    ) -> Seq<StopperState> {
        stoppers_after(stoppers, self.right_stopper, self.left_stopper, self.upper_stopper, phase)
    }

    /// All writes that applying `phase` gives: first the stoppers, then the
    /// lights, then the servos.
    pub open spec fn commands(
        self,
        stoppers: Seq<StopperState>,
        servos: Seq<Servo>,
        phase: IntersectionState,
    ) -> Seq<Command> {
        stopper_commands(
            stoppers,
            self.right_stopper,
            self.left_stopper,
            self.upper_stopper,
            phase,
        ) + light_commands(phase) + servo_commands(
            servos,
            self.right_servo,
            self.left_servo,
            self.upper_servo,
            phase,
        )
    }
}

/// The stoppers after `phase` has been applied to the stoppers at the
/// positions `right`, `left` and `upper`: the right arm's stopper is
/// treated first, then the left arm's, then the upper arm's.
pub open spec fn stoppers_after(
    stoppers: Seq<StopperState>,
    right: usize,
    left: usize,
    upper: usize,
    phase: IntersectionState,
) -> Seq<StopperState> {
    let after_right = overridden_at(stoppers, right, phase.right_action);
    let after_left = overridden_at(after_right, left, phase.left_action);
    overridden_at(after_left, upper, phase.upper_action)
}

/// The stopper writes that applying `phase` gives, in order.
pub open spec fn stopper_commands(
    stoppers: Seq<StopperState>,
    right: usize,
    left: usize,
    upper: usize,
    phase: IntersectionState,
) -> Seq<Command> {
    let after_right = overridden_at(stoppers, right, phase.right_action);
    let after_left = overridden_at(after_right, left, phase.left_action);
    override_command(stoppers, right, phase.right_action) + override_command(
        after_right,
        left,
        phase.left_action,
    ) + override_command(after_left, upper, phase.upper_action)
}

/// The light writes that applying `phase` gives: right, left, upper.
pub open spec fn light_commands(phase: IntersectionState) -> Seq<Command> {
    seq![
        light_command(Arm::Right, phase.right_action),
        light_command(Arm::Left, phase.left_action),
        light_command(Arm::Upper, phase.upper_action),
    ]
}

/// The bus writes that applying `phase` gives for the servos at the
/// positions `right`, `left` and `upper`, in that order, each only for an
/// arm with green.
pub open spec fn servo_commands(
    servos: Seq<Servo>,
    right: usize,
    left: usize,
    upper: usize,
    phase: IntersectionState,
) -> Seq<Command> {
    steer_command(servos[right as int]@, phase.right_action) + steer_command(
        servos[left as int]@,
        phase.left_action,
    ) + steer_command(servos[upper as int]@, phase.upper_action)
}

/// The junction: three arms, the cycle of phases, and the count of calls
/// since the phase began.
pub struct Intersection<I: CustomIterator> {
    left_arm: IntersectionArm,
    right_arm: IntersectionArm,
    upper_arm: IntersectionArm,
    states: I,
    time_counter: u32,
}

impl<I: CustomIterator> Intersection<I> {
    /// Where the stoppers and servos of the arms stand.
    pub closed spec fn wiring(&self) -> Wiring {
        Wiring {
            left_stopper: self.left_arm.entry_stopper,
            right_stopper: self.right_arm.entry_stopper,
            upper_stopper: self.upper_arm.entry_stopper,
            left_servo: self.left_arm.servo,
            right_servo: self.right_arm.servo,
            upper_servo: self.upper_arm.servo,
        }
    }

    /// The cycle of phases with its cursor.
    pub closed spec fn cycle(&self) -> I {
        self.states
    }

    /// The number of calls since the phase began.
    pub closed spec fn counter(&self) -> nat {
        self.time_counter as nat
    }

    /// The pin levels of the light of `arm`: green, yellow, red.
    pub closed spec fn light(&self, arm: Arm) -> (bool, bool, bool) {
        match arm {
            Arm::Left => self.left_arm.light@,
            Arm::Right => self.right_arm.light@,
            Arm::Upper => self.upper_arm.light@,
        }
    }

    /// The cycle is fit for use, the count of calls has not reached the
    /// length of the current phase, and every light shows what the current
    /// phase asks of its arm.
    pub open spec fn wf(&self) -> bool {
        &&& self.cycle().inv()
        &&& self.counter() == 0 || self.counter() < self.cycle().current_spec().duration
        &&& self.shows(self.cycle().current_spec())
    }

    /// Every light shows what `phase` asks of its arm.
    pub open spec fn shows(&self, phase: IntersectionState) -> bool {
        &&& self.light(Arm::Left) == light_levels(phase.left_action)
        &&& self.light(Arm::Right) == light_levels(phase.right_action)
        &&& self.light(Arm::Upper) == light_levels(phase.upper_action)
    }

    /// Whether the call that comes next moves on to the next phase.
    pub open spec fn due(&self) -> bool {
        self.counter() + 1 >= self.cycle().current_spec().duration
    }

    /// A junction of three arms that runs through `states`. It moves on to
    /// the next phase of `states` at once and applies it, so that every
    /// stopper, light and servo starts from a phase of the cycle. The
    /// writes that are due are added to the end of `out`.
    pub fn new(
        left_arm: IntersectionArm,
        right_arm: IntersectionArm,
        upper_arm: IntersectionArm,
        states: I,
        stoppers: &mut [Stopper],
        servos: &[Servo],
        out: &mut Commands,
    ) -> (made: Intersection<I>)
        requires
            states.inv(),
            left_arm.wired(old(stoppers)@.len(), servos@.len()),
            right_arm.wired(old(stoppers)@.len(), servos@.len()),
            upper_arm.wired(old(stoppers)@.len(), servos@.len()),
            has_room(
                old(out)@.len(),
                wiring_of(left_arm, right_arm, upper_arm).commands(
                    stopper_states(old(stoppers)@),
                    servos@,
                    states.advanced().current_spec(),
                ),
            ),
        ensures
            made.wf(),
            made.counter() == 0,
            made.cycle() == states.advanced(),
            made.wiring() == wiring_of(left_arm, right_arm, upper_arm),
            made.shows(states.advanced().current_spec()),
            final(stoppers)@.len() == old(stoppers)@.len(),
            stopper_states(final(stoppers)@) == made.wiring().stoppers_after(
                stopper_states(old(stoppers)@),
                states.advanced().current_spec(),
            ),
            final(out)@ == old(out)@ + made.wiring().commands(
                stopper_states(old(stoppers)@),
                servos@,
                states.advanced().current_spec(),
            ),
    {
        let mut intersection = Intersection {
            left_arm,
            right_arm,
            upper_arm,
            states,
            time_counter: 0,
        };
        intersection.execute_next_state(stoppers, servos, out);
        intersection
    }

    /// Counts one call. When the count reaches the length of the current
    /// phase, the count starts again, the cycle moves on and the new phase
    /// is applied to the arms. The writes that are due are added to the end
    /// of `out`: none while the phase lasts.
    pub fn call(&mut self, stoppers: &mut [Stopper], servos: &[Servo], out: &mut Commands)
        requires
            old(self).wf(),
            old(self).wiring().fits(old(stoppers)@.len(), servos@.len()),
            old(self).due() ==> has_room(
                old(out)@.len(),
                old(self).wiring().commands(
                    stopper_states(old(stoppers)@),
                    servos@,
                    old(self).cycle().advanced().current_spec(),
                ),
            ),
        ensures
            final(self).wf(),
            final(self).wiring() == old(self).wiring(),
            final(stoppers)@.len() == old(stoppers)@.len(),
            old(self).due() ==> {
                let phase = old(self).cycle().advanced().current_spec();
                &&& final(self).counter() == 0
                &&& final(self).cycle() == old(self).cycle().advanced()
                &&& final(self).shows(phase)
                &&& stopper_states(final(stoppers)@) == old(self).wiring().stoppers_after(
                    stopper_states(old(stoppers)@),
                    phase,
                )
                &&& final(out)@ == old(out)@ + old(self).wiring().commands(
                    stopper_states(old(stoppers)@),
                    servos@,
                    phase,
                )
            },
            !old(self).due() ==> {
                &&& final(self).counter() == old(self).counter() + 1
                &&& final(self).cycle() == old(self).cycle()
                &&& forall|arm: Arm| final(self).light(arm) == old(self).light(arm)
                &&& final(stoppers)@ == old(stoppers)@
                &&& final(out)@ == old(out)@
            },
    {
        self.time_counter += 1;
        if self.time_counter >= self.states.current().duration {
            self.time_counter = 0;
            self.execute_next_state(stoppers, servos, out);
        }
    }

    /// Moves the cycle on to its next phase and applies that phase: for each
    /// arm, right, left, upper, the stopper's override is cleared on green
    /// and set on yellow; then each light is set; then each arm with green
    /// has its servo steered.
    fn execute_next_state(
        &mut self,
        stoppers: &mut [Stopper],
        servos: &[Servo],
        out: &mut Commands,
    )
        requires
            old(self).cycle().inv(),
            old(self).wiring().fits(old(stoppers)@.len(), servos@.len()),
            has_room(
                old(out)@.len(),
                old(self).wiring().commands(
                    stopper_states(old(stoppers)@),
                    servos@,
                    old(self).cycle().advanced().current_spec(),
                ),
            ),
        ensures
            final(self).cycle().inv(),
            final(self).cycle() == old(self).cycle().advanced(),
            final(self).counter() == old(self).counter(),
            final(self).wiring() == old(self).wiring(),
            final(self).shows(old(self).cycle().advanced().current_spec()),
            final(stoppers)@.len() == old(stoppers)@.len(),
            stopper_states(final(stoppers)@) == old(self).wiring().stoppers_after(
                stopper_states(old(stoppers)@),
                old(self).cycle().advanced().current_spec(),
            ),
            final(out)@ == old(out)@ + old(self).wiring().commands(
                stopper_states(old(stoppers)@),
                servos@,
                old(self).cycle().advanced().current_spec(),
            ),
    {
        let state = *self.states.next();
        override_arms(
            stoppers,
            self.right_arm.entry_stopper,
            self.left_arm.entry_stopper,
            self.upper_arm.entry_stopper,
            &state,
            out,
        );
        show_arms(
            &mut self.right_arm.light,
            &mut self.left_arm.light,
            &mut self.upper_arm.light,
            &state,
            out,
        );
        steer_arms(
            servos,
            self.right_arm.servo,
            self.left_arm.servo,
            self.upper_arm.servo,
            &state,
            out,
        );
        proof {
            let wiring = self.wiring();
            let locked = stopper_commands(
                stopper_states(old(stoppers)@),
                wiring.right_stopper,
                wiring.left_stopper,
                wiring.upper_stopper,
                state,
            );
            let steered = servo_commands(
                servos@,
                wiring.right_servo,
                wiring.left_servo,
                wiring.upper_servo,
                state,
            );
            assert(out@ == old(out)@ + locked + light_commands(state) + steered);
            assert(old(out)@ + locked + light_commands(state) + steered =~= old(out)@ + (locked
                + light_commands(state) + steered));
        }
    }

    /// Whether the stoppers and servos of the arms exist among `stoppers`
    /// stoppers and `servos` servos.
    pub fn is_wired(&self, stoppers: usize, servos: usize) -> (wired: bool)
        ensures
            wired == self.wiring().fits(stoppers as nat, servos as nat),
    {
        self.left_arm.is_wired(stoppers, servos) && self.right_arm.is_wired(stoppers, servos)
            && self.upper_arm.is_wired(stoppers, servos)
    }

    /// The left arm.
    pub fn left_arm(&self) -> (arm: IntersectionArm)
        ensures
            arm.entry_stopper == self.wiring().left_stopper,
            arm.servo == self.wiring().left_servo,
            arm.light@ == self.light(Arm::Left),
    {
        self.left_arm
    }

    /// The right arm.
    pub fn right_arm(&self) -> (arm: IntersectionArm)
        ensures
            arm.entry_stopper == self.wiring().right_stopper,
            arm.servo == self.wiring().right_servo,
            arm.light@ == self.light(Arm::Right),
    {
        self.right_arm
    }

    /// The upper arm.
    pub fn upper_arm(&self) -> (arm: IntersectionArm)
        ensures
            arm.entry_stopper == self.wiring().upper_stopper,
            arm.servo == self.wiring().upper_servo,
            arm.light@ == self.light(Arm::Upper),
    {
        self.upper_arm
    }

    /// The number of calls since the phase began.
    pub fn time_counter(&self) -> (count: u32)
        ensures
            count == self.counter(),
    {
        self.time_counter
    }

    /// The cycle of phases with its cursor.
    pub fn states(&self) -> (cycle: &I)
        ensures
            *cycle == self.cycle(),
    {
        &self.states
    }
}

/// Treats the stopper at position `at` as `action` asks, and adds the write
/// that is due, if any, to the end of `out`.
fn override_arm(
    stoppers: &mut [Stopper],
    at: usize,
    action: &IntersectionActionLight,
    out: &mut Commands,
)
    requires
        at < old(stoppers)@.len(),
        has_room(old(out)@.len(), override_command(stopper_states(old(stoppers)@), at, *action)),
    ensures
        final(stoppers)@.len() == old(stoppers)@.len(),
        stopper_states(final(stoppers)@) == overridden_at(stopper_states(old(stoppers)@), at, *action),
        final(out)@ == old(out)@ + override_command(stopper_states(old(stoppers)@), at, *action),
{
    match action {
        IntersectionActionLight::Green(_) => {
            apply_at(stoppers, at, StopperOp::IntersectionRelease, out);
        },
        IntersectionActionLight::Yellow => {
            apply_at(stoppers, at, StopperOp::IntersectionLock, out);
        },
        _ => {},
    }
}

/// Shows `action` on `light`, which is the light of `arm`, and adds the
/// write to the end of `out`.
fn show_arm(light: &mut Light, arm: Arm, action: &IntersectionActionLight, out: &mut Commands)
    requires
        has_room(old(out)@.len(), seq![light_command(arm, *action)]),
    ensures
        final(light)@ == light_levels(*action),
        final(out)@ == old(out)@.push(light_command(arm, *action)),
{
    let levels = light.set_state(action);
    out.push(Command::Light { arm, green: levels.0, yellow: levels.1, red: levels.2 });
}

/// Steers the servo at position `at` the way that `action` names, if it is
/// green, and adds the bus write to the end of `out`.
fn steer_arm(servos: &[Servo], at: usize, action: &IntersectionActionLight, out: &mut Commands)
    requires
        at < servos@.len(),
        has_room(old(out)@.len(), steer_command(servos@[at as int]@, *action)),
    ensures
        final(out)@ == old(out)@ + steer_command(servos@[at as int]@, *action),
{
    if let IntersectionActionLight::Green(direction) = action {
        let frame = servos[at].set_direction(direction);
        out.push(frame);
    }
}

/// Applies `phase` to the stoppers at the positions `right`, `left` and
/// `upper`, in that order, and adds the writes that are due to the end of
/// `out`.
fn override_arms(
    stoppers: &mut [Stopper],
    right: usize,
    left: usize,
    upper: usize,
    phase: &IntersectionState,
    out: &mut Commands,
)
    requires
        right < old(stoppers)@.len(),
        left < old(stoppers)@.len(),
        upper < old(stoppers)@.len(),
        has_room(
            old(out)@.len(),
            stopper_commands(stopper_states(old(stoppers)@), right, left, upper, *phase),
        ),
    ensures
        final(stoppers)@.len() == old(stoppers)@.len(),
        stopper_states(final(stoppers)@) == stoppers_after(
            stopper_states(old(stoppers)@),
            right,
            left,
            upper,
            *phase,
        ),
        final(out)@ == old(out)@ + stopper_commands(
            stopper_states(old(stoppers)@),
            right,
            left,
            upper,
            *phase,
        ),
{
    let ghost start = stopper_states(stoppers@);
    let ghost base = out@;
    override_arm(stoppers, right, &phase.right_action, out);
    let ghost after_right = stopper_states(stoppers@);
    override_arm(stoppers, left, &phase.left_action, out);
    let ghost after_left = stopper_states(stoppers@);
    override_arm(stoppers, upper, &phase.upper_action, out);
    proof {
        let first = override_command(start, right, phase.right_action);
        let second = override_command(after_right, left, phase.left_action);
        let third = override_command(after_left, upper, phase.upper_action);
        assert(out@ == base + first + second + third);
        assert(base + first + second + third =~= base + (first + second + third));
    }
}

/// Shows `phase` on the lights of the right, left and upper arm, in that
/// order, and adds the writes to the end of `out`.
fn show_arms(
    right: &mut Light,
    left: &mut Light,
    upper: &mut Light,
    phase: &IntersectionState,
    out: &mut Commands,
)
    requires
        has_room(old(out)@.len(), light_commands(*phase)),
    ensures
        final(right)@ == light_levels(phase.right_action),
        final(left)@ == light_levels(phase.left_action),
        final(upper)@ == light_levels(phase.upper_action),
        final(out)@ == old(out)@ + light_commands(*phase),
{
    let ghost base = out@;
    show_arm(right, Arm::Right, &phase.right_action, out);
    show_arm(left, Arm::Left, &phase.left_action, out);
    show_arm(upper, Arm::Upper, &phase.upper_action, out);
    assert(out@ =~= base + light_commands(*phase));
}

/// Steers the servos at the positions `right`, `left` and `upper`, in that
/// order, as `phase` asks, and adds the bus writes to the end of `out`.
fn steer_arms(
    servos: &[Servo],
    right: usize,
    left: usize,
    upper: usize,
    phase: &IntersectionState,
    out: &mut Commands,
)
    requires
        right < servos@.len(),
        left < servos@.len(),
        upper < servos@.len(),
        has_room(old(out)@.len(), servo_commands(servos@, right, left, upper, *phase)),
    ensures
        final(out)@ == old(out)@ + servo_commands(servos@, right, left, upper, *phase),
{
    let ghost base = out@;
    steer_arm(servos, right, &phase.right_action, out);
    steer_arm(servos, left, &phase.left_action, out);
    steer_arm(servos, upper, &phase.upper_action, out);
    proof {
        let first = steer_command(servos@[right as int]@, phase.right_action);
        let second = steer_command(servos@[left as int]@, phase.left_action);
        let third = steer_command(servos@[upper as int]@, phase.upper_action);
        assert(out@ == base + first + second + third);
        assert(base + first + second + third =~= base + (first + second + third));
    }
}

/// How many calls one round through the default cycle takes.
pub const CYCLE_TIME: u32 = 80;

/// Where a junction on the default cycle stands: the number of its phase
/// and the count of calls since the phase began.
pub struct Sequencer {
    pub phase: nat,
    pub counter: nat,
}

impl Sequencer {
    /// Where a new junction stands: at the start of phase 0.
    pub open spec fn fresh() -> Sequencer {
        Sequencer { phase: 0, counter: 0 }
    }

    /// The phase exists and has not run out.
    pub open spec fn wf(self) -> bool {
        self.phase < PHASES && self.counter < default_state(self.phase as int).duration
    }

    /// Where the junction stands after one more call.
    pub open spec fn tick(self) -> Sequencer {
        if self.counter + 1 >= default_state(self.phase as int).duration {
            Sequencer { phase: (self.phase + 1) % (PHASES as nat), counter: 0 }
        } else {
            Sequencer { phase: self.phase, counter: self.counter + 1 }
        }
    }

    /// Where the junction stands after `n` more calls.
    pub open spec fn ticks(self, n: nat) -> Sequencer
        decreases n,
    {
        if n == 0 {
            self
        } else {
            self.ticks((n - 1) as nat).tick()
        }
    }

    /// Where a junction stands `t` calls into a round: every 20 calls hold
    /// a long phase of 18 calls and then a short one of 2.
    pub open spec fn at(t: nat) -> Sequencer {
        let pair = t / 20;
        let rest = t % 20;
        if rest < LONG_STATE_TIME {
            Sequencer { phase: 2 * pair, counter: rest }
        } else {
            Sequencer { phase: 2 * pair + 1, counter: (rest - LONG_STATE_TIME) as nat }
        }
    }

    /// How many calls into a round the junction stands.
    pub open spec fn time(self) -> nat {
        20 * (self.phase / 2) + self.counter + if self.phase % 2 == 1 {
            LONG_STATE_TIME as nat
        } else {
            0
        }
    }
}

/// The phases of the default cycle last 18 and 2 calls in turn, which makes
/// 80 calls for a round.
pub proof fn lemma_default_durations(phase: nat)
    requires
        phase < PHASES,
    ensures
        default_state(phase as int).duration == if phase % 2 == 0 {
            LONG_STATE_TIME
        } else {
            SHORT_STATE_TIME
        },
        default_state(0).duration + default_state(1).duration + default_state(2).duration
            + default_state(3).duration + default_state(4).duration + default_state(5).duration
            + default_state(6).duration + default_state(7).duration == CYCLE_TIME,
{
}

/// A place in the round and the number of calls that lead to it determine
/// each other.
pub proof fn lemma_time_at(s: Sequencer, t: nat)
    ensures
        s.wf() ==> s.time() < CYCLE_TIME && Sequencer::at(s.time()) == s,
        t < CYCLE_TIME ==> Sequencer::at(t).wf() && Sequencer::at(t).time() == t,
{
}

/// One call leads from the place `t` calls into the round to the place one
/// call later, and from the end of the round to its start.
pub proof fn lemma_tick_at(t: nat)
    requires
        t < CYCLE_TIME,
    ensures
        Sequencer::at(t).tick() == Sequencer::at((t + 1) % (CYCLE_TIME as nat)),
{
}

/// Counting round the cycle of 80 calls, one call after `n - 1` calls is
/// `n` calls.
proof fn lemma_round(t: nat, n: nat)
    requires
        n > 0,
    ensures
        (t + (n - 1) as nat) % 80 < 80,
        ((t + (n - 1) as nat) % 80 + 1) % 80 == (t + n) % 80,
        (t + 0) % 80 == t % 80,
        t < 80 ==> t % 80 == t && (t + 80) % 80 == t,
{
}

/// From the place `t` calls into the round, `n` calls lead to the place
/// `t + n` calls into it, counted round the cycle of 80 calls.
pub proof fn lemma_ticks_from(t: nat, n: nat)
    requires
        t < CYCLE_TIME,
    ensures
        Sequencer::at(t).ticks(n) == Sequencer::at((t + n) % (CYCLE_TIME as nat)),
    decreases n,
{
    if n == 0 {
        lemma_round(t, 1);
    } else {
        lemma_ticks_from(t, (n - 1) as nat);
        lemma_round(t, n);
        lemma_tick_at((t + (n - 1) as nat) % 80);
    }
}

/// From any place in the round, `n` calls lead to the place `n` calls
/// later, counted round the cycle of 80 calls.
pub proof fn lemma_ticks_at(s: Sequencer, n: nat)
    requires
        s.wf(),
    ensures
        s.ticks(n) == Sequencer::at((s.time() + n) % (CYCLE_TIME as nat)),
        s.ticks(n).wf(),
{
    lemma_time_at(s, 0);
    lemma_ticks_from(s.time(), n);
    lemma_time_at(s, (s.time() + n) % (CYCLE_TIME as nat));
}

/// Starting fresh, the junction runs through the eight phases in order,
/// staying 18, 2, 18, 2, 18, 2, 18 and 2 calls in them, and is back at the
/// start of phase 0 after 80 calls; the same round then starts again.
pub proof fn lemma_phase_cycle(n: nat)
    ensures
        Sequencer::fresh().ticks(n) == Sequencer::at(n % (CYCLE_TIME as nat)),
        Sequencer::fresh().ticks(CYCLE_TIME as nat) == Sequencer::fresh(),
        n % (CYCLE_TIME as nat) < 18 ==> Sequencer::fresh().ticks(n).phase == 0,
        18 <= n % (CYCLE_TIME as nat) < 20 ==> Sequencer::fresh().ticks(n).phase == 1,
        20 <= n % (CYCLE_TIME as nat) < 38 ==> Sequencer::fresh().ticks(n).phase == 2,
        38 <= n % (CYCLE_TIME as nat) < 40 ==> Sequencer::fresh().ticks(n).phase == 3,
        40 <= n % (CYCLE_TIME as nat) < 58 ==> Sequencer::fresh().ticks(n).phase == 4,
        58 <= n % (CYCLE_TIME as nat) < 60 ==> Sequencer::fresh().ticks(n).phase == 5,
        60 <= n % (CYCLE_TIME as nat) < 78 ==> Sequencer::fresh().ticks(n).phase == 6,
        78 <= n % (CYCLE_TIME as nat) ==> Sequencer::fresh().ticks(n).phase == 7,
{
    lemma_ticks_at(Sequencer::fresh(), n);
    lemma_ticks_at(Sequencer::fresh(), CYCLE_TIME as nat);
}

/// From any place in the round, 80 calls lead back to the same place.
pub proof fn lemma_full_cycle(s: Sequencer)
    requires
        s.wf(),
    ensures
        s.ticks(CYCLE_TIME as nat) == s,
{
    lemma_ticks_at(s, CYCLE_TIME as nat);
    lemma_time_at(s, 0);
    lemma_round(s.time(), 1);
}

impl Intersection<DefaultIntersectionStates> {
    /// Where the junction stands in the default cycle.
    pub open spec fn sequencer(&self) -> Sequencer {
        Sequencer { phase: self.cycle().position(), counter: self.counter() }
    }
}

/// A junction made with a new default cycle starts fresh.
pub proof fn lemma_new_is_fresh(
    states: DefaultIntersectionStates,
    made: Intersection<DefaultIntersectionStates>,
)
    requires
        states.inv(),
        states.position() == PHASES - 1,
        made.counter() == 0,
        made.cycle() == states.advanced(),
    ensures
        made.sequencer() == Sequencer::fresh(),
{
    states.lemma_cycle();
}

/// What a call does to a junction on the default cycle is one tick of its
/// sequencer.
pub proof fn lemma_call_is_tick(
    before: Intersection<DefaultIntersectionStates>,
    after: Intersection<DefaultIntersectionStates>,
)
    requires
        before.wf(),
        before.due() ==> after.counter() == 0 && after.cycle() == before.cycle().advanced(),
        !before.due() ==> after.counter() == before.counter() + 1 && after.cycle()
            == before.cycle(),
    ensures
        before.sequencer().wf(),
        after.sequencer() == before.sequencer().tick(),
{
    before.cycle().lemma_cycle();
    lemma_default_durations(before.cycle().position());
}

impl Wiring {
    /// No two arms share a stopper.
    pub open spec fn stoppers_distinct(self) -> bool {
        &&& self.left_stopper != self.right_stopper
        &&& self.left_stopper != self.upper_stopper
        &&& self.right_stopper != self.upper_stopper
    }

    /// The junction's override is set on the stopper of every arm that
    /// `phase` does not give green, and on no other arm's.
    pub open spec fn holds_back(self, stoppers: Seq<StopperState>, phase: IntersectionState)
        -> bool {
        &&& stoppers[self.left_stopper as int].overridden == !(phase.left_action is Green)
        &&& stoppers[self.right_stopper as int].overridden == !(phase.right_action is Green)
        &&& stoppers[self.upper_stopper as int].overridden == !(phase.upper_action is Green)
    }
}

impl Wiring {
    /// Every stopper named exists among `stoppers` stoppers.
    pub open spec fn stoppers_fit(self, stoppers: nat) -> bool {
        &&& self.left_stopper < stoppers
        &&& self.right_stopper < stoppers
        &&& self.upper_stopper < stoppers
    }
}

/// Phase 0 of the default cycle gives every arm green, so after it the
/// junction holds back no arm, whatever was before.
pub proof fn lemma_first_phase_holds_back(wiring: Wiring, stoppers: Seq<StopperState>)
    requires
        wiring.stoppers_fit(stoppers.len()),
    ensures
        wiring.holds_back(wiring.stoppers_after(stoppers, default_state(0)), default_state(0)),
{
}

/// On the default cycle, with a stopper of its own for every arm, a
/// junction that holds back exactly the arms without green still does so
/// after it has moved on to the next phase.
pub proof fn lemma_next_phase_holds_back(wiring: Wiring, stoppers: Seq<StopperState>, phase: int)
    requires
        wiring.stoppers_fit(stoppers.len()),
        wiring.stoppers_distinct(),
        0 <= phase < PHASES,
        wiring.holds_back(stoppers, default_state(phase)),
    ensures
        wiring.holds_back(
            wiring.stoppers_after(stoppers, default_state((phase + 1) % (PHASES as int))),
            default_state((phase + 1) % (PHASES as int)),
        ),
{
}

/// What a section does to a stopper does not touch the junction's
/// override: the arms held back stay the same.
pub proof fn lemma_sections_keep_hold_back(
    wiring: Wiring,
    stoppers: Seq<StopperState>,
    phase: IntersectionState,
    at: usize,
    op: StopperOp,
)
    requires
        wiring.stoppers_fit(stoppers.len()),
        at < stoppers.len(),
        op == StopperOp::Lock || op == StopperOp::Release,
    ensures
        wiring.holds_back(applied_at(stoppers, at, op), phase) == wiring.holds_back(
            stoppers,
            phase,
        ),
{
}

} // verus!
