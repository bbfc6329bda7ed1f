//! The stopper: a gate that holds cars back while anything locks it.

use vstd::prelude::*;
use crate::command::{has_room, Command, Commands, QUEUE_CAPACITY};
use crate::pin_mockup::Pin;

verus! {

/// The blocking state in which a stopper's pin is high: the pin is high
/// while the stopper lets cars pass and low while it blocks.
pub const STOPPER_ACTIVE: bool = false;

/// The level that a stopper's pin is driven to for a given blocking state.
pub open spec fn pin_level(blocking: bool) -> bool {
    blocking == STOPPER_ACTIVE
}

/// One of the four requests that a stopper takes.
#[derive(Clone, Copy, Debug, PartialEq, Eq, Structural)]
pub enum StopperOp {
    /// A section locks the stopper.
    Lock,
    /// A section gives one lock back.
    Release,
    /// The junction sets its override.
    IntersectionLock,
    /// The junction clears its override.
    IntersectionRelease,
}

/// What a stopper is, as a mathematical value.
pub struct StopperState {
    /// How many section locks are held.
    pub locks: nat,
    /// Whether the junction's override is set.
    pub overridden: bool,
    /// The level of the pin: `true` is high.
    pub pin_high: bool,
}

impl StopperState {
    /// A stopper blocks while a section holds a lock or the override is set.
    pub open spec fn blocking(self) -> bool {
        self.locks > 0 || self.overridden
    }

    /// The pin shows the blocking state.
    pub open spec fn settled(self) -> bool {
        self.pin_high == pin_level(self.blocking())
    }

    /// The counters after `op`, the pin left as it is.
    pub open spec fn counted(self, op: StopperOp) -> StopperState {
        match op {
            StopperOp::Lock => StopperState { locks: self.locks + 1, ..self },
            StopperOp::Release => StopperState {
                locks: if self.locks > 0 {
                    (self.locks - 1) as nat
                } else {
                    0
                },
                ..self
            },
            StopperOp::IntersectionLock => StopperState { overridden: true, ..self },
            StopperOp::IntersectionRelease => StopperState { overridden: false, ..self },
        }
    }

    /// Whether `op` writes the pin. A lock writes when it is the first and no
    /// override is set; a release when it gives back the last lock and no
    /// override is set; setting or clearing the override when that changes
    /// the override and no section holds a lock.
    pub open spec fn writes_pin(self, op: StopperOp) -> bool {
        match op {
            StopperOp::Lock => self.locks == 0 && !self.overridden,
            StopperOp::Release => self.locks == 1 && !self.overridden,
            StopperOp::IntersectionLock => self.locks == 0 && !self.overridden,
            StopperOp::IntersectionRelease => self.locks == 0 && self.overridden,
        }
    }

    /// The level that `op` drives the pin to, if it writes the pin.
    pub open spec fn written(self, op: StopperOp) -> Option<bool> {
        if self.writes_pin(op) {
            Some(pin_level(self.counted(op).blocking()))
        } else {
            None
        }
    }

    /// The stopper after `op`.
    pub open spec fn step(self, op: StopperOp) -> StopperState {
        let next = self.counted(op);
        match self.written(op) {
            Some(high) => StopperState { pin_high: high, ..next },
            None => next,
        }
    }

    /// The stopper after the requests `ops`, taken in order.
    pub open spec fn run(self, ops: Seq<StopperOp>) -> StopperState
        decreases ops.len(),
    {
        if ops.len() == 0 {
            self
        } else {
            self.run(ops.drop_last()).step(ops.last())
        }
    }

    /// How many of the requests `ops` write the pin.
    pub open spec fn writes(self, ops: Seq<StopperOp>) -> nat
        decreases ops.len(),
    {
        if ops.len() == 0 {
            0
        } else {
            let before = self.run(ops.drop_last());
            self.writes(ops.drop_last()) + if before.writes_pin(ops.last()) {
                1nat
            } else {
                0nat
            }
        }
    }

    /// How many of the requests `ops` change the blocking state.
    pub open spec fn transitions(self, ops: Seq<StopperOp>) -> nat
        decreases ops.len(),
    {
        if ops.len() == 0 {
            0
        } else {
            let before = self.run(ops.drop_last());
            self.transitions(ops.drop_last()) + if before.blocking() != before.step(
                ops.last(),
            ).blocking() {
                1nat
            } else {
                0nat
            }
        }
    }
}

/// A request writes the pin exactly when it changes the blocking state, the
/// level written is the one for the new state, and a pin that showed the
/// state before shows it after.
pub proof fn lemma_step_writes_on_change(s: StopperState, op: StopperOp)
    ensures
        s.writes_pin(op) == (s.blocking() != s.step(op).blocking()),
        s.written(op) matches Some(high) ==> high == pin_level(s.step(op).blocking()),
        s.step(op).locks == s.counted(op).locks,
        s.step(op).overridden == s.counted(op).overridden,
        s.settled() ==> s.step(op).settled(),
{
}

/// Over any sequence of requests the number of pin writes is the number of
/// changes of the blocking state, and a stopper whose pin showed its state
/// at the start still shows it at the end.
pub proof fn lemma_writes_are_transitions(s: StopperState, ops: Seq<StopperOp>)
    ensures
        s.writes(ops) == s.transitions(ops),
        s.settled() ==> s.run(ops).settled(),
    decreases ops.len(),
{
    if ops.len() > 0 {
        lemma_writes_are_transitions(s, ops.drop_last());
        lemma_step_writes_on_change(s.run(ops.drop_last()), ops.last());
    }
}

/// Controls one stopper.
#[derive(Clone, Copy, Debug)]
pub struct Stopper {
    /// The image of the pin that the stopper hangs on.
    pin: Pin,
    /// The locks that sections hold.
    number_locks: usize,
    /// Whether the junction holds the stopper shut, whatever the sections say.
    intersection_lock: bool,
}

impl View for Stopper {
    type V = StopperState;

    closed spec fn view(&self) -> StopperState {
        StopperState {
            locks: self.number_locks as nat,
            overridden: self.intersection_lock,
            pin_high: self.pin@,
        }
    }
}

impl Stopper {
    /// Drives the pin to the level of the current blocking state.
    fn write_pin(&mut self) -> (high: bool)
        ensures
            high == pin_level(old(self)@.blocking()),
            final(self)@ == (StopperState { pin_high: high, ..old(self)@ }),
    {
        let high = self.get_state() == STOPPER_ACTIVE;
        self.pin.set_state(high);
        high
    }

    /// A stopper with no lock and no override, together with the level
    /// that its pin is driven to at once: the level of a stopper that lets
    /// cars pass, whatever level the pin had.
    pub fn new(pin: Pin) -> (made: (Stopper, bool))
        ensures
            made.0@ == (StopperState {
                locks: 0,
                overridden: false,
                pin_high: pin_level(false),
            }),
            made.0@.settled(),
            made.1 == pin_level(false),
    {
        let mut stopper = Stopper { pin, number_locks: 0, intersection_lock: false };
        let high = stopper.write_pin();
        (stopper, high)
    }

    /// Whether `op` would write the pin.
    pub fn will_write(&self, op: StopperOp) -> (writes: bool)
        ensures
            writes == self@.writes_pin(op),
    {
        match op {
            StopperOp::Lock => self.number_locks == 0 && !self.intersection_lock,
            StopperOp::Release => self.number_locks == 1 && !self.intersection_lock,
            StopperOp::IntersectionLock => self.number_locks == 0 && !self.intersection_lock,
            StopperOp::IntersectionRelease => self.number_locks == 0 && self.intersection_lock,
        }
    }

    /// Whether the stopper blocks.
    pub fn get_state(&self) -> (blocking: bool)
        ensures
            blocking == self@.blocking(),
            blocking == (self@.locks > 0 || self@.overridden),
    {
        self.number_locks > 0 || self.intersection_lock
    }

    /// The image of the stopper's pin.
    pub fn pin(&self) -> (pin: Pin)
        ensures
            pin@ == self@.pin_high,
    {
        self.pin
    }

    /// The number of section locks held.
    pub fn number_locks(&self) -> (n: usize)
        ensures
            n == self@.locks,
    {
        self.number_locks
    }

    /// Whether the junction's override is set.
    pub fn intersection_locked(&self) -> (set: bool)
        ensures
            set == self@.overridden,
    {
        self.intersection_lock
    }

    /// Whether one more section lock fits in the counter.
    pub fn can_lock(&self) -> (fits: bool)
        ensures
            fits == (self@.locks < usize::MAX),
    {
        self.number_locks < usize::MAX
    }

    /// Takes one section lock. Returns the level written to the pin, if the
    /// pin was written: that is when the stopper starts to block.
    pub fn lock(&mut self) -> (written: Option<bool>)
        requires
            old(self)@.locks < usize::MAX,
        ensures
            final(self)@ == old(self)@.step(StopperOp::Lock),
            written == old(self)@.written(StopperOp::Lock),
            written is Some <==> old(self)@.blocking() != final(self)@.blocking(),
            old(self)@.settled() ==> final(self)@.settled(),
    {
        self.number_locks += 1;
        if self.number_locks == 1 && !self.intersection_lock {
            Some(self.write_pin())
        } else {
            None
        }
    }

    /// Gives one section lock back; with none held, nothing changes. Returns
    /// the level written to the pin, if the pin was written: that is when
    /// the stopper stops blocking.
    pub fn release(&mut self) -> (written: Option<bool>)
        ensures
            final(self)@ == old(self)@.step(StopperOp::Release),
            written == old(self)@.written(StopperOp::Release),
            written is Some <==> old(self)@.blocking() != final(self)@.blocking(),
            old(self)@.settled() ==> final(self)@.settled(),
    {
        if self.number_locks > 0 {
            self.number_locks -= 1;
            if self.number_locks == 0 && !self.intersection_lock {
                return Some(self.write_pin());
            }
        }
        None
    }

    /// Sets the junction's override. Returns the level written to the pin,
    /// if the pin was written: that is when the stopper starts to block.
    pub fn intersection_lock(&mut self) -> (written: Option<bool>)
        ensures
            final(self)@ == old(self)@.step(StopperOp::IntersectionLock),
            written == old(self)@.written(StopperOp::IntersectionLock),
            written is Some <==> old(self)@.blocking() != final(self)@.blocking(),
            old(self)@.settled() ==> final(self)@.settled(),
    {
        let change = !self.intersection_lock;
        self.intersection_lock = true;
        if change && self.number_locks == 0 {
            Some(self.write_pin())
        } else {
            None
        }
    }

    /// Clears the junction's override. Returns the level written to the pin,
    /// if the pin was written: that is when the stopper stops blocking.
    pub fn intersection_release(&mut self) -> (written: Option<bool>)
        ensures
            final(self)@ == old(self)@.step(StopperOp::IntersectionRelease),
            written == old(self)@.written(StopperOp::IntersectionRelease),
            written is Some <==> old(self)@.blocking() != final(self)@.blocking(),
            old(self)@.settled() ==> final(self)@.settled(),
    {
        let change = self.intersection_lock;
        self.intersection_lock = false;
        if change && self.number_locks == 0 {
            Some(self.write_pin())
        } else {
            None
        }
    }

    /// Carries out `op`, which is one of the four calls above.
    pub fn apply(&mut self, op: StopperOp) -> (written: Option<bool>)
        requires
            op == StopperOp::Lock ==> old(self)@.locks < usize::MAX,
        ensures
            final(self)@ == old(self)@.step(op),
            written == old(self)@.written(op),
            written is Some <==> old(self)@.blocking() != final(self)@.blocking(),
            old(self)@.settled() ==> final(self)@.settled(),
    {
        match op {
            StopperOp::Lock => self.lock(),
            StopperOp::Release => self.release(),
            StopperOp::IntersectionLock => self.intersection_lock(),
            StopperOp::IntersectionRelease => self.intersection_release(),
        }
    }
}

/// The stoppers of a slice as mathematical values, position by position.
pub open spec fn stopper_states(stoppers: Seq<Stopper>) -> Seq<StopperState> {
    stoppers.map_values(|stopper: Stopper| stopper@)
}

/// The stoppers after the one at position `at` has taken `op`.
pub open spec fn applied_at(stoppers: Seq<StopperState>, at: usize, op: StopperOp) -> Seq<
    StopperState,
> {
    stoppers.update(at as int, stoppers[at as int].step(op))
}

/// The write, if any, that is due when the stopper at position `at` takes
/// `op`.
pub open spec fn command_at(stoppers: Seq<StopperState>, at: usize, op: StopperOp) -> Seq<
    Command,
> {
    match stoppers[at as int].written(op) {
        Some(high) => seq![Command::Stopper { stopper: at, high }],
        None => Seq::empty(),
    }
}

/// Whether the stopper at position `at` exists and can take `op`.
pub open spec fn can_apply_at(stoppers: Seq<StopperState>, at: usize, op: StopperOp) -> bool {
    &&& at < stoppers.len()
    &&& op == StopperOp::Lock ==> stoppers[at as int].locks < usize::MAX
}

/// Whether the stopper at position `at` exists and can take `op`, and a
/// list that holds `used` writes has room for the write that is due.
pub open spec fn apply_at_fits(stoppers: Seq<StopperState>, at: usize, op: StopperOp, used: nat)
    -> bool {
    can_apply_at(stoppers, at, op) && has_room(used, command_at(stoppers, at, op))
}

/// Whether the stopper at position `at` exists and can take `op`, and `out`
/// has room for the write that is due.
pub fn fits_at(stoppers: &[Stopper], at: usize, op: StopperOp, out: &Commands) -> (fits: bool)
    ensures
        fits == apply_at_fits(stopper_states(stoppers@), at, op, out@.len()),
{
    if at >= stoppers.len() {
        return false;
    }
    assert(stopper_states(stoppers@)[at as int] == stoppers@[at as int]@);
    let used = out.len();
    (op != StopperOp::Lock || stoppers[at].can_lock()) && (!stoppers[at].will_write(op) || used
        < QUEUE_CAPACITY)
}

/// Has the stopper at position `at` take `op`, and adds the write that is
/// due, if any, to the end of `out`.
pub fn apply_at(stoppers: &mut [Stopper], at: usize, op: StopperOp, out: &mut Commands)
    requires
        apply_at_fits(stopper_states(old(stoppers)@), at, op, old(out)@.len()),
    ensures
        final(stoppers)@.len() == old(stoppers)@.len(),
        stopper_states(final(stoppers)@) == applied_at(stopper_states(old(stoppers)@), at, op),
        final(out)@ == old(out)@ + command_at(stopper_states(old(stoppers)@), at, op),
{
    let written = stoppers[at].apply(op);
    match written {
        Some(high) => {
            out.push(Command::Stopper { stopper: at, high });
        },
        None => {},
    }
}

} // verus!
