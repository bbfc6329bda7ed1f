//! The section: a stretch of road that keeps its stoppers locked while a
//! car is on it.

use vstd::prelude::*;
use crate::command::{has_room, Command, Commands};
use crate::sensor::{Sensor, SensorEnum};
use crate::slots::{Slots, CAPACITY};
use crate::stopper::{
    applied_at, apply_at, can_apply_at, command_at, fits_at, stopper_states, Stopper, StopperOp,
    StopperState,
};

verus! {

/// What a section is, as a mathematical value.
pub struct SectionState {
    pub id: u8,
    /// Cars that entered less cars that left. Nothing keeps it from going
    /// below zero.
    pub locks: int,
    /// The sensors that mark the entry, by position, in the order of their
    /// registration.
    pub start_sensors: Seq<usize>,
    /// The sensors that mark the exit.
    pub end_sensors: Seq<usize>,
    /// The stoppers of the section, by position, in the order of their
    /// registration.
    pub stoppers: Seq<usize>,
    /// The section's own position, once it has been told.
    pub self_reference: Option<usize>,
}

/// The stoppers after each of `targets` has taken `op`, in the order of
/// `targets`, with the writes that are due, in the same order. There is no
/// result where a target does not exist or a lock does not fit any more.
pub open spec fn applied_each(stoppers: Seq<StopperState>, targets: Seq<usize>, op: StopperOp)
    -> Option<(Seq<StopperState>, Seq<Command>)>
    decreases targets.len(),
{
    if targets.len() == 0 {
        Some((stoppers, Seq::empty()))
    } else {
        match applied_each(stoppers, targets.drop_last(), op) {
            Some((before, commands)) => if can_apply_at(before, targets.last(), op) {
                Some(
                    (
                        applied_at(before, targets.last(), op),
                        commands + command_at(before, targets.last(), op),
                    ),
                )
            } else {
                None
            },
            None => None,
        }
    }
}

/// Where all of `targets` can be treated, so can the first `k` of them,
/// and that gives no more writes.
pub proof fn lemma_applied_each_prefix(
    stoppers: Seq<StopperState>,
    targets: Seq<usize>,
    op: StopperOp,
    k: int,
)
    requires
        applied_each(stoppers, targets, op) is Some,
        0 <= k <= targets.len(),
    ensures
        applied_each(stoppers, targets.take(k), op) matches Some((_, part)) && applied_each(
            stoppers,
            targets,
            op,
        ) matches Some((_, whole)) && part.len() <= whole.len(),
    decreases targets.len(),
{
    if k < targets.len() {
        lemma_applied_each_prefix(stoppers, targets.drop_last(), op, k);
        assert(targets.drop_last().take(k) =~= targets.take(k));
    } else {
        assert(targets.take(k) =~= targets);
    }
}

/// With one stopper registered, it alone is treated. With two, the one
/// registered first is treated first and its write comes first; the second
/// is treated in the state that the first has left.
pub proof fn lemma_applied_in_order(
    stoppers: Seq<StopperState>,
    first: usize,
    second: usize,
    op: StopperOp,
)
    ensures
        applied_each(stoppers, Seq::empty(), op) == Some((stoppers, Seq::<Command>::empty())),
        can_apply_at(stoppers, first, op) ==> applied_each(stoppers, seq![first], op) == Some(
            (applied_at(stoppers, first, op), command_at(stoppers, first, op)),
        ),
        can_apply_at(stoppers, first, op) && can_apply_at(
            applied_at(stoppers, first, op),
            second,
            op,
        ) ==> applied_each(stoppers, seq![first, second], op) == Some(
            (
                applied_at(applied_at(stoppers, first, op), second, op),
                command_at(stoppers, first, op) + command_at(
                    applied_at(stoppers, first, op),
                    second,
                    op,
                ),
            ),
        ),
{
    let one = seq![first];
    let two = seq![first, second];
    assert(one.drop_last() =~= Seq::<usize>::empty());
    assert(two.drop_last() =~= one);
    reveal_with_fuel(applied_each, 3);
    assert(Seq::<Command>::empty() + command_at(stoppers, first, op) =~= command_at(
        stoppers,
        first,
        op,
    ));
}

/// Whether each of `targets` exists and can take `op` when its turn comes,
/// and a list that holds `used` writes has room for the writes that are due.
pub open spec fn apply_each_fits(
    stoppers: Seq<StopperState>,
    targets: Seq<usize>,
    op: StopperOp,
    used: nat,
) -> bool {
    applied_each(stoppers, targets, op) matches Some((_, commands)) && has_room(used, commands)
}

/// Copies `items` over `scratch`.
pub fn copy_into<T: Copy>(items: &[T], scratch: &mut [T])
    requires
        items@.len() == old(scratch)@.len(),
    ensures
        final(scratch)@ == items@,
{
    let mut i: usize = 0;
    while i < items.len()
        invariant
            i <= items@.len(),
            scratch@.len() == items@.len(),
            scratch@.take(i as int) == items@.take(i as int),
        decreases items@.len() - i,
    {
        scratch[i] = items[i];
        proof {
            assert(scratch@.take(i + 1) =~= items@.take(i + 1));
        }
        i += 1;
    }
    proof {
        assert(scratch@.take(items@.len() as int) =~= scratch@);
        assert(items@.take(items@.len() as int) =~= items@);
    }
}

/// Has the stoppers named in `targets` take `op`, in the order of their
/// registration, up to the first that does not fit, and adds the writes
/// that are due to the end of `out`. Returns whether all fitted.
pub(crate) fn apply_each(
    stoppers: &mut [Stopper],
    targets: &Slots,
    op: StopperOp,
    out: &mut Commands,
) -> (done: bool)
    ensures
        final(stoppers)@.len() == old(stoppers)@.len(),
        done == apply_each_fits(stopper_states(old(stoppers)@), targets@, op, old(out)@.len()),
        done ==> (applied_each(stopper_states(old(stoppers)@), targets@, op) matches Some(
            (after, commands),
        ) && stopper_states(final(stoppers)@) == after && final(out)@ == old(out)@ + commands),
{
    let ghost start = stopper_states(stoppers@);
    let ghost base = out@;
    let ghost mut trace: Seq<Command> = Seq::empty();
    let n = targets.len();
    let mut i: usize = 0;
    while i < n
        invariant
            n == targets@.len(),
            i <= n,
            start == stopper_states(old(stoppers)@),
            base == old(out)@,
            stoppers@.len() == start.len(),
            applied_each(start, targets@.take(i as int), op) == Some(
                (stopper_states(stoppers@), trace),
            ),
            out@ == base + trace,
        decreases n - i,
    {
        let at = targets.get(i);
        proof {
            assert(targets@.take(i + 1).drop_last() =~= targets@.take(i as int));
        }
        if !fits_at(stoppers, at, op, out) {
            proof {
                if apply_each_fits(start, targets@, op, base.len()) {
                    lemma_applied_each_prefix(start, targets@, op, i + 1);
                }
            }
            return false;
        }
        proof {
            trace = trace + command_at(stopper_states(stoppers@), at, op);
        }
        apply_at(stoppers, at, op, out);
        i += 1;
    }
    proof {
        assert(targets@.take(n as int) =~= targets@);
        out.lemma_bounded();
    }
    true
}

/// A section of road.
#[derive(Clone, Copy, Debug)]
pub struct Section {
    id: u8,
    locks: i8,
    start_sensors: Slots,
    end_sensors: Slots,
    stoppers: Slots,
    self_reference: Option<usize>,
}

impl View for Section {
    type V = SectionState;

    closed spec fn view(&self) -> SectionState {
        SectionState {
            id: self.id,
            locks: self.locks as int,
            start_sensors: self.start_sensors@,
            end_sensors: self.end_sensors@,
            stoppers: self.stoppers@,
            self_reference: self.self_reference,
        }
    }
}

/// The sections of a slice as mathematical values, position by position.
pub open spec fn section_states(sections: Seq<Section>) -> Seq<SectionState> {
    sections.map_values(|section: Section| section@)
}

impl SectionState {
    /// The section after a car has entered (`entering`) or left.
    pub open spec fn counted(self, entering: bool) -> SectionState {
        SectionState {
            locks: if entering {
                self.locks + 1
            } else {
                self.locks - 1
            },
            ..self
        }
    }

    /// Whether the count of cars can take one more car that enters
    /// (`entering`) or leaves.
    pub open spec fn can_count(self, entering: bool) -> bool {
        if entering {
            self.locks < i8::MAX
        } else {
            self.locks > i8::MIN
        }
    }
}

/// What a section asks of its stoppers when a car enters (`entering`) or
/// leaves.
pub open spec fn section_op(entering: bool) -> StopperOp {
    if entering {
        StopperOp::Lock
    } else {
        StopperOp::Release
    }
}

impl Section {
    /// An empty section: no car on it, nothing registered.
    pub fn new(id: u8) -> (section: Section)
        ensures
            section@ == (SectionState {
                id,
                locks: 0,
                start_sensors: Seq::empty(),
                end_sensors: Seq::empty(),
                stoppers: Seq::empty(),
                self_reference: None,
            }),
    {
        Section {
            id,
            locks: 0,
            start_sensors: Slots::new(),
            end_sensors: Slots::new(),
            stoppers: Slots::new(),
            self_reference: None,
        }
    }

    /// Tells the section its own position among the sections. This comes
    /// before any sensor is added.
    pub fn set_self_reference(&mut self, self_reference: usize)
        ensures
            final(self)@ == (SectionState {
                self_reference: Some(self_reference),
                ..old(self)@
            }),
    {
        self.self_reference = Some(self_reference);
    }

    /// Whether the section can be told that a car has entered (`entering`)
    /// or left: the count has room for it, each stopper of the section
    /// exists and can be locked or released when its turn comes, and `out`
    /// has room for the writes. `scratch` is overwritten.
    pub fn can_notify(
        &self,
        entering: bool,
        stoppers: &[Stopper],
        out: &Commands,
        scratch: &mut [Stopper],
    ) -> (fits: bool)
        requires
            old(scratch)@.len() == stoppers@.len(),
        ensures
            final(scratch)@.len() == stoppers@.len(),
            fits == self@.notify_fits(stopper_states(stoppers@), entering, out@.len()),
    {
        copy_into(stoppers, scratch);
        let mut section = *self;
        let mut list = *out;
        section.notify(entering, scratch, &mut list)
    }

    /// Tells the section that a car has entered (`entering`) or left, if
    /// that fits. Returns whether it did.
    pub(crate) fn notify(&mut self, entering: bool, stoppers: &mut [Stopper], out: &mut Commands)
        -> (done: bool)
        ensures
            final(stoppers)@.len() == old(stoppers)@.len(),
            done == old(self)@.notify_fits(
                stopper_states(old(stoppers)@),
                entering,
                old(out)@.len(),
            ),
            done ==> final(self)@ == old(self)@.counted(entering) && (applied_each(
                stopper_states(old(stoppers)@),
                old(self)@.stoppers,
                section_op(entering),
            ) matches Some((after, commands)) && stopper_states(final(stoppers)@) == after
                && final(out)@ == old(out)@ + commands),
    {
        if entering {
            if self.locks == i8::MAX {
                return false;
            }
            let done = apply_each(stoppers, &self.stoppers, StopperOp::Lock, out);
            if done {
                self.locks += 1;
            }
            done
        } else {
            if self.locks == i8::MIN {
                return false;
            }
            let done = apply_each(stoppers, &self.stoppers, StopperOp::Release, out);
            if done {
                self.locks -= 1;
            }
            done
        }
    }

    /// A car has passed an entry sensor: counts it and locks every stopper
    /// of the section, in the order of their registration. The writes that
    /// are due are added to the end of `out`.
    pub fn start_sensor_callback(&mut self, stoppers: &mut [Stopper], out: &mut Commands)
        requires
            old(self)@.notify_fits(stopper_states(old(stoppers)@), true, old(out)@.len()),
        ensures
            final(self)@ == old(self)@.counted(true),
            final(stoppers)@.len() == old(stoppers)@.len(),
            applied_each(
                stopper_states(old(stoppers)@),
                old(self)@.stoppers,
                StopperOp::Lock,
            ) matches Some((after, commands)) && stopper_states(final(stoppers)@) == after
                && final(out)@ == old(out)@ + commands,
    {
        self.locks += 1;
        apply_each(stoppers, &self.stoppers, StopperOp::Lock, out);
    }

    /// A car has passed an exit sensor: counts it off and releases every
    /// stopper of the section, in the order of their registration, whether
    /// or not a car was counted in before. The writes that are due are
    /// added to the end of `out`.
    pub fn end_sensor_callback(&mut self, stoppers: &mut [Stopper], out: &mut Commands)
        requires
            old(self)@.notify_fits(stopper_states(old(stoppers)@), false, old(out)@.len()),
        ensures
            final(self)@ == old(self)@.counted(false),
            final(stoppers)@.len() == old(stoppers)@.len(),
            applied_each(
                stopper_states(old(stoppers)@),
                old(self)@.stoppers,
                StopperOp::Release,
            ) matches Some((after, commands)) && stopper_states(final(stoppers)@) == after
                && final(out)@ == old(out)@ + commands,
    {
        self.locks -= 1;
        apply_each(stoppers, &self.stoppers, StopperOp::Release, out);
    }

    /// Registers the sensor named by `sensor` as an entry or an exit sensor
    /// of the section, and the section as one of the sensor's owners.
    pub fn add_sensor(&mut self, sensor: SensorEnum, sensors: &mut [Sensor])
        requires
            old(self)@.self_reference is Some,
            sensor.position() < old(sensors)@.len(),
            sensor is StartSensor ==> old(self)@.start_sensors.len() < CAPACITY && old(
                sensors,
            )@[sensor.position() as int]@.start_section_owners.len() < CAPACITY,
            sensor is EndSensor ==> old(self)@.end_sensors.len() < CAPACITY && old(
                sensors,
            )@[sensor.position() as int]@.end_section_owners.len() < CAPACITY,
        ensures
            final(sensors)@.len() == old(sensors)@.len(),
            forall|i: int|
                0 <= i < old(sensors)@.len() && i != sensor.position() ==> final(sensors)@[i]
                    == old(sensors)@[i],
            final(self)@ == old(self)@.with_sensor(sensor),
            final(sensors)@[sensor.position() as int]@ == old(
                sensors,
            )@[sensor.position() as int]@.with_owner(
                sensor is StartSensor,
                old(self)@.self_reference->0,
            ),
    {
        if let Some(self_reference) = self.self_reference {
            match sensor {
                SensorEnum::StartSensor(sensor) => {
                    sensors[sensor].add_start_owner(self_reference);
                    self.start_sensors.insert(sensor);
                },
                SensorEnum::EndSensor(sensor) => {
                    sensors[sensor].add_end_owner(self_reference);
                    self.end_sensors.insert(sensor);
                },
            }
        }
    }

    /// Registers the stopper at position `stopper` as one of the section's.
    pub fn add_stopper(&mut self, stopper: usize)
        requires
            old(self)@.stoppers.len() < CAPACITY,
        ensures
            final(self)@ == (SectionState {
                stoppers: old(self)@.stoppers.push(stopper),
                ..old(self)@
            }),
    {
        self.stoppers.insert(stopper);
    }

    pub fn id(&self) -> (id: u8)
        ensures
            id == self@.id,
    {
        self.id
    }

    /// Cars that entered less cars that left.
    pub fn locks(&self) -> (locks: i8)
        ensures
            locks == self@.locks,
    {
        self.locks
    }

    /// The section's own position, once it has been told.
    pub fn self_reference(&self) -> (position: Option<usize>)
        ensures
            position == self@.self_reference,
    {
        self.self_reference
    }

    /// The entry sensors of the section.
    pub fn start_sensors(&self) -> (sensors: Slots)
        ensures
            sensors@ == self@.start_sensors,
    {
        self.start_sensors
    }

    /// The exit sensors of the section.
    pub fn end_sensors(&self) -> (sensors: Slots)
        ensures
            sensors@ == self@.end_sensors,
    {
        self.end_sensors
    }

    /// The stoppers of the section.
    pub fn stoppers(&self) -> (stoppers: Slots)
        ensures
            stoppers@ == self@.stoppers,
    {
        self.stoppers
    }
}

impl SectionState {
    /// The section with one more entry or exit sensor.
    pub open spec fn with_sensor(self, sensor: SensorEnum) -> SectionState {
        match sensor {
            SensorEnum::StartSensor(position) => SectionState {
                start_sensors: self.start_sensors.push(position),
                ..self
            },
            SensorEnum::EndSensor(position) => SectionState {
                end_sensors: self.end_sensors.push(position),
                ..self
            },
        }
    }
}

impl SectionState {
    /// Whether the section can be told that a car has entered (`entering`)
    /// or left: the count has room for it, each of its stoppers exists
    /// among `stoppers` and can be locked or released when its turn comes,
    /// and a list that holds `used` writes has room for the writes.
    pub open spec fn notify_fits(self, stoppers: Seq<StopperState>, entering: bool, used: nat)
        -> bool {
        self.can_count(entering) && apply_each_fits(
            stoppers,
            self.stoppers,
            section_op(entering),
            used,
        )
    }
}

/// The sections and stoppers that a sensor reaches.
pub struct Yard {
    pub sections: Seq<SectionState>,
    pub stoppers: Seq<StopperState>,
}

/// The yard made of the given sections and stoppers.
pub open spec fn yard(sections: Seq<Section>, stoppers: Seq<Stopper>) -> Yard {
    Yard { sections: section_states(sections), stoppers: stopper_states(stoppers) }
}

impl Yard {
    /// The yard after the section at position `at` has been told that a car
    /// has entered (`entering`) or left, with the writes that are due: the
    /// section counts the car, and each of its stoppers is locked or
    /// released, in the order of their registration. There is no result
    /// where the section or one of its stoppers does not exist, or where a
    /// counter is full.
    pub open spec fn notified(self, at: usize, entering: bool) -> Option<(Yard, Seq<Command>)> {
        if at < self.sections.len() && self.sections[at as int].can_count(entering) {
            match applied_each(
                self.stoppers,
                self.sections[at as int].stoppers,
                section_op(entering),
            ) {
                Some((stoppers, commands)) => Some(
                    (
                        Yard {
                            sections: self.sections.update(
                                at as int,
                                self.sections[at as int].counted(entering),
                            ),
                            stoppers,
                        },
                        commands,
                    ),
                ),
                None => None,
            }
        } else {
            None
        }
    }

    /// The yard after each of the sections `owners` has been told, in the
    /// order of `owners`, with the writes that are due, in the same order.
    pub open spec fn notified_each(self, owners: Seq<usize>, entering: bool) -> Option<
        (Yard, Seq<Command>),
    >
        decreases owners.len(),
    {
        if owners.len() == 0 {
            Some((self, Seq::empty()))
        } else {
            match self.notified_each(owners.drop_last(), entering) {
                Some((before, commands)) => match before.notified(owners.last(), entering) {
                    Some((after, more)) => Some((after, commands + more)),
                    None => None,
                },
                None => None,
            }
        }
    }

    /// Whether each of the sections `owners` can be told when its turn
    /// comes, and a list that holds `used` writes has room for the writes
    /// that are due.
    pub open spec fn notify_each_fits(self, owners: Seq<usize>, entering: bool, used: nat)
        -> bool {
        self.notified_each(owners, entering) matches Some((_, commands)) && has_room(
            used,
            commands,
        )
    }

    /// Where all of `owners` can be told, so can the first `k` of them, and
    /// that gives no more writes.
    pub proof fn lemma_notified_each_prefix(self, owners: Seq<usize>, entering: bool, k: int)
        requires
            self.notified_each(owners, entering) is Some,
            0 <= k <= owners.len(),
        ensures
            self.notified_each(owners.take(k), entering) matches Some((_, part))
                && self.notified_each(owners, entering) matches Some((_, whole)) && part.len()
                <= whole.len(),
        decreases owners.len(),
    {
        if k < owners.len() {
            self.lemma_notified_each_prefix(owners.drop_last(), entering, k);
            assert(owners.drop_last().take(k) =~= owners.take(k));
        } else {
            assert(owners.take(k) =~= owners);
        }
    }
}

/// Tells the sections named in `owners`, in the order of their
/// registration, that a car has entered (`entering`) or left, up to the
/// first that cannot be told, and adds the writes that are due to the end of
/// `out`. Returns whether all were told.
pub(crate) fn notify_each(
    owners: &Slots,
    entering: bool,
    sections: &mut [Section],
    stoppers: &mut [Stopper],
    out: &mut Commands,
) -> (done: bool)
    ensures
        final(sections)@.len() == old(sections)@.len(),
        final(stoppers)@.len() == old(stoppers)@.len(),
        done == yard(old(sections)@, old(stoppers)@).notify_each_fits(
            owners@,
            entering,
            old(out)@.len(),
        ),
        done ==> (yard(old(sections)@, old(stoppers)@).notified_each(
            owners@,
            entering,
        ) matches Some((after, commands)) && yard(final(sections)@, final(stoppers)@) == after
            && final(out)@ == old(out)@ + commands),
{
    let ghost start = yard(sections@, stoppers@);
    let ghost base = out@;
    let ghost mut trace: Seq<Command> = Seq::empty();
    let n = owners.len();
    let mut i: usize = 0;
    while i < n
        invariant
            n == owners@.len(),
            i <= n,
            start == yard(old(sections)@, old(stoppers)@),
            base == old(out)@,
            sections@.len() == start.sections.len(),
            stoppers@.len() == start.stoppers.len(),
            start.notified_each(owners@.take(i as int), entering) == Some(
                (yard(sections@, stoppers@), trace),
            ),
            out@ == base + trace,
        decreases n - i,
    {
        let at = owners.get(i);
        proof {
            assert(owners@.take(i + 1).drop_last() =~= owners@.take(i as int));
        }
        let ghost before = yard(sections@, stoppers@);
        let done = at < sections.len() && sections[at].notify(entering, stoppers, out);
        if !done {
            proof {
                if start.notify_each_fits(owners@, entering, base.len()) {
                    start.lemma_notified_each_prefix(owners@, entering, i + 1);
                }
            }
            return false;
        }
        proof {
            assert(section_states(sections@) =~= before.sections.update(
                at as int,
                before.sections[at as int].counted(entering),
            ));
            let (_, more) = before.notified(at, entering)->0;
            assert(out@ == base + trace + more);
            assert(base + trace + more =~= base + (trace + more));
            trace = trace + more;
        }
        i += 1;
    }
    proof {
        assert(owners@.take(n as int) =~= owners@);
        out.lemma_bounded();
    }
    true
}

} // verus!
