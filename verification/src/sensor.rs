//! The sensor: a debounced input that tells sections of passing cars.

use vstd::prelude::*;
use crate::command::{has_room, Command, Commands};
use crate::pin_mockup::Pin;
use crate::section::{copy_into, notify_each, yard, Section, Yard};
use crate::slots::{Slots, CAPACITY};
use crate::stopper::Stopper;
use crate::time::{elapsed, elapsed_spec};

verus! {

/// The pin level at which a sensor sees a car.
pub const SENSOR_ACTIVE: bool = false;

/// The time for which a sensor that has told its owners of a car keeps
/// quiet.
pub const REFRACTORY_TIME: u64 = 1_000;

/// A sensor, named by its position, in the role that it is to have for a
/// section: marking the entry or marking the exit.
#[derive(Clone, Copy, Debug, PartialEq, Eq, Structural)]
pub enum SensorEnum {
    StartSensor(usize),
    EndSensor(usize),
}

impl SensorEnum {
    /// The position of the sensor named.
    pub open spec fn position(self) -> usize {
        match self {
            SensorEnum::StartSensor(position) => position,
            SensorEnum::EndSensor(position) => position,
        }
    }
}

/// What a sensor is, as a mathematical value.
pub struct SensorState {
    pub id: u8,
    /// The level of the pin: `true` is high.
    pub level: bool,
    /// The level that the last check found.
    pub last_state: bool,
    /// The time of the last check that told the owners, if there was one.
    pub last_time: Option<u64>,
    /// The sections that the sensor marks the entry of, by position, in the
    /// order of their registration.
    pub start_section_owners: Seq<usize>,
    /// The sections that the sensor marks the exit of.
    pub end_section_owners: Seq<usize>,
}

impl SensorState {
    /// The sensor with one more owner, of its entry (`start`) or its exit.
    pub open spec fn with_owner(self, start: bool, section: usize) -> SensorState {
        if start {
            SensorState {
                start_section_owners: self.start_section_owners.push(section),
                ..self
            }
        } else {
            SensorState { end_section_owners: self.end_section_owners.push(section), ..self }
        }
    }

    /// Whether the sensor keeps quiet at the reading `time`: it has told its
    /// owners before, and the refractory time has not passed since.
    pub open spec fn quiet(self, time: u64) -> bool {
        self.last_time matches Some(last) && elapsed_spec(time, last) < REFRACTORY_TIME
    }

    /// Whether a check at the reading `time` tells the owners: the sensor
    /// sees a car, and either it has never told them before or the
    /// refractory time has passed since it last did. The first car is seen
    /// whatever the clock reads.
    pub open spec fn accepts(self, time: u64) -> bool {
        self.level == SENSOR_ACTIVE && !self.quiet(time)
    }

    /// The sensor after a check at the reading `time`.
    pub open spec fn polled(self, time: u64) -> SensorState {
        SensorState {
            last_state: self.level,
            last_time: if self.accepts(time) {
                Some(time)
            } else {
                self.last_time
            },
            ..self
        }
    }

    /// Whether the sensor can be checked at the reading `time` in `yard`:
    /// either it does not tell its owners then, or every one of them can be
    /// told when its turn comes and a list that holds `used` writes has
    /// room for the writes that are due.
    pub open spec fn check_fits(self, time: u64, yard: Yard, used: nat) -> bool {
        self.accepts(time) ==> yard.fire_fits(self, used)
    }

    /// The sensor after checks at the readings `times`, in order, with the
    /// level of the pin staying as it is.
    pub open spec fn polled_each(self, times: Seq<u64>) -> SensorState
        decreases times.len(),
    {
        if times.len() == 0 {
            self
        } else {
            self.polled_each(times.drop_last()).polled(times.last())
        }
    }

    /// How many of the checks at the readings `times` tell the owners.
    pub open spec fn triggers(self, times: Seq<u64>) -> nat
        decreases times.len(),
    {
        if times.len() == 0 {
            0
        } else {
            self.triggers(times.drop_last()) + if self.polled_each(times.drop_last()).accepts(
                times.last(),
            ) {
                1nat
            } else {
                0nat
            }
        }
    }
}

impl Yard {
    /// The yard after `sensor` has told its owners of a car, with the
    /// writes that are due: first every section whose entry it marks is
    /// told, then every section whose exit it marks, each group in the
    /// order of registration.
    pub open spec fn fired(self, sensor: SensorState) -> Option<(Yard, Seq<Command>)> {
        match self.notified_each(sensor.start_section_owners, true) {
            Some((entered, commands)) => match entered.notified_each(
                sensor.end_section_owners,
                false,
            ) {
                Some((left, more)) => Some((left, commands + more)),
                None => None,
            },
            None => None,
        }
    }

    /// Whether every owner of `sensor` can be told when its turn comes, and
    /// a list that holds `used` writes has room for the writes that are due.
    pub open spec fn fire_fits(self, sensor: SensorState, used: nat) -> bool {
        self.fired(sensor) matches Some((_, commands)) && has_room(used, commands)
    }
}

/// A sensor beside the road.
#[derive(Clone, Copy, Debug)]
pub struct Sensor {
    id: u8,
    pin: Pin,
    last_state: bool,
    last_time: Option<u64>,
    start_section_owners: Slots,
    end_section_owners: Slots,
}

impl View for Sensor {
    type V = SensorState;

    closed spec fn view(&self) -> SensorState {
        SensorState {
            id: self.id,
            level: self.pin@,
            last_state: self.last_state,
            last_time: self.last_time,
            start_section_owners: self.start_section_owners@,
            end_section_owners: self.end_section_owners@,
        }
    }
}

impl Sensor {
    /// A sensor on the given pin that has not seen a car yet.
    pub fn new(pin: Pin, id: u8) -> (sensor: Sensor)
        ensures
            sensor@ == (SensorState {
                id,
                level: pin@,
                last_state: !SENSOR_ACTIVE,
                last_time: None,
                start_section_owners: Seq::empty(),
                end_section_owners: Seq::empty(),
            }),
    {
        Sensor {
            id,
            pin,
            last_state: !SENSOR_ACTIVE,
            last_time: None,
            start_section_owners: Slots::new(),
            end_section_owners: Slots::new(),
        }
    }

    /// The level of the pin: `true` is high.
    pub fn get_state(&self) -> (state: bool)
        ensures
            state == self@.level,
    {
        self.pin.is_high()
    }

    /// Takes over the level that the caller has read from the input.
    pub fn sample(&mut self, high: bool)
        ensures
            final(self)@ == (SensorState { level: high, ..old(self)@ }),
    {
        self.pin.set_state(high);
    }

    /// Whether the sensor can be checked at the reading `time`: either it
    /// does not tell its owners then, or every one of them exists and can
    /// be told when its turn comes, and `out` has room for the writes. The
    /// two scratch slices are overwritten.
    pub fn can_check(
        &self,
        time: u64,
        sections: &[Section],
        stoppers: &[Stopper],
        out: &Commands,
        scratch_sections: &mut [Section],
        scratch_stoppers: &mut [Stopper],
    ) -> (fits: bool)
        requires
            old(scratch_sections)@.len() == sections@.len(),
            old(scratch_stoppers)@.len() == stoppers@.len(),
        ensures
            final(scratch_sections)@.len() == sections@.len(),
            final(scratch_stoppers)@.len() == stoppers@.len(),
            fits == self@.check_fits(time, yard(sections@, stoppers@), out@.len()),
    {
        copy_into(sections, scratch_sections);
        copy_into(stoppers, scratch_stoppers);
        let mut sensor = *self;
        let mut list = *out;
        sensor.check(time, scratch_sections, scratch_stoppers, &mut list)
    }

    /// Checks the sensor at the reading `time`, if that fits. Returns
    /// whether it did.
    pub(crate) fn check(
        &mut self,
        time: u64,
        sections: &mut [Section],
        stoppers: &mut [Stopper],
        out: &mut Commands,
    ) -> (done: bool)
        ensures
            final(sections)@.len() == old(sections)@.len(),
            final(stoppers)@.len() == old(stoppers)@.len(),
            done == old(self)@.check_fits(
                time,
                yard(old(sections)@, old(stoppers)@),
                old(out)@.len(),
            ),
            done ==> final(self)@ == old(self)@.polled(time),
            done && old(self)@.accepts(time) ==> (yard(old(sections)@, old(stoppers)@).fired(
                old(self)@,
            ) matches Some((after, commands)) && yard(final(sections)@, final(stoppers)@) == after
                && final(out)@ == old(out)@ + commands),
            done && !old(self)@.accepts(time) ==> final(sections)@ == old(sections)@
                && final(stoppers)@ == old(stoppers)@ && final(out)@ == old(out)@,
    {
        let state = self.get_state();
        if self.accepts_at(time) {
            let ghost start = yard(sections@, stoppers@);
            if !notify_each(&self.start_section_owners, true, sections, stoppers, out) {
                return false;
            }
            if !notify_each(&self.end_section_owners, false, sections, stoppers, out) {
                return false;
            }
            proof {
                let (entered, commands) = start.notified_each(
                    self@.start_section_owners,
                    true,
                )->0;
                let (left, more) = entered.notified_each(self@.end_section_owners, false)->0;
                assert(out@ == old(out)@ + commands + more);
                assert(old(out)@ + commands + more =~= old(out)@ + (commands + more));
                out.lemma_bounded();
            }
            self.last_time = Some(time);
        }
        self.last_state = state;
        true
    }

    /// Checks the sensor at the reading `time`. If it sees a car and either
    /// has never told its owners before or the refractory time has passed
    /// since it last did, it tells them: every section whose entry it
    /// marks, then every section whose exit it marks, each group in the
    /// order of registration; the refractory time then counts from `time`.
    /// The level found is kept in either case. The writes that are due are
    /// added to the end of `out`.
    pub fn check_pin_change(
        &mut self,
        time: u64,
        sections: &mut [Section],
        stoppers: &mut [Stopper],
        out: &mut Commands,
    )
        requires
            old(self)@.check_fits(time, yard(old(sections)@, old(stoppers)@), old(out)@.len()),
        ensures
            final(self)@ == old(self)@.polled(time),
            final(sections)@.len() == old(sections)@.len(),
            final(stoppers)@.len() == old(stoppers)@.len(),
            old(self)@.accepts(time) ==> (yard(old(sections)@, old(stoppers)@).fired(
                old(self)@,
            ) matches Some((after, commands)) && yard(final(sections)@, final(stoppers)@) == after
                && final(out)@ == old(out)@ + commands),
            !old(self)@.accepts(time) ==> final(sections)@ == old(sections)@ && final(stoppers)@
                == old(stoppers)@ && final(out)@ == old(out)@,
    {
        self.check(time, sections, stoppers, out);
    }

    pub fn id(&self) -> (id: u8)
        ensures
            id == self@.id,
    {
        self.id
    }

    /// The level that the last check found.
    pub fn last_state(&self) -> (state: bool)
        ensures
            state == self@.last_state,
    {
        self.last_state
    }

    /// Whether a check at the reading `time` tells the owners.
    pub fn accepts_at(&self, time: u64) -> (accepts: bool)
        ensures
            accepts == self@.accepts(time),
    {
        self.get_state() == SENSOR_ACTIVE && match self.last_time {
            Some(last) => elapsed(time, last) >= REFRACTORY_TIME,
            None => true,
        }
    }

    /// The time of the last check that told the owners, if there was one.
    pub fn last_time(&self) -> (time: Option<u64>)
        ensures
            time == self@.last_time,
    {
        self.last_time
    }

    /// The sections whose entry the sensor marks.
    pub fn start_section_owners(&self) -> (owners: Slots)
        ensures
            owners@ == self@.start_section_owners,
    {
        self.start_section_owners
    }

    /// The sections whose exit the sensor marks.
    pub fn end_section_owners(&self) -> (owners: Slots)
        ensures
            owners@ == self@.end_section_owners,
    {
        self.end_section_owners
    }

    /// Registers the section at position `section` as one whose entry the
    /// sensor marks.
    pub fn add_start_owner(&mut self, section: usize)
        requires
            old(self)@.start_section_owners.len() < CAPACITY,
        ensures
            final(self)@ == old(self)@.with_owner(true, section),
    {
        self.start_section_owners.insert(section);
    }

    /// Registers the section at position `section` as one whose exit the
    /// sensor marks.
    pub fn add_end_owner(&mut self, section: usize)
        requires
            old(self)@.end_section_owners.len() < CAPACITY,
        ensures
            final(self)@ == old(self)@.with_owner(false, section),
    {
        self.end_section_owners.insert(section);
    }
}

/// Checks do not change the level, the owners or the id of a sensor.
pub proof fn lemma_polled_each_keeps(s: SensorState, times: Seq<u64>)
    ensures
        s.polled_each(times).level == s.level,
        s.polled_each(times).id == s.id,
        s.polled_each(times).start_section_owners == s.start_section_owners,
        s.polled_each(times).end_section_owners == s.end_section_owners,
    decreases times.len(),
{
    if times.len() > 0 {
        lemma_polled_each_keeps(s, times.drop_last());
    }
}

/// Checks that all fall within the refractory time of the last check that
/// told the owners tell them nothing, however many they are.
pub proof fn lemma_quiet_in_window(s: SensorState, times: Seq<u64>)
    requires
        forall|i: int| 0 <= i < times.len() ==> s.quiet(#[trigger] times[i]),
    ensures
        s.triggers(times) == 0,
        s.polled_each(times).last_time == s.last_time,
    decreases times.len(),
{
    if times.len() > 0 {
        lemma_quiet_in_window(s, times.drop_last());
    }
}

/// A sensor that has never told its owners tells them at the first check
/// that finds a car, whatever the clock reads then.
pub proof fn lemma_first_trigger(s: SensorState, time: u64)
    requires
        s.level == SENSOR_ACTIVE,
        s.last_time is None,
    ensures
        s.accepts(time),
        s.polled(time).last_time == Some(time),
        !s.polled(time).accepts(time),
{
}

/// The triggers of a run of checks are those of its first part and those
/// that the rest gives after it.
pub proof fn lemma_triggers_add(s: SensorState, first: Seq<u64>, rest: Seq<u64>)
    ensures
        s.polled_each(first + rest) == s.polled_each(first).polled_each(rest),
        s.triggers(first + rest) == s.triggers(first) + s.polled_each(first).triggers(rest),
    decreases rest.len(),
{
    if rest.len() == 0 {
        assert(first + rest =~= first);
    } else {
        lemma_triggers_add(s, first, rest.drop_last());
        assert((first + rest).drop_last() =~= first + rest.drop_last());
    }
}

/// A sensor that keeps seeing a car tells its owners once per refractory
/// time: checks while it keeps quiet give no trigger; the first check after
/// that gives one, and the checks that follow within the refractory time of
/// that one give no more.
pub proof fn lemma_debounce(s: SensorState, early: Seq<u64>, due: u64, late: Seq<u64>)
    requires
        s.level == SENSOR_ACTIVE,
        forall|i: int| 0 <= i < early.len() ==> s.quiet(#[trigger] early[i]),
        !s.quiet(due),
        forall|i: int|
            0 <= i < late.len() ==> elapsed_spec(#[trigger] late[i], due) < REFRACTORY_TIME,
    ensures
        s.triggers(early) == 0,
        s.triggers(early.push(due)) == 1,
        s.triggers(early.push(due) + late) == 1,
        s.polled_each(early.push(due) + late).last_time == Some(due),
{
    lemma_quiet_in_window(s, early);
    lemma_polled_each_keeps(s, early);
    assert(early.push(due).drop_last() =~= early);
    let fired = s.polled_each(early.push(due));
    assert(fired.last_time == Some(due));
    lemma_quiet_in_window(fired, late);
    lemma_triggers_add(s, early.push(due), late);
}

} // verus!
