//! Checks a set of sensors in one go.

use vstd::prelude::*;
use crate::command::{has_room, Command, Commands};
use crate::section::{copy_into, yard, Section, Yard};
use crate::sensor::{Sensor, SensorState};
use crate::stopper::Stopper;

verus! {

/// The sensors of a slice as mathematical values, position by position.
pub open spec fn sensor_states(sensors: Seq<Sensor>) -> Seq<SensorState> {
    sensors.map_values(|sensor: Sensor| sensor@)
}

/// The sensors together with the yard that they reach.
pub struct Track {
    pub sensors: Seq<SensorState>,
    pub yard: Yard,
}

/// The track made of the given sensors, sections and stoppers.
pub open spec fn track(sensors: Seq<Sensor>, sections: Seq<Section>, stoppers: Seq<Stopper>)
    -> Track {
    Track { sensors: sensor_states(sensors), yard: yard(sections, stoppers) }
}

impl Track {
    /// The track after the sensor at position `at` has been checked at the
    /// reading `time`, with the writes that are due. There is no result
    /// where the sensor does not exist, or where it tells its owners and
    /// they cannot all be told.
    pub open spec fn checked(self, at: usize, time: u64) -> Option<(Track, Seq<Command>)> {
        if at < self.sensors.len() {
            let sensor = self.sensors[at as int];
            let sensors = self.sensors.update(at as int, sensor.polled(time));
            if sensor.accepts(time) {
                match self.yard.fired(sensor) {
                    Some((yard, commands)) => Some((Track { sensors, yard }, commands)),
                    None => None,
                }
            } else {
                Some((Track { sensors, yard: self.yard }, Seq::empty()))
            }
        } else {
            None
        }
    }

    /// The track after each of the sensors at `positions` has been checked
    /// at the reading `time`, in the order of `positions`, with the writes
    /// that are due, in the same order.
    pub open spec fn checked_each(self, positions: Seq<usize>, time: u64) -> Option<
        (Track, Seq<Command>),
    >
        decreases positions.len(),
    {
        if positions.len() == 0 {
            Some((self, Seq::empty()))
        } else {
            match self.checked_each(positions.drop_last(), time) {
                Some((before, commands)) => match before.checked(positions.last(), time) {
                    Some((after, more)) => Some((after, commands + more)),
                    None => None,
                },
                None => None,
            }
        }
    }

    /// Whether each of the sensors at `positions` can be checked when its
    /// turn comes, and a list that holds `used` writes has room for the
    /// writes that are due.
    pub open spec fn check_each_fits(self, positions: Seq<usize>, time: u64, used: nat) -> bool {
        self.checked_each(positions, time) matches Some((_, commands)) && has_room(
            used,
            commands,
        )
    }

    /// Where all of `positions` can be checked, so can the first `k` of
    /// them, and that gives no more writes.
    pub proof fn lemma_checked_each_prefix(self, positions: Seq<usize>, time: u64, k: int)
        requires
            self.checked_each(positions, time) is Some,
            0 <= k <= positions.len(),
        ensures
            self.checked_each(positions.take(k), time) matches Some((_, part))
                && self.checked_each(positions, time) matches Some((_, whole)) && part.len()
                <= whole.len(),
        decreases positions.len(),
    {
        if k < positions.len() {
            self.lemma_checked_each_prefix(positions.drop_last(), time, k);
            assert(positions.drop_last().take(k) =~= positions.take(k));
        } else {
            assert(positions.take(k) =~= positions);
        }
    }
}

/// Checks a fixed set of sensors whenever it is called.
#[derive(Clone, Copy, Debug)]
pub struct SensorCaller<'l> {
    /// The positions of the sensors to check, in the order of checking.
    sensors: &'l [usize],
}

impl<'l> View for SensorCaller<'l> {
    type V = Seq<usize>;

    /// The positions of the sensors to check, in the order of checking.
    closed spec fn view(&self) -> Seq<usize> {
        self.sensors@
    }
}

impl<'l> SensorCaller<'l> {
    /// A caller for the sensors at the given positions.
    pub fn new(sensors: &'l [usize]) -> (caller: SensorCaller<'l>)
        ensures
            caller@ == sensors@,
    {
        SensorCaller { sensors }
    }

    /// Whether the caller can be called at the reading `time`: every one of
    /// its sensors exists and can be checked when its turn comes, and `out`
    /// has room for the writes. The three scratch slices are overwritten.
    pub fn can_call(
        &self,
        time: u64,
        sensors: &[Sensor],
        sections: &[Section],
        stoppers: &[Stopper],
        out: &Commands,
        scratch_sensors: &mut [Sensor],
        scratch_sections: &mut [Section],
        scratch_stoppers: &mut [Stopper],
    ) -> (fits: bool)
        requires
            old(scratch_sensors)@.len() == sensors@.len(),
            old(scratch_sections)@.len() == sections@.len(),
            old(scratch_stoppers)@.len() == stoppers@.len(),
        ensures
            final(scratch_sensors)@.len() == sensors@.len(),
            final(scratch_sections)@.len() == sections@.len(),
            final(scratch_stoppers)@.len() == stoppers@.len(),
            fits == track(sensors@, sections@, stoppers@).check_each_fits(self@, time, out@.len()),
    {
        copy_into(sensors, scratch_sensors);
        copy_into(sections, scratch_sections);
        copy_into(stoppers, scratch_stoppers);
        let mut list = *out;
        self.check_each(time, scratch_sensors, scratch_sections, scratch_stoppers, &mut list)
    }

    /// Checks the sensors of the caller at the reading `time`, in order, up
    /// to the first that cannot be checked. Returns whether all were.
    fn check_each(
        &self,
        time: u64,
        sensors: &mut [Sensor],
        sections: &mut [Section],
        stoppers: &mut [Stopper],
        out: &mut Commands,
    ) -> (done: bool)
        ensures
            final(sensors)@.len() == old(sensors)@.len(),
            final(sections)@.len() == old(sections)@.len(),
            final(stoppers)@.len() == old(stoppers)@.len(),
            done == track(old(sensors)@, old(sections)@, old(stoppers)@).check_each_fits(
                self@,
                time,
                old(out)@.len(),
            ),
            done ==> (track(old(sensors)@, old(sections)@, old(stoppers)@).checked_each(
                self@,
                time,
            ) matches Some((after, commands)) && track(
                final(sensors)@,
                final(sections)@,
                final(stoppers)@,
            ) == after && final(out)@ == old(out)@ + commands),
    {
        let ghost start = track(sensors@, sections@, stoppers@);
        let ghost base = out@;
        let ghost mut trace: Seq<Command> = Seq::empty();
        let n = self.sensors.len();
        let mut i: usize = 0;
        while i < n
            invariant
                n == self@.len(),
                i <= n,
                start == track(old(sensors)@, old(sections)@, old(stoppers)@),
                base == old(out)@,
                sensors@.len() == start.sensors.len(),
                sections@.len() == start.yard.sections.len(),
                stoppers@.len() == start.yard.stoppers.len(),
                start.checked_each(self@.take(i as int), time) == Some(
                    (track(sensors@, sections@, stoppers@), trace),
                ),
                out@ == base + trace,
            decreases n - i,
        {
            let at = self.sensors[i];
            proof {
                assert(self@.take(i + 1).drop_last() =~= self@.take(i as int));
            }
            let ghost before = track(sensors@, sections@, stoppers@);
            let done = at < sensors.len() && sensors[at].check(time, sections, stoppers, out);
            if !done {
                proof {
                    if start.check_each_fits(self@, time, base.len()) {
                        start.lemma_checked_each_prefix(self@, time, i + 1);
                    }
                }
                return false;
            }
            proof {
                assert(sensor_states(sensors@) =~= before.sensors.update(
                    at as int,
                    before.sensors[at as int].polled(time),
                ));
                let (_, more) = before.checked(at, time)->0;
                assert(out@ == base + trace + more);
                assert(base + trace + more =~= base + (trace + more));
                trace = trace + more;
            }
            i += 1;
        }
        proof {
            assert(self@.take(n as int) =~= self@);
            out.lemma_bounded();
        }
        true
    }

    /// Checks every sensor of the caller at the reading `time`, in order.
    /// The writes that are due are added to the end of `out`.
    pub fn call(
        &self,
        time: u64,
        sensors: &mut [Sensor],
        sections: &mut [Section],
        stoppers: &mut [Stopper],
        out: &mut Commands,
    )
        requires
            track(old(sensors)@, old(sections)@, old(stoppers)@).check_each_fits(
                self@,
                time,
                old(out)@.len(),
            ),
        ensures
            final(sensors)@.len() == old(sensors)@.len(),
            final(sections)@.len() == old(sections)@.len(),
            final(stoppers)@.len() == old(stoppers)@.len(),
            track(old(sensors)@, old(sections)@, old(stoppers)@).checked_each(
                self@,
                time,
            ) matches Some((after, commands)) && track(
                final(sensors)@,
                final(sections)@,
                final(stoppers)@,
            ) == after && final(out)@ == old(out)@ + commands,
    {
        self.check_each(time, sensors, sections, stoppers, out);
    }
}

} // verus!
