//! Times the pulses of a set of servos that share one polling loop.

use vstd::prelude::*;
use crate::command::{has_room, Command, Commands, QUEUE_CAPACITY};

verus! {

/// The length of a frame in microseconds: 20 ms. Every servo gets one pulse
/// per frame.
pub const FRAME_TIME: u32 = 20_000;

/// The number of values that the caller's counters can hold.
pub open spec fn wrap() -> int {
    0x1_0000_0000
}

/// What a servo caller is, as a mathematical value. All times are in
/// microseconds.
pub struct ServoCallerState {
    /// The pulse length of each servo, by position.
    pub pulse_lengths: Seq<u16>,
    /// The time since the current frame began.
    pub us_counter: u32,
    /// The reading of the clock at the last call.
    pub last_us: u32,
}

/// What a servo with the given pulse length is asked to do when the time
/// since the frame began is `counter`: start a pulse when the frame is
/// over, end its pulse when that has lasted long enough.
pub open spec fn pulse_command(counter: u32, servo: usize, pulse_length: u16) -> Seq<Command> {
    if counter >= FRAME_TIME {
        seq![Command::Pulse { servo, high: true }]
    } else if counter >= pulse_length {
        seq![Command::Pulse { servo, high: false }]
    } else {
        Seq::empty()
    }
}

/// The time since the frame began after a servo has been served: a new
/// frame begins where the old one was over.
pub open spec fn served(counter: u32) -> u32 {
    if counter >= FRAME_TIME {
        0
    } else {
        counter
    }
}

/// The time since the frame began after the servos with the given pulse
/// lengths have been served in order, starting from `counter`, and the
/// writes that are due.
pub open spec fn pulsed(counter: u32, pulse_lengths: Seq<u16>) -> (u32, Seq<Command>)
    decreases pulse_lengths.len(),
{
    if pulse_lengths.len() == 0 {
        (counter, Seq::empty())
    } else {
        let (before, commands) = pulsed(counter, pulse_lengths.drop_last());
        (
            served(before),
            commands + pulse_command(
                before,
                (pulse_lengths.len() - 1) as usize,
                pulse_lengths.last(),
            ),
        )
    }
}

/// Serving the first `k` servos gives no more writes than serving all, and
/// no servo gives more than one.
pub proof fn lemma_pulsed_prefix(counter: u32, pulse_lengths: Seq<u16>, k: int)
    requires
        0 <= k <= pulse_lengths.len(),
    ensures
        pulsed(counter, pulse_lengths.take(k)).1.len() <= pulsed(counter, pulse_lengths).1.len(),
        pulsed(counter, pulse_lengths).1.len() <= pulse_lengths.len(),
    decreases pulse_lengths.len(),
{
    if pulse_lengths.len() > 0 {
        lemma_pulsed_prefix(counter, pulse_lengths.drop_last(), 0);
    }
    if k < pulse_lengths.len() {
        lemma_pulsed_prefix(counter, pulse_lengths.drop_last(), k);
        assert(pulse_lengths.drop_last().take(k) =~= pulse_lengths.take(k));
    } else {
        assert(pulse_lengths.take(k) =~= pulse_lengths);
    }
}

impl ServoCallerState {
    /// The time since the frame began once the time from the last call to
    /// the reading `micros` has been added. Both the difference and the sum
    /// start again at zero where they leave the counter's range.
    pub open spec fn accumulated(self, micros: u32) -> u32 {
        ((self.us_counter + (micros - self.last_us) % wrap()) % wrap()) as u32
    }

    /// The caller after a call at the reading `micros`.
    pub open spec fn called(self, micros: u32) -> ServoCallerState {
        ServoCallerState {
            pulse_lengths: self.pulse_lengths,
            us_counter: pulsed(self.accumulated(micros), self.pulse_lengths).0,
            last_us: micros,
        }
    }

    /// The writes that a call at the reading `micros` gives.
    pub open spec fn commands(self, micros: u32) -> Seq<Command> {
        pulsed(self.accumulated(micros), self.pulse_lengths).1
    }
}

/// Serves a set of servos. It has to be called at short intervals with the
/// reading of a clock that counts microseconds.
#[derive(Clone, Copy, Debug)]
pub struct ServoCaller<'l> {
    /// The pulse length of each servo in microseconds, by position.
    servos: &'l [u16],
    us_counter: u32,
    last_us: u32,
}

impl<'l> View for ServoCaller<'l> {
    type V = ServoCallerState;

    closed spec fn view(&self) -> ServoCallerState {
        ServoCallerState {
            pulse_lengths: self.servos@,
            us_counter: self.us_counter,
            last_us: self.last_us,
        }
    }
}

impl<'l> ServoCaller<'l> {
    /// A caller for servos with the given pulse lengths in microseconds.
    /// Its time starts at the reading 0.
    pub fn new(servos: &'l [u16]) -> (caller: ServoCaller<'l>)
        ensures
            caller@ == (ServoCallerState { pulse_lengths: servos@, us_counter: 0, last_us: 0 }),
    {
        ServoCaller { servos, us_counter: 0, last_us: 0 }
    }

    /// Whether the caller can be called at the reading `micros`: `out` has
    /// room for the writes that are due. There is at most one write for
    /// each servo, so room for as many writes as there are servos is always
    /// enough.
    pub fn can_call(&self, micros: u32, out: &Commands) -> (fits: bool)
        ensures
            fits == has_room(out@.len(), self@.commands(micros)),
    {
        let mut caller = *self;
        let mut list = *out;
        caller.serve(micros, &mut list)
    }

    /// Adds the time since the last call to the time since the frame
    /// began, then serves each servo in order: where the frame is over, a
    /// new frame begins and the servo starts its pulse; otherwise, where
    /// the servo's pulse has lasted long enough, the pulse ends. The writes
    /// that are due are added to the end of `out`.
    pub fn call(&mut self, micros: u32, out: &mut Commands)
        requires
            has_room(old(out)@.len(), old(self)@.commands(micros)),
        ensures
            final(self)@ == old(self)@.called(micros),
            final(out)@ == old(out)@ + old(self)@.commands(micros),
    {
        self.serve(micros, out);
    }

    /// Does what `call` does, up to the first write that `out` has no room
    /// for. Returns whether there was room for all.
    fn serve(&mut self, micros: u32, out: &mut Commands) -> (done: bool)
        ensures
            done == has_room(old(out)@.len(), old(self)@.commands(micros)),
            done ==> final(self)@ == old(self)@.called(micros) && final(out)@ == old(out)@ + old(
                self,
            )@.commands(micros),
    {
        self.us_counter = self.us_counter.wrapping_add(micros.wrapping_sub(self.last_us));
        self.last_us = micros;

        let ghost start = self.us_counter;
        let ghost base = out@;
        let ghost mut trace: Seq<Command> = Seq::empty();
        let n = self.servos.len();
        let mut i: usize = 0;
        while i < n
            invariant
                n == self.servos@.len(),
                i <= n,
                self.servos@ == old(self).servos@,
                self.last_us == micros,
                start == old(self)@.accumulated(micros),
                base == old(out)@,
                pulsed(start, self.servos@.take(i as int)) == (self.us_counter, trace),
                out@ == base + trace,
            decreases n - i,
        {
            let pulse_length = self.servos[i];
            proof {
                assert(self.servos@.take(i + 1).drop_last() =~= self.servos@.take(i as int));
                lemma_pulsed_prefix(start, self.servos@, i + 1);
            }
            if self.us_counter >= pulse_length as u32 || self.us_counter >= FRAME_TIME {
                if out.len() >= QUEUE_CAPACITY {
                    return false;
                }
            }
            proof {
                trace = trace + pulse_command(self.us_counter, i, pulse_length);
            }
            if self.us_counter >= FRAME_TIME {
                self.us_counter = 0;
                out.push(Command::Pulse { servo: i, high: true });
            } else if self.us_counter >= pulse_length as u32 && self.us_counter < FRAME_TIME {
                out.push(Command::Pulse { servo: i, high: false });
            }
            i += 1;
        }
        proof {
            assert(self.servos@.take(n as int) =~= self.servos@);
            out.lemma_bounded();
        }
        true
    }

    /// The number of servos served.
    pub fn servos(&self) -> (n: usize)
        ensures
            n == self@.pulse_lengths.len(),
    {
        self.servos.len()
    }

    /// The time since the current frame began, in microseconds.
    pub fn us_counter(&self) -> (counter: u32)
        ensures
            counter == self@.us_counter,
    {
        self.us_counter
    }

    /// The reading of the clock at the last call.
    pub fn last_us(&self) -> (time: u32)
        ensures
            time == self@.last_us,
    {
        self.last_us
    }
}

} // verus!
