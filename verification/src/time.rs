//! Time: the counter that the timer interrupt advances, and the wrap-safe
//! arithmetic that everything else uses on its readings.

use vstd::prelude::*;

verus! {

/// The divider between the system clock and the timer.
pub const PRESCALER: u64 = 1024;

/// The timer counts between two interrupts.
pub const TIMER_COUNTS: u64 = 125;

/// What one interrupt adds to the counter: the milliseconds that
/// `TIMER_COUNTS` counts take at a system clock of 16 MHz.
pub const MILLIS_INCREMENT: u64 = PRESCALER * TIMER_COUNTS / 16000;

/// The number of values that the counter can hold. It starts again at zero
/// after the last of them.
pub open spec fn wrap() -> int {
    0x1_0000_0000_0000_0000
}

/// The time from the reading `last` to the reading `now`, where the counter
/// has started again at zero at most once in between.
pub open spec fn elapsed_spec(now: u64, last: u64) -> int {
    (now - last) % wrap()
}

/// The time from the reading `last` to the reading `now`. Unlike
/// `last + interval < now`, a comparison of this difference with an interval
/// stays right when the counter starts again at zero.
pub fn elapsed(now: u64, last: u64) -> (time: u64)
    ensures
        time == elapsed_spec(now, last),
        last <= now ==> time == now - last,
        last > now ==> time == now + wrap() - last,
{
    now.wrapping_sub(last)
}

/// The counter of milliseconds. The caller keeps the one counter of the
/// program where the interrupt handler and the main loop both reach it, and
/// lets neither touch it while the other does.
#[derive(Clone, Copy, Debug)]
pub struct Clock {
    counter: u64,
}

impl View for Clock {
    type V = u64;

    /// The milliseconds counted.
    closed spec fn view(&self) -> u64 {
        self.counter
    }
}

impl Clock {
    /// A counter at zero.
    pub fn new() -> (clock: Clock)
        ensures
            clock@ == 0,
    {
        Clock { counter: 0 }
    }

    /// Sets the counter back to zero, as is done once when the timer is
    /// set up.
    pub fn millis_init(&mut self)
        ensures
            final(self)@ == 0,
    {
        self.counter = 0;
    }

    /// What the timer interrupt does: adds `MILLIS_INCREMENT` to the
    /// counter, which starts again at zero when it is full.
    pub fn tick(&mut self)
        ensures
            final(self)@ == (old(self)@ + MILLIS_INCREMENT) % wrap(),
            elapsed_spec(final(self)@, old(self)@) == MILLIS_INCREMENT,
    {
        self.counter = self.counter.wrapping_add(MILLIS_INCREMENT);
    }

    /// The milliseconds counted.
    pub fn millis(&self) -> (now: u64)
        ensures
            now == self@,
    {
        self.counter
    }
}

/// The counter after `n` interrupts.
pub open spec fn ticked(start: u64, n: nat) -> u64
    decreases n,
{
    if n == 0 {
        start
    } else {
        ((ticked(start, (n - 1) as nat) + MILLIS_INCREMENT) % wrap()) as u64
    }
}

/// The counter never runs backwards: after `n` interrupts, with `n` small
/// enough for the counter to start again at zero at most once, the time
/// elapsed is `n` increments, whether or not the counter did start again.
pub proof fn lemma_clock_monotonic(start: u64, n: nat)
    requires
        n * MILLIS_INCREMENT < wrap(),
    ensures
        elapsed_spec(ticked(start, n), start) == n * MILLIS_INCREMENT,
    decreases n,
{
    if n > 0 {
        lemma_clock_monotonic(start, (n - 1) as nat);
        assert(n * MILLIS_INCREMENT == (n - 1) * MILLIS_INCREMENT + MILLIS_INCREMENT)
            by (nonlinear_arith);
    }
}

/// One of the rates at which the main loop calls the parts of the program:
/// it says when its interval has passed since it last said so.
#[derive(Clone, Copy, Debug)]
pub struct Cadence {
    interval: u64,
    last: u64,
}

/// What a cadence is, as a mathematical value.
pub struct CadenceState {
    /// The time that has to pass between two calls.
    pub interval: u64,
    /// The reading at which the cadence was last due.
    pub last: u64,
}

impl CadenceState {
    /// Whether the cadence is due at the reading `now`: more than the
    /// interval has passed.
    pub open spec fn due(self, now: u64) -> bool {
        elapsed_spec(now, self.last) > self.interval
    }

    /// The cadence after it was asked at the reading `now`.
    pub open spec fn asked(self, now: u64) -> CadenceState {
        if self.due(now) {
            CadenceState { last: now, ..self }
        } else {
            self
        }
    }
}

impl View for Cadence {
    type V = CadenceState;

    closed spec fn view(&self) -> CadenceState {
        CadenceState { interval: self.interval, last: self.last }
    }
}

impl Cadence {
    /// A cadence with the given interval that counts from the reading 0.
    pub fn new(interval: u64) -> (cadence: Cadence)
        ensures
            cadence@ == (CadenceState { interval, last: 0 }),
    {
        Cadence { interval, last: 0 }
    }

    /// Whether the cadence is due at the reading `now`. If it is, the next
    /// interval counts from `now`.
    pub fn due(&mut self, now: u64) -> (due: bool)
        ensures
            due == old(self)@.due(now),
            final(self)@ == old(self)@.asked(now),
    {
        if elapsed(now, self.last) > self.interval {
            self.last = now;
            true
        } else {
            false
        }
    }
}

} // verus!
