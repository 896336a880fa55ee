//! The frame clock: a time value that grows by a fixed delta once per redraw.
use vstd::prelude::*;

verus! {

/// The state of a frame clock: how many ticks have passed, and the time each adds.
pub ghost struct ClockState {
    pub ticks: nat,
    pub delta: nat,
}

impl ClockState {
    /// A clock that has not ticked yet.
    pub open spec fn fresh(delta: nat) -> ClockState {
        ClockState { ticks: 0, delta }
    }

    /// The time shown: one delta per tick.
    pub open spec fn time(self) -> nat {
        self.ticks * self.delta
    }

    /// The state after one more tick.
    pub open spec fn ticked(self) -> ClockState {
        ClockState { ticks: self.ticks + 1, delta: self.delta }
    }

    /// The state after `t` more ticks.
    pub open spec fn ticked_times(self, t: nat) -> ClockState
        decreases t,
    {
        if t == 0 {
            self
        } else {
            self.ticked_times((t - 1) as nat).ticked()
        }
    }
}

/// A monotonic frame clock. Its time is fixed point, like coordinates, and never
/// wraps: a tick that would pass `u64::MAX` is not allowed.
#[derive(Debug)]
pub struct FrameClock {
    ticks: u64,
    delta: u64,
    time: u64,
}

impl View for FrameClock {
    type V = ClockState;

    closed spec fn view(&self) -> ClockState {
        ClockState { ticks: self.ticks as nat, delta: self.delta as nat }
    }
}

impl FrameClock {
    /// A positive delta, and the stored time equal to ticks times delta.
    pub closed spec fn wf(&self) -> bool {
        &&& self.delta > 0
        &&& self.time == self.ticks * self.delta
    }

    /// A clock at time 0 that advances by `delta` per tick.
    pub fn new(delta: u64) -> (c: FrameClock)
        requires
            delta > 0,
        ensures
            c.wf(),
            c@ == ClockState::fresh(delta as nat),
    {
        FrameClock { ticks: 0, delta, time: 0 }
    }

    /// Whether one more tick keeps the time within `u64`.
    pub fn can_tick(&self) -> (b: bool)
        requires
            self.wf(),
        ensures
            b == (self@.time() + self@.delta <= u64::MAX),
    {
        self.time <= u64::MAX - self.delta
    }

    /// Advances the clock by one tick.
    pub fn tick(&mut self)
        requires
            old(self).wf(),
            old(self)@.time() + old(self)@.delta <= u64::MAX,
        ensures
            final(self).wf(),
            final(self)@ == old(self)@.ticked(),
    {
        let ticks = self.ticks;
        let delta = self.delta;
        assert(ticks + 1 <= (ticks + 1) * delta) by (nonlinear_arith)
            requires
                delta >= 1,
        ;
        assert((ticks + 1) * delta == ticks * delta + delta) by (nonlinear_arith);
        self.ticks = self.ticks + 1;
        self.time = self.time + self.delta;
    }

    /// The time shown, ticks times delta.
    pub fn time(&self) -> (t: u64)
        requires
            self.wf(),
        ensures
            t == self@.time(),
    {
        self.time
    }

    /// The number of ticks so far.
    pub fn ticks(&self) -> (t: u64)
        ensures
            t == self@.ticks,
    {
        self.ticks
    }

    /// The time added per tick.
    pub fn delta(&self) -> (d: u64)
        ensures
            d == self@.delta,
    {
        self.delta
    }
}

/// The clock grows by exactly its delta on every tick, so it strictly increases,
/// and after `t` ticks from a fresh start its time is `t * delta`.
pub proof fn lemma_clock_after_ticks(delta: nat, t: nat)
    requires
        delta > 0,
    ensures
        ClockState::fresh(delta).ticked_times(t).time() == t * delta,
        ClockState::fresh(delta).ticked_times(t + 1).time() == ClockState::fresh(
            delta,
        ).ticked_times(t).time() + delta,
        ClockState::fresh(delta).ticked_times(t + 1).time() > ClockState::fresh(
            delta,
        ).ticked_times(t).time(),
    decreases t,
{
    lemma_ticks_counted(ClockState::fresh(delta), t);
    lemma_ticks_counted(ClockState::fresh(delta), t + 1);
    assert((t + 1) * delta == t * delta + delta) by (nonlinear_arith);
}

proof fn lemma_ticks_counted(c: ClockState, t: nat)
    ensures
        c.ticked_times(t) == (ClockState { ticks: c.ticks + t, delta: c.delta }),
    decreases t,
{
    if t > 0 {
        lemma_ticks_counted(c, (t - 1) as nat);
    }
}

} // verus!
