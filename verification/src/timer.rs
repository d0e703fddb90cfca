use vstd::prelude::*;

verus! {

/// Number of nanoseconds in one second.
pub const NANOS_PER_SEC: u128 = 1_000_000_000;

/// A one-shot countdown, measured in nanoseconds.
///
/// It counts up to `duration`; the tick that reaches it marks the timer as
/// finished and sets `just_finished` for that tick only. Once finished, the
/// timer stays finished until it is reset.
pub struct Timer {
    duration: u128,
    elapsed: u128,
    finished: bool,
    just_finished: bool,
}

impl Timer {
    /// The state a timer keeps between ticks.
    #[verifier::type_invariant]
    closed spec fn wf(&self) -> bool {
        &&& self.elapsed <= self.duration
        &&& self.finished ==> self.elapsed == self.duration
        &&& self.just_finished ==> self.finished
    }

    pub closed spec fn spec_duration(&self) -> nat {
        self.duration as nat
    }

    pub closed spec fn spec_elapsed(&self) -> nat {
        self.elapsed as nat
    }

    pub closed spec fn spec_finished(&self) -> bool {
        self.finished
    }

    pub closed spec fn spec_just_finished(&self) -> bool {
        self.just_finished
    }

    /// Whether a tick of `delta` nanoseconds makes this timer finish now.
    pub open spec fn finishes_with(&self, delta: nat) -> bool {
        !self.spec_finished() && self.spec_elapsed() + delta >= self.spec_duration()
    }

    /// A timer of `duration` nanoseconds that has not started counting.
    pub open spec fn is_fresh(&self, duration: int) -> bool {
        &&& self.spec_duration() == duration
        &&& self.spec_elapsed() == 0
        &&& !self.spec_finished()
        &&& !self.spec_just_finished()
    }

    /// This timer is `before` advanced by `delta` nanoseconds: a finished
    /// timer stays as it is (but no longer "just" finished); otherwise the
    /// time adds up, and the timer finishes, capped at its duration, once it
    /// reaches it.
    pub open spec fn is_tick_of(&self, before: Timer, delta: nat) -> bool {
        &&& self.spec_duration() == before.spec_duration()
        &&& before.spec_finished() ==> {
            &&& self.spec_elapsed() == before.spec_elapsed()
            &&& self.spec_finished()
            &&& !self.spec_just_finished()
        }
        &&& !before.spec_finished() ==> {
            &&& self.spec_finished() == (before.spec_elapsed() + delta >= before.spec_duration())
            &&& self.spec_just_finished() == self.spec_finished()
            &&& self.spec_elapsed() == if self.spec_finished() {
                before.spec_duration()
            } else {
                (before.spec_elapsed() + delta) as nat
            }
        }
    }

    /// A fresh timer that finishes after `duration` nanoseconds.
    pub fn new(duration: u128) -> (t: Timer)
        ensures
            t.is_fresh(duration as int),
    {
        Timer { duration, elapsed: 0, finished: false, just_finished: false }
    }

    /// A fresh timer of `secs` whole seconds.
    pub fn from_secs(secs: u64) -> (t: Timer)
        ensures
            t.is_fresh(secs * NANOS_PER_SEC),
    {
        Timer::new(secs as u128 * NANOS_PER_SEC)
    }

    /// The length of the countdown, in nanoseconds.
    pub fn duration(&self) -> (d: u128)
        ensures
            d == self.spec_duration(),
    {
        self.duration
    }

    /// The time counted so far, in nanoseconds.
    pub fn elapsed(&self) -> (e: u128)
        ensures
            e == self.spec_elapsed(),
    {
        self.elapsed
    }

    /// Whether the countdown has run out.
    pub fn is_finished(&self) -> (b: bool)
        ensures
            b == self.spec_finished(),
    {
        self.finished
    }

    /// Whether the last tick is the one that made the countdown run out.
    pub fn just_finished(&self) -> (b: bool)
        ensures
            b == self.spec_just_finished(),
    {
        self.just_finished
    }

    /// Advances the countdown by `delta` nanoseconds.
    pub fn tick(&mut self, delta: u128)
        ensures
            final(self).is_tick_of(*old(self), delta as nat),
    {
        proof {
            use_type_invariant(&*self);
        }
        if self.finished {
            self.just_finished = false;
            return;
        }
        if delta >= self.duration - self.elapsed {
            self.elapsed = self.duration;
            self.finished = true;
            self.just_finished = true;
        } else {
            self.elapsed = self.elapsed + delta;
            self.just_finished = false;
        }
    }

    /// Starts the countdown over.
    pub fn reset(&mut self)
        ensures
            final(self).is_fresh(old(self).spec_duration() as int),
    {
        proof {
            use_type_invariant(&*self);
        }
        self.just_finished = false;
        self.finished = false;
        self.elapsed = 0;
    }
}

} // verus!
