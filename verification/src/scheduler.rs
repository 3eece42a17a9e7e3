//! Run a callback once, after a delay.
use std::time::{Duration, Instant};
use vstd::prelude::*;

verus! {

#[verifier::external_type_specification]
#[verifier::external_body]
pub struct ExInstant(Instant);

/// Runs `callback` once, the first time `update` is called after `delay` has passed.
pub struct Scheduler<F> {
    delay: Duration,
    callback: F,
    time_scheduled: Instant,
    pub done: bool,
}

/// `Instant::now`: the current time, which no contract can pin down.
#[verifier::external_body]
fn instant_now() -> Instant {
    Instant::now()
}

/// Whether at least `delay` has elapsed since `since`, read from the clock
/// (`Instant::elapsed`, compared with `>=`); the answer depends on the time of the call,
/// so nothing is promised of it.
#[verifier::external_body]
fn has_elapsed(since: &Instant, delay: &Duration) -> bool {
    since.elapsed() >= *delay
}

/// Calls the callback once (`FnMut::call_mut`): what it returns is a value the callback, as
/// it was before the call, may return. How the call changes a closure's captured state is
/// not stated.
#[verifier::external_body]
fn run_callback<T, F: FnMut() -> T>(callback: &mut F) -> (value: T)
    ensures
        call_ensures(*old(callback), (), value),
{
    callback()
}

impl<F> Scheduler<F> {
    /// Whether the callback has already run.
    pub closed spec fn is_done(&self) -> bool {
        self.done
    }

    /// The public `done` field, as verified callers can read it: whether the callback has
    /// already run.
    pub fn done(&self) -> (done: bool)
        ensures
            done == self.is_done(),
    {
        self.done
    }

    /// The delay and the moment it is counted from.
    pub closed spec fn timing(&self) -> (Duration, Instant) {
        (self.delay, self.time_scheduled)
    }

    /// The callback that is yet to run, or that has run.
    pub closed spec fn callback(&self) -> F {
        self.callback
    }
}

impl<T, F: FnMut() -> T> Scheduler<F> {
    pub fn new(callback: F, delay: Duration) -> (scheduler: Self)
        ensures
            !scheduler.is_done(),
            scheduler.timing().0 == delay,
            scheduler.callback() == callback,
    {
        Self { delay, callback, time_scheduled: instant_now(), done: false }
    }

    /// Runs the callback and returns its value the first time this is called once the
    /// delay has passed; returns `None` before that and on every call after it.
    /// Whether the delay has passed is read from the clock; what follows from each
    /// answer is `update_elapsed`.
    pub fn update(&mut self) -> (value: Option<T>)
        ensures
            old(self).is_done() ==> value is None && *final(self) == *old(self),
            value is Some ==> !old(self).is_done() && final(self).is_done(),
            value matches Some(v) ==> call_ensures(old(self).callback(), (), v),
            value is None ==> *final(self) == *old(self),
            final(self).timing() == old(self).timing(),
    {
        if self.done == true {
            return None;
        }
        let elapsed = has_elapsed(&self.time_scheduled, &self.delay);
        self.update_elapsed(elapsed)
    }

    /// One update of the scheduler, given whether the delay has `elapsed`: when the
    /// callback has not run yet and the delay has passed, runs it, marks the scheduler
    /// done and returns the callback's value; otherwise changes nothing and returns `None`.
    pub fn update_elapsed(&mut self, elapsed: bool) -> (value: Option<T>)
        ensures
            value is Some <==> !old(self).is_done() && elapsed,
            value is Some ==> final(self).is_done(),
            value matches Some(v) ==> call_ensures(old(self).callback(), (), v),
            value is None ==> *final(self) == *old(self),
            final(self).timing() == old(self).timing(),
    {
        if !self.done && elapsed {
            let return_value = run_callback(&mut self.callback);
            self.done = true;
            return Some(return_value);
        }
        None
    }
}

} // verus!
