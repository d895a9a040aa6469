//! Countdown timers and stopwatches on the monotonic clock. Clock readings are
//! nanoseconds since an origin that each timer takes when it is made.
use vstd::prelude::*;

verus! {

#[verifier::external_type_specification]
#[verifier::external_body]
pub struct ExInstant(std::time::Instant);

/// Relies on `std::time::Instant::now` for the current time; nothing is known
/// of the value.
pub assume_specification[ std::time::Instant::now ]() -> std::time::Instant;

/// Relies on `std::time::Instant::elapsed` for the time since an instant;
/// nothing is known of the value.
pub assume_specification[ std::time::Instant::elapsed ](i: &std::time::Instant) -> std::time::Duration;

/// Relies on `std::time::Duration::as_nanos` to read a duration as a count of
/// nanoseconds.
pub assume_specification[ std::time::Duration::as_nanos ](d: &std::time::Duration) -> u128;

/// The nanoseconds from `origin` to now.
fn nanos_since(origin: &std::time::Instant) -> u128 {
    let d = origin.elapsed();
    d.as_nanos()
}

/// `a + b`, or `u128::MAX` where that does not fit.
pub open spec fn sum_or_max(a: u128, b: u128) -> u128 {
    if a + b > u128::MAX {
        u128::MAX
    } else {
        (a + b) as u128
    }
}

/// `a - b`, or zero where `b` is larger.
pub open spec fn difference_or_zero(a: u128, b: u128) -> u128 {
    if a < b {
        0
    } else {
        (a - b) as u128
    }
}

fn add_or_max(a: u128, b: u128) -> (r: u128)
    ensures
        r == sum_or_max(a, b),
{
    if a > u128::MAX - b {
        u128::MAX
    } else {
        a + b
    }
}

fn sub_or_zero(a: u128, b: u128) -> (r: u128)
    ensures
        r == difference_or_zero(a, b),
{
    if a < b {
        0
    } else {
        a - b
    }
}

/// A countdown: due once `duration` nanoseconds have passed since it started.
#[derive(Debug)]
pub struct Timer {
    origin: std::time::Instant,
    start: u128,
    duration: u128,
}

impl Timer {
    /// The clock reading at which the timer started.
    pub closed spec fn spec_start(&self) -> u128 {
        self.start
    }

    /// How long the timer runs, in nanoseconds.
    pub closed spec fn spec_duration(&self) -> u128 {
        self.duration
    }

    /// The clock reading at which the timer is due.
    pub open spec fn spec_end(&self) -> u128 {
        sum_or_max(self.spec_start(), self.spec_duration())
    }

    /// A timer of `duration` nanoseconds, started now.
    pub fn from_now(duration: u128) -> (r: Self)
        ensures
            r.spec_start() == 0,
            r.spec_duration() == duration,
    {
        Timer { origin: std::time::Instant::now(), start: 0, duration }
    }

    /// The clock reading at which the timer is due.
    pub fn end(&self) -> (r: u128)
        ensures
            r == self.spec_end(),
    {
        add_or_max(self.start, self.duration)
    }

    /// Whether the timer is due at clock reading `now`.
    pub fn is_due_at(&self, now: u128) -> (r: bool)
        ensures
            r == (now >= self.spec_end()),
    {
        now >= self.end()
    }

    /// Whether the timer's duration has passed.
    pub fn check(&self) -> (r: bool)
        ensures
            self.spec_end() == 0 ==> r,
    {
        let now = nanos_since(&self.origin);
        self.is_due_at(now)
    }

    /// At clock reading `now`: when the timer is due, restarts it at `now` and
    /// says so; otherwise leaves it as it is.
    pub fn check_reset_at(&mut self, now: u128) -> (r: bool)
        ensures
            r == (now >= old(self).spec_end()),
            final(self).spec_duration() == old(self).spec_duration(),
            final(self).spec_start() == (if r { now } else { old(self).spec_start() }),
    {
        if self.is_due_at(now) {
            self.start = now;
            true
        } else {
            false
        }
    }

    /// When the timer's duration has passed, restarts it now and says so.
    pub fn check_reset(&mut self) -> (r: bool)
        ensures
            final(self).spec_duration() == old(self).spec_duration(),
            r ==> final(self).spec_start() >= old(self).spec_end(),
            !r ==> final(self).spec_start() == old(self).spec_start(),
            old(self).spec_end() == 0 ==> r,
    {
        let now = nanos_since(&self.origin);
        self.check_reset_at(now)
    }
}

/// Adds up the time it has been running.
#[derive(Debug)]
pub struct Stopwatch {
    origin: std::time::Instant,
    total: u128,
    last_start: Option<u128>,
}

impl Stopwatch {
    /// The time added up before the current run, in nanoseconds.
    pub closed spec fn spec_total(&self) -> u128 {
        self.total
    }

    /// The clock reading at which the current run began; none while paused.
    pub closed spec fn spec_last_start(&self) -> Option<u128> {
        self.last_start
    }

    /// The time of the current run at clock reading `now`; none while paused.
    pub open spec fn spec_since_at(&self, now: u128) -> Option<u128> {
        match self.spec_last_start() {
            Some(s) => Some(difference_or_zero(now, s)),
            None => None,
        }
    }

    /// All the time run at clock reading `now`.
    pub open spec fn spec_total_at(&self, now: u128) -> u128 {
        match self.spec_since_at(now) {
            Some(d) => sum_or_max(self.spec_total(), d),
            None => self.spec_total(),
        }
    }

    /// A stopwatch that starts running now.
    pub fn new() -> (r: Self)
        ensures
            r.spec_total() == 0,
            r.spec_last_start() == Some(0u128),
    {
        Stopwatch { origin: std::time::Instant::now(), total: 0, last_start: Some(0) }
    }

    /// The time of the current run at clock reading `now`; none while paused.
    pub fn since_last_start_at(&self, now: u128) -> (r: Option<u128>)
        ensures
            r == self.spec_since_at(now),
    {
        match self.last_start {
            Some(s) => Some(sub_or_zero(now, s)),
            None => None,
        }
    }

    /// The time of the current run; none while paused.
    pub fn since_last_start(&self) -> (r: Option<u128>)
        ensures
            r is Some <==> self.spec_last_start() is Some,
    {
        let now = nanos_since(&self.origin);
        self.since_last_start_at(now)
    }

    /// All the time run at clock reading `now`.
    pub fn total_at(&self, now: u128) -> (r: u128)
        ensures
            r == self.spec_total_at(now),
    {
        match self.since_last_start_at(now) {
            Some(d) => add_or_max(self.total, d),
            None => self.total,
        }
    }

    /// All the time run so far.
    pub fn total(&mut self) -> (r: u128)
        ensures
            *final(self) == *old(self),
            r >= old(self).spec_total(),
            old(self).spec_last_start() is None ==> r == old(self).spec_total(),
    {
        let now = nanos_since(&self.origin);
        self.total_at(now)
    }

    /// At clock reading `now`: adds the current run to the total and stops.
    pub fn pause_at(&mut self, now: u128)
        ensures
            final(self).spec_total() == old(self).spec_total_at(now),
            final(self).spec_last_start() is None,
    {
        self.total = self.total_at(now);
        self.last_start = None;
    }

    /// Adds the current run to the total and stops.
    pub fn pause(&mut self)
        ensures
            final(self).spec_total() >= old(self).spec_total(),
            old(self).spec_last_start() is None ==> final(self).spec_total()
                == old(self).spec_total(),
            final(self).spec_last_start() is None,
    {
        let now = nanos_since(&self.origin);
        self.pause_at(now)
    }

    /// At clock reading `now`: clears the total; a running stopwatch starts a
    /// new run at `now`.
    pub fn reset_at(&mut self, now: u128)
        ensures
            final(self).spec_total() == 0,
            final(self).spec_last_start() == (if old(self).spec_last_start() is Some {
                Some(now)
            } else {
                None::<u128>
            }),
    {
        self.total = 0;
        if self.last_start.is_some() {
            self.last_start = Some(now);
        }
    }

    /// Clears the total; a running stopwatch starts a new run now.
    pub fn reset(&mut self)
        ensures
            final(self).spec_total() == 0,
            final(self).spec_last_start() is Some <==> old(self).spec_last_start() is Some,
    {
        let now = nanos_since(&self.origin);
        self.reset_at(now)
    }
}

} // verus!
