use vstd::prelude::*;

verus! {

/// A point in time, as the `instant` crate gives it.
#[verifier::external_type_specification]
#[verifier::external_body]
pub struct ExInstant(instant::Instant);

/// Calls `instant::Instant::now`. Nothing is stated of the result: it is the
/// time at which the call is made.
#[verifier::external_body]
pub(crate) fn instant_now() -> instant::Instant {
    instant::Instant::now()
}

/// Calls `Instant::elapsed`. Nothing is stated of the result: it depends on
/// the time at which the call is made.
#[verifier::external_body]
pub(crate) fn elapsed(t: &instant::Instant) -> std::time::Duration {
    t.elapsed()
}

/// Calls `Duration::as_millis`. Nothing is stated of the result.
#[verifier::external_body]
pub(crate) fn as_millis(d: &std::time::Duration) -> u128 {
    d.as_millis()
}

/// A clock: the instant at which it was started, and the milliseconds read
/// from it since, oldest first. The readings are private to this module:
/// only `read_millis`, which reads the clock, adds one.
pub struct Clock {
    start: instant::Instant,
    reads: Ghost<Seq<u128>>,
}

impl Clock {
    /// The instant at which the clock was started.
    pub closed spec fn started(&self) -> instant::Instant {
        self.start
    }

    /// The milliseconds read from the clock so far, oldest first.
    pub closed spec fn readings(&self) -> Seq<u128> {
        self.reads@
    }
}

/// A clock started now, not read yet.
pub fn start_clock() -> (c: Clock)
    ensures
        c.readings() == Seq::<u128>::empty(),
{
    Clock { start: instant_now(), reads: Ghost(Seq::empty()) }
}

/// The milliseconds since the clock was started; the reading is added to
/// the clock's readings.
pub fn read_millis(c: &mut Clock) -> (ms: u128)
    ensures
        final(c).started() == old(c).started(),
        final(c).readings() == old(c).readings().push(ms),
{
    let ms = as_millis(&elapsed(&c.start));
    c.reads = Ghost(c.reads@.push(ms));
    ms
}

/// The milliseconds since the clock was started, read without being
/// recorded.
pub fn peek_millis(c: &Clock) -> u128 {
    as_millis(&elapsed(&c.start))
}

} // verus!
