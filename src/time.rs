use vstd::prelude::*;

verus! {

/// An instant in UTC, as milliseconds since the Unix epoch.
#[derive(Clone, Copy, Debug, PartialEq, Eq, Structural)]
pub struct UtcTimestamp {
    pub millis: i64,
}

/// A source of the current instant; tests supply fixed ones.
pub trait Clock {
    fn now(&self) -> UtcTimestamp;
}

/// The clock of the operating system.
#[derive(Clone, Copy, Debug)]
pub struct SystemClock;

impl Clock for SystemClock {
    fn now(&self) -> UtcTimestamp {
        UtcTimestamp { millis: utc_now_millis() }
    }
}

/// Relies on chrono's `From<SystemTime> for DateTime<Utc>` and
/// `DateTime::timestamp_millis`: the system clock's current instant in
/// milliseconds since the epoch, also when the clock reads before 1970.
#[verifier::external_body]
fn utc_now_millis() -> (r: i64) {
    chrono::DateTime::<chrono::Utc>::from(std::time::SystemTime::now()).timestamp_millis()
}

} // verus!
