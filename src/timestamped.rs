use vstd::prelude::*;

use crate::time::{Clock, SystemClock, UtcTimestamp};

verus! {

/// A value together with the instant at which it was observed.
#[derive(Clone, Copy, Debug)]
pub struct Timestamped<T> {
    pub data: T,
    pub timestamp: UtcTimestamp,
}

impl<T> Timestamped<T> {
    pub fn new(data: T, timestamp: UtcTimestamp) -> (r: Self)
        ensures
            r.data == data,
            r.timestamp == timestamp,
    {
        Timestamped { data, timestamp }
    }

    /// Stamps `data` with the system clock's current instant.
    pub fn now(data: T) -> (r: Self)
        ensures
            r.data == data,
    {
        Self::with_clock(data, &SystemClock)
    }

    /// Stamps `data` with the instant that `clock` reports.
    pub fn with_clock<C: Clock>(data: T, clock: &C) -> (r: Self)
        ensures
            r.data == data,
    {
        let timestamp = clock.now();
        Timestamped { data, timestamp }
    }

    /// Transforms the value and keeps the instant.
    pub fn map<U, F: FnOnce(T) -> U>(self, f: F) -> (r: Timestamped<U>)
        requires
            f.requires((self.data,)),
        ensures
            f.ensures((self.data,), r.data),
            r.timestamp == self.timestamp,
    {
        let timestamp = self.timestamp;
        Timestamped { data: f(self.data), timestamp }
    }

    /// Transforms the value with a fallible function and keeps the instant;
    /// the function's error is handed back unchanged.
    pub fn try_map<U, E, F: FnOnce(T) -> Result<U, E>>(self, f: F) -> (r: Result<Timestamped<U>, E>)
        requires
            f.requires((self.data,)),
        ensures
            r matches Ok(t) ==> f.ensures((self.data,), Ok(t.data)) && t.timestamp == self.timestamp,
            r matches Err(e) ==> f.ensures((self.data,), Err(e)),
    {
        let timestamp = self.timestamp;
        match f(self.data) {
            Ok(data) => Ok(Timestamped { data, timestamp }),
            Err(e) => Err(e),
        }
    }
}

} // verus!
