//! Crew strength of a resource, and its operational status.
use vstd::prelude::*;

use crate::timestamped::Timestamped;

verus! {

/// How many officers, sub-officers and crew members a resource carries.
#[derive(Clone, Copy, Debug, PartialEq, Eq, Structural)]
pub struct Staffing {
    officers: u8,
    sub_officers: u8,
    crew: u8,
}

/// Staffing as observed at an instant.
pub type TimestampedStaffing = Timestamped<Staffing>;

impl Staffing {
    pub closed spec fn spec_officers(self) -> u8 {
        self.officers
    }

    pub closed spec fn spec_sub_officers(self) -> u8 {
        self.sub_officers
    }

    pub closed spec fn spec_crew(self) -> u8 {
        self.crew
    }

    pub fn new(officers: u8, sub_officers: u8, crew: u8) -> (r: Self)
        ensures
            r.spec_officers() == officers,
            r.spec_sub_officers() == sub_officers,
            r.spec_crew() == crew,
    {
        Staffing { officers, sub_officers, crew }
    }

    pub fn officers(&self) -> (r: u8)
        ensures
            r == self.spec_officers(),
    {
        self.officers
    }

    pub fn sub_officers(&self) -> (r: u8)
        ensures
            r == self.spec_sub_officers(),
    {
        self.sub_officers
    }

    pub fn crew(&self) -> (r: u8)
        ensures
            r == self.spec_crew(),
    {
        self.crew
    }
}

/// Where a resource stands in its assignment cycle.
#[derive(Clone, Copy, Debug, PartialEq, Eq, Structural)]
pub enum ResourceStatus {
    AvailableAtStation,
    AvailableOnRadio,
    Assigned,
    Dispatched,
    EnRoute,
    OnScene,
    Unavailable,
}

/// A status as observed at an instant.
pub type TimestampedResourceStatus = Timestamped<ResourceStatus>;

} // verus!
