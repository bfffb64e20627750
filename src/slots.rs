use vstd::prelude::*;

use crate::error::BackedUpError;

verus! {

/// A retention granularity.
#[derive(Copy, Clone, Debug, PartialEq, Eq, Structural)]
pub enum Period {
    Years,
    Months,
    Days,
    Hours,
    Minutes,
}

impl Period {
    /// The display name of the tier.
    pub open spec fn name(self) -> Seq<char> {
        match self {
            Period::Years => "Years"@,
            Period::Months => "Months"@,
            Period::Days => "Days"@,
            Period::Hours => "Hours"@,
            Period::Minutes => "Minutes"@,
        }
    }

    pub fn to_string(&self) -> (r: &'static str)
        ensures
            r@ == self.name(),
    {
        match self {
            Period::Years => "Years",
            Period::Months => "Months",
            Period::Days => "Days",
            Period::Hours => "Hours",
            Period::Minutes => "Minutes",
        }
    }
}

/// How many buckets of each tier are retained. At least one count is positive.
#[derive(Copy, Clone, Debug)]
pub struct SlotConfig {
    yearly: usize,
    monthly: usize,
    daily: usize,
    hourly: usize,
    minutely: usize,
}

impl SlotConfig {
    /// The retention count of tier `t`.
    pub closed spec fn count(self, t: Period) -> nat {
        match t {
            Period::Years => self.yearly as nat,
            Period::Months => self.monthly as nat,
            Period::Days => self.daily as nat,
            Period::Hours => self.hourly as nat,
            Period::Minutes => self.minutely as nat,
        }
    }

    /// A configuration is usable when some tier retains something.
    pub closed spec fn wf(self) -> bool {
        self.yearly > 0 || self.monthly > 0 || self.daily > 0 || self.hourly > 0
            || self.minutely > 0
    }

    pub fn new(years: usize, months: usize, days: usize, hours: usize, minutes: usize) -> (r:
        Result<Self, BackedUpError>)
        ensures
            (years == 0 && months == 0 && days == 0 && hours == 0 && minutes == 0) <==> r is Err,
            r is Err ==> r->Err_0 == BackedUpError::NoSlot,
            r matches Ok(s) ==> {
                &&& s.wf()
                &&& s.count(Period::Years) == years
                &&& s.count(Period::Months) == months
                &&& s.count(Period::Days) == days
                &&& s.count(Period::Hours) == hours
                &&& s.count(Period::Minutes) == minutes
            },
    {
        if years == 0 && months == 0 && days == 0 && hours == 0 && minutes == 0 {
            return Err(BackedUpError::NoSlot);
        }
        Ok(Self { yearly: years, monthly: months, daily: days, hourly: hours, minutely: minutes })
    }

    /// The retention count of tier `t`.
    pub fn slot(&self, t: Period) -> (r: usize)
        ensures
            r == self.count(t),
    {
        match t {
            Period::Years => self.yearly,
            Period::Months => self.monthly,
            Period::Days => self.daily,
            Period::Hours => self.hourly,
            Period::Minutes => self.minutely,
        }
    }
}

} // verus!
