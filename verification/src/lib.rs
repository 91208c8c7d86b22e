//! Report how long a user session has been idle: the time since the last
//! user input event, as the host platform's native idle-time facility
//! reports it, wrapped in a value with unit-conversion accessors.

use vstd::prelude::*;

pub mod dbus_impl;
mod duration;
mod error;
pub mod macos_impl;
pub mod windows_impl;
pub mod x11_impl;

pub use duration::IdleDuration;
pub use error::Error;

verus! {

/// The idle time of a user session, as one non-negative span.
pub struct UserIdle {
    duration: IdleDuration,
}

impl UserIdle {
    /// The span this value wraps.
    pub closed spec fn spec_duration(&self) -> IdleDuration {
        self.duration
    }

    /// Wrap the outcome of the active platform probe. A successful probe
    /// value is taken as is; a probe failure is propagated unchanged.
    pub fn get_time(probe: Result<IdleDuration, Error>) -> (r: Result<UserIdle, Error>)
        ensures
            probe matches Ok(d) ==> r matches Ok(u) && u.spec_duration() == d,
            probe matches Err(e) ==> r matches Err(e2) && e2 == e,
    {
        match probe {
            Ok(d) => Ok(UserIdle { duration: d }),
            Err(e) => Err(e),
        }
    }

    /// Idle time in nanoseconds.
    pub fn as_nanoseconds(&self) -> (r: u128)
        ensures
            r == self.spec_duration().spec_nanos(),
    {
        self.duration.secs() as u128 * 1_000_000_000 + self.duration.subsec_nanos() as u128
    }

    /// Idle time in whole milliseconds.
    pub fn as_milliseconds(&self) -> (r: u128)
        ensures
            r == self.spec_duration().spec_millis(),
    {
        self.as_nanoseconds() / 1_000_000
    }

    /// Idle time in whole seconds.
    pub fn as_seconds(&self) -> (r: u64)
        ensures
            r == self.spec_duration().spec_secs(),
    {
        self.duration.secs()
    }

    /// Idle time in whole minutes.
    pub fn as_minutes(&self) -> (r: u64)
        ensures
            r == self.spec_duration().spec_minutes(),
    {
        self.as_seconds() / 60
    }

    /// Idle time in whole hours.
    pub fn as_hours(&self) -> (r: u64)
        ensures
            r == self.spec_duration().spec_hours(),
    {
        self.as_minutes() / 60
    }

    /// Idle time in whole days.
    pub fn as_days(&self) -> (r: u64)
        ensures
            r == self.spec_duration().spec_days(),
    {
        self.as_hours() / 24
    }

    /// Idle time in whole weeks.
    pub fn as_weeks(&self) -> (r: u64)
        ensures
            r == self.spec_duration().spec_weeks(),
    {
        self.as_days() / 7
    }

    /// Idle time in whole months, a month taken as four weeks.
    pub fn as_months(&self) -> (r: u64)
        ensures
            r == self.spec_duration().spec_months(),
    {
        self.as_weeks() / 4
    }

    /// Idle time in whole years, a year taken as twelve months.
    pub fn as_years(&self) -> (r: u64)
        ensures
            r == self.spec_duration().spec_years(),
    {
        self.as_months() / 12
    }

    /// Relies on std::time::Duration::new: builds the std duration with the
    /// same whole seconds and subsecond nanoseconds as this value. With a
    /// well-formed span the subsecond part needs no carry, so the call
    /// cannot panic.
    #[verifier::external_body]
    pub fn duration(&self) -> std::time::Duration
        requires
            self.spec_duration().wf(),
    {
        std::time::Duration::new(self.duration.secs(), self.duration.subsec_nanos())
    }
}

} // verus!
