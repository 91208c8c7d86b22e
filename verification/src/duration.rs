use vstd::prelude::*;

verus! {

/// A non-negative time span, held as whole seconds plus a subsecond
/// nanosecond remainder. Immutable once constructed.
#[derive(Clone, Copy, Debug)]
pub struct IdleDuration {
    secs: u64,
    subsec_nanos: u32,
}

impl IdleDuration {
    /// Whole seconds of the span.
    pub closed spec fn spec_secs(&self) -> u64 {
        self.secs
    }

    /// Nanoseconds beyond the whole seconds.
    pub closed spec fn spec_subsec_nanos(&self) -> u32 {
        self.subsec_nanos
    }

    /// The whole span, in nanoseconds.
    pub open spec fn spec_nanos(&self) -> int {
        self.spec_secs() * 1_000_000_000 + self.spec_subsec_nanos()
    }

    /// Well-formed: the subsecond part stays below one second.
    pub open spec fn wf(&self) -> bool {
        self.spec_subsec_nanos() < 1_000_000_000
    }

    /// Whole milliseconds of the span, floor-divided from nanoseconds.
    pub open spec fn spec_millis(&self) -> int {
        self.spec_nanos() / 1_000_000
    }

    /// Whole minutes, floor-divided from seconds.
    pub open spec fn spec_minutes(&self) -> int {
        self.spec_secs() as int / 60
    }

    /// Whole hours, floor-divided from minutes.
    pub open spec fn spec_hours(&self) -> int {
        self.spec_minutes() / 60
    }

    /// Whole days, floor-divided from hours.
    pub open spec fn spec_days(&self) -> int {
        self.spec_hours() / 24
    }

    /// Whole weeks, floor-divided from days.
    pub open spec fn spec_weeks(&self) -> int {
        self.spec_days() / 7
    }

    /// Whole months, approximated as four weeks each.
    pub open spec fn spec_months(&self) -> int {
        self.spec_weeks() / 4
    }

    /// Whole years, approximated as twelve months each.
    pub open spec fn spec_years(&self) -> int {
        self.spec_months() / 12
    }

    /// The value `from_secs` builds: `secs` whole seconds, nothing more.
    pub closed spec fn spec_from_secs(secs: u64) -> IdleDuration {
        IdleDuration { secs, subsec_nanos: 0 }
    }

    /// A span of whole seconds.
    pub fn from_secs(secs: u64) -> (d: IdleDuration)
        ensures
            d == IdleDuration::spec_from_secs(secs),
            d.wf(),
            d.spec_secs() == secs,
            d.spec_subsec_nanos() == 0,
    {
        IdleDuration { secs, subsec_nanos: 0 }
    }

    /// A span of whole milliseconds.
    pub fn from_millis(millis: u64) -> (d: IdleDuration)
        ensures
            d.wf(),
            d.spec_nanos() == millis * 1_000_000,
    {
        let d = IdleDuration {
            secs: millis / 1000,
            subsec_nanos: (millis % 1000) as u32 * 1_000_000,
        };
        proof {
            vstd::arithmetic::div_mod::lemma_fundamental_div_mod(millis as int, 1000);
        }
        d
    }

    /// A span of whole nanoseconds.
    pub fn from_nanos(nanos: u64) -> (d: IdleDuration)
        ensures
            d.wf(),
            d.spec_nanos() == nanos,
    {
        let d = IdleDuration {
            secs: nanos / 1_000_000_000,
            subsec_nanos: (nanos % 1_000_000_000) as u32,
        };
        proof {
            vstd::arithmetic::div_mod::lemma_fundamental_div_mod(nanos as int, 1_000_000_000);
        }
        d
    }

    /// Every span this library builds is a non-negative amount of time.
    pub proof fn lemma_nonnegative(d: IdleDuration)
        ensures
            d.spec_nanos() >= 0,
    {
    }

    /// Each unit accessor is the floor division of the unit under it:
    /// minutes from seconds, hours from minutes, days from hours, weeks
    /// from days, months from weeks (four weeks each), years from months
    /// (twelve months each); and a span of zero seconds has zero of every
    /// derived unit.
    pub proof fn lemma_unit_conversion_chain(d: IdleDuration)
        ensures
            d.spec_minutes() == d.spec_secs() as int / 60,
            d.spec_hours() == d.spec_minutes() / 60,
            d.spec_days() == d.spec_hours() / 24,
            d.spec_weeks() == d.spec_days() / 7,
            d.spec_months() == d.spec_weeks() / 4,
            d.spec_years() == d.spec_months() / 12,
            d.spec_secs() == 0 ==> d.spec_minutes() == 0 && d.spec_hours() == 0
                && d.spec_days() == 0 && d.spec_weeks() == 0 && d.spec_months() == 0
                && d.spec_years() == 0,
    {
    }

    /// Reading whole seconds back from a span of `n` whole seconds
    /// yields exactly `n`.
    pub proof fn lemma_seconds_round_trip(n: u64)
        ensures
            IdleDuration::spec_from_secs(n).spec_secs() == n,
            IdleDuration::spec_from_secs(n).spec_nanos() == n * 1_000_000_000,
    {
    }

    /// Whole seconds of the span.
    pub fn secs(&self) -> (s: u64)
        ensures
            s == self.spec_secs(),
    {
        self.secs
    }

    /// Nanoseconds beyond the whole seconds.
    pub fn subsec_nanos(&self) -> (n: u32)
        ensures
            n == self.spec_subsec_nanos(),
    {
        self.subsec_nanos
    }
}

} // verus!
