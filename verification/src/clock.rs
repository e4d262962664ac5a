//! Points in time, as seconds and nanoseconds since the Unix epoch in UTC.

use vstd::prelude::*;

verus! {

/// The first second of the calendar: the beginning of the year -262143.
pub const MIN_SECS: i64 = -8_334_601_228_800;

/// The last second of the calendar: the end of the year 262142.
pub const MAX_SECS: i64 = 8_210_266_876_799;

/// Whether the calendar can represent the instant `secs` seconds and
/// `nanos` nanoseconds after the Unix epoch: the second lies within the
/// years -262143 to 262142, and the nanoseconds are below a thousand
/// million, or, to stand for a leap second, below two thousand million in
/// the last second of a minute.
pub open spec fn representable(secs: int, nanos: int) -> bool {
    &&& MIN_SECS <= secs <= MAX_SECS
    &&& 0 <= nanos < 2_000_000_000
    &&& nanos >= 1_000_000_000 ==> secs % 60 == 59
}

/// Name for the text that `chrono` writes for an instant under the pattern
/// `%d-%b-%Y`.
pub uninterp spec fn day_month_year(secs: int, nanos: int) -> Seq<char>;

/// Asks whether an instant is within the range of the calendar.
///
/// Trusted: `chrono::DateTime::from_timestamp`, which returns `None` for a
/// number of seconds whose day lies outside the years -262143 to 262142,
/// and for nanoseconds that its time of day refuses: two thousand million
/// or more, or a thousand million or more outside the last second of a
/// minute.
#[verifier::external_body]
fn calendar_accepts(secs: i64, nanos: u32) -> (ok: bool)
    ensures
        ok == representable(secs as int, nanos as int),
{
    chrono::DateTime::from_timestamp(secs, nanos).is_some()
}

/// Reads the clock.
///
/// Trusted: `chrono::Utc::now`, taken apart by `DateTime::timestamp` and
/// `DateTime::timestamp_subsec_nanos`. Of the instant itself nothing is
/// claimed; `chrono` documents that the two parts of any of its instants are
/// accepted back by `DateTime::from_timestamp`.
#[verifier::external_body]
fn read_clock() -> (t: (i64, u32))
    ensures
        representable(t.0 as int, t.1 as int),
{
    let now = chrono::Utc::now();
    (now.timestamp(), now.timestamp_subsec_nanos())
}

/// Writes the day of an instant as day, abbreviated English month and year.
///
/// Trusted: `chrono::DateTime::format` with the pattern `%d-%b-%Y`, on the
/// instant that `DateTime::from_timestamp` makes of the two numbers; the
/// contract names the text.
#[verifier::external_body]
fn write_day(secs: i64, nanos: u32) -> (s: String)
    requires
        representable(secs as int, nanos as int),
    ensures
        s@ == day_month_year(secs as int, nanos as int),
{
    chrono::DateTime::from_timestamp(secs, nanos).unwrap().format("%d-%b-%Y").to_string()
}

/// An instant in UTC that the calendar can represent.
#[derive(Clone, Copy, Debug, PartialEq, Eq)]
pub struct Timestamp {
    secs: i64,
    nanos: u32,
}

impl Timestamp {
    #[verifier::type_invariant]
    spec fn in_range(self) -> bool {
        representable(self.secs as int, self.nanos as int)
    }

    /// Whole seconds since the Unix epoch.
    pub closed spec fn spec_secs(self) -> i64 {
        self.secs
    }

    /// Nanoseconds since the last whole second.
    pub closed spec fn spec_nanos(self) -> u32 {
        self.nanos
    }

    /// The instant `secs` seconds and `nanos` nanoseconds after the Unix
    /// epoch, if the calendar can represent it.
    pub fn new(secs: i64, nanos: u32) -> (t: Option<Timestamp>)
        ensures
            t is Some <==> representable(secs as int, nanos as int),
            t matches Some(x) ==> x.spec_secs() == secs && x.spec_nanos() == nanos,
    {
        if calendar_accepts(secs, nanos) {
            Some(Timestamp { secs, nanos })
        } else {
            None
        }
    }

    /// The current instant.
    pub fn now() -> (t: Timestamp)
        ensures
            representable(t.spec_secs() as int, t.spec_nanos() as int),
    {
        let (secs, nanos) = read_clock();
        Timestamp { secs, nanos }
    }

    /// Whole seconds since the Unix epoch.
    #[verifier::when_used_as_spec(spec_secs)]
    pub fn secs(self) -> (s: i64)
        ensures
            s == self.spec_secs(),
    {
        self.secs
    }

    /// Nanoseconds since the last whole second.
    #[verifier::when_used_as_spec(spec_nanos)]
    pub fn nanos(self) -> (n: u32)
        ensures
            n == self.spec_nanos(),
    {
        self.nanos
    }

    /// The day of this instant as `DD-Mon-YYYY`, such as `15-May-2023`.
    pub fn day_text(self) -> (s: String)
        ensures
            s@ == day_month_year(self.spec_secs() as int, self.spec_nanos() as int),
    {
        proof {
            use_type_invariant(&self);
        }
        write_day(self.secs, self.nanos)
    }
}

} // verus!
