//! Points in time and spans of time, in nanoseconds.
use vstd::prelude::*;

verus! {

/// The earliest point in time that the calendar knows, -262143-01-01T00:00:00Z, in seconds.
pub const MIN_SECONDS: i64 = -8334601228800;

/// The last second that the calendar knows, +262142-12-31T23:59:59Z.
pub const MAX_SECONDS: i64 = 8210266876799;

/// Nanoseconds in a second.
pub const NANOS_PER_SECOND: i128 = 1000000000;

/// A point in time as RFC 3339 writes it, in UTC.
pub uninterp spec fn rfc3339_of(seconds: i64, nanos: u32) -> Seq<char>;

/// Trusted: `chrono::DateTime::from_timestamp` knows every second from `MIN_SECONDS` to
/// `MAX_SECONDS`, and `to_rfc3339` writes the point in time.
#[verifier::external_body]
fn rfc3339_text(seconds: i64, nanos: u32) -> (r: String)
    requires
        MIN_SECONDS <= seconds <= MAX_SECONDS,
        nanos < 1000000000,
    ensures
        r@ == rfc3339_of(seconds, nanos),
{
    chrono::DateTime::from_timestamp(seconds, nanos).expect("within the calendar").to_rfc3339()
}

/// The day of a point in time as eight digits, year first, in UTC.
pub uninterp spec fn date_stamp_of(seconds: i64) -> Seq<char>;

/// Trusted: `chrono::DateTime::from_timestamp` knows every second from `MIN_SECONDS` to
/// `MAX_SECONDS`, and `format` with `%Y%m%d` writes its day.
#[verifier::external_body]
fn date_stamp_text(seconds: i64) -> (r: String)
    requires
        MIN_SECONDS <= seconds <= MAX_SECONDS,
    ensures
        r@ == date_stamp_of(seconds),
{
    let at = chrono::DateTime::from_timestamp(seconds, 0).expect("within the calendar");
    at.format("%Y%m%d").to_string()
}

/// A point in time: nanoseconds since 1970-01-01T00:00:00Z.
#[derive(Clone, Copy, Debug, PartialEq, Eq, Structural)]
pub struct Timestamp {
    pub nanos: i128,
}

/// A span of time in nanoseconds; negative where it leads back.
#[derive(Clone, Copy, Debug, PartialEq, Eq, Structural)]
pub struct Span {
    pub nanos: i128,
}

/// Whether the calendar knows the point `nanos` nanoseconds after 1970.
pub open spec fn in_calendar(nanos: int) -> bool {
    MIN_SECONDS * NANOS_PER_SECOND <= nanos < (MAX_SECONDS + 1) * NANOS_PER_SECOND
}

impl Span {
    /// The longest span that is computed with, either way: about 292 million years.
    pub open spec fn wf(self) -> bool {
        -9223372036854775807 * 1000000 <= self.nanos <= 9223372036854775807 * 1000000
    }

    /// A span of whole seconds.
    pub open spec fn of_seconds(seconds: int) -> Span {
        Span { nanos: (seconds * NANOS_PER_SECOND) as i128 }
    }

    pub fn seconds(seconds: i64) -> (r: Span)
        ensures
            r == Span::of_seconds(seconds as int),
            r.nanos == seconds * NANOS_PER_SECOND,
    {
        Span { nanos: seconds as i128 * NANOS_PER_SECOND }
    }
}

impl Timestamp {
    /// Whether the calendar knows this point.
    pub open spec fn wf(self) -> bool {
        in_calendar(self.nanos as int)
    }

    /// Whether the calendar knows the point `span` later.
    pub open spec fn can_add(self, span: Span) -> bool {
        in_calendar(self.nanos + span.nanos)
    }

    /// The point `span` later.
    pub open spec fn later(self, span: Span) -> Timestamp {
        Timestamp { nanos: (self.nanos + span.nanos) as i128 }
    }

    /// The whole seconds since 1970, rounded down.
    pub open spec fn unix_seconds(self) -> int {
        self.nanos as int / NANOS_PER_SECOND as int
    }

    pub fn plus(self, span: Span) -> (r: Timestamp)
        requires
            self.can_add(span),
        ensures
            r == self.later(span),
            r.nanos == self.nanos + span.nanos,
            r.wf(),
    {
        Timestamp { nanos: self.nanos + span.nanos }
    }

    /// The span from `earlier` to this point.
    pub fn since(self, earlier: Timestamp) -> (r: Span)
        requires
            self.wf(),
            earlier.wf(),
        ensures
            r.nanos == self.nanos - earlier.nanos,
            r.wf(),
    {
        Span { nanos: self.nanos - earlier.nanos }
    }

    pub fn at_or_before(self, other: Timestamp) -> (r: bool)
        ensures
            r == (self.nanos <= other.nanos),
    {
        self.nanos <= other.nanos
    }

    pub fn before(self, other: Timestamp) -> (r: bool)
        ensures
            r == (self.nanos < other.nanos),
    {
        self.nanos < other.nanos
    }

    /// The point `seconds` after 1970, where the calendar knows it.
    pub fn from_unix(seconds: i64) -> (r: Option<Timestamp>)
        ensures
            r == Timestamp::at_unix(seconds as int),
    {
        if MIN_SECONDS <= seconds && seconds <= MAX_SECONDS {
            Some(Timestamp { nanos: seconds as i128 * NANOS_PER_SECOND })
        } else {
            None
        }
    }

    pub open spec fn at_unix(seconds: int) -> Option<Timestamp> {
        if MIN_SECONDS <= seconds <= MAX_SECONDS {
            Some(Timestamp { nanos: (seconds * NANOS_PER_SECOND) as i128 })
        } else {
            None
        }
    }

    /// The point in time as RFC 3339 writes it.
    pub open spec fn rfc3339_text_of(self) -> Seq<char> {
        rfc3339_of(
            self.unix_seconds() as i64,
            (self.nanos as int % NANOS_PER_SECOND as int) as u32,
        )
    }

    /// The day as eight digits.
    pub fn date_stamp(self) -> (r: String)
        requires
            self.wf(),
        ensures
            r@ == date_stamp_of(self.unix_seconds() as i64),
    {
        date_stamp_text(self.timestamp())
    }

    pub fn to_rfc3339(self) -> (r: String)
        requires
            self.wf(),
        ensures
            r@ == self.rfc3339_text_of(),
    {
        let seconds: i64 = self.timestamp();
        proof {
            vstd::arithmetic::div_mod::lemma_fundamental_div_mod(
                self.nanos as int,
                NANOS_PER_SECOND as int,
            );
        }
        let nanos: i128 = self.nanos - seconds as i128 * NANOS_PER_SECOND;
        rfc3339_text(seconds, nanos as u32)
    }

    /// The whole seconds since 1970.
    pub fn timestamp(self) -> (r: i64)
        requires
            self.wf(),
        ensures
            r == self.unix_seconds(),
    {
        if self.nanos >= 0 {
            (self.nanos / NANOS_PER_SECOND) as i64
        } else {
            let magnitude: i128 = -(self.nanos + 1);
            let whole: i128 = magnitude / NANOS_PER_SECOND;
            proof {
                let n: int = self.nanos as int;
                let d: int = NANOS_PER_SECOND as int;
                let m: int = -(n + 1);
                vstd::arithmetic::div_mod::lemma_fundamental_div_mod(m, d);
                vstd::arithmetic::div_mod::lemma_fundamental_div_mod_converse(
                    n,
                    d,
                    -(m / d) - 1,
                    d - 1 - m % d,
                );
            }
            (-whole - 1) as i64
        }
    }
}

/// The shorter of two spans.
pub fn min_span(a: Span, b: Span) -> (r: Span)
    ensures
        r == if a.nanos <= b.nanos { a } else { b },
{
    if a.nanos <= b.nanos {
        a
    } else {
        b
    }
}

/// A span of whole seconds has a thousand million nanoseconds for each, and a point that much later is
/// that much later; a longer span leads to a later point.
pub proof fn later_is_later(at: Timestamp, seconds: i64, a: Span, b: Span)
    requires
        at.wf(),
        a.wf(),
        b.wf(),
    ensures
        Span::of_seconds(seconds as int).nanos == seconds * 1_000_000_000,
        at.later(a).nanos == at.nanos + a.nanos,
        a.nanos <= b.nanos ==> at.later(a).nanos <= at.later(b).nanos,
        a.nanos > 0 ==> at.nanos < at.later(a).nanos,
        at.later(a).later(b).nanos == at.later(b).later(a).nanos,
{
}

/// A point in whole seconds reads back, and every point lies within the second that it is counted to.
pub proof fn seconds_read_back(at: Timestamp, seconds: i64)
    ensures
        Timestamp::at_unix(seconds as int) matches Some(t) ==> t.unix_seconds() == seconds && t.wf(),
        Timestamp::at_unix(seconds as int) is None <==> !(MIN_SECONDS <= seconds <= MAX_SECONDS),
        at.unix_seconds() * 1_000_000_000 <= at.nanos,
        at.nanos < (at.unix_seconds() + 1) * 1_000_000_000,
{
    vstd::arithmetic::div_mod::lemma_fundamental_div_mod(at.nanos as int, NANOS_PER_SECOND as int);
    if let Some(t) = Timestamp::at_unix(seconds as int) {
        assert(t.nanos == seconds * 1_000_000_000);
        vstd::arithmetic::div_mod::lemma_fundamental_div_mod_converse(
            t.nanos as int,
            NANOS_PER_SECOND as int,
            seconds as int,
            0,
        );
    }
}

} // verus!
