//! Points in time, counted as `chrono` counts them.

use chrono::{DateTime, Duration, Utc};
use vstd::prelude::*;

verus! {

/// The first second of the calendar: the start of the year -262143.
pub const MIN_SECS: i64 = -8334601228800;

/// The last second of the calendar: the end of the year 262142.
pub const MAX_SECS: i64 = 8210266876799;

/// The longest span of whole seconds that a duration can hold, either way.
pub const MAX_SPAN_SECS: i64 = 9223372036854775;

/// Nanoseconds in a second.
pub const NANOS_PER_SEC: u32 = 1000000000;

/// Seconds in a day.
pub const SECS_PER_DAY: i64 = 86400;

/// A point in time: whole seconds since the start of 1970 in UTC, and the
/// nanoseconds since that second began.
///
/// A leap second is written as the second before it, with a billion
/// nanoseconds or more.
#[derive(Clone, Copy, Debug, PartialEq, Eq, Structural)]
pub struct Timestamp {
    pub secs: i64,
    pub nanos: u32,
}

impl Timestamp {
    /// Whether this is a point of the calendar.
    pub open spec fn wf(self) -> bool {
        &&& MIN_SECS <= self.secs <= MAX_SECS
        &&& self.nanos < 2 * NANOS_PER_SEC
        &&& self.nanos >= NANOS_PER_SEC ==> self.secs % 60 == 59
    }

    /// Whether this point lies inside a leap second.
    pub open spec fn in_leap_second(self) -> bool {
        self.nanos >= NANOS_PER_SEC
    }

    /// Whether the clock can stand at this point.
    pub open spec fn is_reading(self) -> bool {
        &&& self.wf()
        &&& self.secs >= 0
        &&& !self.in_leap_second()
    }

    /// Whether this point comes strictly before `other`.
    pub open spec fn before(self, other: Timestamp) -> bool {
        self.secs < other.secs || (self.secs == other.secs && self.nanos < other.nanos)
    }

    /// The second that lies `span` seconds on from this one; leaving a leap
    /// second backwards starts from the second after it.
    pub open spec fn moved_secs(self, span: int) -> int {
        if self.in_leap_second() && span < 0 {
            self.secs + span + 1
        } else {
            self.secs + span
        }
    }

    /// Whether `span` seconds can be added without leaving the calendar.
    pub open spec fn can_add(self, span: int) -> bool {
        &&& -MAX_SPAN_SECS <= span <= MAX_SPAN_SECS
        &&& MIN_SECS <= self.moved_secs(span) <= MAX_SECS
    }

    /// The point `span` seconds on from this one.
    pub open spec fn plus(self, span: int) -> Timestamp {
        Timestamp {
            secs: self.moved_secs(span) as i64,
            nanos: if self.in_leap_second() && span != 0 {
                (self.nanos - NANOS_PER_SEC) as u32
            } else {
                self.nanos
            },
        }
    }

    /// Whether this point lies in a later second of its day than `other` of its.
    pub open spec fn later_in_day(self, other: Timestamp) -> bool {
        self.secs % SECS_PER_DAY > other.secs % SECS_PER_DAY
    }

    /// The whole seconds from `start` to this point, rounded towards zero.
    ///
    /// A leap second at either end counts for one second more when it lies
    /// earlier in the day than the other end.
    pub open spec fn seconds_since(self, start: Timestamp) -> int {
        let leap: int = if self.later_in_day(start) && start.in_leap_second() {
            1
        } else if start.later_in_day(self) && self.in_leap_second() {
            -1
        } else {
            0
        };
        let fraction = self.nanos - start.nanos;
        let whole = self.secs - start.secs + leap + fraction / (NANOS_PER_SEC as int);
        if whole < 0 && fraction % (NANOS_PER_SEC as int) > 0 {
            whole + 1
        } else {
            whole
        }
    }

    /// The point given by `secs` and `nanos`, if the calendar has it.
    pub fn new(secs: i64, nanos: u32) -> (point: Option<Timestamp>)
        ensures
            point == (if (Timestamp { secs, nanos }).wf() {
                Some(Timestamp { secs, nanos })
            } else {
                None
            }),
    {
        if secs < MIN_SECS || secs > MAX_SECS || nanos >= 2000000000 {
            return None;
        }
        if nanos >= NANOS_PER_SEC {
            let into_minute: i64 = (secs - MIN_SECS) % 60;
            if into_minute != 59 {
                return None;
            }
        }
        Some(Timestamp { secs, nanos })
    }

    /// Whether this point comes strictly before `other`.
    pub fn is_before(&self, other: &Timestamp) -> (earlier: bool)
        ensures
            earlier == self.before(*other),
    {
        self.secs < other.secs || (self.secs == other.secs && self.nanos < other.nanos)
    }

    /// Whether `span` seconds can be added without leaving the calendar.
    pub fn can_add_seconds(&self, span: i64) -> (fits: bool)
        requires
            self.wf(),
        ensures
            fits == self.can_add(span as int),
    {
        if span < -MAX_SPAN_SECS || span > MAX_SPAN_SECS {
            return false;
        }
        let from: i64 = if self.nanos >= NANOS_PER_SEC && span < 0 {
            self.secs + 1
        } else {
            self.secs
        };
        let moved: i64 = from + span;
        MIN_SECS <= moved && moved <= MAX_SECS
    }

    /// The point `span` seconds on from this one.
    pub fn add_seconds(&self, span: i64) -> (later: Timestamp)
        requires
            self.wf(),
            self.can_add(span as int),
        ensures
            later == self.plus(span as int),
            later.wf(),
    {
        chrono_add(*self, span)
    }

    /// The whole seconds from `start` to this point, rounded towards zero.
    pub fn whole_seconds_since(&self, start: &Timestamp) -> (span: i64)
        requires
            self.wf(),
            start.wf(),
        ensures
            span == self.seconds_since(*start),
    {
        chrono_seconds_between(*start, *self)
    }
}

/// Reads the clock with `chrono::Utc::now`.
///
/// Claimed of every reading: it is a point of the calendar, not before 1970
/// and not inside a leap second. How readings relate to each other is left
/// unsaid, as the clock may be set. A clock that stands outside the calendar
/// or before 1970 makes the call panic.
#[verifier::external_body]
pub(crate) fn utc_now() -> (now: Timestamp)
    ensures
        now.is_reading(),
{
    let now = Utc::now();
    Timestamp { secs: now.timestamp(), nanos: now.timestamp_subsec_nanos() }
}

/// Adds a `chrono::Duration` of whole seconds to a `chrono::DateTime<Utc>`.
///
/// Claimed: as long as the duration and the sum can be represented, the sum
/// lies that many seconds later and keeps the nanoseconds, where a move out of
/// a leap second counts as `Timestamp::plus` says.
#[verifier::external_body]
fn chrono_add(start: Timestamp, span: i64) -> (later: Timestamp)
    requires
        start.wf(),
        start.can_add(span as int),
    ensures
        later == start.plus(span as int),
{
    let start = DateTime::from_timestamp(start.secs, start.nanos).unwrap();
    let later = start + Duration::seconds(span);
    Timestamp { secs: later.timestamp(), nanos: later.timestamp_subsec_nanos() }
}

/// Subtracts one `chrono::DateTime<Utc>` from another and asks the difference
/// for its `num_seconds`.
///
/// Claimed: the result is the whole number of seconds between the two, rounded
/// towards zero, with leap seconds counted as `Timestamp::seconds_since` says.
#[verifier::external_body]
fn chrono_seconds_between(start: Timestamp, end: Timestamp) -> (span: i64)
    requires
        start.wf(),
        end.wf(),
    ensures
        span == end.seconds_since(start),
{
    let start = DateTime::from_timestamp(start.secs, start.nanos).unwrap();
    let end = DateTime::from_timestamp(end.secs, end.nanos).unwrap();
    (end - start).num_seconds()
}

/// Adding a span and then measuring it gives the span back. Out of a leap second
/// it does so only if a move forwards ends later in the day than it began, and a
/// move backwards does not.
pub proof fn adding_is_undone_by_measuring(start: Timestamp, span: int)
    requires
        start.wf(),
        start.can_add(span),
        start.in_leap_second() && span != 0 ==> (span > 0 <==> start.plus(span).later_in_day(
            start,
        )),
    ensures
        start.plus(span).seconds_since(start) == span,
{
}

/// The order on points in time is total and strict.
pub proof fn order_is_total(a: Timestamp, b: Timestamp, c: Timestamp)
    ensures
        !(a.before(b) && b.before(a)),
        a.before(b) || b.before(a) || a == b,
        a.before(b) && b.before(c) ==> a.before(c),
{
}

} // verus!
