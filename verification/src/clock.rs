//! Points in time and lengths of time.

use vstd::prelude::*;

verus! {

/// A point in time, with the offset of the local time from UTC at that point.
#[derive(Clone, Copy, Debug)]
pub struct Timestamp {
    /// Whole seconds since the start of 1970, UTC.
    pub seconds: i64,
    /// Nanoseconds within the second; from 10^9 on, within a leap second.
    pub nanos: u32,
    /// Seconds by which the local time is ahead of UTC.
    pub offset: i32,
}

/// Whether the calendar has this point in time: from the year -262143 to the
/// year 262142, with leap seconds at the end of a minute only, and with an offset
/// of less than a day.
pub open spec fn in_calendar(seconds: i64, nanos: u32, offset: i32) -> bool {
    &&& -8_334_601_228_800 <= seconds <= 8_210_266_876_799
    &&& nanos < 2_000_000_000
    &&& nanos >= 1_000_000_000 ==> seconds as int % 60 == 59
    &&& -86_400 < offset < 86_400
}

/// Whether the RFC 3339 text of this point in time says all of it: the calendar has it
/// both in UTC and in the local time, and the offset is a whole number of minutes. Years
/// that do not have four digits are written with a sign, and leap seconds as second 60.
pub open spec fn written_in_full(seconds: i64, nanos: u32, offset: i32) -> bool {
    &&& in_calendar(seconds, nanos, offset)
    &&& -8_334_601_228_800 <= seconds + offset <= 8_210_266_876_799
    &&& offset as int % 60 == 0
}

impl Timestamp {
    /// Whether this is a point in time of the calendar.
    pub open spec fn valid(&self) -> bool {
        in_calendar(self.seconds, self.nanos, self.offset)
    }

    /// Whether the RFC 3339 text of this point in time says all of it.
    pub open spec fn printable(&self) -> bool {
        written_in_full(self.seconds, self.nanos, self.offset)
    }

    /// The point in time with these parts, if the calendar has it.
    pub fn new(seconds: i64, nanos: u32, offset: i32) -> (r: Option<Timestamp>)
        ensures
            r == (if in_calendar(seconds, nanos, offset) {
                Some(Timestamp { seconds, nanos, offset })
            } else {
                None
            }),
    {
        if seconds < -8_334_601_228_800 || seconds > 8_210_266_876_799 {
            return None;
        }
        if nanos >= 2_000_000_000 || offset <= -86_400 || offset >= 86_400 {
            return None;
        }
        if nanos >= 1_000_000_000 {
            match seconds.checked_rem_euclid(60) {
                Some(59) => {},
                _ => {
                    return None;
                },
            }
        }
        Some(Timestamp { seconds, nanos, offset })
    }

    /// Whether this point in time is not after `other`.
    pub open spec fn is_by(self, other: Timestamp) -> bool {
        self.seconds < other.seconds || self.seconds == other.seconds && self.nanos <= other.nanos
    }

    /// Whether this point in time is not after `other`.
    pub fn not_after(&self, other: &Timestamp) -> (r: bool)
        ensures
            r == self.is_by(*other),
    {
        self.seconds < other.seconds || (self.seconds == other.seconds && self.nanos
            <= other.nanos)
    }
}

/// The point in time that `chrono` reads from a text, as seconds and nanoseconds,
/// or the message of its error.
pub uninterp spec fn rfc3339_instant(source: Seq<char>) -> Result<(i64, u32), Seq<char>>;

/// The RFC 3339 text that `chrono` prints for a point in time.
pub uninterp spec fn rfc3339_text(seconds: i64, nanos: u32, offset: i32) -> Seq<char>;

/// The text that `chrono` shows for a point in time.
pub uninterp spec fn shown_time(seconds: i64, nanos: u32, offset: i32) -> Seq<char>;

/// The words that `humantime` has for a length of time.
pub uninterp spec fn duration_words(seconds: u64, nanos: u32) -> Seq<char>;

/// The nanoseconds from one point in time to another. A leap second is counted where one
/// of the two points lies within it, as long as it comes before the other in the day.
pub open spec fn nanos_between(from: Timestamp, to: Timestamp) -> int {
    let ahead = to.seconds as int % 86_400 - from.seconds as int % 86_400;
    let leap: int = if ahead > 0 && from.nanos >= 1_000_000_000 {
        1
    } else if ahead < 0 && to.nanos >= 1_000_000_000 {
        -1
    } else {
        0
    };
    (to.seconds - from.seconds + leap) * 1_000_000_000 + to.nanos - from.nanos
}

/// What was read from a text, without the offset.
pub open spec fn instant_of(r: Result<Timestamp, String>) -> Result<(i64, u32), Seq<char>> {
    match r {
        Ok(t) => Ok((t.seconds, t.nanos)),
        Err(e) => Err(e@),
    }
}

/// Whether `r` is the point in time whose RFC 3339 text `source` is, if it is the
/// text of one that it says all of.
pub open spec fn reads_back(source: Seq<char>, r: Result<Timestamp, String>) -> bool {
    forall|seconds: i64, nanos: u32, offset: i32|
        written_in_full(seconds, nanos, offset) && source == #[trigger] rfc3339_text(
            seconds,
            nanos,
            offset,
        ) ==> instant_of(r) == Ok::<(i64, u32), Seq<char>>((seconds, nanos))
}

/// Whether `source` is read as the point in time whose RFC 3339 text it is, if it
/// is the text of one that it says all of.
pub open spec fn text_reads_back(source: Seq<char>) -> bool {
    forall|seconds: i64, nanos: u32, offset: i32|
        written_in_full(seconds, nanos, offset) && source == #[trigger] rfc3339_text(
            seconds,
            nanos,
            offset,
        ) ==> rfc3339_instant(source) == Ok::<(i64, u32), Seq<char>>((seconds, nanos))
}

/// `chrono::Local::now`: the present, with the offset of the machine's time zone. Of a
/// time that is read off a clock nothing is said but that the calendar has it.
#[verifier::external_body]
pub(crate) fn local_now() -> (r: Timestamp)
    ensures
        r.valid(),
{
    let t = chrono::Local::now();
    Timestamp {
        seconds: t.timestamp(),
        nanos: t.timestamp_subsec_nanos(),
        offset: t.offset().local_minus_utc(),
    }
}

/// `str::parse` into a `chrono::DateTime<Local>`: the point in time that the text
/// names, or the message of the error. The text that `to_rfc3339` prints for a point in
/// time names that point, except where the offset is no whole number of minutes, to which
/// it is rounded in the text, or where the calendar does not have the local time. The
/// offset is that of the machine's time zone at that point in time, of which nothing is
/// said here.
#[verifier::external_body]
pub(crate) fn parse_time(source: &str) -> (r: Result<Timestamp, String>)
    ensures
        instant_of(r) == rfc3339_instant(source@),
        r matches Ok(t) ==> t.valid(),
        reads_back(source@, r),
{
    match source.parse::<chrono::DateTime<chrono::Local>>() {
        Ok(t) => Ok(Timestamp {
            seconds: t.timestamp(),
            nanos: t.timestamp_subsec_nanos(),
            offset: t.offset().local_minus_utc(),
        }),
        Err(e) => Err(e.to_string()),
    }
}

/// `chrono::DateTime::to_rfc3339`: the RFC 3339 text of a point in time.
#[verifier::external_body]
pub(crate) fn print_time(t: &Timestamp) -> (r: String)
    requires
        t.valid(),
    ensures
        r@ == rfc3339_text(t.seconds, t.nanos, t.offset),
{
    let offset = chrono::FixedOffset::east_opt(t.offset).unwrap();
    chrono::DateTime::from_timestamp(t.seconds, t.nanos).unwrap().with_timezone(
        &offset,
    ).to_rfc3339()
}

/// `chrono::DateTime`'s `Display`: the text of a point in time in the local time.
#[verifier::external_body]
pub(crate) fn show_time(t: &Timestamp) -> (r: String)
    requires
        t.valid(),
    ensures
        r@ == shown_time(t.seconds, t.nanos, t.offset),
{
    let offset = chrono::FixedOffset::east_opt(t.offset).unwrap();
    chrono::DateTime::from_timestamp(t.seconds, t.nanos).unwrap().with_timezone(
        &offset,
    ).to_string()
}

/// `chrono::DateTime::signed_duration_since`, as a `std` duration: the time from one point
/// in time to another, as seconds and nanoseconds. There is none where it would be less
/// than nothing.
#[verifier::external_body]
pub(crate) fn time_from(from: &Timestamp, to: &Timestamp) -> (r: Option<(u64, u32)>)
    requires
        from.valid(),
        to.valid(),
    ensures
        r is None <==> nanos_between(*from, *to) < 0,
        r matches Some(d) ==> d.1 < 1_000_000_000 && d.0 * 1_000_000_000 + d.1 == nanos_between(
            *from,
            *to,
        ),
{
    let a = chrono::DateTime::from_timestamp(from.seconds, from.nanos).unwrap();
    let b = chrono::DateTime::from_timestamp(to.seconds, to.nanos).unwrap();
    b.signed_duration_since(a).to_std().ok().map(|d| (d.as_secs(), d.subsec_nanos()))
}

/// The whole seconds from one point in time to another: none if that is already past.
pub open spec fn seconds_between(from: Timestamp, to: Timestamp) -> u64 {
    if nanos_between(from, to) < 0 {
        0
    } else {
        (nanos_between(from, to) / 1_000_000_000) as u64
    }
}

/// The whole seconds from one point in time to another: none if that is already past.
pub fn seconds_from(from: &Timestamp, to: &Timestamp) -> (r: u64)
    requires
        from.valid(),
        to.valid(),
    ensures
        r == seconds_between(*from, *to),
        to.is_by(*from) ==> r == 0,
{
    match time_from(from, to) {
        Some((seconds, nanos)) => seconds,
        None => 0,
    }
}

/// `humantime::format_duration`: a length of time in words. No time at all is `0s`.
#[verifier::external_body]
pub(crate) fn duration_text(seconds: u64, nanos: u32) -> (r: String)
    requires
        nanos < 1_000_000_000,
    ensures
        r@ == duration_words(seconds, nanos),
        seconds == 0 && nanos == 0 ==> r@ == "0s"@,
{
    humantime::format_duration(std::time::Duration::new(seconds, nanos)).to_string()
}

// ---------------------------------------------------------------- laws

/// Not being after is the order of the seconds, and within a second of the nanoseconds.
pub proof fn not_after_is_in_order(a: Timestamp, b: Timestamp)
    requires
        a.valid(),
        b.valid(),
    ensures
        a.is_by(b) <==> a.seconds * 2_000_000_000 + a.nanos <= b.seconds * 2_000_000_000 + b.nanos,
        a.is_by(b) <==> !(b.seconds < a.seconds || (b.seconds == a.seconds && b.nanos < a.nanos)),
{
}

/// Of two points in time one is not after the other; both are not only if they are the same;
/// and what is not after a point in time is not after any later one.
pub proof fn not_after_is_an_order(a: Timestamp, b: Timestamp, c: Timestamp)
    ensures
        a.is_by(a),
        a.is_by(b) || b.is_by(a),
        a.is_by(b) && b.is_by(a) ==> a.seconds == b.seconds && a.nanos == b.nanos,
        a.is_by(b) && b.is_by(c) ==> a.is_by(c),
{
}

/// Without leap seconds the whole seconds until a point in time are those of the difference
/// in nanoseconds, and none once it is past.
pub proof fn seconds_until(from: Timestamp, to: Timestamp)
    requires
        from.valid(),
        to.valid(),
        from.nanos < 1_000_000_000,
        to.nanos < 1_000_000_000,
    ensures
        ({
            let left = (to.seconds * 1_000_000_000 + to.nanos) - (from.seconds * 1_000_000_000
                + from.nanos);
            let s = seconds_between(from, to);
            &&& left < 0 ==> s == 0
            &&& left >= 0 ==> s * 1_000_000_000 <= left < (s + 1) * 1_000_000_000
        }),
{
}

/// Until a later point in time there are no fewer seconds, without leap seconds.
pub proof fn later_is_longer(from: Timestamp, a: Timestamp, b: Timestamp)
    requires
        from.valid() && a.valid() && b.valid(),
        from.nanos < 1_000_000_000 && a.nanos < 1_000_000_000 && b.nanos < 1_000_000_000,
        a.seconds < b.seconds || a.seconds == b.seconds && a.nanos <= b.nanos,
    ensures
        seconds_between(from, a) <= seconds_between(from, b),
{
}

} // verus!
