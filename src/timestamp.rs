use vstd::prelude::*;
use time::format_description::well_known::{Rfc2822, Rfc3339};
use time::{OffsetDateTime, UtcOffset};

verus! {

/// An instant together with the UTC offset it is shown in.
#[derive(Clone, Copy, Debug, PartialEq, Eq, Structural)]
pub struct Timestamp {
    /// Nanoseconds since 1970-01-01T00:00:00Z.
    pub unix_nanos: i128,
    /// Offset from UTC, in seconds east.
    pub offset_seconds: i32,
}

/// Which of the two textual renderings of an instant a logger uses.
#[derive(Clone, Copy, Debug, PartialEq, Eq, Structural)]
pub enum TimeFormat {
    Rfc2822,
    Rfc3339,
}

/// The RFC 2822 text of an instant in an offset, or `None` where the
/// instant, the offset or the format's range rejects it.
pub uninterp spec fn rfc2822_text(unix_nanos: int, offset_seconds: int) -> Option<Seq<char>>;

/// The RFC 3339 text of an instant in an offset, or `None` where the
/// instant, the offset or the format's range rejects it.
pub uninterp spec fn rfc3339_text(unix_nanos: int, offset_seconds: int) -> Option<Seq<char>>;

/// An instant that a clock can hand out: the offset lies within ±25:59:59 and
/// the instant within the years -9999 to 9999 in UTC.
pub open spec fn is_usable(t: Timestamp) -> bool {
    &&& -93599 <= t.offset_seconds <= 93599
    &&& -377_705_203_200_000_000_000 <= t.unix_nanos <= 253_402_300_799_999_999_999
}

/// A decimal digit.
pub open spec fn is_ascii_digit(c: char) -> bool {
    '0' <= c <= '9'
}

/// A Latin letter, either case.
pub open spec fn is_ascii_letter(c: char) -> bool {
    ('a' <= c <= 'z') || ('A' <= c <= 'Z')
}

/// The opening of an RFC 2822 text: a three-letter weekday, then `, `.
pub open spec fn rfc2822_shaped(s: Seq<char>) -> bool {
    &&& s.len() >= 5
    &&& is_ascii_letter(s[0]) && is_ascii_letter(s[1]) && is_ascii_letter(s[2])
    &&& s[3] == ',' && s[4] == ' '
}

/// The opening of an RFC 3339 text: a four-digit year, then `-`.
pub open spec fn rfc3339_shaped(s: Seq<char>) -> bool {
    &&& s.len() >= 5
    &&& is_ascii_digit(s[0]) && is_ascii_digit(s[1]) && is_ascii_digit(s[2]) && is_ascii_digit(s[3])
    &&& s[4] == '-'
}

/// The opening that a text rendered in format `f` has.
pub open spec fn shaped(f: TimeFormat, s: Seq<char>) -> bool {
    match f {
        TimeFormat::Rfc2822 => rfc2822_shaped(s),
        TimeFormat::Rfc3339 => rfc3339_shaped(s),
    }
}

/// The rendering of `t` in format `f`, if it can be rendered.
pub open spec fn rendered(f: TimeFormat, t: Timestamp) -> Option<Seq<char>> {
    match f {
        TimeFormat::Rfc2822 => rfc2822_text(t.unix_nanos as int, t.offset_seconds as int),
        TimeFormat::Rfc3339 => rfc3339_text(t.unix_nanos as int, t.offset_seconds as int),
    }
}

/// What stands in the time field when an instant cannot be rendered.
pub open spec fn time_error_text() -> Seq<char> {
    seq!['t', 'i', 'm', 'e', ' ', 'e', 'r', 'r', 'o', 'r']
}

/// The time field of a line: the rendering, or the error text.
pub open spec fn time_field(f: TimeFormat, t: Timestamp) -> Seq<char> {
    match rendered(f, t) {
        Some(s) => s,
        None => time_error_text(),
    }
}

/// Relies on `OffsetDateTime::now_local`: the current instant in the local
/// offset, or `None` where that offset cannot be determined. The instant is
/// read back through `unix_timestamp_nanos` and `offset().whole_seconds()`,
/// which stay within the ranges that `OffsetDateTime` and `UtcOffset` admit.
#[verifier::external_body]
fn local_now() -> (r: Option<Timestamp>)
    ensures
        r is Some ==> is_usable(r.unwrap()),
{
    match OffsetDateTime::now_local() {
        Ok(t) => Some(Timestamp { unix_nanos: t.unix_timestamp_nanos(), offset_seconds: t.offset().whole_seconds() }),
        Err(_) => None,
    }
}

/// Relies on `OffsetDateTime::now_utc`: the current instant, in UTC (offset
/// zero). The instant is read back as in `local_now`.
#[verifier::external_body]
fn utc_now() -> (r: Timestamp)
    ensures
        r.offset_seconds == 0,
        is_usable(r),
{
    let t = OffsetDateTime::now_utc();
    Timestamp { unix_nanos: t.unix_timestamp_nanos(), offset_seconds: t.offset().whole_seconds() }
}

/// Relies on `OffsetDateTime::format` with `Rfc2822`: the text, or the failure,
/// depends on the instant and the offset alone. The value is rebuilt through
/// `OffsetDateTime::from_unix_timestamp_nanos`, `UtcOffset::from_whole_seconds`
/// and `checked_to_offset`, each of which reports an out-of-range value as an
/// error rather than panicking. A text opens with the weekday's first three
/// letters and `, `.
#[verifier::external_body]
fn format_rfc2822(t: &Timestamp) -> (r: Option<String>)
    ensures
        r.is_some() == rfc2822_text(t.unix_nanos as int, t.offset_seconds as int).is_some(),
        r.is_some() ==> r.unwrap()@ == rfc2822_text(t.unix_nanos as int, t.offset_seconds as int).unwrap(),
        r.is_some() ==> rfc2822_shaped(r.unwrap()@),
{
    let instant = OffsetDateTime::from_unix_timestamp_nanos(t.unix_nanos).ok()?;
    let offset = UtcOffset::from_whole_seconds(t.offset_seconds).ok()?;
    instant.checked_to_offset(offset)?.format(&Rfc2822).ok()
}

/// Relies on `OffsetDateTime::format` with `Rfc3339`: the text, or the failure,
/// depends on the instant and the offset alone. The value is rebuilt through
/// `OffsetDateTime::from_unix_timestamp_nanos`, `UtcOffset::from_whole_seconds`
/// and `checked_to_offset`, each of which reports an out-of-range value as an
/// error rather than panicking. Years outside 0 to 9999 are refused, so a
/// text opens with four digits and `-`.
#[verifier::external_body]
fn format_rfc3339(t: &Timestamp) -> (r: Option<String>)
    ensures
        r.is_some() == rfc3339_text(t.unix_nanos as int, t.offset_seconds as int).is_some(),
        r.is_some() ==> r.unwrap()@ == rfc3339_text(t.unix_nanos as int, t.offset_seconds as int).unwrap(),
        r.is_some() ==> rfc3339_shaped(r.unwrap()@),
{
    let instant = OffsetDateTime::from_unix_timestamp_nanos(t.unix_nanos).ok()?;
    let offset = UtcOffset::from_whole_seconds(t.offset_seconds).ok()?;
    instant.checked_to_offset(offset)?.format(&Rfc3339).ok()
}

impl Timestamp {
    /// The current instant: in the local offset where it can be determined,
    /// otherwise in UTC. Always a usable instant.
    pub fn now() -> (r: Timestamp)
        ensures
            is_usable(r),
    {
        match local_now() {
            Some(t) => t,
            None => utc_now(),
        }
    }

    /// The instant rendered in format `f`, or `None` where it cannot be.
    pub fn render(&self, f: TimeFormat) -> (r: Option<String>)
        ensures
            r.is_some() == rendered(f, *self).is_some(),
            r.is_some() ==> r.unwrap()@ == rendered(f, *self).unwrap(),
            r.is_some() ==> shaped(f, r.unwrap()@),
    {
        match f {
            TimeFormat::Rfc2822 => format_rfc2822(self),
            TimeFormat::Rfc3339 => format_rfc3339(self),
        }
    }

    /// The time field of a line: the rendering in format `f`, or the text
    /// `time error` where rendering fails.
    pub fn time_field(&self, f: TimeFormat) -> (r: String)
        ensures
            r@ == time_field(f, *self),
    {
        match self.render(f) {
            Some(s) => s,
            None => {
                let r = String::from_str("time error");
                proof {
                    reveal_strlit("time error");
                }
                r
            },
        }
    }
}

} // verus!
