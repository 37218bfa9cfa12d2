use vstd::prelude::*;
use crate::level::{filter_admits, level_name, Level, LevelFilter};
use crate::line::{fallback_text, line_tail, WriteOutcome};
use crate::logger::record_text;
use crate::timestamp::{rendered, rfc2822_shaped, rfc3339_shaped, time_error_text, TimeFormat, Timestamp};

verus! {

/// An event that passes the threshold gives exactly one line; it opens the
/// time field with `[`, ends with the message verbatim, and names the level
/// just before the message.
pub proof fn lemma_admitted_event_gives_line(
    time_format: TimeFormat,
    threshold: LevelFilter,
    now: Timestamp,
    thread_name: Option<Seq<char>>,
    thread_id: Seq<char>,
    level: Level,
    message: Seq<char>,
)
    requires
        filter_admits(threshold, level),
    ensures
        record_text(time_format, threshold, now, thread_name, thread_id, level, message) is Some,
        ({
            let s = record_text(time_format, threshold, now, thread_name, thread_id, level, message).unwrap();
            let m = message.len() as int;
            let n = level_name(level).len() as int;
            &&& s.len() > m + n + 1
            &&& s[0] == '['
            &&& s.subrange(s.len() - m, s.len() as int) == message
            &&& s[s.len() - m - 1] == ' '
            &&& s.subrange(s.len() - m - 1 - n, s.len() - m - 1) == level_name(level)
        }),
{
    let s = record_text(time_format, threshold, now, thread_name, thread_id, level, message).unwrap();
    let m = message.len() as int;
    let n = level_name(level).len() as int;
    let head = s.subrange(0, s.len() - m - 1 - n);
    assert(s =~= head + level_name(level) + seq![' '] + message);
    assert(s.subrange(s.len() - m, s.len() as int) =~= message);
    assert(s.subrange(s.len() - m - 1 - n, s.len() - m - 1) =~= level_name(level));
}

/// An event below the threshold gives no line at all.
pub proof fn lemma_rejected_event_gives_nothing(
    time_format: TimeFormat,
    threshold: LevelFilter,
    now: Timestamp,
    thread_name: Option<Seq<char>>,
    thread_id: Seq<char>,
    level: Level,
    message: Seq<char>,
)
    requires
        !filter_admits(threshold, level),
    ensures
        record_text(time_format, threshold, now, thread_name, thread_id, level, message) is None,
{
}

/// Where the destination refuses a line or cannot be reached, the line itself
/// is the last thing written to standard error; where the write went through,
/// nothing is.
pub proof fn lemma_failed_write_falls_back(line: Seq<char>, outcome: WriteOutcome)
    ensures
        outcome is Written <==> fallback_text(line, outcome).len() == 0,
        !(outcome is Written) ==> fallback_text(line, outcome).last() == line,
{
}

/// The time field is the only part of a line that depends on the instant:
/// where the instant cannot be rendered it reads exactly `time error`, and
/// otherwise the rendering, before the same remainder of the line.
pub proof fn lemma_time_field_isolated(
    time_format: TimeFormat,
    threshold: LevelFilter,
    now: Timestamp,
    thread_name: Option<Seq<char>>,
    thread_id: Seq<char>,
    level: Level,
    message: Seq<char>,
)
    requires
        filter_admits(threshold, level),
    ensures
        rendered(time_format, now) is None ==> record_text(
            time_format,
            threshold,
            now,
            thread_name,
            thread_id,
            level,
            message,
        ) == Some(seq!['['] + time_error_text() + line_tail(thread_name, thread_id, level, message)),
        rendered(time_format, now) is Some ==> record_text(
            time_format,
            threshold,
            now,
            thread_name,
            thread_id,
            level,
            message,
        ) == Some(
            seq!['['] + rendered(time_format, now).unwrap() + line_tail(
                thread_name,
                thread_id,
                level,
                message,
            ),
        ),
{
}

/// No text opens both as an RFC 2822 text and as an RFC 3339 text, so the two
/// renderings of one instant always differ.
pub proof fn lemma_formats_distinct(a: Seq<char>, b: Seq<char>)
    requires
        rfc2822_shaped(a),
        rfc3339_shaped(b),
    ensures
        a != b,
        !rfc3339_shaped(a),
        !rfc2822_shaped(b),
{
    assert(a[4] != b[4]);
}

} // verus!
