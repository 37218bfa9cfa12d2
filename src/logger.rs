use vstd::prelude::*;
use crate::level::{filter_admits, Level, LevelFilter};
use crate::line::{format_line, line_text, opt_view};
use crate::timestamp::{is_usable, time_field, TimeFormat, Timestamp};

verus! {

#[verifier::external_type_specification]
#[verifier::external_body]
pub struct ExStderr(std::io::Stderr);

/// Relies on `std::io::stderr`: a handle to the process's standard error.
#[verifier::external_body]
fn standard_error() -> (r: std::io::Stderr) {
    std::io::stderr()
}

/// The configuration of a logger: where lines go, how time is shown, and the
/// least urgent level that is written.
#[derive(Debug)]
pub struct Logger<T> {
    sink: T,
    time_format: TimeFormat,
    level: LevelFilter,
}

/// The line that a logger writes for one event, or `None` where the event's
/// level does not pass the threshold.
pub open spec fn record_text(
    time_format: TimeFormat,
    threshold: LevelFilter,
    now: Timestamp,
    thread_name: Option<Seq<char>>,
    thread_id: Seq<char>,
    level: Level,
    message: Seq<char>,
) -> Option<Seq<char>> {
    if filter_admits(threshold, level) {
        Some(line_text(time_field(time_format, now), thread_name, thread_id, level, message))
    } else {
        None
    }
}

/// A logger that writes to standard error, with RFC 2822 time and threshold `Info`.
pub fn new_log() -> (r: Logger<std::io::Stderr>)
    ensures
        r.time_format_spec() == TimeFormat::Rfc2822,
        r.level_spec() == LevelFilter::Info,
{
    Logger::new(standard_error())
}

impl<T> Logger<T> {
    /// The destination lines are written to.
    pub closed spec fn sink_spec(&self) -> T {
        self.sink
    }

    /// The rendering used for the time field.
    pub closed spec fn time_format_spec(&self) -> TimeFormat {
        self.time_format
    }

    /// The threshold.
    pub closed spec fn level_spec(&self) -> LevelFilter {
        self.level
    }

    /// A logger writing to `sink`, with RFC 2822 time and threshold `Info`.
    pub fn new(sink: T) -> (r: Self)
        ensures
            r.sink_spec() == sink,
            r.time_format_spec() == TimeFormat::Rfc2822,
            r.level_spec() == LevelFilter::Info,
    {
        Logger { sink, time_format: TimeFormat::Rfc2822, level: LevelFilter::Info }
    }

    /// A logger writing to `sink` with this logger's time format and threshold.
    /// This logger stays usable.
    pub fn sink<U>(&self, sink: U) -> (r: Logger<U>)
        ensures
            r.sink_spec() == sink,
            r.time_format_spec() == self.time_format_spec(),
            r.level_spec() == self.level_spec(),
    {
        Logger { sink, time_format: self.time_format, level: self.level }
    }

    /// The same logger with the time field rendered in `time_format`.
    pub fn time_format(self, time_format: TimeFormat) -> (r: Self)
        ensures
            r.sink_spec() == self.sink_spec(),
            r.time_format_spec() == time_format,
            r.level_spec() == self.level_spec(),
    {
        Logger { sink: self.sink, time_format, level: self.level }
    }

    /// The same logger with threshold `level`.
    pub fn max_log_level(self, level: LevelFilter) -> (r: Self)
        ensures
            r.sink_spec() == self.sink_spec(),
            r.time_format_spec() == self.time_format_spec(),
            r.level_spec() == level,
    {
        Logger { sink: self.sink, time_format: self.time_format, level }
    }

    /// The rendering used for the time field.
    pub fn get_time_format(&self) -> (r: TimeFormat)
        ensures
            r == self.time_format_spec(),
    {
        self.time_format
    }

    /// The threshold.
    pub fn get_level(&self) -> (r: LevelFilter)
        ensures
            r == self.level_spec(),
    {
        self.level
    }

    /// The destination.
    pub fn destination(&self) -> (r: &T)
        ensures
            *r == self.sink_spec(),
    {
        &self.sink
    }

    /// Gives up the configuration and hands back the destination.
    pub fn into_sink(self) -> (r: T)
        ensures
            r == self.sink_spec(),
    {
        self.sink
    }

    /// Whether an event of `level` passes the threshold.
    pub fn enabled(&self, level: Level) -> (r: bool)
        ensures
            r == filter_admits(self.level_spec(), level),
    {
        self.level.admits(level)
    }

    /// The line for one event at instant `now`, from a thread with the given
    /// name and identifier, or `None` where the event's level does not pass.
    pub fn record_line(
        &self,
        now: &Timestamp,
        thread_name: Option<&str>,
        thread_id: &str,
        level: Level,
        message: &str,
    ) -> (r: Option<String>)
        ensures
            r.is_some() == filter_admits(self.level_spec(), level),
            r.is_some() ==> r.unwrap()@ == record_text(
                self.time_format_spec(),
                self.level_spec(),
                *now,
                opt_view(thread_name),
                thread_id@,
                level,
                message@,
            ).unwrap(),
    {
        if self.enabled(level) {
            let time = now.time_field(self.time_format);
            Some(format_line(time.as_str(), thread_name, thread_id, level, message))
        } else {
            None
        }
    }

    /// The line for one event issued now, or `None` where the event's level
    /// does not pass. The time field shows the current instant, a usable one.
    pub fn event_line(
        &self,
        thread_name: Option<&str>,
        thread_id: &str,
        level: Level,
        message: &str,
    ) -> (r: Option<String>)
        ensures
            r.is_some() == filter_admits(self.level_spec(), level),
            r.is_some() ==> exists|now: Timestamp|
                is_usable(now) && r.unwrap()@ == record_text(
                    self.time_format_spec(),
                    self.level_spec(),
                    now,
                    opt_view(thread_name),
                    thread_id@,
                    level,
                    message@,
                ).unwrap(),
    {
        if self.enabled(level) {
            let now = Timestamp::now();
            self.record_line(&now, thread_name, thread_id, level, message)
        } else {
            None
        }
    }
}

} // verus!
