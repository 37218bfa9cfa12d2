//! A backend for a line-oriented logging facade: a configuration builder, a
//! timestamp renderer, and the formatting and fallback rules of the write path.
//!
//! Each event becomes one line:
//!
//! ```text
//! [<time>] (<thread-name> <thread-id>) <level> <message>
//! ```
mod laws;
mod level;
mod line;
mod logger;
mod timestamp;

pub use laws::{
    lemma_admitted_event_gives_line, lemma_failed_write_falls_back, lemma_formats_distinct, lemma_rejected_event_gives_nothing,
    lemma_time_field_isolated,
};
pub use level::{filter_admits, filter_rank, level_name, level_rank, Level, LevelFilter};
pub use line::{
    fallback_lines, fallback_text, format_line, line_tail, line_text, opt_view, thread_label,
    unnamed_text, write_failure_note, WriteOutcome,
};
pub use logger::{new_log, record_text, Logger};
pub use timestamp::{
    is_ascii_digit, is_ascii_letter, is_usable, rendered, rfc2822_shaped, rfc2822_text,
    rfc3339_shaped, rfc3339_text, shaped, time_error_text, time_field, TimeFormat, Timestamp,
};
