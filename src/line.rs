use vstd::prelude::*;
use crate::level::{level_name, Level};

verus! {

/// The name shown for a thread that has none.
pub open spec fn unnamed_text() -> Seq<char> {
    seq!['<', 'u', 'n', 'n', 'a', 'm', 'e', 'd', '>']
}

/// The thread's name, or `<unnamed>`.
pub open spec fn thread_label(thread_name: Option<Seq<char>>) -> Seq<char> {
    match thread_name {
        Some(n) => n,
        None => unnamed_text(),
    }
}

/// Everything of a line after its time field:
/// `] (<thread-name> <thread-id>) <level> <message>`.
pub open spec fn line_tail(
    thread_name: Option<Seq<char>>,
    thread_id: Seq<char>,
    level: Level,
    message: Seq<char>,
) -> Seq<char> {
    seq![']', ' ', '('] + thread_label(thread_name) + seq![' '] + thread_id + seq![')', ' ']
        + level_name(level) + seq![' '] + message
}

/// One line: `[<time>] (<thread-name> <thread-id>) <level> <message>`.
pub open spec fn line_text(
    time: Seq<char>,
    thread_name: Option<Seq<char>>,
    thread_id: Seq<char>,
    level: Level,
    message: Seq<char>,
) -> Seq<char> {
    seq!['['] + time + line_tail(thread_name, thread_id, level, message)
}

/// The view of an optional borrowed string.
pub open spec fn opt_view(s: Option<&str>) -> Option<Seq<char>> {
    match s {
        Some(v) => Some(v@),
        None => None,
    }
}

/// Formats one event. The message is taken verbatim; a thread without a
/// name is shown as `<unnamed>`.
pub fn format_line(
    time: &str,
    thread_name: Option<&str>,
    thread_id: &str,
    level: Level,
    message: &str,
) -> (r: String)
    ensures
        r@ == line_text(time@, opt_view(thread_name), thread_id@, level, message@),
{
    proof {
        reveal_strlit("[");
        reveal_strlit("] (");
        reveal_strlit("<unnamed>");
        reveal_strlit(" ");
        reveal_strlit(") ");
    }
    let mut r = String::from_str("[");
    r.append(time);
    r.append("] (");
    match thread_name {
        Some(n) => r.append(n),
        None => r.append("<unnamed>"),
    }
    r.append(" ");
    r.append(thread_id);
    r.append(") ");
    r.append(level.as_str());
    r.append(" ");
    r.append(message);
    assert(r@ =~= line_text(time@, opt_view(thread_name), thread_id@, level, message@));
    r
}

/// How a write of a line to the destination went.
#[derive(Debug)]
pub enum WriteOutcome {
    /// The line reached the destination.
    Written,
    /// The destination refused the write, with this description.
    Failed(String),
    /// The destination could not be reached at all (its lock is broken).
    Unavailable,
}

/// The note written to standard error before a line that the destination refused.
pub open spec fn write_failure_note(error: Seq<char>) -> Seq<char> {
    seq!['e', 'r', 'r', 'o', 'r', ' ', 'w', 'r', 'i', 't', 'i', 'n', 'g', ' ', 't', 'o', ' ', 's',
        'i', 'n', 'k', ',', ' ', 'f', 'a', 'l', 'l', 'i', 'n', 'g', ' ', 'b', 'a', 'c', 'k', ' ',
        't', 'o', ' ', 's', 't', 'd', 'e', 'r', 'r', ':', ' '] + error
}

/// The lines owed to standard error after an attempt to write `line`.
pub open spec fn fallback_text(line: Seq<char>, outcome: WriteOutcome) -> Seq<Seq<char>> {
    match outcome {
        WriteOutcome::Written => seq![],
        WriteOutcome::Failed(e) => seq![write_failure_note(e@), line],
        WriteOutcome::Unavailable => seq![line],
    }
}

/// The lines to write to standard error once the destination has been tried:
/// none where the write went through, else the line itself, after a note
/// where the destination refused it.
pub fn fallback_lines(line: &str, outcome: &WriteOutcome) -> (r: Vec<String>)
    ensures
        r@.map_values(|s: String| s@) == fallback_text(line@, *outcome),
{
    let mut r: Vec<String> = Vec::new();
    match outcome {
        WriteOutcome::Written => {},
        WriteOutcome::Failed(e) => {
            let mut note = String::from_str("error writing to sink, falling back to stderr: ");
            proof {
                reveal_strlit("error writing to sink, falling back to stderr: ");
            }
            assert(note@ =~= write_failure_note(Seq::empty()));
            note.append(e.as_str());
            assert(note@ =~= write_failure_note(e@));
            r.push(note);
            r.push(String::from_str(line));
            assert(r@.map_values(|s: String| s@) =~= seq![write_failure_note(e@), line@]);
        },
        WriteOutcome::Unavailable => {
            r.push(String::from_str(line));
            assert(r@.map_values(|s: String| s@) =~= seq![line@]);
        },
    }
    assert(r@.map_values(|s: String| s@) =~= fallback_text(line@, *outcome));
    r
}

} // verus!
