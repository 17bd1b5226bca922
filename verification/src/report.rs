//! What gets logged: the lines about the state of the records, and the
//! reporting of failures, which says a failure that repeats only once and
//! then how often it came again.

use crate::text::{decimal, decimal_string};
use vstd::prelude::*;
use vstd::string::StringExecFns;

verus! {

/// How much a line matters.
#[derive(Clone, Copy, Debug, PartialEq, Eq)]
pub enum Level {
    Error,
    Info,
    Debug,
}

/// A line for the log.
#[derive(Clone, Debug, PartialEq, Eq)]
pub struct LogLine {
    pub level: Level,
    pub text: String,
}

/// The model of [`LogLine`].
pub struct LogLineView {
    pub level: Level,
    pub text: Seq<char>,
}

impl View for LogLine {
    type V = LogLineView;

    open spec fn view(&self) -> LogLineView {
        LogLineView { level: self.level, text: self.text@ }
    }
}

impl DeepView for LogLine {
    type V = LogLineView;

    open spec fn deep_view(&self) -> LogLineView {
        self@
    }
}

/// The line that says what a reconciliation wrote.
pub open spec fn changes_text(ip: Seq<char>, created: nat, updated: nat) -> Seq<char> {
    "Public IP is "@ + ip + ". Records created: "@ + decimal(created) + ", Records updated: "@
        + decimal(updated) + "."@
}

/// The line that says that the records are in step with the address.
pub open spec fn in_step_text(ip: Seq<char>) -> Seq<char> {
    "Public IP is "@ + ip + ". No records changes needed."@
}

/// The line that says that the records follow a new address: the address,
/// the one before, and how many records were sent after it.
pub open spec fn moved_text(current: Seq<char>, previous: Seq<char>, updated: nat) -> Seq<char> {
    "Public IP changed, DNS records have been updated. Current: "@ + current + " Previous: "@
        + previous + " Records updated: "@ + decimal(updated)
}

/// The line that stands for the repeats of a failure that were not logged.
pub open spec fn summary_text(repeats: nat, signature: Seq<char>) -> Seq<char> {
    "additional "@ + decimal(repeats) + " errors of: "@ + signature
}

/// Says how many records a reconciliation created and updated to bring the
/// store to `current_ip`.
pub fn log_changes(current_ip: &String, new: usize, changed: usize) -> (line: LogLine)
    ensures
        line@ == (LogLineView {
            level: Level::Info,
            text: changes_text(current_ip@, new as nat, changed as nat),
        }),
{
    let mut text = String::from_str("Public IP is ");
    text.append(current_ip.as_str());
    text.append(". Records created: ");
    text.append(decimal_string(new as u64).as_str());
    text.append(", Records updated: ");
    text.append(decimal_string(changed as u64).as_str());
    text.append(".");
    LogLine { level: Level::Info, text }
}

/// Says that the records are in step with `current_ip`.
pub fn in_step_line(level: Level, current_ip: &String) -> (line: LogLine)
    ensures
        line@ == (LogLineView { level: level, text: in_step_text(current_ip@) }),
{
    let mut text = String::from_str("Public IP is ");
    text.append(current_ip.as_str());
    text.append(". No records changes needed.");
    LogLine { level, text }
}

/// Says that `updated` records were brought from `previous` to `current`.
pub fn moved_line(current: &String, previous: &String, updated: usize) -> (line: LogLine)
    ensures
        line@ == (LogLineView {
            level: Level::Info,
            text: moved_text(current@, previous@, updated as nat),
        }),
{
    let mut text = String::from_str("Public IP changed, DNS records have been updated. Current: ");
    text.append(current.as_str());
    text.append(" Previous: ");
    text.append(previous.as_str());
    text.append(" Records updated: ");
    text.append(decimal_string(updated as u64).as_str());
    LogLine { level: Level::Info, text }
}

/// What a report leaves behind: the failure that was logged last, how often
/// it has come, and the lines to log now.
pub struct Reported {
    pub last: Seq<char>,
    pub count: nat,
    pub lines: Seq<Seq<char>>,
}

/// The line that is owed for the repeats of the last failure: none unless it
/// came more than once.
pub open spec fn flushed(last: Seq<char>, count: nat) -> Seq<Seq<char>> {
    if count > 1 {
        seq![summary_text((count - 1) as nat, last)]
    } else {
        Seq::empty()
    }
}

/// The rule of reporting. `err` is the signature of the failure of this
/// cycle, or `None` where the cycle went well; a `count` of zero says that no
/// failure is remembered.
///
/// Without grouping every failure is logged as it comes, and nothing changes
/// what is remembered.
/// With grouping, a failure whose signature is that of the remembered one is
/// counted and not logged; any other is logged, behind the line owed for the
/// repeats of the one before, and is remembered in its place with a count of
/// one. A cycle that went well logs the line owed and remembers nothing.
pub open spec fn reported(
    last: Seq<char>,
    count: nat,
    err: Option<Seq<char>>,
    group: bool,
) -> Reported {
    if !group {
        Reported {
            last: last,
            count: count,
            lines: match err {
                Some(signature) => seq![signature],
                None => Seq::empty(),
            },
        }
    } else {
        match err {
            None => Reported { last: Seq::empty(), count: 0, lines: flushed(last, count) },
            Some(signature) => if count > 0 && signature == last {
                Reported { last: last, count: count + 1, lines: Seq::empty() }
            } else {
                Reported { last: signature, count: 1, lines: flushed(last, count).push(signature) }
            },
        }
    }
}

/// Whether the count has room for this report: only a further repeat of the
/// remembered failure needs any.
pub open spec fn has_room(
    last: Seq<char>,
    count: usize,
    err: Option<Seq<char>>,
    group: bool,
) -> bool {
    group && err == Some(last) && count > 0 ==> count < usize::MAX
}

/// The lines of the failure reporting as lines for the log: errors all.
pub open spec fn as_errors(lines: Seq<Seq<char>>) -> Seq<LogLineView> {
    Seq::new(lines.len(), |k: int| LogLineView { level: Level::Error, text: lines[k] })
}

fn summary_line(repeats: usize, signature: &String) -> (line: LogLine)
    ensures
        line@ == (LogLineView {
            level: Level::Error,
            text: summary_text(repeats as nat, signature@),
        }),
{
    let mut text = String::from_str("additional ");
    text.append(decimal_string(repeats as u64).as_str());
    text.append(" errors of: ");
    text.append(signature.as_str());
    LogLine { level: Level::Error, text }
}

/// Reports the outcome of a cycle: `err` holds the signature of its failure,
/// or nothing where it went well. The lines that come back are to be logged,
/// in their order; `last_error` and `error_count` carry what the next report
/// needs. `count` switches the grouping of repeats on.
pub fn log_errors(
    err: Option<String>,
    last_error: &mut String,
    error_count: &mut usize,
    count: &bool,
) -> (lines: Vec<LogLine>)
    requires
        has_room(old(last_error)@, *old(error_count), err.deep_view(), *count),
    ensures
        ({
            let r = reported(old(last_error)@, *old(error_count) as nat, err.deep_view(), *count);
            &&& final(last_error)@ == r.last
            &&& *final(error_count) == r.count
            &&& lines.deep_view() == as_errors(r.lines)
        }),
{
    let mut lines: Vec<LogLine> = Vec::new();
    match err {
        Some(current_error) => {
            if *count {
                if *error_count > 0 && current_error == *last_error {
                    *error_count += 1;
                } else {
                    if *error_count > 1 {
                        lines.push(summary_line(*error_count - 1, last_error));
                    }
                    lines.push(LogLine { level: Level::Error, text: current_error.clone() });
                    *error_count = 1;
                    *last_error = current_error;
                }
            } else {
                lines.push(LogLine { level: Level::Error, text: current_error });
            }
        },
        None => {
            if *count {
                if *error_count > 1 {
                    lines.push(summary_line(*error_count - 1, last_error));
                }
                *last_error = String::new();
                *error_count = 0;
            }
        },
    }
    lines
}

/// What a run of reports logs, one outcome after the other, and what it
/// leaves behind.
pub open spec fn reported_run(
    last: Seq<char>,
    count: nat,
    outcomes: Seq<Option<Seq<char>>>,
    group: bool,
) -> Reported
    decreases outcomes.len(),
{
    if outcomes.len() == 0 {
        Reported { last: last, count: count, lines: Seq::empty() }
    } else {
        let before = reported_run(last, count, outcomes.drop_last(), group);
        let now = reported(before.last, before.count, outcomes.last(), group);
        Reported { last: now.last, count: now.count, lines: before.lines + now.lines }
    }
}

/// A failure that comes three times in a row and then no more is logged
/// once, and once more the line that counts its two repeats.
pub proof fn lemma_repeats_are_counted(failure: Seq<char>)
    ensures
        reported_run(
            Seq::empty(),
            0,
            seq![Some(failure), Some(failure), Some(failure), None],
            true,
        ).lines == seq![failure, summary_text(2, failure)],
{
    reveal_with_fuel(reported_run, 5);
}

/// Of two different failures in a row each is logged, and no line counts
/// repeats.
pub proof fn lemma_change_of_failure_is_logged(first: Seq<char>, second: Seq<char>)
    requires
        first != second,
    ensures
        reported_run(Seq::empty(), 0, seq![Some(first), Some(second)], true).lines == seq![
            first,
            second,
        ],
{
    reveal_with_fuel(reported_run, 3);
}

/// A failure that comes once and then no more is logged once, and no line
/// counts repeats.
pub proof fn lemma_single_failure_is_logged_once(failure: Seq<char>)
    ensures
        reported_run(Seq::empty(), 0, seq![Some(failure), None], true).lines == seq![failure],
{
    reveal_with_fuel(reported_run, 3);
}

} // verus!
