//! The console line of a log message: its time, the coloured label of its
//! kind, the identifier of its unit and its text.

use crate::model::ident::{id_to_string, uuid_text};
use crate::model::log_entry::{LogEntry, LogEntryView, LogMessageType};
use owo_colors::OwoColorize;
use vstd::prelude::*;
use vstd::string::StringExecFns;

verus! {

/// The pattern by which console lines show the time of a message.
pub const CONSOLE_TIME_PATTERN: &'static str = "%Y-%m-%d %H:%M:%S UTC";

/// What `chrono` writes for the time that lies `nanos` nanoseconds after
/// 1970-01-01 00:00:00 UTC when it formats that time by `pattern`.
pub uninterp spec fn time_text(nanos: i64, pattern: Seq<char>) -> Seq<char>;

/// A text in red: between the codes that switch the red foreground on and
/// the foreground colour back to the default.
pub open spec fn red(text: Seq<char>) -> Seq<char> {
    "\x1b[31m"@ + text + "\x1b[39m"@
}

/// A text in yellow.
pub open spec fn yellow(text: Seq<char>) -> Seq<char> {
    "\x1b[33m"@ + text + "\x1b[39m"@
}

/// A text in blue.
pub open spec fn blue(text: Seq<char>) -> Seq<char> {
    "\x1b[34m"@ + text + "\x1b[39m"@
}

/// A text in green.
pub open spec fn green(text: Seq<char>) -> Seq<char> {
    "\x1b[32m"@ + text + "\x1b[39m"@
}

/// A text in bold: between the code that switches bold on and the code that
/// resets all styles.
pub open spec fn bold(text: Seq<char>) -> Seq<char> {
    "\x1b[1m"@ + text + "\x1b[0m"@
}

/// A dimmed text.
pub open spec fn dimmed(text: Seq<char>) -> Seq<char> {
    "\x1b[2m"@ + text + "\x1b[0m"@
}

/// The label that a console line shows for a message kind.
pub open spec fn label_of(message_type: LogMessageType) -> Seq<char> {
    match message_type {
        LogMessageType::Error => "ERROR"@,
        LogMessageType::Warning => "WARN"@,
        LogMessageType::Info => "INFO"@,
        LogMessageType::Success => "SUCCESS"@,
    }
}

/// The label of a message kind in its colour and in bold.
pub open spec fn styled_label(message_type: LogMessageType) -> Seq<char> {
    match message_type {
        LogMessageType::Error => bold(red(label_of(message_type))),
        LogMessageType::Warning => bold(yellow(label_of(message_type))),
        LogMessageType::Info => bold(blue(label_of(message_type))),
        LogMessageType::Success => bold(green(label_of(message_type))),
    }
}

/// A console line made of its four parts: each of the first three in square
/// brackets, all separated by single spaces.
pub open spec fn line_of(
    time: Seq<char>,
    label: Seq<char>,
    unit: Seq<char>,
    message: Seq<char>,
) -> Seq<char> {
    "["@ + time + "] ["@ + label + "] ["@ + unit + "] "@ + message
}

/// The console line of a message: its time, the styled label of its kind,
/// the dimmed identifier of its unit, and its text.
pub open spec fn console_line(entry: LogEntryView) -> Seq<char> {
    line_of(
        time_text(entry.timestamp.nanos, CONSOLE_TIME_PATTERN@),
        styled_label(entry.message_type),
        dimmed(uuid_text(entry.log_unit_id)),
        entry.message,
    )
}

/// Formats the UTC time that lies `nanos` nanoseconds after 1970
/// (`chrono::DateTime::from_timestamp_nanos`, which accepts every `i64`) by
/// `pattern` (`DateTime::format`). Formatting panics on a pattern that
/// `chrono` does not accept, so only the console pattern is admitted.
#[verifier::external_body]
pub(crate) fn format_utc(nanos: i64, pattern: &str) -> (text: String)
    requires
        pattern@ == CONSOLE_TIME_PATTERN@,
    ensures
        text@ == time_text(nanos, pattern@),
{
    chrono::DateTime::from_timestamp_nanos(nanos).format(pattern).to_string()
}

/// `OwoColorize::red`, written out: the text between the codes for a red
/// foreground and for the default foreground.
#[verifier::external_body]
fn paint_red(text: &str) -> (r: String)
    ensures
        r@ == red(text@),
{
    text.red().to_string()
}

/// `OwoColorize::yellow`, written out.
#[verifier::external_body]
fn paint_yellow(text: &str) -> (r: String)
    ensures
        r@ == yellow(text@),
{
    text.yellow().to_string()
}

/// `OwoColorize::blue`, written out.
#[verifier::external_body]
fn paint_blue(text: &str) -> (r: String)
    ensures
        r@ == blue(text@),
{
    text.blue().to_string()
}

/// `OwoColorize::green`, written out.
#[verifier::external_body]
fn paint_green(text: &str) -> (r: String)
    ensures
        r@ == green(text@),
{
    text.green().to_string()
}

/// `OwoColorize::bold`, written out: the text between the code for bold and
/// the code that resets all styles.
#[verifier::external_body]
fn paint_bold(text: &str) -> (r: String)
    ensures
        r@ == bold(text@),
{
    text.bold().to_string()
}

/// `OwoColorize::dimmed`, written out: the text between the code for dimmed
/// and the code that resets all styles.
#[verifier::external_body]
fn paint_dimmed(text: &str) -> (r: String)
    ensures
        r@ == dimmed(text@),
{
    text.dimmed().to_string()
}

/// The styled console label of a message kind.
pub fn level_label(message_type: LogMessageType) -> (label: String)
    ensures
        label@ == styled_label(message_type),
{
    let coloured: String = match message_type {
        LogMessageType::Error => paint_red("ERROR"),
        LogMessageType::Warning => paint_yellow("WARN"),
        LogMessageType::Info => paint_blue("INFO"),
        LogMessageType::Success => paint_green("SUCCESS"),
    };
    paint_bold(coloured.as_str())
}

/// Joins the four parts of a console line.
pub fn render_line(time: &str, label: &str, unit: &str, message: &str) -> (line: String)
    ensures
        line@ == line_of(time@, label@, unit@, message@),
{
    let mut line: String = String::from_str("[");
    line.append(time);
    line.append("] [");
    line.append(label);
    line.append("] [");
    line.append(unit);
    line.append("] ");
    line.append(message);
    line
}

/// The console line of a message.
pub fn format_entry(entry: &LogEntry) -> (line: String)
    ensures
        line@ == console_line(entry@),
{
    let time: String = format_utc(entry.timestamp.nanos, CONSOLE_TIME_PATTERN);
    let label: String = level_label(entry.message_type);
    let unit_text: String = id_to_string(entry.log_unit_id);
    let unit: String = paint_dimmed(unit_text.as_str());
    render_line(time.as_str(), label.as_str(), unit.as_str(), entry.message.as_str())
}

} // verus!
