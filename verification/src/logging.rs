//! Log records: what goes to the telemetry backend, and the line that goes
//! to the process's own logger.

use crate::hex::{digit_str, hex_digit};
use crate::keyvalue::{clone_pairs, pairs_view, Key, KeyValueView, Value, ValueView};
use vstd::prelude::*;
use vstd::string::*;

verus! {

/// How severe a log record is: six names, each in four steps, numbered 1 to
/// 24 from `Trace` to `Fatal4`.
#[derive(Clone, Copy, Debug, PartialEq, Eq, Structural)]
pub enum Severity {
    Trace,
    Trace2,
    Trace3,
    Trace4,
    Debug,
    Debug2,
    Debug3,
    Debug4,
    Info,
    Info2,
    Info3,
    Info4,
    Warn,
    Warn2,
    Warn3,
    Warn4,
    Error,
    Error2,
    Error3,
    Error4,
    Fatal,
    Fatal2,
    Fatal3,
    Fatal4,
}

/// The level under which the process's own logger files a line.
#[derive(Clone, Copy, Debug, PartialEq, Eq, Structural)]
pub enum Level {
    Error,
    Warn,
    Info,
    Debug,
    Trace,
}

impl Severity {
    /// The number of a severity, from 1 for `Trace` to 24 for `Fatal4`.
    pub open spec fn spec_number(self) -> int {
        match self {
            Severity::Trace => 1,
            Severity::Trace2 => 2,
            Severity::Trace3 => 3,
            Severity::Trace4 => 4,
            Severity::Debug => 5,
            Severity::Debug2 => 6,
            Severity::Debug3 => 7,
            Severity::Debug4 => 8,
            Severity::Info => 9,
            Severity::Info2 => 10,
            Severity::Info3 => 11,
            Severity::Info4 => 12,
            Severity::Warn => 13,
            Severity::Warn2 => 14,
            Severity::Warn3 => 15,
            Severity::Warn4 => 16,
            Severity::Error => 17,
            Severity::Error2 => 18,
            Severity::Error3 => 19,
            Severity::Error4 => 20,
            Severity::Fatal => 21,
            Severity::Fatal2 => 22,
            Severity::Fatal3 => 23,
            Severity::Fatal4 => 24,
        }
    }

    pub fn number(self) -> (n: u8)
        ensures
            n == self.spec_number(),
            1 <= n <= 24,
    {
        match self {
            Severity::Trace => 1,
            Severity::Trace2 => 2,
            Severity::Trace3 => 3,
            Severity::Trace4 => 4,
            Severity::Debug => 5,
            Severity::Debug2 => 6,
            Severity::Debug3 => 7,
            Severity::Debug4 => 8,
            Severity::Info => 9,
            Severity::Info2 => 10,
            Severity::Info3 => 11,
            Severity::Info4 => 12,
            Severity::Warn => 13,
            Severity::Warn2 => 14,
            Severity::Warn3 => 15,
            Severity::Warn4 => 16,
            Severity::Error => 17,
            Severity::Error2 => 18,
            Severity::Error3 => 19,
            Severity::Error4 => 20,
            Severity::Fatal => 21,
            Severity::Fatal2 => 22,
            Severity::Fatal3 => 23,
            Severity::Fatal4 => 24,
        }
    }
}

/// The level for a severity: the four steps of a name share a level, and
/// what is fatal is filed as an error, the logger having no level above it.
pub open spec fn level_of(severity: Severity) -> Level {
    let n = severity.spec_number();
    if n <= 4 {
        Level::Trace
    } else if n <= 8 {
        Level::Debug
    } else if n <= 12 {
        Level::Info
    } else if n <= 16 {
        Level::Warn
    } else {
        Level::Error
    }
}

/// Maps a severity to the logger's level.
pub fn log_level(severity: Severity) -> (level: Level)
    ensures
        level == level_of(severity),
{
    match severity {
        Severity::Trace | Severity::Trace2 | Severity::Trace3 | Severity::Trace4 => Level::Trace,
        Severity::Debug | Severity::Debug2 | Severity::Debug3 | Severity::Debug4 => Level::Debug,
        Severity::Info | Severity::Info2 | Severity::Info3 | Severity::Info4 => Level::Info,
        Severity::Warn | Severity::Warn2 | Severity::Warn3 | Severity::Warn4 => Level::Warn,
        Severity::Error | Severity::Error2 | Severity::Error3 | Severity::Error4 => Level::Error,
        Severity::Fatal | Severity::Fatal2 | Severity::Fatal3 | Severity::Fatal4 => Level::Error,
    }
}

/// The character for the decimal digit `d`.
pub open spec fn decimal_digit(d: int) -> char {
    (0x30 + d) as u8 as char
}

/// The decimal digits of `n`, without leading zeros.
pub open spec fn decimal(n: nat) -> Seq<char>
    decreases n,
{
    if n < 10 {
        seq![decimal_digit(n as int)]
    } else {
        decimal(n / 10).push(decimal_digit(n as int % 10))
    }
}

/// The decimal form of `i`, with a minus sign where it is negative.
pub open spec fn signed_decimal(i: int) -> Seq<char> {
    if i < 0 {
        seq!['-'] + decimal((-i) as nat)
    } else {
        decimal(i as nat)
    }
}

/// Appends the decimal digits of `n` to `text`.
fn push_decimal(text: &mut String, n: u64)
    ensures
        final(text)@ == old(text)@ + decimal(n as nat),
    decreases n,
{
    if n >= 10 {
        push_decimal(text, n / 10);
    }
    let digit = (n % 10) as u8;
    assert(hex_digit(digit as int) as char == decimal_digit(n as int % 10));
    text.append(digit_str(digit));
    assert(text@ =~= old(text)@ + decimal(n as nat));
}

/// Writes `i` in decimal.
pub fn decimal_text(i: i64) -> (text: String)
    ensures
        text@ == signed_decimal(i as int),
{
    let mut text = String::new();
    if i < 0 {
        proof {
            reveal_strlit("-");
        }
        text.append("-");
        let magnitude: u64 = (-(i + 1)) as u64 + 1;
        push_decimal(&mut text, magnitude);
        assert(text@ =~= signed_decimal(i as int));
    } else {
        push_decimal(&mut text, i as u64);
        assert(text@ =~= signed_decimal(i as int));
    }
    text
}

/// The text `true`.
pub open spec fn true_text() -> Seq<char> {
    seq!['t', 'r', 'u', 'e']
}

/// The text `false`.
pub open spec fn false_text() -> Seq<char> {
    seq!['f', 'a', 'l', 's', 'e']
}

/// The message text of a log body: a text as it is, an integer in decimal, a
/// boolean as `true` or `false`. A floating-point body has none here: this
/// library holds only its bits, and the caller renders it.
pub open spec fn rendered(body: ValueView) -> Option<Seq<char>> {
    match body {
        ValueView::Bool(b) => Some(
            if b {
                true_text()
            } else {
                false_text()
            },
        ),
        ValueView::Integer(i) => Some(signed_decimal(i as int)),
        ValueView::Float(_) => None,
        ValueView::String(s) => Some(s),
    }
}

/// The view of an optional text.
pub open spec fn text_view(text: Option<String>) -> Option<Seq<char>> {
    match text {
        Some(t) => Some(t@),
        None => None,
    }
}

/// The view of an optional value.
pub open spec fn value_view(value: Option<Value>) -> Option<ValueView> {
    match value {
        Some(v) => Some(v@),
        None => None,
    }
}

/// Renders a log body as message text.
pub fn render_body(body: &Value) -> (text: Option<String>)
    ensures
        text_view(text) == rendered(body@),
{
    match body {
        Value::Bool(b) => {
            proof {
                reveal_strlit("true");
                reveal_strlit("false");
            }
            let text = if *b {
                String::from_str("true")
            } else {
                String::from_str("false")
            };
            assert(text@ =~= if *b {
                true_text()
            } else {
                false_text()
            });
            Some(text)
        },
        Value::Integer(i) => Some(decimal_text(*i)),
        Value::Float(_) => None,
        Value::String(s) => Some(s.clone()),
    }
}

/// What a log record is, as a plain value.
pub struct LogRecordView {
    pub severity: Severity,
    pub event_name: Option<Seq<char>>,
    pub body: Option<ValueView>,
    pub attributes: Seq<KeyValueView>,
}

/// A structured log record for the telemetry backend.
#[derive(Debug, PartialEq, Eq)]
pub struct LogRecord {
    pub severity: Severity,
    pub event_name: Option<String>,
    pub body: Option<Value>,
    pub attributes: Vec<(Key, Value)>,
}

impl View for LogRecord {
    type V = LogRecordView;

    open spec fn view(&self) -> LogRecordView {
        LogRecordView {
            severity: self.severity,
            event_name: text_view(self.event_name),
            body: value_view(self.body),
            attributes: pairs_view(self.attributes@),
        }
    }
}

/// What a log line is, as a plain value.
pub struct LogLineView {
    pub level: Level,
    pub target: Seq<char>,
    pub message: Option<Seq<char>>,
    pub body: ValueView,
    pub attributes: Seq<KeyValueView>,
}

/// A line for the process's own logger. `message` is the body as text;
/// where the body is a floating-point number it is `None`, and the caller
/// renders `body`.
#[derive(Debug, PartialEq, Eq)]
pub struct LogLine {
    pub level: Level,
    pub target: String,
    pub message: Option<String>,
    pub body: Value,
    pub attributes: Vec<(Key, Value)>,
}

impl View for LogLine {
    type V = LogLineView;

    open spec fn view(&self) -> LogLineView {
        LogLineView {
            level: self.level,
            target: self.target@,
            message: text_view(self.message),
            body: self.body@,
            attributes: pairs_view(self.attributes@),
        }
    }
}

/// The view of an optional log line.
pub open spec fn line_view(line: Option<LogLine>) -> Option<LogLineView> {
    match line {
        Some(l) => Some(l@),
        None => None,
    }
}

/// The view of an optional string slice.
pub open spec fn name_view(name: Option<&str>) -> Option<Seq<char>> {
    match name {
        Some(n) => Some(n@),
        None => None,
    }
}

/// The line that goes with a record: one for every record with a body, under
/// the level of the record's severity, with the body as message and the same
/// attributes in the same order. A record without a body has no line.
pub open spec fn line_for(
    severity: Severity,
    target: Seq<char>,
    body: Option<ValueView>,
    attributes: Seq<KeyValueView>,
) -> Option<LogLineView> {
    match body {
        Some(b) => Some(
            LogLineView {
                level: level_of(severity),
                target,
                message: rendered(b),
                body: b,
                attributes,
            },
        ),
        None => None,
    }
}

/// Builds a log record and the line that goes with it. The record holds what
/// was given: the severity, the event name and the body where there is one,
/// and the attributes in the order given.
pub fn create_log_record(
    severity: Severity,
    target: &str,
    name: Option<&str>,
    body: Option<Value>,
    attributes: &[(Key, Value)],
) -> (output: (LogRecord, Option<LogLine>))
    ensures
        output.0@ == (LogRecordView {
            severity,
            event_name: name_view(name),
            body: value_view(body),
            attributes: pairs_view(attributes@),
        }),
        line_view(output.1) == line_for(
            severity,
            target@,
            value_view(body),
            pairs_view(attributes@),
        ),
{
    let event_name = match name {
        Some(n) => Some(String::from_str(n)),
        None => None,
    };
    let line = match &body {
        Some(b) => Some(
            LogLine {
                level: log_level(severity),
                target: String::from_str(target),
                message: render_body(b),
                body: b.clone(),
                attributes: clone_pairs(attributes),
            },
        ),
        None => None,
    };
    let record = LogRecord { severity, event_name, body, attributes: clone_pairs(attributes) };
    (record, line)
}

/// A log record of the given severity with `body` as its body.
pub fn log(
    target: &str,
    name: Option<&str>,
    severity: Severity,
    body: Value,
    attributes: &[(Key, Value)],
) -> (output: (LogRecord, Option<LogLine>))
    ensures
        output.0@ == (LogRecordView {
            severity,
            event_name: name_view(name),
            body: Some(body@),
            attributes: pairs_view(attributes@),
        }),
        line_view(output.1) == line_for(
            severity,
            target@,
            Some(body@),
            pairs_view(attributes@),
        ),
{
    create_log_record(severity, target, name, Some(body), attributes)
}

/// A log record of severity `Error`.
pub fn error_log(target: &str, name: Option<&str>, body: Value, attributes: &[(Key, Value)]) -> (output:
    (LogRecord, Option<LogLine>))
    ensures
        output.0@ == (LogRecordView {
            severity: Severity::Error,
            event_name: name_view(name),
            body: Some(body@),
            attributes: pairs_view(attributes@),
        }),
        line_view(output.1) == line_for(
            Severity::Error,
            target@,
            Some(body@),
            pairs_view(attributes@),
        ),
{
    log(target, name, Severity::Error, body, attributes)
}

/// A log record of severity `Warn`.
pub fn warn_log(target: &str, name: Option<&str>, body: Value, attributes: &[(Key, Value)]) -> (output:
    (LogRecord, Option<LogLine>))
    ensures
        output.0@ == (LogRecordView {
            severity: Severity::Warn,
            event_name: name_view(name),
            body: Some(body@),
            attributes: pairs_view(attributes@),
        }),
        line_view(output.1) == line_for(
            Severity::Warn,
            target@,
            Some(body@),
            pairs_view(attributes@),
        ),
{
    log(target, name, Severity::Warn, body, attributes)
}

/// A log record of severity `Info`.
pub fn info_log(target: &str, name: Option<&str>, body: Value, attributes: &[(Key, Value)]) -> (output:
    (LogRecord, Option<LogLine>))
    ensures
        output.0@ == (LogRecordView {
            severity: Severity::Info,
            event_name: name_view(name),
            body: Some(body@),
            attributes: pairs_view(attributes@),
        }),
        line_view(output.1) == line_for(
            Severity::Info,
            target@,
            Some(body@),
            pairs_view(attributes@),
        ),
{
    log(target, name, Severity::Info, body, attributes)
}

/// A log record of severity `Debug`.
pub fn debug_log(target: &str, name: Option<&str>, body: Value, attributes: &[(Key, Value)]) -> (output:
    (LogRecord, Option<LogLine>))
    ensures
        output.0@ == (LogRecordView {
            severity: Severity::Debug,
            event_name: name_view(name),
            body: Some(body@),
            attributes: pairs_view(attributes@),
        }),
        line_view(output.1) == line_for(
            Severity::Debug,
            target@,
            Some(body@),
            pairs_view(attributes@),
        ),
{
    log(target, name, Severity::Debug, body, attributes)
}

/// A log record of severity `Trace`.
pub fn trace_log(target: &str, name: Option<&str>, body: Value, attributes: &[(Key, Value)]) -> (output:
    (LogRecord, Option<LogLine>))
    ensures
        output.0@ == (LogRecordView {
            severity: Severity::Trace,
            event_name: name_view(name),
            body: Some(body@),
            attributes: pairs_view(attributes@),
        }),
        line_view(output.1) == line_for(
            Severity::Trace,
            target@,
            Some(body@),
            pairs_view(attributes@),
        ),
{
    log(target, name, Severity::Trace, body, attributes)
}

} // verus!
