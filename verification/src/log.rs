//! Log lines: what a line says for a level and a message, and which output
//! stream it goes to. Writing the line is the caller's part.

use std::fmt::Write;
use vstd::prelude::*;
use vstd::string::*;

verus! {

/// How severe a log line is.
#[derive(Debug, Clone, Copy, PartialEq, Eq, Structural)]
pub enum LogLevel {
    /// A line without a label.
    Null,
    /// Something that happened.
    Info,
    /// Something that may need attention.
    Warn,
    /// Something that went wrong.
    Error,
}

/// The two output streams of the process.
#[derive(Debug, Clone, Copy, PartialEq, Eq, Structural)]
pub enum LogStream {
    /// The standard output stream.
    Stdout,
    /// The error output stream.
    Stderr,
}

/// The escape sequence that sets the foreground colour back to the default.
pub open spec fn reset_code() -> Seq<char> {
    "\u{1b}[39m"@
}

impl LogLevel {
    /// The label that starts the line's text.
    pub open spec fn label(self) -> Seq<char> {
        match self {
            LogLevel::Null => ""@,
            LogLevel::Info => "INFO: "@,
            LogLevel::Warn => "WARN: "@,
            LogLevel::Error => "ERROR: "@,
        }
    }

    /// The escape sequence of the level's colour: blue for `Info`, yellow for
    /// `Warn`, red for `Error`, and none for `Null`.
    pub open spec fn paint(self) -> Seq<char> {
        match self {
            LogLevel::Null => Seq::empty(),
            LogLevel::Info => "\u{1b}[38;5;4m"@,
            LogLevel::Warn => "\u{1b}[38;5;3m"@,
            LogLevel::Error => "\u{1b}[38;5;1m"@,
        }
    }

    /// The stream that lines of this level go to: errors to the error stream,
    /// everything else to the standard output.
    pub open spec fn target(self) -> LogStream {
        if self == LogLevel::Error {
            LogStream::Stderr
        } else {
            LogStream::Stdout
        }
    }

    /// The label that starts the line's text.
    pub fn label_text(self) -> (label: &'static str)
        ensures
            label@ == self.label(),
    {
        match self {
            LogLevel::Null => "",
            LogLevel::Info => "INFO: ",
            LogLevel::Warn => "WARN: ",
            LogLevel::Error => "ERROR: ",
        }
    }

    /// The stream that lines of this level go to.
    pub fn stream(self) -> (stream: LogStream)
        ensures
            stream == self.target(),
    {
        match self {
            LogLevel::Error => LogStream::Stderr,
            _ => LogStream::Stdout,
        }
    }
}

/// What `chrono` writes for the UTC instant `seconds` and `nanos` after the
/// Unix epoch under the strftime pattern `pattern`; `None` where the instant
/// is out of `chrono`'s range or the pattern is not one it can format.
pub uninterp spec fn formatted_utc(seconds: int, nanos: int, pattern: Seq<char>) -> Option<Seq<char>>;

/// Formats an instant with `chrono`: `DateTime::from_timestamp` makes the UTC
/// date-time, `DateTime::format` renders it under `pattern`. The contract only
/// names the result: the same instant and pattern always give the same text,
/// and `None` stands for an instant that `from_timestamp` refuses or a pattern
/// that the formatter reports as an error.
#[verifier::external_body]
fn utc_text(seconds: i64, nanos: u32, pattern: &str) -> (out: Option<String>)
    ensures
        match out {
            Some(text) => formatted_utc(seconds as int, nanos as int, pattern@) == Some(text@),
            None => formatted_utc(seconds as int, nanos as int, pattern@) is None,
        },
{
    let moment = chrono::DateTime::from_timestamp(seconds, nanos)?;
    let mut text = String::new();
    match write!(text, "{}", moment.format(pattern)) {
        Ok(()) => Some(text),
        Err(_) => None,
    }
}

/// What `termion` writes for `color::Fg(color::Blue)`: the escape sequence
/// for colour 4, or nothing where colours are switched off in the process's
/// environment.
#[verifier::external_body]
fn blue_paint() -> (code: String)
    ensures
        code@ == Seq::<char>::empty() || code@ == LogLevel::Info.paint(),
{
    format!("{}", termion::color::Fg(termion::color::Blue))
}

/// What `termion` writes for `color::Fg(color::Yellow)`: the escape sequence
/// for colour 3, or nothing where colours are switched off in the process's
/// environment.
#[verifier::external_body]
fn yellow_paint() -> (code: String)
    ensures
        code@ == Seq::<char>::empty() || code@ == LogLevel::Warn.paint(),
{
    format!("{}", termion::color::Fg(termion::color::Yellow))
}

/// What `termion` writes for `color::Fg(color::Red)`: the escape sequence for
/// colour 1, or nothing where colours are switched off in the process's
/// environment.
#[verifier::external_body]
fn red_paint() -> (code: String)
    ensures
        code@ == Seq::<char>::empty() || code@ == LogLevel::Error.paint(),
{
    format!("{}", termion::color::Fg(termion::color::Red))
}

/// What `termion` writes for `color::Fg(color::Reset)`: always the escape
/// sequence that restores the default foreground.
#[verifier::external_body]
fn reset_paint() -> (code: String)
    ensures
        code@ == reset_code(),
{
    format!("{}", termion::color::Fg(termion::color::Reset))
}

/// The text of a log line: the time stamp and a space where there is a stamp,
/// the colour, the level's label, the colour reset, and the message.
pub open spec fn log_line(
    stamp: Option<Seq<char>>,
    paint: Seq<char>,
    level: LogLevel,
    reset: Seq<char>,
    msg: Seq<char>,
) -> Seq<char> {
    (match stamp {
        Some(text) => text + " "@,
        None => Seq::empty(),
    }) + paint + level.label() + reset + msg
}

/// Puts a log line together from its parts.
pub fn compose(stamp: Option<&str>, paint: &str, level: LogLevel, reset: &str, msg: &str) -> (line:
    String)
    ensures
        line@ == log_line(
            match stamp {
                Some(text) => Some(text@),
                None => None,
            },
            paint@,
            level,
            reset@,
            msg@,
        ),
{
    let mut line = String::new();
    if let Some(text) = stamp {
        line.append(text);
        line.append(" ");
    }
    line.append(paint);
    line.append(level.label_text());
    line.append(reset);
    line.append(msg);
    assert(line@ =~= log_line(
        match stamp {
            Some(text) => Some(text@),
            None => None,
        },
        paint@,
        level,
        reset@,
        msg@,
    ));
    line
}

/// One log line, ready to be written.
#[derive(Debug, Clone, PartialEq, Eq)]
pub struct LogRecord {
    /// The stream to write to.
    pub stream: LogStream,
    /// The text of the line, without the line break.
    pub text: String,
}

/// Renders log lines with an optional time stamp and optional colours.
#[derive(Debug, Clone, PartialEq, Eq)]
pub struct Logger {
    time: String,
    color: bool,
}

impl Logger {
    /// The strftime pattern of the time stamp; empty for no stamp.
    pub closed spec fn time(&self) -> Seq<char> {
        self.time@
    }

    /// Whether lines are coloured by level.
    pub closed spec fn color(&self) -> bool {
        self.color
    }

    /// The stamp of a line logged at the given instant: none without a
    /// pattern, else what the pattern gives for the instant.
    pub open spec fn stamp(&self, seconds: int, nanos: int) -> Option<Seq<char>> {
        if self.time().len() == 0 {
            None
        } else {
            formatted_utc(seconds, nanos, self.time())
        }
    }

    /// A logger that stamps lines under the pattern `time` (no stamp where it
    /// is empty) and colours them where `color` is set.
    pub fn new(time: String, color: bool) -> (logger: Logger)
        ensures
            logger.time() == time@,
            logger.color() == color,
    {
        Self { time, color }
    }

    /// Renders the line for `msg` at `level`, logged `seconds` and `nanos`
    /// after the Unix epoch. The line goes to the level's stream. Its text is
    /// the stamp, the level's colour, the label, the colour reset and the
    /// message; the colour is left out where the logger does not colour, and
    /// may be left out where the environment switches colours off.
    pub fn log(&self, level: LogLevel, seconds: i64, nanos: u32, msg: &str) -> (record: LogRecord)
        ensures
            record.stream == level.target(),
            record.text@ == log_line(
                self.stamp(seconds as int, nanos as int),
                Seq::empty(),
                level,
                reset_code(),
                msg@,
            ) || (self.color() && record.text@ == log_line(
                self.stamp(seconds as int, nanos as int),
                level.paint(),
                level,
                reset_code(),
                msg@,
            )),
    {
        let stamp = if self.time.as_str().is_empty() {
            None
        } else {
            utc_text(seconds, nanos, self.time.as_str())
        };
        let paint = if self.color {
            match level {
                LogLevel::Null => String::new(),
                LogLevel::Info => blue_paint(),
                LogLevel::Warn => yellow_paint(),
                LogLevel::Error => red_paint(),
            }
        } else {
            String::new()
        };
        let reset = reset_paint();
        let text = match &stamp {
            Some(text) => compose(Some(text.as_str()), paint.as_str(), level, reset.as_str(), msg),
            None => compose(None, paint.as_str(), level, reset.as_str(), msg),
        };
        LogRecord { stream: level.stream(), text }
    }
}

} // verus!
