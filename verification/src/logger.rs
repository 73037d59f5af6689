//! A logger that filters messages by level and composes their lines.
//!
//! The logger decides and composes; it writes nothing. `Logger::log` hands
//! back the line of a message that passes the filter, and its caller owns
//! the sink and the lock around it.

use crate::clock::{local_text_at, utc_calendar};
use crate::timestamp::{whole_seconds_of, ClockError, Timestamp};
use vstd::prelude::*;
use vstd::string::*;

verus! {

/// The level of a message, in the order in which the filter ranks them.
#[derive(Clone, Copy, Debug, PartialEq, Eq, Structural)]
pub enum LogLevel {
    Info,
    Error,
    Fatal,
    Debug,
}

impl LogLevel {
    /// The place of the level in the declaration: `Info` is 0, `Error` 1,
    /// `Fatal` 2 and `Debug` 3. The filter compares these numbers and
    /// nothing else, so `Debug` ranks above `Fatal`.
    pub open spec fn rank(self) -> int {
        match self {
            LogLevel::Info => 0,
            LogLevel::Error => 1,
            LogLevel::Fatal => 2,
            LogLevel::Debug => 3,
        }
    }

    /// The tag that opens a line of this level.
    pub open spec fn tag_text(self) -> Seq<char> {
        match self {
            LogLevel::Info => "[INFO]"@,
            LogLevel::Error => "[ERROR]"@,
            LogLevel::Fatal => "[FATAL]"@,
            LogLevel::Debug => "[DEBUG]"@,
        }
    }

    /// The rank of the level as a number.
    pub fn rank_number(&self) -> (rank: u8)
        ensures
            rank == self.rank(),
    {
        match self {
            LogLevel::Info => 0,
            LogLevel::Error => 1,
            LogLevel::Fatal => 2,
            LogLevel::Debug => 3,
        }
    }

    /// The tag that opens a line of this level.
    pub fn tag(&self) -> (tag: &'static str)
        ensures
            tag@ == self.tag_text(),
    {
        match self {
            LogLevel::Info => "[INFO]",
            LogLevel::Error => "[ERROR]",
            LogLevel::Fatal => "[FATAL]",
            LogLevel::Debug => "[DEBUG]",
        }
    }
}

/// The line of a message: the tag of its level, the time, a colon, the
/// message, and the end of the line.
pub open spec fn line_text(level: LogLevel, time: Seq<char>, msg: Seq<char>) -> Seq<char> {
    level.tag_text() + time + seq![':'] + msg + seq!['\n']
}

/// Whether `text` is a line of `msg` at level `level`: the tag, a time of
/// 19 characters or more, a colon, the message and the end of the line.
pub open spec fn is_line_of(text: Seq<char>, level: LogLevel, msg: Seq<char>) -> bool {
    exists|time: Seq<char>| time.len() >= 19 && text == #[trigger] line_text(level, time, msg)
}

/// Composes the line of a message of level `level`, logged at the time
/// that `time` spells.
pub fn format_line(level: LogLevel, time: &str, msg: &str) -> (line: String)
    ensures
        line@ == line_text(level, time@, msg@),
{
    proof {
        reveal_strlit(":");
        reveal_strlit("\n");
        assert(":"@ =~= seq![':']);
        assert("\n"@ =~= seq!['\n']);
    }
    let mut line = String::from_str(level.tag());
    line.append(time);
    line.append(":");
    line.append(msg);
    line.append("\n");
    line
}

/// A logger: the level up to which messages pass.
pub struct Logger {
    log_level: LogLevel,
}

impl Logger {
    /// The level that the logger is set to.
    pub closed spec fn level(&self) -> LogLevel {
        self.log_level
    }

    /// Whether a message of level `level` passes the filter: its rank is
    /// not above the rank of the level that the logger is set to.
    pub open spec fn emits(&self, level: LogLevel) -> bool {
        level.rank() <= self.level().rank()
    }

    /// A logger set to `Info`.
    pub fn new() -> (logger: Self)
        ensures
            logger.level() == LogLevel::Info,
    {
        Logger { log_level: LogLevel::Info }
    }

    /// The level that the logger is set to.
    pub fn log_level(&self) -> (level: LogLevel)
        ensures
            level == self.level(),
    {
        self.log_level
    }

    /// Sets the level up to which messages pass from now on.
    pub fn set_log_level(&mut self, level: LogLevel)
        ensures
            final(self).level() == level,
    {
        self.log_level = level;
    }

    /// Whether a message of level `level` passes the filter.
    pub fn would_log(&self, level: LogLevel) -> (passes: bool)
        ensures
            passes == self.emits(level),
    {
        level.rank_number() <= self.log_level.rank_number()
    }

    /// Logs `msg` at level `level` as at the instant `at`: gives nothing
    /// for a message that the filter holds back, and else the line to
    /// write, stamped with the time that the machine's zone shows for the
    /// whole seconds of `at`. Where the calendar does not reach them, there
    /// is no such time, and the error says so.
    pub fn log_at(&self, level: LogLevel, msg: &str, at: Timestamp) -> (line: Result<
        Option<String>,
        ClockError,
    >)
        ensures
            match line {
                Ok(None) => !self.emits(level),
                Ok(Some(text)) => self.emits(level) && utc_calendar(whole_seconds_of(at@)) is Some
                    && is_line_of(text@, level, msg@),
                Err(error) => self.emits(level) && utc_calendar(whole_seconds_of(at@)) is None
                    && error == ClockError::OutOfRange,
            },
    {
        if !self.would_log(level) {
            return Ok(None);
        }
        match local_text_at(at.whole_seconds(), "%Y-%m-%d %H:%M:%S") {
            Some(time) => {
                let text = format_line(level, time.as_str(), msg);
                assert(time@.len() >= 19 && text@ == line_text(level, time@, msg@));
                Ok(Some(text))
            },
            None => Err(ClockError::OutOfRange),
        }
    }

    /// Logs `msg` at level `level`: gives nothing for a message that the
    /// filter holds back, without a look at the clock, and else the line to
    /// write, stamped with the local time of this call. A clock that
    /// stands before the epoch or beyond the calendar has no such time, and
    /// the error says which.
    pub fn log(&self, level: LogLevel, msg: &str) -> (line: Result<Option<String>, ClockError>)
        ensures
            !self.emits(level) ==> line matches Ok(None),
            self.emits(level) ==> match line {
                Ok(Some(text)) => is_line_of(text@, level, msg@),
                Ok(None) => false,
                Err(_) => true,
            },
    {
        if !self.would_log(level) {
            return Ok(None);
        }
        match Timestamp::now() {
            Ok(at) => self.log_at(level, msg, at),
            Err(error) => Err(error),
        }
    }
}

} // verus!
