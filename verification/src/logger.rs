//! The engine's system log: an append-only list of timestamped entries,
//! with two display switches that decide how an entry is rendered.

use vstd::prelude::*;

use crate::clock::{chrono_like_now, clock_text, format_clock, is_clock_reading_text, is_clock_text};

verus! {

/// Severity of a log entry.
#[derive(Debug, Clone, Copy, PartialEq, Eq, Structural)]
pub enum LogLevel {
    Info,
    Warn,
    Error,
}

impl LogLevel {
    /// The text that stands for the level in a rendered log line.
    pub open spec fn label_text(self) -> Seq<char> {
        match self {
            LogLevel::Info => "INFO"@,
            LogLevel::Warn => "WARN"@,
            LogLevel::Error => "ERROR"@,
        }
    }

    /// The level's label: `INFO`, `WARN` or `ERROR`.
    pub fn label(&self) -> (r: &'static str)
        ensures
            r@ == self.label_text(),
    {
        match self {
            LogLevel::Info => "INFO",
            LogLevel::Warn => "WARN",
            LogLevel::Error => "ERROR",
        }
    }
}

/// One line of the log: when it was written, how severe it is, and what it says.
#[derive(Debug)]
pub struct LogEntry {
    pub timestamp: String,
    pub level: LogLevel,
    pub message: String,
}

impl Clone for LogEntry {
    fn clone(&self) -> (r: Self)
        ensures
            r@ == self@,
    {
        LogEntry {
            timestamp: self.timestamp.clone(),
            level: self.level,
            message: self.message.clone(),
        }
    }
}

/// A log entry as plain values.
#[verifier::ext_equal]
pub struct EntryView {
    pub timestamp: Seq<char>,
    pub level: LogLevel,
    pub message: Seq<char>,
}

impl View for LogEntry {
    type V = EntryView;

    open spec fn view(&self) -> EntryView {
        EntryView { timestamp: self.timestamp@, level: self.level, message: self.message@ }
    }
}

/// The whole state of a logger: its entries, oldest first, and its two
/// display switches.
#[verifier::ext_equal]
pub struct LoggerView {
    pub entries: Seq<EntryView>,
    pub show_timestamp: bool,
    pub show_level: bool,
}

impl LoggerView {
    /// A fresh logger: no entries, timestamps and levels both shown.
    pub open spec fn initial() -> LoggerView {
        LoggerView { entries: Seq::empty(), show_timestamp: true, show_level: true }
    }

    /// The state after `e` is written at the end of the log.
    pub open spec fn appended(self, e: EntryView) -> LoggerView {
        LoggerView {
            entries: self.entries.push(e),
            show_timestamp: self.show_timestamp,
            show_level: self.show_level,
        }
    }

    /// The state after every entry is dropped; the switches stay.
    pub open spec fn cleared(self) -> LoggerView {
        LoggerView {
            entries: Seq::empty(),
            show_timestamp: self.show_timestamp,
            show_level: self.show_level,
        }
    }

    /// The state after the timestamp switch is set to `value`.
    pub open spec fn with_show_timestamp(self, value: bool) -> LoggerView {
        LoggerView { entries: self.entries, show_timestamp: value, show_level: self.show_level }
    }

    /// The state after the level switch is set to `value`.
    pub open spec fn with_show_level(self, value: bool) -> LoggerView {
        LoggerView {
            entries: self.entries,
            show_timestamp: self.show_timestamp,
            show_level: value,
        }
    }

    /// Every entry carries the time of day at which it was written.
    pub open spec fn timestamps_are_clock_text(self) -> bool {
        forall|i: int| 0 <= i < self.entries.len() ==> is_clock_text(#[trigger] self.entries[i].timestamp)
    }

    /// How `e` is shown under the logger's switches: `[timestamp] ` where
    /// timestamps are shown, `[LEVEL] ` where levels are shown, then the message.
    pub open spec fn render(self, e: EntryView) -> Seq<char> {
        (if self.show_timestamp { "["@ + e.timestamp + "] "@ } else { Seq::empty() })
            + (if self.show_level { "["@ + e.level.label_text() + "] "@ } else { Seq::empty() })
            + e.message
    }
}

/// One logger operation that changes its state, as the operations'
/// contracts describe it: writing an entry (`log`, `log_at`, `info`, `warn`,
/// `error`), `clear`, or setting one of the two switches.
pub enum LoggerOp {
    Write(EntryView),
    Clear,
    SetShowTimestamp(bool),
    SetShowLevel(bool),
}

impl LoggerView {
    /// The state after `op`.
    pub open spec fn apply(self, op: LoggerOp) -> LoggerView {
        match op {
            LoggerOp::Write(e) => self.appended(e),
            LoggerOp::Clear => self.cleared(),
            LoggerOp::SetShowTimestamp(value) => self.with_show_timestamp(value),
            LoggerOp::SetShowLevel(value) => self.with_show_level(value),
        }
    }

    /// The state after the operations `ops`, first to last.
    pub open spec fn run(self, ops: Seq<LoggerOp>) -> LoggerView
        decreases ops.len(),
    {
        if ops.len() == 0 {
            self
        } else {
            self.run(ops.drop_last()).apply(ops.last())
        }
    }
}

/// The entries written by `ops` after their last `Clear` (all of them where
/// there is none), in the order in which they were written.
pub open spec fn written_since_clear(ops: Seq<LoggerOp>) -> Seq<EntryView>
    decreases ops.len(),
{
    if ops.len() == 0 {
        Seq::empty()
    } else {
        match ops.last() {
            LoggerOp::Write(e) => written_since_clear(ops.drop_last()).push(e),
            LoggerOp::Clear => Seq::empty(),
            _ => written_since_clear(ops.drop_last()),
        }
    }
}

/// The value of the last `SetShowTimestamp` in `ops`, or `initial` where there is none.
pub open spec fn last_timestamp_setting(ops: Seq<LoggerOp>, initial: bool) -> bool
    decreases ops.len(),
{
    if ops.len() == 0 {
        initial
    } else {
        match ops.last() {
            LoggerOp::SetShowTimestamp(value) => value,
            _ => last_timestamp_setting(ops.drop_last(), initial),
        }
    }
}

/// The value of the last `SetShowLevel` in `ops`, or `initial` where there is none.
pub open spec fn last_level_setting(ops: Seq<LoggerOp>, initial: bool) -> bool
    decreases ops.len(),
{
    if ops.len() == 0 {
        initial
    } else {
        match ops.last() {
            LoggerOp::SetShowLevel(value) => value,
            _ => last_level_setting(ops.drop_last(), initial),
        }
    }
}

/// The system log.
pub struct Logger {
    entries: Vec<LogEntry>,
    show_timestamp: bool,
    show_level: bool,
}

impl View for Logger {
    type V = LoggerView;

    closed spec fn view(&self) -> LoggerView {
        LoggerView {
            entries: self.entries@.map_values(|e: LogEntry| e@),
            show_timestamp: self.show_timestamp,
            show_level: self.show_level,
        }
    }
}

impl Logger {
    #[verifier::type_invariant]
    closed spec fn entries_have_clock_timestamps(self) -> bool {
        forall|i: int|
            0 <= i < self.entries@.len() ==> is_clock_text(#[trigger] self.entries@[i].timestamp@)
    }

    /// An empty log that shows timestamps and levels.
    pub fn new() -> (r: Self)
        ensures
            r@ == LoggerView::initial(),
    {
        let r = Self { entries: Vec::new(), show_timestamp: true, show_level: true };
        assert(r@.entries =~= Seq::<EntryView>::empty());
        r
    }

    fn push_entry(&mut self, entry: LogEntry)
        requires
            is_clock_text(entry.timestamp@),
        ensures
            final(self)@ == old(self)@.appended(entry@),
    {
        proof {
            use_type_invariant(&*self);
        }
        let mut entries: Vec<LogEntry> = Vec::new();
        std::mem::swap(&mut entries, &mut self.entries);
        let ghost before = entries@;
        entries.push(entry);
        assert(entries@.map_values(|e: LogEntry| e@) =~= before.map_values(|e: LogEntry| e@).push(
            entry@,
        ));
        self.entries = entries;
    }

    /// Writes an entry of the given level and message, stamped with the
    /// current time of day, at the end of the log.
    pub fn log(&mut self, level: LogLevel, message: &str)
        ensures
            is_clock_text(final(self)@.entries.last().timestamp),
            is_clock_reading_text(final(self)@.entries.last().timestamp),
            final(self)@ == old(self)@.appended(
                (EntryView {
                    timestamp: final(self)@.entries.last().timestamp,
                    level: level,
                    message: message@,
                }),
            ),
    {
        let now = chrono_like_now();
        let entry = LogEntry { timestamp: now, level, message: message.to_owned() };
        self.push_entry(entry);
    }

    /// Writes an entry of the given level and message, stamped with the time
    /// of day of the instant `secs` seconds and `millis` milliseconds after
    /// the Unix epoch, at the end of the log.
    pub fn log_at(&mut self, level: LogLevel, message: &str, secs: u64, millis: u32)
        requires
            millis < 1000,
        ensures
            final(self)@ == old(self)@.appended(
                (EntryView {
                    timestamp: clock_text(secs as int, millis as int),
                    level: level,
                    message: message@,
                }),
            ),
    {
        let stamp = format_clock(secs, millis);
        assert(is_clock_text(stamp@));
        let entry = LogEntry { timestamp: stamp, level, message: message.to_owned() };
        self.push_entry(entry);
    }

    /// Writes an `Info` entry.
    pub fn info(&mut self, message: &str)
        ensures
            is_clock_text(final(self)@.entries.last().timestamp),
            is_clock_reading_text(final(self)@.entries.last().timestamp),
            final(self)@ == old(self)@.appended(
                (EntryView {
                    timestamp: final(self)@.entries.last().timestamp,
                    level: LogLevel::Info,
                    message: message@,
                }),
            ),
    {
        self.log(LogLevel::Info, message);
    }

    /// Writes a `Warn` entry.
    pub fn warn(&mut self, message: &str)
        ensures
            is_clock_text(final(self)@.entries.last().timestamp),
            is_clock_reading_text(final(self)@.entries.last().timestamp),
            final(self)@ == old(self)@.appended(
                (EntryView {
                    timestamp: final(self)@.entries.last().timestamp,
                    level: LogLevel::Warn,
                    message: message@,
                }),
            ),
    {
        self.log(LogLevel::Warn, message);
    }

    /// Writes an `Error` entry.
    pub fn error(&mut self, message: &str)
        ensures
            is_clock_text(final(self)@.entries.last().timestamp),
            is_clock_reading_text(final(self)@.entries.last().timestamp),
            final(self)@ == old(self)@.appended(
                (EntryView {
                    timestamp: final(self)@.entries.last().timestamp,
                    level: LogLevel::Error,
                    message: message@,
                }),
            ),
    {
        self.log(LogLevel::Error, message);
    }

    /// All entries, oldest first. Each one's timestamp is a time of day.
    pub fn entries(&self) -> (r: &[LogEntry])
        ensures
            r@.len() == self@.entries.len(),
            forall|i: int| 0 <= i < r@.len() ==> (#[trigger] r@[i])@ == self@.entries[i],
            forall|i: int| 0 <= i < r@.len() ==> is_clock_text(#[trigger] r@[i].timestamp@),
    {
        proof {
            use_type_invariant(self);
        }
        self.entries.as_slice()
    }

    /// Drops every entry; the display switches stay as they were.
    pub fn clear(&mut self)
        ensures
            final(self)@ == old(self)@.cleared(),
    {
        let mut entries: Vec<LogEntry> = Vec::new();
        std::mem::swap(&mut entries, &mut self.entries);
        entries.clear();
        self.entries = entries;
        assert(self@.entries =~= Seq::<EntryView>::empty());
    }

    /// Whether rendered lines start with the entry's timestamp.
    pub fn show_timestamp(&self) -> (r: bool)
        ensures
            r == self@.show_timestamp,
    {
        self.show_timestamp
    }

    /// Sets whether rendered lines start with the entry's timestamp.
    pub fn set_show_timestamp(&mut self, value: bool)
        ensures
            final(self)@ == old(self)@.with_show_timestamp(value),
    {
        proof {
            use_type_invariant(&*self);
        }
        self.show_timestamp = value;
    }

    /// Whether rendered lines show the entry's level.
    pub fn show_level(&self) -> (r: bool)
        ensures
            r == self@.show_level,
    {
        self.show_level
    }

    /// Sets whether rendered lines show the entry's level.
    pub fn set_show_level(&mut self, value: bool)
        ensures
            final(self)@ == old(self)@.with_show_level(value),
    {
        proof {
            use_type_invariant(&*self);
        }
        self.show_level = value;
    }

    /// The line that shows `entry` under this logger's switches.
    pub fn render_entry(&self, entry: &LogEntry) -> (r: String)
        ensures
            r@ == self@.render(entry@),
    {
        let mut parts = String::new();
        if self.show_timestamp {
            parts.append("[");
            parts.append(entry.timestamp.as_str());
            parts.append("] ");
        }
        if self.show_level {
            parts.append("[");
            parts.append(entry.level.label());
            parts.append("] ");
        }
        parts.append(entry.message.as_str());
        parts
    }
}

impl Default for Logger {
    fn default() -> (r: Self)
        ensures
            r@ == LoggerView::initial(),
    {
        Self::new()
    }
}

} // verus!
