//! The editor's console state: the system log, the result of the last
//! platform call that the user ran, and the auto-refresh switch. The
//! window, the clock-driven frame statistics and the platform calls
//! themselves live with the user interface; what they decide on the log and
//! on the shown result is here.

use vstd::prelude::*;

use crate::clock::{is_clock_reading_text, is_clock_text};
use crate::logger::{EntryView, LogLevel, Logger, LoggerView};
use crate::platform::{PlatformKind, PlatformResult};

verus! {

/// The console state as plain values.
#[verifier::ext_equal]
pub struct ConsoleView {
    pub log: LoggerView,
    pub last_result: Seq<char>,
    pub last_result_ok: bool,
    pub auto_refresh_time: bool,
}

/// The messages written at start-up, in order, for a backend of kind `kind`.
pub open spec fn startup_messages(kind: PlatformKind) -> Seq<Seq<char>> {
    seq![
        "Jade Engine MVP starting up..."@,
        "Loading Mock virtual platform adapter..."@,
        "Platform backend initialized: "@ + kind.label_text(),
        "PAL abstraction layer ready."@,
    ]
}

/// The text shown for the answer of a platform call.
pub open spec fn result_text(outcome: PlatformResult<String>) -> Seq<char> {
    match outcome {
        Ok(v) => v@,
        Err(e) => e.display_text(),
    }
}

/// The log message written for the answer of the platform call `name`.
pub open spec fn report_message(name: Seq<char>, outcome: PlatformResult<String>) -> Seq<char> {
    match outcome {
        Ok(v) => name + " => "@ + v@,
        Err(e) => name + " failed: "@ + e.display_text(),
    }
}

/// The level of the log entry written for the answer of a platform call.
pub open spec fn report_level(outcome: PlatformResult<String>) -> LogLevel {
    match outcome {
        Ok(_) => LogLevel::Info,
        Err(_) => LogLevel::Error,
    }
}

/// The editor's console state.
pub struct EditorConsole {
    logger: Logger,
    last_result: String,
    last_result_ok: bool,
    auto_refresh_time: bool,
}

impl View for EditorConsole {
    type V = ConsoleView;

    closed spec fn view(&self) -> ConsoleView {
        ConsoleView {
            log: self.logger@,
            last_result: self.last_result@,
            last_result_ok: self.last_result_ok,
            auto_refresh_time: self.auto_refresh_time,
        }
    }
}

impl EditorConsole {
    /// The console at start-up for a backend of kind `kind`: four `Info`
    /// entries announce the start, nothing has been run yet, auto-refresh is off.
    pub fn new(kind: PlatformKind) -> (r: Self)
        ensures
            r@.log.show_timestamp && r@.log.show_level,
            r@.log.timestamps_are_clock_text(),
            forall|i: int| 0 <= i < 4 ==> is_clock_reading_text(#[trigger] r@.log.entries[i].timestamp),
            r@.log.entries.len() == 4,
            forall|i: int| 0 <= i < 4 ==> (#[trigger] r@.log.entries[i]).level == LogLevel::Info,
            r@.log.entries.map_values(|e: EntryView| e.message) == startup_messages(kind),
            r@.last_result == "(no test executed yet)"@,
            r@.last_result_ok,
            !r@.auto_refresh_time,
    {
        let mut logger = Logger::new();
        logger.info("Jade Engine MVP starting up...");
        logger.info("Loading Mock virtual platform adapter...");
        let mut line = String::from_str("Platform backend initialized: ");
        line.append(kind.label());
        logger.info(line.as_str());
        logger.info("PAL abstraction layer ready.");
        let r = Self {
            logger,
            last_result: String::from_str("(no test executed yet)"),
            last_result_ok: true,
            auto_refresh_time: false,
        };
        assert(r@.log.entries.map_values(|e: EntryView| e.message) =~= startup_messages(kind));
        r
    }

    /// Shows the answer of the platform call `name` and logs it: a value
    /// becomes the shown result and an `Info` entry `name => value`; an error
    /// becomes the shown result, marked as failed, and an `Error` entry
    /// `name failed: Platform error: reason`.
    pub fn run_platform_test(&mut self, name: &str, outcome: PlatformResult<String>)
        ensures
            final(self)@.last_result == result_text(outcome),
            final(self)@.last_result_ok == outcome is Ok,
            final(self)@.auto_refresh_time == old(self)@.auto_refresh_time,
            is_clock_text(final(self)@.log.entries.last().timestamp),
            is_clock_reading_text(final(self)@.log.entries.last().timestamp),
            final(self)@.log == old(self)@.log.appended(
                (EntryView {
                    timestamp: final(self)@.log.entries.last().timestamp,
                    level: report_level(outcome),
                    message: report_message(name@, outcome),
                }),
            ),
    {
        match outcome {
            Ok(value) => {
                let mut line = String::from_str(name);
                line.append(" => ");
                line.append(value.as_str());
                self.last_result = value;
                self.last_result_ok = true;
                self.logger.info(line.as_str());
            },
            Err(err) => {
                let shown = err.to_string();
                let mut line = String::from_str(name);
                line.append(" failed: ");
                line.append(shown.as_str());
                self.last_result = shown;
                self.last_result_ok = false;
                self.logger.error(line.as_str());
            },
        }
    }

    /// Shows `text` as the latest time reading that auto-refresh took.
    pub fn record_auto_refresh(&mut self, text: String)
        ensures
            final(self)@ == (ConsoleView {
                last_result: text@,
                last_result_ok: true,
                ..old(self)@
            }),
    {
        self.last_result = text;
        self.last_result_ok = true;
    }

    /// The system log.
    pub fn logger(&self) -> (r: &Logger)
        ensures
            r@ == self@.log,
    {
        &self.logger
    }

    /// The system log, to write to or to switch its display.
    pub fn logger_mut(&mut self) -> (r: &mut Logger)
        ensures
            r@ == old(self)@.log,
            final(self)@ == (ConsoleView { log: final(r)@, ..old(self)@ }),
    {
        &mut self.logger
    }

    /// The shown result of the last platform call.
    pub fn last_result(&self) -> (r: &str)
        ensures
            r@ == self@.last_result,
    {
        self.last_result.as_str()
    }

    /// Whether the last platform call succeeded.
    pub fn last_result_ok(&self) -> (r: bool)
        ensures
            r == self@.last_result_ok,
    {
        self.last_result_ok
    }

    /// Whether the time reading refreshes by itself.
    pub fn auto_refresh_time(&self) -> (r: bool)
        ensures
            r == self@.auto_refresh_time,
    {
        self.auto_refresh_time
    }

    /// Switches the automatic time refresh on or off.
    pub fn set_auto_refresh_time(&mut self, value: bool)
        ensures
            final(self)@ == (ConsoleView { auto_refresh_time: value, ..old(self)@ }),
    {
        self.auto_refresh_time = value;
    }
}

} // verus!
