//! The event log: what the session manager tells its user, in the order in
//! which it was said.

use vstd::prelude::*;
use vstd::string::StringExecFns;

verus! {

/// How an entry of the event log is meant.
#[derive(Clone, Copy, Debug, PartialEq, Eq, Structural)]
pub enum Severity {
    Info,
    Error,
}

impl Severity {
    /// The style class under which an entry of this severity is shown.
    pub open spec fn spec_class_name(self) -> Seq<char> {
        match self {
            Severity::Info => "log-info"@,
            Severity::Error => "log-error"@,
        }
    }

    /// The style class under which an entry of this severity is shown.
    pub fn class_name(self) -> (name: &'static str)
        ensures
            name@ == self.spec_class_name(),
    {
        match self {
            Severity::Info => "log-info",
            Severity::Error => "log-error",
        }
    }
}

/// One entry of the event log.
#[derive(Debug, PartialEq, Eq)]
pub struct EventLogEntry {
    pub message: String,
    pub severity: Severity,
}

/// What an entry of the event log says: its text and its severity.
pub struct LogRecord {
    pub message: Seq<char>,
    pub severity: Severity,
}

impl LogRecord {
    /// The record of an informational entry.
    pub open spec fn info(message: Seq<char>) -> LogRecord {
        LogRecord { message, severity: Severity::Info }
    }

    /// The record of an error entry.
    pub open spec fn error(message: Seq<char>) -> LogRecord {
        LogRecord { message, severity: Severity::Error }
    }
}

impl View for EventLogEntry {
    type V = LogRecord;

    open spec fn view(&self) -> LogRecord {
        LogRecord { message: self.message@, severity: self.severity }
    }
}

/// The records of a sequence of entries, in the same order.
pub open spec fn records(entries: Seq<EventLogEntry>) -> Seq<LogRecord> {
    entries.map_values(|entry: EventLogEntry| entry@)
}

/// The event log. Entries are only ever added at its end; none is changed
/// or removed.
#[derive(Debug)]
pub struct Logger {
    entries: Vec<EventLogEntry>,
}

impl View for Logger {
    type V = Seq<LogRecord>;

    closed spec fn view(&self) -> Seq<LogRecord> {
        records(self.entries@)
    }
}

impl Logger {
    /// An empty log.
    pub fn new() -> (logger: Self)
        ensures
            logger@ == Seq::<LogRecord>::empty(),
    {
        let logger = Logger { entries: Vec::new() };
        assert(logger@ =~= Seq::<LogRecord>::empty());
        logger
    }

    /// Adds an entry with the given text and severity at the end of the log.
    pub fn add_to_event_log_with_severity(&mut self, text: &str, severity: Severity)
        ensures
            final(self)@ == old(self)@.push(LogRecord { message: text@, severity }),
    {
        let entry = EventLogEntry { message: String::from_str(text), severity };
        self.entries.push(entry);
        assert(self@ =~= old(self)@.push(LogRecord { message: text@, severity }));
    }

    /// Adds an informational entry at the end of the log.
    pub fn add_to_event_log(&mut self, text: &str)
        ensures
            final(self)@ == old(self)@.push(LogRecord::info(text@)),
    {
        self.add_to_event_log_with_severity(text, Severity::Info);
    }

    /// Adds an error entry at the end of the log.
    pub fn add_to_event_log_error(&mut self, text: &str)
        ensures
            final(self)@ == old(self)@.push(LogRecord::error(text@)),
    {
        self.add_to_event_log_with_severity(text, Severity::Error);
    }

    /// The entries of the log, oldest first.
    pub fn entries(&self) -> (entries: &Vec<EventLogEntry>)
        ensures
            records(entries@) == self@,
    {
        &self.entries
    }
}

} // verus!
