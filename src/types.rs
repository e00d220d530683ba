use vstd::prelude::*;

verus! {

/// Severity of a log record as storage keeps it: a small integer code.
#[derive(Clone, Copy, Debug, PartialEq, Eq, Structural)]
pub enum LogLevelInternal {
    DEBUG,
    INFO,
    WARNING,
    ERROR,
}

/// Severity of a log record as clients name it.
#[derive(Clone, Copy, Debug, PartialEq, Eq, Structural)]
pub enum LogLevel {
    DEBUG,
    INFO,
    WARNING,
    ERROR,
}

impl LogLevelInternal {
    /// The storage code of a level: 1 for DEBUG up to 4 for ERROR.
    pub open spec fn code_spec(self) -> u8 {
        match self {
            LogLevelInternal::DEBUG => 1,
            LogLevelInternal::INFO => 2,
            LogLevelInternal::WARNING => 3,
            LogLevelInternal::ERROR => 4,
        }
    }

    /// The level that a storage code stands for, if any.
    pub open spec fn from_code_spec(c: u8) -> Option<LogLevelInternal> {
        if c == 1 {
            Some(LogLevelInternal::DEBUG)
        } else if c == 2 {
            Some(LogLevelInternal::INFO)
        } else if c == 3 {
            Some(LogLevelInternal::WARNING)
        } else if c == 4 {
            Some(LogLevelInternal::ERROR)
        } else {
            None
        }
    }

    pub fn code(&self) -> (r: u8)
        ensures
            r == self.code_spec(),
            1 <= r <= 4,
    {
        match self {
            LogLevelInternal::DEBUG => 1,
            LogLevelInternal::INFO => 2,
            LogLevelInternal::WARNING => 3,
            LogLevelInternal::ERROR => 4,
        }
    }

    pub fn from_code(c: u8) -> (r: Option<LogLevelInternal>)
        ensures
            r == Self::from_code_spec(c),
            r is Some <==> 1 <= c <= 4,
    {
        if c == 1 {
            Some(LogLevelInternal::DEBUG)
        } else if c == 2 {
            Some(LogLevelInternal::INFO)
        } else if c == 3 {
            Some(LogLevelInternal::WARNING)
        } else if c == 4 {
            Some(LogLevelInternal::ERROR)
        } else {
            None
        }
    }
}

impl LogLevel {
    /// The symbolic name of a level on the wire.
    pub open spec fn name_spec(self) -> Seq<char> {
        match self {
            LogLevel::DEBUG => "DEBUG"@,
            LogLevel::INFO => "INFO"@,
            LogLevel::WARNING => "WARNING"@,
            LogLevel::ERROR => "ERROR"@,
        }
    }

    pub fn as_str(&self) -> (r: &'static str)
        ensures
            r@ == self.name_spec(),
    {
        match self {
            LogLevel::DEBUG => "DEBUG",
            LogLevel::INFO => "INFO",
            LogLevel::WARNING => "WARNING",
            LogLevel::ERROR => "ERROR",
        }
    }
}

/// The storage level of a wire level.
pub open spec fn internal_of(l: LogLevel) -> LogLevelInternal {
    match l {
        LogLevel::DEBUG => LogLevelInternal::DEBUG,
        LogLevel::INFO => LogLevelInternal::INFO,
        LogLevel::WARNING => LogLevelInternal::WARNING,
        LogLevel::ERROR => LogLevelInternal::ERROR,
    }
}

/// The wire level of a storage level.
pub open spec fn wire_of(l: LogLevelInternal) -> LogLevel {
    match l {
        LogLevelInternal::DEBUG => LogLevel::DEBUG,
        LogLevelInternal::INFO => LogLevel::INFO,
        LogLevelInternal::WARNING => LogLevel::WARNING,
        LogLevelInternal::ERROR => LogLevel::ERROR,
    }
}

impl From<LogLevelInternal> for LogLevel {
    fn from(item: LogLevelInternal) -> (r: LogLevel)
        ensures
            r == wire_of(item),
    {
        match item {
            LogLevelInternal::DEBUG => LogLevel::DEBUG,
            LogLevelInternal::INFO => LogLevel::INFO,
            LogLevelInternal::WARNING => LogLevel::WARNING,
            LogLevelInternal::ERROR => LogLevel::ERROR,
        }
    }
}

impl vstd::std_specs::convert::FromSpecImpl<LogLevelInternal> for LogLevel {
    open spec fn obeys_from_spec() -> bool {
        true
    }

    open spec fn from_spec(v: LogLevelInternal) -> LogLevel {
        wire_of(v)
    }
}

impl From<LogLevel> for LogLevelInternal {
    fn from(item: LogLevel) -> (r: LogLevelInternal)
        ensures
            r == internal_of(item),
    {
        match item {
            LogLevel::DEBUG => LogLevelInternal::DEBUG,
            LogLevel::INFO => LogLevelInternal::INFO,
            LogLevel::WARNING => LogLevelInternal::WARNING,
            LogLevel::ERROR => LogLevelInternal::ERROR,
        }
    }
}

impl vstd::std_specs::convert::FromSpecImpl<LogLevel> for LogLevelInternal {
    open spec fn obeys_from_spec() -> bool {
        true
    }

    open spec fn from_spec(v: LogLevel) -> LogLevelInternal {
        internal_of(v)
    }
}

/// A wire level survives the trip through its storage code unchanged,
/// symbolic name included, and every storage code comes back as itself.
pub proof fn lemma_level_round_trip(l: LogLevel)
    ensures
        wire_of(internal_of(l)) == l,
        wire_of(internal_of(l)).name_spec() == l.name_spec(),
        LogLevelInternal::from_code_spec(internal_of(l).code_spec()) == Some(internal_of(l)),
        forall|c: u8|
            #![trigger LogLevelInternal::from_code_spec(c)]
            1 <= c <= 4 ==> (LogLevelInternal::from_code_spec(c) matches Some(x) && x.code_spec() == c),
{
}

/// A stored log record: when it was accepted (nanoseconds since the epoch),
/// its level and its text.
#[derive(Clone, Debug)]
pub struct LogEntry {
    pub timestamp: u64,
    pub level: LogLevelInternal,
    pub message: String,
}

/// What a client submits: a level and a text.
#[derive(Clone, Debug)]
pub struct LogEntryInput {
    pub level: LogLevel,
    pub message: String,
}

/// A record as clients see it, with the level by name.
#[derive(Clone, Debug)]
pub struct LogEntryOutput {
    pub timestamp: u64,
    pub level: LogLevel,
    pub message: String,
}

/// A scan filter: one exact level and an inclusive timestamp range.
#[derive(Clone, Debug)]
pub struct LogViewQuery {
    pub level: LogLevel,
    pub timestamp_ge: u64,
    pub timestamp_le: u64,
}

/// The body of an error reply.
#[derive(Clone, Debug)]
pub struct ErrorMessage {
    pub message: String,
}

impl LogEntry {
    /// The record that a submission accepted at `now` becomes.
    pub open spec fn from_input_spec(input: LogEntryInput, now: u64) -> LogEntry {
        LogEntry { timestamp: now, level: internal_of(input.level), message: input.message }
    }

    pub fn from_input(input: LogEntryInput, now: u64) -> (r: LogEntry)
        ensures
            r == Self::from_input_spec(input, now),
    {
        LogEntry { timestamp: now, level: LogLevelInternal::from(input.level), message: input.message }
    }

    /// A field-by-field copy of the record.
    pub fn duplicate(&self) -> (r: LogEntry)
        ensures
            r == *self,
    {
        LogEntry { timestamp: self.timestamp, level: self.level, message: self.message.clone() }
    }

    /// The client's view of a stored record.
    pub open spec fn output_spec(self) -> LogEntryOutput {
        LogEntryOutput { timestamp: self.timestamp, level: wire_of(self.level), message: self.message }
    }

    pub fn to_output(&self) -> (r: LogEntryOutput)
        ensures
            r == self.output_spec(),
    {
        LogEntryOutput {
            timestamp: self.timestamp,
            level: LogLevel::from(self.level),
            message: self.message.clone(),
        }
    }
}

impl LogViewQuery {
    /// Whether a stored record falls under the filter.
    pub open spec fn matches_spec(self, e: LogEntry) -> bool {
        e.level == internal_of(self.level) && self.timestamp_ge <= e.timestamp
            && e.timestamp <= self.timestamp_le
    }

    pub fn matches(&self, e: &LogEntry) -> (r: bool)
        ensures
            r == self.matches_spec(*e),
    {
        LogLevelInternal::from(self.level) == e.level && self.timestamp_ge <= e.timestamp
            && e.timestamp <= self.timestamp_le
    }

    /// The storage code that the scan binds for the level.
    pub fn level_code(&self) -> (r: u8)
        ensures
            r == internal_of(self.level).code_spec(),
    {
        LogLevelInternal::from(self.level).code()
    }
}

/// The client's view of rows that a scan returned, in the same order.
pub fn outputs_of(rows: &Vec<LogEntry>) -> (r: Vec<LogEntryOutput>)
    ensures
        r@.len() == rows@.len(),
        forall|i: int| 0 <= i < rows@.len() ==> #[trigger] r@[i] == rows@[i].output_spec(),
{
    let mut r: Vec<LogEntryOutput> = Vec::new();
    let mut i: usize = 0;
    while i < rows.len()
        invariant
            i <= rows@.len(),
            r@.len() == i,
            forall|j: int| 0 <= j < i ==> #[trigger] r@[j] == rows@[j].output_spec(),
        decreases rows@.len() - i,
    {
        r.push(rows[i].to_output());
        i = i + 1;
    }
    r
}

impl ErrorMessage {
    pub fn new(message: String) -> (r: ErrorMessage)
        ensures
            r.message == message,
    {
        ErrorMessage { message }
    }
}

} // verus!
