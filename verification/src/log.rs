//! Log entries, the ordered classification of raw lines into levels, and the
//! bounded buffer that keeps the most recent entries.

use crate::ambient::{is_clock_time, time_of_day};
use crate::text::{contains, starts_with, str_contains, str_starts_with, trim, trim_str};
use std::collections::VecDeque;
use vstd::prelude::*;

verus! {

/// The category of a log entry.
#[derive(Debug, Clone, Copy, PartialEq, Eq, Structural)]
pub enum LogLevel {
    Info,
    System,
    Agent,
    Error,
    Success,
    Thought,
}

/// One entry of the log: when it was captured, its level and its text.
#[derive(Debug, Clone)]
pub struct LogEntry {
    pub timestamp: String,
    pub level: LogLevel,
    pub message: String,
}

/// The mathematical content of a log entry.
pub ghost struct LogEntryView {
    pub timestamp: Seq<char>,
    pub level: LogLevel,
    pub message: Seq<char>,
}

impl View for LogEntry {
    type V = LogEntryView;

    open spec fn view(&self) -> LogEntryView {
        LogEntryView { timestamp: self.timestamp@, level: self.level, message: self.message@ }
    }
}

/// The line mentions a reasoning block: it holds the opening or the closing marker.
pub open spec fn marks_thought(line: Seq<char>) -> bool {
    contains(line, "<think>"@) || contains(line, "</think>"@)
}

/// The line mentions an agent or the swarm.
pub open spec fn marks_agent(line: Seq<char>) -> bool {
    contains(line, "[AGENT:"@) || contains(line, "[Swarm]"@) || contains(line, "[V2]"@)
}

/// The line reports a failure.
pub open spec fn marks_error(line: Seq<char>) -> bool {
    contains(line, "Error"@) || contains(line, "ERROR"@) || contains(line, "FAIL"@)
}

/// The line reports success or completion.
pub open spec fn marks_success(line: Seq<char>) -> bool {
    contains(line, "<promise>COMPLETE</promise>"@) || contains(line, "SUCCESS"@) || contains(
        line,
        "\u{2705}"@,
    )
}

/// The line begins with one of the tags of the system's own components.
pub open spec fn marks_system(line: Seq<char>) -> bool {
    starts_with(line, "[Runner]"@) || starts_with(line, "[Planner]"@) || starts_with(
        line,
        "[Git]"@,
    ) || starts_with(line, "[METRICS]"@)
}

/// The level of a line.  The rules are tried in a fixed order and the first
/// that applies decides, so a line that fits several categories gets the
/// earliest: thought, agent, error, success, system, and info for the rest.
pub open spec fn classify(line: Seq<char>) -> LogLevel {
    if marks_thought(line) {
        LogLevel::Thought
    } else if marks_agent(line) {
        LogLevel::Agent
    } else if marks_error(line) {
        LogLevel::Error
    } else if marks_success(line) {
        LogLevel::Success
    } else if marks_system(line) {
        LogLevel::System
    } else {
        LogLevel::Info
    }
}

impl LogLevel {
    /// The short name under which the level is shown.
    pub open spec fn tag(self) -> Seq<char> {
        match self {
            LogLevel::Info => "INFO"@,
            LogLevel::System => "SYS"@,
            LogLevel::Agent => "AGENT"@,
            LogLevel::Error => "ERR"@,
            LogLevel::Success => "OK"@,
            LogLevel::Thought => "THINK"@,
        }
    }

    /// The short name under which the level is shown.
    pub fn label(&self) -> (label: &'static str)
        ensures
            label@ == self.tag(),
    {
        match self {
            LogLevel::Info => "INFO",
            LogLevel::System => "SYS",
            LogLevel::Agent => "AGENT",
            LogLevel::Error => "ERR",
            LogLevel::Success => "OK",
            LogLevel::Thought => "THINK",
        }
    }

    /// The level of `line` under the ordered classification rules.
    pub fn of_line(line: &str) -> (level: LogLevel)
        ensures
            level == classify(line@),
    {
        if str_contains(line, "<think>") || str_contains(line, "</think>") {
            LogLevel::Thought
        } else if str_contains(line, "[AGENT:") || str_contains(line, "[Swarm]") || str_contains(
            line,
            "[V2]",
        ) {
            LogLevel::Agent
        } else if str_contains(line, "Error") || str_contains(line, "ERROR") || str_contains(
            line,
            "FAIL",
        ) {
            LogLevel::Error
        } else if str_contains(line, "<promise>COMPLETE</promise>") || str_contains(
            line,
            "SUCCESS",
        ) || str_contains(line, "\u{2705}") {
            LogLevel::Success
        } else if str_starts_with(line, "[Runner]") || str_starts_with(line, "[Planner]")
            || str_starts_with(line, "[Git]") || str_starts_with(line, "[METRICS]") {
            LogLevel::System
        } else {
            LogLevel::Info
        }
    }
}

impl LogEntry {
    /// An entry with the given capture time.
    pub fn stamped(timestamp: String, level: LogLevel, message: String) -> (entry: LogEntry)
        ensures
            entry@ == (LogEntryView { timestamp: timestamp@, level, message: message@ }),
    {
        LogEntry { timestamp, level, message }
    }

    /// An entry captured now.
    pub fn new(level: LogLevel, message: String) -> (entry: LogEntry)
        ensures
            entry.level == level,
            entry.message@ == message@,
            is_clock_time(entry.timestamp@),
    {
        LogEntry::stamped(time_of_day(), level, message)
    }

    /// An informational entry captured now.
    pub fn info(message: String) -> (entry: LogEntry)
        ensures
            entry.level == LogLevel::Info,
            entry.message@ == message@,
            is_clock_time(entry.timestamp@),
    {
        LogEntry::new(LogLevel::Info, message)
    }

    /// A system entry captured now.
    pub fn system(message: String) -> (entry: LogEntry)
        ensures
            entry.level == LogLevel::System,
            entry.message@ == message@,
            is_clock_time(entry.timestamp@),
    {
        LogEntry::new(LogLevel::System, message)
    }

    /// An agent entry captured now.
    pub fn agent(message: String) -> (entry: LogEntry)
        ensures
            entry.level == LogLevel::Agent,
            entry.message@ == message@,
            is_clock_time(entry.timestamp@),
    {
        LogEntry::new(LogLevel::Agent, message)
    }

    /// An error entry captured now.
    pub fn error(message: String) -> (entry: LogEntry)
        ensures
            entry.level == LogLevel::Error,
            entry.message@ == message@,
            is_clock_time(entry.timestamp@),
    {
        LogEntry::new(LogLevel::Error, message)
    }

    /// A success entry captured now.
    pub fn success(message: String) -> (entry: LogEntry)
        ensures
            entry.level == LogLevel::Success,
            entry.message@ == message@,
            is_clock_time(entry.timestamp@),
    {
        LogEntry::new(LogLevel::Success, message)
    }

    /// A reasoning-transcript entry captured now.
    pub fn thought(message: String) -> (entry: LogEntry)
        ensures
            entry.level == LogLevel::Thought,
            entry.message@ == message@,
            is_clock_time(entry.timestamp@),
    {
        LogEntry::new(LogLevel::Thought, message)
    }

    /// The entry for a raw line: the line without surrounding white space, at
    /// the level that the classification rules give it.  Level and text depend
    /// on the content of the line and on nothing else.
    pub fn parse(line: &str) -> (entry: LogEntry)
        ensures
            entry.message@ == trim(line@),
            entry.level == classify(trim(line@)),
            is_clock_time(entry.timestamp@),
    {
        let line = trim_str(line);
        let level = LogLevel::of_line(line);
        LogEntry::new(level, String::from_str(line))
    }

    /// Whether the log view shows the entry: system entries are shown only on
    /// request, all others always.
    pub fn is_shown(&self, show_system_logs: bool) -> (shown: bool)
        ensures
            shown == (show_system_logs || self.level != LogLevel::System),
    {
        show_system_logs || self.level != LogLevel::System
    }

    /// A copy of the entry.
    pub fn duplicate(&self) -> (copy: LogEntry)
        ensures
            copy@ == self@,
    {
        LogEntry {
            timestamp: self.timestamp.clone(),
            level: self.level,
            message: self.message.clone(),
        }
    }
}

/// A thought marker decides the level whatever else the line holds, and each
/// later rule decides only where no earlier one applies.
pub proof fn lemma_classification_priority(line: Seq<char>)
    ensures
        marks_thought(line) ==> classify(line) == LogLevel::Thought,
        !marks_thought(line) && marks_agent(line) ==> classify(line) == LogLevel::Agent,
        !marks_thought(line) && !marks_agent(line) && marks_error(line) ==> classify(line)
            == LogLevel::Error,
        !marks_thought(line) && !marks_agent(line) && !marks_error(line) && marks_success(line)
            ==> classify(line) == LogLevel::Success,
        !marks_thought(line) && !marks_agent(line) && !marks_error(line) && !marks_success(line)
            && marks_system(line) ==> classify(line) == LogLevel::System,
        classify(line) == LogLevel::Info <==> !marks_thought(line) && !marks_agent(line)
            && !marks_error(line) && !marks_success(line) && !marks_system(line),
{
}

/// What a bounded log holds after `entry` arrives: the entry goes to the back,
/// and if that makes the log longer than `limit` the oldest entry leaves.
pub open spec fn pushed<T>(entries: Seq<T>, entry: T, limit: nat) -> Seq<T> {
    let grown = entries.push(entry);
    if grown.len() > limit {
        grown.drop_first()
    } else {
        grown
    }
}

/// The most recent log entries, oldest first, never more than a fixed limit.
pub struct LogBuffer {
    entries: VecDeque<LogEntry>,
    limit: usize,
}

impl LogBuffer {
    /// The buffer never holds more entries than its limit.
    #[verifier::type_invariant]
    pub open spec fn within_limit(self) -> bool {
        self@.len() <= self.capacity()
    }

    /// The entries, oldest first.
    pub closed spec fn view(&self) -> Seq<LogEntry> {
        self.entries@
    }

    /// The greatest number of entries the buffer keeps.
    pub closed spec fn capacity(&self) -> nat {
        self.limit as nat
    }

    /// An empty buffer that keeps at most `limit` entries.
    pub fn new(limit: usize) -> (buffer: LogBuffer)
        ensures
            buffer@ == Seq::<LogEntry>::empty(),
            buffer.capacity() == limit,
    {
        LogBuffer { entries: VecDeque::new(), limit }
    }

    /// The greatest number of entries the buffer keeps.
    pub fn limit(&self) -> (limit: usize)
        ensures
            limit == self.capacity(),
    {
        self.limit
    }

    /// The number of entries held, which never exceeds the limit.
    pub fn len(&self) -> (len: usize)
        ensures
            len == self@.len(),
            len <= self.capacity(),
    {
        proof {
            use_type_invariant(self);
        }
        self.entries.len()
    }

    /// Whether the buffer holds no entry.
    pub fn is_empty(&self) -> (empty: bool)
        ensures
            empty == (self@.len() == 0),
    {
        self.entries.len() == 0
    }

    /// The entry at `index`, counted from the oldest.
    pub fn get(&self, index: usize) -> (entry: Option<&LogEntry>)
        ensures
            match entry {
                Some(e) => index < self@.len() && *e == self@[index as int],
                None => index >= self@.len(),
            },
    {
        if index < self.entries.len() {
            Some(&self.entries[index])
        } else {
            None
        }
    }

    /// Appends `entry`, evicting the oldest entry if the buffer is full.
    pub fn push(&mut self, entry: LogEntry)
        ensures
            final(self)@ == pushed(old(self)@, entry, old(self).capacity()),
            final(self).capacity() == old(self).capacity(),
            final(self)@.len() <= final(self).capacity(),
    {
        proof {
            use_type_invariant(&*self);
        }
        let mut entries: VecDeque<LogEntry> = VecDeque::new();
        std::mem::swap(&mut entries, &mut self.entries);
        entries.push_back(entry);
        if entries.len() > self.limit {
            let _ = entries.pop_front();
        }
        self.entries = entries;
    }

    /// Removes every entry.
    pub fn clear(&mut self)
        ensures
            final(self)@ == Seq::<LogEntry>::empty(),
            final(self).capacity() == old(self).capacity(),
    {
        self.entries = VecDeque::new();
    }
}

/// A bounded log stays within its limit, and what it holds after an arrival
/// is the tail of what it would hold without a limit: entries leave from the
/// front only, oldest first, and the newest is always at the back when the
/// limit is not zero.
pub proof fn lemma_pushed_bounded<T>(entries: Seq<T>, entry: T, limit: nat)
    requires
        entries.len() <= limit,
    ensures
        pushed(entries, entry, limit).len() <= limit,
        pushed(entries, entry, limit) == entries.push(entry).skip(
            entries.len() + 1 - pushed(entries, entry, limit).len(),
        ),
        limit > 0 ==> pushed(entries, entry, limit).last() == entry,
        entries.len() < limit ==> pushed(entries, entry, limit) == entries.push(entry),
        entries.len() == limit ==> pushed(entries, entry, limit) == entries.push(entry).skip(1),
{
    let grown = entries.push(entry);
    assert(grown.skip(0) =~= grown);
    assert(grown.drop_first() =~= grown.skip(1));
}

/// What a bounded log holds after a run of arrivals, in order.
pub open spec fn pushed_all<T>(entries: Seq<T>, arrivals: Seq<T>, limit: nat) -> Seq<T>
    decreases arrivals.len(),
{
    if arrivals.len() == 0 {
        entries
    } else {
        pushed(pushed_all(entries, arrivals.drop_last(), limit), arrivals.last(), limit)
    }
}

/// The newest `limit` elements of `all`, or all of them if there are fewer.
pub open spec fn newest<T>(all: Seq<T>, limit: nat) -> Seq<T> {
    if all.len() > limit {
        all.skip(all.len() - limit)
    } else {
        all
    }
}

/// After any run of arrivals a bounded log holds the newest entries of all
/// that ever came, as many as its limit allows and in the order they came:
/// whatever was evicted was older than everything kept.
pub proof fn lemma_pushed_all_keeps_newest<T>(entries: Seq<T>, arrivals: Seq<T>, limit: nat)
    requires
        entries.len() <= limit,
    ensures
        pushed_all(entries, arrivals, limit) == newest(entries + arrivals, limit),
        pushed_all(entries, arrivals, limit).len() <= limit,
    decreases arrivals.len(),
{
    if arrivals.len() == 0 {
        assert(entries + arrivals =~= entries);
    } else {
        let before = arrivals.drop_last();
        lemma_pushed_all_keeps_newest(entries, before, limit);
        let held = pushed_all(entries, before, limit);
        assert((entries + before).push(arrivals.last()) =~= entries + arrivals);
        assert(pushed(held, arrivals.last(), limit) =~= newest(entries + arrivals, limit));
    }
}

} // verus!
