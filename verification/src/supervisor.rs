//! Supervision of the child process, as far as it is a matter of decisions:
//! the life cycle of a run, and what each line read from the child's output
//! streams gives rise to.  Spawning, piping and killing are left to the caller.

use crate::ambient::is_clock_time;
use crate::json::json_parse;
use crate::log::{classify, LogEntry, LogLevel};
use crate::messages::{decode_line, decoded, tagged_body, Message};
use crate::text::{is_blank, str_is_blank, trim};
use vstd::prelude::*;

verus! {

/// Where a run stands.
#[derive(Debug, Clone, Copy, PartialEq, Eq, Structural)]
pub enum Lifecycle {
    /// No process has been started.
    Idle,
    /// The process has been started and its output is still open.
    Running,
    /// The process was started; its output has ended or it was killed.
    Stopped,
}

/// What happens to a run.
#[derive(Debug, Clone, Copy, PartialEq, Eq, Structural)]
pub enum LifecycleEvent {
    /// The process was spawned and its pipes were captured.
    Spawned,
    /// The standard output of the process ended or failed.
    OutputClosed,
    /// The user asked for the process to be killed.
    KillRequested,
}

impl Lifecycle {
    /// Whether the process counts as running.
    pub open spec fn running(self) -> bool {
        self == Lifecycle::Running
    }

    /// Whether a process was ever started, so that there are a handle to kill
    /// and an input pipe to write to.
    pub open spec fn spawned(self) -> bool {
        self != Lifecycle::Idle
    }

    /// The life cycle after an event.  Only a spawn makes a run running; the
    /// end of output and a kill stop it, and neither starts anything.
    pub open spec fn after(self, event: LifecycleEvent) -> Lifecycle {
        match event {
            LifecycleEvent::Spawned => Lifecycle::Running,
            LifecycleEvent::OutputClosed => if self == Lifecycle::Running {
                Lifecycle::Stopped
            } else {
                self
            },
            LifecycleEvent::KillRequested => if self == Lifecycle::Idle {
                Lifecycle::Idle
            } else {
                Lifecycle::Stopped
            },
        }
    }

    /// The life cycle of a supervisor that has started nothing.
    pub fn new() -> (state: Lifecycle)
        ensures
            state == Lifecycle::Idle,
    {
        Lifecycle::Idle
    }

    /// Whether the process counts as running.
    pub fn is_running(&self) -> (running: bool)
        ensures
            running == self.running(),
    {
        match self {
            Lifecycle::Running => true,
            _ => false,
        }
    }

    /// Whether a message can be written: there is an input pipe once a process
    /// was started, and it stays after the process has stopped.
    pub fn can_send(&self) -> (ready: bool)
        ensures
            ready == self.spawned(),
    {
        match self {
            Lifecycle::Idle => false,
            _ => true,
        }
    }

    /// Takes an event into the life cycle.
    pub fn on_event(&mut self, event: LifecycleEvent)
        ensures
            *final(self) == old(self).after(event),
    {
        match event {
            LifecycleEvent::Spawned => {
                *self = Lifecycle::Running;
            },
            LifecycleEvent::OutputClosed => {
                match self {
                    Lifecycle::Running => {
                        *self = Lifecycle::Stopped;
                    },
                    _ => {},
                }
            },
            LifecycleEvent::KillRequested => {
                match self {
                    Lifecycle::Idle => {},
                    _ => {
                        *self = Lifecycle::Stopped;
                    },
                }
            },
        }
    }

    /// Records a kill.  Returns whether there is a process to terminate.  The
    /// run is not running afterwards, and a second kill changes nothing.
    pub fn kill(&mut self) -> (terminate: bool)
        ensures
            *final(self) == old(self).after(LifecycleEvent::KillRequested),
            !final(self).running(),
            terminate == old(self).spawned(),
    {
        let terminate: bool = self.can_send();
        self.on_event(LifecycleEvent::KillRequested);
        terminate
    }
}

/// Why the supervisor could not do what it was asked.
#[derive(Debug)]
pub enum SupervisorError {
    /// The entry point was not found, or the process could not be spawned.
    SpawnError(String),
    /// The input pipe of the process is missing or could not be written to.
    IOError(String),
}

/// Where the process is started: next to the caller or one level above.
#[derive(Debug, Clone, Copy, PartialEq, Eq, Structural)]
pub enum WorkingDir {
    /// The directory one level above the caller's own.
    Parent,
    /// The caller's own directory.
    Current,
}

/// The directory to start the process in, given where its entry point is
/// found: the parent directory is preferred, the caller's own is the
/// fallback, and without an entry point in either there is none.
pub open spec fn entry_dir(in_parent: bool, in_current: bool) -> Option<WorkingDir> {
    if in_parent {
        Some(WorkingDir::Parent)
    } else if in_current {
        Some(WorkingDir::Current)
    } else {
        None
    }
}

/// The file name of the entry point of the supervised process.
pub fn entry_point() -> (name: &'static str)
    ensures
        name@ == "ralph_loop.sh"@,
{
    "ralph_loop.sh"
}

/// The flag that every run is started with, ahead of the objective.
pub fn mode_flag() -> (flag: &'static str)
    ensures
        flag@ == "--v2"@,
{
    "--v2"
}

/// The directory to start the process in, or the error that says that the
/// entry point, expected at `expected`, was found nowhere.
pub fn locate_entry(in_parent: bool, in_current: bool, expected: &str) -> (dir: Result<
    WorkingDir,
    SupervisorError,
>)
    ensures
        match dir {
            Ok(d) => entry_dir(in_parent, in_current) == Some(d),
            Err(SupervisorError::SpawnError(reason)) => {
                &&& entry_dir(in_parent, in_current) is None
                &&& reason@ == "ralph_loop.sh not found at "@ + expected@
            },
            Err(SupervisorError::IOError(_)) => false,
        },
{
    if in_parent {
        Ok(WorkingDir::Parent)
    } else if in_current {
        Ok(WorkingDir::Current)
    } else {
        let mut reason = String::from_str("ralph_loop.sh not found at ");
        reason.append(expected);
        Err(SupervisorError::SpawnError(reason))
    }
}

impl SupervisorError {
    /// The error for a spawn that the operating system refused, with its
    /// reason.
    pub fn spawn_failed(reason: &str) -> (error: SupervisorError)
        ensures
            error matches SupervisorError::SpawnError(text) && text@ == "Failed to spawn: "@
                + reason@,
    {
        let mut text = String::from_str("Failed to spawn: ");
        text.append(reason);
        SupervisorError::SpawnError(text)
    }

    /// The error for a write to the input pipe that failed, with its reason.
    pub fn write_failed(reason: &str) -> (error: SupervisorError)
        ensures
            error matches SupervisorError::IOError(text) && text@ == reason@,
    {
        SupervisorError::IOError(String::from_str(reason))
    }

    /// What went wrong, in words.
    pub fn message(&self) -> (text: String)
        ensures
            text@ == match self {
                SupervisorError::SpawnError(reason) => reason@,
                SupervisorError::IOError(reason) => reason@,
            },
    {
        match self {
            SupervisorError::SpawnError(reason) => reason.clone(),
            SupervisorError::IOError(reason) => reason.clone(),
        }
    }
}

impl Lifecycle {
    /// Whether a message may be written now.  Before any process was started
    /// there is no input pipe, and the request fails with an I/O error.
    pub fn check_send(&self) -> (ready: Result<(), SupervisorError>)
        ensures
            match ready {
                Ok(_) => self.spawned(),
                Err(SupervisorError::IOError(reason)) => !self.spawned() && reason@
                    == "Stdin not available"@,
                Err(SupervisorError::SpawnError(_)) => false,
            },
    {
        if self.can_send() {
            Ok(())
        } else {
            Err(SupervisorError::IOError(String::from_str("Stdin not available")))
        }
    }
}

/// After a kill the run is not running, from whatever state the kill came.
pub proof fn lemma_kill_stops(state: Lifecycle)
    ensures
        !state.after(LifecycleEvent::KillRequested).running(),
{
}

/// A second kill finds the state that the first one left, and leaves it.
pub proof fn lemma_kill_is_idempotent(state: Lifecycle)
    ensures
        state.after(LifecycleEvent::KillRequested).after(LifecycleEvent::KillRequested)
            == state.after(LifecycleEvent::KillRequested),
{
}

/// Only a spawn can make a run running: no other event restarts a process.
pub proof fn lemma_no_respawn(state: Lifecycle, event: LifecycleEvent)
    ensures
        state.after(event).running() ==> event == LifecycleEvent::Spawned || state.running(),
        !state.spawned() && event != LifecycleEvent::Spawned ==> state.after(event)
            == Lifecycle::Idle,
{
}

/// What a line of standard output gives rise to.
#[derive(Debug)]
pub struct StdoutRecord {
    /// The message on the line, if the line carries the message tag and its
    /// text holds an envelope.
    pub message: Option<Message>,
    /// The log entry for the line.
    pub entry: LogEntry,
}

/// What a line of standard output gives rise to.
///
/// A blank line gives nothing.  Every other line gives a log entry, classified
/// after trimming; a line that carries the message tag gives the decoded
/// message as well, and where decoding fails only the log entry.
pub fn read_stdout_line(line: &str) -> (record: Option<StdoutRecord>)
    ensures
        record is None <==> is_blank(line@),
        record matches Some(r) ==> {
            &&& r.entry.message@ == trim(line@)
            &&& r.entry.level == classify(trim(line@))
            &&& is_clock_time(r.entry.timestamp@)
            &&& match r.message {
                Some(m) => tagged_body(line@) matches Some(body) && decoded(json_parse(body))
                    == Some(m@),
                None => tagged_body(line@) matches Some(body) ==> decoded(json_parse(body))
                    is None,
            }
        },
{
    if str_is_blank(line) {
        return None;
    }
    let message = decode_line(line);
    let entry = LogEntry::parse(line);
    Some(StdoutRecord { message, entry })
}

/// What a line of standard error gives rise to: an error entry with the line
/// as it came, or nothing for a blank line.
pub fn read_stderr_line(line: String) -> (entry: Option<LogEntry>)
    ensures
        entry is None <==> is_blank(line@),
        entry matches Some(e) ==> {
            &&& e.level == LogLevel::Error
            &&& e.message@ == line@
            &&& is_clock_time(e.timestamp@)
        },
{
    if str_is_blank(line.as_str()) {
        None
    } else {
        Some(LogEntry::error(line))
    }
}

} // verus!
