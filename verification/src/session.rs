//! The state of the dashboard and the pipeline that takes each captured line
//! into it: reasoning transcripts first, then agent events, metrics, the plan
//! and the log.

use crate::agent::{Agent, AgentMap, AgentState};
use crate::ambient::is_clock_time;
use crate::interpreter::{
    apply_line, at_most_one_active, edge_after_line, lemma_line_keeps_single_active,
    states_after_line,
};
use crate::json::json_parse;
use crate::log::{pushed, LogBuffer, LogEntry, LogLevel};
use crate::metrics::{after_text, Metrics, MetricsView};
use crate::plan::{plan_after, task_views, update_plan, Task, TaskView};
use crate::text::{
    after_first, contains, is_blank, str_after_first, str_contains, str_is_blank, trim, trim_str,
};
use crate::think::{joined, route, think_after, ThinkBlock, ThinkOutcome, ThinkRoute, ThinkView};
use vstd::prelude::*;

verus! {

/// The number of log entries that a dashboard keeps.
pub const MAX_LOG_ENTRIES: usize = 500;

/// The JSON text that a line carries after `tag`: what follows the first
/// occurrence of the tag, without surrounding white space.
pub open spec fn report_text(line: Seq<char>, tag: Seq<char>) -> Seq<char> {
    trim(after_first(line, tag))
}

/// The counters after a line: a line that holds the tag `[METRICS]` reports
/// what follows the tag, any other line changes nothing.
pub open spec fn metrics_after_line(m: MetricsView, line: Seq<char>) -> MetricsView {
    if contains(line, "[METRICS]"@) {
        after_text(m, json_parse(report_text(line, "[METRICS]"@)))
    } else {
        m
    }
}

/// The task list after a line: a line that holds the tag `[PLAN]` updates the
/// plan with what follows the tag, any other line changes nothing.
pub open spec fn tasks_after_line(tasks: Seq<TaskView>, line: Seq<char>) -> Seq<TaskView> {
    if contains(line, "[PLAN]"@) {
        plan_after(tasks, json_parse(report_text(line, "[PLAN]"@)))
    } else {
        tasks
    }
}

/// The state of the dashboard.
pub struct RalphApp {
    /// The objective as typed so far.
    pub objective_input: String,
    /// The state of each agent.
    pub agent_states: AgentMap<AgentState>,
    /// The communication edge that is lit, as source and target.
    pub active_connection: Option<(Agent, Agent)>,
    /// The most recent log entries.
    pub logs: LogBuffer,
    /// Whether the log view shows system entries.
    pub show_system_logs: bool,
    /// The reasoning transcript in progress.
    pub thinking: ThinkBlock,
    /// The counters of the run.
    pub metrics: Metrics,
    /// The plan of the run.
    pub tasks: Vec<Task>,
    /// Whether the run is paused.
    pub is_paused: bool,
    /// Whether agents run inside a sandbox.
    pub sandbox_enabled: bool,
    /// Which agents take part.
    pub enabled_agents: AgentMap<bool>,
}

impl RalphApp {
    /// What the user has set is the same in both states: the objective, the
    /// switches, and the limit of the log.
    pub open spec fn same_settings(self, other: RalphApp) -> bool {
        &&& self.objective_input == other.objective_input
        &&& self.show_system_logs == other.show_system_logs
        &&& self.is_paused == other.is_paused
        &&& self.sandbox_enabled == other.sandbox_enabled
        &&& self.enabled_agents == other.enabled_agents
        &&& self.logs.capacity() == other.logs.capacity()
    }

    /// What the output of the run has told is the same in both states: agent
    /// states, active edge, counters and plan.
    pub open spec fn same_telemetry(self, other: RalphApp) -> bool {
        &&& self.agent_states == other.agent_states
        &&& self.active_connection == other.active_connection
        &&& self.metrics@ == other.metrics@
        &&& task_views(self.tasks@) == task_views(other.tasks@)
    }

    /// The state with which every run begins: all agents idle, no edge lit, no
    /// transcript, counters at zero, an empty plan.
    pub open spec fn is_reset(self) -> bool {
        &&& self.agent_states == AgentMap::uniform(AgentState::Idle)
        &&& self.active_connection is None
        &&& self.thinking@ == (ThinkView { active: false, lines: Seq::empty() })
        &&& self.metrics@ == (MetricsView {
            total_tokens: 0,
            last_duration_ms: 0,
            active_model: Seq::empty(),
            iterations: 0,
        })
        &&& self.tasks@.len() == 0
    }

    /// `after` is `before` with one entry of the given level and text logged
    /// at the current time.
    pub open spec fn logged(
        before: Seq<LogEntry>,
        after: Seq<LogEntry>,
        limit: nat,
        level: LogLevel,
        message: Seq<char>,
    ) -> bool {
        exists|entry: LogEntry|
            {
                &&& after == pushed(before, entry, limit)
                &&& entry.level == level
                &&& entry.message@ == message
                &&& is_clock_time(entry.timestamp@)
            }
    }

    /// A dashboard before its first run.
    pub fn new() -> (app: RalphApp)
        ensures
            app.is_reset(),
            app.logs@.len() == 0,
            app.logs.capacity() == MAX_LOG_ENTRIES,
            app.objective_input@.len() == 0,
            !app.show_system_logs,
            !app.is_paused,
            !app.sandbox_enabled,
            app.enabled_agents == AgentMap::uniform(true),
    {
        RalphApp {
            objective_input: String::new(),
            agent_states: AgentMap::filled(AgentState::Idle),
            active_connection: None,
            logs: LogBuffer::new(MAX_LOG_ENTRIES),
            show_system_logs: false,
            thinking: ThinkBlock::new(),
            metrics: Metrics::default(),
            tasks: Vec::new(),
            is_paused: false,
            sandbox_enabled: false,
            enabled_agents: AgentMap::filled(true),
        }
    }

    /// Appends an entry to the log, evicting the oldest entry if the log is
    /// full.  Nothing else changes.
    pub fn add_log(&mut self, entry: LogEntry)
        ensures
            final(self).logs@ == pushed(old(self).logs@, entry, old(self).logs.capacity()),
            final(self).logs@.len() <= final(self).logs.capacity(),
            final(self).same_settings(*old(self)),
            final(self).same_telemetry(*old(self)),
            final(self).thinking == old(self).thinking,
    {
        self.logs.push(entry);
    }

    /// Whether the objective as typed may be submitted: it must hold more
    /// than white space, and no run may be on.
    pub fn can_submit(&self, running: bool) -> (ready: bool)
        ensures
            ready == (!is_blank(self.objective_input@) && !running),
    {
        !str_is_blank(self.objective_input.as_str()) && !running
    }

    /// Takes the objective out of the input: returns it without surrounding
    /// white space and leaves the input empty.
    pub fn take_objective(&mut self) -> (objective: String)
        ensures
            objective@ == trim(old(self).objective_input@),
            final(self).objective_input@.len() == 0,
            final(self).show_system_logs == old(self).show_system_logs,
            final(self).is_paused == old(self).is_paused,
            final(self).sandbox_enabled == old(self).sandbox_enabled,
            final(self).enabled_agents == old(self).enabled_agents,
            final(self).logs == old(self).logs,
            final(self).thinking == old(self).thinking,
            final(self).same_telemetry(*old(self)),
    {
        let objective = String::from_str(trim_str(self.objective_input.as_str()));
        self.objective_input = String::new();
        objective
    }

    /// Whether a reasoning transcript is open.
    pub fn is_thinking(&self) -> (thinking: bool)
        ensures
            thinking == self.thinking@.active,
    {
        self.thinking.active
    }

    /// The reasoning transcript so far, its lines joined by line breaks.
    pub fn current_thought(&self) -> (text: String)
        ensures
            text@ == joined(self.thinking@.lines),
    {
        self.thinking.text()
    }

    /// Begins a run, given how the attempt to start the process ended.
    ///
    /// The log and everything that the previous run told are dropped: agents
    /// go idle, the edge goes dark, counters return to zero and the plan is
    /// emptied.  Then the outcome is logged: a system entry on success, an
    /// error entry with the reason on failure.  Returns whether the run is on.
    pub fn start_run(&mut self, outcome: Result<(), String>) -> (started: bool)
        ensures
            started == (outcome is Ok),
            final(self).is_reset(),
            final(self).same_settings(*old(self)),
            match outcome {
                Ok(_) => RalphApp::logged(
                    Seq::empty(),
                    final(self).logs@,
                    old(self).logs.capacity(),
                    LogLevel::System,
                    "Starting Ralph..."@,
                ),
                Err(reason) => RalphApp::logged(
                    Seq::empty(),
                    final(self).logs@,
                    old(self).logs.capacity(),
                    LogLevel::Error,
                    "Failed to start: "@ + reason@,
                ),
            },
    {
        self.logs.clear();
        self.tasks = Vec::new();
        self.thinking.clear();
        self.agent_states = AgentMap::filled(AgentState::Idle);
        self.active_connection = None;
        self.metrics = Metrics::default();
        match outcome {
            Ok(_) => {
                let entry = LogEntry::system(String::from_str("Starting Ralph..."));
                self.logs.push(entry);
                true
            },
            Err(reason) => {
                let mut text = String::from_str("Failed to start: ");
                text.append(reason.as_str());
                let entry = LogEntry::error(text);
                self.logs.push(entry);
                false
            },
        }
    }

    /// Takes what a line says about the agents into the state: the event of
    /// its tag first, then the event of its phrase.
    pub fn parse_agent_event(&mut self, entry: &LogEntry)
        ensures
            final(self).agent_states == states_after_line(old(self).agent_states, entry.message@),
            final(self).active_connection == edge_after_line(
                old(self).active_connection,
                entry.message@,
            ),
            final(self).same_settings(*old(self)),
            final(self).metrics == old(self).metrics,
            final(self).tasks == old(self).tasks,
            final(self).thinking == old(self).thinking,
            final(self).logs == old(self).logs,
    {
        apply_line(&mut self.agent_states, &mut self.active_connection, entry.message.as_str());
    }

    /// Takes a captured entry into the state.
    ///
    /// The reasoning transcript has the first say.  A line that opens, ends or
    /// falls inside a transcript goes to the transcript and to nothing else;
    /// the line that ends it logs the whole transcript as one thought.  Every
    /// other line tells its agent events, its metrics report and its plan, and
    /// is then logged as it came.
    pub fn process_entry(&mut self, entry: LogEntry)
        ensures
            final(self).same_settings(*old(self)),
            final(self).thinking@ == think_after(old(self).thinking@, entry.message@),
            final(self).logs@.len() <= final(self).logs.capacity(),
            at_most_one_active(old(self).agent_states) ==> at_most_one_active(
                final(self).agent_states,
            ),
            match route(old(self).thinking@.active, entry.message@) {
                ThinkRoute::Open | ThinkRoute::Inside => {
                    &&& final(self).same_telemetry(*old(self))
                    &&& final(self).logs@ == old(self).logs@
                },
                ThinkRoute::Close => {
                    &&& final(self).same_telemetry(*old(self))
                    &&& RalphApp::logged(
                        old(self).logs@,
                        final(self).logs@,
                        old(self).logs.capacity(),
                        LogLevel::Thought,
                        joined(final(self).thinking@.lines),
                    )
                },
                ThinkRoute::Outside => {
                    &&& final(self).agent_states == states_after_line(
                        old(self).agent_states,
                        entry.message@,
                    )
                    &&& final(self).active_connection == edge_after_line(
                        old(self).active_connection,
                        entry.message@,
                    )
                    &&& final(self).metrics@ == metrics_after_line(
                        old(self).metrics@,
                        entry.message@,
                    )
                    &&& task_views(final(self).tasks@) == tasks_after_line(
                        task_views(old(self).tasks@),
                        entry.message@,
                    )
                    &&& final(self).logs@ == pushed(
                        old(self).logs@,
                        entry,
                        old(self).logs.capacity(),
                    )
                },
            },
    {
        proof {
            use_type_invariant(&self.logs);
            lemma_line_keeps_single_active(self.agent_states, entry.message@);
        }
        match self.thinking.feed(entry.message.as_str()) {
            ThinkOutcome::Absorbed => {},
            ThinkOutcome::Thought(text) => {
                let thought = LogEntry::thought(text);
                self.logs.push(thought);
            },
            ThinkOutcome::Passed => {
                apply_line(
                    &mut self.agent_states,
                    &mut self.active_connection,
                    entry.message.as_str(),
                );
                if str_contains(entry.message.as_str(), "[METRICS]") {
                    let report = trim_str(str_after_first(entry.message.as_str(), "[METRICS]"));
                    self.metrics.update_from_json(report);
                }
                if str_contains(entry.message.as_str(), "[PLAN]") {
                    let plan = trim_str(str_after_first(entry.message.as_str(), "[PLAN]"));
                    update_plan(&mut self.tasks, plan);
                }
                self.logs.push(entry);
            },
        }
    }
}

impl Default for RalphApp {
    /// A dashboard before its first run.
    fn default() -> (app: RalphApp)
        ensures
            app.is_reset(),
            app.logs@.len() == 0,
            app.logs.capacity() == MAX_LOG_ENTRIES,
            app.objective_input@.len() == 0,
            !app.show_system_logs,
            !app.is_paused,
            !app.sandbox_enabled,
            app.enabled_agents == AgentMap::uniform(true),
    {
        RalphApp::new()
    }
}

} // verus!
