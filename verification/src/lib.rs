//! Telemetry core of an agent dashboard.
//!
//! The crate turns the line-oriented output of a supervised orchestration
//! process into structured state: classified log entries, aggregated reasoning
//! transcripts, agent activity, token metrics, the task plan and protocol
//! messages.  Its logic is verified against contracts stated over mathematical
//! models of the data.  What it takes from other crates (JSON reading and
//! writing, the clock, random numbers) enters through a handful of functions
//! whose contracts are trusted, each marked as such where it stands.
//!
//! * [`text`]: substring search, trimming and the other text primitives.
//! * [`agent`]: the agents and their pipeline order.
//! * [`log`]: log entries, line classification and the bounded log.
//! * [`json`]: JSON documents as plain data.
//! * [`metrics`], [`plan`]: counters and task list fed by tagged lines.
//! * [`messages`]: the message envelope and its tagged-line form.
//! * [`think`]: aggregation of reasoning transcripts.
//! * [`interpreter`]: agent events read from markers.
//! * [`session`]: the dashboard state and the pipeline that feeds it.
//! * [`supervisor`]: life cycle of the child process and its output lines.
//! * [`ambient`]: clock and random numbers.

pub mod agent;
pub mod ambient;
pub mod interpreter;
pub mod json;
pub mod log;
pub mod messages;
pub mod metrics;
pub mod plan;
pub mod session;
pub mod supervisor;
pub mod text;
pub mod think;

pub use crate::agent::{Agent, AgentMap, AgentState};
pub use crate::json::{Json, JsonNumber};
pub use crate::log::{LogBuffer, LogEntry, LogLevel};
pub use crate::messages::{Message, MessageType};
pub use crate::metrics::Metrics;
pub use crate::plan::{Task, TaskStatus};
pub use crate::session::RalphApp;
pub use crate::supervisor::{Lifecycle, LifecycleEvent, SupervisorError};
