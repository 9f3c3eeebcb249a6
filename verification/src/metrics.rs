//! Running counters fed by the metrics reports that the supervised process
//! embeds in its output.

use crate::json::{json_parse, Json, JsonValue};
use crate::text::str_eq;
use vstd::prelude::*;

verus! {

/// Counters of one run.
#[derive(Debug, Clone)]
pub struct Metrics {
    /// Tokens spent so far.  The sum only grows and stops at `u64::MAX`.
    pub total_tokens: u64,
    /// Duration of the most recent model call, in milliseconds.
    pub last_duration_ms: u64,
    /// Name of the model that served the most recent call.
    pub active_model: String,
    /// The iteration most recently reported.
    pub iterations: u32,
}

/// The mathematical content of the counters.
pub ghost struct MetricsView {
    pub total_tokens: u64,
    pub last_duration_ms: u64,
    pub active_model: Seq<char>,
    pub iterations: u32,
}

impl View for Metrics {
    type V = MetricsView;

    open spec fn view(&self) -> MetricsView {
        MetricsView {
            total_tokens: self.total_tokens,
            last_duration_ms: self.last_duration_ms,
            active_model: self.active_model@,
            iterations: self.iterations,
        }
    }
}

/// `total` with `more` added, stopping at `u64::MAX`; unchanged where the
/// report has no such count.
pub open spec fn with_tokens(total: u64, more: Option<u64>) -> u64 {
    match more {
        Some(n) => if total + n > u64::MAX {
            u64::MAX
        } else {
            (total + n) as u64
        },
        None => total,
    }
}

/// An iteration number as the counter holds it: its low 32 bits.
pub open spec fn as_counter(n: u64) -> u32 {
    (n % 0x1_0000_0000) as u32
}

/// The counters after a report.
///
/// A report is an object whose member `type` names its kind.  An `llm_call`
/// adds `prompt_tokens` and `completion_tokens` to the total and replaces
/// duration and model; an `iteration` replaces the iteration counter.  A
/// member that is missing or of another type leaves its counter alone, and
/// so does a report of any other kind.
pub open spec fn after_report(m: MetricsView, report: JsonValue) -> MetricsView {
    match report.text_field("type"@) {
        Some(kind) => if kind == "llm_call"@ {
            MetricsView {
                total_tokens: with_tokens(
                    with_tokens(m.total_tokens, report.unsigned_field("prompt_tokens"@)),
                    report.unsigned_field("completion_tokens"@),
                ),
                last_duration_ms: match report.unsigned_field("duration_ms"@) {
                    Some(ms) => ms,
                    None => m.last_duration_ms,
                },
                active_model: match report.text_field("model"@) {
                    Some(model) => model,
                    None => m.active_model,
                },
                iterations: m.iterations,
            }
        } else if kind == "iteration"@ {
            MetricsView {
                iterations: match report.unsigned_field("iteration"@) {
                    Some(n) => as_counter(n),
                    None => m.iterations,
                },
                ..m
            }
        } else {
            m
        },
        None => m,
    }
}

/// The counters after the text of a report, given what the text parses to:
/// text that is not JSON changes nothing.
pub open spec fn after_text(m: MetricsView, parsed: Option<JsonValue>) -> MetricsView {
    match parsed {
        Some(report) => after_report(m, report),
        None => m,
    }
}

/// Adds `more` to `total`, stopping at `u64::MAX`.
fn add_tokens(total: u64, more: Option<u64>) -> (sum: u64)
    ensures
        sum == with_tokens(total, more),
{
    match more {
        Some(n) => if n > u64::MAX - total {
            u64::MAX
        } else {
            total + n
        },
        None => total,
    }
}

/// The low 32 bits of `n`.
fn low_bits(n: u64) -> (low: u32)
    ensures
        low == as_counter(n),
{
    let low: u64 = n % 0x1_0000_0000;
    low as u32
}

impl Default for Metrics {
    /// All counters at zero and no model named.
    fn default() -> (m: Metrics)
        ensures
            m@ == (MetricsView {
                total_tokens: 0,
                last_duration_ms: 0,
                active_model: Seq::empty(),
                iterations: 0,
            }),
    {
        Metrics { total_tokens: 0, last_duration_ms: 0, active_model: String::new(), iterations: 0 }
    }
}

impl Metrics {
    /// All counters at zero, with the model that runs are started with.
    pub fn new() -> (m: Metrics)
        ensures
            m@ == (MetricsView {
                total_tokens: 0,
                last_duration_ms: 0,
                active_model: "qwen2.5-coder:14b"@,
                iterations: 0,
            }),
    {
        Metrics {
            total_tokens: 0,
            last_duration_ms: 0,
            active_model: String::from_str("qwen2.5-coder:14b"),
            iterations: 0,
        }
    }

    /// Takes a report into the counters.
    pub fn apply_report(&mut self, report: &Json)
        ensures
            final(self)@ == after_report(old(self)@, report@),
            final(self).total_tokens >= old(self).total_tokens,
    {
        match report.text_field("type") {
            Some(kind) => {
                if str_eq(kind, "llm_call") {
                    let with_prompt = add_tokens(
                        self.total_tokens,
                        report.unsigned_field("prompt_tokens"),
                    );
                    self.total_tokens = add_tokens(
                        with_prompt,
                        report.unsigned_field("completion_tokens"),
                    );
                    match report.unsigned_field("duration_ms") {
                        Some(ms) => {
                            self.last_duration_ms = ms;
                        },
                        None => {},
                    }
                    match report.text_field("model") {
                        Some(model) => {
                            self.active_model = String::from_str(model);
                        },
                        None => {},
                    }
                } else if str_eq(kind, "iteration") {
                    match report.unsigned_field("iteration") {
                        Some(n) => {
                            self.iterations = low_bits(n);
                        },
                        None => {},
                    }
                }
            },
            None => {},
        }
    }

    /// Takes the text of a report into the counters.  Text that is not JSON,
    /// and JSON that is not a report, change nothing.
    pub fn update_from_json(&mut self, json_str: &str)
        ensures
            final(self)@ == after_text(old(self)@, json_parse(json_str@)),
            final(self).total_tokens >= old(self).total_tokens,
    {
        match Json::parse(json_str) {
            Some(report) => {
                self.apply_report(&report);
            },
            None => {},
        }
    }
}

/// The token total never decreases, whatever is reported, and only an
/// `llm_call` can change it.
pub proof fn lemma_total_tokens_monotonic(m: MetricsView, report: JsonValue)
    ensures
        after_report(m, report).total_tokens >= m.total_tokens,
        report.text_field("type"@) != Some("llm_call"@) ==> after_report(m, report).total_tokens
            == m.total_tokens,
{
}

/// A report touches only the counters of its kind: an `llm_call` leaves the
/// iteration counter alone, and an `iteration` leaves tokens, duration and
/// model alone.
pub proof fn lemma_report_kinds_are_separate(m: MetricsView, report: JsonValue)
    ensures
        report.text_field("type"@) == Some("llm_call"@) ==> after_report(m, report).iterations
            == m.iterations,
        report.text_field("type"@) != Some("llm_call"@) ==> {
            &&& after_report(m, report).total_tokens == m.total_tokens
            &&& after_report(m, report).last_duration_ms == m.last_duration_ms
            &&& after_report(m, report).active_model == m.active_model
        },
{
}

/// The tokens that a report counts: prompt and completion tokens of an
/// `llm_call`, and none for any other report.
pub open spec fn tokens_in(report: JsonValue) -> nat {
    if report.text_field("type"@) == Some("llm_call"@) {
        (match report.unsigned_field("prompt_tokens"@) {
            Some(n) => n as nat,
            None => 0,
        }) + (match report.unsigned_field("completion_tokens"@) {
            Some(n) => n as nat,
            None => 0,
        })
    } else {
        0
    }
}

/// The counters after a run of reports, taken in order.
pub open spec fn after_reports(m: MetricsView, reports: Seq<JsonValue>) -> MetricsView
    decreases reports.len(),
{
    if reports.len() == 0 {
        m
    } else {
        after_report(after_reports(m, reports.drop_last()), reports.last())
    }
}

/// The tokens that a run of reports counts.
pub open spec fn tokens_in_all(reports: Seq<JsonValue>) -> nat
    decreases reports.len(),
{
    if reports.len() == 0 {
        0
    } else {
        tokens_in_all(reports.drop_last()) + tokens_in(reports.last())
    }
}

/// `n`, or `u64::MAX` if `n` is greater.
pub open spec fn capped(n: int) -> u64 {
    if n > u64::MAX {
        u64::MAX
    } else {
        n as u64
    }
}

/// The total after a report is the old total plus the tokens of the report,
/// capped at `u64::MAX`.
pub proof fn lemma_total_after_report(m: MetricsView, report: JsonValue)
    ensures
        after_report(m, report).total_tokens == capped(m.total_tokens + tokens_in(report)),
{
}

/// The total is an accumulator: after any run of reports it is the total
/// before plus the tokens of all the reports, capped at `u64::MAX`, in
/// whatever order and grouping the tokens came.
pub proof fn lemma_total_after_reports(m: MetricsView, reports: Seq<JsonValue>)
    ensures
        after_reports(m, reports).total_tokens == capped(
            m.total_tokens + tokens_in_all(reports),
        ),
        after_reports(m, reports).total_tokens >= m.total_tokens,
    decreases reports.len(),
{
    if reports.len() > 0 {
        lemma_total_after_reports(m, reports.drop_last());
        lemma_total_after_report(after_reports(m, reports.drop_last()), reports.last());
    }
}

/// The unit in which a count is shown.
#[derive(Debug, Clone, Copy, PartialEq, Eq, Structural)]
pub enum CountUnit {
    /// Below a thousand: the number itself.
    Ones,
    /// From a thousand up: thousands.
    Thousands,
    /// From a million up: millions.
    Millions,
}

/// The unit in which a duration is shown.
#[derive(Debug, Clone, Copy, PartialEq, Eq, Structural)]
pub enum DurationUnit {
    /// Below a second: milliseconds.
    Milliseconds,
    /// From a second up: seconds.
    Seconds,
    /// From a minute up: minutes.
    Minutes,
}

/// The unit in which the count `n` is shown.
pub fn count_unit(n: u64) -> (unit: CountUnit)
    ensures
        unit == if n >= 1_000_000 {
            CountUnit::Millions
        } else if n >= 1_000 {
            CountUnit::Thousands
        } else {
            CountUnit::Ones
        },
{
    if n >= 1_000_000 {
        CountUnit::Millions
    } else if n >= 1_000 {
        CountUnit::Thousands
    } else {
        CountUnit::Ones
    }
}

/// The unit in which a duration of `ms` milliseconds is shown.
pub fn duration_unit(ms: u64) -> (unit: DurationUnit)
    ensures
        unit == if ms >= 60_000 {
            DurationUnit::Minutes
        } else if ms >= 1_000 {
            DurationUnit::Seconds
        } else {
            DurationUnit::Milliseconds
        },
{
    if ms >= 60_000 {
        DurationUnit::Minutes
    } else if ms >= 1_000 {
        DurationUnit::Seconds
    } else {
        DurationUnit::Milliseconds
    }
}

} // verus!
