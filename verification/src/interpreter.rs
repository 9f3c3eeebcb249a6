//! Agent events: what a line of output says about which agent is at work.
//!
//! Two families of markers are recognised side by side: structured tags of
//! the form `[AGENT:<NAME>:START]` and `[AGENT:<NAME>:END]`, and the phrases
//! of older output.  A line may hold one event of each family.

use crate::agent::{Agent, AgentMap, AgentState};
use crate::text::{contains, str_contains};
use vstd::prelude::*;

verus! {

/// What a marker reports.
#[derive(Debug, Clone, Copy, PartialEq, Eq, Structural)]
pub enum AgentEvent {
    /// The agent has taken up work.
    Started(Agent),
    /// The agent has finished its turn.
    Ended(Agent),
    /// The whole run is complete.
    Completed,
}

/// The event of the structured tag on a line, if it holds one.
///
/// Start tags are looked for before end tags, and within each kind the
/// agents are tried in the order orchestrator, engineer, designer, translator;
/// the first tag found decides.
pub open spec fn structured_event(line: Seq<char>) -> Option<AgentEvent> {
    if contains(line, "[AGENT:ORCHESTRATOR:START]"@) {
        Some(AgentEvent::Started(Agent::Orchestrator))
    } else if contains(line, "[AGENT:ENGINEER:START]"@) {
        Some(AgentEvent::Started(Agent::Engineer))
    } else if contains(line, "[AGENT:DESIGNER:START]"@) {
        Some(AgentEvent::Started(Agent::Designer))
    } else if contains(line, "[AGENT:TRANSLATOR:START]"@) {
        Some(AgentEvent::Started(Agent::Translator))
    } else if contains(line, "[AGENT:ORCHESTRATOR:END]"@) {
        Some(AgentEvent::Ended(Agent::Orchestrator))
    } else if contains(line, "[AGENT:ENGINEER:END]"@) {
        Some(AgentEvent::Ended(Agent::Engineer))
    } else if contains(line, "[AGENT:DESIGNER:END]"@) {
        Some(AgentEvent::Ended(Agent::Designer))
    } else if contains(line, "[AGENT:TRANSLATOR:END]"@) {
        Some(AgentEvent::Ended(Agent::Translator))
    } else {
        None
    }
}

/// The event of the phrase on a line, if it holds one.  The phrases are tried
/// in a fixed order and the first found decides; the completion marker comes
/// last.
pub open spec fn phrase_event(line: Seq<char>) -> Option<AgentEvent> {
    if contains(line, "[Swarm] Orchestrator is thinking"@) {
        Some(AgentEvent::Started(Agent::Orchestrator))
    } else if contains(line, "[Swarm] Engineer is coding"@) {
        Some(AgentEvent::Started(Agent::Engineer))
    } else if contains(line, "[Swarm] Designer is reviewing"@) {
        Some(AgentEvent::Started(Agent::Designer))
    } else if contains(line, "[V2] Translator processing"@) {
        Some(AgentEvent::Started(Agent::Translator))
    } else if contains(line, "[V2] Spawning ASIC"@) || contains(line, "ASIC:"@) {
        Some(AgentEvent::Started(Agent::Asic))
    } else if contains(line, "<promise>COMPLETE</promise>"@) {
        Some(AgentEvent::Completed)
    } else {
        None
    }
}

/// The agent states after an event.  A start makes the agent the only active
/// one; an end makes the agent idle and touches no other; completion makes
/// every agent idle.
pub open spec fn states_after(
    states: AgentMap<AgentState>,
    event: AgentEvent,
) -> AgentMap<AgentState> {
    match event {
        AgentEvent::Started(agent) => AgentMap::uniform(AgentState::Idle).with(
            agent,
            AgentState::Active,
        ),
        AgentEvent::Ended(agent) => states.with(agent, AgentState::Idle),
        AgentEvent::Completed => AgentMap::uniform(AgentState::Idle),
    }
}

/// The active edge after an event.  A start lights the edge from the agent's
/// predecessor, or none for the agent that has no predecessor; an end leaves
/// the edge as it is; completion clears it.
pub open spec fn edge_after(edge: Option<(Agent, Agent)>, event: AgentEvent) -> Option<
    (Agent, Agent),
> {
    match event {
        AgentEvent::Started(agent) => agent.inbound(),
        AgentEvent::Ended(_) => edge,
        AgentEvent::Completed => None,
    }
}

/// The agent states after an event that may be absent.
pub open spec fn states_after_maybe(
    states: AgentMap<AgentState>,
    event: Option<AgentEvent>,
) -> AgentMap<AgentState> {
    match event {
        Some(e) => states_after(states, e),
        None => states,
    }
}

/// The active edge after an event that may be absent.
pub open spec fn edge_after_maybe(
    edge: Option<(Agent, Agent)>,
    event: Option<AgentEvent>,
) -> Option<(Agent, Agent)> {
    match event {
        Some(e) => edge_after(edge, e),
        None => edge,
    }
}

/// The agent states after a line: the event of its tag is applied first,
/// then the event of its phrase.
pub open spec fn states_after_line(
    states: AgentMap<AgentState>,
    line: Seq<char>,
) -> AgentMap<AgentState> {
    states_after_maybe(states_after_maybe(states, structured_event(line)), phrase_event(line))
}

/// The active edge after a line: the event of its tag is applied first, then
/// the event of its phrase.
pub open spec fn edge_after_line(edge: Option<(Agent, Agent)>, line: Seq<char>) -> Option<
    (Agent, Agent),
> {
    edge_after_maybe(edge_after_maybe(edge, structured_event(line)), phrase_event(line))
}

/// No two agents are active at once.
pub open spec fn at_most_one_active(states: AgentMap<AgentState>) -> bool {
    forall|a: Agent, b: Agent|
        states.at(a) == AgentState::Active && states.at(b) == AgentState::Active ==> a == b
}

/// The event of the structured tag on a line, if it holds one.
pub fn read_tag(line: &str) -> (event: Option<AgentEvent>)
    ensures
        event == structured_event(line@),
{
    if str_contains(line, "[AGENT:ORCHESTRATOR:START]") {
        Some(AgentEvent::Started(Agent::Orchestrator))
    } else if str_contains(line, "[AGENT:ENGINEER:START]") {
        Some(AgentEvent::Started(Agent::Engineer))
    } else if str_contains(line, "[AGENT:DESIGNER:START]") {
        Some(AgentEvent::Started(Agent::Designer))
    } else if str_contains(line, "[AGENT:TRANSLATOR:START]") {
        Some(AgentEvent::Started(Agent::Translator))
    } else if str_contains(line, "[AGENT:ORCHESTRATOR:END]") {
        Some(AgentEvent::Ended(Agent::Orchestrator))
    } else if str_contains(line, "[AGENT:ENGINEER:END]") {
        Some(AgentEvent::Ended(Agent::Engineer))
    } else if str_contains(line, "[AGENT:DESIGNER:END]") {
        Some(AgentEvent::Ended(Agent::Designer))
    } else if str_contains(line, "[AGENT:TRANSLATOR:END]") {
        Some(AgentEvent::Ended(Agent::Translator))
    } else {
        None
    }
}

/// The event of the phrase on a line, if it holds one.
pub fn read_phrase(line: &str) -> (event: Option<AgentEvent>)
    ensures
        event == phrase_event(line@),
{
    if str_contains(line, "[Swarm] Orchestrator is thinking") {
        Some(AgentEvent::Started(Agent::Orchestrator))
    } else if str_contains(line, "[Swarm] Engineer is coding") {
        Some(AgentEvent::Started(Agent::Engineer))
    } else if str_contains(line, "[Swarm] Designer is reviewing") {
        Some(AgentEvent::Started(Agent::Designer))
    } else if str_contains(line, "[V2] Translator processing") {
        Some(AgentEvent::Started(Agent::Translator))
    } else if str_contains(line, "[V2] Spawning ASIC") || str_contains(line, "ASIC:") {
        Some(AgentEvent::Started(Agent::Asic))
    } else if str_contains(line, "<promise>COMPLETE</promise>") {
        Some(AgentEvent::Completed)
    } else {
        None
    }
}

/// Applies an event to the agent states and the active edge.
pub fn apply_event(
    states: &mut AgentMap<AgentState>,
    edge: &mut Option<(Agent, Agent)>,
    event: AgentEvent,
)
    ensures
        *final(states) == states_after(*old(states), event),
        *final(edge) == edge_after(*old(edge), event),
{
    match event {
        AgentEvent::Started(agent) => {
            *states = AgentMap::filled(AgentState::Idle);
            states.insert(agent, AgentState::Active);
            *edge = agent.inbound_edge();
        },
        AgentEvent::Ended(agent) => {
            states.insert(agent, AgentState::Idle);
        },
        AgentEvent::Completed => {
            *states = AgentMap::filled(AgentState::Idle);
            *edge = None;
        },
    }
}

/// Applies what a line says about the agents: the event of its tag first,
/// then the event of its phrase.
pub fn apply_line(
    states: &mut AgentMap<AgentState>,
    edge: &mut Option<(Agent, Agent)>,
    line: &str,
)
    ensures
        *final(states) == states_after_line(*old(states), line@),
        *final(edge) == edge_after_line(*old(edge), line@),
{
    match read_tag(line) {
        Some(event) => {
            apply_event(states, edge, event);
        },
        None => {},
    }
    match read_phrase(line) {
        Some(event) => {
            apply_event(states, edge, event);
        },
        None => {},
    }
}

/// After a start the agent is active, every other agent is idle and the
/// edge is the one that leads to the agent, whatever stood before.
pub proof fn lemma_start_is_exclusive(
    states: AgentMap<AgentState>,
    edge: Option<(Agent, Agent)>,
    agent: Agent,
    other: Agent,
)
    ensures
        states_after(states, AgentEvent::Started(agent)).at(agent) == AgentState::Active,
        other != agent ==> states_after(states, AgentEvent::Started(agent)).at(other)
            == AgentState::Idle,
        edge_after(edge, AgentEvent::Started(agent)) == agent.inbound(),
{
}

/// An end makes its agent idle, leaves every other agent as it was and does
/// not touch the edge.
pub proof fn lemma_end_is_local(
    states: AgentMap<AgentState>,
    edge: Option<(Agent, Agent)>,
    agent: Agent,
    other: Agent,
)
    ensures
        states_after(states, AgentEvent::Ended(agent)).at(agent) == AgentState::Idle,
        other != agent ==> states_after(states, AgentEvent::Ended(agent)).at(other) == states.at(
            other,
        ),
        edge_after(edge, AgentEvent::Ended(agent)) == edge,
{
}

/// Completion leaves no agent active and no edge lit.
pub proof fn lemma_completion_clears(
    states: AgentMap<AgentState>,
    edge: Option<(Agent, Agent)>,
    agent: Agent,
)
    ensures
        states_after(states, AgentEvent::Completed).at(agent) == AgentState::Idle,
        edge_after(edge, AgentEvent::Completed) is None,
{
}

/// No event can make two agents active: where at most one agent is active
/// before an event, at most one is active after it; and after a start or a
/// completion that holds whatever stood before.
pub proof fn lemma_single_active_agent(states: AgentMap<AgentState>, event: AgentEvent)
    ensures
        at_most_one_active(states) ==> at_most_one_active(states_after(states, event)),
        !(event is Ended) ==> at_most_one_active(states_after(states, event)),
{
    let after = states_after(states, event);
    match event {
        AgentEvent::Started(agent) => {
            assert forall|a: Agent, b: Agent|
                after.at(a) == AgentState::Active && after.at(b) == AgentState::Active implies a
                == b by {
                assert(a == agent && b == agent);
            }
        },
        AgentEvent::Ended(agent) => {
            if at_most_one_active(states) {
                assert forall|a: Agent, b: Agent|
                    after.at(a) == AgentState::Active && after.at(b)
                        == AgentState::Active implies a == b by {
                    assert(states.at(a) == AgentState::Active);
                    assert(states.at(b) == AgentState::Active);
                }
            }
        },
        AgentEvent::Completed => {},
    }
}

/// A line keeps the agents exclusive too, since it applies at most two events.
pub proof fn lemma_line_keeps_single_active(states: AgentMap<AgentState>, line: Seq<char>)
    ensures
        at_most_one_active(states) ==> at_most_one_active(states_after_line(states, line)),
{
    let mid = states_after_maybe(states, structured_event(line));
    match structured_event(line) {
        Some(e) => lemma_single_active_agent(states, e),
        None => {},
    }
    match phrase_event(line) {
        Some(e) => lemma_single_active_agent(mid, e),
        None => {},
    }
}

/// Whenever an edge is lit by an event it ends at an agent and starts at that
/// agent's predecessor in the pipeline.
pub proof fn lemma_edge_follows_pipeline(edge: Option<(Agent, Agent)>, event: AgentEvent)
    ensures
        event matches AgentEvent::Started(agent) ==> match edge_after(edge, event) {
            Some((from, to)) => to == agent && agent.upstream() == Some(from),
            None => agent == Agent::Translator,
        },
{
}

} // verus!
