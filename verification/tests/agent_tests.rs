use ralph_core::agent::{Agent, AgentMap, AgentState};
use ralph_core::interpreter::{apply_event, apply_line, read_phrase, read_tag, AgentEvent};

#[test]
fn all_lists_the_five_agents_in_pipeline_order() {
    assert_eq!(
        Agent::all(),
        [Agent::Translator, Agent::Orchestrator, Agent::Engineer, Agent::Designer, Agent::Asic]
    );
}

#[test]
fn names_are_the_display_names() {
    assert_eq!(Agent::Translator.name(), "Translator");
    assert_eq!(Agent::Orchestrator.name(), "Orchestrator");
    assert_eq!(Agent::Engineer.name(), "Engineer");
    assert_eq!(Agent::Designer.name(), "Designer");
    assert_eq!(Agent::Asic.name(), "ASICs");
}

#[test]
fn predecessors_follow_the_pipeline() {
    assert_eq!(Agent::Translator.predecessor(), None);
    assert_eq!(Agent::Orchestrator.predecessor(), Some(Agent::Translator));
    assert_eq!(Agent::Engineer.predecessor(), Some(Agent::Orchestrator));
    assert_eq!(Agent::Designer.predecessor(), Some(Agent::Engineer));
    assert_eq!(Agent::Asic.predecessor(), Some(Agent::Designer));
    assert_eq!(Agent::Translator.inbound_edge(), None);
    assert_eq!(Agent::Asic.inbound_edge(), Some((Agent::Designer, Agent::Asic)));
}

#[test]
fn agent_state_defaults_to_idle() {
    assert_eq!(AgentState::default(), AgentState::Idle);
}

#[test]
fn agent_map_holds_one_value_per_agent() {
    let mut map = AgentMap::filled(0u8);
    map.insert(Agent::Engineer, 3);
    map.insert(Agent::Asic, 5);
    assert_eq!(map.get(&Agent::Engineer), Some(&3));
    assert_eq!(map.get(&Agent::Asic), Some(&5));
    assert_eq!(map.get(&Agent::Translator), Some(&0));
    assert_eq!(map.get(&Agent::Orchestrator), Some(&0));
    assert_eq!(map.get(&Agent::Designer), Some(&0));
}

fn board() -> (AgentMap<AgentState>, Option<(Agent, Agent)>) {
    (AgentMap::filled(AgentState::Idle), None)
}

fn active_agents(states: &AgentMap<AgentState>) -> Vec<Agent> {
    Agent::all()
        .iter()
        .copied()
        .filter(|a| states.get(a) == Some(&AgentState::Active))
        .collect()
}

#[test]
fn engineer_start_then_designer_start() {
    let (mut states, mut edge) = board();
    apply_line(&mut states, &mut edge, "[AGENT:ENGINEER:START]");
    assert_eq!(active_agents(&states), vec![Agent::Engineer]);
    assert_eq!(edge, Some((Agent::Orchestrator, Agent::Engineer)));
    apply_line(&mut states, &mut edge, "[AGENT:DESIGNER:START]");
    assert_eq!(states.get(&Agent::Designer), Some(&AgentState::Active));
    assert_eq!(states.get(&Agent::Engineer), Some(&AgentState::Idle));
    assert_eq!(active_agents(&states), vec![Agent::Designer]);
    assert_eq!(edge, Some((Agent::Engineer, Agent::Designer)));
}

#[test]
fn end_makes_the_agent_idle_and_keeps_the_edge() {
    let (mut states, mut edge) = board();
    apply_line(&mut states, &mut edge, "[AGENT:ORCHESTRATOR:START]");
    assert_eq!(edge, Some((Agent::Translator, Agent::Orchestrator)));
    apply_line(&mut states, &mut edge, "[AGENT:ORCHESTRATOR:END]");
    assert_eq!(active_agents(&states), Vec::<Agent>::new());
    assert_eq!(edge, Some((Agent::Translator, Agent::Orchestrator)));
}

#[test]
fn end_of_another_agent_leaves_the_active_one() {
    let (mut states, mut edge) = board();
    apply_line(&mut states, &mut edge, "[AGENT:ENGINEER:START]");
    apply_line(&mut states, &mut edge, "[AGENT:DESIGNER:END]");
    assert_eq!(active_agents(&states), vec![Agent::Engineer]);
    assert_eq!(edge, Some((Agent::Orchestrator, Agent::Engineer)));
}

#[test]
fn translator_start_clears_the_edge() {
    let (mut states, mut edge) = board();
    apply_line(&mut states, &mut edge, "[AGENT:DESIGNER:START]");
    apply_line(&mut states, &mut edge, "[AGENT:TRANSLATOR:START]");
    assert_eq!(active_agents(&states), vec![Agent::Translator]);
    assert_eq!(edge, None);
    apply_line(&mut states, &mut edge, "[AGENT:DESIGNER:START]");
    apply_line(&mut states, &mut edge, "[V2] Translator processing input");
    assert_eq!(active_agents(&states), vec![Agent::Translator]);
    assert_eq!(edge, None);
}

#[test]
fn phrases_are_honoured_like_tags() {
    assert_eq!(
        read_phrase("[Swarm] Orchestrator is thinking..."),
        Some(AgentEvent::Started(Agent::Orchestrator))
    );
    assert_eq!(
        read_phrase("[Swarm] Engineer is coding"),
        Some(AgentEvent::Started(Agent::Engineer))
    );
    assert_eq!(
        read_phrase("[Swarm] Designer is reviewing"),
        Some(AgentEvent::Started(Agent::Designer))
    );
    assert_eq!(
        read_phrase("[V2] Translator processing"),
        Some(AgentEvent::Started(Agent::Translator))
    );
    assert_eq!(read_phrase("[V2] Spawning ASIC 3"), Some(AgentEvent::Started(Agent::Asic)));
    assert_eq!(read_phrase("ASIC: working"), Some(AgentEvent::Started(Agent::Asic)));
    assert_eq!(read_phrase("<promise>COMPLETE</promise>"), Some(AgentEvent::Completed));
    assert_eq!(read_phrase("nothing of note"), None);
}

#[test]
fn tags_are_read_exactly() {
    assert_eq!(
        read_tag("x [AGENT:ORCHESTRATOR:START] y"),
        Some(AgentEvent::Started(Agent::Orchestrator))
    );
    assert_eq!(read_tag("[AGENT:ENGINEER:END]"), Some(AgentEvent::Ended(Agent::Engineer)));
    assert_eq!(read_tag("[AGENT:DESIGNER:END]"), Some(AgentEvent::Ended(Agent::Designer)));
    assert_eq!(read_tag("[AGENT:TRANSLATOR:END]"), Some(AgentEvent::Ended(Agent::Translator)));
    assert_eq!(read_tag("[AGENT:ASIC:START]"), None);
    assert_eq!(read_tag("[AGENT:engineer:START]"), None);
    assert_eq!(
        read_tag("[AGENT:ENGINEER:END] [AGENT:DESIGNER:START]"),
        Some(AgentEvent::Started(Agent::Designer))
    );
}

#[test]
fn a_line_with_tag_and_phrase_applies_both_in_order() {
    let (mut states, mut edge) = board();
    apply_line(&mut states, &mut edge, "[AGENT:ENGINEER:START] [Swarm] Designer is reviewing");
    assert_eq!(active_agents(&states), vec![Agent::Designer]);
    assert_eq!(edge, Some((Agent::Engineer, Agent::Designer)));
}

#[test]
fn asic_start_lights_the_edge_from_the_designer() {
    let (mut states, mut edge) = board();
    apply_line(&mut states, &mut edge, "[V2] Spawning ASIC");
    assert_eq!(active_agents(&states), vec![Agent::Asic]);
    assert_eq!(edge, Some((Agent::Designer, Agent::Asic)));
}

#[test]
fn completion_resets_every_agent_and_the_edge() {
    let (mut states, mut edge) = board();
    apply_event(&mut states, &mut edge, AgentEvent::Started(Agent::Designer));
    apply_line(&mut states, &mut edge, "<promise>COMPLETE</promise>");
    assert_eq!(active_agents(&states), Vec::<Agent>::new());
    assert_eq!(edge, None);
}

#[test]
fn at_most_one_agent_is_active_after_any_sequence_of_events() {
    let events = [
        AgentEvent::Started(Agent::Engineer),
        AgentEvent::Ended(Agent::Designer),
        AgentEvent::Started(Agent::Asic),
        AgentEvent::Started(Agent::Translator),
        AgentEvent::Ended(Agent::Translator),
        AgentEvent::Completed,
        AgentEvent::Started(Agent::Orchestrator),
    ];
    let (mut states, mut edge) = board();
    for event in events {
        apply_event(&mut states, &mut edge, event);
        assert!(active_agents(&states).len() <= 1);
    }
    assert_eq!(active_agents(&states), vec![Agent::Orchestrator]);
}
