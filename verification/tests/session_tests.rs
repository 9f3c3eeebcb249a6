use ralph_core::agent::{Agent, AgentState};
use ralph_core::log::{LogEntry, LogLevel};
use ralph_core::plan::TaskStatus;
use ralph_core::session::{RalphApp, MAX_LOG_ENTRIES};

fn feed(app: &mut RalphApp, line: &str) {
    app.process_entry(LogEntry::parse(line));
}

fn log_lines(app: &RalphApp) -> Vec<(LogLevel, String)> {
    (0..app.logs.len())
        .map(|i| {
            let entry = app.logs.get(i).unwrap();
            (entry.level, entry.message.clone())
        })
        .collect()
}

#[test]
fn test_app_initial_state() {
    let app = RalphApp::default();

    assert_eq!(app.objective_input, "");
    assert!(app.logs.is_empty());

    assert!(!app.is_paused);
    assert!(!app.sandbox_enabled);

    for agent in Agent::all() {
        assert!(app.enabled_agents.get(agent).copied().unwrap_or(false));
    }
}

#[test]
fn a_new_dashboard_is_idle_and_empty() {
    let app = RalphApp::new();
    for agent in Agent::all() {
        assert_eq!(app.agent_states.get(agent), Some(&AgentState::Idle));
    }
    assert_eq!(app.active_connection, None);
    assert!(!app.show_system_logs);
    assert!(!app.is_thinking());
    assert_eq!(app.current_thought(), "");
    assert_eq!(app.metrics.total_tokens, 0);
    assert_eq!(app.metrics.active_model, "");
    assert!(app.tasks.is_empty());
    assert_eq!(app.logs.limit(), MAX_LOG_ENTRIES);
    assert_eq!(MAX_LOG_ENTRIES, 500);
}

#[test]
fn a_think_block_becomes_one_thought_entry() {
    let mut app = RalphApp::new();
    feed(&mut app, "<think>partial");
    assert!(app.is_thinking());
    feed(&mut app, "more text");
    assert!(app.logs.is_empty());
    feed(&mut app, "end</think>");
    assert!(!app.is_thinking());
    assert_eq!(
        log_lines(&app),
        vec![(LogLevel::Thought, "partial\nmore text\nend".to_string())]
    );
    assert_eq!(app.current_thought(), "partial\nmore text\nend");
}

#[test]
fn lines_inside_a_think_block_change_nothing_else() {
    let mut app = RalphApp::new();
    feed(&mut app, "<think>");
    feed(&mut app, "[AGENT:ENGINEER:START]");
    feed(&mut app, "[METRICS] {\"type\":\"llm_call\",\"prompt_tokens\":10}");
    feed(&mut app, "[PLAN] {\"tasks\":[{\"id\":1}]}");
    assert!(app.logs.is_empty());
    assert_eq!(app.agent_states.get(&Agent::Engineer), Some(&AgentState::Idle));
    assert_eq!(app.active_connection, None);
    assert_eq!(app.metrics.total_tokens, 0);
    assert!(app.tasks.is_empty());
    feed(&mut app, "</think>");
    assert_eq!(log_lines(&app).len(), 1);
    feed(&mut app, "[AGENT:ENGINEER:START]");
    assert_eq!(app.agent_states.get(&Agent::Engineer), Some(&AgentState::Active));
}

#[test]
fn agent_tags_drive_states_and_edge() {
    let mut app = RalphApp::new();
    feed(&mut app, "[AGENT:ENGINEER:START]");
    feed(&mut app, "[AGENT:DESIGNER:START]");
    assert_eq!(app.agent_states.get(&Agent::Designer), Some(&AgentState::Active));
    assert_eq!(app.agent_states.get(&Agent::Engineer), Some(&AgentState::Idle));
    assert_eq!(app.active_connection, Some((Agent::Engineer, Agent::Designer)));
    assert_eq!(
        log_lines(&app),
        vec![
            (LogLevel::Agent, "[AGENT:ENGINEER:START]".to_string()),
            (LogLevel::Agent, "[AGENT:DESIGNER:START]".to_string()),
        ]
    );
    feed(&mut app, "<promise>COMPLETE</promise>");
    for agent in Agent::all() {
        assert_eq!(app.agent_states.get(agent), Some(&AgentState::Idle));
    }
    assert_eq!(app.active_connection, None);
}

#[test]
fn parse_agent_event_applies_one_entry() {
    let mut app = RalphApp::new();
    app.parse_agent_event(&LogEntry::parse("[Swarm] Orchestrator is thinking"));
    assert_eq!(app.agent_states.get(&Agent::Orchestrator), Some(&AgentState::Active));
    assert_eq!(app.active_connection, Some((Agent::Translator, Agent::Orchestrator)));
    assert!(app.logs.is_empty());
}

#[test]
fn metrics_lines_feed_the_counters() {
    let mut app = RalphApp::new();
    feed(
        &mut app,
        "[METRICS] {\"type\":\"llm_call\",\"prompt_tokens\":10,\"completion_tokens\":5,\"duration_ms\":200,\"model\":\"x\"}",
    );
    feed(&mut app, "[METRICS] {\"type\":\"llm_call\",\"prompt_tokens\":3}");
    assert_eq!(app.metrics.total_tokens, 18);
    assert_eq!(app.metrics.last_duration_ms, 200);
    assert_eq!(app.metrics.active_model, "x");
    feed(&mut app, "[METRICS] {\"type\":\"iteration\",\"iteration\":2}");
    assert_eq!(app.metrics.iterations, 2);
    feed(&mut app, "[METRICS] not json at all");
    feed(&mut app, "note [METRICS] {\"type\":\"llm_call\",\"completion_tokens\":2}");
    assert_eq!(app.metrics.total_tokens, 20);
    assert_eq!(app.logs.len(), 5);
    assert_eq!(app.logs.get(0).unwrap().level, LogLevel::System);
    assert_eq!(app.logs.get(4).unwrap().level, LogLevel::Info);
}

#[test]
fn plan_lines_replace_the_tasks() {
    let mut app = RalphApp::new();
    feed(&mut app, "[PLAN] {\"tasks\":[{\"id\":1,\"description\":\"a\",\"status\":\"complete\"}]}");
    assert_eq!(app.tasks.len(), 1);
    assert_eq!(app.tasks[0].id, 1);
    assert_eq!(app.tasks[0].description, "a");
    assert_eq!(app.tasks[0].status, TaskStatus::Complete);
    feed(&mut app, "[PLAN] {not json");
    assert_eq!(app.tasks.len(), 1);
    assert_eq!(app.tasks[0].description, "a");
    assert_eq!(app.logs.len(), 2);
    feed(&mut app, "[PLAN] {\"tasks\":[{\"id\":2},{\"id\":3}]}");
    assert_eq!(app.tasks.iter().map(|t| t.id).collect::<Vec<_>>(), vec![2, 3]);
}

#[test]
fn the_log_keeps_the_newest_five_hundred() {
    let mut app = RalphApp::new();
    for i in 0..(MAX_LOG_ENTRIES + 25) {
        app.add_log(LogEntry::info(format!("line {}", i)));
        assert!(app.logs.len() <= MAX_LOG_ENTRIES);
    }
    assert_eq!(app.logs.len(), MAX_LOG_ENTRIES);
    assert_eq!(app.logs.get(0).unwrap().message, "line 25");
    assert_eq!(app.logs.get(MAX_LOG_ENTRIES - 1).unwrap().message, "line 524");
}

#[test]
fn a_started_run_begins_from_a_clean_state() {
    let mut app = RalphApp::new();
    app.objective_input = "build a parser".to_string();
    app.show_system_logs = true;
    feed(&mut app, "[AGENT:ENGINEER:START]");
    feed(&mut app, "[METRICS] {\"type\":\"llm_call\",\"prompt_tokens\":10}");
    feed(&mut app, "[PLAN] {\"tasks\":[{\"id\":1}]}");
    feed(&mut app, "<think>half a thought");
    assert!(app.start_run(Ok(())));
    assert_eq!(log_lines(&app), vec![(LogLevel::System, "Starting Ralph...".to_string())]);
    assert_eq!(app.agent_states.get(&Agent::Engineer), Some(&AgentState::Idle));
    assert_eq!(app.active_connection, None);
    assert_eq!(app.metrics.total_tokens, 0);
    assert!(app.tasks.is_empty());
    assert!(!app.is_thinking());
    assert_eq!(app.current_thought(), "");
    assert_eq!(app.objective_input, "build a parser");
    assert!(app.show_system_logs);
}

#[test]
fn a_failed_start_is_logged_as_an_error() {
    let mut app = RalphApp::new();
    feed(&mut app, "left over");
    assert!(!app.start_run(Err("ralph_loop.sh not found".to_string())));
    assert_eq!(
        log_lines(&app),
        vec![(LogLevel::Error, "Failed to start: ralph_loop.sh not found".to_string())]
    );
}

#[test]
fn an_objective_can_be_submitted_when_it_says_something_and_nothing_runs() {
    let mut app = RalphApp::new();
    assert!(!app.can_submit(false));
    app.objective_input = "   ".to_string();
    assert!(!app.can_submit(false));
    app.objective_input = "  build it ".to_string();
    assert!(app.can_submit(false));
    assert!(!app.can_submit(true));
    assert_eq!(app.take_objective(), "build it");
    assert_eq!(app.objective_input, "");
    assert!(!app.can_submit(false));
}

#[test]
fn six_hundred_lines_leave_the_newest_five_hundred() {
    let mut app = RalphApp::new();
    for i in 0..600 {
        feed(&mut app, &format!("line {}", i));
    }
    assert_eq!(app.logs.len(), 500);
    assert_eq!(app.logs.get(0).unwrap().message, "line 100");
    assert_eq!(app.logs.get(499).unwrap().message, "line 599");
}
