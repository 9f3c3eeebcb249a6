use ralph_core::log::LogLevel;
use ralph_core::messages::MessageType;
use ralph_core::supervisor::{
    entry_point, locate_entry, mode_flag, read_stderr_line, read_stdout_line, Lifecycle,
    LifecycleEvent, SupervisorError, WorkingDir,
};

#[test]
fn kill_stops_a_running_process() {
    let mut state = Lifecycle::new();
    assert!(!state.is_running());
    state.on_event(LifecycleEvent::Spawned);
    assert!(state.is_running());
    assert!(state.kill());
    assert!(!state.is_running());
}

#[test]
fn kill_twice_is_safe() {
    let mut state = Lifecycle::new();
    state.on_event(LifecycleEvent::Spawned);
    state.kill();
    let after_first = state;
    assert!(state.kill());
    assert_eq!(state, after_first);
    assert!(!state.is_running());
}

#[test]
fn kill_before_any_start_has_nothing_to_terminate() {
    let mut state = Lifecycle::new();
    assert!(!state.kill());
    assert_eq!(state, Lifecycle::Idle);
    assert!(!state.kill());
    assert!(!state.is_running());
}

#[test]
fn the_end_of_output_stops_the_run() {
    let mut state = Lifecycle::new();
    state.on_event(LifecycleEvent::OutputClosed);
    assert_eq!(state, Lifecycle::Idle);
    state.on_event(LifecycleEvent::Spawned);
    state.on_event(LifecycleEvent::OutputClosed);
    assert_eq!(state, Lifecycle::Stopped);
    assert!(!state.is_running());
    state.on_event(LifecycleEvent::OutputClosed);
    assert_eq!(state, Lifecycle::Stopped);
}

#[test]
fn a_stopped_run_restarts_only_on_a_new_spawn() {
    let mut state = Lifecycle::new();
    state.on_event(LifecycleEvent::Spawned);
    state.kill();
    state.on_event(LifecycleEvent::OutputClosed);
    assert!(!state.is_running());
    state.on_event(LifecycleEvent::Spawned);
    assert!(state.is_running());
}

#[test]
fn messages_can_be_sent_once_a_process_was_started() {
    let mut state = Lifecycle::new();
    assert!(!state.can_send());
    state.on_event(LifecycleEvent::Spawned);
    assert!(state.can_send());
    state.kill();
    assert!(state.can_send());
}

#[test]
fn blank_lines_of_output_give_nothing() {
    assert!(read_stdout_line("").is_none());
    assert!(read_stdout_line("   \t").is_none());
    assert!(read_stderr_line(String::new()).is_none());
    assert!(read_stderr_line(" \u{a0} ".to_string()).is_none());
}

#[test]
fn a_line_of_output_gives_its_log_entry() {
    let record = read_stdout_line("  [Runner] up  ").unwrap();
    assert!(record.message.is_none());
    assert_eq!(record.entry.level, LogLevel::System);
    assert_eq!(record.entry.message, "[Runner] up");
}

#[test]
fn a_message_line_gives_message_and_log_entry() {
    let line = "[MESSAGE] {\"id\":\"1\",\"type\":\"evaluation\",\"sender\":\"designer\",\"receiver\":\"engineer\",\"payload\":{\"score\":3},\"timestamp\":\"t\"}";
    let record = read_stdout_line(line).unwrap();
    let message = record.message.expect("the line carries a message");
    assert_eq!(message.msg_type, MessageType::Evaluation);
    assert_eq!(message.payload.unsigned_field("score"), Some(3));
    assert_eq!(record.entry.message, line);
    assert_eq!(record.entry.level, LogLevel::Info);
}

#[test]
fn a_message_line_that_does_not_decode_is_still_logged() {
    let record = read_stdout_line("[MESSAGE] {broken").unwrap();
    assert!(record.message.is_none());
    assert_eq!(record.entry.message, "[MESSAGE] {broken");
    assert_eq!(record.entry.level, LogLevel::Info);
}

#[test]
fn a_line_of_standard_error_is_an_error_entry_as_it_came() {
    let entry = read_stderr_line("  warning: unused  ".to_string()).unwrap();
    assert_eq!(entry.level, LogLevel::Error);
    assert_eq!(entry.message, "  warning: unused  ");
}

#[test]
fn the_entry_point_is_looked_for_in_the_parent_first() {
    assert!(matches!(locate_entry(true, true, "x"), Ok(WorkingDir::Parent)));
    assert!(matches!(locate_entry(true, false, "x"), Ok(WorkingDir::Parent)));
    assert!(matches!(locate_entry(false, true, "x"), Ok(WorkingDir::Current)));
    match locate_entry(false, false, "\"/work/ralph_loop.sh\"") {
        Err(SupervisorError::SpawnError(reason)) => {
            assert_eq!(reason, "ralph_loop.sh not found at \"/work/ralph_loop.sh\"");
        }
        other => panic!("no spawn error: {:?}", other),
    }
}

#[test]
fn the_process_is_started_with_a_fixed_flag() {
    assert_eq!(entry_point(), "ralph_loop.sh");
    assert_eq!(mode_flag(), "--v2");
}

#[test]
fn errors_carry_their_reason() {
    let spawn = SupervisorError::spawn_failed("permission denied");
    assert!(matches!(spawn, SupervisorError::SpawnError(_)));
    assert_eq!(spawn.message(), "Failed to spawn: permission denied");
    let write = SupervisorError::write_failed("Broken pipe (os error 32)");
    assert!(matches!(write, SupervisorError::IOError(_)));
    assert_eq!(write.message(), "Broken pipe (os error 32)");
}

#[test]
fn sending_before_any_start_is_an_io_error() {
    let mut state = Lifecycle::new();
    match state.check_send() {
        Err(SupervisorError::IOError(reason)) => assert_eq!(reason, "Stdin not available"),
        other => panic!("no I/O error: {:?}", other),
    }
    state.on_event(LifecycleEvent::Spawned);
    assert!(state.check_send().is_ok());
    state.on_event(LifecycleEvent::OutputClosed);
    assert!(state.check_send().is_ok());
}
