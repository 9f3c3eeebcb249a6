use ralph_core::think::{ThinkBlock, ThinkOutcome, ThinkRoute};

fn thought(outcome: ThinkOutcome) -> String {
    match outcome {
        ThinkOutcome::Thought(text) => text,
        other => panic!("no transcript: {:?}", other),
    }
}

#[test]
fn three_lines_give_one_transcript() {
    let mut block = ThinkBlock::new();
    assert!(matches!(block.feed("<think>partial"), ThinkOutcome::Absorbed));
    assert!(block.active);
    assert!(matches!(block.feed("more text"), ThinkOutcome::Absorbed));
    assert_eq!(thought(block.feed("end</think>")), "partial\nmore text\nend");
    assert!(!block.active);
    assert_eq!(block.text(), "partial\nmore text\nend");
}

#[test]
fn markers_alone_add_no_line() {
    let mut block = ThinkBlock::new();
    assert!(matches!(block.feed("<think>"), ThinkOutcome::Absorbed));
    assert_eq!(block.text(), "");
    assert!(matches!(block.feed("only line"), ThinkOutcome::Absorbed));
    assert_eq!(thought(block.feed("</think>")), "only line");
}

#[test]
fn an_empty_transcript_is_still_emitted() {
    let mut block = ThinkBlock::new();
    block.feed("<think>");
    assert_eq!(thought(block.feed("</think> trailing")), "");
}

#[test]
fn text_before_the_opening_marker_is_dropped() {
    let mut block = ThinkBlock::new();
    block.feed("prefix <think>seed");
    assert_eq!(block.lines, vec!["seed".to_string()]);
    block.feed("again<think>second<think>third");
    assert_eq!(block.lines, vec!["second".to_string()]);
}

#[test]
fn a_line_with_both_markers_opens() {
    let mut block = ThinkBlock::new();
    assert!(matches!(block.feed("<think>short</think>"), ThinkOutcome::Absorbed));
    assert!(block.active);
    assert_eq!(block.text(), "short</think>");
}

#[test]
fn a_new_opening_drops_the_old_transcript() {
    let mut block = ThinkBlock::new();
    block.feed("<think>one");
    block.feed("two");
    block.feed("<think>three");
    assert_eq!(thought(block.feed("</think>")), "three");
}

#[test]
fn lines_outside_a_transcript_pass() {
    let mut block = ThinkBlock::new();
    assert!(matches!(block.feed("ordinary"), ThinkOutcome::Passed));
    assert!(!block.active);
    assert!(block.lines.is_empty());
    assert_eq!(block.route_of("ordinary"), ThinkRoute::Outside);
    assert_eq!(block.route_of("<think>"), ThinkRoute::Open);
    assert_eq!(block.route_of("</think>"), ThinkRoute::Close);
    block.feed("<think>");
    assert_eq!(block.route_of("ordinary"), ThinkRoute::Inside);
}

#[test]
fn a_closing_line_without_an_opening_emits_its_own_text() {
    let mut block = ThinkBlock::new();
    assert_eq!(thought(block.feed("stray</think>")), "stray");
}

#[test]
fn interior_lines_are_kept_verbatim() {
    let mut block = ThinkBlock::new();
    block.feed("<think>a");
    block.feed("  [METRICS] {\"type\":\"llm_call\"}  ");
    block.feed("");
    assert_eq!(thought(block.feed("z</think>")), "a\n  [METRICS] {\"type\":\"llm_call\"}  \n\nz");
}

#[test]
fn clear_closes_and_empties() {
    let mut block = ThinkBlock::new();
    block.feed("<think>a");
    block.clear();
    assert!(!block.active);
    assert_eq!(block.text(), "");
}
