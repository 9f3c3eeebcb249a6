use ralph_core::json::Json;
use ralph_core::metrics::{count_unit, duration_unit, CountUnit, DurationUnit, Metrics};

#[test]
fn new_names_the_default_model() {
    let m = Metrics::new();
    assert_eq!(m.total_tokens, 0);
    assert_eq!(m.last_duration_ms, 0);
    assert_eq!(m.active_model, "qwen2.5-coder:14b");
    assert_eq!(m.iterations, 0);
}

#[test]
fn default_is_all_zero() {
    let m = Metrics::default();
    assert_eq!(m.total_tokens, 0);
    assert_eq!(m.last_duration_ms, 0);
    assert_eq!(m.active_model, "");
    assert_eq!(m.iterations, 0);
}

#[test]
fn two_llm_calls_accumulate_tokens() {
    let mut m = Metrics::default();
    m.update_from_json(
        "{\"type\":\"llm_call\",\"prompt_tokens\":10,\"completion_tokens\":5,\"duration_ms\":200,\"model\":\"x\"}",
    );
    assert_eq!(m.total_tokens, 15);
    m.update_from_json("{\"type\":\"llm_call\",\"prompt_tokens\":3}");
    assert_eq!(m.total_tokens, 18);
    assert_eq!(m.last_duration_ms, 200);
    assert_eq!(m.active_model, "x");
    assert_eq!(m.iterations, 0);
}

#[test]
fn a_later_call_overwrites_duration_and_model() {
    let mut m = Metrics::new();
    m.update_from_json("{\"type\":\"llm_call\",\"duration_ms\":200,\"model\":\"x\"}");
    m.update_from_json("{\"type\":\"llm_call\",\"duration_ms\":7,\"model\":\"y\"}");
    assert_eq!(m.last_duration_ms, 7);
    assert_eq!(m.active_model, "y");
    assert_eq!(m.total_tokens, 0);
}

#[test]
fn iteration_overwrites_the_counter() {
    let mut m = Metrics::default();
    m.update_from_json("{\"type\":\"iteration\",\"iteration\":4}");
    assert_eq!(m.iterations, 4);
    m.update_from_json("{\"type\":\"iteration\",\"iteration\":2}");
    assert_eq!(m.iterations, 2);
    m.update_from_json("{\"type\":\"iteration\"}");
    assert_eq!(m.iterations, 2);
    m.update_from_json("{\"type\":\"iteration\",\"iteration\":4294967301}");
    assert_eq!(m.iterations, 5);
}

#[test]
fn reports_touch_only_the_counters_of_their_kind() {
    let mut m = Metrics::default();
    m.update_from_json("{\"type\":\"iteration\",\"iteration\":9,\"prompt_tokens\":100}");
    assert_eq!(m.total_tokens, 0);
    m.update_from_json("{\"type\":\"llm_call\",\"iteration\":1,\"prompt_tokens\":100}");
    assert_eq!(m.iterations, 9);
    assert_eq!(m.total_tokens, 100);
}

#[test]
fn unknown_kinds_and_malformed_text_are_ignored() {
    let mut m = Metrics::new();
    m.update_from_json("{\"type\":\"llm_call\",\"prompt_tokens\":1,\"model\":\"m\"}");
    for text in [
        "",
        "{not json",
        "[]",
        "42",
        "{\"prompt_tokens\":5}",
        "{\"type\":5,\"prompt_tokens\":5}",
        "{\"type\":\"other\",\"prompt_tokens\":5,\"iteration\":3}",
        "{\"type\":\"LLM_CALL\",\"prompt_tokens\":5}",
    ] {
        m.update_from_json(text);
        assert_eq!(m.total_tokens, 1, "{:?}", text);
        assert_eq!(m.iterations, 0, "{:?}", text);
        assert_eq!(m.active_model, "m", "{:?}", text);
    }
}

#[test]
fn members_of_the_wrong_type_are_skipped() {
    let mut m = Metrics::default();
    m.update_from_json(
        "{\"type\":\"llm_call\",\"prompt_tokens\":-4,\"completion_tokens\":2.5,\"duration_ms\":\"9\",\"model\":7}",
    );
    assert_eq!(m.total_tokens, 0);
    assert_eq!(m.last_duration_ms, 0);
    assert_eq!(m.active_model, "");
}

#[test]
fn the_total_stops_at_the_largest_number() {
    let mut m = Metrics::default();
    m.update_from_json("{\"type\":\"llm_call\",\"prompt_tokens\":18446744073709551615}");
    assert_eq!(m.total_tokens, u64::MAX);
    m.update_from_json("{\"type\":\"llm_call\",\"prompt_tokens\":1,\"completion_tokens\":1}");
    assert_eq!(m.total_tokens, u64::MAX);
    let mut n = Metrics::default();
    n.update_from_json(
        "{\"type\":\"llm_call\",\"prompt_tokens\":18446744073709551610,\"completion_tokens\":10}",
    );
    assert_eq!(n.total_tokens, u64::MAX);
}

#[test]
fn the_total_never_decreases() {
    let mut m = Metrics::default();
    let mut last = 0;
    for text in [
        "{\"type\":\"llm_call\",\"prompt_tokens\":5}",
        "{\"type\":\"iteration\",\"iteration\":1}",
        "garbage",
        "{\"type\":\"llm_call\",\"completion_tokens\":0}",
        "{\"type\":\"llm_call\",\"completion_tokens\":70}",
    ] {
        m.update_from_json(text);
        assert!(m.total_tokens >= last);
        last = m.total_tokens;
    }
    assert_eq!(last, 75);
}

#[test]
fn apply_report_takes_a_parsed_document() {
    let mut m = Metrics::default();
    let report = Json::parse("{\"type\":\"llm_call\",\"prompt_tokens\":2,\"model\":\"z\"}").unwrap();
    m.apply_report(&report);
    assert_eq!(m.total_tokens, 2);
    assert_eq!(m.active_model, "z");
}

#[test]
fn counts_and_durations_change_unit_at_their_thresholds() {
    assert_eq!(count_unit(0), CountUnit::Ones);
    assert_eq!(count_unit(999), CountUnit::Ones);
    assert_eq!(count_unit(1_000), CountUnit::Thousands);
    assert_eq!(count_unit(999_999), CountUnit::Thousands);
    assert_eq!(count_unit(1_000_000), CountUnit::Millions);
    assert_eq!(count_unit(u64::MAX), CountUnit::Millions);
    assert_eq!(duration_unit(0), DurationUnit::Milliseconds);
    assert_eq!(duration_unit(999), DurationUnit::Milliseconds);
    assert_eq!(duration_unit(1_000), DurationUnit::Seconds);
    assert_eq!(duration_unit(59_999), DurationUnit::Seconds);
    assert_eq!(duration_unit(60_000), DurationUnit::Minutes);
}
