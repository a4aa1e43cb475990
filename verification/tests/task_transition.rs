use tasker_core::json::{JsonNumber, JsonValue};
use tasker_core::models::entities::task_transition::{can_transition_from, TaskTransition};
use tasker_core::time::{rfc3339, seconds_between, Timestamp};

fn transition(to_state: &str, metadata: Option<JsonValue>, micros: i64) -> TaskTransition {
    TaskTransition {
        id: 1,
        to_state: to_state.to_string(),
        from_state: Some("pending".to_string()),
        metadata,
        sort_key: 2,
        most_recent: true,
        task_id: 9,
        created_at: Timestamp { micros, extra_nanos: 0 },
        updated_at: Timestamp { micros, extra_nanos: 0 },
    }
}

fn object(members: Vec<(&str, JsonValue)>) -> JsonValue {
    JsonValue::Object(members.into_iter().map(|(k, v)| (k.to_string(), v)).collect())
}

fn text(s: &str) -> JsonValue {
    JsonValue::String(s.to_string())
}

#[test]
fn transition_kinds() {
    assert!(transition("error", None, 0).error_transition());
    assert!(!transition("failed", None, 0).error_transition());
    assert!(transition("complete", None, 0).completion_transition());
    assert!(transition("resolved_manually", None, 0).completion_transition());
    assert!(!transition("error", None, 0).completion_transition());
    assert!(transition("cancelled", None, 0).cancellation_transition());
}

#[test]
fn transition_descriptions() {
    assert_eq!(transition("pending", None, 0).description(), "Task initialized and ready for processing");
    assert_eq!(transition("in_progress", None, 0).description(), "Task execution started");
    assert_eq!(transition("complete", None, 0).description(), "Task completed successfully");
    assert_eq!(transition("error", None, 0).description(), "Task encountered an error");
    assert_eq!(transition("cancelled", None, 0).description(), "Task was cancelled");
    assert_eq!(transition("resolved_manually", None, 0).description(), "Task was manually resolved");
    assert_eq!(transition("paused", None, 0).description(), "Task transitioned to paused");
}

#[test]
fn metadata_read_after_write() {
    let mut t = transition("complete", None, 0);
    assert!(!t.has_metadata("reason"));
    assert_eq!(t.get_metadata("reason", JsonValue::Null), JsonValue::Null);

    let returned = t.set_metadata("reason", text("done"));
    assert_eq!(returned, text("done"));
    assert!(t.has_metadata("reason"));
    assert_eq!(t.get_metadata("reason", JsonValue::Null), text("done"));
    assert_eq!(t.metadata, Some(object(vec![("reason", text("done"))])));

    t.set_metadata("attempt", JsonValue::Bool(false));
    t.set_metadata("reason", text("again"));
    assert_eq!(t.metadata, Some(object(vec![("attempt", JsonValue::Bool(false)), ("reason", text("again"))])));
    assert_eq!(t.get_metadata("attempt", JsonValue::Null), JsonValue::Bool(false));
}

#[test]
fn metadata_that_is_not_an_object_stays() {
    let mut t = transition("complete", Some(JsonValue::Array(vec![])), 0);
    t.set_metadata("reason", text("done"));
    assert_eq!(t.metadata, Some(JsonValue::Array(vec![])));
    assert!(!t.has_metadata("reason"));
    assert_eq!(t.get_metadata("reason", text("fallback")), text("fallback"));
}

#[test]
fn leaving_a_state() {
    assert!(can_transition_from(Some("in_progress"), "in_progress"));
    assert!(!can_transition_from(Some("in_progress"), "pending"));
    assert!(can_transition_from(None, "draft"));
    assert!(can_transition_from(None, "planned"));
    assert!(!can_transition_from(None, "pending"));
}

#[test]
fn whole_seconds_between_transitions() {
    let t = transition("complete", None, 100 * 1_000_000 + 999_999);
    assert_eq!(t.seconds_since(Timestamp { micros: 0, extra_nanos: 0 }), 100);
    assert_eq!(t.seconds_since(Timestamp { micros: 1, extra_nanos: 0 }), 100);
    assert_eq!(t.seconds_since(Timestamp { micros: 100 * 1_000_000 + 999_999, extra_nanos: 0 }), 0);
    // Earlier than the previous one: truncated toward zero.
    let early = transition("complete", None, 0);
    assert_eq!(early.seconds_since(Timestamp { micros: 2_500_000, extra_nanos: 0 }), -2);
}

#[test]
fn formatted_metadata_adds_computed_fields() {
    // 2024-01-02T03:04:05.678901 UTC
    let created = 1_704_164_645_678_901;
    let t = transition("complete", Some(object(vec![("reason", text("done"))])), created);
    let formatted = t.formatted_metadata(Some(Timestamp { micros: created - 12_500_000, extra_nanos: 0 }));
    assert_eq!(
        formatted,
        object(vec![
            ("duration_since_previous", JsonValue::Number(JsonNumber::Float("12.0".to_string()))),
            ("reason", text("done")),
            ("transition_description", text("Task completed successfully")),
            ("transition_timestamp", text("2024-01-02T03:04:05.678901Z")),
        ])
    );

    let first = transition("pending", None, 0);
    assert_eq!(
        first.formatted_metadata(None),
        object(vec![
            ("transition_description", text("Task initialized and ready for processing")),
            ("transition_timestamp", text("1970-01-01T00:00:00.000000Z")),
        ])
    );

    let odd = transition("pending", Some(JsonValue::Bool(true)), 0);
    assert_eq!(odd.formatted_metadata(None), JsonValue::Bool(true));
}

#[test]
fn seconds_between_truncates_toward_zero() {
    let t = |micros: i64| Timestamp { micros, extra_nanos: 0 };
    assert_eq!(seconds_between(t(5_999_999), t(0)), 5);
    assert_eq!(seconds_between(t(0), t(5_999_999)), -5);
    assert_eq!(seconds_between(t(-1), t(0)), 0);
    assert_eq!(seconds_between(t(i64::MAX / 2), t(i64::MIN / 2)), (i64::MAX / 2 - i64::MIN / 2) / 1_000_000);
}

#[test]
fn seconds_between_counts_nanoseconds() {
    let later = Timestamp { micros: 1_000_000, extra_nanos: 500 };
    let earlier = Timestamp { micros: 0, extra_nanos: 900 };
    // 0.9999996 s apart: no whole second.
    assert_eq!(seconds_between(later, earlier), 0);
    assert_eq!(seconds_between(earlier, later), 0);
    let later = Timestamp { micros: 1_000_000, extra_nanos: 900 };
    assert_eq!(seconds_between(later, earlier), 1);
}

#[test]
fn rfc3339_text_of_times() {
    assert_eq!(rfc3339(Timestamp { micros: 0, extra_nanos: 0 }), "1970-01-01T00:00:00+00:00");
    assert_eq!(
        rfc3339(Timestamp { micros: 1_704_164_645_678_901, extra_nanos: 5 }),
        "2024-01-02T03:04:05.678901005+00:00"
    );
    assert_eq!(rfc3339(Timestamp { micros: -1, extra_nanos: 0 }), "1969-12-31T23:59:59.999999+00:00");
}
