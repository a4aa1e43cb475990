use tasker_core::models::entities::step_execution_batch_transition::BatchState;

#[test]
fn test_state_transitions() {
    // Valid transitions
    assert!(BatchState::Created.can_transition_to(&BatchState::Published));
    assert!(BatchState::Published.can_transition_to(&BatchState::Executing));
    assert!(BatchState::Executing.can_transition_to(&BatchState::Completed));
    assert!(BatchState::Executing.can_transition_to(&BatchState::Failed));

    // Can cancel from non-terminal states
    assert!(BatchState::Created.can_transition_to(&BatchState::Cancelled));
    assert!(BatchState::Executing.can_transition_to(&BatchState::Cancelled));

    // Cannot transition from terminal states
    assert!(!BatchState::Completed.can_transition_to(&BatchState::Failed));
    assert!(!BatchState::Failed.can_transition_to(&BatchState::Completed));
    assert!(!BatchState::Cancelled.can_transition_to(&BatchState::Published));

    // Invalid transitions
    assert!(!BatchState::Created.can_transition_to(&BatchState::Completed));
    assert!(!BatchState::Published.can_transition_to(&BatchState::Failed));
}

#[test]
fn test_terminal_states() {
    assert!(!BatchState::Created.is_terminal());
    assert!(!BatchState::Published.is_terminal());
    assert!(!BatchState::Executing.is_terminal());

    assert!(BatchState::Completed.is_terminal());
    assert!(BatchState::Failed.is_terminal());
    assert!(BatchState::Timeout.is_terminal());
    assert!(BatchState::Cancelled.is_terminal());
}

const ALL: [BatchState; 7] = [
    BatchState::Created,
    BatchState::Published,
    BatchState::Executing,
    BatchState::Completed,
    BatchState::Failed,
    BatchState::Timeout,
    BatchState::Cancelled,
];

#[test]
fn batch_state_names_round_trip() {
    for s in ALL {
        assert_eq!(BatchState::parse(s.as_str()), Ok(s));
        assert_eq!(s.as_str().parse::<BatchState>(), Ok(s));
    }
    assert_eq!(BatchState::Executing.as_str(), "executing");
    assert_eq!(BatchState::Timeout.as_str(), "timeout");
}

#[test]
fn batch_state_rejects_unknown_names() {
    assert_eq!(BatchState::parse("running"), Err("Invalid batch state: running".to_string()));
    assert_eq!(BatchState::parse("Created"), Err("Invalid batch state: Created".to_string()));
    assert_eq!(BatchState::parse(""), Err("Invalid batch state: ".to_string()));
}

#[test]
fn batch_state_terminal_states_are_final() {
    for from in ALL {
        if from.is_terminal() {
            for to in ALL {
                assert!(!from.can_transition_to(&to));
            }
        }
    }
}

#[test]
fn batch_state_active_states_can_be_cancelled() {
    for from in ALL {
        assert_eq!(from.can_transition_to(&BatchState::Cancelled), !from.is_terminal());
    }
    assert!(BatchState::Executing.can_transition_to(&BatchState::Timeout));
    assert!(!BatchState::Published.can_transition_to(&BatchState::Created));
    assert!(!BatchState::Executing.can_transition_to(&BatchState::Published));
}
