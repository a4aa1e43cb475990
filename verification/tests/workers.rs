use tasker_core::json::JsonValue;
use tasker_core::models::entities::dependent_system::{is_unique_violation, DependentSystem, NewDependentSystem};
use tasker_core::models::entities::named_step::{default_step_system_name, NewNamedStep};
use tasker_core::models::entities::task_namespace::NewTaskNamespace;
use tasker_core::models::entities::worker::NewWorker;
use tasker_core::models::entities::worker_command_audit::{effective_limit, CommandDirection, WorkerCommandAudit};
use tasker_core::models::entities::worker_named_task::NewWorkerNamedTask;
use tasker_core::models::entities::worker_registration::{WorkerRegistration, WorkerStatus};
use tasker_core::models::entities::worker_transport_availability::{TransportAvailabilityStats, TransportType};
use tasker_core::time::Timestamp;

const SECOND: i64 = 1_000_000;

fn registration(status: &str, heartbeat: Option<i64>, registered: i64) -> WorkerRegistration {
    WorkerRegistration {
        id: 1,
        worker_id: 2,
        status: status.to_string(),
        connection_type: "tcp".to_string(),
        connection_details: JsonValue::Object(vec![]),
        last_heartbeat_at: heartbeat.map(|s| Timestamp { micros: s * SECOND, extra_nanos: 0 }),
        registered_at: Timestamp { micros: registered * SECOND, extra_nanos: 0 },
        unregistered_at: None,
        failure_reason: None,
    }
}

#[test]
fn worker_status_names_round_trip() {
    for s in [WorkerStatus::Registered, WorkerStatus::Healthy, WorkerStatus::Unhealthy, WorkerStatus::Disconnected] {
        assert_eq!(WorkerStatus::from_name(s.as_str()), Some(s));
        assert_eq!(s.to_string(), s.as_str());
    }
    assert_eq!(WorkerStatus::Disconnected.as_str(), "disconnected");
    assert_eq!(WorkerStatus::from_name("Healthy"), None);
}

#[test]
fn registration_status_parsing() {
    assert_eq!(registration("healthy", None, 0).parse_status(), Ok(WorkerStatus::Healthy));
    assert_eq!(registration("sleeping", None, 0).parse_status(), Err("Unknown worker status: sleeping".to_string()));
}

#[test]
fn heartbeats_and_activity() {
    let now = Timestamp { micros: 1_000 * SECOND, extra_nanos: 0 };
    assert!(registration("healthy", Some(900), 0).is_heartbeat_recent_at(now));
    assert!(!registration("healthy", Some(880), 0).is_heartbeat_recent_at(now));
    assert!(registration("registered", None, 980).is_heartbeat_recent_at(now));
    assert!(!registration("registered", None, 970).is_heartbeat_recent_at(now));

    assert!(registration("healthy", Some(950), 0).is_active_at(now));
    assert!(registration("registered", Some(950), 0).is_active_at(now));
    assert!(!registration("unhealthy", Some(950), 0).is_active_at(now));
    assert!(!registration("healthy", Some(100), 0).is_active_at(now));
    let mut gone = registration("healthy", Some(999), 0);
    gone.unregistered_at = Some(Timestamp { micros: 999 * SECOND, extra_nanos: 0 });
    assert!(!gone.is_active_at(now));
    // A heartbeat from long ago is not recent now.
    assert!(!registration("healthy", Some(0), 0).is_heartbeat_recent());
    assert!(!registration("healthy", Some(0), 0).is_active());
}

#[test]
fn transport_types() {
    assert_eq!(TransportType::Tcp.as_str(), "tcp");
    assert_eq!(TransportType::Unix.as_str(), "unix");
    assert_eq!(TransportType::from_str("tcp"), Some(TransportType::Tcp));
    assert_eq!(TransportType::from_str("TCP"), Some(TransportType::Tcp));
    assert_eq!(TransportType::from_str("Unix"), Some(TransportType::Unix));
    assert_eq!(TransportType::from_str("udp"), None);
    assert_eq!(TransportType::from_lowercase("UNIX"), None);
    for t in [TransportType::Tcp, TransportType::Unix] {
        assert_eq!(TransportType::from_str(t.as_str()), Some(t));
    }
}

#[test]
fn transport_stats_read_missing_counts_as_zero() {
    let stats = TransportAvailabilityStats::from_counts("core-1", Some(5), None, Some(3), Some(2), None, Some(1));
    assert_eq!(stats.core_instance_id, "core-1");
    assert_eq!(
        (stats.total_workers, stats.reachable_workers, stats.tcp_workers, stats.unix_workers, stats.recently_verified, stats.stale_entries),
        (5, 0, 3, 2, 0, 1)
    );
}

fn audit(direction: &str, status: Option<&str>, ms: Option<i64>) -> WorkerCommandAudit {
    WorkerCommandAudit {
        id: 1,
        worker_id: 2,
        command_type: "execute_batch".to_string(),
        command_direction: direction.to_string(),
        correlation_id: None,
        batch_id: None,
        task_id: None,
        step_count: None,
        execution_time_ms: ms,
        response_status: status.map(|s| s.to_string()),
        error_message: None,
        metadata: JsonValue::Null,
        created_at: Timestamp { micros: 0, extra_nanos: 0 },
    }
}

#[test]
fn command_audits() {
    assert_eq!(CommandDirection::Sent.as_str(), "sent");
    assert_eq!(CommandDirection::Received.to_string(), "received");
    assert_eq!(audit("sent", None, None).parse_command_direction(), Ok(CommandDirection::Sent));
    assert_eq!(audit("received", None, None).parse_command_direction(), Ok(CommandDirection::Received));
    assert_eq!(audit("lost", None, None).parse_command_direction(), Err("Unknown command direction: lost".to_string()));
    for s in ["success", "completed", "acknowledged"] {
        assert!(audit("sent", Some(s), None).is_successful());
        assert!(!audit("sent", Some(s), None).is_failed());
    }
    for s in ["error", "failed", "timeout"] {
        assert!(audit("sent", Some(s), None).is_failed());
        assert!(!audit("sent", Some(s), None).is_successful());
    }
    assert!(!audit("sent", None, None).is_successful());
    assert!(!audit("sent", Some("pending"), None).is_failed());
    assert_eq!(audit("sent", None, Some(250)).execution_duration_millis(), Some(250));
    assert_eq!(audit("sent", None, None).execution_duration_millis(), None);
    assert_eq!(effective_limit(None), 100);
    assert_eq!(effective_limit(Some(5)), 5);
}

#[test]
fn lookups_retry_only_after_a_lost_insert_race() {
    assert!(is_unique_violation(Some("23505")));
    assert!(!is_unique_violation(Some("23503")));
    assert!(!is_unique_violation(None));
}

#[test]
fn records_created_on_first_use() {
    let ns = NewTaskNamespace::auto_created("payments");
    assert_eq!(ns.name, "payments");
    assert_eq!(ns.description.as_deref(), Some("Auto-created namespace: payments"));

    let step = NewNamedStep::auto_created(77, "charge");
    assert_eq!(step.dependent_system_uuid, 77);
    assert_eq!(step.name, "charge");
    assert_eq!(step.description.as_deref(), Some("Auto-created step: charge"));
    assert_eq!(default_step_system_name(), "shared_testing_factory");

    let system = NewDependentSystem::for_steps("billing");
    assert_eq!(system.name, "billing");
    assert_eq!(system.description.as_deref(), Some("Auto-created system for steps: billing"));
    let plain = NewDependentSystem::named("billing");
    assert_eq!(plain.description, None);
}

#[test]
fn dependent_system_partial_update() {
    let mut system = DependentSystem {
        dependent_system_id: 4,
        name: "old".to_string(),
        description: None,
        created_at: Timestamp { micros: 0, extra_nanos: 0 },
        updated_at: Timestamp { micros: 0, extra_nanos: 0 },
    };
    system.record_update(None, Some("now described"));
    assert_eq!(system.name, "old");
    assert_eq!(system.description.as_deref(), Some("now described"));
    system.record_update(Some("new"), None);
    assert_eq!(system.name, "new");
    assert_eq!(system.description.as_deref(), Some("now described"));
}

#[test]
fn worker_defaults() {
    let worker = NewWorker { worker_name: "w".to_string(), metadata: None };
    assert_eq!(worker.effective_metadata(), JsonValue::Object(vec![]));
    let given = NewWorker { worker_name: "w".to_string(), metadata: Some(JsonValue::Bool(true)) };
    assert_eq!(given.effective_metadata(), JsonValue::Bool(true));

    let support = NewWorkerNamedTask { worker_id: 1, named_task_id: 2, configuration: None, priority: None };
    assert_eq!(support.effective_configuration(), JsonValue::Object(vec![]));
    assert_eq!(support.effective_priority(), 100);
    let given = NewWorkerNamedTask { worker_id: 1, named_task_id: 2, configuration: Some(JsonValue::Null), priority: Some(5) };
    assert_eq!(given.effective_configuration(), JsonValue::Null);
    assert_eq!(given.effective_priority(), 5);
}

#[test]
fn heartbeat_window_keeps_nanoseconds() {
    let mut r = registration("healthy", Some(880), 0);
    let now = Timestamp { micros: 1_000 * SECOND, extra_nanos: 0 };
    assert!(!r.is_heartbeat_recent_at(now));
    r.last_heartbeat_at = Some(Timestamp { micros: 880 * SECOND, extra_nanos: 1 });
    assert!(r.is_heartbeat_recent_at(now));
}
