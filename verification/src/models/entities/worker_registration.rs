//! Worker registrations: the connection status and health of a worker.

use crate::json::JsonValue;
use crate::text::str_eq;
use crate::time::{current_time, min_nanos, nanos_since_epoch, total_nanos, Timestamp, MAX_MICROS};
use vstd::prelude::*;

verus! {

/// Health status of a worker registration.
#[derive(Debug, Clone, Copy, PartialEq, Eq, Structural)]
pub enum WorkerStatus {
    Registered,
    Healthy,
    Unhealthy,
    Disconnected,
}

/// A worker's registration with its connection details and health.
pub struct WorkerRegistration {
    pub id: i32,
    pub worker_id: i32,
    /// The status name, as stored.
    pub status: String,
    pub connection_type: String,
    pub connection_details: JsonValue,
    pub last_heartbeat_at: Option<Timestamp>,
    pub registered_at: Timestamp,
    pub unregistered_at: Option<Timestamp>,
    pub failure_reason: Option<String>,
}

/// A registration to record.
pub struct NewWorkerRegistration {
    pub worker_id: i32,
    pub status: WorkerStatus,
    pub connection_type: String,
    pub connection_details: JsonValue,
}

/// How long a heartbeat keeps a registration recent: two minutes.
pub const HEARTBEAT_WINDOW_NANOS: i64 = 120000000000i64;

/// How long a new registration without heartbeat counts as recent: thirty seconds.
pub const REGISTRATION_GRACE_NANOS: i64 = 30000000000i64;

pub open spec fn status_name(s: WorkerStatus) -> Seq<char> {
    match s {
        WorkerStatus::Registered => "registered"@,
        WorkerStatus::Healthy => "healthy"@,
        WorkerStatus::Unhealthy => "unhealthy"@,
        WorkerStatus::Disconnected => "disconnected"@,
    }
}

pub open spec fn status_from_name(name: Seq<char>) -> Option<WorkerStatus> {
    if name == "registered"@ {
        Some(WorkerStatus::Registered)
    } else if name == "healthy"@ {
        Some(WorkerStatus::Healthy)
    } else if name == "unhealthy"@ {
        Some(WorkerStatus::Unhealthy)
    } else if name == "disconnected"@ {
        Some(WorkerStatus::Disconnected)
    } else {
        None
    }
}

/// The message for a stored status that is no worker status.
pub open spec fn unknown_status_message(name: Seq<char>) -> Seq<char> {
    "Unknown worker status: "@ + name
}

/// At `now` the last heartbeat is less than two minutes old or, without a
/// heartbeat, the registration is less than thirty seconds old.
pub open spec fn heartbeat_recent_at(r: WorkerRegistration, now: Timestamp) -> bool {
    match r.last_heartbeat_at {
        Some(h) => total_nanos(h) > total_nanos(now) - HEARTBEAT_WINDOW_NANOS,
        None => total_nanos(r.registered_at) > total_nanos(now) - REGISTRATION_GRACE_NANOS,
    }
}

/// At `now` the registration is active: not unregistered, registered or
/// healthy, and with a recent heartbeat.
pub open spec fn active_at(r: WorkerRegistration, now: Timestamp) -> bool {
    r.unregistered_at is None && (r.status@ == "registered"@ || r.status@ == "healthy"@) && heartbeat_recent_at(r, now)
}

/// Two minutes before `now` is a representable time.
pub open spec fn window_representable(now: Timestamp) -> bool {
    total_nanos(now) - HEARTBEAT_WINDOW_NANOS >= min_nanos()
}

impl WorkerStatus {
    /// The status name.
    pub fn as_str(&self) -> (r: &'static str)
        ensures
            r@ == status_name(*self),
    {
        match self {
            WorkerStatus::Registered => "registered",
            WorkerStatus::Healthy => "healthy",
            WorkerStatus::Unhealthy => "unhealthy",
            WorkerStatus::Disconnected => "disconnected",
        }
    }

    /// The status with the given name.
    pub fn from_name(name: &str) -> (r: Option<WorkerStatus>)
        ensures
            r == status_from_name(name@),
    {
        if str_eq(name, "registered") {
            Some(WorkerStatus::Registered)
        } else if str_eq(name, "healthy") {
            Some(WorkerStatus::Healthy)
        } else if str_eq(name, "unhealthy") {
            Some(WorkerStatus::Unhealthy)
        } else if str_eq(name, "disconnected") {
            Some(WorkerStatus::Disconnected)
        } else {
            None
        }
    }

    /// The status name, as an owned string (what `Display` writes).
    pub fn to_string(&self) -> (r: String)
        ensures
            r@ == status_name(*self),
    {
        String::from_str(self.as_str())
    }
}

impl WorkerRegistration {
    /// The stored status as a `WorkerStatus`, or an error naming the unknown status.
    pub fn parse_status(&self) -> (r: Result<WorkerStatus, String>)
        ensures
            match status_from_name(self.status@) {
                Some(s) => r == Ok::<WorkerStatus, String>(s),
                None => r is Err && r->Err_0@ == unknown_status_message(self.status@),
            },
    {
        match WorkerStatus::from_name(self.status.as_str()) {
            Some(s) => Ok(s),
            None => Err(String::from_str("Unknown worker status: ").concat(self.status.as_str())),
        }
    }

    /// Whether the heartbeat is recent at `now`.
    pub fn is_heartbeat_recent_at(&self, now: Timestamp) -> (r: bool)
        requires
            window_representable(now),
        ensures
            r == heartbeat_recent_at(*self, now),
    {
        match self.last_heartbeat_at {
            Some(heartbeat) => nanos_since_epoch(heartbeat) > nanos_since_epoch(now) - HEARTBEAT_WINDOW_NANOS as i128,
            None => nanos_since_epoch(self.registered_at) > nanos_since_epoch(now) - REGISTRATION_GRACE_NANOS as i128,
        }
    }

    /// Whether the heartbeat is recent now (within two minutes; within thirty
    /// seconds of registering when there is no heartbeat yet).
    pub fn is_heartbeat_recent(&self) -> (r: bool)
        ensures
            exists|now: Timestamp| 0 <= now.micros <= MAX_MICROS && now.extra_nanos < 1000 && r == heartbeat_recent_at(*self, now),
    {
        let now = current_time();
        let r = self.is_heartbeat_recent_at(now);
        assert(r == heartbeat_recent_at(*self, now));
        r
    }

    /// Whether the registration is active at `now`.
    pub fn is_active_at(&self, now: Timestamp) -> (r: bool)
        requires
            window_representable(now),
        ensures
            r == active_at(*self, now),
    {
        self.unregistered_at.is_none()
            && (str_eq(self.status.as_str(), "registered") || str_eq(self.status.as_str(), "healthy"))
            && self.is_heartbeat_recent_at(now)
    }

    /// Whether the registration is active now.
    pub fn is_active(&self) -> (r: bool)
        ensures
            exists|now: Timestamp| 0 <= now.micros <= MAX_MICROS && now.extra_nanos < 1000 && r == active_at(*self, now),
    {
        let now = current_time();
        let r = self.is_active_at(now);
        assert(r == active_at(*self, now));
        r
    }
}

/// Parsing a status name gives back the status.
pub proof fn lemma_status_round_trip(s: WorkerStatus)
    ensures
        status_from_name(status_name(s)) == Some(s),
{
    reveal_strlit("registered");
    reveal_strlit("healthy");
    reveal_strlit("unhealthy");
    reveal_strlit("disconnected");
    assert("registered"@[0] == 'r');
    assert("healthy"@[0] == 'h');
    assert("unhealthy"@[0] == 'u');
    assert("disconnected"@[0] == 'd');
}

/// A disconnected or unhealthy registration is never active.
pub proof fn lemma_only_live_status_active(r: WorkerRegistration, now: Timestamp)
    requires
        r.status@ == status_name(WorkerStatus::Disconnected) || r.status@ == status_name(WorkerStatus::Unhealthy),
    ensures
        !active_at(r, now),
{
    reveal_strlit("registered");
    reveal_strlit("healthy");
    reveal_strlit("unhealthy");
    reveal_strlit("disconnected");
    assert("registered"@[0] == 'r');
    assert("healthy"@[0] == 'h');
    assert("unhealthy"@[0] == 'u');
    assert("disconnected"@[0] == 'd');
}

/// An unregistered registration is never active.
pub proof fn lemma_unregistered_not_active(r: WorkerRegistration, now: Timestamp)
    requires
        r.unregistered_at is Some,
    ensures
        !active_at(r, now),
{
}

/// A heartbeat at `now` keeps the registration recent at `now`.
pub proof fn lemma_fresh_heartbeat_recent(r: WorkerRegistration, now: Timestamp)
    requires
        r.last_heartbeat_at == Some(now),
    ensures
        heartbeat_recent_at(r, now),
{
}

} // verus!
