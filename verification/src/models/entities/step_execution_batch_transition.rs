//! Batch execution lifecycle: the states of an execution batch and the
//! transitions between them.
//!
//! - `created` → `published`: batch sent to the workers
//! - `published` → `executing`: first worker picks up the batch
//! - `executing` → `completed`, `failed` or `timeout`
//! - any non-terminal state → `cancelled`

use vstd::prelude::*;

verus! {

/// Valid batch execution states.
#[derive(Debug, Clone, Copy, PartialEq, Eq, Structural)]
pub enum BatchState {
    Created,
    Published,
    Executing,
    Completed,
    Failed,
    Timeout,
    Cancelled,
}

/// Number of batches currently in a state.
#[derive(Debug, Clone)]
pub struct StateCount {
    pub state: String,
    pub count: Option<i64>,
}

/// The name of a state as stored in the database.
pub open spec fn state_name(s: BatchState) -> Seq<char> {
    match s {
        BatchState::Created => "created"@,
        BatchState::Published => "published"@,
        BatchState::Executing => "executing"@,
        BatchState::Completed => "completed"@,
        BatchState::Failed => "failed"@,
        BatchState::Timeout => "timeout"@,
        BatchState::Cancelled => "cancelled"@,
    }
}

/// The state with a given name, if any.
pub open spec fn state_from_name(name: Seq<char>) -> Option<BatchState> {
    if name == "created"@ {
        Some(BatchState::Created)
    } else if name == "published"@ {
        Some(BatchState::Published)
    } else if name == "executing"@ {
        Some(BatchState::Executing)
    } else if name == "completed"@ {
        Some(BatchState::Completed)
    } else if name == "failed"@ {
        Some(BatchState::Failed)
    } else if name == "timeout"@ {
        Some(BatchState::Timeout)
    } else if name == "cancelled"@ {
        Some(BatchState::Cancelled)
    } else {
        None
    }
}

/// Completed, failed, timed-out and cancelled batches are finished.
pub open spec fn terminal(s: BatchState) -> bool {
    s == BatchState::Completed || s == BatchState::Failed || s == BatchState::Timeout || s == BatchState::Cancelled
}

/// The allowed transitions of the batch state machine.
pub open spec fn allowed(from: BatchState, to: BatchState) -> bool {
    !terminal(from) && (
        (from == BatchState::Created && to == BatchState::Published)
        || (from == BatchState::Published && to == BatchState::Executing)
        || (from == BatchState::Executing && (to == BatchState::Completed || to == BatchState::Failed || to == BatchState::Timeout))
        || to == BatchState::Cancelled
    )
}

/// How far a batch has progressed through its lifecycle.
pub open spec fn progress(s: BatchState) -> int {
    match s {
        BatchState::Created => 0,
        BatchState::Published => 1,
        BatchState::Executing => 2,
        _ => 3,
    }
}

/// The error message for a name that is no batch state.
pub open spec fn invalid_state_message(name: Seq<char>) -> Seq<char> {
    "Invalid batch state: "@ + name
}

impl BatchState {
    /// The state's name.
    pub fn as_str(&self) -> (r: &'static str)
        ensures
            r@ == state_name(*self),
    {
        match self {
            BatchState::Created => "created",
            BatchState::Published => "published",
            BatchState::Executing => "executing",
            BatchState::Completed => "completed",
            BatchState::Failed => "failed",
            BatchState::Timeout => "timeout",
            BatchState::Cancelled => "cancelled",
        }
    }

    /// The state named `s`, or an error naming the invalid input.
    pub fn parse(s: &str) -> (r: Result<BatchState, String>)
        ensures
            match state_from_name(s@) {
                Some(state) => r == Ok::<BatchState, String>(state),
                None => r is Err && r->Err_0@ == invalid_state_message(s@),
            },
    {
        if crate::text::str_eq(s, "created") {
            Ok(BatchState::Created)
        } else if crate::text::str_eq(s, "published") {
            Ok(BatchState::Published)
        } else if crate::text::str_eq(s, "executing") {
            Ok(BatchState::Executing)
        } else if crate::text::str_eq(s, "completed") {
            Ok(BatchState::Completed)
        } else if crate::text::str_eq(s, "failed") {
            Ok(BatchState::Failed)
        } else if crate::text::str_eq(s, "timeout") {
            Ok(BatchState::Timeout)
        } else if crate::text::str_eq(s, "cancelled") {
            Ok(BatchState::Cancelled)
        } else {
            Err(String::from_str("Invalid batch state: ").concat(s))
        }
    }

    /// Whether this is a terminal state.
    pub fn is_terminal(&self) -> (r: bool)
        ensures
            r == terminal(*self),
    {
        match self {
            BatchState::Completed | BatchState::Failed | BatchState::Timeout | BatchState::Cancelled => true,
            _ => false,
        }
    }

    /// Whether the state machine allows a transition from this state to `to`.
    pub fn can_transition_to(&self, to: &BatchState) -> (r: bool)
        ensures
            r == allowed(*self, *to),
    {
        if self.is_terminal() {
            return false;
        }
        match (self, to) {
            (BatchState::Created, BatchState::Published) => true,
            (BatchState::Published, BatchState::Executing) => true,
            (BatchState::Executing, BatchState::Completed) => true,
            (BatchState::Executing, BatchState::Failed) => true,
            (BatchState::Executing, BatchState::Timeout) => true,
            (_, BatchState::Cancelled) => !self.is_terminal(),
            _ => false,
        }
    }
}

impl std::str::FromStr for BatchState {
    type Err = String;

    /// The state named `s`, or an error naming the invalid input.
    fn from_str(s: &str) -> (r: Result<Self, Self::Err>)
        ensures
            match state_from_name(s@) {
                Some(state) => r == Ok::<BatchState, String>(state),
                None => r is Err && r->Err_0@ == invalid_state_message(s@),
            },
    {
        BatchState::parse(s)
    }
}

/// No transition leaves a terminal state.
pub proof fn lemma_terminal_is_final(from: BatchState, to: BatchState)
    requires
        terminal(from),
    ensures
        !allowed(from, to),
{
}

/// Every allowed transition moves the batch forward, so a batch never
/// returns to a state it has left.
pub proof fn lemma_transitions_progress(from: BatchState, to: BatchState)
    requires
        allowed(from, to),
    ensures
        progress(to) > progress(from),
{
}

/// Every transition other than a cancellation moves the batch exactly one
/// stage on: created to published, published to executing, executing to an
/// outcome. No stage is skipped.
pub proof fn lemma_transitions_take_one_stage(from: BatchState, to: BatchState)
    requires
        allowed(from, to),
        to != BatchState::Cancelled,
    ensures
        progress(to) == progress(from) + 1,
{
}

/// The transition table of the batch state machine: a created batch can
/// only be published (or cancelled), a batch executes only after being
/// published, an outcome (completed, failed or timed out) is reached only
/// from executing, and any batch that has not finished can be cancelled.
pub proof fn lemma_transition_table(from: BatchState, to: BatchState)
    ensures
        allowed(from, to) <==> (
            (from == BatchState::Created && to == BatchState::Published)
            || (from == BatchState::Published && to == BatchState::Executing)
            || (from == BatchState::Executing && to == BatchState::Completed)
            || (from == BatchState::Executing && to == BatchState::Failed)
            || (from == BatchState::Executing && to == BatchState::Timeout)
            || ((from == BatchState::Created || from == BatchState::Published || from == BatchState::Executing)
                && to == BatchState::Cancelled)
        ),
        allowed(BatchState::Created, to) ==> (to == BatchState::Published || to == BatchState::Cancelled),
        allowed(from, BatchState::Executing) <==> from == BatchState::Published,
        allowed(from, BatchState::Published) <==> from == BatchState::Created,
{
}

/// A batch that has not finished can always be cancelled.
pub proof fn lemma_cancel_from_any_active(from: BatchState)
    requires
        !terminal(from),
    ensures
        allowed(from, BatchState::Cancelled),
{
}

/// Parsing a state's name gives back the state.
pub proof fn lemma_name_round_trip(s: BatchState)
    ensures
        state_from_name(state_name(s)) == Some(s),
{
    reveal_strlit("created");
    reveal_strlit("published");
    reveal_strlit("executing");
    reveal_strlit("completed");
    reveal_strlit("failed");
    reveal_strlit("timeout");
    reveal_strlit("cancelled");
    assert("created"@[0] == 'c' && "created"@[1] == 'r');
    assert("published"@[0] == 'p');
    assert("executing"@[0] == 'e');
    assert("completed"@[0] == 'c' && "completed"@[1] == 'o');
    assert("failed"@[0] == 'f');
    assert("timeout"@[0] == 't');
    assert("cancelled"@[0] == 'c' && "cancelled"@[1] == 'a');
}

} // verus!
