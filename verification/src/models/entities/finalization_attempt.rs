//! Finalization attempts: the audit trail of processors claiming tasks for
//! finalization, and the queries that read it.

use crate::text::{i64_to_decimal, int_decimal};
use crate::time::Timestamp;
use vstd::prelude::*;

verus! {

/// One attempt of a processor to claim a task for finalization.
pub struct FinalizationAttempt {
    /// Time-ordered UUID of the record (its 128 bits).
    pub finalization_attempt_uuid: u128,
    /// The task that was to be claimed (its 128 bits).
    pub task_uuid: u128,
    /// The processor that made the attempt.
    pub processor_id: String,
    /// Whether the claim succeeded.
    pub claimed: bool,
    /// Who holds the claim, where it failed because someone does.
    pub already_claimed_by: Option<String>,
    /// The task's execution status at the time of the attempt.
    pub task_state: Option<String>,
    /// Why the attempt ended as it did.
    pub message: Option<String>,
    pub attempted_at: Timestamp,
}

/// `LIMIT n` where a limit is given, else nothing.
pub open spec fn limit_clause(limit: Option<i64>) -> Seq<char> {
    match limit {
        Some(l) => "LIMIT "@ + int_decimal(l as int),
        None => Seq::empty(),
    }
}

/// The columns read for each attempt.
pub open spec fn attempt_columns() -> Seq<char> {
    "\n            SELECT\n                finalization_attempt_uuid,\n                task_uuid,\n                processor_id,\n                claimed,\n                already_claimed_by,\n                task_state,\n                message,\n                attempted_at\n            FROM tasker_finalization_attempts\n"@
}

/// The attempts of the processor bound as `$1`, newest first; only the
/// successful ones where `claimed_only`.
pub open spec fn processor_attempts_text(claimed_only: bool, limit: Option<i64>) -> Seq<char> {
    attempt_columns() + (if claimed_only {
        "            WHERE processor_id = $1 AND claimed = true\n"@
    } else {
        "            WHERE processor_id = $1\n"@
    }) + "            ORDER BY attempted_at DESC\n            "@ + limit_clause(limit) + "\n            "@
}

/// Counts of successful claims, claims already held, lost races and tasks
/// not ready, over the attempts since the time bound as `$1` where `has_since`.
pub open spec fn claim_statistics_text(has_since: bool) -> Seq<char> {
    "\n            SELECT\n                COUNT(CASE WHEN claimed = true THEN 1 END) as successful_claims,\n                COUNT(CASE WHEN claimed = false AND message LIKE '%already claimed%' THEN 1 END) as failed_claims,\n                COUNT(CASE WHEN claimed = false AND message LIKE '%race condition%' THEN 1 END) as race_conditions,\n                COUNT(CASE WHEN claimed = false AND message LIKE '%no completed%' THEN 1 END) as not_ready_tasks\n            FROM tasker_finalization_attempts\n            "@
        + (if has_since { "WHERE attempted_at >= $1"@ } else { Seq::empty() }) + "\n            "@
}

fn limit_clause_text(limit: Option<i64>) -> (r: String)
    ensures
        r@ == limit_clause(limit),
{
    match limit {
        Some(l) => {
            let digits = i64_to_decimal(l);
            String::from_str("LIMIT ").concat(digits.as_str())
        },
        None => String::new(),
    }
}

fn processor_attempts_query(claimed_only: bool, limit: Option<i64>) -> (r: String)
    ensures
        r@ == processor_attempts_text(claimed_only, limit),
{
    let mut q = String::from_str(
        "\n            SELECT\n                finalization_attempt_uuid,\n                task_uuid,\n                processor_id,\n                claimed,\n                already_claimed_by,\n                task_state,\n                message,\n                attempted_at\n            FROM tasker_finalization_attempts\n",
    );
    if claimed_only {
        q.append("            WHERE processor_id = $1 AND claimed = true\n");
    } else {
        q.append("            WHERE processor_id = $1\n");
    }
    q.append("            ORDER BY attempted_at DESC\n            ");
    let clause = limit_clause_text(limit);
    q.append(clause.as_str());
    q.append("\n            ");
    q
}

impl FinalizationAttempt {
    /// SQL for all attempts of the processor bound as `$1`, newest first, at
    /// most `limit` of them where a limit is given.
    pub fn find_by_processor_sql(limit: Option<i64>) -> (r: String)
        ensures
            r@ == processor_attempts_text(false, limit),
    {
        processor_attempts_query(false, limit)
    }

    /// SQL for the successful claims of the processor bound as `$1`, newest
    /// first, at most `limit` of them where a limit is given.
    pub fn find_successful_claims_by_processor_sql(limit: Option<i64>) -> (r: String)
        ensures
            r@ == processor_attempts_text(true, limit),
    {
        processor_attempts_query(true, limit)
    }

    /// SQL for the claim statistics, over all attempts or over those since
    /// the time bound as `$1`.
    pub fn claim_statistics_sql(has_since: bool) -> (r: String)
        ensures
            r@ == claim_statistics_text(has_since),
    {
        let mut q = String::from_str(
            "\n            SELECT\n                COUNT(CASE WHEN claimed = true THEN 1 END) as successful_claims,\n                COUNT(CASE WHEN claimed = false AND message LIKE '%already claimed%' THEN 1 END) as failed_claims,\n                COUNT(CASE WHEN claimed = false AND message LIKE '%race condition%' THEN 1 END) as race_conditions,\n                COUNT(CASE WHEN claimed = false AND message LIKE '%no completed%' THEN 1 END) as not_ready_tasks\n            FROM tasker_finalization_attempts\n            ",
        );
        if has_since {
            q.append("WHERE attempted_at >= $1");
        }
        q.append("\n            ");
        q
    }
}

} // verus!
