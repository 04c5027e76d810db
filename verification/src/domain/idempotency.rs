//! Idempotency of commands.
use vstd::prelude::*;
use crate::text::same_text;
use crate::time::UtcTime;
use crate::uuid::Uuid;

verus! {

/// How far the command behind an idempotency key has come.
#[derive(Clone, Copy, Debug, PartialEq, Eq, Structural)]
pub enum IdempotencyStatus {
    InProgress,
    Completed,
    Failed,
    Conflict,
}

impl IdempotencyStatus {
    /// The value that stands for it in the database.
    pub open spec fn code(self) -> &'static str {
        match self {
            IdempotencyStatus::InProgress => "IN_PROGRESS",
            IdempotencyStatus::Completed => "COMPLETED",
            IdempotencyStatus::Failed => "FAILED",
            IdempotencyStatus::Conflict => "CONFLICT",
        }
    }

    /// The value that stands for it in the database.
    pub fn as_db_value(self) -> (r: &'static str)
        ensures
            r == self.code(),
    {
        match self {
            IdempotencyStatus::InProgress => "IN_PROGRESS",
            IdempotencyStatus::Completed => "COMPLETED",
            IdempotencyStatus::Failed => "FAILED",
            IdempotencyStatus::Conflict => "CONFLICT",
        }
    }

    /// What a database value stands for, where it is one of those in use.
    pub open spec fn of_code(value: Seq<char>) -> Option<IdempotencyStatus> {
        if value == "IN_PROGRESS"@ {
            Some(IdempotencyStatus::InProgress)
        } else if value == "COMPLETED"@ {
            Some(IdempotencyStatus::Completed)
        } else if value == "FAILED"@ {
            Some(IdempotencyStatus::Failed)
        } else if value == "CONFLICT"@ {
            Some(IdempotencyStatus::Conflict)
        } else {
            None
        }
    }

    /// What a database value stands for, where it is one of those in use.
    pub fn from_db_value(value: &str) -> (r: Option<IdempotencyStatus>)
        ensures
            r == IdempotencyStatus::of_code(value@),
    {
        if same_text(value, "IN_PROGRESS") {
            Some(IdempotencyStatus::InProgress)
        } else if same_text(value, "COMPLETED") {
            Some(IdempotencyStatus::Completed)
        } else if same_text(value, "FAILED") {
            Some(IdempotencyStatus::Failed)
        } else if same_text(value, "CONFLICT") {
            Some(IdempotencyStatus::Conflict)
        } else {
            None
        }
    }
}

/// A database value that stands for a IdempotencyStatus is the one value that stands for it.
pub proof fn idempotency_status_has_one_code(value: Seq<char>)
    ensures
        IdempotencyStatus::of_code(value) == Some(
            IdempotencyStatus::InProgress,
        ) <==> value == "IN_PROGRESS"@,
        IdempotencyStatus::of_code(value) == Some(
            IdempotencyStatus::Completed,
        ) <==> value == "COMPLETED"@,
        IdempotencyStatus::of_code(value) == Some(
            IdempotencyStatus::Failed,
        ) <==> value == "FAILED"@,
        IdempotencyStatus::of_code(value) == Some(
            IdempotencyStatus::Conflict,
        ) <==> value == "CONFLICT"@,
{
    reveal_strlit("IN_PROGRESS");
    reveal_strlit("COMPLETED");
    reveal_strlit("FAILED");
    reveal_strlit("CONFLICT");
    assert("IN_PROGRESS"@.len() == 11);
    assert("COMPLETED"@.len() == 9);
    assert("FAILED"@.len() == 6);
    assert("CONFLICT"@.len() == 8);
}

/// Reading the value that stands for a IdempotencyStatus gives the IdempotencyStatus back.
pub proof fn idempotency_status_code_round_trip(x: IdempotencyStatus)
    ensures
        IdempotencyStatus::of_code(x.code()@) == Some(x),
{
    reveal_strlit("IN_PROGRESS");
    reveal_strlit("COMPLETED");
    reveal_strlit("FAILED");
    reveal_strlit("CONFLICT");
    assert("IN_PROGRESS"@.len() == 11);
    assert("COMPLETED"@.len() == 9);
    assert("FAILED"@.len() == 6);
    assert("CONFLICT"@.len() == 8);
}

/// What is stored under an operation type and an idempotency key. The snapshots are JSON documents.
#[derive(Debug)]
pub struct IdempotencyRecord {
    pub idempotency_record_id: Uuid,
    pub operation_type: String,
    pub idempotency_key: String,
    pub request_hash: String,
    pub status: IdempotencyStatus,
    pub resource_type: Option<String>,
    pub resource_id: Option<Uuid>,
    pub response_snapshot: Option<String>,
    pub error_snapshot: Option<String>,
    pub created_by_subject: String,
    pub created_by_client_id: Option<String>,
    pub actor_provider_id: Option<Uuid>,
    pub actor_user_id: Option<Uuid>,
    pub correlation_id: String,
    pub request_id: String,
    pub created_at: UtcTime,
    pub updated_at: UtcTime,
    pub completed_at: Option<UtcTime>,
}

/// What is stored when a command begins.
#[derive(Debug)]
pub struct NewIdempotencyRecord {
    pub idempotency_record_id: Uuid,
    pub operation_type: String,
    pub idempotency_key: String,
    pub request_hash: String,
    pub created_by_subject: String,
    pub created_by_client_id: Option<String>,
    pub actor_provider_id: Option<Uuid>,
    pub actor_user_id: Option<Uuid>,
    pub correlation_id: String,
    pub request_id: String,
}

} // verus!
