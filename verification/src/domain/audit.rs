//! Audit evidence.
use vstd::prelude::*;
use crate::domain::copied;
use crate::domain::page::Page;
use crate::text::same_text;
use crate::time::UtcTime;
use crate::uuid::Uuid;

verus! {

/// What an audited command did.
#[derive(Clone, Copy, Debug, PartialEq, Eq, Structural)]
pub enum AuditAction {
    Insert,
    Update,
    StateTransition,
    SecretRead,
    SecretRotate,
}

impl AuditAction {
    /// The value that stands for it in the database.
    pub open spec fn code(self) -> &'static str {
        match self {
            AuditAction::Insert => "INSERT",
            AuditAction::Update => "UPDATE",
            AuditAction::StateTransition => "STATE_TRANSITION",
            AuditAction::SecretRead => "SECRET_READ",
            AuditAction::SecretRotate => "SECRET_ROTATE",
        }
    }

    /// The value that stands for it in the database.
    pub fn as_db_value(self) -> (r: &'static str)
        ensures
            r == self.code(),
    {
        match self {
            AuditAction::Insert => "INSERT",
            AuditAction::Update => "UPDATE",
            AuditAction::StateTransition => "STATE_TRANSITION",
            AuditAction::SecretRead => "SECRET_READ",
            AuditAction::SecretRotate => "SECRET_ROTATE",
        }
    }

    /// What a database value stands for, where it is one of those in use.
    pub open spec fn of_code(value: Seq<char>) -> Option<AuditAction> {
        if value == "INSERT"@ {
            Some(AuditAction::Insert)
        } else if value == "UPDATE"@ {
            Some(AuditAction::Update)
        } else if value == "STATE_TRANSITION"@ {
            Some(AuditAction::StateTransition)
        } else if value == "SECRET_READ"@ {
            Some(AuditAction::SecretRead)
        } else if value == "SECRET_ROTATE"@ {
            Some(AuditAction::SecretRotate)
        } else {
            None
        }
    }

    /// What a database value stands for, where it is one of those in use.
    pub fn from_db_value(value: &str) -> (r: Option<AuditAction>)
        ensures
            r == AuditAction::of_code(value@),
    {
        if same_text(value, "INSERT") {
            Some(AuditAction::Insert)
        } else if same_text(value, "UPDATE") {
            Some(AuditAction::Update)
        } else if same_text(value, "STATE_TRANSITION") {
            Some(AuditAction::StateTransition)
        } else if same_text(value, "SECRET_READ") {
            Some(AuditAction::SecretRead)
        } else if same_text(value, "SECRET_ROTATE") {
            Some(AuditAction::SecretRotate)
        } else {
            None
        }
    }
}

/// A database value that stands for a AuditAction is the one value that stands for it.
pub proof fn audit_action_has_one_code(value: Seq<char>)
    ensures
        AuditAction::of_code(value) == Some(AuditAction::Insert) <==> value == "INSERT"@,
        AuditAction::of_code(value) == Some(AuditAction::Update) <==> value == "UPDATE"@,
        AuditAction::of_code(value) == Some(
            AuditAction::StateTransition,
        ) <==> value == "STATE_TRANSITION"@,
        AuditAction::of_code(value) == Some(AuditAction::SecretRead) <==> value == "SECRET_READ"@,
        AuditAction::of_code(value) == Some(
            AuditAction::SecretRotate,
        ) <==> value == "SECRET_ROTATE"@,
{
    reveal_strlit("INSERT");
    reveal_strlit("UPDATE");
    reveal_strlit("STATE_TRANSITION");
    reveal_strlit("SECRET_READ");
    reveal_strlit("SECRET_ROTATE");
    assert("INSERT"@.len() == 6);
    assert("UPDATE"@.len() == 6);
    assert("STATE_TRANSITION"@.len() == 16);
    assert("SECRET_READ"@.len() == 11);
    assert("SECRET_ROTATE"@.len() == 13);
    assert("INSERT"@[0] != "UPDATE"@[0]);
}

/// Reading the value that stands for a AuditAction gives the AuditAction back.
pub proof fn audit_action_code_round_trip(x: AuditAction)
    ensures
        AuditAction::of_code(x.code()@) == Some(x),
{
    reveal_strlit("INSERT");
    reveal_strlit("UPDATE");
    reveal_strlit("STATE_TRANSITION");
    reveal_strlit("SECRET_READ");
    reveal_strlit("SECRET_ROTATE");
    assert("INSERT"@.len() == 6);
    assert("UPDATE"@.len() == 6);
    assert("STATE_TRANSITION"@.len() == 16);
    assert("SECRET_READ"@.len() == 11);
    assert("SECRET_ROTATE"@.len() == 13);
    assert("INSERT"@[0] != "UPDATE"@[0]);
}

/// Who acted, from where, and within which request.
#[derive(Debug)]
pub struct TrustedAuditContext {
    pub actor_subject: String,
    pub actor_client_id: Option<String>,
    pub actor_provider_id: Option<Uuid>,
    pub actor_user_id: Option<Uuid>,
    pub actor_issuer: Option<String>,
    pub source_ip: Option<String>,
    pub correlation_id: String,
    pub request_id: String,
}

impl Clone for TrustedAuditContext {
    fn clone(&self) -> (r: Self)
        ensures
            r == *self,
    {
        TrustedAuditContext {
            actor_subject: self.actor_subject.clone(),
            actor_client_id: copied(&self.actor_client_id),
            actor_provider_id: self.actor_provider_id,
            actor_user_id: self.actor_user_id,
            actor_issuer: copied(&self.actor_issuer),
            source_ip: copied(&self.source_ip),
            correlation_id: self.correlation_id.clone(),
            request_id: self.request_id.clone(),
        }
    }
}

/// The last audit entry of a page.
#[derive(Clone, Copy, Debug, PartialEq, Eq, Structural)]
pub struct AuditLogCursor {
    pub created_at: UtcTime,
    pub audit_log_id: Uuid,
}

/// Which audit entries to list. `action_type` is a database value.
#[derive(Debug)]
pub struct AuditLogQuery {
    pub entity_type: Option<String>,
    pub entity_id: Option<Uuid>,
    pub action_type: Option<String>,
    pub actor_subject: Option<String>,
    pub actor_client_id: Option<String>,
    pub actor_provider_id: Option<Uuid>,
    pub actor_user_id: Option<Uuid>,
    pub source_ip: Option<String>,
    pub correlation_id: Option<String>,
    pub request_id: Option<String>,
    pub created_from: Option<UtcTime>,
    pub created_to: Option<UtcTime>,
    pub cursor: Option<AuditLogCursor>,
    pub limit: u16,
}

/// An audit entry. The values before and after are JSON documents.
#[derive(Debug)]
pub struct AuditLogRecord {
    pub audit_log_id: Uuid,
    pub entity_type: String,
    pub entity_id: Uuid,
    pub action_type: String,
    pub reason: Option<String>,
    pub old_values: Option<String>,
    pub new_values: Option<String>,
    pub actor_subject: String,
    pub actor_client_id: Option<String>,
    pub actor_provider_id: Option<Uuid>,
    pub actor_user_id: Option<Uuid>,
    pub actor_issuer: Option<String>,
    pub source_ip: Option<String>,
    pub correlation_id: String,
    pub request_id: String,
    pub created_at: UtcTime,
}

/// A page of audit entries.
pub type AuditLogPage = Page<AuditLogRecord, AuditLogCursor>;

} // verus!
