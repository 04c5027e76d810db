//! Card policies.
use vstd::prelude::*;
use crate::text::same_text;
use crate::time::UtcTime;
use crate::uuid::Uuid;

verus! {

/// The life cycle of a card policy.
#[derive(Clone, Copy, Debug, PartialEq, Eq, Structural)]
pub enum CardPolicyStatus {
    Draft,
    Active,
    Superseded,
}

impl CardPolicyStatus {
    /// The value that stands for it in the database.
    pub open spec fn code(self) -> &'static str {
        match self {
            CardPolicyStatus::Draft => "DRAFT",
            CardPolicyStatus::Active => "ACTIVE",
            CardPolicyStatus::Superseded => "SUPERSEDED",
        }
    }

    /// The value that stands for it in the database.
    pub fn as_db_value(self) -> (r: &'static str)
        ensures
            r == self.code(),
    {
        match self {
            CardPolicyStatus::Draft => "DRAFT",
            CardPolicyStatus::Active => "ACTIVE",
            CardPolicyStatus::Superseded => "SUPERSEDED",
        }
    }

    /// What a database value stands for, where it is one of those in use.
    pub open spec fn of_code(value: Seq<char>) -> Option<CardPolicyStatus> {
        if value == "DRAFT"@ {
            Some(CardPolicyStatus::Draft)
        } else if value == "ACTIVE"@ {
            Some(CardPolicyStatus::Active)
        } else if value == "SUPERSEDED"@ {
            Some(CardPolicyStatus::Superseded)
        } else {
            None
        }
    }

    /// What a database value stands for, where it is one of those in use.
    pub fn from_db_value(value: &str) -> (r: Option<CardPolicyStatus>)
        ensures
            r == CardPolicyStatus::of_code(value@),
    {
        if same_text(value, "DRAFT") {
            Some(CardPolicyStatus::Draft)
        } else if same_text(value, "ACTIVE") {
            Some(CardPolicyStatus::Active)
        } else if same_text(value, "SUPERSEDED") {
            Some(CardPolicyStatus::Superseded)
        } else {
            None
        }
    }
}

/// A database value that stands for a CardPolicyStatus is the one value that stands for it.
pub proof fn card_policy_status_has_one_code(value: Seq<char>)
    ensures
        CardPolicyStatus::of_code(value) == Some(CardPolicyStatus::Draft) <==> value == "DRAFT"@,
        CardPolicyStatus::of_code(value) == Some(CardPolicyStatus::Active) <==> value == "ACTIVE"@,
        CardPolicyStatus::of_code(value) == Some(
            CardPolicyStatus::Superseded,
        ) <==> value == "SUPERSEDED"@,
{
    reveal_strlit("DRAFT");
    reveal_strlit("ACTIVE");
    reveal_strlit("SUPERSEDED");
    assert("DRAFT"@.len() == 5);
    assert("ACTIVE"@.len() == 6);
    assert("SUPERSEDED"@.len() == 10);
}

/// Reading the value that stands for a CardPolicyStatus gives the CardPolicyStatus back.
pub proof fn card_policy_status_code_round_trip(x: CardPolicyStatus)
    ensures
        CardPolicyStatus::of_code(x.code()@) == Some(x),
{
    reveal_strlit("DRAFT");
    reveal_strlit("ACTIVE");
    reveal_strlit("SUPERSEDED");
    assert("DRAFT"@.len() == 5);
    assert("ACTIVE"@.len() == 6);
    assert("SUPERSEDED"@.len() == 10);
}

/// A version of the policy of a card range. `terms` is a JSON document.
#[derive(Debug)]
pub struct CardPolicyProfile {
    pub card_policy_profile_id: Uuid,
    pub card_range_id: Uuid,
    pub terms: String,
    pub status: CardPolicyStatus,
    pub version: i64,
    pub superseded_by_profile_id: Option<Uuid>,
    pub publication_operation_id: Option<Uuid>,
    pub created_by_subject: String,
    pub updated_by_subject: String,
    pub change_reason: String,
    pub activated_at: Option<UtcTime>,
    pub superseded_at: Option<UtcTime>,
    pub created_at: UtcTime,
    pub updated_at: UtcTime,
}

impl Clone for CardPolicyProfile {
    fn clone(&self) -> (r: Self)
        ensures
            r == *self,
    {
        CardPolicyProfile {
            card_policy_profile_id: self.card_policy_profile_id,
            card_range_id: self.card_range_id,
            terms: self.terms.clone(),
            status: self.status,
            version: self.version,
            superseded_by_profile_id: self.superseded_by_profile_id,
            publication_operation_id: self.publication_operation_id,
            created_by_subject: self.created_by_subject.clone(),
            updated_by_subject: self.updated_by_subject.clone(),
            change_reason: self.change_reason.clone(),
            activated_at: self.activated_at,
            superseded_at: self.superseded_at,
            created_at: self.created_at,
            updated_at: self.updated_at,
        }
    }
}

/// The policy that a command asks for. `terms` is a JSON document.
#[derive(Debug)]
pub struct DesiredCardPolicy {
    pub terms: String,
    pub reason: String,
}

impl Clone for DesiredCardPolicy {
    fn clone(&self) -> (r: Self)
        ensures
            r == *self,
    {
        DesiredCardPolicy {
            terms: self.terms.clone(),
            reason: self.reason.clone(),
        }
    }
}

/// The word that a version of a policy is in force at the runtime.
#[derive(Debug)]
pub struct PolicyMaterializationReceipt {
    pub receipt_event_id: Uuid,
    pub operation_id: Uuid,
    pub card_range_id: Uuid,
    pub card_policy_profile_id: Uuid,
    pub materialized_version: i64,
    pub runtime_key: String,
    pub materialized_at: UtcTime,
}

impl Clone for PolicyMaterializationReceipt {
    fn clone(&self) -> (r: Self)
        ensures
            r == *self,
    {
        PolicyMaterializationReceipt {
            receipt_event_id: self.receipt_event_id,
            operation_id: self.operation_id,
            card_range_id: self.card_range_id,
            card_policy_profile_id: self.card_policy_profile_id,
            materialized_version: self.materialized_version,
            runtime_key: self.runtime_key.clone(),
            materialized_at: self.materialized_at,
        }
    }
}

} // verus!
