//! Fees of providers.
use vstd::prelude::*;
use crate::text::same_text;
use crate::time::UtcTime;
use crate::uuid::Uuid;

verus! {

/// The life cycle of a fee profile.
#[derive(Clone, Copy, Debug, PartialEq, Eq, Structural)]
pub enum ProviderFeeProfileStatus {
    Draft,
    Active,
    Superseded,
}

impl ProviderFeeProfileStatus {
    /// The value that stands for it in the database.
    pub open spec fn code(self) -> &'static str {
        match self {
            ProviderFeeProfileStatus::Draft => "DRAFT",
            ProviderFeeProfileStatus::Active => "ACTIVE",
            ProviderFeeProfileStatus::Superseded => "SUPERSEDED",
        }
    }

    /// The value that stands for it in the database.
    pub fn as_db_value(self) -> (r: &'static str)
        ensures
            r == self.code(),
    {
        match self {
            ProviderFeeProfileStatus::Draft => "DRAFT",
            ProviderFeeProfileStatus::Active => "ACTIVE",
            ProviderFeeProfileStatus::Superseded => "SUPERSEDED",
        }
    }

    /// What a database value stands for, where it is one of those in use.
    pub open spec fn of_code(value: Seq<char>) -> Option<ProviderFeeProfileStatus> {
        if value == "DRAFT"@ {
            Some(ProviderFeeProfileStatus::Draft)
        } else if value == "ACTIVE"@ {
            Some(ProviderFeeProfileStatus::Active)
        } else if value == "SUPERSEDED"@ {
            Some(ProviderFeeProfileStatus::Superseded)
        } else {
            None
        }
    }

    /// What a database value stands for, where it is one of those in use.
    pub fn from_db_value(value: &str) -> (r: Option<ProviderFeeProfileStatus>)
        ensures
            r == ProviderFeeProfileStatus::of_code(value@),
    {
        if same_text(value, "DRAFT") {
            Some(ProviderFeeProfileStatus::Draft)
        } else if same_text(value, "ACTIVE") {
            Some(ProviderFeeProfileStatus::Active)
        } else if same_text(value, "SUPERSEDED") {
            Some(ProviderFeeProfileStatus::Superseded)
        } else {
            None
        }
    }
}

/// A database value that stands for a ProviderFeeProfileStatus is the one value that stands for it.
pub proof fn provider_fee_profile_status_has_one_code(value: Seq<char>)
    ensures
        ProviderFeeProfileStatus::of_code(value) == Some(
            ProviderFeeProfileStatus::Draft,
        ) <==> value == "DRAFT"@,
        ProviderFeeProfileStatus::of_code(value) == Some(
            ProviderFeeProfileStatus::Active,
        ) <==> value == "ACTIVE"@,
        ProviderFeeProfileStatus::of_code(value) == Some(
            ProviderFeeProfileStatus::Superseded,
        ) <==> value == "SUPERSEDED"@,
{
    reveal_strlit("DRAFT");
    reveal_strlit("ACTIVE");
    reveal_strlit("SUPERSEDED");
    assert("DRAFT"@.len() == 5);
    assert("ACTIVE"@.len() == 6);
    assert("SUPERSEDED"@.len() == 10);
}

/// Reading the value that stands for a ProviderFeeProfileStatus gives the ProviderFeeProfileStatus
/// back.
pub proof fn provider_fee_profile_status_code_round_trip(x: ProviderFeeProfileStatus)
    ensures
        ProviderFeeProfileStatus::of_code(x.code()@) == Some(x),
{
    reveal_strlit("DRAFT");
    reveal_strlit("ACTIVE");
    reveal_strlit("SUPERSEDED");
    assert("DRAFT"@.len() == 5);
    assert("ACTIVE"@.len() == 6);
    assert("SUPERSEDED"@.len() == 10);
}

/// What a provider is charged: a rate in hundredths of a percent and a fixed amount.
/// `fee_payer` is a database value.
#[derive(Debug)]
pub struct FeePolicy {
    pub rate_bps: i64,
    pub fixed_amount_rials: u64,
    pub fee_payer: String,
}

impl Clone for FeePolicy {
    fn clone(&self) -> (r: Self)
        ensures
            r == *self,
    {
        FeePolicy {
            rate_bps: self.rate_bps,
            fixed_amount_rials: self.fixed_amount_rials,
            fee_payer: self.fee_payer.clone(),
        }
    }
}

/// A version of the fees of a provider.
#[derive(Debug)]
pub struct ProviderFeeProfile {
    pub provider_fee_profile_id: Uuid,
    pub provider_id: Uuid,
    pub fee_policy: FeePolicy,
    pub status: ProviderFeeProfileStatus,
    pub version: i64,
    pub superseded_by_profile_id: Option<Uuid>,
    pub publication_operation_id: Option<Uuid>,
    pub created_by_subject: String,
    pub updated_by_subject: String,
    pub change_reason: String,
    pub activated_at: Option<UtcTime>,
    pub superseded_at: Option<UtcTime>,
    pub created_at: UtcTime,
    pub updated_at: UtcTime,
}

impl Clone for ProviderFeeProfile {
    fn clone(&self) -> (r: Self)
        ensures
            r == *self,
    {
        ProviderFeeProfile {
            provider_fee_profile_id: self.provider_fee_profile_id,
            provider_id: self.provider_id,
            fee_policy: self.fee_policy.clone(),
            status: self.status,
            version: self.version,
            superseded_by_profile_id: self.superseded_by_profile_id,
            publication_operation_id: self.publication_operation_id,
            created_by_subject: self.created_by_subject.clone(),
            updated_by_subject: self.updated_by_subject.clone(),
            change_reason: self.change_reason.clone(),
            activated_at: self.activated_at,
            superseded_at: self.superseded_at,
            created_at: self.created_at,
            updated_at: self.updated_at,
        }
    }
}

/// The fees that a command asks for.
#[derive(Debug)]
pub struct DesiredProviderFeeProfile {
    pub fee_policy: FeePolicy,
    pub reason: String,
}

impl Clone for DesiredProviderFeeProfile {
    fn clone(&self) -> (r: Self)
        ensures
            r == *self,
    {
        DesiredProviderFeeProfile {
            fee_policy: self.fee_policy.clone(),
            reason: self.reason.clone(),
        }
    }
}

/// The word that a version of a fee profile is in force at the runtime.
#[derive(Debug)]
pub struct ProviderFeeMaterializationReceipt {
    pub receipt_event_id: Uuid,
    pub operation_id: Uuid,
    pub provider_id: Uuid,
    pub provider_fee_profile_id: Uuid,
    pub materialized_version: i64,
    pub runtime_key: String,
    pub materialized_at: UtcTime,
}

impl Clone for ProviderFeeMaterializationReceipt {
    fn clone(&self) -> (r: Self)
        ensures
            r == *self,
    {
        ProviderFeeMaterializationReceipt {
            receipt_event_id: self.receipt_event_id,
            operation_id: self.operation_id,
            provider_id: self.provider_id,
            provider_fee_profile_id: self.provider_fee_profile_id,
            materialized_version: self.materialized_version,
            runtime_key: self.runtime_key.clone(),
            materialized_at: self.materialized_at,
        }
    }
}

} // verus!
