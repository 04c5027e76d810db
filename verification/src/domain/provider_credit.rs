//! Movements of credit.
use vstd::prelude::*;
use crate::domain::command::DurableMutationContext;
use crate::domain::copied;
use crate::text::{decimal, same_text};
use crate::time::UtcTime;
use crate::uuid::Uuid;

verus! {

/// Which way credit moves: to a customer, or back to the provider.
#[derive(Clone, Copy, Debug, PartialEq, Eq, Structural)]
pub enum CreditMovementType {
    Grant,
    ReturnFullBalance,
}

impl CreditMovementType {
    /// The value that stands for it in the database.
    pub open spec fn code(self) -> &'static str {
        match self {
            CreditMovementType::Grant => "GRANT",
            CreditMovementType::ReturnFullBalance => "RETURN_FULL_BALANCE",
        }
    }

    /// The value that stands for it in the database.
    pub fn as_db_value(self) -> (r: &'static str)
        ensures
            r == self.code(),
    {
        match self {
            CreditMovementType::Grant => "GRANT",
            CreditMovementType::ReturnFullBalance => "RETURN_FULL_BALANCE",
        }
    }

    /// What a database value stands for, where it is one of those in use.
    pub open spec fn of_code(value: Seq<char>) -> Option<CreditMovementType> {
        if value == "GRANT"@ {
            Some(CreditMovementType::Grant)
        } else if value == "RETURN_FULL_BALANCE"@ {
            Some(CreditMovementType::ReturnFullBalance)
        } else {
            None
        }
    }

    /// What a database value stands for, where it is one of those in use.
    pub fn from_db_value(value: &str) -> (r: Option<CreditMovementType>)
        ensures
            r == CreditMovementType::of_code(value@),
    {
        if same_text(value, "GRANT") {
            Some(CreditMovementType::Grant)
        } else if same_text(value, "RETURN_FULL_BALANCE") {
            Some(CreditMovementType::ReturnFullBalance)
        } else {
            None
        }
    }
}

/// A database value that stands for a CreditMovementType is the one value that stands for it.
pub proof fn credit_movement_type_has_one_code(value: Seq<char>)
    ensures
        CreditMovementType::of_code(value) == Some(
            CreditMovementType::Grant,
        ) <==> value == "GRANT"@,
        CreditMovementType::of_code(value) == Some(
            CreditMovementType::ReturnFullBalance,
        ) <==> value == "RETURN_FULL_BALANCE"@,
{
    reveal_strlit("GRANT");
    reveal_strlit("RETURN_FULL_BALANCE");
    assert("GRANT"@.len() == 5);
    assert("RETURN_FULL_BALANCE"@.len() == 19);
}

/// Reading the value that stands for a CreditMovementType gives the CreditMovementType back.
pub proof fn credit_movement_type_code_round_trip(x: CreditMovementType)
    ensures
        CreditMovementType::of_code(x.code()@) == Some(x),
{
    reveal_strlit("GRANT");
    reveal_strlit("RETURN_FULL_BALANCE");
    assert("GRANT"@.len() == 5);
    assert("RETURN_FULL_BALANCE"@.len() == 19);
}

/// A movement of credit that is to be made. `initiated_by` is a database value and `metadata` a
/// JSON document.
#[derive(Debug)]
pub struct CreditMovementIntent {
    pub movement_id: Uuid,
    pub operation_id: Uuid,
    pub movement_type: CreditMovementType,
    pub initiated_by: String,
    pub provider_id: Uuid,
    pub user_id: Uuid,
    pub card_id: Uuid,
    pub provider_user_account_id: Uuid,
    pub provider_owned_account_id: Uuid,
    pub amount_rials: u64,
    pub expected_remaining_amount_rials: Option<u64>,
    pub provider_reference: Option<String>,
    pub deterministic_transfer_id: Uuid,
    pub operational_profile_id: Uuid,
    pub reason: String,
    pub metadata: String,
}

impl Clone for CreditMovementIntent {
    fn clone(&self) -> (r: Self)
        ensures
            r == *self,
    {
        CreditMovementIntent {
            movement_id: self.movement_id,
            operation_id: self.operation_id,
            movement_type: self.movement_type,
            initiated_by: self.initiated_by.clone(),
            provider_id: self.provider_id,
            user_id: self.user_id,
            card_id: self.card_id,
            provider_user_account_id: self.provider_user_account_id,
            provider_owned_account_id: self.provider_owned_account_id,
            amount_rials: self.amount_rials,
            expected_remaining_amount_rials: self.expected_remaining_amount_rials,
            provider_reference: copied(&self.provider_reference),
            deterministic_transfer_id: self.deterministic_transfer_id,
            operational_profile_id: self.operational_profile_id,
            reason: self.reason.clone(),
            metadata: self.metadata.clone(),
        }
    }
}

/// The command behind a movement of credit, and its intent.
#[derive(Debug)]
pub struct CreditMovementWalPayload {
    pub command_context: DurableMutationContext,
    pub intent: CreditMovementIntent,
}

impl Clone for CreditMovementWalPayload {
    fn clone(&self) -> (r: Self)
        ensures
            r == *self,
    {
        CreditMovementWalPayload {
            command_context: self.command_context.clone(),
            intent: self.intent.clone(),
        }
    }
}

/// The accounts between which credit moves.
#[derive(Debug)]
pub struct CreditAccountContext {
    pub provider_id: Uuid,
    pub user_id: Uuid,
    pub card_id: Uuid,
    pub masked_card_number: String,
    pub card_number: String,
    pub provider_user_id: Uuid,
    pub provider_customer_reference: String,
    pub provider_user_account_id: Uuid,
    pub provider_owned_account_id: Uuid,
    pub cms_settlement_account_id: Uuid,
    pub card_state_version: i64,
}

/// A movement of credit that was made. The statuses tell how far its consequences are.
#[derive(Debug)]
pub struct CreditMovementResult {
    pub movement_id: Uuid,
    pub operation_id: Uuid,
    pub movement_type: CreditMovementType,
    pub provider_id: Uuid,
    pub user_id: Uuid,
    pub card_id: Uuid,
    pub amount_rials: u64,
    pub provider_reference: Option<String>,
    pub command_status: &'static str,
    pub event_publication_status: &'static str,
    pub profile_materialization_status: &'static str,
    pub created_at: UtcTime,
}

impl Clone for CreditMovementResult {
    fn clone(&self) -> (r: Self)
        ensures
            r == *self,
    {
        CreditMovementResult {
            movement_id: self.movement_id,
            operation_id: self.operation_id,
            movement_type: self.movement_type,
            provider_id: self.provider_id,
            user_id: self.user_id,
            card_id: self.card_id,
            amount_rials: self.amount_rials,
            provider_reference: copied(&self.provider_reference),
            command_status: self.command_status,
            event_publication_status: self.event_publication_status,
            profile_materialization_status: self.profile_materialization_status,
            created_at: self.created_at,
        }
    }
}


/// An amount in rials that is told as a decimal text.
#[derive(Debug, Clone, Copy, PartialEq, Eq, Structural)]
pub struct RialsText(pub u64);

impl RialsText {
    /// The digits of the amount.
    pub open spec fn digits(self) -> Seq<char> {
        crate::text::decimal_text(self.0 as nat)
    }

    /// The amount as a text.
    pub fn text(self) -> (r: String)
        ensures
            r@ == self.digits(),
    {
        decimal(self.0)
    }
}

/// Whom a movement of credit concerns.
#[derive(Debug)]
pub struct CreditEventSubject {
    pub subject_type: &'static str,
    pub subject_id: Uuid,
    pub user_id: Option<Uuid>,
    pub card_id: Option<Uuid>,
    pub masked_card_number: Option<String>,
    pub provider_customer_reference: Option<String>,
}

/// What a movement of credit came to. `initiated_by` is a database value.
#[derive(Debug)]
pub struct CreditEventData {
    pub currency: &'static str,
    pub amount_rials: RialsText,
    pub observed_remaining_credit_rials: RialsText,
    pub balance_observed_at: UtcTime,
    pub initiated_by: String,
}

/// What a provider is told of a movement of credit.
#[derive(Debug)]
pub struct CreditEvent {
    pub event_id: Uuid,
    pub event_type: String,
    pub schema_version: u16,
    pub occurred_at: UtcTime,
    pub provider_id: Uuid,
    pub subject: CreditEventSubject,
    pub data: CreditEventData,
}

/// What audit evidence says of a movement of credit. `movement_type` and `initiated_by` are JSON
/// texts.
#[derive(Debug)]
pub struct CreditMovementFacts {
    pub movement_id: Uuid,
    pub operation_id: Uuid,
    pub movement_type: String,
    pub initiated_by: String,
    pub provider_id: Uuid,
    pub user_id: Uuid,
    pub card_id: Uuid,
    pub amount_rials: u64,
    pub observed_remaining_amount_rials: u64,
    pub deterministic_transfer_id: Uuid,
    pub card_state_version: i64,
}

impl Clone for CreditMovementFacts {
    fn clone(&self) -> (r: Self)
        ensures
            r == *self,
    {
        CreditMovementFacts {
            movement_id: self.movement_id,
            operation_id: self.operation_id,
            movement_type: self.movement_type.clone(),
            initiated_by: self.initiated_by.clone(),
            provider_id: self.provider_id,
            user_id: self.user_id,
            card_id: self.card_id,
            amount_rials: self.amount_rials,
            observed_remaining_amount_rials: self.observed_remaining_amount_rials,
            deterministic_transfer_id: self.deterministic_transfer_id,
            card_state_version: self.card_state_version,
        }
    }
}

} // verus!
