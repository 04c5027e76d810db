//! Users, their cards and their funding.
use vstd::prelude::*;
use crate::domain::copied;
use crate::domain::page::Page;
use crate::json;
use crate::text;
use crate::text::same_text;
use crate::time::UtcTime;
use crate::uuid::Uuid;

verus! {

/// The ledger accounts that count what a card spends.
#[derive(Clone, Copy, Debug, PartialEq, Eq, Structural)]
pub struct PolicyUsageAccountIds {
    pub amount_daily: Uuid,
    pub amount_weekly: Uuid,
    pub amount_monthly: Uuid,
    pub amount_yearly: Uuid,
    pub count_daily: Uuid,
    pub count_weekly: Uuid,
    pub count_monthly: Uuid,
    pub count_yearly: Uuid,
}

/// The ledger accounts behind a funding source.
#[derive(Clone, Copy, Debug, PartialEq, Eq, Structural)]
pub struct CardProfileLedgerAccounts {
    pub user_provider_account: Uuid,
    pub provider_fee_account: Uuid,
    pub cms_settlement_account: Uuid,
    pub platform_fee_account: Uuid,
}

/// A provider that funds a card, its rank and its cap.
#[derive(Clone, Copy, Debug, PartialEq, Eq, Structural)]
pub struct CardProfileFundingSource {
    pub provider_id: Uuid,
    pub priority: u16,
    pub max_amount_rials: Option<u64>,
    pub ledger_accounts: CardProfileLedgerAccounts,
}

/// What the runtime is told of a card, beside its funding sources. `funding_mode` is a database
/// value.
#[derive(Debug)]
pub struct CardProfileBase {
    pub card_id: Uuid,
    pub user_id: Uuid,
    pub card_range_id: Uuid,
    pub funding_mode: String,
    pub state_version: i64,
    pub policy_usage_accounts: PolicyUsageAccountIds,
}

/// The life cycle of a customer of a provider.
#[derive(Clone, Copy, Debug, PartialEq, Eq, Structural)]
pub enum ProviderUserStatus {
    CardIssuancePending,
    Provisioning,
    Active,
    Suspended,
    RecoveryRequired,
    IssuanceRejected,
}

impl ProviderUserStatus {
    /// The value that stands for it in the database.
    pub open spec fn code(self) -> &'static str {
        match self {
            ProviderUserStatus::CardIssuancePending => "CARD_ISSUANCE_PENDING",
            ProviderUserStatus::Provisioning => "PROVISIONING",
            ProviderUserStatus::Active => "ACTIVE",
            ProviderUserStatus::Suspended => "SUSPENDED",
            ProviderUserStatus::RecoveryRequired => "RECOVERY_REQUIRED",
            ProviderUserStatus::IssuanceRejected => "ISSUANCE_REJECTED",
        }
    }

    /// The value that stands for it in the database.
    pub fn as_db_value(self) -> (r: &'static str)
        ensures
            r == self.code(),
    {
        match self {
            ProviderUserStatus::CardIssuancePending => "CARD_ISSUANCE_PENDING",
            ProviderUserStatus::Provisioning => "PROVISIONING",
            ProviderUserStatus::Active => "ACTIVE",
            ProviderUserStatus::Suspended => "SUSPENDED",
            ProviderUserStatus::RecoveryRequired => "RECOVERY_REQUIRED",
            ProviderUserStatus::IssuanceRejected => "ISSUANCE_REJECTED",
        }
    }

    /// What a database value stands for, where it is one of those in use.
    pub open spec fn of_code(value: Seq<char>) -> Option<ProviderUserStatus> {
        if value == "CARD_ISSUANCE_PENDING"@ {
            Some(ProviderUserStatus::CardIssuancePending)
        } else if value == "PROVISIONING"@ {
            Some(ProviderUserStatus::Provisioning)
        } else if value == "ACTIVE"@ {
            Some(ProviderUserStatus::Active)
        } else if value == "SUSPENDED"@ {
            Some(ProviderUserStatus::Suspended)
        } else if value == "RECOVERY_REQUIRED"@ {
            Some(ProviderUserStatus::RecoveryRequired)
        } else if value == "ISSUANCE_REJECTED"@ {
            Some(ProviderUserStatus::IssuanceRejected)
        } else {
            None
        }
    }

    /// What a database value stands for, where it is one of those in use.
    pub fn from_db_value(value: &str) -> (r: Option<ProviderUserStatus>)
        ensures
            r == ProviderUserStatus::of_code(value@),
    {
        if same_text(value, "CARD_ISSUANCE_PENDING") {
            Some(ProviderUserStatus::CardIssuancePending)
        } else if same_text(value, "PROVISIONING") {
            Some(ProviderUserStatus::Provisioning)
        } else if same_text(value, "ACTIVE") {
            Some(ProviderUserStatus::Active)
        } else if same_text(value, "SUSPENDED") {
            Some(ProviderUserStatus::Suspended)
        } else if same_text(value, "RECOVERY_REQUIRED") {
            Some(ProviderUserStatus::RecoveryRequired)
        } else if same_text(value, "ISSUANCE_REJECTED") {
            Some(ProviderUserStatus::IssuanceRejected)
        } else {
            None
        }
    }
}

/// A database value that stands for a ProviderUserStatus is the one value that stands for it.
pub proof fn provider_user_status_has_one_code(value: Seq<char>)
    ensures
        ProviderUserStatus::of_code(value) == Some(
            ProviderUserStatus::CardIssuancePending,
        ) <==> value == "CARD_ISSUANCE_PENDING"@,
        ProviderUserStatus::of_code(value) == Some(
            ProviderUserStatus::Provisioning,
        ) <==> value == "PROVISIONING"@,
        ProviderUserStatus::of_code(value) == Some(
            ProviderUserStatus::Active,
        ) <==> value == "ACTIVE"@,
        ProviderUserStatus::of_code(value) == Some(
            ProviderUserStatus::Suspended,
        ) <==> value == "SUSPENDED"@,
        ProviderUserStatus::of_code(value) == Some(
            ProviderUserStatus::RecoveryRequired,
        ) <==> value == "RECOVERY_REQUIRED"@,
        ProviderUserStatus::of_code(value) == Some(
            ProviderUserStatus::IssuanceRejected,
        ) <==> value == "ISSUANCE_REJECTED"@,
{
    reveal_strlit("CARD_ISSUANCE_PENDING");
    reveal_strlit("PROVISIONING");
    reveal_strlit("ACTIVE");
    reveal_strlit("SUSPENDED");
    reveal_strlit("RECOVERY_REQUIRED");
    reveal_strlit("ISSUANCE_REJECTED");
    assert("CARD_ISSUANCE_PENDING"@.len() == 21);
    assert("PROVISIONING"@.len() == 12);
    assert("ACTIVE"@.len() == 6);
    assert("SUSPENDED"@.len() == 9);
    assert("RECOVERY_REQUIRED"@.len() == 17);
    assert("ISSUANCE_REJECTED"@.len() == 17);
    assert("RECOVERY_REQUIRED"@[0] != "ISSUANCE_REJECTED"@[0]);
}

/// Reading the value that stands for a ProviderUserStatus gives the ProviderUserStatus back.
pub proof fn provider_user_status_code_round_trip(x: ProviderUserStatus)
    ensures
        ProviderUserStatus::of_code(x.code()@) == Some(x),
{
    reveal_strlit("CARD_ISSUANCE_PENDING");
    reveal_strlit("PROVISIONING");
    reveal_strlit("ACTIVE");
    reveal_strlit("SUSPENDED");
    reveal_strlit("RECOVERY_REQUIRED");
    reveal_strlit("ISSUANCE_REJECTED");
    assert("CARD_ISSUANCE_PENDING"@.len() == 21);
    assert("PROVISIONING"@.len() == 12);
    assert("ACTIVE"@.len() == 6);
    assert("SUSPENDED"@.len() == 9);
    assert("RECOVERY_REQUIRED"@.len() == 17);
    assert("ISSUANCE_REJECTED"@.len() == 17);
    assert("RECOVERY_REQUIRED"@[0] != "ISSUANCE_REJECTED"@[0]);
}

/// How a customer of a provider comes to a card.
#[derive(Clone, Copy, Debug, PartialEq, Eq, Structural)]
pub enum CardResolution {
    ExistingCardAttached,
    JoinedPendingIssuance,
    IssuanceRequested,
}

/// Why the runtime is told of a card again.
#[derive(Clone, Copy, Debug, PartialEq, Eq, Structural)]
pub enum CardProfileRefreshReason {
    CardCreated,
    FundingOrderChanged,
    CreditGranted,
    CreditReturned,
}

/// A provider that is to fund a card, and its cap. The first of a list ranks first.
#[derive(Clone, Copy, Debug, PartialEq, Eq, Structural)]
pub struct FundingOrderSource {
    pub provider_id: Uuid,
    pub max_amount_rials: Option<u64>,
}

/// A provider that funds a card, its rank and its cap.
#[derive(Clone, Copy, Debug, PartialEq, Eq, Structural)]
pub struct FundingOrderAppliedSource {
    pub provider_id: Uuid,
    pub priority: u16,
    pub max_amount_rials: Option<u64>,
}

/// A funding source of a card as it is stored.
#[derive(Clone, Copy, Debug, PartialEq, Eq, Structural)]
pub struct CurrentFundingSource {
    pub provider_id: Uuid,
    pub priority: i64,
    pub max_amount_rials: Option<i64>,
}

/// A card whose funding sources were put in order. The statuses tell how far the consequences are.
#[derive(Debug)]
pub struct FundingOrderSummary {
    pub card_id: Uuid,
    pub masked_card_number: String,
    pub state_version: i64,
    pub operation_id: Uuid,
    pub command_status: &'static str,
    pub event_publication_status: &'static str,
    pub profile_materialization_status: &'static str,
}

impl Clone for FundingOrderSummary {
    fn clone(&self) -> (r: Self)
        ensures
            r == *self,
    {
        FundingOrderSummary {
            card_id: self.card_id,
            masked_card_number: self.masked_card_number.clone(),
            state_version: self.state_version,
            operation_id: self.operation_id,
            command_status: self.command_status,
            event_publication_status: self.event_publication_status,
            profile_materialization_status: self.profile_materialization_status,
        }
    }
}

/// A card whose funding sources were put in order, with the sources.
#[derive(Debug)]
pub struct FundingOrderResult {
    pub summary: FundingOrderSummary,
    pub sources: Vec<FundingOrderAppliedSource>,
}

impl View for FundingOrderResult {
    type V = (FundingOrderSummary, Seq<FundingOrderAppliedSource>);

    open spec fn view(&self) -> (FundingOrderSummary, Seq<FundingOrderAppliedSource>) {
        (self.summary, self.sources@)
    }
}

/// Where a new card goes, and the holder's date of birth.
#[derive(Debug)]
pub struct NewCardDelivery {
    pub birth_date: String,
    pub mobile: String,
    pub delivery_province: String,
    pub delivery_city: String,
    pub delivery_address: String,
    pub postal_code: String,
}

/// The card that a customer is to have.
#[derive(Debug)]
pub enum CardInstruction {
    IssueNew(NewCardDelivery),
    UseExisting { card_number: String },
}

/// A customer whom a provider enrolls. `metadata` is a JSON document.
#[derive(Debug)]
pub struct NewProviderUserEnrollment {
    pub national_id: String,
    pub first_name: String,
    pub last_name: String,
    pub provider_customer_reference: String,
    pub selection_reference: Option<String>,
    pub card_instruction: CardInstruction,
    pub metadata: String,
}

/// In which fields a supplied identity differs from the one on record: as compared, or as stored in
/// a JSON list.
#[derive(Debug)]
pub enum MismatchFields {
    Compared { first_name: bool, last_name: bool },
    Stored(String),
}

impl MismatchFields {
    /// The names of the fields that differ. A stored list that cannot be read names none.
    pub open spec fn field_names(self) -> Seq<Seq<char>> {
        match self {
            MismatchFields::Compared { first_name, last_name } => (if first_name {
                seq!["first_name"@]
            } else {
                Seq::empty()
            }) + (if last_name {
                seq!["last_name"@]
            } else {
                Seq::empty()
            }),
            MismatchFields::Stored(list) => match json::json_texts_reading(list@) {
                Ok(names) => names,
                Err(_) => Seq::empty(),
            },
        }
    }

    /// The names of the fields that differ. A stored list that cannot be read names none.
    pub fn names(&self) -> (r: Vec<String>)
        ensures
            text::texts(r@) == self.field_names(),
    {
        let mut names: Vec<String> = Vec::new();
        assert(text::texts(names@) =~= Seq::<Seq<char>>::empty());
        match self {
            MismatchFields::Compared { first_name, last_name } => {
                if *first_name {
                    names.push("first_name".to_owned());
                }
                if *last_name {
                    names.push("last_name".to_owned());
                }
                assert(text::texts(names@) =~= self.field_names());
                names
            },
            MismatchFields::Stored(list) => match json::read_texts(list.as_str()) {
                Ok(stored) => stored,
                Err(_) => names,
            },
        }
    }
}

impl Clone for MismatchFields {
    fn clone(&self) -> (r: Self)
        ensures
            r == *self,
    {
        match self {
            MismatchFields::Compared { first_name, last_name } => MismatchFields::Compared {
                first_name: *first_name,
                last_name: *last_name,
            },
            MismatchFields::Stored(list) => MismatchFields::Stored(list.clone()),
        }
    }
}

/// An enrollment as it is answered. `profile_materialization_status` tells how far the runtime is.
#[derive(Debug)]
pub struct ProviderUserView {
    pub enrollment_id: Uuid,
    pub provider_user_id: Uuid,
    pub provider_id: Uuid,
    pub user_id: Uuid,
    pub provider_customer_reference: String,
    pub identity_mismatch: bool,
    pub mismatch_fields: MismatchFields,
    pub status: ProviderUserStatus,
    pub card_resolution: CardResolution,
    pub card_id: Option<Uuid>,
    pub masked_card_number: Option<String>,
    pub card_range_id: Uuid,
    pub provider_user_account_id: Option<Uuid>,
    pub policy_usage_account_ids: Option<PolicyUsageAccountIds>,
    pub issuance_request_id: Option<Uuid>,
    pub profile_materialization_status: &'static str,
    pub created_at: UtcTime,
    pub updated_at: UtcTime,
}

impl Clone for ProviderUserView {
    fn clone(&self) -> (r: Self)
        ensures
            r == *self,
    {
        ProviderUserView {
            enrollment_id: self.enrollment_id,
            provider_user_id: self.provider_user_id,
            provider_id: self.provider_id,
            user_id: self.user_id,
            provider_customer_reference: self.provider_customer_reference.clone(),
            identity_mismatch: self.identity_mismatch,
            mismatch_fields: self.mismatch_fields.clone(),
            status: self.status,
            card_resolution: self.card_resolution,
            card_id: self.card_id,
            masked_card_number: copied(&self.masked_card_number),
            card_range_id: self.card_range_id,
            provider_user_account_id: self.provider_user_account_id,
            policy_usage_account_ids: self.policy_usage_account_ids,
            issuance_request_id: self.issuance_request_id,
            profile_materialization_status: self.profile_materialization_status,
            created_at: self.created_at,
            updated_at: self.updated_at,
        }
    }
}

/// A customer of a provider.
#[derive(Debug)]
pub struct ProviderUserRecord {
    pub provider_user_id: Uuid,
    pub enrollment_id: Uuid,
    pub provider_id: Uuid,
    pub user_id: Uuid,
    pub national_id: String,
    pub first_name: String,
    pub last_name: String,
    pub provider_customer_reference: String,
    pub identity_mismatch: bool,
    pub mismatch_fields: MismatchFields,
    pub status: ProviderUserStatus,
    pub card_id: Option<Uuid>,
    pub masked_card_number: Option<String>,
    pub card_range_id: Option<Uuid>,
    pub provider_user_account_id: Option<Uuid>,
    pub created_at: UtcTime,
    pub updated_at: UtcTime,
}

/// The last customer of a page.
#[derive(Clone, Copy, Debug, PartialEq, Eq, Structural)]
pub struct ProviderUserCursor {
    pub created_at: UtcTime,
    pub provider_user_id: Uuid,
}

/// A page of customers of a provider.
pub type ProviderUserPage = Page<ProviderUserRecord, ProviderUserCursor>;

/// A card of a user and the providers that fund it. `status` is a database value.
#[derive(Debug)]
pub struct UserCardSummary {
    pub card_id: Uuid,
    pub masked_card_number: String,
    pub card_range_id: Uuid,
    pub status: String,
    pub state_version: i64,
    pub materialized_version: i64,
    pub provider_ids: Vec<Uuid>,
    pub created_at: UtcTime,
}

/// A card of a user as plain values.
pub struct UserCardView {
    pub card_id: Uuid,
    pub masked_card_number: String,
    pub card_range_id: Uuid,
    pub status: String,
    pub state_version: i64,
    pub materialized_version: i64,
    pub provider_ids: Seq<Uuid>,
    pub created_at: UtcTime,
}

impl View for UserCardSummary {
    type V = UserCardView;

    open spec fn view(&self) -> UserCardView {
        UserCardView {
            card_id: self.card_id,
            masked_card_number: self.masked_card_number,
            card_range_id: self.card_range_id,
            status: self.status,
            state_version: self.state_version,
            materialized_version: self.materialized_version,
            provider_ids: self.provider_ids@,
            created_at: self.created_at,
        }
    }
}

/// A provider that a user is a customer of.
#[derive(Debug)]
pub struct UserProviderSummary {
    pub provider_id: Uuid,
    pub provider_user_id: Uuid,
    pub provider_user_status: ProviderUserStatus,
    pub provider_user_account_id: Option<Uuid>,
    pub card_id: Option<Uuid>,
    pub masked_card_number: Option<String>,
    pub card_range_id: Option<Uuid>,
    pub created_at: UtcTime,
}

} // verus!
