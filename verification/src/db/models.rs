//! Records of the platform's database.
use vstd::prelude::*;
use crate::time::UtcTime;
use crate::uuid::Uuid;

verus! {

/// Whether an account may be used.
#[derive(Debug, Clone, Copy, PartialEq, Eq, Structural)]
pub enum AccountStatus {
    Active,
    Inactive,
    Suspended,
    Blocked,
}

/// The currency of an amount.
#[derive(Debug, Clone, Copy, PartialEq, Eq, Structural)]
pub enum Currency {
    Irr,
    Usd,
    Eur,
}

/// What a transaction does.
#[derive(Debug, Clone, Copy, PartialEq, Eq, Structural)]
pub enum TransactionType {
    Credit,
    Debit,
    Transfer,
    Fee,
    Settlement,
    Refund,
}

/// How far a transaction has come.
#[derive(Debug, Clone, Copy, PartialEq, Eq, Structural)]
pub enum TransactionStatus {
    Pending,
    Success,
    Failed,
    Reversed,
}

/// Whether a priority configuration is in force.
#[derive(Debug, Clone, Copy, PartialEq, Eq, Structural)]
pub enum PriorityStatus {
    ACTIVE,
    CONSUMED,
    EXPIRED,
    CANCELLED,
}

/// How often a priority may be used.
#[derive(Debug, Clone, Copy, PartialEq, Eq, Structural)]
pub enum PriorityUsageType {
    SingleUse,
    MultiUse,
}

/// A credit provider. `kafka_config` is a JSON document.
#[derive(Debug, Clone)]
pub struct Provider {
    pub id: Uuid,
    pub is_core: bool,
    pub legal_name: String,
    pub trade_name: String,
    pub tax_id: String,
    pub email_address: String,
    pub office_phone: String,
    pub website_url: Option<String>,
    pub mailing_address: String,
    pub alert_phone_numbers: Vec<String>,
    pub banner_image_id: Option<String>,
    pub profile_image_id: Option<String>,
    pub is_active: bool,
    pub fee_rate_bps: i32,
    pub fixed_fee_amount: i64,
    pub kafka_config: String,
    pub ledger_account_id: Uuid,
    pub created_at: UtcTime,
    pub updated_at: UtcTime,
}

/// A card holder. `internal_metadata` is a JSON document.
#[derive(Debug, Clone)]
pub struct User {
    pub id: Uuid,
    pub nid: String,
    pub internal_metadata: String,
    pub created_at: UtcTime,
    pub updated_at: UtcTime,
}

/// A user as one provider knows them. `external_metadata` is a JSON document.
#[derive(Debug, Clone)]
pub struct UserProvider {
    pub user_id: Uuid,
    pub provider_id: Uuid,
    pub external_metadata: String,
    pub created_at: UtcTime,
    pub updated_at: UtcTime,
}

/// An account of a user at a provider.
#[derive(Debug, Clone)]
pub struct UserAccount {
    pub id: Uuid,
    pub user_id: Uuid,
    pub provider_id: Uuid,
    pub ledger_account_id: Uuid,
    pub status: AccountStatus,
    pub created_at: UtcTime,
    pub updated_at: UtcTime,
}

/// A user, a provider and their accounts. The metadata fields are JSON documents.
#[derive(Debug)]
pub struct UserProviderDetails {
    pub user_id: Uuid,
    pub nid: String,
    pub internal_metadata: String,
    pub external_metadata: String,
    pub user_ledger_account_id: Uuid,
    pub provider_ledger_account_id: Uuid,
    pub status: AccountStatus,
    pub created_at: UtcTime,
    pub updated_at: UtcTime,
}

/// The provider behind an account.
#[derive(Debug)]
pub struct UserAccountProviderInfo {
    pub provider_id: Uuid,
    pub provider_name: String,
    pub ledger_account_id: Uuid,
}

/// A movement between two ledger accounts. `metadata` is a JSON document.
#[derive(Debug)]
pub struct Transaction {
    pub id: Uuid,
    pub idempotency_key: String,
    pub transaction_type: TransactionType,
    pub amount: i64,
    pub currency: Option<Currency>,
    pub dr_account_id: Uuid,
    pub cr_account_id: Uuid,
    pub user_id: Option<Uuid>,
    pub provider_id: Option<Uuid>,
    pub status: TransactionStatus,
    pub parent_transaction_id: Option<Uuid>,
    pub external_reference_id: Option<String>,
    pub description: Option<String>,
    pub metadata: Option<String>,
    pub created_at: UtcTime,
    pub processed_at: Option<UtcTime>,
}

/// The order in which a user draws on their providers.
#[derive(Debug)]
pub struct UserPriorityConfig {
    pub id: Uuid,
    pub user_id: Uuid,
    pub idempotency_key: String,
    pub status: PriorityStatus,
    pub expires_at: Option<UtcTime>,
    pub is_deleted: bool,
    pub deleted_at: Option<UtcTime>,
    pub created_at: UtcTime,
    pub updated_at: UtcTime,
}

/// One provider within a priority configuration.
#[derive(Debug)]
pub struct UserPriorityItem {
    pub id: Uuid,
    pub config_id: Uuid,
    pub provider_id: Uuid,
    pub user_ledger_account_id: Uuid,
    pub provider_ledger_account_id: Uuid,
    pub priority_order: i32,
    pub usage_type: PriorityUsageType,
    pub max_amount: i64,
    pub fee_rate_bps: i32,
    pub fixed_fee_amount: i64,
    pub created_at: UtcTime,
    pub updated_at: UtcTime,
}

/// A priority configuration with its items.
#[derive(Debug)]
pub struct UserPriorityDetails {
    pub config: UserPriorityConfig,
    pub items: Vec<UserPriorityItem>,
}

/// What it takes to create a priority item.
#[derive(Debug)]
pub struct PriorityItemData {
    pub provider_id: Uuid,
    pub usage_type: PriorityUsageType,
    pub max_amount: i64,
    pub user_ledger_account_id: Uuid,
    pub provider_ledger_account_id: Uuid,
}

} // verus!
