//! Customers of providers and their cards.
use vstd::prelude::*;
use crate::db::oracle::audit;
use crate::db::oracle::binds;
use crate::db::oracle::consult::{Attachment, AttachmentView, Rule};
use crate::db::oracle::document::{Document, EventKeys, Snapshot};
use crate::db::oracle::idempotency;
use crate::db::oracle::idempotency::IdempotencyVerdict;
use crate::db::oracle::repository::OracleRepository;
use crate::db::oracle::script;
use crate::db::oracle::script::{Bind, Halt, HaltView, Row, Rows, RunView, Session};
use crate::domain::audit::AuditAction;
use crate::domain::command::{HeaderSource, MutationCommandContext};
use crate::domain::copied;
use crate::domain::idempotency::IdempotencyRecord;
use crate::domain::page;
use crate::domain::page::Page;
use crate::domain::user_card::{
    CardInstruction, CardProfileBase, CardProfileFundingSource, CardProfileLedgerAccounts,
    CardProfileRefreshReason, CardResolution, MismatchFields, NewCardDelivery,
    NewProviderUserEnrollment, PolicyUsageAccountIds, ProviderUserCursor, ProviderUserPage,
    ProviderUserRecord, ProviderUserStatus, ProviderUserView, UserCardSummary, UserCardView,
    UserProviderSummary,
};
use crate::json;
use crate::text;
use crate::time::UtcTime;
use crate::uuid::Uuid;

verus! {

/// The context of a column that cannot be read.
pub const READ_ROW: &'static str = "failed to read Oracle provider-user row";

/// Lists the cards of a user that a provider funds, newest first.
pub const CARDS_OF_PROVIDER_SQL: &'static str = r#"SELECT DISTINCT c.card_id,c.card_number,c.card_range_id,c.status,c.state_version,c.materialized_version,TO_CHAR(SYS_EXTRACT_UTC(c.created_at),'YYYY-MM-DD"T"HH24:MI:SS.FF3"Z"') FROM cards c JOIN card_provider_funding_sources fs ON fs.card_id=c.card_id WHERE c.user_id=:1 AND fs.provider_id=:2 ORDER BY c.created_at DESC,c.card_id DESC"#;

/// Lists the cards of a user, newest first.
pub const CARDS_SQL: &'static str = r#"SELECT c.card_id,c.card_number,c.card_range_id,c.status,c.state_version,c.materialized_version,TO_CHAR(SYS_EXTRACT_UTC(c.created_at),'YYYY-MM-DD"T"HH24:MI:SS.FF3"Z"') FROM cards c WHERE c.user_id=:1 ORDER BY c.created_at DESC,c.card_id DESC"#;

/// Lists the providers that fund a card, by rank.
pub const CARD_PROVIDERS_SQL: &'static str = "SELECT provider_id FROM card_provider_funding_sources WHERE card_id=:1 AND status IN ('PROVISIONING','ACTIVE','SUSPENDED','RECOVERY_REQUIRED') ORDER BY priority NULLS LAST,provider_id";

/// Joins the providers of users with their accounts and cards.
pub const USER_PROVIDERS_SQL: &'static str = r#"SELECT pu.provider_id,pu.provider_user_id,pu.status,pua.provider_user_account_id,c.card_id,c.card_number,c.card_range_id,TO_CHAR(SYS_EXTRACT_UTC(pu.created_at),'YYYY-MM-DD"T"HH24:MI:SS.FF3"Z"') FROM provider_users pu LEFT JOIN provider_user_accounts pua ON pua.provider_user_id=pu.provider_user_id LEFT JOIN card_provider_funding_sources fs ON fs.provider_user_id=pu.provider_user_id AND fs.status IN ('PROVISIONING','ACTIVE','SUSPENDED','RECOVERY_REQUIRED') LEFT JOIN cards c ON c.card_id=fs.card_id"#;

/// Lists the customers of a provider, newest first.
pub const LIST_PROVIDER_USERS_SQL: &'static str = r#"SELECT pu.provider_user_id,pu.enrollment_id,pu.provider_id,pu.user_id,u.national_id,u.first_name,u.last_name,pu.provider_customer_reference,pu.identity_mismatch,JSON_SERIALIZE(pu.mismatch_fields_json RETURNING CLOB),pu.status,c.card_id,c.card_number,c.card_range_id,pua.provider_user_account_id,TO_CHAR(SYS_EXTRACT_UTC(pu.created_at),'YYYY-MM-DD"T"HH24:MI:SS.FF3"Z"'),TO_CHAR(SYS_EXTRACT_UTC(pu.updated_at),'YYYY-MM-DD"T"HH24:MI:SS.FF3"Z"') FROM provider_users pu JOIN users u ON u.user_id=pu.user_id LEFT JOIN card_provider_funding_sources fs ON fs.provider_user_id=pu.provider_user_id AND fs.status IN ('PROVISIONING','ACTIVE','SUSPENDED','RECOVERY_REQUIRED') LEFT JOIN cards c ON c.card_id=fs.card_id LEFT JOIN provider_user_accounts pua ON pua.provider_user_id=pu.provider_user_id WHERE pu.provider_id=:1 AND (:2 IS NULL OR pu.status=:3) AND (:4 IS NULL OR pu.created_at<TO_TIMESTAMP_TZ(:5,'YYYY-MM-DD"T"HH24:MI:SS.FF3"Z"') OR (pu.created_at=TO_TIMESTAMP_TZ(:6,'YYYY-MM-DD"T"HH24:MI:SS.FF3"Z"') AND pu.provider_user_id<:7)) ORDER BY pu.created_at DESC,pu.provider_user_id DESC FETCH FIRST :8 ROWS ONLY"#;

/// Reads a customer of a provider.
pub const PROVIDER_USER_SQL: &'static str = r#"SELECT pu.provider_user_id,pu.enrollment_id,pu.provider_id,pu.user_id,u.national_id,u.first_name,u.last_name,pu.provider_customer_reference,pu.identity_mismatch,JSON_SERIALIZE(pu.mismatch_fields_json RETURNING CLOB),pu.status,c.card_id,c.card_number,c.card_range_id,pua.provider_user_account_id,TO_CHAR(SYS_EXTRACT_UTC(pu.created_at),'YYYY-MM-DD"T"HH24:MI:SS.FF3"Z"'),TO_CHAR(SYS_EXTRACT_UTC(pu.updated_at),'YYYY-MM-DD"T"HH24:MI:SS.FF3"Z"') FROM provider_users pu JOIN users u ON u.user_id=pu.user_id LEFT JOIN card_provider_funding_sources fs ON fs.provider_user_id=pu.provider_user_id AND fs.status IN ('PROVISIONING','ACTIVE','SUSPENDED','RECOVERY_REQUIRED') LEFT JOIN cards c ON c.card_id=fs.card_id LEFT JOIN provider_user_accounts pua ON pua.provider_user_id=pu.provider_user_id WHERE pu.provider_id=:1 AND pu.user_id=:2"#;

/// Locks a provider and reads its status.
pub const PROVIDER_STATUS_SQL: &'static str = "SELECT status FROM providers WHERE provider_id=:1 FOR UPDATE";

/// Counts an operational profile where it is in force.
pub const PROFILE_IN_FORCE_SQL: &'static str = "SELECT COUNT(*) FROM provider_operational_profiles WHERE provider_operational_profile_id=:1 AND provider_id=:2 AND status='ACTIVE' AND effective_at<=SYSTIMESTAMP";

/// Reopens an enrollment that was rejected.
pub const REOPEN_SQL: &'static str = "UPDATE provider_users SET enrollment_id=:1,supplied_first_name=:2,supplied_last_name=:3,identity_mismatch=:4,mismatch_fields_json=:5,selection_reference=:6,status='CARD_ISSUANCE_PENDING',metadata_json=:7,updated_by_subject=:8,updated_at=SYSTIMESTAMP WHERE provider_user_id=:9 AND status='ISSUANCE_REJECTED'";

/// Joins an enrollment to a card issuance.
pub const JOIN_REQUEST_SQL: &'static str = "INSERT INTO card_issuance_request_providers (card_issuance_request_id,provider_user_id,provider_id,enrollment_id,enrollment_order,status) VALUES (:1,:2,:3,:4,:5,'PENDING')";

/// Counts the customers of a provider.
pub const COUNT_USERS_SQL: &'static str = "SELECT COUNT(*) FROM provider_users WHERE provider_id=:1 AND status IN ('CARD_ISSUANCE_PENDING','PROVISIONING','ACTIVE','SUSPENDED','RECOVERY_REQUIRED')";

/// Stages the account of a customer.
pub const STAGE_ACCOUNT_SQL: &'static str = "INSERT INTO provider_user_accounts (provider_user_account_id,provider_user_id,provider_id,user_id,tigerbeetle_account_id,status) VALUES (:1,:2,:3,:4,:5,'PROVISIONING')";

/// Stages a funding source of a card.
pub const STAGE_FUNDING_SQL: &'static str = "INSERT INTO card_provider_funding_sources (card_funding_source_id,card_id,provider_id,provider_user_id,provider_user_account_id,priority,status,created_by_subject,updated_by_subject) VALUES (:1,:2,:3,:4,:5,:6,'PROVISIONING',:7,:7)";

/// Stores the intent to provision an account.
pub const STAGE_WAL_SQL: &'static str = "INSERT INTO operation_wal (operation_id,operation_type,aggregate_type,aggregate_id,status,deterministic_external_id,request_json) VALUES (:1,'PROVIDER_USER_ACCOUNT_PROVISION','PROVIDER_USER',:2,'PENDING',:3,:4)";

/// Ties a command in progress to the customer it enrolls.
pub const BIND_INTENT_SQL: &'static str = "UPDATE idempotency_records SET resource_type='provider_user',resource_id=:1,updated_at=SYSTIMESTAMP WHERE operation_type=:2 AND idempotency_key=:3 AND status='IN_PROGRESS'";

/// Locks a customer and reads the status.
pub const STAGED_STATUS_SQL: &'static str = "SELECT status FROM provider_users WHERE provider_user_id=:1 FOR UPDATE";

/// Activates a customer.
pub const ACTIVATE_USER_SQL: &'static str = "UPDATE provider_users SET status='ACTIVE',updated_at=SYSTIMESTAMP WHERE provider_user_id=:1 AND status IN ('PROVISIONING','RECOVERY_REQUIRED')";

/// Activates the account of a customer.
pub const ACTIVATE_ACCOUNT_SQL: &'static str = "UPDATE provider_user_accounts SET status='ACTIVE',updated_at=SYSTIMESTAMP WHERE provider_user_id=:1 AND status IN ('PROVISIONING','RECOVERY_REQUIRED')";

/// Activates the funding source of a customer.
pub const ACTIVATE_FUNDING_SQL: &'static str = "UPDATE card_provider_funding_sources SET status='ACTIVE',updated_at=SYSTIMESTAMP WHERE provider_user_id=:1 AND status IN ('PROVISIONING','RECOVERY_REQUIRED')";

/// Activates the accounts that count what a card spends.
pub const ACTIVATE_USAGE_SQL: &'static str = "UPDATE card_policy_usage_accounts SET status='ACTIVE',updated_at=SYSTIMESTAMP WHERE card_id=:1 AND status='PROVISIONING'";

/// Completes an intent.
pub const COMPLETE_WAL_SQL: &'static str = "UPDATE operation_wal SET status='COMPLETED',response_json=:1,error_json=NULL,updated_at=SYSTIMESTAMP,completed_at=SYSTIMESTAMP WHERE operation_id=:2 AND status IN ('PENDING','EXTERNAL_IN_FLIGHT','EXTERNAL_VERIFIED','FAILED')";

/// Marks a customer for recovery.
pub const RECOVER_USER_SQL: &'static str = "UPDATE provider_users SET status='RECOVERY_REQUIRED',updated_at=SYSTIMESTAMP WHERE provider_user_id=:1 AND status='PROVISIONING'";

/// Marks the account of a customer for recovery.
pub const RECOVER_ACCOUNT_SQL: &'static str = "UPDATE provider_user_accounts SET status='RECOVERY_REQUIRED',updated_at=SYSTIMESTAMP WHERE provider_user_id=:1 AND status='PROVISIONING'";

/// Marks the funding source of a customer for recovery.
pub const RECOVER_FUNDING_SQL: &'static str = "UPDATE card_provider_funding_sources SET status='RECOVERY_REQUIRED',updated_at=SYSTIMESTAMP WHERE provider_user_id=:1 AND status='PROVISIONING'";

/// Marks an intent as failed.
pub const FAIL_WAL_SQL: &'static str = "UPDATE operation_wal SET status='FAILED',error_json=:1,attempt_count=attempt_count+1,updated_at=SYSTIMESTAMP WHERE operation_id=:2 AND status<>'COMPLETED'";

/// Stores the lock of a national number, where it is missing.
pub const ALLOCATE_IDENTITY_SQL: &'static str = "MERGE INTO user_identity_allocation_locks target USING (SELECT :1 national_id_hash FROM dual) source ON (target.national_id_hash=source.national_id_hash) WHEN NOT MATCHED THEN INSERT (national_id_hash) VALUES (source.national_id_hash)";

/// Locks a national number.
pub const LOCK_IDENTITY_SQL: &'static str = "SELECT national_id_hash FROM user_identity_allocation_locks WHERE national_id_hash=:1 FOR UPDATE";

/// Locks and reads the user with a national number.
pub const FIND_USER_SQL: &'static str = "SELECT user_id,first_name,last_name FROM users WHERE national_id=:1 FOR UPDATE";

/// Stores a user.
pub const CREATE_USER_SQL: &'static str = "INSERT INTO users (user_id,national_id,first_name,last_name,metadata_json,status,created_by_subject,updated_by_subject) VALUES (:1,:2,:3,:4,:5,'ACTIVE',:6,:6)";

/// Locks and reads the customer that a user is of a provider.
pub const RELATIONSHIP_SQL: &'static str = "SELECT provider_user_id,provider_customer_reference,status FROM provider_users WHERE provider_id=:1 AND user_id=:2 FOR UPDATE";

/// Locks and reads the range in which a provider issues cards.
pub const PROVIDER_RANGE_SQL: &'static str = "SELECT cr.card_range_id,cr.funding_mode FROM card_range_providers crp JOIN card_ranges cr ON cr.card_range_id=crp.card_range_id WHERE crp.provider_id=:1 AND crp.status='ACTIVE' AND cr.status='ACTIVE' AND cr.issuance_enabled=1 FOR UPDATE OF crp.status";

/// Locks and reads the active card of a user in a range.
pub const ACTIVE_CARD_SQL: &'static str = "SELECT card_id FROM cards WHERE user_id=:1 AND card_range_id=:2 AND status='ACTIVE' FOR UPDATE";

/// Locks and reads a card by its number.
pub const EXISTING_CARD_SQL: &'static str = "SELECT card_id,user_id,card_range_id,status FROM cards WHERE card_number=:1 FOR UPDATE";

/// Stores a customer of a provider.
pub const CREATE_PROVIDER_USER_SQL: &'static str = "INSERT INTO provider_users (provider_user_id,enrollment_id,provider_id,user_id,provider_customer_reference,supplied_first_name,supplied_last_name,identity_mismatch,mismatch_fields_json,selection_reference,status,metadata_json,created_by_subject,updated_by_subject) VALUES (:1,:2,:3,:4,:5,:6,:7,:8,:9,:10,:11,:12,:13,:13)";

/// Locks and reads the open card issuance of a user in a range.
pub const OPEN_REQUEST_SQL: &'static str = "SELECT card_issuance_request_id FROM card_issuance_requests WHERE user_id=:1 AND card_range_id=:2 AND status IN ('PENDING_EXPORT','EXPORTED','PROCESSING_RESULT','RECOVERY_REQUIRED') FOR UPDATE";

/// Stores a card issuance.
pub const CREATE_REQUEST_SQL: &'static str = "INSERT INTO card_issuance_requests (card_issuance_request_id,user_id,card_range_id,status,identity_snapshot_json,delivery_snapshot_json,created_by_subject,updated_by_subject) VALUES (:1,:2,:3,'PENDING_EXPORT',:4,:5,:6,:6)";

/// The next place in a card issuance.
pub const NEXT_ORDER_SQL: &'static str = "SELECT NVL(MAX(enrollment_order),0)+1 FROM card_issuance_request_providers WHERE card_issuance_request_id=:1";

/// The next rank among the funding sources of a card.
pub const NEXT_PRIORITY_SQL: &'static str = "SELECT NVL(MAX(priority),0)+1 FROM card_provider_funding_sources WHERE card_id=:1 AND status IN ('PROVISIONING','ACTIVE')";

/// Stores the accounts that count what a card spends, where they are missing.
pub const USAGE_MAPPING_SQL: &'static str = "MERGE INTO card_policy_usage_accounts target USING (SELECT :1 card_id FROM dual) source ON (target.card_id=source.card_id) WHEN NOT MATCHED THEN INSERT (card_id,amount_daily_account_id,amount_weekly_account_id,amount_monthly_account_id,amount_yearly_account_id,count_daily_account_id,count_weekly_account_id,count_monthly_account_id,count_yearly_account_id,status) VALUES (source.card_id,:2,:3,:4,:5,:6,:7,:8,:9,'PROVISIONING')";

/// Reads an enrollment with its card and account.
pub const ENROLLED_VIEW_SQL: &'static str = r#"SELECT pu.provider_id,pu.user_id,pu.provider_customer_reference,pu.identity_mismatch,JSON_SERIALIZE(pu.mismatch_fields_json RETURNING CLOB),pu.status,c.card_id,c.card_number,c.card_range_id,pua.provider_user_account_id,TO_CHAR(SYS_EXTRACT_UTC(pu.created_at),'YYYY-MM-DD"T"HH24:MI:SS.FF3"Z"'),TO_CHAR(SYS_EXTRACT_UTC(pu.updated_at),'YYYY-MM-DD"T"HH24:MI:SS.FF3"Z"') FROM provider_users pu JOIN card_provider_funding_sources fs ON fs.provider_user_id=pu.provider_user_id JOIN cards c ON c.card_id=fs.card_id JOIN provider_user_accounts pua ON pua.provider_user_id=pu.provider_user_id WHERE pu.provider_user_id=:1"#;

/// Stores a card event.
pub const CARD_OUTBOX_SQL: &'static str = "INSERT INTO integration_outbox (outbox_event_id,operation_id,event_type,aggregate_type,aggregate_id,partition_key,payload_json,headers_json) VALUES (:1,:2,'CARD_PROFILE_PUBLISH_REQUESTED','CARD',:3,:4,:5,:6)";

/// Names the operation that publishes a card.
pub const RECORD_PUBLICATION_SQL: &'static str = "UPDATE cards SET publication_operation_id=:1,updated_at=SYSTIMESTAMP WHERE card_id=:2";

/// Reads what the runtime is told of a card.
pub const PROJECTION_BASE_SQL: &'static str = "SELECT c.card_number,c.user_id,c.card_range_id,r.funding_mode,c.state_version,u.amount_daily_account_id,u.amount_weekly_account_id,u.amount_monthly_account_id,u.amount_yearly_account_id,u.count_daily_account_id,u.count_weekly_account_id,u.count_monthly_account_id,u.count_yearly_account_id FROM cards c JOIN card_ranges r ON r.card_range_id=c.card_range_id JOIN card_policy_usage_accounts u ON u.card_id=c.card_id WHERE c.card_id=:1 AND c.status='ACTIVE' AND u.status='ACTIVE'";

/// Lists the funding sources of a card, by rank.
pub const PROJECTION_FUNDING_SQL: &'static str = "SELECT fs.provider_id,fs.priority,fs.max_amount_rials,fs.provider_user_account_id,fee.tigerbeetle_account_id,cms.tigerbeetle_account_id,platform.tigerbeetle_account_id FROM card_provider_funding_sources fs JOIN provider_ledger_accounts fee ON fee.provider_id=fs.provider_id AND fee.account_category='PROVIDER_FEE' AND fee.status='ACTIVE' JOIN provider_ledger_accounts cms ON cms.provider_id=fs.provider_id AND cms.account_category='CMS_SETTLEMENT' AND cms.status='ACTIVE' JOIN provider_ledger_accounts platform ON platform.provider_id=fs.provider_id AND platform.account_category='PLATFORM_FEE' AND platform.status='ACTIVE' WHERE fs.card_id=:1 AND fs.status='ACTIVE' ORDER BY fs.priority";

/// Locks and reads the intent behind a customer.
pub const RESUME_SQL: &'static str = "SELECT w.operation_id,pu.enrollment_id,pu.provider_id,pu.user_id,fs.card_id,c.card_range_id,pua.provider_user_account_id,u.amount_daily_account_id,u.amount_weekly_account_id,u.amount_monthly_account_id,u.amount_yearly_account_id,u.count_daily_account_id,u.count_weekly_account_id,u.count_monthly_account_id,u.count_yearly_account_id FROM provider_users pu JOIN provider_user_accounts pua ON pua.provider_user_id=pu.provider_user_id JOIN card_provider_funding_sources fs ON fs.provider_user_id=pu.provider_user_id JOIN cards c ON c.card_id=fs.card_id JOIN card_policy_usage_accounts u ON u.card_id=c.card_id JOIN operation_wal w ON w.aggregate_id=pu.provider_user_id AND w.operation_type='PROVIDER_USER_ACCOUNT_PROVISION' WHERE pu.provider_user_id=:1 AND pu.status IN ('PROVISIONING','RECOVERY_REQUIRED') AND w.status IN ('PENDING','EXTERNAL_IN_FLIGHT','EXTERNAL_VERIFIED','FAILED') FOR UPDATE";

/// Stores a card event at a place among the events of its operation.
pub const CARD_EVENT_OUTBOX_SQL: &'static str = "INSERT INTO integration_outbox (outbox_event_id,operation_id,event_sequence,event_type,aggregate_type,aggregate_id,partition_key,payload_json,headers_json) VALUES (:1,:2,:3,'CARD_PROFILE_PUBLISH_REQUESTED','CARD',:4,:5,:6,:7)";

/// What the columns of a customer hold.
pub const PROVIDER_USER_COLUMNS: &'static str = "rrrrttttnttRTRRtt";

/// Reads a provider that a user is a customer of.
pub open spec fn user_providers_of_provider_sql_text() -> Seq<char> {
    USER_PROVIDERS_SQL@ + " WHERE pu.user_id=:1 AND pu.provider_id=:2 ORDER BY pu.created_at DESC,pu.provider_user_id DESC"@
}

fn user_providers_of_provider_sql() -> (r: String)
    ensures
        r@ == user_providers_of_provider_sql_text(),
{
    text::joined2(
        USER_PROVIDERS_SQL,
        " WHERE pu.user_id=:1 AND pu.provider_id=:2 ORDER BY pu.created_at DESC,pu.provider_user_id DESC",
    )
}

/// Lists the providers that a user is a customer of, newest first.
pub open spec fn user_providers_sql_text() -> Seq<char> {
    USER_PROVIDERS_SQL@ + " WHERE pu.user_id=:1 ORDER BY pu.created_at DESC,pu.provider_user_id DESC"@
}

fn user_providers_sql() -> (r: String)
    ensures
        r@ == user_providers_sql_text(),
{
    text::joined2(
        USER_PROVIDERS_SQL,
        " WHERE pu.user_id=:1 ORDER BY pu.created_at DESC,pu.provider_user_id DESC",
    )
}

/// The intent to give a customer an account behind a card that exists.
#[derive(Clone, Copy, Debug, PartialEq, Eq, Structural)]
pub struct ExistingCardProvisioningIntent {
    pub operation_id: Uuid,
    pub enrollment_id: Uuid,
    pub provider_user_id: Uuid,
    pub provider_id: Uuid,
    pub user_id: Uuid,
    pub card_id: Uuid,
    pub card_range_id: Uuid,
    pub provider_user_account_id: Uuid,
    pub usage_account_ids: PolicyUsageAccountIds,
}

/// What became of an enrollment. A replayed answer is a JSON document.
#[derive(Debug)]
pub enum EnrollProviderUserPersistenceOutcome {
    ExistingCardPrepared(Box<ExistingCardProvisioningIntent>),
    IssuancePending(Box<ProviderUserView>),
    Replayed(String),
    ProviderNotFound,
    ProviderNotActive,
    OperationalProfileChanged,
    RangeNotReady,
    ActiveCardSelectionRequired,
    ExistingCardNotFound,
    ExistingCardOwnerMismatch,
    ExistingCardRangeMismatch,
    ExistingCardNotActive,
    ExistingRelationship,
    MultiProviderAttachmentDisabled,
    UserLimitReached,
    IdempotencyConflict,
    IdempotencyInProgress,
    IdempotencyInvalidState,
}

/// The range in which a provider issues cards. `funding_mode` is a database value.
#[derive(Debug)]
pub struct ProviderRange {
    pub card_range_id: Uuid,
    pub funding_mode: String,
}

/// A card. `status` is a database value.
#[derive(Debug)]
pub struct ExistingCard {
    pub card_id: Uuid,
    pub user_id: Uuid,
    pub card_range_id: Uuid,
    pub status: String,
}

/// The customer that a user is of a provider. `status` is a database value.
#[derive(Debug)]
pub struct ExistingProviderUserRelationship {
    pub provider_user_id: Uuid,
    pub provider_customer_reference: String,
    pub status: String,
}

/// A user, with the names on record.
#[derive(Debug)]
pub struct UserIdentity {
    pub user_id: Uuid,
    pub first_name: String,
    pub last_name: String,
}

/// A card as the runtime is told of it, and the key by which its events are ordered.
pub struct LoadedProjection {
    pub partition_key: String,
    pub base: CardProfileBase,
    pub funding_sources: Vec<CardProfileFundingSource>,
}

impl View for LoadedProjection {
    type V = (String, CardProfileBase, Seq<CardProfileFundingSource>);

    open spec fn view(&self) -> (String, CardProfileBase, Seq<CardProfileFundingSource>) {
        (self.partition_key, self.base, self.funding_sources@)
    }
}

/// A card number with its middle hidden, where there is one.
pub open spec fn masked_spec(
    st: RunView,
    number: Option<String>,
) -> (Result<Option<String>, HaltView>, RunView) {
    match number {
    None => {
        (Ok(None), st)
    },
    Some(plain) =>
    match script::consult_text_spec(
        st,
        Rule::MaskedCardNumber(plain),
    ) { (Err(h), st) => (Err(h), st), (Ok(shown), st) =>
    (Ok(Some(shown)), st)
    }}
}

/// A card number with its middle hidden, where there is one.
pub fn masked(s: &mut Session, number: Option<String>) -> (r: Result<Option<String>, Halt>)
    ensures
        (script::seen(r), final(s)@) == masked_spec(old(s)@, number),
{
    let plain = match number {
        Some(v) => v,
        None => {
            return Ok(None);
        },
    };
    let shown = script::consult_text(s, Rule::MaskedCardNumber(plain))?;
    Ok(Some(shown))
}

/// The provider that a row names.
pub open spec fn map_provider_id_spec(row: Row) -> Result<Uuid, HaltView> {
    match row.raw_at(0, READ_ROW@) { Err(h) => Err(h), Ok(provider_id_raw) =>
    match script::id_of(provider_id_raw@) { Err(h) => Err(h), Ok(provider_id) =>
    Ok(provider_id)
    }}
}

/// The provider that a row names.
pub fn map_provider_id(row: &Row) -> (r: Result<Uuid, Halt>)
    ensures
        script::seen(r) == map_provider_id_spec(*row),
{
    let provider_id_raw = row.raw(0, READ_ROW)?;
    let provider_id = script::to_id(provider_id_raw)?;
    Ok(provider_id)
}

/// The providers that rows name, in order.
pub open spec fn map_provider_ids_spec(
    rows: Seq<Row>,
    i: nat,
    done: Seq<Uuid>,
) -> Result<Seq<Uuid>, HaltView>
    decreases rows.len() - i,
{
    if i >= rows.len() {
        Ok(done)
    } else {
        match map_provider_id_spec(rows[i as int]) {
            Err(h) => Err(h), Ok(item) => map_provider_ids_spec(rows, i + 1, done.push(item))
        }
    }
}

/// The providers that rows name, in order.
pub fn map_provider_ids(rows: &Vec<Row>) -> (r: Result<Vec<Uuid>, Halt>)
    ensures
        script::seen_view(r) == map_provider_ids_spec(rows@, 0, Seq::empty()),
{
    let mut done: Vec<Uuid> = Vec::new();
    let mut i: usize = 0;
    assert(done@ =~= Seq::empty());
    while i < rows.len()
        invariant
            i <= rows@.len(),
            map_provider_ids_spec(rows@, 0, Seq::empty()) == map_provider_ids_spec(
                rows@,
                i as nat,
                done@,
            ),
        decreases rows@.len() - i,
    {
        let item = map_provider_id(&rows[i])?;
        done.push(item);
        i = i + 1;
    }
    Ok(done)
}

/// Each is that of its own row, and they come in the order of the rows.
pub proof fn map_provider_ids_go_in_turn(rows: Seq<Row>, i: nat, done: Seq<Uuid>)
    requires
        i <= rows.len(),
    ensures
        map_provider_ids_spec(rows, i, done) matches Ok(all) ==> {
            &&& all.len() == done.len() + (rows.len() - i)
            &&& all.take(done.len() as int) == done
            &&& forall|k: int| i <= k < rows.len() ==> (#[trigger] rows[k], map_provider_id_spec(rows[k])) == (
                rows[k],
                Ok::<Uuid, HaltView>(all[done.len() + k - i]),
            )
        },
    decreases rows.len() - i,
{
    if i < rows.len() {
        if let Ok(item) = map_provider_id_spec(rows[i as int]) {
            map_provider_ids_go_in_turn(rows, i + 1, done.push(item));
            if let Ok(all) = map_provider_ids_spec(rows, i, done) {
                assert(
                    all.take(done.len() as int) =~= all.take(
                        done.len() as int + 1,
                    ).take(done.len() as int)
                );
                assert(done.push(item).take(done.len() as int) =~= done);
                assert(
                    all[done.len() as int] == all.take(done.len() as int + 1)[done.len() as int]
                );
            }
        }
    } else {
        assert(done.take(done.len() as int) =~= done);
    }
}

/// The card that a row holds, with the providers that fund it.
pub open spec fn map_user_card_spec(
    st: RunView,
    row: Row,
) -> (Result<UserCardView, HaltView>, RunView) {
    match row.raw_at(0, READ_ROW@) { Err(h) => (Err(h), st), Ok(card_id_raw) =>
    match script::id_of(card_id_raw@) { Err(h) => (Err(h), st), Ok(card_id) =>
    match script::rows_spec(
        st,
        CARD_PROVIDERS_SQL@,
        seq![Bind::Id(card_id)],
        "r",
        "failed to list card providers"@,
    ) { (Err(h), st) => (Err(h), st), (Ok(listed), st) =>
    match map_provider_ids_spec(
        listed.rows@,
        0,
        Seq::empty(),
    ) { Err(h) => (Err(h), st), Ok(provider_ids) =>
    if let Some(cause) = listed.failure {
        (script::failed("failed to read card provider"@, cause@), st)
    } else {
    match row.text_at(6, READ_ROW@) { Err(h) => (Err(h), st), Ok(created_text) =>
    match row.text_at(1, READ_ROW@) { Err(h) => (Err(h), st), Ok(card_number) =>
    match script::consult_text_spec(
        st,
        Rule::MaskedCardNumber(card_number),
    ) { (Err(h), st) => (Err(h), st), (Ok(masked_card_number), st) =>
    match row.raw_at(2, READ_ROW@) { Err(h) => (Err(h), st), Ok(card_range_id_raw) =>
    match script::id_of(card_range_id_raw@) { Err(h) => (Err(h), st), Ok(card_range_id) =>
    match row.text_at(3, READ_ROW@) { Err(h) => (Err(h), st), Ok(status) =>
    match row.int_at(4, READ_ROW@) { Err(h) => (Err(h), st), Ok(state_version) =>
    match row.int_at(5, READ_ROW@) { Err(h) => (Err(h), st), Ok(materialized_version) =>
    match script::time_of(
        created_text@,
        "invalid Oracle timestamp"@,
    ) { Err(h) => (Err(h), st), Ok(created_at) =>
    (
        Ok(UserCardView {
            card_id,
            masked_card_number,
            card_range_id,
            status,
            state_version,
            materialized_version,
            provider_ids,
            created_at,
        }),
        st,
    )
    }}}}}}}}}}}}}}
}

/// The card that a row holds, with the providers that fund it.
pub fn map_user_card(s: &mut Session, row: &Row) -> (r: Result<UserCardSummary, Halt>)
    ensures
        (script::seen_view(r), final(s)@) == map_user_card_spec(old(s)@, *row),
{
    let card_id_raw = row.raw(0, READ_ROW)?;
    let card_id = script::to_id(card_id_raw)?;
    let listed = script::rows(
        s,
        CARD_PROVIDERS_SQL,
        binds::binds1(Bind::Id(card_id)),
        "r",
        "failed to list card providers",
    )?;
    let provider_ids = map_provider_ids(&listed.rows)?;
    if let Some(cause) = &listed.failure {
        return Err(script::fail_because("failed to read card provider", cause.as_str()));
    }
    let created_text = row.text(6, READ_ROW)?;
    let card_number = row.text(1, READ_ROW)?;
    let masked_card_number = script::consult_text(s, Rule::MaskedCardNumber(card_number))?;
    let card_range_id_raw = row.raw(2, READ_ROW)?;
    let card_range_id = script::to_id(card_range_id_raw)?;
    let status = row.text(3, READ_ROW)?;
    let state_version: i64 = row.number(4, READ_ROW)?;
    let materialized_version: i64 = row.number(5, READ_ROW)?;
    let created_at = script::to_time(created_text.as_str(), "invalid Oracle timestamp")?;
    Ok(UserCardSummary {
        card_id,
        masked_card_number,
        card_range_id,
        status,
        state_version,
        materialized_version,
        provider_ids,
        created_at,
    })
}

/// Cards as plain values.
pub open spec fn card_views(cards: Seq<UserCardSummary>) -> Seq<UserCardView> {
    cards.map_values(|c: UserCardSummary| c@)
}

/// The cards that rows hold from `i` on, after those that are done.
pub open spec fn map_user_cards_spec(
    st: RunView,
    rows: Seq<Row>,
    i: nat,
    done: Seq<UserCardView>,
) -> (
    Result<Seq<UserCardView>, HaltView>,
    RunView,
)
    decreases rows.len() - i,
{
    if i >= rows.len() {
        (Ok(done), st)
    } else {
        match map_user_card_spec(st, rows[i as int]) {
            (Err(h), st) => (Err(h), st),
            (Ok(item), st) => map_user_cards_spec(st, rows, i + 1, done.push(item)),
        }
    }
}

/// A list of cards by its views, with its halt as plain values.
pub open spec fn seen_cards(r: Result<Vec<UserCardSummary>, Halt>) -> Result<
    Seq<UserCardView>,
    HaltView,
> {
    match r {
        Ok(cards) => Ok(card_views(cards@)),
        Err(h) => Err(h@),
    }
}

/// The cards that rows hold, in order.
pub fn map_user_cards(s: &mut Session, rows: &Vec<Row>) -> (r: Result<Vec<UserCardSummary>, Halt>)
    ensures
        (seen_cards(r), final(s)@) == map_user_cards_spec(old(s)@, rows@, 0, Seq::empty()),
{
    let mut done: Vec<UserCardSummary> = Vec::new();
    let mut i: usize = 0;
    assert(card_views(done@) =~= Seq::empty());
    while i < rows.len()
        invariant
            i <= rows@.len(),
            map_user_cards_spec(old(s)@, rows@, 0, Seq::empty()) == map_user_cards_spec(
                s@,
                rows@,
                i as nat,
                card_views(done@),
            ),
        decreases rows@.len() - i,
    {
        let ghost before = done@;
        let item = map_user_card(s, &rows[i])?;
        let ghost shown = item@;
        done.push(item);
        assert(card_views(done@) =~= card_views(before).push(shown));
        i = i + 1;
    }
    Ok(done)
}

/// The rows of the cards of a user, or of those that a provider funds.
pub open spec fn query_cards_spec(
    st: RunView,
    user_id: Uuid,
    provider_filter: Option<Uuid>,
) -> (Result<Rows, HaltView>, RunView) {
    match provider_filter {
    None => {
        script::rows_spec(
            st,
            CARDS_SQL@,
            seq![Bind::Id(user_id)],
            "rtrtiit",
            "failed to list user cards"@,
        )
    },
    Some(provider_id) =>
    script::rows_spec(
        st,
        CARDS_OF_PROVIDER_SQL@,
        seq![Bind::Id(user_id), Bind::Id(provider_id)],
        "rtrtiit",
        "failed to list user cards"@,
    )
    }
}

/// The rows of the cards of a user, or of those that a provider funds.
pub fn query_cards<'a>(
    s: &mut Session<'a>,
    user_id: Uuid,
    provider_filter: Option<Uuid>,
) -> (r: Result<&'a Rows, Halt>)
    ensures
        (script::seen_ref(r), final(s)@) == query_cards_spec(old(s)@, user_id, provider_filter),
{
    let provider_id = match provider_filter {
        Some(v) => v,
        None => {
            return script::rows(
                s,
                CARDS_SQL,
                binds::binds1(Bind::Id(user_id)),
                "rtrtiit",
                "failed to list user cards",
            );
        },
    };
    script::rows(
        s,
        CARDS_OF_PROVIDER_SQL,
        binds::binds2(Bind::Id(user_id), Bind::Id(provider_id)),
        "rtrtiit",
        "failed to list user cards",
    )
}

/// The cards of a user, newest first, or those that a provider funds.
pub open spec fn list_user_cards_spec(
    st: RunView,
    user_id: Uuid,
    provider_filter: Option<Uuid>,
) -> (Result<Seq<UserCardView>, HaltView>, RunView) {
    match query_cards_spec(
        st,
        user_id,
        provider_filter,
    ) { (Err(h), st) => (Err(h), st), (Ok(found), st) =>
    match map_user_cards_spec(
        st,
        found.rows@,
        0,
        Seq::empty(),
    ) { (Err(h), st) => (Err(h), st), (Ok(cards), st) =>
    if let Some(cause) = found.failure {
        (script::failed("failed to read user card"@, cause@), st)
    } else {
    (Ok(cards), st)
    }}}
}

impl OracleRepository {
    /// The cards of a user, newest first, or those that a provider funds.
    pub fn list_user_cards(
        s: &mut Session,
        user_id: Uuid,
        provider_filter: Option<Uuid>,
    ) -> (r: Result<Vec<UserCardSummary>, Halt>)
        ensures
            (seen_cards(r), final(s)@) == list_user_cards_spec(old(s)@, user_id, provider_filter),
    {
        let found = query_cards(s, user_id, provider_filter)?;
        let cards = map_user_cards(s, &found.rows)?;
        if let Some(cause) = &found.failure {
            return Err(script::fail_because("failed to read user card", cause.as_str()));
        }
        Ok(cards)
    }
}

/// The provider of a user that a row holds.
pub open spec fn map_user_provider_spec(
    st: RunView,
    row: Row,
) -> (Result<UserProviderSummary, HaltView>, RunView) {
    match row.text_at(2, READ_ROW@) { Err(h) => (Err(h), st), Ok(status_text) =>
    match row.opt_raw_at(3, READ_ROW@) { Err(h) => (Err(h), st), Ok(account_raw) =>
    match row.opt_raw_at(4, READ_ROW@) { Err(h) => (Err(h), st), Ok(card_raw) =>
    match row.opt_text_at(5, READ_ROW@) { Err(h) => (Err(h), st), Ok(card_number) =>
    match row.opt_raw_at(6, READ_ROW@) { Err(h) => (Err(h), st), Ok(range_raw) =>
    match row.text_at(7, READ_ROW@) { Err(h) => (Err(h), st), Ok(created_text) =>
    match row.raw_at(0, READ_ROW@) { Err(h) => (Err(h), st), Ok(provider_id_raw) =>
    match script::id_of(provider_id_raw@) { Err(h) => (Err(h), st), Ok(provider_id) =>
    match row.raw_at(1, READ_ROW@) { Err(h) => (Err(h), st), Ok(provider_user_id_raw) =>
    match script::id_of(provider_user_id_raw@) { Err(h) => (Err(h), st), Ok(provider_user_id) =>
    match ProviderUserStatus::of_code(status_text@) {
    None => {
        (script::query_fault("unknown provider-user status"@), st)
    },
    Some(status) =>
    match script::opt_id_of(account_raw) { Err(h) => (Err(h), st), Ok(provider_user_account_id) =>
    match script::opt_id_of(card_raw) { Err(h) => (Err(h), st), Ok(card_id) =>
    match masked_spec(
        st,
        card_number,
    ) { (Err(h), st) => (Err(h), st), (Ok(masked_card_number), st) =>
    match script::opt_id_of(range_raw) { Err(h) => (Err(h), st), Ok(card_range_id) =>
    match script::time_of(
        created_text@,
        "invalid Oracle timestamp"@,
    ) { Err(h) => (Err(h), st), Ok(created_at) =>
    (
        Ok(UserProviderSummary {
            provider_id,
            provider_user_id,
            provider_user_status: status,
            provider_user_account_id,
            card_id,
            masked_card_number,
            card_range_id,
            created_at,
        }),
        st,
    )
    }}}}}}}}}}}}}}}}
}

/// The provider of a user that a row holds.
pub fn map_user_provider(s: &mut Session, row: &Row) -> (r: Result<UserProviderSummary, Halt>)
    ensures
        (script::seen(r), final(s)@) == map_user_provider_spec(old(s)@, *row),
{
    let status_text = row.text(2, READ_ROW)?;
    let account_raw = row.opt_raw(3, READ_ROW)?;
    let card_raw = row.opt_raw(4, READ_ROW)?;
    let card_number = row.opt_text(5, READ_ROW)?;
    let range_raw = row.opt_raw(6, READ_ROW)?;
    let created_text = row.text(7, READ_ROW)?;
    let provider_id_raw = row.raw(0, READ_ROW)?;
    let provider_id = script::to_id(provider_id_raw)?;
    let provider_user_id_raw = row.raw(1, READ_ROW)?;
    let provider_user_id = script::to_id(provider_user_id_raw)?;
    let status = match ProviderUserStatus::from_db_value(status_text.as_str()) {
        Some(v) => v,
        None => {
            return Err(script::fail_query("unknown provider-user status"));
        },
    };
    let provider_user_account_id = script::to_opt_id(account_raw)?;
    let card_id = script::to_opt_id(card_raw)?;
    let masked_card_number = masked(s, card_number)?;
    let card_range_id = script::to_opt_id(range_raw)?;
    let created_at = script::to_time(created_text.as_str(), "invalid Oracle timestamp")?;
    Ok(UserProviderSummary {
        provider_id,
        provider_user_id,
        provider_user_status: status,
        provider_user_account_id,
        card_id,
        masked_card_number,
        card_range_id,
        created_at,
    })
}

/// The providers of a user that rows hold, in order.
pub open spec fn map_user_providers_spec(
    st: RunView,
    rows: Seq<Row>,
    i: nat,
    done: Seq<UserProviderSummary>,
) -> (Result<Seq<UserProviderSummary>, HaltView>, RunView)
    decreases rows.len() - i,
{
    if i >= rows.len() {
        (Ok(done), st)
    } else {
        match map_user_provider_spec(st, rows[i as int]) {
            (Err(h), st) => (Err(h), st), (Ok(item), st) => map_user_providers_spec(
                st,
                rows,
                i + 1,
                done.push(item),
            )
        }
    }
}

/// The providers of a user that rows hold, in order.
pub fn map_user_providers(
    s: &mut Session,
    rows: &Vec<Row>,
) -> (r: Result<Vec<UserProviderSummary>, Halt>)
    ensures
        (script::seen_view(r), final(s)@) == map_user_providers_spec(
            old(s)@,
            rows@,
            0,
            Seq::empty(),
        ),
{
    let mut done: Vec<UserProviderSummary> = Vec::new();
    let mut i: usize = 0;
    assert(done@ =~= Seq::empty());
    while i < rows.len()
        invariant
            i <= rows@.len(),
            map_user_providers_spec(old(s)@, rows@, 0, Seq::empty()) == map_user_providers_spec(
                s@,
                rows@,
                i as nat,
                done@,
            ),
        decreases rows@.len() - i,
    {
        let item = map_user_provider(s, &rows[i])?;
        done.push(item);
        i = i + 1;
    }
    Ok(done)
}

/// Each is taken in its turn, after those before it, and the first that fails ends the run.
pub proof fn map_user_providers_go_in_turn(
    st: RunView,
    rows: Seq<Row>,
    i: nat,
    done: Seq<UserProviderSummary>,
)
    ensures
        ({
            let whole = map_user_providers_spec(st, rows, i, done);
            let (next, at) = map_user_provider_spec(st, rows[i as int]);
            &&& i >= rows.len() ==> whole == (Ok::<_, HaltView>(done), st)
            &&& i < rows.len() ==> match next {
                Ok(item) => whole == map_user_providers_spec(at, rows, i + 1, done.push(item)),
                Err(halt) => whole.0 == Err::<Seq<UserProviderSummary>, _>(halt) && whole.1 == at,
            }
        }),
{
}

/// The rows of the providers of a user, or of one of them.
pub open spec fn query_user_providers_spec(
    st: RunView,
    user_id: Uuid,
    provider_filter: Option<Uuid>,
) -> (Result<Rows, HaltView>, RunView) {
    match provider_filter {
    None => {
        script::rows_spec(
            st,
            user_providers_sql_text(),
            seq![Bind::Id(user_id)],
            "rrtRRTRt",
            "failed to list user providers"@,
        )
    },
    Some(provider_id) =>
    script::rows_spec(
        st,
        user_providers_of_provider_sql_text(),
        seq![Bind::Id(user_id), Bind::Id(provider_id)],
        "rrtRRTRt",
        "failed to list user providers"@,
    )
    }
}

/// The rows of the providers of a user, or of one of them.
pub fn query_user_providers<'a>(
    s: &mut Session<'a>,
    user_id: Uuid,
    provider_filter: Option<Uuid>,
) -> (r: Result<&'a Rows, Halt>)
    ensures
        (script::seen_ref(r), final(s)@) == query_user_providers_spec(
            old(s)@,
            user_id,
            provider_filter,
        ),
{
    let provider_id = match provider_filter {
        Some(v) => v,
        None => {
            return script::rows(
                s,
                user_providers_sql().as_str(),
                binds::binds1(Bind::Id(user_id)),
                "rrtRRTRt",
                "failed to list user providers",
            );
        },
    };
    script::rows(
        s,
        user_providers_of_provider_sql().as_str(),
        binds::binds2(Bind::Id(user_id), Bind::Id(provider_id)),
        "rrtRRTRt",
        "failed to list user providers",
    )
}

/// The providers that a user is a customer of, newest first, or one of them.
pub open spec fn list_user_providers_spec(
    st: RunView,
    user_id: Uuid,
    provider_filter: Option<Uuid>,
) -> (Result<Seq<UserProviderSummary>, HaltView>, RunView) {
    match query_user_providers_spec(
        st,
        user_id,
        provider_filter,
    ) { (Err(h), st) => (Err(h), st), (Ok(found), st) =>
    match map_user_providers_spec(
        st,
        found.rows@,
        0,
        Seq::empty(),
    ) { (Err(h), st) => (Err(h), st), (Ok(providers), st) =>
    if let Some(cause) = found.failure {
        (script::failed("failed to read user provider"@, cause@), st)
    } else {
    (Ok(providers), st)
    }}}
}

impl OracleRepository {
    /// The providers that a user is a customer of, newest first, or one of them.
    pub fn list_user_providers(
        s: &mut Session,
        user_id: Uuid,
        provider_filter: Option<Uuid>,
    ) -> (r: Result<Vec<UserProviderSummary>, Halt>)
        ensures
            (script::seen_view(r), final(s)@) == list_user_providers_spec(
                old(s)@,
                user_id,
                provider_filter,
            ),
    {
        let found = query_user_providers(s, user_id, provider_filter)?;
        let providers = map_user_providers(s, &found.rows)?;
        if let Some(cause) = &found.failure {
            return Err(script::fail_because("failed to read user provider", cause.as_str()));
        }
        Ok(providers)
    }
}

/// The customer that a row holds.
pub open spec fn map_provider_user_record_spec(
    st: RunView,
    row: Row,
) -> (Result<ProviderUserRecord, HaltView>, RunView) {
    match row.raw_at(0, READ_ROW@) { Err(h) => (Err(h), st), Ok(provider_user_raw) =>
    match row.raw_at(1, READ_ROW@) { Err(h) => (Err(h), st), Ok(enrollment_raw) =>
    match row.raw_at(2, READ_ROW@) { Err(h) => (Err(h), st), Ok(provider_raw) =>
    match row.raw_at(3, READ_ROW@) { Err(h) => (Err(h), st), Ok(user_raw) =>
    match row.text_at(9, READ_ROW@) { Err(h) => (Err(h), st), Ok(mismatch) =>
    match row.text_at(10, READ_ROW@) { Err(h) => (Err(h), st), Ok(status_text) =>
    match row.opt_raw_at(11, READ_ROW@) { Err(h) => (Err(h), st), Ok(card_raw) =>
    match row.opt_text_at(12, READ_ROW@) { Err(h) => (Err(h), st), Ok(card_number) =>
    match row.opt_raw_at(13, READ_ROW@) { Err(h) => (Err(h), st), Ok(range_raw) =>
    match row.opt_raw_at(14, READ_ROW@) { Err(h) => (Err(h), st), Ok(account_raw) =>
    match row.text_at(15, READ_ROW@) { Err(h) => (Err(h), st), Ok(created_text) =>
    match row.text_at(16, READ_ROW@) { Err(h) => (Err(h), st), Ok(updated_text) =>
    match script::id_of(provider_user_raw@) { Err(h) => (Err(h), st), Ok(provider_user_id) =>
    match script::id_of(enrollment_raw@) { Err(h) => (Err(h), st), Ok(enrollment_id) =>
    match script::id_of(provider_raw@) { Err(h) => (Err(h), st), Ok(provider_id) =>
    match script::id_of(user_raw@) { Err(h) => (Err(h), st), Ok(user_id) =>
    match row.text_at(4, READ_ROW@) { Err(h) => (Err(h), st), Ok(national_id) =>
    match row.text_at(5, READ_ROW@) { Err(h) => (Err(h), st), Ok(first_name) =>
    match row.text_at(6, READ_ROW@) { Err(h) => (Err(h), st), Ok(last_name) =>
    match row.text_at(7, READ_ROW@) { Err(h) => (Err(h), st), Ok(provider_customer_reference) =>
    match row.small_at(8, READ_ROW@) { Err(h) => (Err(h), st), Ok(differs) =>
    match json::json_texts_reading(
        mismatch@,
    ) { Err(e) => (script::failed("invalid provider-user mismatch JSON"@, e), st), Ok(_) =>
    match ProviderUserStatus::of_code(status_text@) {
    None => {
        (script::query_fault("unknown provider-user status"@), st)
    },
    Some(status) =>
    match script::opt_id_of(card_raw) { Err(h) => (Err(h), st), Ok(card_id) =>
    match masked_spec(
        st,
        card_number,
    ) { (Err(h), st) => (Err(h), st), (Ok(masked_card_number), st) =>
    match script::opt_id_of(range_raw) { Err(h) => (Err(h), st), Ok(card_range_id) =>
    match script::opt_id_of(account_raw) { Err(h) => (Err(h), st), Ok(provider_user_account_id) =>
    match script::time_of(
        created_text@,
        "invalid Oracle timestamp"@,
    ) { Err(h) => (Err(h), st), Ok(created_at) =>
    match script::time_of(
        updated_text@,
        "invalid Oracle timestamp"@,
    ) { Err(h) => (Err(h), st), Ok(updated_at) =>
    (
        Ok(ProviderUserRecord {
            provider_user_id,
            enrollment_id,
            provider_id,
            user_id,
            national_id,
            first_name,
            last_name,
            provider_customer_reference,
            identity_mismatch: differs == 1,
            mismatch_fields: MismatchFields::Stored(mismatch),
            status,
            card_id,
            masked_card_number,
            card_range_id,
            provider_user_account_id,
            created_at,
            updated_at,
        }),
        st,
    )
    }}}}}}}}}}}}}}}}}}}}}}}}}}}}}
}

/// The customer that a row holds.
pub fn map_provider_user_record(s: &mut Session, row: &Row) -> (r: Result<ProviderUserRecord, Halt>)
    ensures
        (script::seen(r), final(s)@) == map_provider_user_record_spec(old(s)@, *row),
{
    let provider_user_raw = row.raw(0, READ_ROW)?;
    let enrollment_raw = row.raw(1, READ_ROW)?;
    let provider_raw = row.raw(2, READ_ROW)?;
    let user_raw = row.raw(3, READ_ROW)?;
    let mismatch = row.text(9, READ_ROW)?;
    let status_text = row.text(10, READ_ROW)?;
    let card_raw = row.opt_raw(11, READ_ROW)?;
    let card_number = row.opt_text(12, READ_ROW)?;
    let range_raw = row.opt_raw(13, READ_ROW)?;
    let account_raw = row.opt_raw(14, READ_ROW)?;
    let created_text = row.text(15, READ_ROW)?;
    let updated_text = row.text(16, READ_ROW)?;
    let provider_user_id = script::to_id(provider_user_raw)?;
    let enrollment_id = script::to_id(enrollment_raw)?;
    let provider_id = script::to_id(provider_raw)?;
    let user_id = script::to_id(user_raw)?;
    let national_id = row.text(4, READ_ROW)?;
    let first_name = row.text(5, READ_ROW)?;
    let last_name = row.text(6, READ_ROW)?;
    let provider_customer_reference = row.text(7, READ_ROW)?;
    let differs: i64 = row.small(8, READ_ROW)?;
    match json::read_texts(mismatch.as_str()) {
        Ok(_) => {},
        Err(e) => {
            return Err(script::fail_because("invalid provider-user mismatch JSON", e.as_str()));
        },
    }
    let status = match ProviderUserStatus::from_db_value(status_text.as_str()) {
        Some(v) => v,
        None => {
            return Err(script::fail_query("unknown provider-user status"));
        },
    };
    let card_id = script::to_opt_id(card_raw)?;
    let masked_card_number = masked(s, card_number)?;
    let card_range_id = script::to_opt_id(range_raw)?;
    let provider_user_account_id = script::to_opt_id(account_raw)?;
    let created_at = script::to_time(created_text.as_str(), "invalid Oracle timestamp")?;
    let updated_at = script::to_time(updated_text.as_str(), "invalid Oracle timestamp")?;
    Ok(ProviderUserRecord {
        provider_user_id,
        enrollment_id,
        provider_id,
        user_id,
        national_id,
        first_name,
        last_name,
        provider_customer_reference,
        identity_mismatch: differs == 1,
        mismatch_fields: MismatchFields::Stored(mismatch),
        status,
        card_id,
        masked_card_number,
        card_range_id,
        provider_user_account_id,
        created_at,
        updated_at,
    })
}

/// The customers that rows hold, in order.
pub open spec fn map_provider_user_records_spec(
    st: RunView,
    rows: Seq<Row>,
    i: nat,
    done: Seq<ProviderUserRecord>,
) -> (Result<Seq<ProviderUserRecord>, HaltView>, RunView)
    decreases rows.len() - i,
{
    if i >= rows.len() {
        (Ok(done), st)
    } else {
        match map_provider_user_record_spec(st, rows[i as int]) {
            (Err(h), st) => (Err(h), st), (Ok(item), st) => map_provider_user_records_spec(
                st,
                rows,
                i + 1,
                done.push(item),
            )
        }
    }
}

/// The customers that rows hold, in order.
pub fn map_provider_user_records(
    s: &mut Session,
    rows: &Vec<Row>,
) -> (r: Result<Vec<ProviderUserRecord>, Halt>)
    ensures
        (script::seen_view(r), final(s)@) == map_provider_user_records_spec(
            old(s)@,
            rows@,
            0,
            Seq::empty(),
        ),
{
    let mut done: Vec<ProviderUserRecord> = Vec::new();
    let mut i: usize = 0;
    assert(done@ =~= Seq::empty());
    while i < rows.len()
        invariant
            i <= rows@.len(),
            map_provider_user_records_spec(old(s)@, rows@, 0, Seq::empty()) == map_provider_user_records_spec(
                s@,
                rows@,
                i as nat,
                done@,
            ),
        decreases rows@.len() - i,
    {
        let item = map_provider_user_record(s, &rows[i])?;
        done.push(item);
        i = i + 1;
    }
    Ok(done)
}

/// Each is taken in its turn, after those before it, and the first that fails ends the run.
pub proof fn map_provider_user_records_go_in_turn(
    st: RunView,
    rows: Seq<Row>,
    i: nat,
    done: Seq<ProviderUserRecord>,
)
    ensures
        ({
            let whole = map_provider_user_records_spec(st, rows, i, done);
            let (next, at) = map_provider_user_record_spec(st, rows[i as int]);
            &&& i >= rows.len() ==> whole == (Ok::<_, HaltView>(done), st)
            &&& i < rows.len() ==> match next {
                Ok(item) => {
                    whole == map_provider_user_records_spec(at, rows, i + 1, done.push(item))
                },
                Err(halt) => whole.0 == Err::<Seq<ProviderUserRecord>, _>(halt) && whole.1 == at,
            }
        }),
{
}

/// The instant after which a page begins, where there is a cursor.
pub open spec fn cursor_time_spec(cursor: Option<ProviderUserCursor>) -> Option<UtcTime> {
    match cursor {
        Some(c) => Some(c.created_at),
        None => None,
    }
}

fn cursor_time(cursor: &Option<ProviderUserCursor>) -> (r: Option<UtcTime>)
    ensures
        r == cursor_time_spec(*cursor),
{
    match cursor {
        Some(c) => Some(c.created_at),
        None => None,
    }
}

/// The identifier after which a page begins, where there is a cursor.
pub open spec fn cursor_id_spec(cursor: Option<ProviderUserCursor>) -> Option<Uuid> {
    match cursor {
        Some(c) => Some(c.provider_user_id),
        None => None,
    }
}

fn cursor_id(cursor: &Option<ProviderUserCursor>) -> (r: Option<Uuid>)
    ensures
        r == cursor_id_spec(*cursor),
{
    match cursor {
        Some(c) => Some(c.provider_user_id),
        None => None,
    }
}

/// A page of customers: its last one is the cursor, where another page follows.
pub open spec fn provider_user_page(found: Seq<ProviderUserRecord>, limit: nat) -> (
    Seq<ProviderUserRecord>,
    Option<ProviderUserCursor>,
) {
    let items = page::page_items(found, limit);
    (
        items,
        if page::has_next(found, limit) && items.len() > 0 {
            Some(
                ProviderUserCursor {
                    created_at: items.last().created_at,
                    provider_user_id: items.last().provider_user_id,
                },
            )
        } else {
            None
        },
    )
}

fn to_provider_user_page(found: Vec<ProviderUserRecord>, limit: usize) -> (r: ProviderUserPage)
    ensures
        r@ == provider_user_page(found@, limit as nat),
{
    let (items, more) = page::cut_page(found, limit);
    let next_cursor = if more && items.len() > 0 {
        let last = &items[items.len() - 1];
        Some(
            ProviderUserCursor {
                created_at: last.created_at,
                provider_user_id: last.provider_user_id,
            },
        )
    } else {
        None
    };
    Page { items, next_cursor }
}

/// The database value of an optional filter.
pub open spec fn status_filter_spec(value: Option<ProviderUserStatus>) -> Option<&'static str> {
    match value {
        Some(v) => Some(v.code()),
        None => None,
    }
}

fn status_filter(value: Option<ProviderUserStatus>) -> (r: Option<&'static str>)
    ensures
        r == status_filter_spec(value),
{
    match value {
        Some(v) => Some(v.as_db_value()),
        None => None,
    }
}

/// A page of the customers of a provider, newest first.
pub open spec fn list_provider_users_spec(
    st: RunView,
    provider_id: Uuid,
    status: Option<ProviderUserStatus>,
    cursor: Option<ProviderUserCursor>,
    limit: u16,
) -> (Result<(Seq<ProviderUserRecord>, Option<ProviderUserCursor>), HaltView>, RunView) {
    match script::rows_spec(
        st,
        LIST_PROVIDER_USERS_SQL@,
        seq![
            Bind::Id(provider_id),
            Bind::OptLabel(status_filter_spec(status)),
            Bind::OptLabel(status_filter_spec(status)),
            Bind::OptTime(cursor_time_spec(cursor)),
            Bind::OptTime(cursor_time_spec(cursor)),
            Bind::OptTime(cursor_time_spec(cursor)),
            Bind::OptId(cursor_id_spec(cursor)),
            Bind::Int(page::fetch_limit_spec(limit)),
        ],
        PROVIDER_USER_COLUMNS,
        "failed to list provider users"@,
    ) { (Err(h), st) => (Err(h), st), (Ok(found), st) =>
    match map_provider_user_records_spec(
        st,
        found.rows@,
        0,
        Seq::empty(),
    ) { (Err(h), st) => (Err(h), st), (Ok(items), st) =>
    if let Some(cause) = found.failure {
        (script::failed("failed to read provider-user list row"@, cause@), st)
    } else {
    (Ok(provider_user_page(items, limit as nat)), st)
    }}}
}

impl OracleRepository {
    /// A page of the customers of a provider, newest first.
    pub fn list_provider_users(
        s: &mut Session,
        provider_id: Uuid,
        status: Option<ProviderUserStatus>,
        cursor: Option<ProviderUserCursor>,
        limit: u16,
    ) -> (r: Result<ProviderUserPage, Halt>)
        ensures
            (script::seen_view(r), final(s)@) == list_provider_users_spec(
                old(s)@,
                provider_id,
                status,
                cursor,
                limit,
            ),
    {
        let found = script::rows(
            s,
            LIST_PROVIDER_USERS_SQL,
            binds::binds8(
                Bind::Id(provider_id),
                Bind::OptLabel(status_filter(status)),
                Bind::OptLabel(status_filter(status)),
                Bind::OptTime(cursor_time(&cursor)),
                Bind::OptTime(cursor_time(&cursor)),
                Bind::OptTime(cursor_time(&cursor)),
                Bind::OptId(cursor_id(&cursor)),
                Bind::Int(page::fetch_limit(limit)),
            ),
            PROVIDER_USER_COLUMNS,
            "failed to list provider users",
        )?;
        let items = map_provider_user_records(s, &found.rows)?;
        if let Some(cause) = &found.failure {
            return Err(script::fail_because(
                "failed to read provider-user list row",
                cause.as_str(),
            ));
        }
        Ok(to_provider_user_page(items, limit as usize))
    }
}

/// A customer of a provider.
pub open spec fn get_provider_user_record_spec(
    st: RunView,
    provider_id: Uuid,
    user_id: Uuid,
) -> (Result<Option<ProviderUserRecord>, HaltView>, RunView) {
    match script::first_row_spec(
        st,
        PROVIDER_USER_SQL@,
        seq![Bind::Id(provider_id), Bind::Id(user_id)],
        PROVIDER_USER_COLUMNS,
        "failed to get provider user"@,
        "failed to read provider user"@,
    ) { (Err(h), st) => (Err(h), st), (Ok(found), st) =>
    match found {
    None => {
        (Ok(None), st)
    },
    Some(row) =>
    match map_provider_user_record_spec(st, row) { (Err(h), st) => (Err(h), st), (Ok(record), st) =>
    (Ok(Some(record)), st)
    }}}
}

impl OracleRepository {
    /// A customer of a provider.
    pub fn get_provider_user_record(
        s: &mut Session,
        provider_id: Uuid,
        user_id: Uuid,
    ) -> (r: Result<Option<ProviderUserRecord>, Halt>)
        ensures
            (script::seen(r), final(s)@) == get_provider_user_record_spec(
                old(s)@,
                provider_id,
                user_id,
            ),
    {
        let found = script::first_row(
            s,
            PROVIDER_USER_SQL,
            binds::binds2(Bind::Id(provider_id), Bind::Id(user_id)),
            PROVIDER_USER_COLUMNS,
            "failed to get provider user",
            "failed to read provider user",
        )?;
        let row = match found {
            Some(v) => v,
            None => {
                return Ok(None);
            },
        };
        let record = map_provider_user_record(s, row)?;
        Ok(Some(record))
    }
}

/// Locks a national number, so that it gets one user.
pub open spec fn lock_national_identity_spec(
    st: RunView,
    national_id: String,
) -> (Result<(), HaltView>, RunView) {
    match script::execute_spec(
        st,
        ALLOCATE_IDENTITY_SQL@,
        seq![Bind::Digest(national_id)],
        "failed to allocate national identity lock"@,
    ) { (Err(h), st) => (Err(h), st), (Ok(_), st) =>
    match script::one_text_spec(
        st,
        LOCK_IDENTITY_SQL@,
        seq![Bind::Digest(national_id)],
        "failed to lock national identity"@,
    ) { (Err(h), st) => (Err(h), st), (Ok(_), st) =>
    (Ok(()), st)
    }}
}

/// Locks a national number, so that it gets one user.
pub fn lock_national_identity(s: &mut Session, national_id: &String) -> (r: Result<(), Halt>)
    ensures
        (script::seen(r), final(s)@) == lock_national_identity_spec(old(s)@, *national_id),
{
    script::execute(
        s,
        ALLOCATE_IDENTITY_SQL,
        binds::binds1(Bind::Digest(national_id.clone())),
        "failed to allocate national identity lock",
    )?;
    script::one_text(
        s,
        LOCK_IDENTITY_SQL,
        binds::binds1(Bind::Digest(national_id.clone())),
        "failed to lock national identity",
    )?;
    Ok(())
}

/// The user with a national number, who is stored where there is none.
pub open spec fn find_or_create_user_spec(
    st: RunView,
    context: MutationCommandContext,
    enrollment: NewProviderUserEnrollment,
) -> (Result<UserIdentity, HaltView>, RunView) {
    match script::maybe_row_spec(
        st,
        FIND_USER_SQL@,
        seq![Bind::Text(enrollment.national_id)],
        "rtt",
        "failed to resolve global user"@,
    ) { (Err(h), st) => (Err(h), st), (Ok(found), st) =>
    if let Some(row) = found {
        match row.raw_at(0, READ_ROW@) { Err(h) => (Err(h), st), Ok(user_raw) =>
        match script::id_of(user_raw@) { Err(h) => (Err(h), st), Ok(user_id) =>
        match row.text_at(1, READ_ROW@) { Err(h) => (Err(h), st), Ok(first_name) =>
        match row.text_at(2, READ_ROW@) { Err(h) => (Err(h), st), Ok(last_name) =>
        (Ok(UserIdentity { user_id, first_name, last_name }), st)
        }}}}
    } else {
    match script::fresh_id_spec(st) { (Err(h), st) => (Err(h), st), (Ok(user_id), st) =>
    match script::execute_spec(
        st,
        CREATE_USER_SQL@,
        seq![
            Bind::Id(user_id),
            Bind::Text(enrollment.national_id),
            Bind::Text(enrollment.first_name),
            Bind::Text(enrollment.last_name),
            Bind::Json(Document::Empty),
            Bind::Text(context.actor.subject),
        ],
        "failed to create global user"@,
    ) { (Err(h), st) => (Err(h), st), (Ok(_), st) =>
    (
        Ok(UserIdentity {
            user_id,
            first_name: enrollment.first_name,
            last_name: enrollment.last_name,
        }),
        st,
    )
    }}}}
}

/// The user with a national number, who is stored where there is none.
pub fn find_or_create_user(
    s: &mut Session,
    context: &MutationCommandContext,
    enrollment: &NewProviderUserEnrollment,
) -> (r: Result<UserIdentity, Halt>)
    ensures
        (script::seen(r), final(s)@) == find_or_create_user_spec(old(s)@, *context, *enrollment),
{
    let found = script::maybe_row(
        s,
        FIND_USER_SQL,
        binds::binds1(Bind::Text(enrollment.national_id.clone())),
        "rtt",
        "failed to resolve global user",
    )?;
    if let Some(row) = found {
        let user_raw = row.raw(0, READ_ROW)?;
        let user_id = script::to_id(user_raw)?;
        let first_name = row.text(1, READ_ROW)?;
        let last_name = row.text(2, READ_ROW)?;
        return Ok(UserIdentity { user_id, first_name, last_name });
    }
    let user_id = script::fresh_id(s)?;
    script::execute(
        s,
        CREATE_USER_SQL,
        binds::binds6(
            Bind::Id(user_id),
            Bind::Text(enrollment.national_id.clone()),
            Bind::Text(enrollment.first_name.clone()),
            Bind::Text(enrollment.last_name.clone()),
            Bind::Json(Document::Empty),
            Bind::Text(context.actor.subject.clone()),
        ),
        "failed to create global user",
    )?;
    Ok(UserIdentity {
        user_id,
        first_name: enrollment.first_name.clone(),
        last_name: enrollment.last_name.clone(),
    })
}

/// The customer that a user is of a provider, where there is one.
pub open spec fn find_relationship_spec(
    st: RunView,
    provider_id: Uuid,
    user_id: Uuid,
) -> (Result<Option<ExistingProviderUserRelationship>, HaltView>, RunView) {
    match script::first_row_spec(
        st,
        RELATIONSHIP_SQL@,
        seq![Bind::Id(provider_id), Bind::Id(user_id)],
        "rtt",
        "failed to check provider-user relationship"@,
        "failed to read provider-user relationship"@,
    ) { (Err(h), st) => (Err(h), st), (Ok(found), st) =>
    match found {
    None => {
        (Ok(None), st)
    },
    Some(row) =>
    match row.raw_at(0, READ_ROW@) { Err(h) => (Err(h), st), Ok(provider_user_id_raw) =>
    match script::id_of(provider_user_id_raw@) { Err(h) => (Err(h), st), Ok(provider_user_id) =>
    match row.text_at(1, READ_ROW@) { Err(h) => (Err(h), st), Ok(provider_customer_reference) =>
    match row.text_at(2, READ_ROW@) { Err(h) => (Err(h), st), Ok(status) =>
    (
        Ok(Some(ExistingProviderUserRelationship {
            provider_user_id,
            provider_customer_reference,
            status,
        })),
        st,
    )
    }}}}}}
}

/// The customer that a user is of a provider, where there is one.
pub fn find_relationship(
    s: &mut Session,
    provider_id: Uuid,
    user_id: Uuid,
) -> (r: Result<Option<ExistingProviderUserRelationship>, Halt>)
    ensures
        (script::seen(r), final(s)@) == find_relationship_spec(old(s)@, provider_id, user_id),
{
    let found = script::first_row(
        s,
        RELATIONSHIP_SQL,
        binds::binds2(Bind::Id(provider_id), Bind::Id(user_id)),
        "rtt",
        "failed to check provider-user relationship",
        "failed to read provider-user relationship",
    )?;
    let row = match found {
        Some(v) => v,
        None => {
            return Ok(None);
        },
    };
    let provider_user_id_raw = row.raw(0, READ_ROW)?;
    let provider_user_id = script::to_id(provider_user_id_raw)?;
    let provider_customer_reference = row.text(1, READ_ROW)?;
    let status = row.text(2, READ_ROW)?;
    Ok(Some(ExistingProviderUserRelationship {
        provider_user_id,
        provider_customer_reference,
        status,
    }))
}

/// The range in which a provider issues cards, where there is one.
pub open spec fn resolve_provider_range_spec(
    st: RunView,
    provider_id: Uuid,
) -> (Result<Option<ProviderRange>, HaltView>, RunView) {
    match script::maybe_row_spec(
        st,
        PROVIDER_RANGE_SQL@,
        seq![Bind::Id(provider_id)],
        "rt",
        "failed to resolve provider card range"@,
    ) { (Err(h), st) => (Err(h), st), (Ok(found), st) =>
    match found {
    None => {
        (Ok(None), st)
    },
    Some(row) =>
    match row.raw_at(0, READ_ROW@) { Err(h) => (Err(h), st), Ok(card_range_id_raw) =>
    match script::id_of(card_range_id_raw@) { Err(h) => (Err(h), st), Ok(card_range_id) =>
    match row.text_at(1, READ_ROW@) { Err(h) => (Err(h), st), Ok(funding_mode) =>
    (Ok(Some(ProviderRange { card_range_id, funding_mode })), st)
    }}}}}
}

/// The range in which a provider issues cards, where there is one.
pub fn resolve_provider_range(
    s: &mut Session,
    provider_id: Uuid,
) -> (r: Result<Option<ProviderRange>, Halt>)
    ensures
        (script::seen(r), final(s)@) == resolve_provider_range_spec(old(s)@, provider_id),
{
    let found = script::maybe_row(
        s,
        PROVIDER_RANGE_SQL,
        binds::binds1(Bind::Id(provider_id)),
        "rt",
        "failed to resolve provider card range",
    )?;
    let row = match found {
        Some(v) => v,
        None => {
            return Ok(None);
        },
    };
    let card_range_id_raw = row.raw(0, READ_ROW)?;
    let card_range_id = script::to_id(card_range_id_raw)?;
    let funding_mode = row.text(1, READ_ROW)?;
    Ok(Some(ProviderRange { card_range_id, funding_mode }))
}

/// The active card of a user in a range, where there is one.
pub open spec fn active_card_for_user_range_spec(
    st: RunView,
    user_id: Uuid,
    range_id: Uuid,
) -> (Result<Option<Uuid>, HaltView>, RunView) {
    script::maybe_id_spec(
        st,
        ACTIVE_CARD_SQL@,
        seq![Bind::Id(user_id), Bind::Id(range_id)],
        "failed to resolve active card for range"@,
    )
}

/// The active card of a user in a range, where there is one.
pub fn active_card_for_user_range(
    s: &mut Session,
    user_id: Uuid,
    range_id: Uuid,
) -> (r: Result<Option<Uuid>, Halt>)
    ensures
        (script::seen(r), final(s)@) == active_card_for_user_range_spec(old(s)@, user_id, range_id),
{
    script::maybe_id(
        s,
        ACTIVE_CARD_SQL,
        binds::binds2(Bind::Id(user_id), Bind::Id(range_id)),
        "failed to resolve active card for range",
    )
}

/// The card with a number, where there is one.
pub open spec fn resolve_existing_card_spec(
    st: RunView,
    card_number: String,
) -> (Result<Option<ExistingCard>, HaltView>, RunView) {
    match script::maybe_row_spec(
        st,
        EXISTING_CARD_SQL@,
        seq![Bind::Text(card_number)],
        "rrrt",
        "failed to resolve existing card"@,
    ) { (Err(h), st) => (Err(h), st), (Ok(found), st) =>
    match found {
    None => {
        (Ok(None), st)
    },
    Some(row) =>
    match row.raw_at(0, READ_ROW@) { Err(h) => (Err(h), st), Ok(card_raw) =>
    match row.raw_at(1, READ_ROW@) { Err(h) => (Err(h), st), Ok(user_raw) =>
    match row.raw_at(2, READ_ROW@) { Err(h) => (Err(h), st), Ok(range_raw) =>
    match script::id_of(card_raw@) { Err(h) => (Err(h), st), Ok(card_id) =>
    match script::id_of(user_raw@) { Err(h) => (Err(h), st), Ok(user_id) =>
    match script::id_of(range_raw@) { Err(h) => (Err(h), st), Ok(card_range_id) =>
    match row.text_at(3, READ_ROW@) { Err(h) => (Err(h), st), Ok(status) =>
    (Ok(Some(ExistingCard { card_id, user_id, card_range_id, status })), st)
    }}}}}}}}}
}

/// The card with a number, where there is one.
pub fn resolve_existing_card(
    s: &mut Session,
    card_number: &String,
) -> (r: Result<Option<ExistingCard>, Halt>)
    ensures
        (script::seen(r), final(s)@) == resolve_existing_card_spec(old(s)@, *card_number),
{
    let found = script::maybe_row(
        s,
        EXISTING_CARD_SQL,
        binds::binds1(Bind::Text(card_number.clone())),
        "rrrt",
        "failed to resolve existing card",
    )?;
    let row = match found {
        Some(v) => v,
        None => {
            return Ok(None);
        },
    };
    let card_raw = row.raw(0, READ_ROW)?;
    let user_raw = row.raw(1, READ_ROW)?;
    let range_raw = row.raw(2, READ_ROW)?;
    let card_id = script::to_id(card_raw)?;
    let user_id = script::to_id(user_raw)?;
    let card_range_id = script::to_id(range_raw)?;
    let status = row.text(3, READ_ROW)?;
    Ok(Some(ExistingCard { card_id, user_id, card_range_id, status }))
}

/// In which fields the supplied names differ from those on record.
pub open spec fn mismatch_of(
    user: UserIdentity,
    enrollment: NewProviderUserEnrollment,
) -> MismatchFields {
    MismatchFields::Compared {
        first_name: user.first_name@ != enrollment.first_name@,
        last_name: user.last_name@ != enrollment.last_name@,
    }
}

/// In which fields the supplied names differ from those on record.
pub fn identity_mismatch_fields(
    user: &UserIdentity,
    enrollment: &NewProviderUserEnrollment,
) -> (r: MismatchFields)
    ensures
        r == mismatch_of(*user, *enrollment),
{
    MismatchFields::Compared {
        first_name: !text::same_text(user.first_name.as_str(), enrollment.first_name.as_str()),
        last_name: !text::same_text(user.last_name.as_str(), enrollment.last_name.as_str()),
    }
}

/// The supplied names differ from those on record.
pub open spec fn differs(fields: MismatchFields) -> bool {
    match fields {
        MismatchFields::Compared { first_name, last_name } => first_name || last_name,
        MismatchFields::Stored(_) => false,
    }
}

fn is_mismatch(fields: &MismatchFields) -> (r: bool)
    ensures
        r == differs(*fields),
{
    match fields {
        MismatchFields::Compared { first_name, last_name } => *first_name || *last_name,
        MismatchFields::Stored(_) => false,
    }
}

/// The fields that differ, as a value for a statement.
pub open spec fn mismatch_bind(fields: MismatchFields) -> Bind {
    match fields {
        MismatchFields::Compared { first_name, last_name } => Bind::Label(
            if first_name && last_name {
                "[\"first_name\",\"last_name\"]"
            } else if first_name {
                "[\"first_name\"]"
            } else if last_name {
                "[\"last_name\"]"
            } else {
                "[]"
            },
        ),
        MismatchFields::Stored(list) => Bind::Text(list),
    }
}

fn bind_mismatch(fields: &MismatchFields) -> (r: Bind)
    ensures
        r == mismatch_bind(*fields),
{
    match fields {
        MismatchFields::Compared { first_name, last_name } => Bind::Label(
            if *first_name && *last_name {
                "[\"first_name\",\"last_name\"]"
            } else if *first_name {
                "[\"first_name\"]"
            } else if *last_name {
                "[\"last_name\"]"
            } else {
                "[]"
            },
        ),
        MismatchFields::Stored(list) => Bind::Text(list.clone()),
    }
}

/// As many customers as a provider may have.
pub open spec fn limit_is_reached(limit: u64, current: i64) -> bool {
    current < 0 || current >= limit
}

fn reached(limit: u64, current: i64) -> (r: bool)
    ensures
        r == limit_is_reached(limit, current),
{
    current < 0 || current as u64 >= limit
}

/// Stores a customer of a provider.
pub open spec fn insert_provider_user_spec(
    st: RunView,
    provider_user_id: Uuid,
    enrollment_id: Uuid,
    provider_id: Uuid,
    user_id: Uuid,
    enrollment: NewProviderUserEnrollment,
    mismatch: MismatchFields,
    status: &'static str,
    actor: String,
) -> (Result<(), HaltView>, RunView) {
    match script::execute_spec(
        st,
        CREATE_PROVIDER_USER_SQL@,
        seq![
            Bind::Id(provider_user_id),
            Bind::Id(enrollment_id),
            Bind::Id(provider_id),
            Bind::Id(user_id),
            Bind::Text(enrollment.provider_customer_reference),
            Bind::Text(enrollment.first_name),
            Bind::Text(enrollment.last_name),
            Bind::Flag(differs(mismatch)),
            mismatch_bind(mismatch),
            Bind::OptText(enrollment.selection_reference),
            Bind::Label(status),
            Bind::JsonText(enrollment.metadata),
            Bind::Text(actor),
        ],
        "failed to create provider-user relationship"@,
    ) { (Err(h), st) => (Err(h), st), (Ok(_), st) =>
    (Ok(()), st)
    }
}

/// Stores a customer of a provider.
#[allow(clippy::too_many_arguments)]
pub fn insert_provider_user(
    s: &mut Session,
    provider_user_id: Uuid,
    enrollment_id: Uuid,
    provider_id: Uuid,
    user_id: Uuid,
    enrollment: &NewProviderUserEnrollment,
    mismatch: &MismatchFields,
    status: &'static str,
    actor: &String,
) -> (r: Result<(), Halt>)
    ensures
        (script::seen(r), final(s)@) == insert_provider_user_spec(
            old(s)@,
            provider_user_id,
            enrollment_id,
            provider_id,
            user_id,
            *enrollment,
            *mismatch,
            status,
            *actor,
        ),
{
    script::execute(
        s,
        CREATE_PROVIDER_USER_SQL,
        binds::binds13(
            Bind::Id(provider_user_id),
            Bind::Id(enrollment_id),
            Bind::Id(provider_id),
            Bind::Id(user_id),
            Bind::Text(enrollment.provider_customer_reference.clone()),
            Bind::Text(enrollment.first_name.clone()),
            Bind::Text(enrollment.last_name.clone()),
            Bind::Flag(is_mismatch(mismatch)),
            bind_mismatch(mismatch),
            Bind::OptText(copied(&enrollment.selection_reference)),
            Bind::Label(status),
            Bind::JsonText(enrollment.metadata.clone()),
            Bind::Text(actor.clone()),
        ),
        "failed to create provider-user relationship",
    )?;
    Ok(())
}

/// The open card issuance of a user in a range, which is stored where there is none.
pub open spec fn find_or_create_issuance_request_spec(
    st: RunView,
    user_id: Uuid,
    range_id: Uuid,
    enrollment: NewProviderUserEnrollment,
    delivery: NewCardDelivery,
    actor: String,
) -> (Result<(Uuid, CardResolution), HaltView>, RunView) {
    match script::maybe_id_spec(
        st,
        OPEN_REQUEST_SQL@,
        seq![Bind::Id(user_id), Bind::Id(range_id)],
        "failed to resolve open issuance request"@,
    ) { (Err(h), st) => (Err(h), st), (Ok(open), st) =>
    if let Some(request_id) = open {
        (Ok((request_id, CardResolution::JoinedPendingIssuance)), st)
    } else {
    match script::fresh_id_spec(st) { (Err(h), st) => (Err(h), st), (Ok(request_id), st) =>
    match script::execute_spec(
        st,
        CREATE_REQUEST_SQL@,
        seq![
            Bind::Id(request_id),
            Bind::Id(user_id),
            Bind::Id(range_id),
            Bind::Json(Document::IssuanceIdentity(
                enrollment.national_id,
                enrollment.first_name,
                enrollment.last_name,
                delivery.birth_date,
            )),
            Bind::Json(Document::IssuanceDelivery(
                delivery.mobile,
                delivery.delivery_province,
                delivery.delivery_city,
                delivery.delivery_address,
                delivery.postal_code,
            )),
            Bind::Text(actor),
        ],
        "failed to create card issuance request"@,
    ) { (Err(h), st) => (Err(h), st), (Ok(_), st) =>
    (Ok((request_id, CardResolution::IssuanceRequested)), st)
    }}}}
}

/// The open card issuance of a user in a range, which is stored where there is none.
pub fn find_or_create_issuance_request(
    s: &mut Session,
    user_id: Uuid,
    range_id: Uuid,
    enrollment: &NewProviderUserEnrollment,
    delivery: &NewCardDelivery,
    actor: &String,
) -> (r: Result<(Uuid, CardResolution), Halt>)
    ensures
        (script::seen(r), final(s)@) == find_or_create_issuance_request_spec(
            old(s)@,
            user_id,
            range_id,
            *enrollment,
            *delivery,
            *actor,
        ),
{
    let open = script::maybe_id(
        s,
        OPEN_REQUEST_SQL,
        binds::binds2(Bind::Id(user_id), Bind::Id(range_id)),
        "failed to resolve open issuance request",
    )?;
    if let Some(request_id) = open {
        return Ok((request_id, CardResolution::JoinedPendingIssuance));
    }
    let request_id = script::fresh_id(s)?;
    script::execute(
        s,
        CREATE_REQUEST_SQL,
        binds::binds6(
            Bind::Id(request_id),
            Bind::Id(user_id),
            Bind::Id(range_id),
            Bind::Json(Document::IssuanceIdentity(
                enrollment.national_id.clone(),
                enrollment.first_name.clone(),
                enrollment.last_name.clone(),
                delivery.birth_date.clone(),
            )),
            Bind::Json(Document::IssuanceDelivery(
                delivery.mobile.clone(),
                delivery.delivery_province.clone(),
                delivery.delivery_city.clone(),
                delivery.delivery_address.clone(),
                delivery.postal_code.clone(),
            )),
            Bind::Text(actor.clone()),
        ),
        "failed to create card issuance request",
    )?;
    Ok((request_id, CardResolution::IssuanceRequested))
}

/// The next place in a card issuance.
pub open spec fn next_enrollment_order_spec(
    st: RunView,
    request_id: Uuid,
) -> (Result<i64, HaltView>, RunView) {
    script::one_int_spec(
        st,
        NEXT_ORDER_SQL@,
        seq![Bind::Id(request_id)],
        "failed to allocate issuance enrollment order"@,
    )
}

/// The next place in a card issuance.
pub fn next_enrollment_order(s: &mut Session, request_id: Uuid) -> (r: Result<i64, Halt>)
    ensures
        (script::seen(r), final(s)@) == next_enrollment_order_spec(old(s)@, request_id),
{
    script::one_int(
        s,
        NEXT_ORDER_SQL,
        binds::binds1(Bind::Id(request_id)),
        "failed to allocate issuance enrollment order",
    )
}

/// The next rank among the funding sources of a card.
pub open spec fn next_card_priority_spec(
    st: RunView,
    card_id: Uuid,
) -> (Result<i64, HaltView>, RunView) {
    script::one_int_spec(
        st,
        NEXT_PRIORITY_SQL@,
        seq![Bind::Id(card_id)],
        "failed to allocate card funding priority"@,
    )
}

/// The next rank among the funding sources of a card.
pub fn next_card_priority(s: &mut Session, card_id: Uuid) -> (r: Result<i64, Halt>)
    ensures
        (script::seen(r), final(s)@) == next_card_priority_spec(old(s)@, card_id),
{
    script::one_int(
        s,
        NEXT_PRIORITY_SQL,
        binds::binds1(Bind::Id(card_id)),
        "failed to allocate card funding priority",
    )
}

/// Stores the accounts that count what a card spends, where they are missing.
pub open spec fn ensure_usage_account_mapping_spec(
    st: RunView,
    card_id: Uuid,
    ids: PolicyUsageAccountIds,
) -> (Result<(), HaltView>, RunView) {
    match script::execute_spec(
        st,
        USAGE_MAPPING_SQL@,
        seq![
            Bind::Id(card_id),
            Bind::Id(ids.amount_daily),
            Bind::Id(ids.amount_weekly),
            Bind::Id(ids.amount_monthly),
            Bind::Id(ids.amount_yearly),
            Bind::Id(ids.count_daily),
            Bind::Id(ids.count_weekly),
            Bind::Id(ids.count_monthly),
            Bind::Id(ids.count_yearly),
        ],
        "failed to stage policy usage accounts"@,
    ) { (Err(h), st) => (Err(h), st), (Ok(_), st) =>
    (Ok(()), st)
    }
}

/// Stores the accounts that count what a card spends, where they are missing.
pub fn ensure_usage_account_mapping(
    s: &mut Session,
    card_id: Uuid,
    ids: &PolicyUsageAccountIds,
) -> (r: Result<(), Halt>)
    ensures
        (script::seen(r), final(s)@) == ensure_usage_account_mapping_spec(old(s)@, card_id, *ids),
{
    script::execute(
        s,
        USAGE_MAPPING_SQL,
        binds::binds9(
            Bind::Id(card_id),
            Bind::Id(ids.amount_daily),
            Bind::Id(ids.amount_weekly),
            Bind::Id(ids.amount_monthly),
            Bind::Id(ids.amount_yearly),
            Bind::Id(ids.count_daily),
            Bind::Id(ids.count_weekly),
            Bind::Id(ids.count_monthly),
            Bind::Id(ids.count_yearly),
        ),
        "failed to stage policy usage accounts",
    )?;
    Ok(())
}

/// Stores the audit evidence of an enrollment.
pub open spec fn insert_enrollment_audit_spec(
    st: RunView,
    context: MutationCommandContext,
    view: ProviderUserView,
    snapshot: String,
) -> (Result<(), HaltView>, RunView) {
    audit::insert_audit_log_spec(
        st,
        "PROVIDER_USER",
        view.provider_user_id,
        AuditAction::Insert,
        Bind::Label("Provider asserted customer enrollment and card selection"),
        None,
        Some(Snapshot::Text(snapshot)),
        audit::trusted_origin_spec(context.audit),
    )
}

/// Stores the audit evidence of an enrollment.
pub fn insert_enrollment_audit(
    s: &mut Session,
    context: &MutationCommandContext,
    view: &ProviderUserView,
    snapshot: &String,
) -> (r: Result<(), Halt>)
    ensures
        (script::seen(r), final(s)@) == insert_enrollment_audit_spec(
            old(s)@,
            *context,
            *view,
            *snapshot,
        ),
{
    audit::insert_audit_log(
        s,
        "PROVIDER_USER",
        view.provider_user_id,
        AuditAction::Insert,
        Bind::Label("Provider asserted customer enrollment and card selection"),
        None,
        Some(Snapshot::Text(snapshot.clone())),
        audit::trusted_origin(&context.audit),
    )
}

/// Audits an enrollment and completes its command.
pub open spec fn complete_enrollment_spec(
    st: RunView,
    context: MutationCommandContext,
    view: ProviderUserView,
) -> (Result<(), HaltView>, RunView) {
    match script::consult_text_spec(
        st,
        Rule::ProviderUserSnapshot(view),
    ) { (Err(h), st) => (Err(h), st), (Ok(snapshot), st) =>
    match insert_enrollment_audit_spec(
        st,
        context,
        view,
        snapshot,
    ) { (Err(h), st) => (Err(h), st), (Ok(_), st) =>
    idempotency::complete_idempotency_record_spec(
        st,
        context.operation_type,
        context.idempotency_key,
        "provider_user",
        view.provider_user_id,
        Snapshot::Text(snapshot),
    )
    }}
}

/// Audits an enrollment and completes its command.
pub fn complete_enrollment(
    s: &mut Session,
    context: &MutationCommandContext,
    view: &ProviderUserView,
) -> (r: Result<(), Halt>)
    ensures
        (script::seen(r), final(s)@) == complete_enrollment_spec(old(s)@, *context, *view),
{
    let snapshot = script::consult_text(s, Rule::ProviderUserSnapshot(view.clone()))?;
    insert_enrollment_audit(s, context, view, &snapshot)?;
    idempotency::complete_idempotency_record(
        s,
        &context.operation_type,
        &context.idempotency_key,
        "provider_user",
        view.provider_user_id,
        Snapshot::Text(snapshot),
    )
}

/// Asks for a new card for a customer, and completes the enrollment.
pub open spec fn request_card_spec(
    st: RunView,
    context: MutationCommandContext,
    provider_id: Uuid,
    user: UserIdentity,
    enrollment: NewProviderUserEnrollment,
    delivery: NewCardDelivery,
    range: ProviderRange,
    mismatch: MismatchFields,
    provider_user_id: Uuid,
    enrollment_id: Uuid,
    join_context: &'static str,
    materialization: &'static str,
) -> (Result<EnrollProviderUserPersistenceOutcome, HaltView>, RunView) {
    match find_or_create_issuance_request_spec(
        st,
        user.user_id,
        range.card_range_id,
        enrollment,
        delivery,
        context.actor.subject,
    ) { (Err(h), st) => (Err(h), st), (Ok((request_id, resolution)), st) =>
    match next_enrollment_order_spec(
        st,
        request_id,
    ) { (Err(h), st) => (Err(h), st), (Ok(order), st) =>
    match script::execute_spec(
        st,
        JOIN_REQUEST_SQL@,
        seq![
            Bind::Id(request_id),
            Bind::Id(provider_user_id),
            Bind::Id(provider_id),
            Bind::Id(enrollment_id),
            Bind::Int(order),
        ],
        join_context@,
    ) { (Err(h), st) => (Err(h), st), (Ok(_), st) =>
    match script::now_spec(st) { (Err(h), st) => (Err(h), st), (Ok(now), st) =>
    { let view = ProviderUserView {
        enrollment_id,
        provider_user_id: provider_user_id,
        provider_id,
        user_id: user.user_id,
        provider_customer_reference: enrollment.provider_customer_reference,
        identity_mismatch: differs(mismatch),
        mismatch_fields: mismatch,
        status: ProviderUserStatus::CardIssuancePending,
        card_resolution: resolution,
        card_id: None,
        masked_card_number: None,
        card_range_id: range.card_range_id,
        provider_user_account_id: None,
        policy_usage_account_ids: None,
        issuance_request_id: Some(request_id),
        profile_materialization_status: materialization,
        created_at: now,
        updated_at: now,
    };
    match complete_enrollment_spec(st, context, view) { (Err(h), st) => (Err(h), st), (Ok(_), st) =>
    (Ok(EnrollProviderUserPersistenceOutcome::IssuancePending(Box::new(view))), st)
    }}}}}}
}

/// Asks for a new card for a customer, and completes the enrollment.
#[allow(clippy::too_many_arguments)]
pub fn request_card(
    s: &mut Session,
    context: &MutationCommandContext,
    provider_id: Uuid,
    user: &UserIdentity,
    enrollment: &NewProviderUserEnrollment,
    delivery: &NewCardDelivery,
    range: &ProviderRange,
    mismatch: &MismatchFields,
    provider_user_id: Uuid,
    enrollment_id: Uuid,
    join_context: &'static str,
    materialization: &'static str,
) -> (r: Result<EnrollProviderUserPersistenceOutcome, Halt>)
    ensures
        (script::seen(r), final(s)@) == request_card_spec(
            old(s)@,
            *context,
            provider_id,
            *user,
            *enrollment,
            *delivery,
            *range,
            *mismatch,
            provider_user_id,
            enrollment_id,
            join_context,
            materialization,
        ),
{
    let (request_id, resolution) = find_or_create_issuance_request(
        s,
        user.user_id,
        range.card_range_id,
        enrollment,
        delivery,
        &context.actor.subject,
    )?;
    let order: i64 = next_enrollment_order(s, request_id)?;
    script::execute(
        s,
        JOIN_REQUEST_SQL,
        binds::binds5(
            Bind::Id(request_id),
            Bind::Id(provider_user_id),
            Bind::Id(provider_id),
            Bind::Id(enrollment_id),
            Bind::Int(order),
        ),
        join_context,
    )?;
    let now = script::now(s)?;
    let view = ProviderUserView {
        enrollment_id,
        provider_user_id: provider_user_id,
        provider_id,
        user_id: user.user_id,
        provider_customer_reference: enrollment.provider_customer_reference.clone(),
        identity_mismatch: is_mismatch(mismatch),
        mismatch_fields: mismatch.clone(),
        status: ProviderUserStatus::CardIssuancePending,
        card_resolution: resolution,
        card_id: None,
        masked_card_number: None,
        card_range_id: range.card_range_id,
        provider_user_account_id: None,
        policy_usage_account_ids: None,
        issuance_request_id: Some(request_id),
        profile_materialization_status: materialization,
        created_at: now,
        updated_at: now,
    };
    complete_enrollment(s, context, &view)?;
    Ok(EnrollProviderUserPersistenceOutcome::IssuancePending(Box::new(view)))
}

/// Reopens an enrollment that was rejected, with a new card.
pub open spec fn reopen_enrollment_spec(
    st: RunView,
    context: MutationCommandContext,
    provider_id: Uuid,
    user: UserIdentity,
    enrollment: NewProviderUserEnrollment,
    delivery: NewCardDelivery,
    existing: ExistingProviderUserRelationship,
) -> (Result<EnrollProviderUserPersistenceOutcome, HaltView>, RunView) {
    match resolve_provider_range_spec(
        st,
        provider_id,
    ) { (Err(h), st) => (Err(h), st), (Ok(found), st) =>
    match found {
    None => {
        (Ok(EnrollProviderUserPersistenceOutcome::RangeNotReady), st)
    },
    Some(range) =>
    match active_card_for_user_range_spec(
        st,
        user.user_id,
        range.card_range_id,
    ) { (Err(h), st) => (Err(h), st), (Ok(active), st) =>
    if active is Some {
        (Ok(EnrollProviderUserPersistenceOutcome::ActiveCardSelectionRequired), st)
    } else {
    match idempotency::insert_idempotency_record_spec(
        st,
        context.record,
    ) { (Err(h), st) => (Err(h), st), (Ok(_), st) =>
    match script::fresh_id_spec(st) { (Err(h), st) => (Err(h), st), (Ok(enrollment_id), st) =>
    { let mismatch = mismatch_of(user, enrollment);
    match script::execute_spec(
        st,
        REOPEN_SQL@,
        seq![
            Bind::Id(enrollment_id),
            Bind::Text(enrollment.first_name),
            Bind::Text(enrollment.last_name),
            Bind::Flag(differs(mismatch)),
            mismatch_bind(mismatch),
            Bind::OptText(enrollment.selection_reference),
            Bind::JsonText(enrollment.metadata),
            Bind::Text(context.actor.subject),
            Bind::Id(existing.provider_user_id),
        ],
        "failed to reopen rejected provider-user enrollment"@,
    ) { (Err(h), st) => (Err(h), st), (Ok(_), st) =>
    request_card_spec(
        st,
        context,
        provider_id,
        user,
        enrollment,
        delivery,
        range,
        mismatch,
        existing.provider_user_id,
        enrollment_id,
        "failed to join retried provider enrollment",
        "NOT_STARTED",
    )
    }}}}}}}}
}

/// Reopens an enrollment that was rejected, with a new card.
pub fn reopen_enrollment(
    s: &mut Session,
    context: &MutationCommandContext,
    provider_id: Uuid,
    user: &UserIdentity,
    enrollment: &NewProviderUserEnrollment,
    delivery: &NewCardDelivery,
    existing: &ExistingProviderUserRelationship,
) -> (r: Result<EnrollProviderUserPersistenceOutcome, Halt>)
    ensures
        (script::seen(r), final(s)@) == reopen_enrollment_spec(
            old(s)@,
            *context,
            provider_id,
            *user,
            *enrollment,
            *delivery,
            *existing,
        ),
{
    let found = resolve_provider_range(s, provider_id)?;
    let range = match &found {
        Some(v) => v,
        None => {
            return Ok(EnrollProviderUserPersistenceOutcome::RangeNotReady);
        },
    };
    let active = active_card_for_user_range(s, user.user_id, range.card_range_id)?;
    if active.is_some() {
        return Ok(EnrollProviderUserPersistenceOutcome::ActiveCardSelectionRequired);
    }
    idempotency::insert_idempotency_record(s, &context.record)?;
    let enrollment_id = script::fresh_id(s)?;
    let mismatch = identity_mismatch_fields(user, enrollment);
    script::execute(
        s,
        REOPEN_SQL,
        binds::binds9(
            Bind::Id(enrollment_id),
            Bind::Text(enrollment.first_name.clone()),
            Bind::Text(enrollment.last_name.clone()),
            Bind::Flag(is_mismatch(&mismatch)),
            bind_mismatch(&mismatch),
            Bind::OptText(copied(&enrollment.selection_reference)),
            Bind::JsonText(enrollment.metadata.clone()),
            Bind::Text(context.actor.subject.clone()),
            Bind::Id(existing.provider_user_id),
        ),
        "failed to reopen rejected provider-user enrollment",
    )?;
    request_card(
        s,
        context,
        provider_id,
        user,
        enrollment,
        delivery,
        range,
        &mismatch,
        existing.provider_user_id,
        enrollment_id,
        "failed to join retried provider enrollment",
        "NOT_STARTED",
    )
}

/// Enrolls a customer who gets a new card.
pub open spec fn issue_new_spec(
    st: RunView,
    context: MutationCommandContext,
    provider_id: Uuid,
    user: UserIdentity,
    enrollment: NewProviderUserEnrollment,
    delivery: NewCardDelivery,
    range: ProviderRange,
    provider_user_id: Uuid,
    enrollment_id: Uuid,
    mismatch: MismatchFields,
) -> (Result<EnrollProviderUserPersistenceOutcome, HaltView>, RunView) {
    match active_card_for_user_range_spec(
        st,
        user.user_id,
        range.card_range_id,
    ) { (Err(h), st) => (Err(h), st), (Ok(active), st) =>
    if active is Some {
        (Ok(EnrollProviderUserPersistenceOutcome::ActiveCardSelectionRequired), st)
    } else {
    match idempotency::insert_idempotency_record_spec(
        st,
        context.record,
    ) { (Err(h), st) => (Err(h), st), (Ok(_), st) =>
    match insert_provider_user_spec(
        st,
        provider_user_id,
        enrollment_id,
        provider_id,
        user.user_id,
        enrollment,
        mismatch,
        "CARD_ISSUANCE_PENDING",
        context.actor.subject,
    ) { (Err(h), st) => (Err(h), st), (Ok(_), st) =>
    request_card_spec(
        st,
        context,
        provider_id,
        user,
        enrollment,
        delivery,
        range,
        mismatch,
        provider_user_id,
        enrollment_id,
        "failed to join provider to issuance request",
        "NOT_APPLICABLE",
    )
    }}}}
}

/// Enrolls a customer who gets a new card.
#[allow(clippy::too_many_arguments)]
pub fn issue_new(
    s: &mut Session,
    context: &MutationCommandContext,
    provider_id: Uuid,
    user: &UserIdentity,
    enrollment: &NewProviderUserEnrollment,
    delivery: &NewCardDelivery,
    range: &ProviderRange,
    provider_user_id: Uuid,
    enrollment_id: Uuid,
    mismatch: &MismatchFields,
) -> (r: Result<EnrollProviderUserPersistenceOutcome, Halt>)
    ensures
        (script::seen(r), final(s)@) == issue_new_spec(
            old(s)@,
            *context,
            provider_id,
            *user,
            *enrollment,
            *delivery,
            *range,
            provider_user_id,
            enrollment_id,
            *mismatch,
        ),
{
    let active = active_card_for_user_range(s, user.user_id, range.card_range_id)?;
    if active.is_some() {
        return Ok(EnrollProviderUserPersistenceOutcome::ActiveCardSelectionRequired);
    }
    idempotency::insert_idempotency_record(s, &context.record)?;
    insert_provider_user(
        s,
        provider_user_id,
        enrollment_id,
        provider_id,
        user.user_id,
        enrollment,
        mismatch,
        "CARD_ISSUANCE_PENDING",
        &context.actor.subject,
    )?;
    request_card(
        s,
        context,
        provider_id,
        user,
        enrollment,
        delivery,
        range,
        mismatch,
        provider_user_id,
        enrollment_id,
        "failed to join provider to issuance request",
        "NOT_APPLICABLE",
    )
}

/// Stages a customer behind a card that exists, and the intent to provision the account.
pub open spec fn stage_existing_card_spec(
    st: RunView,
    context: MutationCommandContext,
    provider_id: Uuid,
    user: UserIdentity,
    enrollment: NewProviderUserEnrollment,
    card: ExistingCard,
    range: ProviderRange,
    provider_user_id: Uuid,
    enrollment_id: Uuid,
    mismatch: MismatchFields,
) -> (Result<EnrollProviderUserPersistenceOutcome, HaltView>, RunView) {
    match idempotency::insert_idempotency_record_spec(
        st,
        context.record,
    ) { (Err(h), st) => (Err(h), st), (Ok(_), st) =>
    match insert_provider_user_spec(
        st,
        provider_user_id,
        enrollment_id,
        provider_id,
        user.user_id,
        enrollment,
        mismatch,
        "PROVISIONING",
        context.actor.subject,
    ) { (Err(h), st) => (Err(h), st), (Ok(_), st) =>
    match script::consult_id_spec(
        st,
        Rule::ProviderUserAccount(provider_id, user.user_id),
    ) { (Err(h), st) => (Err(h), st), (Ok(account_id), st) =>
    match script::execute_spec(
        st,
        STAGE_ACCOUNT_SQL@,
        seq![
            Bind::Id(account_id),
            Bind::Id(provider_user_id),
            Bind::Id(provider_id),
            Bind::Id(user.user_id),
            Bind::Id(account_id),
        ],
        "failed to stage provider-user account"@,
    ) { (Err(h), st) => (Err(h), st), (Ok(_), st) =>
    match next_card_priority_spec(
        st,
        card.card_id,
    ) { (Err(h), st) => (Err(h), st), (Ok(priority), st) =>
    match script::fresh_id_spec(st) { (Err(h), st) => (Err(h), st), (Ok(funding_id), st) =>
    match script::execute_spec(
        st,
        STAGE_FUNDING_SQL@,
        seq![
            Bind::Id(funding_id),
            Bind::Id(card.card_id),
            Bind::Id(provider_id),
            Bind::Id(provider_user_id),
            Bind::Id(account_id),
            Bind::Int(priority),
            Bind::Text(context.actor.subject),
        ],
        "failed to stage card funding source"@,
    ) { (Err(h), st) => (Err(h), st), (Ok(_), st) =>
    match script::usage_accounts_spec(
        st,
        card.card_id,
    ) { (Err(h), st) => (Err(h), st), (Ok(usage_account_ids), st) =>
    match ensure_usage_account_mapping_spec(
        st,
        card.card_id,
        usage_account_ids,
    ) { (Err(h), st) => (Err(h), st), (Ok(_), st) =>
    match script::fresh_id_spec(st) { (Err(h), st) => (Err(h), st), (Ok(operation_id), st) =>
    { let intent = ExistingCardProvisioningIntent {
        operation_id,
        enrollment_id,
        provider_user_id,
        provider_id,
        user_id: user.user_id,
        card_id: card.card_id,
        card_range_id: range.card_range_id,
        provider_user_account_id: account_id,
        usage_account_ids,
    };
    match script::consult_text_spec(
        st,
        Rule::UsageAccountsDocument(usage_account_ids),
    ) { (Err(h), st) => (Err(h), st), (Ok(usage), st) =>
    match script::execute_spec(
        st,
        STAGE_WAL_SQL@,
        seq![
            Bind::Id(operation_id),
            Bind::Id(provider_user_id),
            Bind::Id(account_id),
            Bind::Json(Document::ProvisioningRequest(intent, usage)),
        ],
        "failed to create provider-user provisioning WAL"@,
    ) { (Err(h), st) => (Err(h), st), (Ok(_), st) =>
    match script::execute_spec(
        st,
        BIND_INTENT_SQL@,
        seq![
            Bind::Id(provider_user_id),
            Bind::Text(context.operation_type),
            Bind::Text(context.idempotency_key),
        ],
        "failed to bind provider-user recovery intent"@,
    ) { (Err(h), st) => (Err(h), st), (Ok(_), st) =>
    (Ok(EnrollProviderUserPersistenceOutcome::ExistingCardPrepared(Box::new(intent))), st)
    }}}}}}}}}}}}}}
}

/// Stages a customer behind a card that exists, and the intent to provision the account.
#[allow(clippy::too_many_arguments)]
pub fn stage_existing_card(
    s: &mut Session,
    context: &MutationCommandContext,
    provider_id: Uuid,
    user: &UserIdentity,
    enrollment: &NewProviderUserEnrollment,
    card: &ExistingCard,
    range: &ProviderRange,
    provider_user_id: Uuid,
    enrollment_id: Uuid,
    mismatch: &MismatchFields,
) -> (r: Result<EnrollProviderUserPersistenceOutcome, Halt>)
    ensures
        (script::seen(r), final(s)@) == stage_existing_card_spec(
            old(s)@,
            *context,
            provider_id,
            *user,
            *enrollment,
            *card,
            *range,
            provider_user_id,
            enrollment_id,
            *mismatch,
        ),
{
    idempotency::insert_idempotency_record(s, &context.record)?;
    insert_provider_user(
        s,
        provider_user_id,
        enrollment_id,
        provider_id,
        user.user_id,
        enrollment,
        mismatch,
        "PROVISIONING",
        &context.actor.subject,
    )?;
    let account_id = script::consult_id(s, Rule::ProviderUserAccount(provider_id, user.user_id))?;
    script::execute(
        s,
        STAGE_ACCOUNT_SQL,
        binds::binds5(
            Bind::Id(account_id),
            Bind::Id(provider_user_id),
            Bind::Id(provider_id),
            Bind::Id(user.user_id),
            Bind::Id(account_id),
        ),
        "failed to stage provider-user account",
    )?;
    let priority: i64 = next_card_priority(s, card.card_id)?;
    let funding_id = script::fresh_id(s)?;
    script::execute(
        s,
        STAGE_FUNDING_SQL,
        binds::binds7(
            Bind::Id(funding_id),
            Bind::Id(card.card_id),
            Bind::Id(provider_id),
            Bind::Id(provider_user_id),
            Bind::Id(account_id),
            Bind::Int(priority),
            Bind::Text(context.actor.subject.clone()),
        ),
        "failed to stage card funding source",
    )?;
    let usage_account_ids = script::usage_accounts(s, card.card_id)?;
    ensure_usage_account_mapping(s, card.card_id, &usage_account_ids)?;
    let operation_id = script::fresh_id(s)?;
    let intent = ExistingCardProvisioningIntent {
        operation_id,
        enrollment_id,
        provider_user_id,
        provider_id,
        user_id: user.user_id,
        card_id: card.card_id,
        card_range_id: range.card_range_id,
        provider_user_account_id: account_id,
        usage_account_ids,
    };
    let usage = script::consult_text(s, Rule::UsageAccountsDocument(usage_account_ids))?;
    script::execute(
        s,
        STAGE_WAL_SQL,
        binds::binds4(
            Bind::Id(operation_id),
            Bind::Id(provider_user_id),
            Bind::Id(account_id),
            Bind::Json(Document::ProvisioningRequest(intent, usage.clone())),
        ),
        "failed to create provider-user provisioning WAL",
    )?;
    script::execute(
        s,
        BIND_INTENT_SQL,
        binds::binds3(
            Bind::Id(provider_user_id),
            Bind::Text(context.operation_type.clone()),
            Bind::Text(context.idempotency_key.clone()),
        ),
        "failed to bind provider-user recovery intent",
    )?;
    Ok(EnrollProviderUserPersistenceOutcome::ExistingCardPrepared(Box::new(intent)))
}

/// Enrolls a customer who has a card, where it is the user's, of the range, active, and may be
/// shared.
pub open spec fn use_existing_spec(
    st: RunView,
    context: MutationCommandContext,
    provider_id: Uuid,
    allow_multi_provider_attachment: bool,
    user: UserIdentity,
    enrollment: NewProviderUserEnrollment,
    card_number: String,
    range: ProviderRange,
    provider_user_id: Uuid,
    enrollment_id: Uuid,
    mismatch: MismatchFields,
) -> (Result<EnrollProviderUserPersistenceOutcome, HaltView>, RunView) {
    match resolve_existing_card_spec(
        st,
        card_number,
    ) { (Err(h), st) => (Err(h), st), (Ok(found), st) =>
    match found {
    None => {
        (Ok(EnrollProviderUserPersistenceOutcome::ExistingCardNotFound), st)
    },
    Some(card) =>
    if card.user_id != user.user_id {
        (Ok(EnrollProviderUserPersistenceOutcome::ExistingCardOwnerMismatch), st)
    } else {
    if card.card_range_id != range.card_range_id {
        (Ok(EnrollProviderUserPersistenceOutcome::ExistingCardRangeMismatch), st)
    } else {
    if card.status@ != "ACTIVE"@ {
        (Ok(EnrollProviderUserPersistenceOutcome::ExistingCardNotActive), st)
    } else {
    if range.funding_mode@ == "MULTI_PROVIDER"@ && !allow_multi_provider_attachment {
        (Ok(EnrollProviderUserPersistenceOutcome::MultiProviderAttachmentDisabled), st)
    } else {
    stage_existing_card_spec(
        st,
        context,
        provider_id,
        user,
        enrollment,
        card,
        range,
        provider_user_id,
        enrollment_id,
        mismatch,
    )
    }}}}}}
}

/// Enrolls a customer who has a card, where it is the user's, of the range, active, and may be
/// shared.
#[allow(clippy::too_many_arguments)]
pub fn use_existing(
    s: &mut Session,
    context: &MutationCommandContext,
    provider_id: Uuid,
    allow_multi_provider_attachment: bool,
    user: &UserIdentity,
    enrollment: &NewProviderUserEnrollment,
    card_number: &String,
    range: &ProviderRange,
    provider_user_id: Uuid,
    enrollment_id: Uuid,
    mismatch: &MismatchFields,
) -> (r: Result<EnrollProviderUserPersistenceOutcome, Halt>)
    ensures
        (script::seen(r), final(s)@) == use_existing_spec(
            old(s)@,
            *context,
            provider_id,
            allow_multi_provider_attachment,
            *user,
            *enrollment,
            *card_number,
            *range,
            provider_user_id,
            enrollment_id,
            *mismatch,
        ),
{
    let found = resolve_existing_card(s, card_number)?;
    let card = match &found {
        Some(v) => v,
        None => {
            return Ok(EnrollProviderUserPersistenceOutcome::ExistingCardNotFound);
        },
    };
    if card.user_id != user.user_id {
        return Ok(EnrollProviderUserPersistenceOutcome::ExistingCardOwnerMismatch);
    }
    if card.card_range_id != range.card_range_id {
        return Ok(EnrollProviderUserPersistenceOutcome::ExistingCardRangeMismatch);
    }
    if !text::same_text(card.status.as_str(), "ACTIVE") {
        return Ok(EnrollProviderUserPersistenceOutcome::ExistingCardNotActive);
    }
    if text::same_text(range.funding_mode.as_str(), "MULTI_PROVIDER")
        && !allow_multi_provider_attachment {
        return Ok(EnrollProviderUserPersistenceOutcome::MultiProviderAttachmentDisabled);
    }
    stage_existing_card(
        s,
        context,
        provider_id,
        user,
        enrollment,
        card,
        range,
        provider_user_id,
        enrollment_id,
        mismatch,
    )
}

/// Whether a provider may have one more customer.
pub open spec fn within_limit_spec(
    st: RunView,
    provider_id: Uuid,
    max_total_users: Option<u64>,
) -> (Result<bool, HaltView>, RunView) {
    match max_total_users {
    None => {
        (Ok(true), st)
    },
    Some(limit) =>
    match script::one_int_spec(
        st,
        COUNT_USERS_SQL@,
        seq![Bind::Id(provider_id)],
        "failed to count provider users"@,
    ) { (Err(h), st) => (Err(h), st), (Ok(current), st) =>
    (Ok(!limit_is_reached(limit, current)), st)
    }}
}

/// Whether a provider may have one more customer.
pub fn within_limit(
    s: &mut Session,
    provider_id: Uuid,
    max_total_users: Option<u64>,
) -> (r: Result<bool, Halt>)
    ensures
        (script::seen(r), final(s)@) == within_limit_spec(old(s)@, provider_id, max_total_users),
{
    let limit = match max_total_users {
        Some(v) => v,
        None => {
            return Ok(true);
        },
    };
    let current = script::one_int(
        s,
        COUNT_USERS_SQL,
        binds::binds1(Bind::Id(provider_id)),
        "failed to count provider users",
    )?;
    Ok(!reached(limit, current))
}

/// Enrolls a user who is not yet a customer.
#[verifier::opaque]
pub open spec fn enroll_first_time_spec(
    st: RunView,
    context: MutationCommandContext,
    provider_id: Uuid,
    max_total_users: Option<u64>,
    allow_multi_provider_attachment: bool,
    user: UserIdentity,
    enrollment: NewProviderUserEnrollment,
) -> (Result<EnrollProviderUserPersistenceOutcome, HaltView>, RunView) {
    match within_limit_spec(
        st,
        provider_id,
        max_total_users,
    ) { (Err(h), st) => (Err(h), st), (Ok(room), st) =>
    if !room {
        (Ok(EnrollProviderUserPersistenceOutcome::UserLimitReached), st)
    } else {
    match resolve_provider_range_spec(
        st,
        provider_id,
    ) { (Err(h), st) => (Err(h), st), (Ok(found), st) =>
    match found {
    None => {
        (Ok(EnrollProviderUserPersistenceOutcome::RangeNotReady), st)
    },
    Some(range) =>
    match script::fresh_id_spec(st) { (Err(h), st) => (Err(h), st), (Ok(provider_user_id), st) =>
    match script::fresh_id_spec(st) { (Err(h), st) => (Err(h), st), (Ok(enrollment_id), st) =>
    { let mismatch = mismatch_of(user, enrollment);
    match enrollment.card_instruction {
        CardInstruction::IssueNew(delivery) => {
            issue_new_spec(
                st,
                context,
                provider_id,
                user,
                enrollment,
                delivery,
                range,
                provider_user_id,
                enrollment_id,
                mismatch,
            )
        },
        CardInstruction::UseExisting { card_number } => {
            use_existing_spec(
                st,
                context,
                provider_id,
                allow_multi_provider_attachment,
                user,
                enrollment,
                card_number,
                range,
                provider_user_id,
                enrollment_id,
                mismatch,
            )
        },
    }
    }}}}}}}
}

/// Enrolls a user who is not yet a customer.
pub fn enroll_first_time(
    s: &mut Session,
    context: &MutationCommandContext,
    provider_id: Uuid,
    max_total_users: Option<u64>,
    allow_multi_provider_attachment: bool,
    user: &UserIdentity,
    enrollment: &NewProviderUserEnrollment,
) -> (r: Result<EnrollProviderUserPersistenceOutcome, Halt>)
    ensures
        (script::seen(r), final(s)@) == enroll_first_time_spec(
            old(s)@,
            *context,
            provider_id,
            max_total_users,
            allow_multi_provider_attachment,
            *user,
            *enrollment,
        ),
{
    proof {
        reveal(enroll_first_time_spec);
    }
    let room = within_limit(s, provider_id, max_total_users)?;
    if !room {
        return Ok(EnrollProviderUserPersistenceOutcome::UserLimitReached);
    }
    let found = resolve_provider_range(s, provider_id)?;
    let range = match &found {
        Some(v) => v,
        None => {
            return Ok(EnrollProviderUserPersistenceOutcome::RangeNotReady);
        },
    };
    let provider_user_id = script::fresh_id(s)?;
    let enrollment_id = script::fresh_id(s)?;
    let mismatch = identity_mismatch_fields(user, enrollment);
    match &enrollment.card_instruction {
        CardInstruction::IssueNew(delivery) => {
            return issue_new(
                s,
                context,
                provider_id,
                user,
                enrollment,
                delivery,
                range,
                provider_user_id,
                enrollment_id,
                &mismatch,
            );
        },
        CardInstruction::UseExisting { card_number } => {
            return use_existing(
                s,
                context,
                provider_id,
                allow_multi_provider_attachment,
                user,
                enrollment,
                card_number,
                range,
                provider_user_id,
                enrollment_id,
                &mismatch,
            );
        },
    }
}

/// Enrolls a user who is a customer already: only an enrollment that was rejected is reopened,
/// under the same reference and with a new card.
#[verifier::opaque]
pub open spec fn enroll_again_spec(
    st: RunView,
    context: MutationCommandContext,
    provider_id: Uuid,
    user: UserIdentity,
    enrollment: NewProviderUserEnrollment,
    existing: ExistingProviderUserRelationship,
) -> (Result<EnrollProviderUserPersistenceOutcome, HaltView>, RunView) {
    if existing.status@ != "ISSUANCE_REJECTED"@
        || existing.provider_customer_reference@ != enrollment.provider_customer_reference@ {
        (Ok(EnrollProviderUserPersistenceOutcome::ExistingRelationship), st)
    } else {
    match enrollment.card_instruction {
        CardInstruction::IssueNew(delivery) => {
            reopen_enrollment_spec(st, context, provider_id, user, enrollment, delivery, existing)
        },
        CardInstruction::UseExisting { .. } => {
            (Ok(EnrollProviderUserPersistenceOutcome::ExistingRelationship), st)
        },
    }
    }
}

/// Enrolls a user who is a customer already: only an enrollment that was rejected is reopened,
/// under the same reference and with a new card.
pub fn enroll_again(
    s: &mut Session,
    context: &MutationCommandContext,
    provider_id: Uuid,
    user: &UserIdentity,
    enrollment: &NewProviderUserEnrollment,
    existing: &ExistingProviderUserRelationship,
) -> (r: Result<EnrollProviderUserPersistenceOutcome, Halt>)
    ensures
        (script::seen(r), final(s)@) == enroll_again_spec(
            old(s)@,
            *context,
            provider_id,
            *user,
            *enrollment,
            *existing,
        ),
{
    proof {
        reveal(enroll_again_spec);
    }
    if !text::same_text(existing.status.as_str(), "ISSUANCE_REJECTED")
        || !text::same_text(
            existing.provider_customer_reference.as_str(),
            enrollment.provider_customer_reference.as_str(),
        ) {
        return Ok(EnrollProviderUserPersistenceOutcome::ExistingRelationship);
    }
    match &enrollment.card_instruction {
        CardInstruction::IssueNew(delivery) => {
            return reopen_enrollment(s, context, provider_id, user, enrollment, delivery, existing);
        },
        CardInstruction::UseExisting { .. } => {
            return Ok(EnrollProviderUserPersistenceOutcome::ExistingRelationship);
        },
    }
}

/// The intent behind a customer who is being provisioned, where there is one.
pub open spec fn resume_provider_user_intent_spec(
    st: RunView,
    provider_user_id: Uuid,
) -> (Result<Option<ExistingCardProvisioningIntent>, HaltView>, RunView) {
    match script::first_row_spec(
        st,
        RESUME_SQL@,
        seq![Bind::Id(provider_user_id)],
        "rrrrrrrrrrrrrrr",
        "failed to load provider-user recovery intent"@,
        "failed to read provider-user recovery intent"@,
    ) { (Err(h), st) => (Err(h), st), (Ok(found), st) =>
    match found {
    None => {
        (Ok(None), st)
    },
    Some(row) =>
    match row.raw_at(0, READ_ROW@) { Err(h) => (Err(h), st), Ok(operation_id_raw) =>
    match script::id_of(operation_id_raw@) { Err(h) => (Err(h), st), Ok(operation_id) =>
    match row.raw_at(1, READ_ROW@) { Err(h) => (Err(h), st), Ok(enrollment_id_raw) =>
    match script::id_of(enrollment_id_raw@) { Err(h) => (Err(h), st), Ok(enrollment_id) =>
    match row.raw_at(2, READ_ROW@) { Err(h) => (Err(h), st), Ok(provider_id_raw) =>
    match script::id_of(provider_id_raw@) { Err(h) => (Err(h), st), Ok(provider_id) =>
    match row.raw_at(3, READ_ROW@) { Err(h) => (Err(h), st), Ok(user_id_raw) =>
    match script::id_of(user_id_raw@) { Err(h) => (Err(h), st), Ok(user_id) =>
    match row.raw_at(4, READ_ROW@) { Err(h) => (Err(h), st), Ok(card_id_raw) =>
    match script::id_of(card_id_raw@) { Err(h) => (Err(h), st), Ok(card_id) =>
    match row.raw_at(5, READ_ROW@) { Err(h) => (Err(h), st), Ok(card_range_id_raw) =>
    match script::id_of(card_range_id_raw@) { Err(h) => (Err(h), st), Ok(card_range_id) =>
    match row.raw_at(6, READ_ROW@) { Err(h) => (Err(h), st), Ok(provider_user_account_id_raw) =>
    match script::id_of(
        provider_user_account_id_raw@,
    ) { Err(h) => (Err(h), st), Ok(provider_user_account_id) =>
    match row.raw_at(7, READ_ROW@) { Err(h) => (Err(h), st), Ok(amount_daily_raw) =>
    match script::id_of(amount_daily_raw@) { Err(h) => (Err(h), st), Ok(amount_daily) =>
    match row.raw_at(8, READ_ROW@) { Err(h) => (Err(h), st), Ok(amount_weekly_raw) =>
    match script::id_of(amount_weekly_raw@) { Err(h) => (Err(h), st), Ok(amount_weekly) =>
    match row.raw_at(9, READ_ROW@) { Err(h) => (Err(h), st), Ok(amount_monthly_raw) =>
    match script::id_of(amount_monthly_raw@) { Err(h) => (Err(h), st), Ok(amount_monthly) =>
    match row.raw_at(10, READ_ROW@) { Err(h) => (Err(h), st), Ok(amount_yearly_raw) =>
    match script::id_of(amount_yearly_raw@) { Err(h) => (Err(h), st), Ok(amount_yearly) =>
    match row.raw_at(11, READ_ROW@) { Err(h) => (Err(h), st), Ok(count_daily_raw) =>
    match script::id_of(count_daily_raw@) { Err(h) => (Err(h), st), Ok(count_daily) =>
    match row.raw_at(12, READ_ROW@) { Err(h) => (Err(h), st), Ok(count_weekly_raw) =>
    match script::id_of(count_weekly_raw@) { Err(h) => (Err(h), st), Ok(count_weekly) =>
    match row.raw_at(13, READ_ROW@) { Err(h) => (Err(h), st), Ok(count_monthly_raw) =>
    match script::id_of(count_monthly_raw@) { Err(h) => (Err(h), st), Ok(count_monthly) =>
    match row.raw_at(14, READ_ROW@) { Err(h) => (Err(h), st), Ok(count_yearly_raw) =>
    match script::id_of(count_yearly_raw@) { Err(h) => (Err(h), st), Ok(count_yearly) =>
    (
        Ok(Some(ExistingCardProvisioningIntent {
            operation_id,
            enrollment_id,
            provider_user_id,
            provider_id,
            user_id,
            card_id,
            card_range_id,
            provider_user_account_id,
            usage_account_ids: PolicyUsageAccountIds {
                amount_daily,
                amount_weekly,
                amount_monthly,
                amount_yearly,
                count_daily,
                count_weekly,
                count_monthly,
                count_yearly,
            },
        })),
        st,
    )
    }}}}}}}}}}}}}}}}}}}}}}}}}}}}}}}}
}

/// The intent behind a customer who is being provisioned, where there is one.
pub fn resume_provider_user_intent(
    s: &mut Session,
    provider_user_id: Uuid,
) -> (r: Result<Option<ExistingCardProvisioningIntent>, Halt>)
    ensures
        (script::seen(r), final(s)@) == resume_provider_user_intent_spec(old(s)@, provider_user_id),
{
    let found = script::first_row(
        s,
        RESUME_SQL,
        binds::binds1(Bind::Id(provider_user_id)),
        "rrrrrrrrrrrrrrr",
        "failed to load provider-user recovery intent",
        "failed to read provider-user recovery intent",
    )?;
    let row = match found {
        Some(v) => v,
        None => {
            return Ok(None);
        },
    };
    let operation_id_raw = row.raw(0, READ_ROW)?;
    let operation_id = script::to_id(operation_id_raw)?;
    let enrollment_id_raw = row.raw(1, READ_ROW)?;
    let enrollment_id = script::to_id(enrollment_id_raw)?;
    let provider_id_raw = row.raw(2, READ_ROW)?;
    let provider_id = script::to_id(provider_id_raw)?;
    let user_id_raw = row.raw(3, READ_ROW)?;
    let user_id = script::to_id(user_id_raw)?;
    let card_id_raw = row.raw(4, READ_ROW)?;
    let card_id = script::to_id(card_id_raw)?;
    let card_range_id_raw = row.raw(5, READ_ROW)?;
    let card_range_id = script::to_id(card_range_id_raw)?;
    let provider_user_account_id_raw = row.raw(6, READ_ROW)?;
    let provider_user_account_id = script::to_id(provider_user_account_id_raw)?;
    let amount_daily_raw = row.raw(7, READ_ROW)?;
    let amount_daily = script::to_id(amount_daily_raw)?;
    let amount_weekly_raw = row.raw(8, READ_ROW)?;
    let amount_weekly = script::to_id(amount_weekly_raw)?;
    let amount_monthly_raw = row.raw(9, READ_ROW)?;
    let amount_monthly = script::to_id(amount_monthly_raw)?;
    let amount_yearly_raw = row.raw(10, READ_ROW)?;
    let amount_yearly = script::to_id(amount_yearly_raw)?;
    let count_daily_raw = row.raw(11, READ_ROW)?;
    let count_daily = script::to_id(count_daily_raw)?;
    let count_weekly_raw = row.raw(12, READ_ROW)?;
    let count_weekly = script::to_id(count_weekly_raw)?;
    let count_monthly_raw = row.raw(13, READ_ROW)?;
    let count_monthly = script::to_id(count_monthly_raw)?;
    let count_yearly_raw = row.raw(14, READ_ROW)?;
    let count_yearly = script::to_id(count_yearly_raw)?;
    Ok(Some(ExistingCardProvisioningIntent {
        operation_id,
        enrollment_id,
        provider_user_id,
        provider_id,
        user_id,
        card_id,
        card_range_id,
        provider_user_account_id,
        usage_account_ids: PolicyUsageAccountIds {
            amount_daily,
            amount_weekly,
            amount_monthly,
            amount_yearly,
            count_daily,
            count_weekly,
            count_monthly,
            count_yearly,
        },
    }))
}

/// What a stored record means for an enrollment that comes again. One in progress is resumed, where
/// its intent is stored.
pub open spec fn classify_idempotency_spec(
    st: RunView,
    record: IdempotencyRecord,
    request_hash: String,
) -> (Result<EnrollProviderUserPersistenceOutcome, HaltView>, RunView) {
    match idempotency::idempotency_verdict(record, request_hash) {
        IdempotencyVerdict::Conflict => {
            (Ok(EnrollProviderUserPersistenceOutcome::IdempotencyConflict), st)
        },
        IdempotencyVerdict::Replay(snapshot) => {
            (Ok(EnrollProviderUserPersistenceOutcome::Replayed(snapshot)), st)
        },
        IdempotencyVerdict::InvalidState => {
            (Ok(EnrollProviderUserPersistenceOutcome::IdempotencyInvalidState), st)
        },
        IdempotencyVerdict::InProgress => {
            match record.resource_id {
            None => {
                (Ok(EnrollProviderUserPersistenceOutcome::IdempotencyInProgress), st)
            },
            Some(provider_user_id) =>
            match resume_provider_user_intent_spec(
                st,
                provider_user_id,
            ) { (Err(h), st) => (Err(h), st), (Ok(resumed), st) =>
            match resumed {
            None => {
                (Ok(EnrollProviderUserPersistenceOutcome::IdempotencyInProgress), st)
            },
            Some(intent) =>
            (Ok(EnrollProviderUserPersistenceOutcome::ExistingCardPrepared(Box::new(intent))), st)
            }}}
        },
    }
}

/// What a stored record means for an enrollment that comes again. One in progress is resumed, where
/// its intent is stored.
pub fn classify_idempotency(
    s: &mut Session,
    record: &IdempotencyRecord,
    request_hash: &String,
) -> (r: Result<EnrollProviderUserPersistenceOutcome, Halt>)
    ensures
        (script::seen(r), final(s)@) == classify_idempotency_spec(old(s)@, *record, *request_hash),
{
    match idempotency::judge_idempotency(record, request_hash) {
        IdempotencyVerdict::Conflict => {
            return Ok(EnrollProviderUserPersistenceOutcome::IdempotencyConflict);
        },
        IdempotencyVerdict::Replay(snapshot) => {
            return Ok(EnrollProviderUserPersistenceOutcome::Replayed(snapshot));
        },
        IdempotencyVerdict::InvalidState => {
            return Ok(EnrollProviderUserPersistenceOutcome::IdempotencyInvalidState);
        },
        IdempotencyVerdict::InProgress => {
            let provider_user_id = match record.resource_id {
                Some(v) => v,
                None => {
                    return Ok(EnrollProviderUserPersistenceOutcome::IdempotencyInProgress);
                },
            };
            let resumed = resume_provider_user_intent(s, provider_user_id)?;
            let intent = match resumed {
                Some(v) => v,
                None => {
                    return Ok(EnrollProviderUserPersistenceOutcome::IdempotencyInProgress);
                },
            };
            return Ok(EnrollProviderUserPersistenceOutcome::ExistingCardPrepared(Box::new(intent)));
        },
    }
}

/// Enrolls a customer of a provider: with a new card, or with one that the user has. Under one
/// idempotency key this happens once.
pub open spec fn prepare_provider_user_enrollment_atomic_spec(
    st: RunView,
    context: MutationCommandContext,
    provider_id: Uuid,
    operational_profile_id: Uuid,
    max_total_users: Option<u64>,
    allow_multi_provider_attachment: bool,
    enrollment: NewProviderUserEnrollment,
) -> (Result<EnrollProviderUserPersistenceOutcome, HaltView>, RunView) {
    match idempotency::fetch_idempotency_record_spec(
        st,
        context.operation_type,
        context.idempotency_key,
    ) { (Err(h), st) => (Err(h), st), (Ok(stored), st) =>
    if let Some(record) = stored {
        classify_idempotency_spec(st, record, context.request_hash)
    } else {
    match script::maybe_text_spec(
        st,
        PROVIDER_STATUS_SQL@,
        seq![Bind::Id(provider_id)],
        "failed to lock provider"@,
    ) { (Err(h), st) => (Err(h), st), (Ok(locked), st) =>
    match locked {
    None => {
        (Ok(EnrollProviderUserPersistenceOutcome::ProviderNotFound), st)
    },
    Some(status) =>
    if status@ != "ACTIVE"@ {
        (Ok(EnrollProviderUserPersistenceOutcome::ProviderNotActive), st)
    } else {
    match script::one_int_spec(
        st,
        PROFILE_IN_FORCE_SQL@,
        seq![Bind::Id(operational_profile_id), Bind::Id(provider_id)],
        "failed to verify provider operational profile"@,
    ) { (Err(h), st) => (Err(h), st), (Ok(profiles), st) =>
    if profiles != 1 {
        (Ok(EnrollProviderUserPersistenceOutcome::OperationalProfileChanged), st)
    } else {
    match lock_national_identity_spec(
        st,
        enrollment.national_id,
    ) { (Err(h), st) => (Err(h), st), (Ok(_), st) =>
    match idempotency::fetch_idempotency_record_spec(
        st,
        context.operation_type,
        context.idempotency_key,
    ) { (Err(h), st) => (Err(h), st), (Ok(recheck), st) =>
    if let Some(record) = recheck {
        classify_idempotency_spec(st, record, context.request_hash)
    } else {
    match find_or_create_user_spec(
        st,
        context,
        enrollment,
    ) { (Err(h), st) => (Err(h), st), (Ok(user), st) =>
    match find_relationship_spec(
        st,
        provider_id,
        user.user_id,
    ) { (Err(h), st) => (Err(h), st), (Ok(relationship), st) =>
    if let Some(existing) = relationship {
        enroll_again_spec(st, context, provider_id, user, enrollment, existing)
    } else {
    enroll_first_time_spec(
        st,
        context,
        provider_id,
        max_total_users,
        allow_multi_provider_attachment,
        user,
        enrollment,
    )
    }}}}}}}}}}}}}
}

impl OracleRepository {
    /// Enrolls a customer of a provider: with a new card, or with one that the user has. Under one
    /// idempotency key this happens once.
    pub fn prepare_provider_user_enrollment_atomic(
        s: &mut Session,
        context: &MutationCommandContext,
        provider_id: Uuid,
        operational_profile_id: Uuid,
        max_total_users: Option<u64>,
        allow_multi_provider_attachment: bool,
        enrollment: &NewProviderUserEnrollment,
    ) -> (r: Result<EnrollProviderUserPersistenceOutcome, Halt>)
        ensures
            (script::seen(r), final(s)@) == prepare_provider_user_enrollment_atomic_spec(
                old(s)@,
                *context,
                provider_id,
                operational_profile_id,
                max_total_users,
                allow_multi_provider_attachment,
                *enrollment,
            ),
    {
        let stored = idempotency::fetch_idempotency_record(
            s,
            &context.operation_type,
            &context.idempotency_key,
        )?;
        if let Some(record) = &stored {
            return classify_idempotency(s, record, &context.request_hash);
        }
        let locked = script::maybe_text(
            s,
            PROVIDER_STATUS_SQL,
            binds::binds1(Bind::Id(provider_id)),
            "failed to lock provider",
        )?;
        let status = match &locked {
            Some(v) => v,
            None => {
                return Ok(EnrollProviderUserPersistenceOutcome::ProviderNotFound);
            },
        };
        if !text::same_text(status.as_str(), "ACTIVE") {
            return Ok(EnrollProviderUserPersistenceOutcome::ProviderNotActive);
        }
        let profiles = script::one_int(
            s,
            PROFILE_IN_FORCE_SQL,
            binds::binds2(Bind::Id(operational_profile_id), Bind::Id(provider_id)),
            "failed to verify provider operational profile",
        )?;
        if profiles != 1 {
            return Ok(EnrollProviderUserPersistenceOutcome::OperationalProfileChanged);
        }
        lock_national_identity(s, &enrollment.national_id)?;
        let recheck = idempotency::fetch_idempotency_record(
            s,
            &context.operation_type,
            &context.idempotency_key,
        )?;
        if let Some(record) = &recheck {
            return classify_idempotency(s, record, &context.request_hash);
        }
        let user = find_or_create_user(s, context, enrollment)?;
        let relationship = find_relationship(s, provider_id, user.user_id)?;
        if let Some(existing) = &relationship {
            return enroll_again(s, context, provider_id, &user, enrollment, existing);
        }
        enroll_first_time(
            s,
            context,
            provider_id,
            max_total_users,
            allow_multi_provider_attachment,
            &user,
            enrollment,
        )
    }
}

/// The cap of a funding source, where there is one.
pub open spec fn funding_cap_spec(max_amount: Option<i64>) -> Result<Option<u64>, HaltView> {
    match max_amount {
    None => {
        Ok(None)
    },
    Some(cap) =>
    if cap < 0 {
        script::query_fault("invalid card funding cap"@)
    } else {
    Ok(Some(cap as u64))
    }}
}

/// The cap of a funding source, where there is one.
pub fn funding_cap(max_amount: Option<i64>) -> (r: Result<Option<u64>, Halt>)
    ensures
        script::seen(r) == funding_cap_spec(max_amount),
{
    let cap = match max_amount {
        Some(v) => v,
        None => {
            return Ok(None);
        },
    };
    if cap < 0 {
        return Err(script::fail_query("invalid card funding cap"));
    }
    Ok(Some(cap as u64))
}

/// The funding source that a row holds.
#[verifier::opaque]
pub open spec fn map_funding_source_spec(row: Row) -> Result<CardProfileFundingSource, HaltView> {
    match row.int_at(1, READ_ROW@) { Err(h) => Err(h), Ok(priority) =>
    match row.opt_int_at(2, READ_ROW@) { Err(h) => Err(h), Ok(max_amount) =>
    match row.raw_at(0, READ_ROW@) { Err(h) => Err(h), Ok(provider_id_raw) =>
    match script::id_of(provider_id_raw@) { Err(h) => Err(h), Ok(provider_id) =>
    if priority < 0 || priority > 65535 {
        script::query_fault("invalid card funding priority"@)
    } else {
    match funding_cap_spec(max_amount) { Err(h) => Err(h), Ok(max_amount_rials) =>
    match row.raw_at(3, READ_ROW@) { Err(h) => Err(h), Ok(user_provider_account_raw) =>
    match script::id_of(user_provider_account_raw@) { Err(h) => Err(h), Ok(user_provider_account) =>
    match row.raw_at(4, READ_ROW@) { Err(h) => Err(h), Ok(provider_fee_account_raw) =>
    match script::id_of(provider_fee_account_raw@) { Err(h) => Err(h), Ok(provider_fee_account) =>
    match row.raw_at(5, READ_ROW@) { Err(h) => Err(h), Ok(cms_settlement_account_raw) =>
    match script::id_of(
        cms_settlement_account_raw@,
    ) { Err(h) => Err(h), Ok(cms_settlement_account) =>
    match row.raw_at(6, READ_ROW@) { Err(h) => Err(h), Ok(platform_fee_account_raw) =>
    match script::id_of(platform_fee_account_raw@) { Err(h) => Err(h), Ok(platform_fee_account) =>
    Ok(CardProfileFundingSource {
        provider_id,
        priority: priority as u16,
        max_amount_rials,
        ledger_accounts: CardProfileLedgerAccounts {
            user_provider_account,
            provider_fee_account,
            cms_settlement_account,
            platform_fee_account,
        },
    })
    }}}}}}}}}}}}}}
}

/// The funding source that a row holds.
pub fn map_funding_source(row: &Row) -> (r: Result<CardProfileFundingSource, Halt>)
    ensures
        script::seen(r) == map_funding_source_spec(*row),
{
    proof {
        reveal(map_funding_source_spec);
    }
    let priority: i64 = row.number(1, READ_ROW)?;
    let max_amount = row.opt_number(2, READ_ROW)?;
    let provider_id_raw = row.raw(0, READ_ROW)?;
    let provider_id = script::to_id(provider_id_raw)?;
    if priority < 0 || priority > 65535 {
        return Err(script::fail_query("invalid card funding priority"));
    }
    let max_amount_rials = funding_cap(max_amount)?;
    let user_provider_account_raw = row.raw(3, READ_ROW)?;
    let user_provider_account = script::to_id(user_provider_account_raw)?;
    let provider_fee_account_raw = row.raw(4, READ_ROW)?;
    let provider_fee_account = script::to_id(provider_fee_account_raw)?;
    let cms_settlement_account_raw = row.raw(5, READ_ROW)?;
    let cms_settlement_account = script::to_id(cms_settlement_account_raw)?;
    let platform_fee_account_raw = row.raw(6, READ_ROW)?;
    let platform_fee_account = script::to_id(platform_fee_account_raw)?;
    Ok(CardProfileFundingSource {
        provider_id,
        priority: priority as u16,
        max_amount_rials,
        ledger_accounts: CardProfileLedgerAccounts {
            user_provider_account,
            provider_fee_account,
            cms_settlement_account,
            platform_fee_account,
        },
    })
}

/// The funding sources that rows hold, in order.
pub open spec fn map_funding_sources_spec(
    rows: Seq<Row>,
    i: nat,
    done: Seq<CardProfileFundingSource>,
) -> Result<Seq<CardProfileFundingSource>, HaltView>
    decreases rows.len() - i,
{
    if i >= rows.len() {
        Ok(done)
    } else {
        match map_funding_source_spec(rows[i as int]) {
            Err(h) => Err(h), Ok(item) => map_funding_sources_spec(rows, i + 1, done.push(item))
        }
    }
}

/// The funding sources that rows hold, in order.
pub fn map_funding_sources(rows: &Vec<Row>) -> (r: Result<Vec<CardProfileFundingSource>, Halt>)
    ensures
        script::seen_view(r) == map_funding_sources_spec(rows@, 0, Seq::empty()),
{
    let mut done: Vec<CardProfileFundingSource> = Vec::new();
    let mut i: usize = 0;
    assert(done@ =~= Seq::empty());
    while i < rows.len()
        invariant
            i <= rows@.len(),
            map_funding_sources_spec(rows@, 0, Seq::empty()) == map_funding_sources_spec(
                rows@,
                i as nat,
                done@,
            ),
        decreases rows@.len() - i,
    {
        let item = map_funding_source(&rows[i])?;
        done.push(item);
        i = i + 1;
    }
    Ok(done)
}

/// Each is that of its own row, and they come in the order of the rows.
pub proof fn map_funding_sources_go_in_turn(
    rows: Seq<Row>,
    i: nat,
    done: Seq<CardProfileFundingSource>,
)
    requires
        i <= rows.len(),
    ensures
        map_funding_sources_spec(rows, i, done) matches Ok(all) ==> {
            &&& all.len() == done.len() + (rows.len() - i)
            &&& all.take(done.len() as int) == done
            &&& forall|k: int| i <= k < rows.len() ==> (#[trigger] rows[k], map_funding_source_spec(rows[k])) == (
                rows[k],
                Ok::<CardProfileFundingSource, HaltView>(all[done.len() + k - i]),
            )
        },
    decreases rows.len() - i,
{
    if i < rows.len() {
        if let Ok(item) = map_funding_source_spec(rows[i as int]) {
            map_funding_sources_go_in_turn(rows, i + 1, done.push(item));
            if let Ok(all) = map_funding_sources_spec(rows, i, done) {
                assert(
                    all.take(done.len() as int) =~= all.take(
                        done.len() as int + 1,
                    ).take(done.len() as int)
                );
                assert(done.push(item).take(done.len() as int) =~= done);
                assert(
                    all[done.len() as int] == all.take(done.len() as int + 1)[done.len() as int]
                );
            }
        }
    } else {
        assert(done.take(done.len() as int) =~= done);
    }
}

/// A card as the runtime is told of it. One without an active funding source is not published.
pub open spec fn load_card_profile_projection_spec(
    st: RunView,
    card_id: Uuid,
) -> (Result<(String, CardProfileBase, Seq<CardProfileFundingSource>), HaltView>, RunView) {
    match script::one_row_spec(
        st,
        PROJECTION_BASE_SQL@,
        seq![Bind::Id(card_id)],
        "trrtirrrrrrrr",
        "failed to load card projection base"@,
    ) { (Err(h), st) => (Err(h), st), (Ok(row), st) =>
    match row.raw_at(1, READ_ROW@) { Err(h) => (Err(h), st), Ok(user_raw) =>
    match row.raw_at(2, READ_ROW@) { Err(h) => (Err(h), st), Ok(range_raw) =>
    match row.raw_at(5, READ_ROW@) { Err(h) => (Err(h), st), Ok(amount_daily_raw) =>
    match script::id_of(amount_daily_raw@) { Err(h) => (Err(h), st), Ok(amount_daily) =>
    match row.raw_at(6, READ_ROW@) { Err(h) => (Err(h), st), Ok(amount_weekly_raw) =>
    match script::id_of(amount_weekly_raw@) { Err(h) => (Err(h), st), Ok(amount_weekly) =>
    match row.raw_at(7, READ_ROW@) { Err(h) => (Err(h), st), Ok(amount_monthly_raw) =>
    match script::id_of(amount_monthly_raw@) { Err(h) => (Err(h), st), Ok(amount_monthly) =>
    match row.raw_at(8, READ_ROW@) { Err(h) => (Err(h), st), Ok(amount_yearly_raw) =>
    match script::id_of(amount_yearly_raw@) { Err(h) => (Err(h), st), Ok(amount_yearly) =>
    match row.raw_at(9, READ_ROW@) { Err(h) => (Err(h), st), Ok(count_daily_raw) =>
    match script::id_of(count_daily_raw@) { Err(h) => (Err(h), st), Ok(count_daily) =>
    match row.raw_at(10, READ_ROW@) { Err(h) => (Err(h), st), Ok(count_weekly_raw) =>
    match script::id_of(count_weekly_raw@) { Err(h) => (Err(h), st), Ok(count_weekly) =>
    match row.raw_at(11, READ_ROW@) { Err(h) => (Err(h), st), Ok(count_monthly_raw) =>
    match script::id_of(count_monthly_raw@) { Err(h) => (Err(h), st), Ok(count_monthly) =>
    match row.raw_at(12, READ_ROW@) { Err(h) => (Err(h), st), Ok(count_yearly_raw) =>
    match script::id_of(count_yearly_raw@) { Err(h) => (Err(h), st), Ok(count_yearly) =>
    match script::rows_spec(
        st,
        PROJECTION_FUNDING_SQL@,
        seq![Bind::Id(card_id)],
        "riIrrrr",
        "failed to load card funding projection"@,
    ) { (Err(h), st) => (Err(h), st), (Ok(listed), st) =>
    match map_funding_sources_spec(
        listed.rows@,
        0,
        Seq::empty(),
    ) { Err(h) => (Err(h), st), Ok(funding_sources) =>
    if let Some(cause) = listed.failure {
        (script::failed("failed to read card funding projection"@, cause@), st)
    } else {
    if funding_sources.len() == 0 {
        (script::conflict_fault("active card has no active funding source"@), st)
    } else {
    match row.text_at(0, READ_ROW@) { Err(h) => (Err(h), st), Ok(partition_key) =>
    match script::id_of(user_raw@) { Err(h) => (Err(h), st), Ok(user_id) =>
    match script::id_of(range_raw@) { Err(h) => (Err(h), st), Ok(card_range_id) =>
    match row.text_at(3, READ_ROW@) { Err(h) => (Err(h), st), Ok(funding_mode) =>
    match row.int_at(4, READ_ROW@) { Err(h) => (Err(h), st), Ok(state_version) =>
    (
        Ok(
            (
                partition_key,
                CardProfileBase {
                    card_id,
                    user_id,
                    card_range_id,
                    funding_mode,
                    state_version,
                    policy_usage_accounts: PolicyUsageAccountIds {
                        amount_daily,
                        amount_weekly,
                        amount_monthly,
                        amount_yearly,
                        count_daily,
                        count_weekly,
                        count_monthly,
                        count_yearly,
                    },
                },
                funding_sources,
            ),
        ),
        st,
    )
    }}}}}}}}}}}}}}}}}}}}}}}}}}}}
}

/// A card as the runtime is told of it. One without an active funding source is not published.
pub fn load_card_profile_projection(
    s: &mut Session,
    card_id: Uuid,
) -> (r: Result<LoadedProjection, Halt>)
    ensures
        (script::seen_view(r), final(s)@) == load_card_profile_projection_spec(old(s)@, card_id),
{
    let row = script::one_row(
        s,
        PROJECTION_BASE_SQL,
        binds::binds1(Bind::Id(card_id)),
        "trrtirrrrrrrr",
        "failed to load card projection base",
    )?;
    let user_raw = row.raw(1, READ_ROW)?;
    let range_raw = row.raw(2, READ_ROW)?;
    let amount_daily_raw = row.raw(5, READ_ROW)?;
    let amount_daily = script::to_id(amount_daily_raw)?;
    let amount_weekly_raw = row.raw(6, READ_ROW)?;
    let amount_weekly = script::to_id(amount_weekly_raw)?;
    let amount_monthly_raw = row.raw(7, READ_ROW)?;
    let amount_monthly = script::to_id(amount_monthly_raw)?;
    let amount_yearly_raw = row.raw(8, READ_ROW)?;
    let amount_yearly = script::to_id(amount_yearly_raw)?;
    let count_daily_raw = row.raw(9, READ_ROW)?;
    let count_daily = script::to_id(count_daily_raw)?;
    let count_weekly_raw = row.raw(10, READ_ROW)?;
    let count_weekly = script::to_id(count_weekly_raw)?;
    let count_monthly_raw = row.raw(11, READ_ROW)?;
    let count_monthly = script::to_id(count_monthly_raw)?;
    let count_yearly_raw = row.raw(12, READ_ROW)?;
    let count_yearly = script::to_id(count_yearly_raw)?;
    let listed = script::rows(
        s,
        PROJECTION_FUNDING_SQL,
        binds::binds1(Bind::Id(card_id)),
        "riIrrrr",
        "failed to load card funding projection",
    )?;
    let funding_sources = map_funding_sources(&listed.rows)?;
    if let Some(cause) = &listed.failure {
        return Err(script::fail_because("failed to read card funding projection", cause.as_str()));
    }
    if funding_sources.len() == 0 {
        return Err(script::fail_conflict("active card has no active funding source"));
    }
    let partition_key = row.text(0, READ_ROW)?;
    let user_id = script::to_id(user_raw)?;
    let card_range_id = script::to_id(range_raw)?;
    let funding_mode = row.text(3, READ_ROW)?;
    let state_version: i64 = row.number(4, READ_ROW)?;
    Ok(LoadedProjection {
        partition_key,
        base: CardProfileBase {
            card_id,
            user_id,
            card_range_id,
            funding_mode,
            state_version,
            policy_usage_accounts: PolicyUsageAccountIds {
                amount_daily,
                amount_weekly,
                amount_monthly,
                amount_yearly,
                count_daily,
                count_weekly,
                count_monthly,
                count_yearly,
            },
        },
        funding_sources,
    })
}

/// Stores the event that publishes a card to the runtime, or refreshes it there for a reason.
pub open spec fn insert_card_projection_outbox_spec(
    st: RunView,
    card_id: Uuid,
    operation_id: Uuid,
    reason: Option<CardProfileRefreshReason>,
    headers_of: HeaderSource,
) -> (Result<(), HaltView>, RunView) {
    match script::fresh_id_spec(st) { (Err(h), st) => (Err(h), st), (Ok(event_id), st) =>
    match load_card_profile_projection_spec(
        st,
        card_id,
    ) { (Err(h), st) => (Err(h), st), (Ok((partition_key, base, funding_sources)), st) =>
    { let keys = EventKeys {
        event_id,
        event_type: "CARD_PROFILE_PUBLISH_REQUESTED",
        aggregate_type: "CARD",
        aggregate_id: card_id,
        operation_id,
    };
    match script::encode_with_spec(
        st,
        Rule::CardProfileEvent(keys, reason, base),
        AttachmentView::FundingSources(funding_sources),
        "failed to serialize card projection"@,
    ) { (Err(h), st) => (Err(h), st), (Ok(payload), st) =>
    match script::encode_spec(
        st,
        Rule::EventHeaders(headers_of),
        "failed to serialize event headers"@,
    ) { (Err(h), st) => (Err(h), st), (Ok(headers), st) =>
    match script::execute_spec(
        st,
        CARD_OUTBOX_SQL@,
        seq![
            Bind::Id(event_id),
            Bind::Id(operation_id),
            Bind::Id(card_id),
            Bind::Text(partition_key),
            Bind::Text(payload),
            Bind::Text(headers),
        ],
        "failed to enqueue card-profile publication"@,
    ) { (Err(h), st) => (Err(h), st), (Ok(_), st) =>
    match script::execute_spec(
        st,
        RECORD_PUBLICATION_SQL@,
        seq![Bind::Id(operation_id), Bind::Id(card_id)],
        "failed to record card-profile publication"@,
    ) { (Err(h), st) => (Err(h), st), (Ok(_), st) =>
    (Ok(()), st)
    }}}}}}}
}

/// Stores the event that publishes a card to the runtime, or refreshes it there for a reason.
pub fn insert_card_projection_outbox(
    s: &mut Session,
    card_id: Uuid,
    operation_id: Uuid,
    reason: Option<CardProfileRefreshReason>,
    headers_of: &HeaderSource,
) -> (r: Result<(), Halt>)
    ensures
        (script::seen(r), final(s)@) == insert_card_projection_outbox_spec(
            old(s)@,
            card_id,
            operation_id,
            reason,
            *headers_of,
        ),
{
    let event_id = script::fresh_id(s)?;
    let LoadedProjection {
        partition_key,
        base,
        funding_sources,
    } = load_card_profile_projection(s, card_id)?;
    let keys = EventKeys {
        event_id,
        event_type: "CARD_PROFILE_PUBLISH_REQUESTED",
        aggregate_type: "CARD",
        aggregate_id: card_id,
        operation_id,
    };
    let payload = script::encode_with(
        s,
        Rule::CardProfileEvent(keys, reason, base),
        Attachment::FundingSources(funding_sources),
        "failed to serialize card projection",
    )?;
    let headers = script::encode(
        s,
        Rule::EventHeaders(headers_of.clone()),
        "failed to serialize event headers",
    )?;
    script::execute(
        s,
        CARD_OUTBOX_SQL,
        binds::binds6(
            Bind::Id(event_id),
            Bind::Id(operation_id),
            Bind::Id(card_id),
            Bind::Text(partition_key.clone()),
            Bind::Text(payload.clone()),
            Bind::Text(headers.clone()),
        ),
        "failed to enqueue card-profile publication",
    )?;
    script::execute(
        s,
        RECORD_PUBLICATION_SQL,
        binds::binds2(Bind::Id(operation_id), Bind::Id(card_id)),
        "failed to record card-profile publication",
    )?;
    Ok(())
}

/// Stores the event that refreshes a card at the runtime, at a place among the events of its
/// operation. Its statement is this library's own: that of [`insert_card_projection_outbox`] with
/// the place added.
pub open spec fn insert_card_projection_event_spec(
    st: RunView,
    card_id: Uuid,
    operation_id: Uuid,
    sequence: i64,
    reason: CardProfileRefreshReason,
    headers_of: HeaderSource,
) -> (Result<(), HaltView>, RunView) {
    match script::fresh_id_spec(st) { (Err(h), st) => (Err(h), st), (Ok(event_id), st) =>
    match load_card_profile_projection_spec(
        st,
        card_id,
    ) { (Err(h), st) => (Err(h), st), (Ok((partition_key, base, funding_sources)), st) =>
    { let keys = EventKeys {
        event_id,
        event_type: "CARD_PROFILE_PUBLISH_REQUESTED",
        aggregate_type: "CARD",
        aggregate_id: card_id,
        operation_id,
    };
    match script::encode_with_spec(
        st,
        Rule::CardProfileEvent(keys, Some(reason), base),
        AttachmentView::FundingSources(funding_sources),
        "failed to serialize card projection"@,
    ) { (Err(h), st) => (Err(h), st), (Ok(payload), st) =>
    match script::encode_spec(
        st,
        Rule::EventHeaders(headers_of),
        "failed to serialize event headers"@,
    ) { (Err(h), st) => (Err(h), st), (Ok(headers), st) =>
    match script::execute_spec(
        st,
        CARD_EVENT_OUTBOX_SQL@,
        seq![
            Bind::Id(event_id),
            Bind::Id(operation_id),
            Bind::Int(sequence),
            Bind::Id(card_id),
            Bind::Text(partition_key),
            Bind::Text(payload),
            Bind::Text(headers),
        ],
        "failed to enqueue card-profile publication"@,
    ) { (Err(h), st) => (Err(h), st), (Ok(_), st) =>
    match script::execute_spec(
        st,
        RECORD_PUBLICATION_SQL@,
        seq![Bind::Id(operation_id), Bind::Id(card_id)],
        "failed to record card-profile publication"@,
    ) { (Err(h), st) => (Err(h), st), (Ok(_), st) =>
    (Ok(()), st)
    }}}}}}}
}

/// Stores the event that refreshes a card at the runtime, at a place among the events of its
/// operation. Its statement is this library's own: that of [`insert_card_projection_outbox`] with
/// the place added.
pub fn insert_card_projection_event(
    s: &mut Session,
    card_id: Uuid,
    operation_id: Uuid,
    sequence: i64,
    reason: CardProfileRefreshReason,
    headers_of: &HeaderSource,
) -> (r: Result<(), Halt>)
    ensures
        (script::seen(r), final(s)@) == insert_card_projection_event_spec(
            old(s)@,
            card_id,
            operation_id,
            sequence,
            reason,
            *headers_of,
        ),
{
    let event_id = script::fresh_id(s)?;
    let LoadedProjection {
        partition_key,
        base,
        funding_sources,
    } = load_card_profile_projection(s, card_id)?;
    let keys = EventKeys {
        event_id,
        event_type: "CARD_PROFILE_PUBLISH_REQUESTED",
        aggregate_type: "CARD",
        aggregate_id: card_id,
        operation_id,
    };
    let payload = script::encode_with(
        s,
        Rule::CardProfileEvent(keys, Some(reason), base),
        Attachment::FundingSources(funding_sources),
        "failed to serialize card projection",
    )?;
    let headers = script::encode(
        s,
        Rule::EventHeaders(headers_of.clone()),
        "failed to serialize event headers",
    )?;
    script::execute(
        s,
        CARD_EVENT_OUTBOX_SQL,
        binds::binds7(
            Bind::Id(event_id),
            Bind::Id(operation_id),
            Bind::Int(sequence),
            Bind::Id(card_id),
            Bind::Text(partition_key.clone()),
            Bind::Text(payload.clone()),
            Bind::Text(headers.clone()),
        ),
        "failed to enqueue card-profile publication",
    )?;
    script::execute(
        s,
        RECORD_PUBLICATION_SQL,
        binds::binds2(Bind::Id(operation_id), Bind::Id(card_id)),
        "failed to record card-profile publication",
    )?;
    Ok(())
}

/// An enrollment with its card and account.
pub open spec fn fetch_provider_user_view_spec(
    st: RunView,
    provider_user_id: Uuid,
    enrollment_id: Uuid,
    resolution: CardResolution,
    materialization: &'static str,
) -> (Result<ProviderUserView, HaltView>, RunView) {
    match script::one_row_spec(
        st,
        ENROLLED_VIEW_SQL@,
        seq![Bind::Id(provider_user_id)],
        "rrtnttrtrrtt",
        "failed to read provider-user response"@,
    ) { (Err(h), st) => (Err(h), st), (Ok(row), st) =>
    match row.raw_at(0, READ_ROW@) { Err(h) => (Err(h), st), Ok(provider_raw) =>
    match row.raw_at(1, READ_ROW@) { Err(h) => (Err(h), st), Ok(user_raw) =>
    match row.text_at(4, READ_ROW@) { Err(h) => (Err(h), st), Ok(mismatch) =>
    match row.text_at(5, READ_ROW@) { Err(h) => (Err(h), st), Ok(status_text) =>
    match row.raw_at(6, READ_ROW@) { Err(h) => (Err(h), st), Ok(card_raw) =>
    match row.text_at(7, READ_ROW@) { Err(h) => (Err(h), st), Ok(card_number) =>
    match row.raw_at(8, READ_ROW@) { Err(h) => (Err(h), st), Ok(range_raw) =>
    match row.raw_at(9, READ_ROW@) { Err(h) => (Err(h), st), Ok(account_raw) =>
    match row.text_at(10, READ_ROW@) { Err(h) => (Err(h), st), Ok(created_text) =>
    match row.text_at(11, READ_ROW@) { Err(h) => (Err(h), st), Ok(updated_text) =>
    match script::id_of(card_raw@) { Err(h) => (Err(h), st), Ok(card_id) =>
    match script::id_of(provider_raw@) { Err(h) => (Err(h), st), Ok(provider_id) =>
    match script::id_of(user_raw@) { Err(h) => (Err(h), st), Ok(user_id) =>
    match row.text_at(2, READ_ROW@) { Err(h) => (Err(h), st), Ok(provider_customer_reference) =>
    match row.small_at(3, READ_ROW@) { Err(h) => (Err(h), st), Ok(flagged) =>
    match json::json_texts_reading(
        mismatch@,
    ) { Err(e) => (script::failed("invalid mismatch JSON"@, e), st), Ok(_) =>
    match ProviderUserStatus::of_code(status_text@) {
    None => {
        (script::query_fault("unknown provider-user status"@), st)
    },
    Some(status) =>
    match script::consult_text_spec(
        st,
        Rule::MaskedCardNumber(card_number),
    ) { (Err(h), st) => (Err(h), st), (Ok(masked_card_number), st) =>
    match script::id_of(range_raw@) { Err(h) => (Err(h), st), Ok(card_range_id) =>
    match script::id_of(account_raw@) { Err(h) => (Err(h), st), Ok(account_id) =>
    match script::usage_accounts_spec(
        st,
        card_id,
    ) { (Err(h), st) => (Err(h), st), (Ok(usage_account_ids), st) =>
    match script::time_of(
        created_text@,
        "invalid Oracle timestamp"@,
    ) { Err(h) => (Err(h), st), Ok(created_at) =>
    match script::time_of(
        updated_text@,
        "invalid Oracle timestamp"@,
    ) { Err(h) => (Err(h), st), Ok(updated_at) =>
    (
        Ok(ProviderUserView {
            enrollment_id,
            provider_user_id,
            provider_id,
            user_id,
            provider_customer_reference,
            identity_mismatch: flagged == 1,
            mismatch_fields: MismatchFields::Stored(mismatch),
            status,
            card_resolution: resolution,
            card_id: Some(card_id),
            masked_card_number: Some(masked_card_number),
            card_range_id,
            provider_user_account_id: Some(account_id),
            policy_usage_account_ids: Some(usage_account_ids),
            issuance_request_id: None,
            profile_materialization_status: materialization,
            created_at,
            updated_at,
        }),
        st,
    )
    }}}}}}}}}}}}}}}}}}}}}}}}
}

/// An enrollment with its card and account.
pub fn fetch_provider_user_view(
    s: &mut Session,
    provider_user_id: Uuid,
    enrollment_id: Uuid,
    resolution: CardResolution,
    materialization: &'static str,
) -> (r: Result<ProviderUserView, Halt>)
    ensures
        (script::seen(r), final(s)@) == fetch_provider_user_view_spec(
            old(s)@,
            provider_user_id,
            enrollment_id,
            resolution,
            materialization,
        ),
{
    let row = script::one_row(
        s,
        ENROLLED_VIEW_SQL,
        binds::binds1(Bind::Id(provider_user_id)),
        "rrtnttrtrrtt",
        "failed to read provider-user response",
    )?;
    let provider_raw = row.raw(0, READ_ROW)?;
    let user_raw = row.raw(1, READ_ROW)?;
    let mismatch = row.text(4, READ_ROW)?;
    let status_text = row.text(5, READ_ROW)?;
    let card_raw = row.raw(6, READ_ROW)?;
    let card_number = row.text(7, READ_ROW)?;
    let range_raw = row.raw(8, READ_ROW)?;
    let account_raw = row.raw(9, READ_ROW)?;
    let created_text = row.text(10, READ_ROW)?;
    let updated_text = row.text(11, READ_ROW)?;
    let card_id = script::to_id(card_raw)?;
    let provider_id = script::to_id(provider_raw)?;
    let user_id = script::to_id(user_raw)?;
    let provider_customer_reference = row.text(2, READ_ROW)?;
    let flagged: i64 = row.small(3, READ_ROW)?;
    match json::read_texts(mismatch.as_str()) {
        Ok(_) => {},
        Err(e) => {
            return Err(script::fail_because("invalid mismatch JSON", e.as_str()));
        },
    }
    let status = match ProviderUserStatus::from_db_value(status_text.as_str()) {
        Some(v) => v,
        None => {
            return Err(script::fail_query("unknown provider-user status"));
        },
    };
    let masked_card_number = script::consult_text(s, Rule::MaskedCardNumber(card_number))?;
    let card_range_id = script::to_id(range_raw)?;
    let account_id = script::to_id(account_raw)?;
    let usage_account_ids = script::usage_accounts(s, card_id)?;
    let created_at = script::to_time(created_text.as_str(), "invalid Oracle timestamp")?;
    let updated_at = script::to_time(updated_text.as_str(), "invalid Oracle timestamp")?;
    Ok(ProviderUserView {
        enrollment_id,
        provider_user_id,
        provider_id,
        user_id,
        provider_customer_reference,
        identity_mismatch: flagged == 1,
        mismatch_fields: MismatchFields::Stored(mismatch),
        status,
        card_resolution: resolution,
        card_id: Some(card_id),
        masked_card_number: Some(masked_card_number),
        card_range_id,
        provider_user_account_id: Some(account_id),
        policy_usage_account_ids: Some(usage_account_ids),
        issuance_request_id: None,
        profile_materialization_status: materialization,
        created_at,
        updated_at,
    })
}

/// Activates a customer whose account was provisioned, and publishes the card.
pub open spec fn finalize_existing_card_enrollment_atomic_spec(
    st: RunView,
    context: MutationCommandContext,
    intent: ExistingCardProvisioningIntent,
) -> (Result<ProviderUserView, HaltView>, RunView) {
    match script::one_text_spec(
        st,
        STAGED_STATUS_SQL@,
        seq![Bind::Id(intent.provider_user_id)],
        "failed to lock staged provider user"@,
    ) { (Err(h), st) => (Err(h), st), (Ok(status), st) =>
    if status@ != "PROVISIONING"@ && status@ != "RECOVERY_REQUIRED"@ {
        (script::conflict_fault("provider-user provisioning state changed"@), st)
    } else {
    match script::execute_spec(
        st,
        ACTIVATE_USER_SQL@,
        seq![Bind::Id(intent.provider_user_id)],
        "failed to activate provider user"@,
    ) { (Err(h), st) => (Err(h), st), (Ok(_), st) =>
    match script::execute_spec(
        st,
        ACTIVATE_ACCOUNT_SQL@,
        seq![Bind::Id(intent.provider_user_id)],
        "failed to activate provider-user account"@,
    ) { (Err(h), st) => (Err(h), st), (Ok(_), st) =>
    match script::execute_spec(
        st,
        ACTIVATE_FUNDING_SQL@,
        seq![Bind::Id(intent.provider_user_id)],
        "failed to activate card funding source"@,
    ) { (Err(h), st) => (Err(h), st), (Ok(_), st) =>
    match script::execute_spec(
        st,
        ACTIVATE_USAGE_SQL@,
        seq![Bind::Id(intent.card_id)],
        "failed to activate policy usage accounts"@,
    ) { (Err(h), st) => (Err(h), st), (Ok(_), st) =>
    match script::execute_spec(
        st,
        COMPLETE_WAL_SQL@,
        seq![Bind::Json(Document::Verified), Bind::Id(intent.operation_id)],
        "failed to complete provider-user WAL"@,
    ) { (Err(h), st) => (Err(h), st), (Ok(_), st) =>
    match script::fresh_id_spec(st) { (Err(h), st) => (Err(h), st), (Ok(operation_id), st) =>
    match insert_card_projection_outbox_spec(
        st,
        intent.card_id,
        operation_id,
        None,
        context.headers(),
    ) { (Err(h), st) => (Err(h), st), (Ok(_), st) =>
    match fetch_provider_user_view_spec(
        st,
        intent.provider_user_id,
        intent.enrollment_id,
        CardResolution::ExistingCardAttached,
        "PENDING",
    ) { (Err(h), st) => (Err(h), st), (Ok(view), st) =>
    match complete_enrollment_spec(st, context, view) { (Err(h), st) => (Err(h), st), (Ok(_), st) =>
    (Ok(view), st)
    }}}}}}}}}}}
}

impl OracleRepository {
    /// Activates a customer whose account was provisioned, and publishes the card.
    pub fn finalize_existing_card_enrollment_atomic(
        s: &mut Session,
        context: &MutationCommandContext,
        intent: &ExistingCardProvisioningIntent,
    ) -> (r: Result<ProviderUserView, Halt>)
        ensures
            (script::seen(r), final(s)@) == finalize_existing_card_enrollment_atomic_spec(
                old(s)@,
                *context,
                *intent,
            ),
    {
        let status = script::one_text(
            s,
            STAGED_STATUS_SQL,
            binds::binds1(Bind::Id(intent.provider_user_id)),
            "failed to lock staged provider user",
        )?;
        if !text::same_text(status.as_str(), "PROVISIONING")
            && !text::same_text(status.as_str(), "RECOVERY_REQUIRED") {
            return Err(script::fail_conflict("provider-user provisioning state changed"));
        }
        script::execute(
            s,
            ACTIVATE_USER_SQL,
            binds::binds1(Bind::Id(intent.provider_user_id)),
            "failed to activate provider user",
        )?;
        script::execute(
            s,
            ACTIVATE_ACCOUNT_SQL,
            binds::binds1(Bind::Id(intent.provider_user_id)),
            "failed to activate provider-user account",
        )?;
        script::execute(
            s,
            ACTIVATE_FUNDING_SQL,
            binds::binds1(Bind::Id(intent.provider_user_id)),
            "failed to activate card funding source",
        )?;
        script::execute(
            s,
            ACTIVATE_USAGE_SQL,
            binds::binds1(Bind::Id(intent.card_id)),
            "failed to activate policy usage accounts",
        )?;
        script::execute(
            s,
            COMPLETE_WAL_SQL,
            binds::binds2(Bind::Json(Document::Verified), Bind::Id(intent.operation_id)),
            "failed to complete provider-user WAL",
        )?;
        let operation_id = script::fresh_id(s)?;
        insert_card_projection_outbox(
            s,
            intent.card_id,
            operation_id,
            None,
            &context.event_headers(),
        )?;
        let view = fetch_provider_user_view(
            s,
            intent.provider_user_id,
            intent.enrollment_id,
            CardResolution::ExistingCardAttached,
            "PENDING",
        )?;
        complete_enrollment(s, context, &view)?;
        Ok(view)
    }
}

/// Marks a customer, the account and the funding source for recovery, and the intent as failed.
pub open spec fn mark_provider_user_provisioning_failed_spec(
    st: RunView,
    provider_user_id: Uuid,
    operation_id: Uuid,
    safe_error_code: &'static str,
) -> (Result<(), HaltView>, RunView) {
    match script::execute_spec(
        st,
        RECOVER_USER_SQL@,
        seq![Bind::Id(provider_user_id)],
        "failed to mark provider user for recovery"@,
    ) { (Err(h), st) => (Err(h), st), (Ok(_), st) =>
    match script::execute_spec(
        st,
        RECOVER_ACCOUNT_SQL@,
        seq![Bind::Id(provider_user_id)],
        "failed to mark provider-user account for recovery"@,
    ) { (Err(h), st) => (Err(h), st), (Ok(_), st) =>
    match script::execute_spec(
        st,
        RECOVER_FUNDING_SQL@,
        seq![Bind::Id(provider_user_id)],
        "failed to mark funding source for recovery"@,
    ) { (Err(h), st) => (Err(h), st), (Ok(_), st) =>
    match script::execute_spec(
        st,
        FAIL_WAL_SQL@,
        seq![Bind::Json(Document::ErrorCode(safe_error_code)), Bind::Id(operation_id)],
        "failed to mark provider-user WAL failed"@,
    ) { (Err(h), st) => (Err(h), st), (Ok(_), st) =>
    (Ok(()), st)
    }}}}
}

impl OracleRepository {
    /// Marks a customer, the account and the funding source for recovery, and the intent as failed.
    pub fn mark_provider_user_provisioning_failed(
        s: &mut Session,
        provider_user_id: Uuid,
        operation_id: Uuid,
        safe_error_code: &'static str,
    ) -> (r: Result<(), Halt>)
        ensures
            (script::seen(r), final(s)@) == mark_provider_user_provisioning_failed_spec(
                old(s)@,
                provider_user_id,
                operation_id,
                safe_error_code,
            ),
    {
        script::execute(
            s,
            RECOVER_USER_SQL,
            binds::binds1(Bind::Id(provider_user_id)),
            "failed to mark provider user for recovery",
        )?;
        script::execute(
            s,
            RECOVER_ACCOUNT_SQL,
            binds::binds1(Bind::Id(provider_user_id)),
            "failed to mark provider-user account for recovery",
        )?;
        script::execute(
            s,
            RECOVER_FUNDING_SQL,
            binds::binds1(Bind::Id(provider_user_id)),
            "failed to mark funding source for recovery",
        )?;
        script::execute(
            s,
            FAIL_WAL_SQL,
            binds::binds2(Bind::Json(Document::ErrorCode(safe_error_code)), Bind::Id(operation_id)),
            "failed to mark provider-user WAL failed",
        )?;
        Ok(())
    }
}

/// A provider that is missing or not active enrolls no one: the enrollment is refused and nothing
/// is changed.
pub proof fn inactive_provider_enrolls_no_one(
    st: RunView,
    context: MutationCommandContext,
    provider_id: Uuid,
    operational_profile_id: Uuid,
    max_total_users: Option<u64>,
    allow_multi_provider_attachment: bool,
    enrollment: NewProviderUserEnrollment,
)
    requires
        ({
            let looked = idempotency::fetch_idempotency_record_spec(
                st,
                context.operation_type,
                context.idempotency_key,
            );
            &&& looked.0 == Ok::<Option<IdempotencyRecord>, HaltView>(None)
            &&& script::maybe_text_spec(
                looked.1,
                PROVIDER_STATUS_SQL@,
                seq![Bind::Id(provider_id)],
                "failed to lock provider"@,
            ).0 matches Ok(found) && !(found matches Some(status) && status@ == "ACTIVE"@)
        }),
    ensures
        ({
            let (result, after) = prepare_provider_user_enrollment_atomic_spec(
                st,
                context,
                provider_id,
                operational_profile_id,
                max_total_users,
                allow_multi_provider_attachment,
                enrollment,
            );
            &&& result matches Ok(outcome) && (outcome is ProviderNotFound || outcome
                is ProviderNotActive)
            &&& script::writes(after.log) == script::writes(st.log)
        }),
{
    broadcast use script::writes_with_another;

}

/// Under one idempotency key an enrollment is asked for once: where a record is stored, the command
/// is answered from it, and nothing is changed.
pub proof fn enrollment_is_done_once(
    st: RunView,
    context: MutationCommandContext,
    provider_id: Uuid,
    operational_profile_id: Uuid,
    max_total_users: Option<u64>,
    allow_multi_provider_attachment: bool,
    enrollment: NewProviderUserEnrollment,
    record: IdempotencyRecord,
)
    requires
        idempotency::fetch_idempotency_record_spec(
            st,
            context.operation_type,
            context.idempotency_key,
        ).0 == Ok::<Option<IdempotencyRecord>, HaltView>(Some(record)),
    ensures
        ({
            let looked = idempotency::fetch_idempotency_record_spec(
                st,
                context.operation_type,
                context.idempotency_key,
            );
            let asked = prepare_provider_user_enrollment_atomic_spec(
                st,
                context,
                provider_id,
                operational_profile_id,
                max_total_users,
                allow_multi_provider_attachment,
                enrollment,
            );
            &&& asked == classify_idempotency_spec(looked.1, record, context.request_hash)
            &&& script::writes(asked.1.log) == script::writes(st.log)
        }),
{
    broadcast use script::writes_with_another;

}

/// An enrollment that was interrupted is taken up where it was left: the intent that was stored is
/// handed out again, and nothing is changed.
pub proof fn interrupted_enrollment_is_taken_up(
    st: RunView,
    record: IdempotencyRecord,
    request_hash: String,
    provider_user_id: Uuid,
    intent: ExistingCardProvisioningIntent,
)
    requires
        idempotency::idempotency_verdict(record, request_hash) is InProgress,
        record.resource_id == Some(provider_user_id),
        resume_provider_user_intent_spec(st, provider_user_id).0 == Ok::<
            Option<ExistingCardProvisioningIntent>,
            HaltView,
        >(Some(intent)),
    ensures
        classify_idempotency_spec(st, record, request_hash).0 == Ok::<_, HaltView>(
            EnrollProviderUserPersistenceOutcome::ExistingCardPrepared(Box::new(intent)),
        ),
        script::writes(classify_idempotency_spec(st, record, request_hash).1.log)
            == script::writes(st.log),
{
    broadcast use script::writes_with_another;

}

/// A provider that has as many customers as it may have takes no one in, and nothing is changed.
pub proof fn full_provider_takes_no_one_in(
    st: RunView,
    context: MutationCommandContext,
    provider_id: Uuid,
    limit: u64,
    allow_multi_provider_attachment: bool,
    user: UserIdentity,
    enrollment: NewProviderUserEnrollment,
    current: i64,
)
    requires
        script::one_int_spec(
            st,
            COUNT_USERS_SQL@,
            seq![Bind::Id(provider_id)],
            "failed to count provider users"@,
        ).0 == Ok::<i64, HaltView>(current),
        current >= limit,
    ensures
        ({
            let (result, after) = enroll_first_time_spec(
                st,
                context,
                provider_id,
                Some(limit),
                allow_multi_provider_attachment,
                user,
                enrollment,
            );
            &&& result == Ok::<_, HaltView>(EnrollProviderUserPersistenceOutcome::UserLimitReached)
            &&& script::writes(after.log) == script::writes(st.log)
        }),
{
    broadcast use script::writes_with_another;

    reveal(enroll_first_time_spec);
}

/// A user is a customer of a provider once: unless the enrollment was rejected and comes again
/// under the same reference for a new card, it is refused, and no call is made.
pub proof fn customer_is_enrolled_once(
    st: RunView,
    context: MutationCommandContext,
    provider_id: Uuid,
    user: UserIdentity,
    enrollment: NewProviderUserEnrollment,
    existing: ExistingProviderUserRelationship,
)
    requires
        existing.status@ != "ISSUANCE_REJECTED"@ || existing.provider_customer_reference@
            != enrollment.provider_customer_reference@
            || enrollment.card_instruction is UseExisting,
    ensures
        enroll_again_spec(st, context, provider_id, user, enrollment, existing) == (
            Ok::<_, HaltView>(EnrollProviderUserPersistenceOutcome::ExistingRelationship),
            st,
        ),
{
    reveal(enroll_again_spec);
}

/// Only a customer who waits for provisioning or for its recovery is activated. Any other is a
/// conflict, and nothing is changed.
pub proof fn settled_customer_is_not_activated_again(
    st: RunView,
    context: MutationCommandContext,
    intent: ExistingCardProvisioningIntent,
    status: String,
)
    requires
        script::one_text_spec(
            st,
            STAGED_STATUS_SQL@,
            seq![Bind::Id(intent.provider_user_id)],
            "failed to lock staged provider user"@,
        ).0 == Ok::<String, HaltView>(status),
        status@ != "PROVISIONING"@,
        status@ != "RECOVERY_REQUIRED"@,
    ensures
        ({
            let (result, after) = finalize_existing_card_enrollment_atomic_spec(
                st,
                context,
                intent,
            );
            &&& result == script::conflict_fault::<ProviderUserView>(
                "provider-user provisioning state changed"@,
            )
            &&& script::writes(after.log) == script::writes(st.log)
        }),
{
    broadcast use script::writes_with_another;

}


/// Where a customer with a card is activated, the event that publishes the card is stored.
#[verifier::rlimit(60)]
pub proof fn activated_customer_is_published(
    st: RunView,
    context: MutationCommandContext,
    intent: ExistingCardProvisioningIntent,
)
    requires
        finalize_existing_card_enrollment_atomic_spec(st, context, intent).0 is Ok,
    ensures
        script::runs(
            finalize_existing_card_enrollment_atomic_spec(st, context, intent).1.log,
            CARD_OUTBOX_SQL@,
        ) > 0,
{
    broadcast use script::runs_with_another;

}

/// The card that a number names is read from its row: the card, its user and its range each from
/// their column, and its status.
pub proof fn named_card_is_read_from_its_columns(st: RunView, card_number: String)
    ensures
        resolve_existing_card_spec(st, card_number).0 matches Ok(Some(card)) ==> {
            &&& st.rest[0] matches script::Reply::Rows(found) && {
                let row = found.rows@[0];
                &&& row.id_at(0, READ_ROW@) == Ok::<Uuid, HaltView>(card.card_id)
                &&& row.id_at(1, READ_ROW@) == Ok::<Uuid, HaltView>(card.user_id)
                &&& row.id_at(2, READ_ROW@) == Ok::<Uuid, HaltView>(card.card_range_id)
                &&& row.text_at(3, READ_ROW@) == Ok::<String, HaltView>(card.status)
            }
            &&& resolve_existing_card_spec(st, card_number).1.log == st.log.push(
                script::sql_call(
                    script::Mode::QueryRow,
                    EXISTING_CARD_SQL@,
                    seq![Bind::Text(card_number)],
                    "rrrt",
                ),
            )
        },
{
}

/// A customer is enrolled on a card only where the card is the user's own, of the provider's range
/// and active, and where several providers may be attached to a card or the range has one provider
/// for each. Each refusal has its one reason, in this order, and changes nothing. A card that is
/// found and meets all of it is prepared: what follows is that the command is recorded.
pub proof fn only_an_own_card_is_attached(
    st: RunView,
    context: MutationCommandContext,
    provider_id: Uuid,
    allow_multi_provider_attachment: bool,
    user: UserIdentity,
    enrollment: NewProviderUserEnrollment,
    card_number: String,
    range: ProviderRange,
    provider_user_id: Uuid,
    enrollment_id: Uuid,
    mismatch: MismatchFields,
    card: ExistingCard,
)
    requires
        resolve_existing_card_spec(st, card_number).0 == Ok::<Option<ExistingCard>, HaltView>(
            Some(card),
        ),
    ensures
        ({
            let (result, after) = use_existing_spec(
                st,
                context,
                provider_id,
                allow_multi_provider_attachment,
                user,
                enrollment,
                card_number,
                range,
                provider_user_id,
                enrollment_id,
                mismatch,
            );
            let own = card.user_id == user.user_id;
            let in_range = card.card_range_id == range.card_range_id;
            let active = card.status@ == "ACTIVE"@;
            let shared = range.funding_mode@ == "MULTI_PROVIDER"@
                && !allow_multi_provider_attachment;
            &&& !own <==> result == Ok::<_, HaltView>(
                EnrollProviderUserPersistenceOutcome::ExistingCardOwnerMismatch,
            )
            &&& own && !in_range <==> result == Ok::<_, HaltView>(
                EnrollProviderUserPersistenceOutcome::ExistingCardRangeMismatch,
            )
            &&& own && in_range && !active <==> result == Ok::<_, HaltView>(
                EnrollProviderUserPersistenceOutcome::ExistingCardNotActive,
            )
            &&& own && in_range && active && shared <==> result == Ok::<_, HaltView>(
                EnrollProviderUserPersistenceOutcome::MultiProviderAttachmentDisabled,
            )
            &&& !(own && in_range && active && !shared) ==> result is Ok
                && script::writes(after.log)
                == script::writes(st.log)
            &&& own && in_range && active && !shared ==> {
                &&& result matches Ok(outcome) ==> (outcome matches
                    EnrollProviderUserPersistenceOutcome::ExistingCardPrepared(intent)
                    && intent.card_id == card.card_id && intent.user_id == card.user_id
                    && intent.card_range_id == card.card_range_id)
                &&& st.rest.len() == 1 ==> (result matches Err(HaltView::Ask(call))
                    && script::is_run_of(call, idempotency::IDEMPOTENCY_INSERT_SQL@))
            }
        }),
{
    broadcast use script::writes_with_another;

}

/// A number that names no card is answered so, and nothing is changed.
pub proof fn missing_card_is_not_attached(
    st: RunView,
    context: MutationCommandContext,
    provider_id: Uuid,
    allow_multi_provider_attachment: bool,
    user: UserIdentity,
    enrollment: NewProviderUserEnrollment,
    card_number: String,
    range: ProviderRange,
    provider_user_id: Uuid,
    enrollment_id: Uuid,
    mismatch: MismatchFields,
)
    requires
        resolve_existing_card_spec(st, card_number).0 == Ok::<Option<ExistingCard>, HaltView>(None),
    ensures
        use_existing_spec(
            st,
            context,
            provider_id,
            allow_multi_provider_attachment,
            user,
            enrollment,
            card_number,
            range,
            provider_user_id,
            enrollment_id,
            mismatch,
        ).0 == Ok::<_, HaltView>(
            EnrollProviderUserPersistenceOutcome::ExistingCardNotFound,
        ),
        script::writes(
            use_existing_spec(
                st,
                context,
                provider_id,
                allow_multi_provider_attachment,
                user,
                enrollment,
                card_number,
                range,
                provider_user_id,
                enrollment_id,
                mismatch,
            ).1.log,
        ) == script::writes(st.log),
{
    broadcast use script::writes_with_another;

}

/// Where an enrollment on a card is prepared, the customer, the account, the funding source of the
/// card and the intent to provision them are stored under the identifiers that are answered. The
/// funding source is that of the card, with the priority that was allocated for it.
#[verifier::rlimit(80)]
pub proof fn prepared_enrollment_is_stored(
    st: RunView,
    context: MutationCommandContext,
    provider_id: Uuid,
    user: UserIdentity,
    enrollment: NewProviderUserEnrollment,
    card: ExistingCard,
    range: ProviderRange,
    provider_user_id: Uuid,
    enrollment_id: Uuid,
    mismatch: MismatchFields,
)
    ensures
        ({
            let (result, after) = stage_existing_card_spec(
                st,
                context,
                provider_id,
                user,
                enrollment,
                card,
                range,
                provider_user_id,
                enrollment_id,
                mismatch,
            );
            let log = after.log;
            result matches Ok(outcome) ==> {
                &&& outcome matches EnrollProviderUserPersistenceOutcome::ExistingCardPrepared(
                    intent,
                )
                    && {
                    &&& intent.enrollment_id == enrollment_id
                    &&& intent.provider_user_id == provider_user_id
                    &&& intent.provider_id == provider_id
                    &&& intent.user_id == user.user_id
                    &&& intent.card_id == card.card_id
                    &&& intent.card_range_id == range.card_range_id
                    &&& script::ran(
                        log,
                        STAGE_ACCOUNT_SQL@,
                        seq![
                            Bind::Id(intent.provider_user_account_id),
                            Bind::Id(provider_user_id),
                            Bind::Id(provider_id),
                            Bind::Id(user.user_id),
                            Bind::Id(intent.provider_user_account_id),
                        ],
                    )
                    &&& exists|funding_id: Uuid, priority: i64|
                        script::ran(
                            log,
                            STAGE_FUNDING_SQL@,
                            #[trigger] funding_binds(
                                funding_id,
                                *intent,
                                priority,
                                context.actor.subject,
                            ),
                        )
                    &&& exists|usage: String|
                        script::ran(log, STAGE_WAL_SQL@, #[trigger] intent_binds(*intent, usage))
                    &&& script::ran(
                        log,
                        USAGE_MAPPING_SQL@,
                        seq![
                            Bind::Id(card.card_id),
                            Bind::Id(intent.usage_account_ids.amount_daily),
                            Bind::Id(intent.usage_account_ids.amount_weekly),
                            Bind::Id(intent.usage_account_ids.amount_monthly),
                            Bind::Id(intent.usage_account_ids.amount_yearly),
                            Bind::Id(intent.usage_account_ids.count_daily),
                            Bind::Id(intent.usage_account_ids.count_weekly),
                            Bind::Id(intent.usage_account_ids.count_monthly),
                            Bind::Id(intent.usage_account_ids.count_yearly),
                        ],
                    )
                }
                &&& script::ran(
                    log,
                    CREATE_PROVIDER_USER_SQL@,
                    customer_binds(
                        provider_user_id,
                        enrollment_id,
                        provider_id,
                        user.user_id,
                        enrollment,
                        mismatch,
                        "PROVISIONING",
                        context.actor.subject,
                    ),
                )
                &&& script::ran(
                    log,
                    BIND_INTENT_SQL@,
                    seq![
                        Bind::Id(provider_user_id),
                        Bind::Text(context.operation_type),
                        Bind::Text(context.idempotency_key),
                    ],
                )
            }
        }),
{
    broadcast use script::runs_on_with_another;

    let recorded = idempotency::insert_idempotency_record_spec(st, context.record).1;
    let stored = insert_provider_user_spec(
        recorded,
        provider_user_id,
        enrollment_id,
        provider_id,
        user.user_id,
        enrollment,
        mismatch,
        "PROVISIONING",
        context.actor.subject,
    ).1;
    let (account, named) = script::consult_id_spec(
        stored,
        Rule::ProviderUserAccount(provider_id, user.user_id),
    );
    let staged = script::execute_spec(
        named,
        STAGE_ACCOUNT_SQL@,
        seq![
            Bind::Id(account->Ok_0),
            Bind::Id(provider_user_id),
            Bind::Id(provider_id),
            Bind::Id(user.user_id),
            Bind::Id(account->Ok_0),
        ],
        "failed to stage provider-user account"@,
    ).1;
    let (priority, ranked) = next_card_priority_spec(staged, card.card_id);
    let (funding_id, fresh) = script::fresh_id_spec(ranked);
    let funding = seq![
        Bind::Id(funding_id->Ok_0),
        Bind::Id(card.card_id),
        Bind::Id(provider_id),
        Bind::Id(provider_user_id),
        Bind::Id(account->Ok_0),
        Bind::Int(priority->Ok_0),
        Bind::Text(context.actor.subject),
    ];
    let funded = script::execute_spec(
        fresh,
        STAGE_FUNDING_SQL@,
        funding,
        "failed to stage card funding source"@,
    ).1;
    let (usage, used) = script::usage_accounts_spec(funded, card.card_id);
    let mapped = ensure_usage_account_mapping_spec(used, card.card_id, usage->Ok_0).1;
    let (operation_id, opened) = script::fresh_id_spec(mapped);
    let written = script::consult_text_spec(opened, Rule::UsageAccountsDocument(usage->Ok_0)).0;
    let (result, after) = stage_existing_card_spec(
        st,
        context,
        provider_id,
        user,
        enrollment,
        card,
        range,
        provider_user_id,
        enrollment_id,
        mismatch,
    );
    if let Ok(EnrollProviderUserPersistenceOutcome::ExistingCardPrepared(intent)) = result {
        assert(funding_binds(
            funding_id->Ok_0,
            *intent,
            priority->Ok_0,
            context.actor.subject,
        ) == funding);
        assert(script::ran(after.log, STAGE_FUNDING_SQL@, funding));
        assert(script::ran(after.log, STAGE_WAL_SQL@, intent_binds(*intent, written->Ok_0)));
    }
}

/// The values that the funding source of a card is staged with: the card, the provider, the
/// customer and the account of an intent, and the priority of the source.
pub open spec fn funding_binds(
    funding_id: Uuid,
    intent: ExistingCardProvisioningIntent,
    priority: i64,
    subject: String,
) -> Seq<Bind> {
    seq![
        Bind::Id(funding_id),
        Bind::Id(intent.card_id),
        Bind::Id(intent.provider_id),
        Bind::Id(intent.provider_user_id),
        Bind::Id(intent.provider_user_account_id),
        Bind::Int(priority),
        Bind::Text(subject),
    ]
}

/// The values that an intent to provision a customer is stored with.
pub open spec fn intent_binds(intent: ExistingCardProvisioningIntent, usage: String) -> Seq<Bind> {
    seq![
        Bind::Id(intent.operation_id),
        Bind::Id(intent.provider_user_id),
        Bind::Id(intent.provider_user_account_id),
        Bind::Json(Document::ProvisioningRequest(intent, usage)),
    ]
}

/// The values with which a customer joins a request for a card, at a place among those who wait.
pub open spec fn join_binds(
    request_id: Uuid,
    provider_user_id: Uuid,
    provider_id: Uuid,
    enrollment_id: Uuid,
    order: i64,
) -> Seq<Bind> {
    seq![
        Bind::Id(request_id),
        Bind::Id(provider_user_id),
        Bind::Id(provider_id),
        Bind::Id(enrollment_id),
        Bind::Int(order),
    ]
}

/// The values that a customer of a provider is stored with: the names and the reference as the
/// provider gave them, whether they differ from those on record and in what, and the status that it
/// starts in.
pub open spec fn customer_binds(
    provider_user_id: Uuid,
    enrollment_id: Uuid,
    provider_id: Uuid,
    user_id: Uuid,
    enrollment: NewProviderUserEnrollment,
    mismatch: MismatchFields,
    status: &'static str,
    subject: String,
) -> Seq<Bind> {
    seq![
        Bind::Id(provider_user_id),
        Bind::Id(enrollment_id),
        Bind::Id(provider_id),
        Bind::Id(user_id),
        Bind::Text(enrollment.provider_customer_reference),
        Bind::Text(enrollment.first_name),
        Bind::Text(enrollment.last_name),
        Bind::Flag(differs(mismatch)),
        mismatch_bind(mismatch),
        Bind::OptText(enrollment.selection_reference),
        Bind::Label(status),
        Bind::JsonText(enrollment.metadata),
        Bind::Text(subject),
    ]
}

/// A name that differs from the one on record is flagged, each by itself, and no other is.
pub proof fn differing_names_are_flagged(user: UserIdentity, enrollment: NewProviderUserEnrollment)
    ensures
        differs(mismatch_of(user, enrollment)) <==> user.first_name@ != enrollment.first_name@
            || user.last_name@ != enrollment.last_name@,
        mismatch_bind(mismatch_of(user, enrollment)) == Bind::Label(
            if user.first_name@ == enrollment.first_name@ {
                if user.last_name@ == enrollment.last_name@ {
                    "[]"
                } else {
                    "[\"last_name\"]"
                }
            } else {
                if user.last_name@ == enrollment.last_name@ {
                    "[\"first_name\"]"
                } else {
                    "[\"first_name\",\"last_name\"]"
                }
            },
        ),
{
}

/// A new card is asked for only where the user has no active card of the range. Where it has one,
/// the provider is to choose it, and nothing is changed.
pub proof fn new_card_is_for_users_without_one(
    st: RunView,
    context: MutationCommandContext,
    provider_id: Uuid,
    user: UserIdentity,
    enrollment: NewProviderUserEnrollment,
    delivery: NewCardDelivery,
    range: ProviderRange,
    provider_user_id: Uuid,
    enrollment_id: Uuid,
    mismatch: MismatchFields,
    active: Option<Uuid>,
)
    requires
        active_card_for_user_range_spec(st, user.user_id, range.card_range_id).0 == Ok::<
            Option<Uuid>,
            HaltView,
        >(active),
    ensures
        ({
            let (result, after) = issue_new_spec(
                st,
                context,
                provider_id,
                user,
                enrollment,
                delivery,
                range,
                provider_user_id,
                enrollment_id,
                mismatch,
            );
            &&& active is Some <==> result == Ok::<_, HaltView>(
                EnrollProviderUserPersistenceOutcome::ActiveCardSelectionRequired,
            )
            &&& active is Some ==> script::writes(after.log) == script::writes(st.log)
            &&& active is None ==> (result matches Ok(outcome) ==> outcome is IssuancePending)
        }),
{
    broadcast use script::writes_with_another;

}

/// The active card of a user in a range is looked for by that user and that range.
pub proof fn active_card_is_looked_for_by_user_and_range(st: RunView, user_id: Uuid, range_id: Uuid)
    requires
        st.rest.len() > 0,
    ensures
        active_card_for_user_range_spec(st, user_id, range_id).1.log == st.log.push(
            script::sql_call(
                script::Mode::QueryRow,
                ACTIVE_CARD_SQL@,
                seq![Bind::Id(user_id), Bind::Id(range_id)],
                "r",
            ),
        ),
{
}

/// A customer who waits for a card joins the open request of the user in the range, or a new one
/// that is stored for them with the identity and the delivery given. The customer, the request, the
/// user, the provider and the range that are answered are those that are stored.
#[verifier::rlimit(80)]
pub proof fn awaited_card_is_requested(
    st: RunView,
    context: MutationCommandContext,
    provider_id: Uuid,
    user: UserIdentity,
    enrollment: NewProviderUserEnrollment,
    delivery: NewCardDelivery,
    range: ProviderRange,
    mismatch: MismatchFields,
    provider_user_id: Uuid,
    enrollment_id: Uuid,
    join_context: &'static str,
    materialization: &'static str,
)
    ensures
        ({
            let (result, after) = request_card_spec(
                st,
                context,
                provider_id,
                user,
                enrollment,
                delivery,
                range,
                mismatch,
                provider_user_id,
                enrollment_id,
                join_context,
                materialization,
            );
            result matches Ok(outcome) ==> {
                &&& outcome matches EnrollProviderUserPersistenceOutcome::IssuancePending(view) && {
                    &&& view.enrollment_id == enrollment_id
                    &&& view.provider_user_id == provider_user_id
                    &&& view.provider_id == provider_id
                    &&& view.user_id == user.user_id
                    &&& view.provider_customer_reference == enrollment.provider_customer_reference
                    &&& view.identity_mismatch == differs(mismatch)
                    &&& view.status is CardIssuancePending
                    &&& view.card_id is None
                    &&& view.card_range_id == range.card_range_id
                    &&& view.issuance_request_id is Some
                    &&& exists|order: i64|
                        script::ran(
                            after.log,
                            JOIN_REQUEST_SQL@,
                            #[trigger] join_binds(
                                view.issuance_request_id->Some_0,
                                provider_user_id,
                                provider_id,
                                enrollment_id,
                                order,
                            ),
                        )
                }
            }
        }),
{
    broadcast use script::runs_on_with_another;

    let (made, requested) = find_or_create_issuance_request_spec(
        st,
        user.user_id,
        range.card_range_id,
        enrollment,
        delivery,
        context.actor.subject,
    );
    let order = next_enrollment_order_spec(requested, made->Ok_0.0).0;
    let (result, after) = request_card_spec(
        st,
        context,
        provider_id,
        user,
        enrollment,
        delivery,
        range,
        mismatch,
        provider_user_id,
        enrollment_id,
        join_context,
        materialization,
    );
    if let Ok(EnrollProviderUserPersistenceOutcome::IssuancePending(view)) = result {
        assert(view.issuance_request_id == Some(made->Ok_0.0));
        assert(script::ran(
            after.log,
            JOIN_REQUEST_SQL@,
            join_binds(
                view.issuance_request_id->Some_0,
                provider_user_id,
                provider_id,
                enrollment_id,
                order->Ok_0,
            ),
        ));
    }
}

/// A request that is open for the user in the range is joined, and nothing is stored. Where none
/// is, a new one is stored with the user, the range, the identity and the delivery given.
pub proof fn open_request_is_joined(
    st: RunView,
    user_id: Uuid,
    range_id: Uuid,
    enrollment: NewProviderUserEnrollment,
    delivery: NewCardDelivery,
    actor: String,
)
    ensures
        ({
            let (result, after) = find_or_create_issuance_request_spec(
                st,
                user_id,
                range_id,
                enrollment,
                delivery,
                actor,
            );
            let open = script::maybe_id_spec(
                st,
                OPEN_REQUEST_SQL@,
                seq![Bind::Id(user_id), Bind::Id(range_id)],
                "failed to resolve open issuance request"@,
            ).0;
            result matches Ok(made) ==> {
                &&& open matches Ok(Some(found)) ==> made == (
                    found,
                    CardResolution::JoinedPendingIssuance,
                ) && script::writes(after.log) == script::writes(st.log)
                &&& open matches Ok(None) ==> made.1 == CardResolution::IssuanceRequested
                    && script::ran(
                    after.log,
                    CREATE_REQUEST_SQL@,
                    seq![
                        Bind::Id(made.0),
                        Bind::Id(user_id),
                        Bind::Id(range_id),
                        Bind::Json(
                            Document::IssuanceIdentity(
                                enrollment.national_id,
                                enrollment.first_name,
                                enrollment.last_name,
                                delivery.birth_date,
                            ),
                        ),
                        Bind::Json(
                            Document::IssuanceDelivery(
                                delivery.mobile,
                                delivery.delivery_province,
                                delivery.delivery_city,
                                delivery.delivery_address,
                                delivery.postal_code,
                            ),
                        ),
                        Bind::Text(actor),
                    ],
                )
            }
        }),
{
    broadcast use {script::writes_with_another, script::runs_on_with_another};

}

/// A user is found by the national identifier, with the names on record. One who is not on record
/// is stored under a new identifier with the names given.
pub proof fn user_is_found_by_the_national_identifier(
    st: RunView,
    context: MutationCommandContext,
    enrollment: NewProviderUserEnrollment,
)
    ensures
        ({
            let (result, after) = find_or_create_user_spec(st, context, enrollment);
            let found = script::maybe_row_spec(
                st,
                FIND_USER_SQL@,
                seq![Bind::Text(enrollment.national_id)],
                "rtt",
                "failed to resolve global user"@,
            ).0;
            result matches Ok(user) ==> {
                &&& found matches Ok(Some(row)) ==> row.id_at(0, READ_ROW@) == Ok::<Uuid, HaltView>(
                    user.user_id,
                ) && row.text_at(1, READ_ROW@) == Ok::<String, HaltView>(user.first_name)
                    && row.text_at(2, READ_ROW@) == Ok::<String, HaltView>(user.last_name)
                    && script::writes(after.log) == script::writes(st.log)
                &&& found matches Ok(None) ==> user.first_name == enrollment.first_name
                    && user.last_name == enrollment.last_name && script::ran(
                    after.log,
                    CREATE_USER_SQL@,
                    seq![
                        Bind::Id(user.user_id),
                        Bind::Text(enrollment.national_id),
                        Bind::Text(enrollment.first_name),
                        Bind::Text(enrollment.last_name),
                        Bind::Json(Document::Empty),
                        Bind::Text(context.actor.subject),
                    ],
                )
            }
        }),
{
    broadcast use {script::writes_with_another, script::runs_on_with_another};

}

/// A provider may take another customer in where it has no limit, or fewer customers than the
/// limit. A count that is no count leaves no room.
pub proof fn there_is_room_below_the_limit(
    st: RunView,
    provider_id: Uuid,
    max_total_users: Option<u64>,
)
    ensures
        max_total_users is None ==> within_limit_spec(st, provider_id, max_total_users) == (
            Ok::<bool, HaltView>(true),
            st,
        ),
        max_total_users matches Some(limit) ==> (script::one_int_spec(
            st,
            COUNT_USERS_SQL@,
            seq![Bind::Id(provider_id)],
            "failed to count provider users"@,
        ).0 matches Ok(current) ==> within_limit_spec(st, provider_id, max_total_users).0 == Ok::<
            bool,
            HaltView,
        >(0 <= current < limit)),
{
}

/// The instruction decides how a new customer gets a card: on a card that is named no card is asked
/// for, and one for a new card is put on none that exists. The range is the one that the provider
/// issues cards in; without it no one is enrolled.
pub proof fn instruction_decides_how_a_card_is_had(
    st: RunView,
    context: MutationCommandContext,
    provider_id: Uuid,
    max_total_users: Option<u64>,
    allow_multi_provider_attachment: bool,
    user: UserIdentity,
    enrollment: NewProviderUserEnrollment,
)
    ensures
        ({
            let result = enroll_first_time_spec(
                st,
                context,
                provider_id,
                max_total_users,
                allow_multi_provider_attachment,
                user,
                enrollment,
            ).0;
            result matches Ok(outcome) ==> {
                &&& outcome is ExistingCardPrepared || outcome is ExistingCardNotFound || outcome
                    is ExistingCardOwnerMismatch || outcome is ExistingCardRangeMismatch || outcome
                    is ExistingCardNotActive || outcome is MultiProviderAttachmentDisabled
                    ==> enrollment.card_instruction is UseExisting
                &&& outcome is IssuancePending || outcome is ActiveCardSelectionRequired
                    ==> enrollment.card_instruction is IssueNew
                &&& outcome matches EnrollProviderUserPersistenceOutcome::ExistingCardPrepared(
                    intent,
                )
                    ==> intent.provider_id == provider_id && intent.user_id == user.user_id
                &&& outcome matches EnrollProviderUserPersistenceOutcome::IssuancePending(view)
                    ==> view.provider_id == provider_id && view.user_id == user.user_id
                    && view.identity_mismatch == (user.first_name@ != enrollment.first_name@
                    || user.last_name@ != enrollment.last_name@)
            }
        }),
        ({
            let (room, counted) = within_limit_spec(st, provider_id, max_total_users);
            let found = resolve_provider_range_spec(counted, provider_id).0;
            let result = enroll_first_time_spec(
                st,
                context,
                provider_id,
                max_total_users,
                allow_multi_provider_attachment,
                user,
                enrollment,
            ).0;
            &&& room == Ok::<bool, HaltView>(false) <==> result == Ok::<_, HaltView>(
                EnrollProviderUserPersistenceOutcome::UserLimitReached,
            )
            &&& room == Ok::<bool, HaltView>(true)
                && found == Ok::<Option<ProviderRange>, HaltView>(
                None,
            ) <==> result == Ok::<_, HaltView>(EnrollProviderUserPersistenceOutcome::RangeNotReady)
            &&& room == Ok::<bool, HaltView>(true)
                && (found matches Ok(Some(range)) && (result matches
                Ok(outcome) ==> match outcome {
                EnrollProviderUserPersistenceOutcome::ExistingCardPrepared(intent) =>
                    intent.card_range_id == range.card_range_id,
                EnrollProviderUserPersistenceOutcome::IssuancePending(view) => view.card_range_id
                    == range.card_range_id,
                _ => true,
            })) || !(room == Ok::<bool, HaltView>(true) && found matches Ok(Some(_)))
        }),
{
    reveal(enroll_first_time_spec);
}

/// The range that a provider issues cards in is read from its row.
pub proof fn provider_range_is_read_from_its_columns(st: RunView, provider_id: Uuid)
    ensures
        resolve_provider_range_spec(st, provider_id).0 matches Ok(Some(range)) ==> {
            &&& st.rest[0] matches script::Reply::Rows(found) && found.rows@[0].id_at(0, READ_ROW@)
                == Ok::<Uuid, HaltView>(range.card_range_id) && found.rows@[0].text_at(1, READ_ROW@)
                == Ok::<String, HaltView>(range.funding_mode)
            &&& resolve_provider_range_spec(st, provider_id).1.log == st.log.push(
                script::sql_call(
                    script::Mode::QueryRow,
                    PROVIDER_RANGE_SQL@,
                    seq![Bind::Id(provider_id)],
                    "rt",
                ),
            )
        },
{
}

/// A rejected customer who comes again under the same reference for a new card is enrolled anew
/// under the identifier that the customer has. Without a range, or with an active card, the
/// enrollment is refused.
#[verifier::rlimit(60)]
pub proof fn rejected_customer_is_enrolled_anew(
    st: RunView,
    context: MutationCommandContext,
    provider_id: Uuid,
    user: UserIdentity,
    enrollment: NewProviderUserEnrollment,
    existing: ExistingProviderUserRelationship,
)
    ensures
        ({
            let result = enroll_again_spec(st, context, provider_id, user, enrollment, existing).0;
            result matches Ok(outcome) ==> {
                &&& outcome is ExistingRelationship <==> (existing.status@ != "ISSUANCE_REJECTED"@
                    || existing.provider_customer_reference@
                    != enrollment.provider_customer_reference@ || enrollment.card_instruction
                    is UseExisting)
                &&& outcome is ExistingRelationship || outcome is RangeNotReady || outcome
                    is ActiveCardSelectionRequired || outcome is IssuancePending
                &&& outcome matches EnrollProviderUserPersistenceOutcome::IssuancePending(view)
                    ==> view.provider_user_id == existing.provider_user_id && view.provider_id
                    == provider_id && view.user_id == user.user_id
            }
        }),
{
    reveal(enroll_again_spec);
}

/// Where a customer is enrolled anew, the customer's own row is opened again with what the provider
/// now gives.
#[verifier::rlimit(80)]
pub proof fn reopened_enrollment_is_stored(
    st: RunView,
    context: MutationCommandContext,
    provider_id: Uuid,
    user: UserIdentity,
    enrollment: NewProviderUserEnrollment,
    delivery: NewCardDelivery,
    existing: ExistingProviderUserRelationship,
)
    ensures
        ({
            let (result, after) = reopen_enrollment_spec(
                st,
                context,
                provider_id,
                user,
                enrollment,
                delivery,
                existing,
            );
            result matches Ok(EnrollProviderUserPersistenceOutcome::IssuancePending(view))
                ==> script::ran(
                after.log,
                REOPEN_SQL@,
                seq![
                    Bind::Id(view.enrollment_id),
                    Bind::Text(enrollment.first_name),
                    Bind::Text(enrollment.last_name),
                    Bind::Flag(differs(mismatch_of(user, enrollment))),
                    mismatch_bind(mismatch_of(user, enrollment)),
                    Bind::OptText(enrollment.selection_reference),
                    Bind::JsonText(enrollment.metadata),
                    Bind::Text(context.actor.subject),
                    Bind::Id(existing.provider_user_id),
                ],
            )
        }),
{
    broadcast use script::runs_on_with_another;

}

/// Where a new customer waits for a card, the customer is stored as waiting.
#[verifier::rlimit(80)]
pub proof fn waiting_customer_is_stored(
    st: RunView,
    context: MutationCommandContext,
    provider_id: Uuid,
    user: UserIdentity,
    enrollment: NewProviderUserEnrollment,
    delivery: NewCardDelivery,
    range: ProviderRange,
    provider_user_id: Uuid,
    enrollment_id: Uuid,
    mismatch: MismatchFields,
)
    ensures
        ({
            let (result, after) = issue_new_spec(
                st,
                context,
                provider_id,
                user,
                enrollment,
                delivery,
                range,
                provider_user_id,
                enrollment_id,
                mismatch,
            );
            result matches Ok(EnrollProviderUserPersistenceOutcome::IssuancePending(view)) ==> {
                &&& view.provider_user_id == provider_user_id
                &&& view.enrollment_id == enrollment_id
                &&& script::ran(
                    after.log,
                    CREATE_PROVIDER_USER_SQL@,
                    customer_binds(
                        provider_user_id,
                        enrollment_id,
                        provider_id,
                        user.user_id,
                        enrollment,
                        mismatch,
                        "CARD_ISSUANCE_PENDING",
                        context.actor.subject,
                    ),
                )
            }
        }),
{
    broadcast use script::runs_on_with_another;

}

/// An enrollment without a record is refused for a provider that is missing or not active, and for
/// an operational profile that is not the one in force. Each has its own answer, and each is given
/// only then.
#[verifier::rlimit(60)]
pub proof fn enrollment_is_refused_for_one_reason(
    st: RunView,
    context: MutationCommandContext,
    provider_id: Uuid,
    operational_profile_id: Uuid,
    max_total_users: Option<u64>,
    allow_multi_provider_attachment: bool,
    enrollment: NewProviderUserEnrollment,
    found: Option<String>,
)
    requires
        ({
            let (looked, at) = idempotency::fetch_idempotency_record_spec(
                st,
                context.operation_type,
                context.idempotency_key,
            );
            &&& looked == Ok::<Option<IdempotencyRecord>, HaltView>(None)
            &&& script::maybe_text_spec(
                at,
                PROVIDER_STATUS_SQL@,
                seq![Bind::Id(provider_id)],
                "failed to lock provider"@,
            ).0 == Ok::<Option<String>, HaltView>(found)
        }),
    ensures
        ({
            let result = prepare_provider_user_enrollment_atomic_spec(
                st,
                context,
                provider_id,
                operational_profile_id,
                max_total_users,
                allow_multi_provider_attachment,
                enrollment,
            ).0;
            let at = idempotency::fetch_idempotency_record_spec(
                st,
                context.operation_type,
                context.idempotency_key,
            ).1;
            let locked = script::maybe_text_spec(
                at,
                PROVIDER_STATUS_SQL@,
                seq![Bind::Id(provider_id)],
                "failed to lock provider"@,
            ).1;
            let active = found matches Some(status) && status@ == "ACTIVE"@;
            let profiles = script::one_int_spec(
                locked,
                PROFILE_IN_FORCE_SQL@,
                seq![Bind::Id(operational_profile_id), Bind::Id(provider_id)],
                "failed to verify provider operational profile"@,
            ).0;
            &&& found is None <==> result == Ok::<_, HaltView>(
                EnrollProviderUserPersistenceOutcome::ProviderNotFound,
            )
            &&& found is Some && !active <==> result == Ok::<_, HaltView>(
                EnrollProviderUserPersistenceOutcome::ProviderNotActive,
            )
            &&& active && (profiles matches Ok(n) && n != 1) <==> result == Ok::<_, HaltView>(
                EnrollProviderUserPersistenceOutcome::OperationalProfileChanged,
            )
        }),
{
    reveal(enroll_first_time_spec);
    reveal(enroll_again_spec);
}

/// Where a customer is activated, the customer, the account, the funding sources and the counters
/// of the card are told to be active, and the intent that was stored is told to be verified.
#[verifier::rlimit(80)]
pub proof fn activated_customer_is_told_as_active(
    st: RunView,
    context: MutationCommandContext,
    intent: ExistingCardProvisioningIntent,
)
    requires
        finalize_existing_card_enrollment_atomic_spec(st, context, intent).0 is Ok,
    ensures
        ({
            let log = finalize_existing_card_enrollment_atomic_spec(st, context, intent).1.log;
            let customer = seq![Bind::Id(intent.provider_user_id)];
            &&& script::ran(log, ACTIVATE_USER_SQL@, customer)
            &&& script::ran(log, ACTIVATE_ACCOUNT_SQL@, customer)
            &&& script::ran(log, ACTIVATE_FUNDING_SQL@, customer)
            &&& script::ran(log, ACTIVATE_USAGE_SQL@, seq![Bind::Id(intent.card_id)])
            &&& script::ran(
                log,
                COMPLETE_WAL_SQL@,
                seq![Bind::Json(Document::Verified), Bind::Id(intent.operation_id)],
            )
            &&& script::one_text_spec(
                st,
                STAGED_STATUS_SQL@,
                seq![Bind::Id(intent.provider_user_id)],
                "failed to lock staged provider user"@,
            ).0 matches Ok(status) && (status@ == "PROVISIONING"@ || status@
                == "RECOVERY_REQUIRED"@)
        }),
{
    broadcast use script::runs_on_with_another;

}

/// Where provisioning failed, the customer, the account and the funding source are told to need
/// recovery, and the intent is told to have failed, with the code given. Nothing else is changed.
pub proof fn failed_provisioning_is_told(
    st: RunView,
    provider_user_id: Uuid,
    operation_id: Uuid,
    safe_error_code: &'static str,
)
    requires
        mark_provider_user_provisioning_failed_spec(
            st,
            provider_user_id,
            operation_id,
            safe_error_code,
        ).0 is Ok,
    ensures
        ({
            let customer = seq![Bind::Id(provider_user_id)];
            mark_provider_user_provisioning_failed_spec(
                st,
                provider_user_id,
                operation_id,
                safe_error_code,
            ).1.log == st.log.push(
                script::change(RECOVER_USER_SQL@, customer),
            ).push(script::change(RECOVER_ACCOUNT_SQL@, customer)).push(
                script::change(RECOVER_FUNDING_SQL@, customer),
            ).push(
                script::change(
                    FAIL_WAL_SQL@,
                    seq![Bind::Json(Document::ErrorCode(safe_error_code)), Bind::Id(operation_id)],
                ),
            )
        }),
{
}

/// The cap of a funding source is the stored one; a negative one is refused.
pub proof fn cap_is_the_stored_one(max_amount: Option<i64>)
    ensures
        max_amount is None ==> funding_cap_spec(max_amount) == Ok::<Option<u64>, HaltView>(None),
        max_amount matches Some(cap) ==> (cap < 0 <==> funding_cap_spec(max_amount) is Err),
        funding_cap_spec(max_amount) matches Ok(Some(cap)) ==> max_amount == Some(cap as i64) && cap
            <= i64::MAX,
{
}

/// A card of a user is read from its columns, with the providers that its own rows name.
pub proof fn user_card_is_read_from_its_columns(
    st: RunView,
    row: Row,
)
    ensures
        map_user_card_spec(st, row).0 matches Ok(card) ==> {
            &&& row.id_at(0, READ_ROW@) == Ok::<Uuid, HaltView>(card.card_id)
            &&& row.id_at(2, READ_ROW@) == Ok::<Uuid, HaltView>(card.card_range_id)
            &&& row.text_at(3, READ_ROW@) == Ok::<String, HaltView>(card.status)
            &&& row.int_at(4, READ_ROW@) == Ok::<i64, HaltView>(card.state_version)
            &&& row.int_at(5, READ_ROW@) == Ok::<i64, HaltView>(card.materialized_version)
            &&& st.rest[0] matches script::Reply::Rows(listed)
            &&& map_provider_ids_spec(listed.rows@, 0, Seq::empty()) == Ok::<_, HaltView>(
                card.provider_ids,
            )
        },
{
}

/// What a card is projected to is read from its columns, and it has a funding source.
#[verifier::rlimit(40)]
pub proof fn projected_card_is_read_from_its_columns(
    st: RunView,
    card_id: Uuid,
)
    ensures
        load_card_profile_projection_spec(st, card_id).0 matches Ok(
            (partition_key, base, sources),
        ) ==> {
            &&& st.rest[0] matches script::Reply::Rows(found)
            &&& st.rest[1] matches script::Reply::Rows(listed)
            &&& found.rows@[0].text_at(0, READ_ROW@) == Ok::<String, HaltView>(partition_key)
            &&& base.card_id == card_id
            &&& found.rows@[0].id_at(1, READ_ROW@) == Ok::<Uuid, HaltView>(base.user_id)
            &&& found.rows@[0].id_at(2, READ_ROW@) == Ok::<Uuid, HaltView>(base.card_range_id)
            &&& found.rows@[0].text_at(3, READ_ROW@) == Ok::<String, HaltView>(base.funding_mode)
            &&& found.rows@[0].int_at(4, READ_ROW@) == Ok::<i64, HaltView>(base.state_version)
            &&& map_funding_sources_spec(
                listed.rows@,
                0,
                Seq::empty(),
            ) == Ok::<_, HaltView>(sources)
            &&& sources.len() > 0
        },
{
}

/// A funding source has a rank that can be told.
pub proof fn rank_of_a_source_can_be_told(row: Row)
    ensures
        map_funding_source_spec(row) is Ok ==> (row.int_at(1, READ_ROW@) matches Ok(priority) && 0
            <= priority <= 65535),
{
    reveal(map_funding_source_spec);
}

/// Each value is read from its own column: the provider of a user that a row holds.
#[verifier::rlimit(60)]
pub proof fn map_user_provider_is_read_by_column(
    st: RunView,
    row: Row,
)
    ensures
        map_user_provider_spec(st, row).0 matches Ok(read) ==> {
            &&& read.provider_id == row.id_at(0, READ_ROW@)->Ok_0
            &&& read.provider_user_id == row.id_at(1, READ_ROW@)->Ok_0
            &&& read.provider_user_status == (
                ProviderUserStatus::of_code(row.text_at(2, READ_ROW@)->Ok_0@)
            )->Some_0
            &&& read.provider_user_account_id == script::opt_id_of(
                row.opt_raw_at(3, READ_ROW@)->Ok_0,
            )->Ok_0
            &&& read.card_id == script::opt_id_of(row.opt_raw_at(4, READ_ROW@)->Ok_0)->Ok_0
            &&& read.card_range_id == script::opt_id_of(row.opt_raw_at(6, READ_ROW@)->Ok_0)->Ok_0
            &&& read.created_at == script::time_of(
                row.text_at(7, READ_ROW@)->Ok_0@,
                "invalid Oracle timestamp"@,
            )->Ok_0
        },
{
}

/// What is asked first, and with which values, in a run that does this:
/// a page of the customers of a provider, newest first.
pub proof fn list_provider_users_asks_first(
    st: RunView,
    provider_id: Uuid,
    status: Option<ProviderUserStatus>,
    cursor: Option<ProviderUserCursor>,
    limit: u16,
)
    requires
        st.rest.len() == 0,
    ensures
        list_provider_users_spec(
            st,
            provider_id,
            status,
            cursor,
            limit,
        ).0 matches Err(HaltView::Ask(asked))
            && (
                asked matches script::CallView::Sql { sql, binds, .. }
                    && sql == LIST_PROVIDER_USERS_SQL@
                    && binds == seq![
                        Bind::Id(provider_id),
                        Bind::OptLabel(status_filter_spec(status)),
                        Bind::OptLabel(status_filter_spec(status)),
                        Bind::OptTime(cursor_time_spec(cursor)),
                        Bind::OptTime(cursor_time_spec(cursor)),
                        Bind::OptTime(cursor_time_spec(cursor)),
                        Bind::OptId(cursor_id_spec(cursor)),
                        Bind::Int(page::fetch_limit_spec(limit)),
                    ]
            ),
{
}

/// What is asked first, and with which values, in a run that does this:
/// a customer of a provider.
pub proof fn get_provider_user_record_asks_first(
    st: RunView,
    provider_id: Uuid,
    user_id: Uuid,
)
    requires
        st.rest.len() == 0,
    ensures
        get_provider_user_record_spec(st, provider_id, user_id).0 matches Err(HaltView::Ask(asked))
            && (
                asked matches script::CallView::Sql { sql, binds, .. } && sql == PROVIDER_USER_SQL@
                    && binds == seq![Bind::Id(provider_id), Bind::Id(user_id)]
            ),
{
}

/// What is asked first, and with which values, in a run that does this:
/// locks a national number, so that it gets one user.
pub proof fn lock_national_identity_asks_first(
    st: RunView,
    national_id: String,
)
    requires
        st.rest.len() == 0,
    ensures
        lock_national_identity_spec(st, national_id).0 matches Err(HaltView::Ask(asked))
            && (
                asked matches script::CallView::Sql { sql, binds, .. }
                    && sql == ALLOCATE_IDENTITY_SQL@ && binds == seq![Bind::Digest(national_id)]
            ),
{
}

/// What the database is told, and with which values, where a run succeeds that does this:
/// locks a national number, so that it gets one user.
#[verifier::rlimit(60)]
pub proof fn lock_national_identity_is_told(
    st: RunView,
    national_id: String,
)
    ensures
        ({
            let (ended, after) = lock_national_identity_spec(st, national_id);
            let log = after.log;
            ended is Ok ==> {
                &&& script::ran(log, ALLOCATE_IDENTITY_SQL@, seq![Bind::Digest(national_id)])
            }
        }),
{
    broadcast use {script::runs_on_with_another, script::told_where_with_another};

}

/// What is asked first, and with which values, in a run that does this:
/// the user with a national number, who is stored where there is none.
pub proof fn find_or_create_user_asks_first(
    st: RunView,
    context: MutationCommandContext,
    enrollment: NewProviderUserEnrollment,
)
    requires
        st.rest.len() == 0,
    ensures
        find_or_create_user_spec(st, context, enrollment).0 matches Err(HaltView::Ask(asked))
            && (
                asked matches script::CallView::Sql { sql, binds, .. } && sql == FIND_USER_SQL@
                    && binds == seq![Bind::Text(enrollment.national_id)]
            ),
{
}

/// What is asked first, and with which values, in a run that does this:
/// the customer that a user is of a provider, where there is one.
pub proof fn find_relationship_asks_first(
    st: RunView,
    provider_id: Uuid,
    user_id: Uuid,
)
    requires
        st.rest.len() == 0,
    ensures
        find_relationship_spec(st, provider_id, user_id).0 matches Err(HaltView::Ask(asked))
            && (
                asked matches script::CallView::Sql { sql, binds, .. } && sql == RELATIONSHIP_SQL@
                    && binds == seq![Bind::Id(provider_id), Bind::Id(user_id)]
            ),
{
}

/// Each value is read from its own column: the customer that a user is of a provider, where there
/// is one.
#[verifier::rlimit(60)]
pub proof fn find_relationship_is_read_by_column(
    st: RunView,
    provider_id: Uuid,
    user_id: Uuid,
)
    ensures
        find_relationship_spec(st, provider_id, user_id).0 matches Ok(Some(read)) ==> {
            &&& read.provider_user_id == st.rest[0]->Rows_0.rows@[0].id_at(0, READ_ROW@)->Ok_0
            &&& read.provider_customer_reference == st.rest[0]->Rows_0.rows@[0].text_at(
                1,
                READ_ROW@,
            )->Ok_0
            &&& read.status == st.rest[0]->Rows_0.rows@[0].text_at(2, READ_ROW@)->Ok_0
        },
{
}

/// What is asked first, and with which values, in a run that does this:
/// the range in which a provider issues cards, where there is one.
pub proof fn resolve_provider_range_asks_first(
    st: RunView,
    provider_id: Uuid,
)
    requires
        st.rest.len() == 0,
    ensures
        resolve_provider_range_spec(st, provider_id).0 matches Err(HaltView::Ask(asked))
            && (
                asked matches script::CallView::Sql { sql, binds, .. } && sql == PROVIDER_RANGE_SQL@
                    && binds == seq![Bind::Id(provider_id)]
            ),
{
}

/// What is asked first, and with which values, in a run that does this:
/// the card with a number, where there is one.
pub proof fn resolve_existing_card_asks_first(
    st: RunView,
    card_number: String,
)
    requires
        st.rest.len() == 0,
    ensures
        resolve_existing_card_spec(st, card_number).0 matches Err(HaltView::Ask(asked))
            && (
                asked matches script::CallView::Sql { sql, binds, .. } && sql == EXISTING_CARD_SQL@
                    && binds == seq![Bind::Text(card_number)]
            ),
{
}

/// What is asked first, and with which values, in a run that does this:
/// stores a customer of a provider.
pub proof fn insert_provider_user_asks_first(
    st: RunView,
    provider_user_id: Uuid,
    enrollment_id: Uuid,
    provider_id: Uuid,
    user_id: Uuid,
    enrollment: NewProviderUserEnrollment,
    mismatch: MismatchFields,
    status: &'static str,
    actor: String,
)
    requires
        st.rest.len() == 0,
    ensures
        insert_provider_user_spec(
            st,
            provider_user_id,
            enrollment_id,
            provider_id,
            user_id,
            enrollment,
            mismatch,
            status,
            actor,
        ).0 matches Err(HaltView::Ask(asked))
            && (
                asked matches script::CallView::Sql { sql, binds, .. }
                    && sql == CREATE_PROVIDER_USER_SQL@
                    && binds == seq![
                        Bind::Id(provider_user_id),
                        Bind::Id(enrollment_id),
                        Bind::Id(provider_id),
                        Bind::Id(user_id),
                        Bind::Text(enrollment.provider_customer_reference),
                        Bind::Text(enrollment.first_name),
                        Bind::Text(enrollment.last_name),
                        Bind::Flag(differs(mismatch)),
                        mismatch_bind(mismatch),
                        Bind::OptText(enrollment.selection_reference),
                        Bind::Label(status),
                        Bind::JsonText(enrollment.metadata),
                        Bind::Text(actor),
                    ]
            ),
{
}

/// What the database is told, and with which values, where a run succeeds that does this:
/// stores a customer of a provider.
#[verifier::rlimit(60)]
pub proof fn insert_provider_user_is_told(
    st: RunView,
    provider_user_id: Uuid,
    enrollment_id: Uuid,
    provider_id: Uuid,
    user_id: Uuid,
    enrollment: NewProviderUserEnrollment,
    mismatch: MismatchFields,
    status: &'static str,
    actor: String,
)
    ensures
        ({
            let (ended, after) = insert_provider_user_spec(
                st,
                provider_user_id,
                enrollment_id,
                provider_id,
                user_id,
                enrollment,
                mismatch,
                status,
                actor,
            );
            let log = after.log;
            ended is Ok ==> {
                &&& script::ran(
                    log,
                    CREATE_PROVIDER_USER_SQL@,
                    seq![
                        Bind::Id(provider_user_id),
                        Bind::Id(enrollment_id),
                        Bind::Id(provider_id),
                        Bind::Id(user_id),
                        Bind::Text(enrollment.provider_customer_reference),
                        Bind::Text(enrollment.first_name),
                        Bind::Text(enrollment.last_name),
                        Bind::Flag(differs(mismatch)),
                        mismatch_bind(mismatch),
                        Bind::OptText(enrollment.selection_reference),
                        Bind::Label(status),
                        Bind::JsonText(enrollment.metadata),
                        Bind::Text(actor),
                    ],
                )
            }
        }),
{
    broadcast use {script::runs_on_with_another, script::told_where_with_another};

}

/// What is asked first, and with which values, in a run that does this:
/// the open card issuance of a user in a range, which is stored where there is none.
pub proof fn find_or_create_issuance_request_asks_first(
    st: RunView,
    user_id: Uuid,
    range_id: Uuid,
    enrollment: NewProviderUserEnrollment,
    delivery: NewCardDelivery,
    actor: String,
)
    requires
        st.rest.len() == 0,
    ensures
        find_or_create_issuance_request_spec(
            st,
            user_id,
            range_id,
            enrollment,
            delivery,
            actor,
        ).0 matches Err(HaltView::Ask(asked))
            && (
                asked matches script::CallView::Sql { sql, binds, .. } && sql == OPEN_REQUEST_SQL@
                    && binds == seq![Bind::Id(user_id), Bind::Id(range_id)]
            ),
{
}

/// What is asked first, and with which values, in a run that does this:
/// stores the accounts that count what a card spends, where they are missing.
pub proof fn ensure_usage_account_mapping_asks_first(
    st: RunView,
    card_id: Uuid,
    ids: PolicyUsageAccountIds,
)
    requires
        st.rest.len() == 0,
    ensures
        ensure_usage_account_mapping_spec(st, card_id, ids).0 matches Err(HaltView::Ask(asked))
            && (
                asked matches script::CallView::Sql { sql, binds, .. } && sql == USAGE_MAPPING_SQL@
                    && binds == seq![
                        Bind::Id(card_id),
                        Bind::Id(ids.amount_daily),
                        Bind::Id(ids.amount_weekly),
                        Bind::Id(ids.amount_monthly),
                        Bind::Id(ids.amount_yearly),
                        Bind::Id(ids.count_daily),
                        Bind::Id(ids.count_weekly),
                        Bind::Id(ids.count_monthly),
                        Bind::Id(ids.count_yearly),
                    ]
            ),
{
}

/// What the database is told, and with which values, where a run succeeds that does this:
/// stores the accounts that count what a card spends, where they are missing.
#[verifier::rlimit(60)]
pub proof fn ensure_usage_account_mapping_is_told(
    st: RunView,
    card_id: Uuid,
    ids: PolicyUsageAccountIds,
)
    ensures
        ({
            let (ended, after) = ensure_usage_account_mapping_spec(st, card_id, ids);
            let log = after.log;
            ended is Ok ==> {
                &&& script::ran(
                    log,
                    USAGE_MAPPING_SQL@,
                    seq![
                        Bind::Id(card_id),
                        Bind::Id(ids.amount_daily),
                        Bind::Id(ids.amount_weekly),
                        Bind::Id(ids.amount_monthly),
                        Bind::Id(ids.amount_yearly),
                        Bind::Id(ids.count_daily),
                        Bind::Id(ids.count_weekly),
                        Bind::Id(ids.count_monthly),
                        Bind::Id(ids.count_yearly),
                    ],
                )
            }
        }),
{
    broadcast use {script::runs_on_with_another, script::told_where_with_another};

}

/// What is asked first, and with which values, in a run that does this:
/// the intent behind a customer who is being provisioned, where there is one.
pub proof fn resume_provider_user_intent_asks_first(
    st: RunView,
    provider_user_id: Uuid,
)
    requires
        st.rest.len() == 0,
    ensures
        resume_provider_user_intent_spec(st, provider_user_id).0 matches Err(HaltView::Ask(asked))
            && (
                asked matches script::CallView::Sql { sql, binds, .. } && sql == RESUME_SQL@
                    && binds == seq![Bind::Id(provider_user_id)]
            ),
{
}

/// Each value is read from its own column: the intent behind a customer who is being provisioned,
/// where there is one.
#[verifier::rlimit(60)]
pub proof fn resume_provider_user_intent_is_read_by_column(
    st: RunView,
    provider_user_id: Uuid,
)
    ensures
        resume_provider_user_intent_spec(st, provider_user_id).0 matches Ok(Some(read)) ==> {
            &&& read.operation_id == st.rest[0]->Rows_0.rows@[0].id_at(0, READ_ROW@)->Ok_0
            &&& read.enrollment_id == st.rest[0]->Rows_0.rows@[0].id_at(1, READ_ROW@)->Ok_0
            &&& read.provider_user_id == provider_user_id
            &&& read.provider_id == st.rest[0]->Rows_0.rows@[0].id_at(2, READ_ROW@)->Ok_0
            &&& read.user_id == st.rest[0]->Rows_0.rows@[0].id_at(3, READ_ROW@)->Ok_0
            &&& read.card_id == st.rest[0]->Rows_0.rows@[0].id_at(4, READ_ROW@)->Ok_0
            &&& read.card_range_id == st.rest[0]->Rows_0.rows@[0].id_at(5, READ_ROW@)->Ok_0
            &&& read.provider_user_account_id == st.rest[0]->Rows_0.rows@[0].id_at(
                6,
                READ_ROW@,
            )->Ok_0
            &&& read.usage_account_ids.amount_daily == st.rest[0]->Rows_0.rows@[0].id_at(
                7,
                READ_ROW@,
            )->Ok_0
            &&& read.usage_account_ids.amount_weekly == st.rest[0]->Rows_0.rows@[0].id_at(
                8,
                READ_ROW@,
            )->Ok_0
            &&& read.usage_account_ids.amount_monthly == st.rest[0]->Rows_0.rows@[0].id_at(
                9,
                READ_ROW@,
            )->Ok_0
            &&& read.usage_account_ids.amount_yearly == st.rest[0]->Rows_0.rows@[0].id_at(
                10,
                READ_ROW@,
            )->Ok_0
            &&& read.usage_account_ids.count_daily == st.rest[0]->Rows_0.rows@[0].id_at(
                11,
                READ_ROW@,
            )->Ok_0
            &&& read.usage_account_ids.count_weekly == st.rest[0]->Rows_0.rows@[0].id_at(
                12,
                READ_ROW@,
            )->Ok_0
            &&& read.usage_account_ids.count_monthly == st.rest[0]->Rows_0.rows@[0].id_at(
                13,
                READ_ROW@,
            )->Ok_0
            &&& read.usage_account_ids.count_yearly == st.rest[0]->Rows_0.rows@[0].id_at(
                14,
                READ_ROW@,
            )->Ok_0
        },
{
}

/// Each value is read from its own column: the funding source that a row holds.
#[verifier::rlimit(60)]
pub proof fn map_funding_source_is_read_by_column(
    row: Row,
)
    ensures
        map_funding_source_spec(row) matches Ok(read) ==> {
            &&& read.provider_id == row.id_at(0, READ_ROW@)->Ok_0
            &&& read.max_amount_rials == funding_cap_spec(row.opt_int_at(2, READ_ROW@)->Ok_0)->Ok_0
            &&& read.ledger_accounts.user_provider_account == row.id_at(3, READ_ROW@)->Ok_0
            &&& read.ledger_accounts.provider_fee_account == row.id_at(4, READ_ROW@)->Ok_0
            &&& read.ledger_accounts.cms_settlement_account == row.id_at(5, READ_ROW@)->Ok_0
            &&& read.ledger_accounts.platform_fee_account == row.id_at(6, READ_ROW@)->Ok_0
        },
{
    reveal(map_funding_source_spec);
}

/// What is asked first, and with which values, in a run that does this:
/// a card as the runtime is told of it.
pub proof fn load_card_profile_projection_asks_first(
    st: RunView,
    card_id: Uuid,
)
    requires
        st.rest.len() == 0,
    ensures
        load_card_profile_projection_spec(st, card_id).0 matches Err(HaltView::Ask(asked))
            && (
                asked matches script::CallView::Sql { sql, binds, .. }
                    && sql == PROJECTION_BASE_SQL@ && binds == seq![Bind::Id(card_id)]
            ),
{
}

/// What is asked first, and with which values, in a run that does this:
/// activates a customer whose account was provisioned, and publishes the card.
pub proof fn finalize_existing_card_enrollment_atomic_asks_first(
    st: RunView,
    context: MutationCommandContext,
    intent: ExistingCardProvisioningIntent,
)
    requires
        st.rest.len() == 0,
    ensures
        finalize_existing_card_enrollment_atomic_spec(st, context, intent).0 matches Err(
            HaltView::Ask(asked),
        )
            && (
                asked matches script::CallView::Sql { sql, binds, .. } && sql == STAGED_STATUS_SQL@
                    && binds == seq![Bind::Id(intent.provider_user_id)]
            ),
{
}

/// What is asked first, and with which values, in a run that does this:
/// marks a customer, the account and the funding source for recovery, and the intent as failed.
pub proof fn mark_provider_user_provisioning_failed_asks_first(
    st: RunView,
    provider_user_id: Uuid,
    operation_id: Uuid,
    safe_error_code: &'static str,
)
    requires
        st.rest.len() == 0,
    ensures
        mark_provider_user_provisioning_failed_spec(
            st,
            provider_user_id,
            operation_id,
            safe_error_code,
        ).0 matches Err(HaltView::Ask(asked))
            && (
                asked matches script::CallView::Sql { sql, binds, .. } && sql == RECOVER_USER_SQL@
                    && binds == seq![Bind::Id(provider_user_id)]
            ),
{
}

} // verus!
