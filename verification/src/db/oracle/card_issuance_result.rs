//! Results of card issuances.
use vstd::prelude::*;
use crate::db::oracle::answers;
use crate::db::oracle::audit;
use crate::db::oracle::binds;
use crate::db::oracle::card_issuance;
use crate::db::oracle::consult::{Attachment, AttachmentView, Rule};
use crate::db::oracle::document;
use crate::db::oracle::document::{Document, Snapshot};
use crate::db::oracle::idempotency;
use crate::db::oracle::idempotency::IdempotencyVerdict;
use crate::db::oracle::provider_user;
use crate::db::oracle::provider_user::ExistingCardProvisioningIntent;
use crate::db::oracle::repository::OracleRepository;
use crate::db::oracle::script;
use crate::db::oracle::script::{Bind, CallView, Halt, HaltView, Mode, Row, RunView, Session};
use crate::domain::audit::AuditAction;
use crate::domain::card_issuance::{
    CardIssuanceBatch, CardIssuanceResultRow, CardIssuanceResultStatus,
};
use crate::domain::command::{DurableMutationContext, MutationCommandContext};
use crate::domain::copied;
use crate::domain::idempotency::IdempotencyRecord;
use crate::domain::user_card::{CardProfileRefreshReason, PolicyUsageAccountIds};
use crate::json;
use crate::json::{JsonMember, JsonMemberView, JsonValue, JsonValueView};
use crate::text;
use crate::time::UtcTime;
use crate::uuid;
use crate::uuid::Uuid;
use std::collections::HashSet;

verus! {

/// Locks a batch and reads its status.
pub const LOCK_BATCH_SQL: &'static str = "SELECT status FROM card_issuance_batches WHERE card_issuance_batch_id=:1 FOR UPDATE";

/// Marks a batch as having its result worked through.
pub const START_RESULT_SQL: &'static str = "UPDATE card_issuance_batches SET status='PROCESSING_RESULT',result_object_key=:1,result_checksum_sha256=:2,result_command_context_json=:3,updated_by_subject=:4,updated_at=SYSTIMESTAMP WHERE card_issuance_batch_id=:5";

/// Locks an issuance of a batch and reads its status.
pub const LOCK_REQUEST_SQL: &'static str = "SELECT status FROM card_issuance_requests WHERE card_issuance_request_id=:1 AND batch_id=:2 FOR UPDATE";

/// Marks an issuance as rejected.
pub const REJECT_REQUEST_SQL: &'static str = "UPDATE card_issuance_requests SET status='REJECTED',failure_code=:1,safe_failure_message=:2,updated_by_subject=:3,updated_at=SYSTIMESTAMP WHERE card_issuance_request_id=:4";

/// Marks the customers behind an issuance as rejected.
pub const REJECT_USERS_SQL: &'static str = "UPDATE provider_users SET status='ISSUANCE_REJECTED',updated_by_subject=:1,updated_at=SYSTIMESTAMP WHERE provider_user_id IN (SELECT provider_user_id FROM card_issuance_request_providers WHERE card_issuance_request_id=:2)";

/// Marks the providers behind an issuance as rejected.
pub const REJECT_PROVIDERS_SQL: &'static str = "UPDATE card_issuance_request_providers SET status='REJECTED',updated_at=SYSTIMESTAMP WHERE card_issuance_request_id=:1";

/// Stores that an issuance of a batch was rejected.
pub const REJECT_ROW_SQL: &'static str = "UPDATE card_issuance_batch_rows SET result_status='REJECTED',safe_result_code=:1,safe_result_message=:2,processed_at=SYSTIMESTAMP WHERE card_issuance_batch_id=:3 AND card_issuance_request_id=:4";

/// Locks and reads an issuance of a batch.
pub const ISSUED_REQUEST_SQL: &'static str = "SELECT user_id,card_range_id,status FROM card_issuance_requests WHERE card_issuance_request_id=:1 AND batch_id=:2 FOR UPDATE";

/// Counts a range where it holds a card number.
pub const PAN_RANGE_SQL: &'static str = "SELECT COUNT(*) FROM card_ranges WHERE card_range_id=:1 AND :2 BETWEEN start_card_number AND end_card_number";

/// Counts the cards with a number.
pub const PAN_TAKEN_SQL: &'static str = "SELECT COUNT(*) FROM cards WHERE card_number=:1";

/// Counts the active cards of a user in a range.
pub const ACTIVE_CARDS_SQL: &'static str = "SELECT COUNT(*) FROM cards WHERE user_id=:1 AND card_range_id=:2 AND status='ACTIVE'";

/// Stages a card.
pub const STAGE_CARD_SQL: &'static str = "INSERT INTO cards (card_id,card_number,user_id,card_range_id,status,metadata_json,created_by_subject,updated_by_subject) VALUES (:1,:2,:3,:4,'PROVISIONING','{}',:5,:5)";

/// Lists the providers that wait for an issuance, in the order of their enrollment.
pub const PENDING_PROVIDERS_SQL: &'static str = "SELECT p.provider_user_id,p.provider_id,p.enrollment_id,p.enrollment_order FROM card_issuance_request_providers p WHERE p.card_issuance_request_id=:1 AND p.status='PENDING' ORDER BY p.enrollment_order";

/// Stages the account of a customer.
pub const STAGE_ACCOUNT_SQL: &'static str = "INSERT INTO provider_user_accounts (provider_user_account_id,provider_user_id,provider_id,user_id,tigerbeetle_account_id,status) VALUES (:1,:2,:3,:4,:1,'PROVISIONING')";

/// Stages a funding source of a card.
pub const STAGE_FUNDING_SQL: &'static str = "INSERT INTO card_provider_funding_sources (card_funding_source_id,card_id,provider_id,provider_user_id,provider_user_account_id,priority,status,created_by_subject,updated_by_subject) VALUES (:1,:2,:3,:4,:5,:6,'PROVISIONING',:7,:7)";

/// Stages a customer.
pub const STAGE_USER_SQL: &'static str = "UPDATE provider_users SET status='PROVISIONING',updated_by_subject=:1,updated_at=SYSTIMESTAMP WHERE provider_user_id=:2 AND status='CARD_ISSUANCE_PENDING'";

/// Stages a provider behind an issuance.
pub const STAGE_PROVIDER_SQL: &'static str = "UPDATE card_issuance_request_providers SET status='PROVISIONING',updated_at=SYSTIMESTAMP WHERE card_issuance_request_id=:1 AND provider_id=:2";

/// Stores the intent to provision an issued card.
pub const STAGE_WAL_SQL: &'static str = "INSERT INTO operation_wal (operation_id,operation_type,aggregate_type,aggregate_id,status,request_json) VALUES (:1,'CARD_ISSUANCE_ACCOUNT_PROVISION','CARD_ISSUANCE_REQUEST',:2,'PENDING',:3)";

/// Marks an issuance as being worked through.
pub const PROCESSING_SQL: &'static str = "UPDATE card_issuance_requests SET status='PROCESSING_RESULT',updated_at=SYSTIMESTAMP WHERE card_issuance_request_id=:1 AND status='EXPORTED'";

/// Activates a card.
pub const ACTIVATE_CARD_SQL: &'static str = "UPDATE cards SET status='ACTIVE',updated_by_subject=:1,updated_at=SYSTIMESTAMP WHERE card_id=:2 AND status IN ('PROVISIONING','RECOVERY_REQUIRED')";

/// Activates the accounts that count what a card spends.
pub const ACTIVATE_USAGE_SQL: &'static str = "UPDATE card_policy_usage_accounts SET status='ACTIVE',updated_at=SYSTIMESTAMP WHERE card_id=:1 AND status IN ('PROVISIONING','RECOVERY_REQUIRED')";

/// Activates the accounts of the customers behind an issuance.
pub const ACTIVATE_ACCOUNTS_SQL: &'static str = "UPDATE provider_user_accounts SET status='ACTIVE',updated_at=SYSTIMESTAMP WHERE provider_user_id IN (SELECT provider_user_id FROM card_issuance_request_providers WHERE card_issuance_request_id=:1) AND status IN ('PROVISIONING','RECOVERY_REQUIRED')";

/// Activates the customers behind an issuance.
pub const ACTIVATE_USERS_SQL: &'static str = "UPDATE provider_users SET status='ACTIVE',updated_by_subject=:1,updated_at=SYSTIMESTAMP WHERE provider_user_id IN (SELECT provider_user_id FROM card_issuance_request_providers WHERE card_issuance_request_id=:2) AND status IN ('PROVISIONING','RECOVERY_REQUIRED')";

/// Activates the funding sources of a card.
pub const ACTIVATE_FUNDING_SQL: &'static str = "UPDATE card_provider_funding_sources SET status='ACTIVE',updated_by_subject=:1,updated_at=SYSTIMESTAMP WHERE card_id=:2 AND status IN ('PROVISIONING','RECOVERY_REQUIRED')";

/// Activates the providers behind an issuance.
pub const ACTIVATE_PROVIDERS_SQL: &'static str = "UPDATE card_issuance_request_providers SET status='ACTIVE',updated_at=SYSTIMESTAMP WHERE card_issuance_request_id=:1 AND status IN ('PROVISIONING','RECOVERY_REQUIRED')";

/// Marks an issuance as issued.
pub const ISSUED_SQL: &'static str = r#"UPDATE card_issuance_requests SET status='ISSUED',issuer_reference=:1,produced_at=TO_TIMESTAMP_TZ(:2,'YYYY-MM-DD"T"HH24:MI:SS.FF3"Z"'),dispatched_at=TO_TIMESTAMP_TZ(:3,'YYYY-MM-DD"T"HH24:MI:SS.FF3"Z"'),tracking_reference=:4,updated_by_subject=:5,updated_at=SYSTIMESTAMP WHERE card_issuance_request_id=:6 AND status IN ('PROCESSING_RESULT','RECOVERY_REQUIRED')"#;

/// Stores that an issuance of a batch was issued.
pub const ISSUED_ROW_SQL: &'static str = "UPDATE card_issuance_batch_rows SET result_status='ISSUED',processed_at=SYSTIMESTAMP WHERE card_issuance_batch_id=:1 AND card_issuance_request_id=:2";

/// Completes an intent.
pub const COMPLETE_WAL_SQL: &'static str = "UPDATE operation_wal SET status='COMPLETED',response_json=:1,error_json=NULL,updated_at=SYSTIMESTAMP,completed_at=SYSTIMESTAMP WHERE operation_id=:2 AND status IN ('PENDING','EXTERNAL_IN_FLIGHT','EXTERNAL_VERIFIED','FAILED')";

/// Locks a batch and reads the number of its issuances.
pub const REQUEST_COUNT_SQL: &'static str = "SELECT request_count FROM card_issuance_batches WHERE card_issuance_batch_id=:1 FOR UPDATE";

/// Completes a batch with its counts.
pub const COMPLETE_BATCH_SQL: &'static str = "UPDATE card_issuance_batches SET status=:1,issued_count=:2,rejected_count=:3,failed_count=:4,updated_by_subject=:5,updated_at=SYSTIMESTAMP,completed_at=SYSTIMESTAMP WHERE card_issuance_batch_id=:6 AND status='PROCESSING_RESULT'";

/// Marks an issuance for recovery.
pub const RECOVER_REQUEST_SQL: &'static str = "UPDATE card_issuance_requests SET status='RECOVERY_REQUIRED',updated_at=SYSTIMESTAMP WHERE card_issuance_request_id=:1 AND status IN ('EXPORTED','PROCESSING_RESULT')";

/// Marks the customers behind an issuance for recovery.
pub const RECOVER_USERS_SQL: &'static str = "UPDATE provider_users SET status='RECOVERY_REQUIRED',updated_at=SYSTIMESTAMP WHERE provider_user_id IN (SELECT provider_user_id FROM card_issuance_request_providers WHERE card_issuance_request_id=:1) AND status='PROVISIONING'";

/// Marks the accounts of the customers behind an issuance for recovery.
pub const RECOVER_ACCOUNTS_SQL: &'static str = "UPDATE provider_user_accounts SET status='RECOVERY_REQUIRED',updated_at=SYSTIMESTAMP WHERE provider_user_id IN (SELECT provider_user_id FROM card_issuance_request_providers WHERE card_issuance_request_id=:1) AND status='PROVISIONING'";

/// Marks the funding sources of the customers behind an issuance for recovery.
pub const RECOVER_FUNDING_SQL: &'static str = "UPDATE card_provider_funding_sources SET status='RECOVERY_REQUIRED',updated_at=SYSTIMESTAMP WHERE provider_user_id IN (SELECT provider_user_id FROM card_issuance_request_providers WHERE card_issuance_request_id=:1) AND status='PROVISIONING'";

/// Marks the cards behind an issuance for recovery.
pub const RECOVER_CARDS_SQL: &'static str = "UPDATE cards SET status='RECOVERY_REQUIRED',updated_at=SYSTIMESTAMP WHERE card_id IN (SELECT fs.card_id FROM card_provider_funding_sources fs JOIN card_issuance_request_providers rp ON rp.provider_user_id=fs.provider_user_id WHERE rp.card_issuance_request_id=:1) AND status='PROVISIONING'";

/// Marks the intent behind an issuance as failed.
pub const FAIL_WAL_SQL: &'static str = "UPDATE operation_wal SET status='FAILED',error_json=:1,attempt_count=attempt_count+1,updated_at=SYSTIMESTAMP WHERE aggregate_id=:2 AND operation_type='CARD_ISSUANCE_ACCOUNT_PROVISION' AND status<>'COMPLETED'";

/// Stores what became of an issuance of a batch.
pub const ROW_OUTCOME_SQL: &'static str = "UPDATE card_issuance_batch_rows SET result_status=:1,safe_result_code=:2,processed_at=SYSTIMESTAMP WHERE card_issuance_batch_id=:3 AND card_issuance_request_id=:4 AND (result_status IS NULL OR result_status='RECOVERY_REQUIRED')";

/// Locks and reads the intent behind an issuance.
pub const INTENT_SQL: &'static str = "SELECT w.operation_id,c.card_id,c.user_id,c.card_range_id,u.amount_daily_account_id,u.amount_weekly_account_id,u.amount_monthly_account_id,u.amount_yearly_account_id,u.count_daily_account_id,u.count_weekly_account_id,u.count_monthly_account_id,u.count_yearly_account_id FROM operation_wal w JOIN card_issuance_request_providers rp ON rp.card_issuance_request_id=w.aggregate_id JOIN card_provider_funding_sources fs ON fs.provider_user_id=rp.provider_user_id JOIN cards c ON c.card_id=fs.card_id JOIN card_policy_usage_accounts u ON u.card_id=c.card_id WHERE w.aggregate_id=:1 AND w.operation_type='CARD_ISSUANCE_ACCOUNT_PROVISION' AND w.status IN ('PENDING','EXTERNAL_IN_FLIGHT','EXTERNAL_VERIFIED','FAILED') FOR UPDATE";

/// Lists the providers behind an issuance that is being provisioned.
pub const INTENT_PROVIDERS_SQL: &'static str = "SELECT rp.provider_user_id,rp.provider_id,rp.enrollment_id,pua.provider_user_account_id FROM card_issuance_request_providers rp JOIN provider_user_accounts pua ON pua.provider_user_id=rp.provider_user_id WHERE rp.card_issuance_request_id=:1 AND rp.status IN ('PROVISIONING','RECOVERY_REQUIRED') ORDER BY rp.enrollment_order";

/// Lists the issuances of a batch.
pub const EXPECTED_ROWS_SQL: &'static str = "SELECT card_issuance_request_id FROM card_issuance_batch_rows WHERE card_issuance_batch_id=:1";

/// Counts the issuances of a batch with an outcome.
pub const OUTCOME_COUNT_SQL: &'static str = "SELECT COUNT(*) FROM card_issuance_batch_rows WHERE card_issuance_batch_id=:1 AND result_status=:2";

/// The context of a column that cannot be read.
pub const READ_ROW: &'static str = "failed to read Oracle issuance-result row";

/// What became of a result that was to be worked through. A replayed answer is a JSON document.
#[derive(Debug)]
pub enum BeginIssuanceResultOutcome {
    Started,
    Resumed,
    Replayed(String),
    BatchNotFound,
    BatchNotReady,
    RowSetMismatch,
    IdempotencyConflict,
    IdempotencyInvalidState,
}

/// The account that a customer of a provider is to have.
#[derive(Clone, Copy, Debug, PartialEq, Eq, Structural)]
pub struct IssuanceProviderAccountIntent {
    pub provider_user_id: Uuid,
    pub provider_id: Uuid,
    pub account_id: Uuid,
}

/// The intent to provision a card that the bank issued, with the accounts of all its providers.
#[derive(Debug)]
pub struct IssuedCardProvisioningIntent {
    pub base: ExistingCardProvisioningIntent,
    pub issuance_request_id: Uuid,
    pub batch_id: Uuid,
    pub providers: Vec<IssuanceProviderAccountIntent>,
}

/// The intent to provision a card that the bank issued, as plain values.
pub struct IssuedIntentView {
    pub base: ExistingCardProvisioningIntent,
    pub issuance_request_id: Uuid,
    pub batch_id: Uuid,
    pub providers: Seq<IssuanceProviderAccountIntent>,
}

impl View for IssuedCardProvisioningIntent {
    type V = IssuedIntentView;

    open spec fn view(&self) -> IssuedIntentView {
        IssuedIntentView {
            base: self.base,
            issuance_request_id: self.issuance_request_id,
            batch_id: self.batch_id,
            providers: self.providers@,
        }
    }
}

/// What is kept of the bank's report of an issued card, to finish with.
#[derive(Debug)]
pub struct IssuedCardFinalizationSnapshot {
    pub issuance_request_id: Uuid,
    pub issuer_reference: Option<String>,
    pub produced_at: Option<UtcTime>,
    pub dispatched_at: Option<UtcTime>,
    pub tracking_reference: Option<String>,
}

impl Clone for IssuedCardFinalizationSnapshot {
    fn clone(&self) -> (r: Self)
        ensures
            r == *self,
    {
        IssuedCardFinalizationSnapshot {
            issuance_request_id: self.issuance_request_id,
            issuer_reference: copied(&self.issuer_reference),
            produced_at: self.produced_at,
            dispatched_at: self.dispatched_at,
            tracking_reference: copied(&self.tracking_reference),
        }
    }
}

impl IssuedCardFinalizationSnapshot {
    /// What is kept of the bank's report of an issued card.
    pub open spec fn kept_of(result: CardIssuanceResultRow) -> IssuedCardFinalizationSnapshot {
        IssuedCardFinalizationSnapshot {
            issuance_request_id: result.issuance_request_id,
            issuer_reference: result.issuer_reference,
            produced_at: result.produced_at,
            dispatched_at: result.dispatched_at,
            tracking_reference: result.tracking_reference,
        }
    }

    /// What is kept of the bank's report of an issued card.
    pub fn from_result(result: &CardIssuanceResultRow) -> (r: IssuedCardFinalizationSnapshot)
        ensures
            r == IssuedCardFinalizationSnapshot::kept_of(*result),
    {
        IssuedCardFinalizationSnapshot {
            issuance_request_id: result.issuance_request_id,
            issuer_reference: copied(&result.issuer_reference),
            produced_at: result.produced_at,
            dispatched_at: result.dispatched_at,
            tracking_reference: copied(&result.tracking_reference),
        }
    }

    /// The report of an issued card, as far as it was kept.
    pub open spec fn as_result(self) -> CardIssuanceResultRow {
        CardIssuanceResultRow {
            issuance_request_id: self.issuance_request_id,
            status: CardIssuanceResultStatus::Issued,
            card_number: None,
            issuer_reference: self.issuer_reference,
            failure_code: None,
            failure_message: None,
            produced_at: self.produced_at,
            dispatched_at: self.dispatched_at,
            tracking_reference: self.tracking_reference,
        }
    }

    /// The report of an issued card, as far as it was kept.
    pub fn into_result(self) -> (r: CardIssuanceResultRow)
        ensures
            r == self.as_result(),
    {
        CardIssuanceResultRow {
            issuance_request_id: self.issuance_request_id,
            status: CardIssuanceResultStatus::Issued,
            card_number: None,
            issuer_reference: self.issuer_reference,
            failure_code: None,
            failure_message: None,
            produced_at: self.produced_at,
            dispatched_at: self.dispatched_at,
            tracking_reference: self.tracking_reference,
        }
    }
}

/// What is kept of a report survives being turned into a report again.
pub proof fn kept_report_is_read_back(kept: IssuedCardFinalizationSnapshot)
    ensures
        IssuedCardFinalizationSnapshot::kept_of(kept.as_result()) == kept,
{
}

/// What became of an issued card that was to be prepared.
#[derive(Debug)]
pub enum PrepareIssuedCardOutcome {
    Prepared(Box<IssuedCardProvisioningIntent>),
    AlreadyProcessed,
    RequestNotFound,
    InvalidPanRange,
    CardNumberConflict,
    ActiveCardConflict,
}

/// What became of an issued card that was to be prepared, as plain values.
pub enum PrepareIssuedCardView {
    Prepared(IssuedIntentView),
    AlreadyProcessed,
    RequestNotFound,
    InvalidPanRange,
    CardNumberConflict,
    ActiveCardConflict,
}

impl View for PrepareIssuedCardOutcome {
    type V = PrepareIssuedCardView;

    open spec fn view(&self) -> PrepareIssuedCardView {
        match self {
            PrepareIssuedCardOutcome::Prepared(intent) => PrepareIssuedCardView::Prepared(
                (*intent)@,
            ),
            PrepareIssuedCardOutcome::AlreadyProcessed => PrepareIssuedCardView::AlreadyProcessed,
            PrepareIssuedCardOutcome::RequestNotFound => PrepareIssuedCardView::RequestNotFound,
            PrepareIssuedCardOutcome::InvalidPanRange => PrepareIssuedCardView::InvalidPanRange,
            PrepareIssuedCardOutcome::CardNumberConflict => {
                PrepareIssuedCardView::CardNumberConflict
            },
            PrepareIssuedCardOutcome::ActiveCardConflict => {
                PrepareIssuedCardView::ActiveCardConflict
            },
        }
    }
}

/// What the intent to provision an issued card says of it, beside its accounts. The command and the
/// accounts that count what the card spends are JSON texts.
#[derive(Debug)]
pub struct IssuanceWalFacts {
    pub finalization: IssuedCardFinalizationSnapshot,
    pub issuance_request_id: Uuid,
    pub batch_id: Uuid,
    pub card_id: Uuid,
    pub card_range_id: Uuid,
    pub command_context: String,
    pub policy_usage_account_ids: String,
}

/// The value of an instant that may be absent.
pub open spec fn optional_instant(at: Option<UtcTime>) -> JsonValueView {
    match at {
        Some(t) => JsonValueView::Text(t.serialized()),
        None => JsonValueView::Null,
    }
}

fn instant_value(at: Option<UtcTime>) -> (r: JsonValue)
    ensures
        r@ == optional_instant(at),
{
    match at {
        Some(t) => JsonValue::Text(t.to_serialized()),
        None => JsonValue::Null,
    }
}

fn text_value(text: &Option<String>) -> (r: JsonValue)
    ensures
        r@ == document::optional_text_value(*text),
{
    match text {
        Some(t) => JsonValue::Text(t.clone()),
        None => JsonValue::Null,
    }
}

/// What is kept of a report on an issued card.
pub open spec fn finalization_members(
    kept: IssuedCardFinalizationSnapshot,
) -> Seq<JsonMemberView> {
    seq![
        (
            "issuance_request_id"@,
            JsonValueView::Text(uuid::hyphenated_text(kept.issuance_request_id)),
        ),
        ("issuer_reference"@, document::optional_text_value(kept.issuer_reference)),
        ("produced_at"@, optional_instant(kept.produced_at)),
        ("dispatched_at"@, optional_instant(kept.dispatched_at)),
        ("tracking_reference"@, document::optional_text_value(kept.tracking_reference)),
    ]
}

/// What is kept of a report on an issued card, as JSON.
pub fn finalization_text(kept: &IssuedCardFinalizationSnapshot) -> (r: String)
    ensures
        r@ == json::json_object_text(finalization_members(*kept)),
{
    let mut members: Vec<JsonMember> = Vec::new();
    members.push(
        JsonMember {
            name: "issuance_request_id",
            value: JsonValue::Text(kept.issuance_request_id.to_text()),
        },
    );
    members.push(JsonMember {
        name: "issuer_reference",
        value: text_value(&kept.issuer_reference),
    });
    members.push(JsonMember { name: "produced_at", value: instant_value(kept.produced_at) });
    members.push(JsonMember { name: "dispatched_at", value: instant_value(kept.dispatched_at) });
    members.push(
        JsonMember { name: "tracking_reference", value: text_value(&kept.tracking_reference) },
    );
    assert(json::members_view(members@) =~= finalization_members(*kept));
    json::object_text(&members)
}

/// An account behind an issued card.
pub open spec fn account_members(account: IssuanceProviderAccountIntent) -> Seq<JsonMemberView> {
    seq![
        ("provider_user_id"@, JsonValueView::Text(uuid::hyphenated_text(account.provider_user_id))),
        ("provider_id"@, JsonValueView::Text(uuid::hyphenated_text(account.provider_id))),
        ("account_id"@, JsonValueView::Text(uuid::hyphenated_text(account.account_id))),
    ]
}

fn account_text(account: &IssuanceProviderAccountIntent) -> (r: String)
    ensures
        r@ == json::json_object_text(account_members(*account)),
{
    let mut members: Vec<JsonMember> = Vec::new();
    members.push(
        JsonMember {
            name: "provider_user_id",
            value: JsonValue::Text(account.provider_user_id.to_text()),
        },
    );
    members.push(
        JsonMember { name: "provider_id", value: JsonValue::Text(account.provider_id.to_text()) },
    );
    members.push(
        JsonMember { name: "account_id", value: JsonValue::Text(account.account_id.to_text()) },
    );
    assert(json::members_view(members@) =~= account_members(*account));
    json::object_text(&members)
}

/// The intent to provision an issued card.
pub open spec fn issuance_wal_members(
    facts: IssuanceWalFacts,
    accounts: Seq<IssuanceProviderAccountIntent>,
) -> Seq<JsonMemberView> {
    seq![
        ("command_context"@, JsonValueView::Document(facts.command_context@)),
        (
            "finalization"@,
            JsonValueView::Document(json::json_object_text(
                finalization_members(facts.finalization),
            )),
        ),
        (
            "issuance_request_id"@,
            JsonValueView::Text(uuid::hyphenated_text(facts.issuance_request_id)),
        ),
        ("batch_id"@, JsonValueView::Text(uuid::hyphenated_text(facts.batch_id))),
        ("card_id"@, JsonValueView::Text(uuid::hyphenated_text(facts.card_id))),
        ("card_range_id"@, JsonValueView::Text(uuid::hyphenated_text(facts.card_range_id))),
        (
            "provider_accounts"@,
            JsonValueView::Documents(
                accounts.map_values(
                    |account: IssuanceProviderAccountIntent|
                        json::json_object_text(account_members(account)),
                ),
            ),
        ),
        ("policy_usage_account_ids"@, JsonValueView::Document(facts.policy_usage_account_ids@)),
    ]
}

/// The intent to provision an issued card, as JSON.
pub fn issuance_wal_text(
    facts: &IssuanceWalFacts,
    accounts: &Vec<IssuanceProviderAccountIntent>,
) -> (r: String)
    ensures
        r@ == json::json_object_text(issuance_wal_members(*facts, accounts@)),
{
    let ghost shown = accounts@.map_values(
        |account: IssuanceProviderAccountIntent| json::json_object_text(account_members(account)),
    );
    let mut items: Vec<String> = Vec::new();
    let mut i: usize = 0;
    while i < accounts.len()
        invariant
            i <= accounts@.len(),
            shown == accounts@.map_values(
                |account: IssuanceProviderAccountIntent|
                    json::json_object_text(account_members(account)),
            ),
            text::texts(items@) =~= shown.take(i as int),
        decreases accounts@.len() - i,
    {
        let ghost before = items@;
        items.push(account_text(&accounts[i]));
        assert(text::texts(items@) =~= text::texts(before).push(shown[i as int]));
        i = i + 1;
    }
    assert(shown.take(i as int) =~= shown);
    let mut members: Vec<JsonMember> = Vec::new();
    members.push(
        JsonMember {
            name: "command_context",
            value: JsonValue::Document(facts.command_context.clone()),
        },
    );
    members.push(
        JsonMember {
            name: "finalization",
            value: JsonValue::Document(finalization_text(&facts.finalization)),
        },
    );
    members.push(
        JsonMember {
            name: "issuance_request_id",
            value: JsonValue::Text(facts.issuance_request_id.to_text()),
        },
    );
    members.push(
        JsonMember { name: "batch_id", value: JsonValue::Text(facts.batch_id.to_text()) },
    );
    members.push(JsonMember { name: "card_id", value: JsonValue::Text(facts.card_id.to_text()) });
    members.push(
        JsonMember { name: "card_range_id", value: JsonValue::Text(facts.card_range_id.to_text()) },
    );
    members.push(JsonMember { name: "provider_accounts", value: JsonValue::Documents(items) });
    members.push(
        JsonMember {
            name: "policy_usage_account_ids",
            value: JsonValue::Document(facts.policy_usage_account_ids.clone()),
        },
    );
    assert(json::members_view(members@) =~= issuance_wal_members(*facts, accounts@));
    json::object_text(&members)
}

/// The account of a customer behind an issuance, and the customer's enrollment.
#[derive(Clone, Copy, Debug, PartialEq, Eq, Structural)]
pub struct StagedProvider {
    pub intent: IssuanceProviderAccountIntent,
    pub enrollment_id: Uuid,
}

/// The issuances that rows of a report are about.
pub open spec fn reported_ids(rows: Seq<CardIssuanceResultRow>) -> Seq<Uuid> {
    rows.map_values(|row: CardIssuanceResultRow| row.issuance_request_id)
}

fn to_reported_ids(rows: &Vec<CardIssuanceResultRow>) -> (r: Vec<Uuid>)
    ensures
        r@ == reported_ids(rows@),
{
    let mut ids: Vec<Uuid> = Vec::new();
    let mut i: usize = 0;
    while i < rows.len()
        invariant
            i <= rows@.len(),
            ids@ =~= reported_ids(rows@).take(i as int),
        decreases rows@.len() - i,
    {
        ids.push(rows[i].issuance_request_id);
        i = i + 1;
    }
    assert(reported_ids(rows@).take(i as int) =~= reported_ids(rows@));
    ids
}

/// Two lists name the same issuances, each of them once.
pub open spec fn same_requests_spec(supplied: Seq<Uuid>, expected: Seq<Uuid>) -> bool {
    &&& supplied.no_duplicates()
    &&& expected.no_duplicates()
    &&& forall|id: Uuid| #[trigger] supplied.contains(id) <==> expected.contains(id)
}

/// Whether two lists name the same issuances, each of them once.
pub fn same_requests(supplied: &Vec<Uuid>, expected: &Vec<Uuid>) -> (r: bool)
    ensures
        r == same_requests_spec(supplied@, expected@),
{
    broadcast use vstd::std_specs::hash::group_hash_axioms;

    let mut open: HashSet<u128> = HashSet::new();
    let mut i: usize = 0;
    while i < supplied.len()
        invariant
            i <= supplied@.len(),
            forall|a: int, b: int|
                0 <= a < b < i ==> (#[trigger] supplied@[a]) != (#[trigger] supplied@[b]),
            forall|v: u128| #[trigger]
                open@.contains(v) <==> exists|k: int|
                    0 <= k < i && (#[trigger] supplied@[k]).value == v,
        decreases supplied@.len() - i,
    {
        let value: u128 = supplied[i].value;
        let ghost before = open@;
        if !open.insert(value) {
            assert(before.contains(value));
            let ghost k = choose|k: int| 0 <= k < i && (#[trigger] supplied@[k]).value == value;
            assert(supplied@[k] == supplied@[i as int]);
            return false;
        }
        assert forall|a: int, b: int| 0 <= a < b < i + 1 implies (#[trigger] supplied@[a]) != (
        #[trigger] supplied@[b]) by {
            if b == i && supplied@[a] == supplied@[b] {
                assert(before.contains(value));
            }
        }
        assert forall|v: u128| #[trigger] open@.contains(v) <==> exists|k: int|
            0 <= k < i + 1 && (#[trigger] supplied@[k]).value == v by {
            if open@.contains(v) {
                if v == value {
                    assert(supplied@[i as int].value == v);
                } else {
                    assert(before.contains(v));
                    let k = choose|k: int| 0 <= k < i && (#[trigger] supplied@[k]).value == v;
                    assert(supplied@[k].value == v);
                }
            }
            if exists|k: int| 0 <= k < i + 1 && (#[trigger] supplied@[k]).value == v {
                let k = choose|k: int| 0 <= k < i + 1 && (#[trigger] supplied@[k]).value == v;
                if k < i {
                    assert(before.contains(v));
                }
            }
        }
        i = i + 1;
    }
    assert(supplied@.no_duplicates());
    let ghost all = open@;
    assert forall|id: Uuid| #[trigger] supplied@.contains(id) <==> all.contains(id.value) by {
        if supplied@.contains(id) {
            let k = choose|k: int| 0 <= k < supplied@.len() && supplied@[k] == id;
            assert(supplied@[k].value == id.value);
        }
        if all.contains(id.value) {
            let k = choose|k: int| 0 <= k < i && (#[trigger] supplied@[k]).value == id.value;
            assert(supplied@[k] == id);
        }
    }
    let mut j: usize = 0;
    while j < expected.len()
        invariant
            j <= expected@.len(),
            forall|id: Uuid| #[trigger] supplied@.contains(id) <==> all.contains(id.value),
            forall|a: int, b: int|
                0 <= a < b < j ==> (#[trigger] expected@[a]) != (#[trigger] expected@[b]),
            forall|a: int| 0 <= a < j ==> all.contains((#[trigger] expected@[a]).value),
            forall|v: u128| #[trigger]
                open@.contains(v) <==> all.contains(v) && !(exists|k: int|
                    0 <= k < j && (#[trigger] expected@[k]).value == v),
        decreases expected@.len() - j,
    {
        let value: u128 = expected[j].value;
        let ghost before = open@;
        let found: bool = open.remove(&value);
        if !found {
            assert(!before.contains(value));
            proof {
                let id = expected@[j as int];
                assert(expected@.contains(id));
                if all.contains(value) {
                    let k = choose|k: int| 0 <= k < j && (#[trigger] expected@[k]).value == value;
                    assert(expected@[k] == expected@[j as int]);
                } else {
                    assert(!supplied@.contains(id));
                }
            }
            return false;
        }
        assert(before.contains(value));
        assert(open@ =~= before.remove(value));
        assert forall|a: int, b: int| 0 <= a < b < j + 1 implies (#[trigger] expected@[a]) != (
        #[trigger] expected@[b]) by {
            if b == j && expected@[a] == expected@[b] {
                assert(expected@[a].value == value);
            }
        }
        assert forall|v: u128| #[trigger] open@.contains(v) <==> all.contains(v) && !(exists|k: int|
            0 <= k < j + 1 && (#[trigger] expected@[k]).value == v) by {
            if v == value {
                assert(expected@[j as int].value == v);
            } else {
                if exists|k: int| 0 <= k < j + 1 && (#[trigger] expected@[k]).value == v {
                    let k = choose|k: int| 0 <= k < j + 1 && (#[trigger] expected@[k]).value == v;
                    assert(k < j && expected@[k].value == v);
                }
                if exists|k: int| 0 <= k < j && (#[trigger] expected@[k]).value == v {
                    let k = choose|k: int| 0 <= k < j && (#[trigger] expected@[k]).value == v;
                    assert(k < j + 1 && expected@[k].value == v);
                }
            }
        }
        j = j + 1;
    }
    if open.is_empty() {
        assert forall|id: Uuid| #[trigger] supplied@.contains(id) <==> expected@.contains(id) by {
            if supplied@.contains(id) {
                assert(!open@.contains(id.value));
                let k = choose|k: int| 0 <= k < j && (#[trigger] expected@[k]).value == id.value;
                assert(expected@[k] == id);
            }
            if expected@.contains(id) {
                let k = choose|k: int| 0 <= k < expected@.len() && expected@[k] == id;
                assert(all.contains(expected@[k].value));
            }
        }
        true
    } else {
        proof {
            let v = choose|v: u128| open@.contains(v);
            assert(open@.contains(v));
            let k = choose|k: int| 0 <= k < i && (#[trigger] supplied@[k]).value == v;
            let id = supplied@[k];
            assert(supplied@.contains(id));
            if expected@.contains(id) {
                let m = choose|m: int| 0 <= m < expected@.len() && expected@[m] == id;
                assert(expected@[m].value == v);
            }
        }
        false
    }
}

/// The issuance that a row names.
pub open spec fn map_expected_id_spec(row: Row) -> Result<Uuid, HaltView> {
    match row.raw_at(0, READ_ROW@) { Err(h) => Err(h), Ok(value) =>
    match script::id_of(value@) { Err(h) => Err(h), Ok(id) =>
    Ok(id)
    }}
}

/// The issuance that a row names.
pub fn map_expected_id(row: &Row) -> (r: Result<Uuid, Halt>)
    ensures
        script::seen(r) == map_expected_id_spec(*row),
{
    let value = row.raw(0, READ_ROW)?;
    let id = script::to_id(value)?;
    Ok(id)
}

/// The issuances that rows name, in order.
pub open spec fn map_expected_ids_spec(
    rows: Seq<Row>,
    i: nat,
    done: Seq<Uuid>,
) -> Result<Seq<Uuid>, HaltView>
    decreases rows.len() - i,
{
    if i >= rows.len() {
        Ok(done)
    } else {
        match map_expected_id_spec(rows[i as int]) {
            Err(h) => Err(h), Ok(item) => map_expected_ids_spec(rows, i + 1, done.push(item))
        }
    }
}

/// The issuances that rows name, in order.
pub fn map_expected_ids(rows: &Vec<Row>) -> (r: Result<Vec<Uuid>, Halt>)
    ensures
        script::seen_view(r) == map_expected_ids_spec(rows@, 0, Seq::empty()),
{
    let mut done: Vec<Uuid> = Vec::new();
    let mut i: usize = 0;
    assert(done@ =~= Seq::empty());
    while i < rows.len()
        invariant
            i <= rows@.len(),
            map_expected_ids_spec(rows@, 0, Seq::empty()) == map_expected_ids_spec(
                rows@,
                i as nat,
                done@,
            ),
        decreases rows@.len() - i,
    {
        let item = map_expected_id(&rows[i])?;
        done.push(item);
        i = i + 1;
    }
    Ok(done)
}

/// Each is that of its own row, and they come in the order of the rows.
pub proof fn map_expected_ids_go_in_turn(rows: Seq<Row>, i: nat, done: Seq<Uuid>)
    requires
        i <= rows.len(),
    ensures
        map_expected_ids_spec(rows, i, done) matches Ok(all) ==> {
            &&& all.len() == done.len() + (rows.len() - i)
            &&& all.take(done.len() as int) == done
            &&& forall|k: int| i <= k < rows.len() ==> (#[trigger] rows[k], map_expected_id_spec(rows[k])) == (
                rows[k],
                Ok::<Uuid, HaltView>(all[done.len() + k - i]),
            )
        },
    decreases rows.len() - i,
{
    if i < rows.len() {
        if let Ok(item) = map_expected_id_spec(rows[i as int]) {
            map_expected_ids_go_in_turn(rows, i + 1, done.push(item));
            if let Ok(all) = map_expected_ids_spec(rows, i, done) {
                assert(
                    all.take(done.len() as int) =~= all.take(
                        done.len() as int + 1,
                    ).take(done.len() as int)
                );
                assert(done.push(item).take(done.len() as int) =~= done);
                assert(
                    all[done.len() as int] == all.take(done.len() as int + 1)[done.len() as int]
                );
            }
        }
    } else {
        assert(done.take(done.len() as int) =~= done);
    }
}

/// The issuances of a batch.
pub open spec fn expected_request_ids_spec(
    st: RunView,
    batch_id: Uuid,
) -> (Result<Seq<Uuid>, HaltView>, RunView) {
    match script::rows_spec(
        st,
        EXPECTED_ROWS_SQL@,
        seq![Bind::Id(batch_id)],
        "r",
        "failed to list expected result rows"@,
    ) { (Err(h), st) => (Err(h), st), (Ok(listed), st) =>
    match map_expected_ids_spec(listed.rows@, 0, Seq::empty()) { Err(h) => (Err(h), st), Ok(ids) =>
    if let Some(cause) = listed.failure {
        (script::failed("failed to read expected result row"@, cause@), st)
    } else {
    (Ok(ids), st)
    }}}
}

/// The issuances of a batch.
pub fn expected_request_ids(s: &mut Session, batch_id: Uuid) -> (r: Result<Vec<Uuid>, Halt>)
    ensures
        (script::seen_view(r), final(s)@) == expected_request_ids_spec(old(s)@, batch_id),
{
    let listed = script::rows(
        s,
        EXPECTED_ROWS_SQL,
        binds::binds1(Bind::Id(batch_id)),
        "r",
        "failed to list expected result rows",
    )?;
    let ids = map_expected_ids(&listed.rows)?;
    if let Some(cause) = &listed.failure {
        return Err(script::fail_because("failed to read expected result row", cause.as_str()));
    }
    Ok(ids)
}

/// What a stored record means for a result that comes again, for a batch with a status.
pub open spec fn result_verdict(
    verdict: IdempotencyVerdict,
    batch_status: Seq<char>,
) -> BeginIssuanceResultOutcome {
    match verdict {
        IdempotencyVerdict::Conflict => BeginIssuanceResultOutcome::IdempotencyConflict,
        IdempotencyVerdict::Replay(snapshot) => BeginIssuanceResultOutcome::Replayed(snapshot),
        IdempotencyVerdict::InProgress => if batch_status == "PROCESSING_RESULT"@ {
            BeginIssuanceResultOutcome::Resumed
        } else {
            BeginIssuanceResultOutcome::IdempotencyInvalidState
        },
        IdempotencyVerdict::InvalidState => BeginIssuanceResultOutcome::IdempotencyInvalidState,
    }
}

/// What a stored record means for a result that comes again, for a batch with a status: work that
/// is under way goes on.
pub fn classify_idempotency(
    existing: &IdempotencyRecord,
    request_hash: &String,
    batch_status: &str,
) -> (r: BeginIssuanceResultOutcome)
    ensures
        r == result_verdict(
            idempotency::idempotency_verdict(*existing, *request_hash),
            batch_status@,
        ),
{
    match idempotency::judge_idempotency(existing, request_hash) {
        IdempotencyVerdict::Conflict => BeginIssuanceResultOutcome::IdempotencyConflict,
        IdempotencyVerdict::Replay(snapshot) => BeginIssuanceResultOutcome::Replayed(snapshot),
        IdempotencyVerdict::InProgress => if text::same_text(batch_status, "PROCESSING_RESULT") {
            BeginIssuanceResultOutcome::Resumed
        } else {
            BeginIssuanceResultOutcome::IdempotencyInvalidState
        },
        IdempotencyVerdict::InvalidState => BeginIssuanceResultOutcome::IdempotencyInvalidState,
    }
}

/// Begins to work through the result of a batch, where it reports on each issuance of the batch
/// once. Under one idempotency key this happens once; work that is under way goes on.
pub open spec fn begin_card_issuance_result_atomic_spec(
    st: RunView,
    context: MutationCommandContext,
    batch_id: Uuid,
    result_object_key: String,
    checksum: String,
    rows: Seq<CardIssuanceResultRow>,
) -> (Result<BeginIssuanceResultOutcome, HaltView>, RunView) {
    match script::maybe_text_spec(
        st,
        LOCK_BATCH_SQL@,
        seq![Bind::Id(batch_id)],
        "failed to lock issuance batch"@,
    ) { (Err(h), st) => (Err(h), st), (Ok(found), st) =>
    match found {
    None => {
        (Ok(BeginIssuanceResultOutcome::BatchNotFound), st)
    },
    Some(batch_status) =>
    match idempotency::fetch_idempotency_record_spec(
        st,
        context.operation_type,
        context.idempotency_key,
    ) { (Err(h), st) => (Err(h), st), (Ok(existing), st) =>
    if let Some(record) = existing {
        (
            Ok(result_verdict(
                idempotency::idempotency_verdict(record, context.request_hash),
                batch_status@,
            )),
            st,
        )
    } else {
    if batch_status@ != "READY"@ {
        (Ok(BeginIssuanceResultOutcome::BatchNotReady), st)
    } else {
    match expected_request_ids_spec(
        st,
        batch_id,
    ) { (Err(h), st) => (Err(h), st), (Ok(expected), st) =>
    if !same_requests_spec(reported_ids(rows), expected) {
        (Ok(BeginIssuanceResultOutcome::RowSetMismatch), st)
    } else {
    match idempotency::insert_idempotency_record_spec(
        st,
        context.record,
    ) { (Err(h), st) => (Err(h), st), (Ok(_), st) =>
    match script::encode_spec(
        st,
        Rule::DurableCommand(context.lasting()),
        "failed to serialize issuance result context"@,
    ) { (Err(h), st) => (Err(h), st), (Ok(durable), st) =>
    match script::execute_spec(
        st,
        START_RESULT_SQL@,
        seq![
            Bind::Text(result_object_key),
            Bind::Text(checksum),
            Bind::Text(durable),
            Bind::Text(context.actor.subject),
            Bind::Id(batch_id),
        ],
        "failed to start issuance result processing"@,
    ) { (Err(h), st) => (Err(h), st), (Ok(_), st) =>
    (Ok(BeginIssuanceResultOutcome::Started), st)
    }}}}}}}}}}
}

impl OracleRepository {
    /// Begins to work through the result of a batch, where it reports on each issuance of the batch
    /// once. Under one idempotency key this happens once; work that is under way goes on.
    pub fn begin_card_issuance_result_atomic(
        s: &mut Session,
        context: &MutationCommandContext,
        batch_id: Uuid,
        result_object_key: &String,
        checksum: &String,
        rows: &Vec<CardIssuanceResultRow>,
    ) -> (r: Result<BeginIssuanceResultOutcome, Halt>)
        ensures
            (script::seen(r), final(s)@) == begin_card_issuance_result_atomic_spec(
                old(s)@,
                *context,
                batch_id,
                *result_object_key,
                *checksum,
                rows@,
            ),
    {
        let found = script::maybe_text(
            s,
            LOCK_BATCH_SQL,
            binds::binds1(Bind::Id(batch_id)),
            "failed to lock issuance batch",
        )?;
        let batch_status = match found {
            Some(v) => v,
            None => {
                return Ok(BeginIssuanceResultOutcome::BatchNotFound);
            },
        };
        let existing = idempotency::fetch_idempotency_record(
            s,
            &context.operation_type,
            &context.idempotency_key,
        )?;
        if let Some(record) = &existing {
            return Ok(classify_idempotency(record, &context.request_hash, batch_status.as_str()));
        }
        if !text::same_text(batch_status.as_str(), "READY") {
            return Ok(BeginIssuanceResultOutcome::BatchNotReady);
        }
        let expected = expected_request_ids(s, batch_id)?;
        if !same_requests(&to_reported_ids(rows), &expected) {
            return Ok(BeginIssuanceResultOutcome::RowSetMismatch);
        }
        idempotency::insert_idempotency_record(s, &context.record)?;
        let durable = script::encode(
            s,
            Rule::DurableCommand(context.durable()),
            "failed to serialize issuance result context",
        )?;
        script::execute(
            s,
            START_RESULT_SQL,
            binds::binds5(
                Bind::Text(result_object_key.clone()),
                Bind::Text(checksum.clone()),
                Bind::Text(durable.clone()),
                Bind::Text(context.actor.subject.clone()),
                Bind::Id(batch_id),
            ),
            "failed to start issuance result processing",
        )?;
        Ok(BeginIssuanceResultOutcome::Started)
    }
}

/// Marks an issuance of a batch as rejected by the bank, with the customers and providers behind
/// it. One that was rejected before stays so, and one that is not out for issuance is left alone.
pub open spec fn reject_card_issuance_request_atomic_spec(
    st: RunView,
    context: MutationCommandContext,
    batch_id: Uuid,
    result: CardIssuanceResultRow,
) -> (Result<bool, HaltView>, RunView) {
    match script::maybe_text_spec(
        st,
        LOCK_REQUEST_SQL@,
        seq![Bind::Id(result.issuance_request_id), Bind::Id(batch_id)],
        "failed to lock rejected issuance request"@,
    ) { (Err(h), st) => (Err(h), st), (Ok(found), st) =>
    match found {
    None => {
        (Ok(false), st)
    },
    Some(status) =>
    if status@ == "REJECTED"@ {
        (Ok(true), st)
    } else {
    if status@ != "EXPORTED"@ {
        (Ok(false), st)
    } else {
    match script::execute_spec(
        st,
        REJECT_REQUEST_SQL@,
        seq![
            Bind::OptText(result.failure_code),
            Bind::OptText(result.failure_message),
            Bind::Text(context.actor.subject),
            Bind::Id(result.issuance_request_id),
        ],
        "failed to reject issuance request"@,
    ) { (Err(h), st) => (Err(h), st), (Ok(_), st) =>
    match script::execute_spec(
        st,
        REJECT_USERS_SQL@,
        seq![Bind::Text(context.actor.subject), Bind::Id(result.issuance_request_id)],
        "failed to reject pending provider users"@,
    ) { (Err(h), st) => (Err(h), st), (Ok(_), st) =>
    match script::execute_spec(
        st,
        REJECT_PROVIDERS_SQL@,
        seq![Bind::Id(result.issuance_request_id)],
        "failed to reject issuance provider rows"@,
    ) { (Err(h), st) => (Err(h), st), (Ok(_), st) =>
    match script::execute_spec(
        st,
        REJECT_ROW_SQL@,
        seq![
            Bind::OptText(result.failure_code),
            Bind::OptText(result.failure_message),
            Bind::Id(batch_id),
            Bind::Id(result.issuance_request_id),
        ],
        "failed to finalize rejected batch row"@,
    ) { (Err(h), st) => (Err(h), st), (Ok(_), st) =>
    match audit::insert_audit_log_spec(
        st,
        "CARD_ISSUANCE_REQUEST",
        result.issuance_request_id,
        AuditAction::StateTransition,
        Bind::Label("Bank rejected card issuance request"),
        Some(Snapshot::Document(Document::Status("EXPORTED"))),
        Some(Snapshot::Document(Document::IssuanceRejection(result.failure_code))),
        audit::trusted_origin_spec(context.audit),
    ) { (Err(h), st) => (Err(h), st), (Ok(_), st) =>
    (Ok(true), st)
    }}}}}}}}}
}

impl OracleRepository {
    /// Marks an issuance of a batch as rejected by the bank, with the customers and providers
    /// behind it. One that was rejected before stays so, and one that is not out for issuance is
    /// left alone.
    pub fn reject_card_issuance_request_atomic(
        s: &mut Session,
        context: &MutationCommandContext,
        batch_id: Uuid,
        result: &CardIssuanceResultRow,
    ) -> (r: Result<bool, Halt>)
        ensures
            (script::seen(r), final(s)@) == reject_card_issuance_request_atomic_spec(
                old(s)@,
                *context,
                batch_id,
                *result,
            ),
    {
        let found = script::maybe_text(
            s,
            LOCK_REQUEST_SQL,
            binds::binds2(Bind::Id(result.issuance_request_id), Bind::Id(batch_id)),
            "failed to lock rejected issuance request",
        )?;
        let status = match found {
            Some(v) => v,
            None => {
                return Ok(false);
            },
        };
        if text::same_text(status.as_str(), "REJECTED") {
            return Ok(true);
        }
        if !text::same_text(status.as_str(), "EXPORTED") {
            return Ok(false);
        }
        script::execute(
            s,
            REJECT_REQUEST_SQL,
            binds::binds4(
                Bind::OptText(copied(&result.failure_code)),
                Bind::OptText(copied(&result.failure_message)),
                Bind::Text(context.actor.subject.clone()),
                Bind::Id(result.issuance_request_id),
            ),
            "failed to reject issuance request",
        )?;
        script::execute(
            s,
            REJECT_USERS_SQL,
            binds::binds2(
                Bind::Text(context.actor.subject.clone()),
                Bind::Id(result.issuance_request_id),
            ),
            "failed to reject pending provider users",
        )?;
        script::execute(
            s,
            REJECT_PROVIDERS_SQL,
            binds::binds1(Bind::Id(result.issuance_request_id)),
            "failed to reject issuance provider rows",
        )?;
        script::execute(
            s,
            REJECT_ROW_SQL,
            binds::binds4(
                Bind::OptText(copied(&result.failure_code)),
                Bind::OptText(copied(&result.failure_message)),
                Bind::Id(batch_id),
                Bind::Id(result.issuance_request_id),
            ),
            "failed to finalize rejected batch row",
        )?;
        audit::insert_audit_log(
            s,
            "CARD_ISSUANCE_REQUEST",
            result.issuance_request_id,
            AuditAction::StateTransition,
            Bind::Label("Bank rejected card issuance request"),
            Some(Snapshot::Document(Document::Status("EXPORTED"))),
            Some(Snapshot::Document(Document::IssuanceRejection(copied(&result.failure_code)))),
            audit::trusted_origin(&context.audit),
        )?;
        Ok(true)
    }
}

/// The account of a customer that a row holds.
#[verifier::opaque]
pub open spec fn map_staged_provider_spec(row: Row) -> Result<StagedProvider, HaltView> {
    match row.raw_at(2, READ_ROW@) { Err(h) => Err(h), Ok(enrollment_id_raw) =>
    match script::id_of(enrollment_id_raw@) { Err(h) => Err(h), Ok(enrollment_id) =>
    match row.raw_at(0, READ_ROW@) { Err(h) => Err(h), Ok(provider_user_id_raw) =>
    match script::id_of(provider_user_id_raw@) { Err(h) => Err(h), Ok(provider_user_id) =>
    match row.raw_at(1, READ_ROW@) { Err(h) => Err(h), Ok(provider_id_raw) =>
    match script::id_of(provider_id_raw@) { Err(h) => Err(h), Ok(provider_id) =>
    match row.raw_at(3, READ_ROW@) { Err(h) => Err(h), Ok(account_id_raw) =>
    match script::id_of(account_id_raw@) { Err(h) => Err(h), Ok(account_id) =>
    Ok(StagedProvider {
        intent: IssuanceProviderAccountIntent { provider_user_id, provider_id, account_id },
        enrollment_id,
    })
    }}}}}}}}
}

/// The account of a customer that a row holds.
pub fn map_staged_provider(row: &Row) -> (r: Result<StagedProvider, Halt>)
    ensures
        script::seen(r) == map_staged_provider_spec(*row),
{
    proof {
        reveal(map_staged_provider_spec);
    }
    let enrollment_id_raw = row.raw(2, READ_ROW)?;
    let enrollment_id = script::to_id(enrollment_id_raw)?;
    let provider_user_id_raw = row.raw(0, READ_ROW)?;
    let provider_user_id = script::to_id(provider_user_id_raw)?;
    let provider_id_raw = row.raw(1, READ_ROW)?;
    let provider_id = script::to_id(provider_id_raw)?;
    let account_id_raw = row.raw(3, READ_ROW)?;
    let account_id = script::to_id(account_id_raw)?;
    Ok(StagedProvider {
        intent: IssuanceProviderAccountIntent { provider_user_id, provider_id, account_id },
        enrollment_id,
    })
}

/// The accounts of customers that rows hold, in order.
pub open spec fn map_staged_providers_spec(
    rows: Seq<Row>,
    i: nat,
    done: Seq<StagedProvider>,
) -> Result<Seq<StagedProvider>, HaltView>
    decreases rows.len() - i,
{
    if i >= rows.len() {
        Ok(done)
    } else {
        match map_staged_provider_spec(rows[i as int]) {
            Err(h) => Err(h), Ok(item) => map_staged_providers_spec(rows, i + 1, done.push(item))
        }
    }
}

/// The accounts of customers that rows hold, in order.
pub fn map_staged_providers(rows: &Vec<Row>) -> (r: Result<Vec<StagedProvider>, Halt>)
    ensures
        script::seen_view(r) == map_staged_providers_spec(rows@, 0, Seq::empty()),
{
    let mut done: Vec<StagedProvider> = Vec::new();
    let mut i: usize = 0;
    assert(done@ =~= Seq::empty());
    while i < rows.len()
        invariant
            i <= rows@.len(),
            map_staged_providers_spec(rows@, 0, Seq::empty()) == map_staged_providers_spec(
                rows@,
                i as nat,
                done@,
            ),
        decreases rows@.len() - i,
    {
        let item = map_staged_provider(&rows[i])?;
        done.push(item);
        i = i + 1;
    }
    Ok(done)
}

/// Each is that of its own row, and they come in the order of the rows.
pub proof fn map_staged_providers_go_in_turn(rows: Seq<Row>, i: nat, done: Seq<StagedProvider>)
    requires
        i <= rows.len(),
    ensures
        map_staged_providers_spec(rows, i, done) matches Ok(all) ==> {
            &&& all.len() == done.len() + (rows.len() - i)
            &&& all.take(done.len() as int) == done
            &&& forall|k: int| i <= k < rows.len() ==> (#[trigger] rows[k], map_staged_provider_spec(rows[k])) == (
                rows[k],
                Ok::<StagedProvider, HaltView>(all[done.len() + k - i]),
            )
        },
    decreases rows.len() - i,
{
    if i < rows.len() {
        if let Ok(item) = map_staged_provider_spec(rows[i as int]) {
            map_staged_providers_go_in_turn(rows, i + 1, done.push(item));
            if let Ok(all) = map_staged_providers_spec(rows, i, done) {
                assert(
                    all.take(done.len() as int) =~= all.take(
                        done.len() as int + 1,
                    ).take(done.len() as int)
                );
                assert(done.push(item).take(done.len() as int) =~= done);
                assert(
                    all[done.len() as int] == all.take(done.len() as int + 1)[done.len() as int]
                );
            }
        }
    } else {
        assert(done.take(done.len() as int) =~= done);
    }
}

/// The accounts of customers behind an issuance.
pub open spec fn account_intents(
    staged: Seq<StagedProvider>,
) -> Seq<IssuanceProviderAccountIntent> {
    staged.map_values(|provider: StagedProvider| provider.intent)
}

fn to_account_intents(staged: &Vec<StagedProvider>) -> (r: Vec<IssuanceProviderAccountIntent>)
    ensures
        r@ == account_intents(staged@),
{
    let mut intents: Vec<IssuanceProviderAccountIntent> = Vec::new();
    let mut i: usize = 0;
    while i < staged.len()
        invariant
            i <= staged@.len(),
            intents@ =~= account_intents(staged@).take(i as int),
        decreases staged@.len() - i,
    {
        intents.push(staged[i].intent);
        i = i + 1;
    }
    assert(account_intents(staged@).take(i as int) =~= account_intents(staged@));
    intents
}

/// Whose card is issued, in which range, for which issuance of which batch.
#[derive(Clone, Copy, Debug, PartialEq, Eq, Structural)]
pub struct IssuanceParties {
    pub user_id: Uuid,
    pub card_range_id: Uuid,
    pub issuance_request_id: Uuid,
    pub batch_id: Uuid,
}

/// The intent to provision an issued card: its base is about the first provider, and about the
/// enrollment of the last.
pub open spec fn intent_of(
    parties: IssuanceParties,
    operation_id: Uuid,
    card_id: Uuid,
    usage_account_ids: PolicyUsageAccountIds,
    staged: Seq<StagedProvider>,
) -> IssuedIntentView {
    IssuedIntentView {
        base: ExistingCardProvisioningIntent {
            operation_id,
            enrollment_id: staged.last().enrollment_id,
            provider_user_id: staged[0].intent.provider_user_id,
            provider_id: staged[0].intent.provider_id,
            user_id: parties.user_id,
            card_id,
            card_range_id: parties.card_range_id,
            provider_user_account_id: staged[0].intent.account_id,
            usage_account_ids,
        },
        issuance_request_id: parties.issuance_request_id,
        batch_id: parties.batch_id,
        providers: account_intents(staged),
    }
}

fn to_intent(
    parties: IssuanceParties,
    operation_id: Uuid,
    card_id: Uuid,
    usage_account_ids: PolicyUsageAccountIds,
    staged: &Vec<StagedProvider>,
) -> (r: IssuedCardProvisioningIntent)
    requires
        staged@.len() > 0,
    ensures
        r@ == intent_of(parties, operation_id, card_id, usage_account_ids, staged@),
{
    let first = staged[0].intent;
    IssuedCardProvisioningIntent {
        base: ExistingCardProvisioningIntent {
            operation_id,
            enrollment_id: staged[staged.len() - 1].enrollment_id,
            provider_user_id: first.provider_user_id,
            provider_id: first.provider_id,
            user_id: parties.user_id,
            card_id,
            card_range_id: parties.card_range_id,
            provider_user_account_id: first.account_id,
            usage_account_ids,
        },
        issuance_request_id: parties.issuance_request_id,
        batch_id: parties.batch_id,
        providers: to_account_intents(staged),
    }
}

/// The intent behind an issuance that is being provisioned, where there is one.
pub open spec fn load_issued_card_intent_spec(
    st: RunView,
    batch_id: Uuid,
    issuance_request_id: Uuid,
) -> (Result<Option<IssuedIntentView>, HaltView>, RunView) {
    match script::first_row_spec(
        st,
        INTENT_SQL@,
        seq![Bind::Id(issuance_request_id)],
        "rrrrrrrrrrrr",
        "failed to load issued-card recovery intent"@,
        "failed to read issued-card recovery intent"@,
    ) { (Err(h), st) => (Err(h), st), (Ok(found), st) =>
    match found {
    None => {
        (Ok(None), st)
    },
    Some(row) =>
    match row.raw_at(0, READ_ROW@) { Err(h) => (Err(h), st), Ok(operation_id_raw) =>
    match script::id_of(operation_id_raw@) { Err(h) => (Err(h), st), Ok(operation_id) =>
    match row.raw_at(1, READ_ROW@) { Err(h) => (Err(h), st), Ok(card_id_raw) =>
    match script::id_of(card_id_raw@) { Err(h) => (Err(h), st), Ok(card_id) =>
    match row.raw_at(2, READ_ROW@) { Err(h) => (Err(h), st), Ok(user_id_raw) =>
    match script::id_of(user_id_raw@) { Err(h) => (Err(h), st), Ok(user_id) =>
    match row.raw_at(3, READ_ROW@) { Err(h) => (Err(h), st), Ok(card_range_id_raw) =>
    match script::id_of(card_range_id_raw@) { Err(h) => (Err(h), st), Ok(card_range_id) =>
    match row.raw_at(4, READ_ROW@) { Err(h) => (Err(h), st), Ok(amount_daily_raw) =>
    match script::id_of(amount_daily_raw@) { Err(h) => (Err(h), st), Ok(amount_daily) =>
    match row.raw_at(5, READ_ROW@) { Err(h) => (Err(h), st), Ok(amount_weekly_raw) =>
    match script::id_of(amount_weekly_raw@) { Err(h) => (Err(h), st), Ok(amount_weekly) =>
    match row.raw_at(6, READ_ROW@) { Err(h) => (Err(h), st), Ok(amount_monthly_raw) =>
    match script::id_of(amount_monthly_raw@) { Err(h) => (Err(h), st), Ok(amount_monthly) =>
    match row.raw_at(7, READ_ROW@) { Err(h) => (Err(h), st), Ok(amount_yearly_raw) =>
    match script::id_of(amount_yearly_raw@) { Err(h) => (Err(h), st), Ok(amount_yearly) =>
    match row.raw_at(8, READ_ROW@) { Err(h) => (Err(h), st), Ok(count_daily_raw) =>
    match script::id_of(count_daily_raw@) { Err(h) => (Err(h), st), Ok(count_daily) =>
    match row.raw_at(9, READ_ROW@) { Err(h) => (Err(h), st), Ok(count_weekly_raw) =>
    match script::id_of(count_weekly_raw@) { Err(h) => (Err(h), st), Ok(count_weekly) =>
    match row.raw_at(10, READ_ROW@) { Err(h) => (Err(h), st), Ok(count_monthly_raw) =>
    match script::id_of(count_monthly_raw@) { Err(h) => (Err(h), st), Ok(count_monthly) =>
    match row.raw_at(11, READ_ROW@) { Err(h) => (Err(h), st), Ok(count_yearly_raw) =>
    match script::id_of(count_yearly_raw@) { Err(h) => (Err(h), st), Ok(count_yearly) =>
    match script::rows_spec(
        st,
        INTENT_PROVIDERS_SQL@,
        seq![Bind::Id(issuance_request_id)],
        "rrrr",
        "failed to load issued-card recovery providers"@,
    ) { (Err(h), st) => (Err(h), st), (Ok(listed), st) =>
    match map_staged_providers_spec(
        listed.rows@,
        0,
        Seq::empty(),
    ) { Err(h) => (Err(h), st), Ok(staged) =>
    if let Some(cause) = listed.failure {
        (script::failed("failed to read issued-card recovery provider"@, cause@), st)
    } else {
    if staged.len() == 0 {
        (Ok(None), st)
    } else {
    { let parties = IssuanceParties { user_id, card_range_id, issuance_request_id, batch_id };
    (
        Ok(Some(intent_of(
            parties,
            operation_id,
            card_id,
            PolicyUsageAccountIds {
                amount_daily,
                amount_weekly,
                amount_monthly,
                amount_yearly,
                count_daily,
                count_weekly,
                count_monthly,
                count_yearly,
            },
            staged,
        ))),
        st,
    )
    }}}}}}}}}}}}}}}}}}}}}}}}}}}}}}}
}

/// The intent behind an issuance that is being provisioned, where there is one.
pub fn load_issued_card_intent(
    s: &mut Session,
    batch_id: Uuid,
    issuance_request_id: Uuid,
) -> (r: Result<Option<IssuedCardProvisioningIntent>, Halt>)
    ensures
        (script::seen_opt_view(r), final(s)@) == load_issued_card_intent_spec(
            old(s)@,
            batch_id,
            issuance_request_id,
        ),
{
    let found = script::first_row(
        s,
        INTENT_SQL,
        binds::binds1(Bind::Id(issuance_request_id)),
        "rrrrrrrrrrrr",
        "failed to load issued-card recovery intent",
        "failed to read issued-card recovery intent",
    )?;
    let row = match found {
        Some(v) => v,
        None => {
            return Ok(None);
        },
    };
    let operation_id_raw = row.raw(0, READ_ROW)?;
    let operation_id = script::to_id(operation_id_raw)?;
    let card_id_raw = row.raw(1, READ_ROW)?;
    let card_id = script::to_id(card_id_raw)?;
    let user_id_raw = row.raw(2, READ_ROW)?;
    let user_id = script::to_id(user_id_raw)?;
    let card_range_id_raw = row.raw(3, READ_ROW)?;
    let card_range_id = script::to_id(card_range_id_raw)?;
    let amount_daily_raw = row.raw(4, READ_ROW)?;
    let amount_daily = script::to_id(amount_daily_raw)?;
    let amount_weekly_raw = row.raw(5, READ_ROW)?;
    let amount_weekly = script::to_id(amount_weekly_raw)?;
    let amount_monthly_raw = row.raw(6, READ_ROW)?;
    let amount_monthly = script::to_id(amount_monthly_raw)?;
    let amount_yearly_raw = row.raw(7, READ_ROW)?;
    let amount_yearly = script::to_id(amount_yearly_raw)?;
    let count_daily_raw = row.raw(8, READ_ROW)?;
    let count_daily = script::to_id(count_daily_raw)?;
    let count_weekly_raw = row.raw(9, READ_ROW)?;
    let count_weekly = script::to_id(count_weekly_raw)?;
    let count_monthly_raw = row.raw(10, READ_ROW)?;
    let count_monthly = script::to_id(count_monthly_raw)?;
    let count_yearly_raw = row.raw(11, READ_ROW)?;
    let count_yearly = script::to_id(count_yearly_raw)?;
    let listed = script::rows(
        s,
        INTENT_PROVIDERS_SQL,
        binds::binds1(Bind::Id(issuance_request_id)),
        "rrrr",
        "failed to load issued-card recovery providers",
    )?;
    let staged = map_staged_providers(&listed.rows)?;
    if let Some(cause) = &listed.failure {
        return Err(script::fail_because(
            "failed to read issued-card recovery provider",
            cause.as_str(),
        ));
    }
    if staged.len() == 0 {
        return Ok(None);
    }
    let parties = IssuanceParties { user_id, card_range_id, issuance_request_id, batch_id };
    Ok(Some(to_intent(
        parties,
        operation_id,
        card_id,
        PolicyUsageAccountIds {
            amount_daily,
            amount_weekly,
            amount_monthly,
            amount_yearly,
            count_daily,
            count_weekly,
            count_monthly,
            count_yearly,
        },
        &staged,
    )))
}

/// Stages the account, the funding source and the customer that a row names, for a card.
pub open spec fn stage_provider_spec(
    st: RunView,
    row: Row,
    parties: IssuanceParties,
    card_id: Uuid,
    subject: String,
) -> (Result<StagedProvider, HaltView>, RunView) {
    match row.raw_at(0, READ_ROW@) { Err(h) => (Err(h), st), Ok(provider_user_raw) =>
    match row.raw_at(1, READ_ROW@) { Err(h) => (Err(h), st), Ok(provider_raw) =>
    match row.raw_at(2, READ_ROW@) { Err(h) => (Err(h), st), Ok(enrollment_raw) =>
    match row.int_at(3, READ_ROW@) { Err(h) => (Err(h), st), Ok(priority) =>
    match script::id_of(provider_user_raw@) { Err(h) => (Err(h), st), Ok(provider_user_id) =>
    match script::id_of(provider_raw@) { Err(h) => (Err(h), st), Ok(provider_id) =>
    match script::id_of(enrollment_raw@) { Err(h) => (Err(h), st), Ok(enrollment_id) =>
    match script::consult_id_spec(
        st,
        Rule::ProviderUserAccount(provider_id, parties.user_id),
    ) { (Err(h), st) => (Err(h), st), (Ok(account_id), st) =>
    match script::execute_spec(
        st,
        STAGE_ACCOUNT_SQL@,
        seq![
            Bind::Id(account_id),
            Bind::Id(provider_user_id),
            Bind::Id(provider_id),
            Bind::Id(parties.user_id),
        ],
        "failed to stage issued provider-user account"@,
    ) { (Err(h), st) => (Err(h), st), (Ok(_), st) =>
    match script::fresh_id_spec(st) { (Err(h), st) => (Err(h), st), (Ok(funding_id), st) =>
    match script::execute_spec(
        st,
        STAGE_FUNDING_SQL@,
        seq![
            Bind::Id(funding_id),
            Bind::Id(card_id),
            Bind::Id(provider_id),
            Bind::Id(provider_user_id),
            Bind::Id(account_id),
            Bind::Int(priority),
            Bind::Text(subject),
        ],
        "failed to stage issued card funding source"@,
    ) { (Err(h), st) => (Err(h), st), (Ok(_), st) =>
    match script::execute_spec(
        st,
        STAGE_USER_SQL@,
        seq![Bind::Text(subject), Bind::Id(provider_user_id)],
        "failed to stage issued provider user"@,
    ) { (Err(h), st) => (Err(h), st), (Ok(_), st) =>
    match script::execute_spec(
        st,
        STAGE_PROVIDER_SQL@,
        seq![Bind::Id(parties.issuance_request_id), Bind::Id(provider_id)],
        "failed to stage issuance provider row"@,
    ) { (Err(h), st) => (Err(h), st), (Ok(_), st) =>
    (
        Ok(StagedProvider {
            intent: IssuanceProviderAccountIntent { provider_user_id, provider_id, account_id },
            enrollment_id,
        }),
        st,
    )
    }}}}}}}}}}}}}
}

/// Stages the account, the funding source and the customer that a row names, for a card.
pub fn stage_provider(
    s: &mut Session,
    row: &Row,
    parties: IssuanceParties,
    card_id: Uuid,
    subject: &String,
) -> (r: Result<StagedProvider, Halt>)
    ensures
        (script::seen(r), final(s)@) == stage_provider_spec(
            old(s)@,
            *row,
            parties,
            card_id,
            *subject,
        ),
{
    let provider_user_raw = row.raw(0, READ_ROW)?;
    let provider_raw = row.raw(1, READ_ROW)?;
    let enrollment_raw = row.raw(2, READ_ROW)?;
    let priority: i64 = row.number(3, READ_ROW)?;
    let provider_user_id = script::to_id(provider_user_raw)?;
    let provider_id = script::to_id(provider_raw)?;
    let enrollment_id = script::to_id(enrollment_raw)?;
    let account_id = script::consult_id(
        s,
        Rule::ProviderUserAccount(provider_id, parties.user_id),
    )?;
    script::execute(
        s,
        STAGE_ACCOUNT_SQL,
        binds::binds4(
            Bind::Id(account_id),
            Bind::Id(provider_user_id),
            Bind::Id(provider_id),
            Bind::Id(parties.user_id),
        ),
        "failed to stage issued provider-user account",
    )?;
    let funding_id = script::fresh_id(s)?;
    script::execute(
        s,
        STAGE_FUNDING_SQL,
        binds::binds7(
            Bind::Id(funding_id),
            Bind::Id(card_id),
            Bind::Id(provider_id),
            Bind::Id(provider_user_id),
            Bind::Id(account_id),
            Bind::Int(priority),
            Bind::Text(subject.clone()),
        ),
        "failed to stage issued card funding source",
    )?;
    script::execute(
        s,
        STAGE_USER_SQL,
        binds::binds2(Bind::Text(subject.clone()), Bind::Id(provider_user_id)),
        "failed to stage issued provider user",
    )?;
    script::execute(
        s,
        STAGE_PROVIDER_SQL,
        binds::binds2(Bind::Id(parties.issuance_request_id), Bind::Id(provider_id)),
        "failed to stage issuance provider row",
    )?;
    Ok(StagedProvider {
        intent: IssuanceProviderAccountIntent { provider_user_id, provider_id, account_id },
        enrollment_id,
    })
}

/// Stages what rows name, in order, for a card.
pub open spec fn stage_providers_spec(
    st: RunView,
    rows: Seq<Row>,
    i: nat,
    parties: IssuanceParties,
    card_id: Uuid,
    subject: String,
    done: Seq<StagedProvider>,
) -> (Result<Seq<StagedProvider>, HaltView>, RunView)
    decreases rows.len() - i,
{
    if i >= rows.len() {
        (Ok(done), st)
    } else {
        match stage_provider_spec(st, rows[i as int], parties, card_id, subject) {
            (Err(h), st) => (Err(h), st), (Ok(item), st) => stage_providers_spec(
                st,
                rows,
                i + 1,
                parties,
                card_id,
                subject,
                done.push(item),
            )
        }
    }
}

/// Stages what rows name, in order, for a card.
pub fn stage_providers(
    s: &mut Session,
    rows: &Vec<Row>,
    parties: IssuanceParties,
    card_id: Uuid,
    subject: &String,
) -> (r: Result<Vec<StagedProvider>, Halt>)
    ensures
        (script::seen_view(r), final(s)@) == stage_providers_spec(
            old(s)@,
            rows@,
            0,
            parties,
            card_id,
            *subject,
            Seq::empty(),
        ),
{
    let mut done: Vec<StagedProvider> = Vec::new();
    let mut i: usize = 0;
    assert(done@ =~= Seq::empty());
    while i < rows.len()
        invariant
            i <= rows@.len(),
            stage_providers_spec(old(s)@, rows@, 0, parties, card_id, *subject, Seq::empty()) == stage_providers_spec(
                s@,
                rows@,
                i as nat,
                parties,
                card_id,
                *subject,
                done@,
            ),
        decreases rows@.len() - i,
    {
        let item = stage_provider(s, &rows[i], parties, card_id, subject)?;
        done.push(item);
        i = i + 1;
    }
    Ok(done)
}

/// Each is taken in its turn, after those before it, and the first that fails ends the run.
pub proof fn stage_providers_go_in_turn(
    st: RunView,
    rows: Seq<Row>,
    i: nat,
    parties: IssuanceParties,
    card_id: Uuid,
    subject: String,
    done: Seq<StagedProvider>,
)
    ensures
        ({
            let whole = stage_providers_spec(st, rows, i, parties, card_id, subject, done);
            let (next, at) = stage_provider_spec(st, rows[i as int], parties, card_id, subject);
            &&& i >= rows.len() ==> whole == (Ok::<_, HaltView>(done), st)
            &&& i < rows.len() ==> match next {
                Ok(item) => {
                    whole == stage_providers_spec(
                        at,
                        rows,
                        i + 1,
                        parties,
                        card_id,
                        subject,
                        done.push(item),
                    )
                },
                Err(halt) => whole.0 == Err::<Seq<StagedProvider>, _>(halt) && whole.1 == at,
            }
        }),
{
}

/// Stages an issued card, with the accounts of all its providers, and stores the intent to
/// provision it.
pub open spec fn stage_issued_card_spec(
    st: RunView,
    context: MutationCommandContext,
    result: CardIssuanceResultRow,
    card_number: String,
    parties: IssuanceParties,
) -> (Result<PrepareIssuedCardView, HaltView>, RunView) {
    match script::fresh_id_spec(st) { (Err(h), st) => (Err(h), st), (Ok(card_id), st) =>
    match script::execute_spec(
        st,
        STAGE_CARD_SQL@,
        seq![
            Bind::Id(card_id),
            Bind::Text(card_number),
            Bind::Id(parties.user_id),
            Bind::Id(parties.card_range_id),
            Bind::Text(context.actor.subject),
        ],
        "failed to stage issued card"@,
    ) { (Err(h), st) => (Err(h), st), (Ok(_), st) =>
    match script::usage_accounts_spec(
        st,
        card_id,
    ) { (Err(h), st) => (Err(h), st), (Ok(usage), st) =>
    match provider_user::ensure_usage_account_mapping_spec(
        st,
        card_id,
        usage,
    ) { (Err(h), st) => (Err(h), st), (Ok(_), st) =>
    match script::rows_spec(
        st,
        PENDING_PROVIDERS_SQL@,
        seq![Bind::Id(parties.issuance_request_id)],
        "rrri",
        "failed to list pending issuance providers"@,
    ) { (Err(h), st) => (Err(h), st), (Ok(listed), st) =>
    match stage_providers_spec(
        st,
        listed.rows@,
        0,
        parties,
        card_id,
        context.actor.subject,
        Seq::empty(),
    ) { (Err(h), st) => (Err(h), st), (Ok(staged), st) =>
    if let Some(cause) = listed.failure {
        (script::failed("failed to read pending issuance provider"@, cause@), st)
    } else {
    if staged.len() == 0 {
        (script::query_fault("issued request has no pending providers"@), st)
    } else {
    match script::fresh_id_spec(st) { (Err(h), st) => (Err(h), st), (Ok(operation_id), st) =>
    match script::consult_text_spec(
        st,
        Rule::DurableCommand(context.lasting()),
    ) { (Err(h), st) => (Err(h), st), (Ok(durable), st) =>
    match script::consult_text_spec(
        st,
        Rule::UsageAccountsDocument(usage),
    ) { (Err(h), st) => (Err(h), st), (Ok(counted), st) =>
    { let facts = IssuanceWalFacts {
        finalization: IssuedCardFinalizationSnapshot::kept_of(result),
        issuance_request_id: parties.issuance_request_id,
        batch_id: parties.batch_id,
        card_id,
        card_range_id: parties.card_range_id,
        command_context: durable,
        policy_usage_account_ids: counted,
    };
    match script::consult_text_with_spec(
        st,
        Rule::IssuanceWal(facts),
        AttachmentView::AccountIntents(account_intents(staged)),
    ) { (Err(h), st) => (Err(h), st), (Ok(wal), st) =>
    match script::execute_spec(
        st,
        STAGE_WAL_SQL@,
        seq![Bind::Id(operation_id), Bind::Id(parties.issuance_request_id), Bind::Text(wal)],
        "failed to create issued card WAL"@,
    ) { (Err(h), st) => (Err(h), st), (Ok(_), st) =>
    match script::execute_spec(
        st,
        PROCESSING_SQL@,
        seq![Bind::Id(parties.issuance_request_id)],
        "failed to mark issuance request processing"@,
    ) { (Err(h), st) => (Err(h), st), (Ok(_), st) =>
    (
        Ok(PrepareIssuedCardView::Prepared(intent_of(
            parties,
            operation_id,
            card_id,
            usage,
            staged,
        ))),
        st,
    )
    }}}}}}}}}}}}}}}
}

/// Stages an issued card, with the accounts of all its providers, and stores the intent to
/// provision it.
pub fn stage_issued_card(
    s: &mut Session,
    context: &MutationCommandContext,
    result: &CardIssuanceResultRow,
    card_number: &String,
    parties: IssuanceParties,
) -> (r: Result<PrepareIssuedCardOutcome, Halt>)
    ensures
        (script::seen_view(r), final(s)@) == stage_issued_card_spec(
            old(s)@,
            *context,
            *result,
            *card_number,
            parties,
        ),
{
    let card_id = script::fresh_id(s)?;
    script::execute(
        s,
        STAGE_CARD_SQL,
        binds::binds5(
            Bind::Id(card_id),
            Bind::Text(card_number.clone()),
            Bind::Id(parties.user_id),
            Bind::Id(parties.card_range_id),
            Bind::Text(context.actor.subject.clone()),
        ),
        "failed to stage issued card",
    )?;
    let usage = script::usage_accounts(s, card_id)?;
    provider_user::ensure_usage_account_mapping(s, card_id, &usage)?;
    let listed = script::rows(
        s,
        PENDING_PROVIDERS_SQL,
        binds::binds1(Bind::Id(parties.issuance_request_id)),
        "rrri",
        "failed to list pending issuance providers",
    )?;
    let staged = stage_providers(s, &listed.rows, parties, card_id, &context.actor.subject)?;
    if let Some(cause) = &listed.failure {
        return Err(script::fail_because(
            "failed to read pending issuance provider",
            cause.as_str(),
        ));
    }
    if staged.len() == 0 {
        return Err(script::fail_query("issued request has no pending providers"));
    }
    let operation_id = script::fresh_id(s)?;
    let durable = script::consult_text(s, Rule::DurableCommand(context.durable()))?;
    let counted = script::consult_text(s, Rule::UsageAccountsDocument(usage))?;
    let facts = IssuanceWalFacts {
        finalization: IssuedCardFinalizationSnapshot::from_result(result),
        issuance_request_id: parties.issuance_request_id,
        batch_id: parties.batch_id,
        card_id,
        card_range_id: parties.card_range_id,
        command_context: durable.clone(),
        policy_usage_account_ids: counted.clone(),
    };
    let wal = script::consult_text_with(
        s,
        Rule::IssuanceWal(facts),
        Attachment::AccountIntents(to_account_intents(&staged)),
    )?;
    script::execute(
        s,
        STAGE_WAL_SQL,
        binds::binds3(
            Bind::Id(operation_id),
            Bind::Id(parties.issuance_request_id),
            Bind::Text(wal.clone()),
        ),
        "failed to create issued card WAL",
    )?;
    script::execute(
        s,
        PROCESSING_SQL,
        binds::binds1(Bind::Id(parties.issuance_request_id)),
        "failed to mark issuance request processing",
    )?;
    Ok(PrepareIssuedCardOutcome::Prepared(Box::new(to_intent(
        parties,
        operation_id,
        card_id,
        usage,
        &staged,
    ))))
}

/// Stages the card that the bank issued, where its number is within the range, not in use, and the
/// user has no active card there. One that is staged already is taken up again.
pub open spec fn prepare_issued_card_atomic_spec(
    st: RunView,
    context: MutationCommandContext,
    batch_id: Uuid,
    result: CardIssuanceResultRow,
) -> (Result<PrepareIssuedCardView, HaltView>, RunView) {
    match script::maybe_row_spec(
        st,
        ISSUED_REQUEST_SQL@,
        seq![Bind::Id(result.issuance_request_id), Bind::Id(batch_id)],
        "rrt",
        "failed to lock issued request"@,
    ) { (Err(h), st) => (Err(h), st), (Ok(found), st) =>
    match found {
    None => {
        (Ok(PrepareIssuedCardView::RequestNotFound), st)
    },
    Some(row) =>
    match row.raw_at(0, READ_ROW@) { Err(h) => (Err(h), st), Ok(user_raw) =>
    match row.raw_at(1, READ_ROW@) { Err(h) => (Err(h), st), Ok(range_raw) =>
    match row.text_at(2, READ_ROW@) { Err(h) => (Err(h), st), Ok(status) =>
    if status@ == "ISSUED"@ {
        (Ok(PrepareIssuedCardView::AlreadyProcessed), st)
    } else {
    if status@ == "PROCESSING_RESULT"@ || status@ == "RECOVERY_REQUIRED"@ {
        match load_issued_card_intent_spec(
            st,
            batch_id,
            result.issuance_request_id,
        ) { (Err(h), st) => (Err(h), st), (Ok(loaded), st) =>
        match loaded {
        None => {
            (Ok(PrepareIssuedCardView::RequestNotFound), st)
        },
        Some(intent) =>
        (Ok(PrepareIssuedCardView::Prepared(intent)), st)
        }}
    } else {
    if status@ != "EXPORTED"@ {
        (Ok(PrepareIssuedCardView::RequestNotFound), st)
    } else {
    match script::id_of(user_raw@) { Err(h) => (Err(h), st), Ok(user_id) =>
    match script::id_of(range_raw@) { Err(h) => (Err(h), st), Ok(card_range_id) =>
    match result.card_number {
    None => {
        (script::query_fault("issued result has no card number"@), st)
    },
    Some(card_number) =>
    match script::one_int_spec(
        st,
        PAN_RANGE_SQL@,
        seq![Bind::Id(card_range_id), Bind::Text(card_number)],
        "failed to validate issued PAN range"@,
    ) { (Err(h), st) => (Err(h), st), (Ok(in_range), st) =>
    if in_range != 1 {
        (Ok(PrepareIssuedCardView::InvalidPanRange), st)
    } else {
    match script::one_int_spec(
        st,
        PAN_TAKEN_SQL@,
        seq![Bind::Text(card_number)],
        "failed to check issued PAN uniqueness"@,
    ) { (Err(h), st) => (Err(h), st), (Ok(taken), st) =>
    if taken != 0 {
        (Ok(PrepareIssuedCardView::CardNumberConflict), st)
    } else {
    match script::one_int_spec(
        st,
        ACTIVE_CARDS_SQL@,
        seq![Bind::Id(user_id), Bind::Id(card_range_id)],
        "failed to check active card uniqueness"@,
    ) { (Err(h), st) => (Err(h), st), (Ok(active), st) =>
    if active != 0 {
        (Ok(PrepareIssuedCardView::ActiveCardConflict), st)
    } else {
    stage_issued_card_spec(
        st,
        context,
        result,
        card_number,
        IssuanceParties {
            user_id,
            card_range_id,
            issuance_request_id: result.issuance_request_id,
            batch_id,
        },
    )
    }}}}}}}}}}}}}}}}}
}

impl OracleRepository {
    /// Stages the card that the bank issued, where its number is within the range, not in use, and
    /// the user has no active card there. One that is staged already is taken up again.
    pub fn prepare_issued_card_atomic(
        s: &mut Session,
        context: &MutationCommandContext,
        batch_id: Uuid,
        result: &CardIssuanceResultRow,
    ) -> (r: Result<PrepareIssuedCardOutcome, Halt>)
        ensures
            (script::seen_view(r), final(s)@) == prepare_issued_card_atomic_spec(
                old(s)@,
                *context,
                batch_id,
                *result,
            ),
    {
        let found = script::maybe_row(
            s,
            ISSUED_REQUEST_SQL,
            binds::binds2(Bind::Id(result.issuance_request_id), Bind::Id(batch_id)),
            "rrt",
            "failed to lock issued request",
        )?;
        let row = match found {
            Some(v) => v,
            None => {
                return Ok(PrepareIssuedCardOutcome::RequestNotFound);
            },
        };
        let user_raw = row.raw(0, READ_ROW)?;
        let range_raw = row.raw(1, READ_ROW)?;
        let status = row.text(2, READ_ROW)?;
        if text::same_text(status.as_str(), "ISSUED") {
            return Ok(PrepareIssuedCardOutcome::AlreadyProcessed);
        }
        if text::same_text(status.as_str(), "PROCESSING_RESULT")
            || text::same_text(status.as_str(), "RECOVERY_REQUIRED") {
            let loaded = load_issued_card_intent(s, batch_id, result.issuance_request_id)?;
            let intent = match loaded {
                Some(v) => v,
                None => {
                    return Ok(PrepareIssuedCardOutcome::RequestNotFound);
                },
            };
            return Ok(PrepareIssuedCardOutcome::Prepared(Box::new(intent)));
        }
        if !text::same_text(status.as_str(), "EXPORTED") {
            return Ok(PrepareIssuedCardOutcome::RequestNotFound);
        }
        let user_id = script::to_id(user_raw)?;
        let card_range_id = script::to_id(range_raw)?;
        let card_number = match &result.card_number {
            Some(v) => v,
            None => {
                return Err(script::fail_query("issued result has no card number"));
            },
        };
        let in_range = script::one_int(
            s,
            PAN_RANGE_SQL,
            binds::binds2(Bind::Id(card_range_id), Bind::Text(card_number.clone())),
            "failed to validate issued PAN range",
        )?;
        if in_range != 1 {
            return Ok(PrepareIssuedCardOutcome::InvalidPanRange);
        }
        let taken = script::one_int(
            s,
            PAN_TAKEN_SQL,
            binds::binds1(Bind::Text(card_number.clone())),
            "failed to check issued PAN uniqueness",
        )?;
        if taken != 0 {
            return Ok(PrepareIssuedCardOutcome::CardNumberConflict);
        }
        let active = script::one_int(
            s,
            ACTIVE_CARDS_SQL,
            binds::binds2(Bind::Id(user_id), Bind::Id(card_range_id)),
            "failed to check active card uniqueness",
        )?;
        if active != 0 {
            return Ok(PrepareIssuedCardOutcome::ActiveCardConflict);
        }
        stage_issued_card(
            s,
            context,
            result,
            card_number,
            IssuanceParties {
                user_id,
                card_range_id,
                issuance_request_id: result.issuance_request_id,
                batch_id,
            },
        )
    }
}

/// Activates an issued card with all that was staged for it, and marks its issuance as issued.
pub open spec fn activate_issued_card_spec(
    st: RunView,
    context: DurableMutationContext,
    intent: IssuedCardProvisioningIntent,
    result: CardIssuanceResultRow,
) -> (Result<(), HaltView>, RunView) {
    match script::execute_spec(
        st,
        ACTIVATE_CARD_SQL@,
        seq![Bind::Text(context.audit.actor_subject), Bind::Id(intent.base.card_id)],
        "failed to activate issued card"@,
    ) { (Err(h), st) => (Err(h), st), (Ok(_), st) =>
    match script::execute_spec(
        st,
        ACTIVATE_USAGE_SQL@,
        seq![Bind::Id(intent.base.card_id)],
        "failed to activate issued usage accounts"@,
    ) { (Err(h), st) => (Err(h), st), (Ok(_), st) =>
    match script::execute_spec(
        st,
        ACTIVATE_ACCOUNTS_SQL@,
        seq![Bind::Id(intent.issuance_request_id)],
        "failed to activate issued provider-user accounts"@,
    ) { (Err(h), st) => (Err(h), st), (Ok(_), st) =>
    match script::execute_spec(
        st,
        ACTIVATE_USERS_SQL@,
        seq![Bind::Text(context.audit.actor_subject), Bind::Id(intent.issuance_request_id)],
        "failed to activate issued provider users"@,
    ) { (Err(h), st) => (Err(h), st), (Ok(_), st) =>
    match script::execute_spec(
        st,
        ACTIVATE_FUNDING_SQL@,
        seq![Bind::Text(context.audit.actor_subject), Bind::Id(intent.base.card_id)],
        "failed to activate issued funding sources"@,
    ) { (Err(h), st) => (Err(h), st), (Ok(_), st) =>
    match script::execute_spec(
        st,
        ACTIVATE_PROVIDERS_SQL@,
        seq![Bind::Id(intent.issuance_request_id)],
        "failed to activate issuance provider rows"@,
    ) { (Err(h), st) => (Err(h), st), (Ok(_), st) =>
    match script::execute_spec(
        st,
        ISSUED_SQL@,
        seq![
            Bind::OptText(result.issuer_reference),
            Bind::OptTime(result.produced_at),
            Bind::OptTime(result.dispatched_at),
            Bind::OptText(result.tracking_reference),
            Bind::Text(context.audit.actor_subject),
            Bind::Id(intent.issuance_request_id),
        ],
        "failed to finalize issued request"@,
    ) { (Err(h), st) => (Err(h), st), (Ok(_), st) =>
    match script::execute_spec(
        st,
        ISSUED_ROW_SQL@,
        seq![Bind::Id(intent.batch_id), Bind::Id(intent.issuance_request_id)],
        "failed to finalize issued batch row"@,
    ) { (Err(h), st) => (Err(h), st), (Ok(_), st) =>
    match script::execute_spec(
        st,
        COMPLETE_WAL_SQL@,
        seq![Bind::Json(Document::Verified), Bind::Id(intent.base.operation_id)],
        "failed to complete issued card WAL"@,
    ) { (Err(h), st) => (Err(h), st), (Ok(_), st) =>
    (Ok(()), st)
    }}}}}}}}}
}

/// Activates an issued card with all that was staged for it, and marks its issuance as issued.
pub fn activate_issued_card(
    s: &mut Session,
    context: &DurableMutationContext,
    intent: &IssuedCardProvisioningIntent,
    result: &CardIssuanceResultRow,
) -> (r: Result<(), Halt>)
    ensures
        (script::seen(r), final(s)@) == activate_issued_card_spec(
            old(s)@,
            *context,
            *intent,
            *result,
        ),
{
    script::execute(
        s,
        ACTIVATE_CARD_SQL,
        binds::binds2(
            Bind::Text(context.audit.actor_subject.clone()),
            Bind::Id(intent.base.card_id),
        ),
        "failed to activate issued card",
    )?;
    script::execute(
        s,
        ACTIVATE_USAGE_SQL,
        binds::binds1(Bind::Id(intent.base.card_id)),
        "failed to activate issued usage accounts",
    )?;
    script::execute(
        s,
        ACTIVATE_ACCOUNTS_SQL,
        binds::binds1(Bind::Id(intent.issuance_request_id)),
        "failed to activate issued provider-user accounts",
    )?;
    script::execute(
        s,
        ACTIVATE_USERS_SQL,
        binds::binds2(
            Bind::Text(context.audit.actor_subject.clone()),
            Bind::Id(intent.issuance_request_id),
        ),
        "failed to activate issued provider users",
    )?;
    script::execute(
        s,
        ACTIVATE_FUNDING_SQL,
        binds::binds2(
            Bind::Text(context.audit.actor_subject.clone()),
            Bind::Id(intent.base.card_id),
        ),
        "failed to activate issued funding sources",
    )?;
    script::execute(
        s,
        ACTIVATE_PROVIDERS_SQL,
        binds::binds1(Bind::Id(intent.issuance_request_id)),
        "failed to activate issuance provider rows",
    )?;
    script::execute(
        s,
        ISSUED_SQL,
        binds::binds6(
            Bind::OptText(copied(&result.issuer_reference)),
            Bind::OptTime(result.produced_at),
            Bind::OptTime(result.dispatched_at),
            Bind::OptText(copied(&result.tracking_reference)),
            Bind::Text(context.audit.actor_subject.clone()),
            Bind::Id(intent.issuance_request_id),
        ),
        "failed to finalize issued request",
    )?;
    script::execute(
        s,
        ISSUED_ROW_SQL,
        binds::binds2(Bind::Id(intent.batch_id), Bind::Id(intent.issuance_request_id)),
        "failed to finalize issued batch row",
    )?;
    script::execute(
        s,
        COMPLETE_WAL_SQL,
        binds::binds2(Bind::Json(Document::Verified), Bind::Id(intent.base.operation_id)),
        "failed to complete issued card WAL",
    )?;
    Ok(())
}

/// Activates an issued card once its accounts exist, and tells the runtime.
pub open spec fn finalize_issued_card_atomic_spec(
    st: RunView,
    context: DurableMutationContext,
    intent: IssuedCardProvisioningIntent,
    result: CardIssuanceResultRow,
) -> (Result<(), HaltView>, RunView) {
    match activate_issued_card_spec(
        st,
        context,
        intent,
        result,
    ) { (Err(h), st) => (Err(h), st), (Ok(_), st) =>
    match script::fresh_id_spec(st) { (Err(h), st) => (Err(h), st), (Ok(operation_id), st) =>
    match provider_user::insert_card_projection_outbox_spec(
        st,
        intent.base.card_id,
        operation_id,
        Some(CardProfileRefreshReason::CardCreated),
        context.headers(),
    ) { (Err(h), st) => (Err(h), st), (Ok(_), st) =>
    match audit::insert_audit_log_spec(
        st,
        "CARD",
        intent.base.card_id,
        AuditAction::Insert,
        Bind::Label("Bank completed card issuance"),
        None,
        Some(Snapshot::Document(Document::IssuedCard(
            intent.base.card_id,
            intent.base.card_range_id,
            intent.providers@.len() as u64,
        ))),
        audit::trusted_origin_spec(context.audit),
    ) { (Err(h), st) => (Err(h), st), (Ok(_), st) =>
    (Ok(()), st)
    }}}}
}

impl OracleRepository {
    /// Activates an issued card once its accounts exist, and tells the runtime.
    pub fn finalize_issued_card_atomic(
        s: &mut Session,
        context: &DurableMutationContext,
        intent: &IssuedCardProvisioningIntent,
        result: &CardIssuanceResultRow,
    ) -> (r: Result<(), Halt>)
        ensures
            (script::seen(r), final(s)@) == finalize_issued_card_atomic_spec(
                old(s)@,
                *context,
                *intent,
                *result,
            ),
    {
        activate_issued_card(s, context, intent, result)?;
        let operation_id = script::fresh_id(s)?;
        provider_user::insert_card_projection_outbox(
            s,
            intent.base.card_id,
            operation_id,
            Some(CardProfileRefreshReason::CardCreated),
            &context.event_headers(),
        )?;
        audit::insert_audit_log(
            s,
            "CARD",
            intent.base.card_id,
            AuditAction::Insert,
            Bind::Label("Bank completed card issuance"),
            None,
            Some(Snapshot::Document(Document::IssuedCard(
                intent.base.card_id,
                intent.base.card_range_id,
                intent.providers.len() as u64,
            ))),
            audit::trusted_origin(&context.audit),
        )?;
        Ok(())
    }
}

/// The number of the issuances of a batch with an outcome.
pub open spec fn outcome_count_spec(
    st: RunView,
    batch_id: Uuid,
    status: &'static str,
    failure: Seq<char>,
) -> (Result<i64, HaltView>, RunView) {
    script::one_int_spec(
        st,
        OUTCOME_COUNT_SQL@,
        seq![Bind::Id(batch_id), Bind::Label(status)],
        failure,
    )
}

/// The number of the issuances of a batch with an outcome.
pub fn outcome_count(
    s: &mut Session,
    batch_id: Uuid,
    status: &'static str,
    failure: &str,
) -> (r: Result<i64, Halt>)
    ensures
        (script::seen(r), final(s)@) == outcome_count_spec(old(s)@, batch_id, status, failure@),
{
    script::one_int(
        s,
        OUTCOME_COUNT_SQL,
        binds::binds2(Bind::Id(batch_id), Bind::Label(status)),
        failure,
    )
}

/// The outcomes of a batch account for all its issuances.
pub open spec fn accounted_for(
    issued: i64,
    rejected: i64,
    failed: i64,
    request_count: i64,
) -> bool {
    issued + rejected + failed == request_count
}

/// Whether the outcomes of a batch account for all its issuances.
pub fn is_accounted_for(issued: i64, rejected: i64, failed: i64, request_count: i64) -> (r: bool)
    ensures
        r == accounted_for(issued, rejected, failed, request_count),
{
    issued as i128 + rejected as i128 + failed as i128 == request_count as i128
}

/// The status of a batch whose issuances are accounted for: complete, unless some failed.
pub open spec fn batch_outcome(failed: i64) -> &'static str {
    if failed == 0 {
        "COMPLETED"
    } else {
        "PARTIALLY_COMPLETED"
    }
}

/// The status of a batch whose issuances are accounted for: complete, unless some failed.
pub fn to_batch_outcome(failed: i64) -> (r: &'static str)
    ensures
        r == batch_outcome(failed),
{
    if failed == 0 {
        "COMPLETED"
    } else {
        "PARTIALLY_COMPLETED"
    }
}

/// Completes a batch whose issuances are all accounted for.
pub open spec fn complete_card_issuance_result_atomic_spec(
    st: RunView,
    context: DurableMutationContext,
    batch_id: Uuid,
) -> (Result<CardIssuanceBatch, HaltView>, RunView) {
    match outcome_count_spec(
        st,
        batch_id,
        "ISSUED",
        "failed to count issuance outcomes"@,
    ) { (Err(h), st) => (Err(h), st), (Ok(issued), st) =>
    match outcome_count_spec(
        st,
        batch_id,
        "REJECTED",
        "failed to count issuance outcomes"@,
    ) { (Err(h), st) => (Err(h), st), (Ok(rejected), st) =>
    match outcome_count_spec(
        st,
        batch_id,
        "FAILED",
        "failed to count issuance outcomes"@,
    ) { (Err(h), st) => (Err(h), st), (Ok(failed), st) =>
    match script::one_int_spec(
        st,
        REQUEST_COUNT_SQL@,
        seq![Bind::Id(batch_id)],
        "failed to lock completing issuance batch"@,
    ) { (Err(h), st) => (Err(h), st), (Ok(request_count), st) =>
    if !accounted_for(issued, rejected, failed, request_count) {
        (script::conflict_fault("issuance result still has unprocessed rows"@), st)
    } else {
    match script::execute_spec(
        st,
        COMPLETE_BATCH_SQL@,
        seq![
            Bind::Label(batch_outcome(failed)),
            Bind::Int(issued),
            Bind::Int(rejected),
            Bind::Int(failed),
            Bind::Text(context.audit.actor_subject),
            Bind::Id(batch_id),
        ],
        "failed to complete issuance batch"@,
    ) { (Err(h), st) => (Err(h), st), (Ok(_), st) =>
    match card_issuance::fetch_batch_spec(
        st,
        batch_id,
    ) { (Err(h), st) => (Err(h), st), (Ok(found), st) =>
    match found {
    None => {
        (script::query_fault("completed issuance batch disappeared"@), st)
    },
    Some(batch) =>
    match script::encode_spec(
        st,
        Rule::IssuanceBatchResponse(batch),
        "failed to serialize completed issuance batch"@,
    ) { (Err(h), st) => (Err(h), st), (Ok(response), st) =>
    match idempotency::complete_idempotency_record_spec(
        st,
        context.operation_type,
        context.idempotency_key,
        "card_issuance_batch",
        batch_id,
        Snapshot::Text(response),
    ) { (Err(h), st) => (Err(h), st), (Ok(_), st) =>
    (Ok(batch), st)
    }}}}}}}}}}
}

impl OracleRepository {
    /// Completes a batch whose issuances are all accounted for.
    pub fn complete_card_issuance_result_atomic(
        s: &mut Session,
        context: &DurableMutationContext,
        batch_id: Uuid,
    ) -> (r: Result<CardIssuanceBatch, Halt>)
        ensures
            (script::seen(r), final(s)@) == complete_card_issuance_result_atomic_spec(
                old(s)@,
                *context,
                batch_id,
            ),
    {
        let issued: i64 = outcome_count(
            s,
            batch_id,
            "ISSUED",
            "failed to count issuance outcomes",
        )?;
        let rejected: i64 = outcome_count(
            s,
            batch_id,
            "REJECTED",
            "failed to count issuance outcomes",
        )?;
        let failed: i64 = outcome_count(
            s,
            batch_id,
            "FAILED",
            "failed to count issuance outcomes",
        )?;
        let request_count = script::one_int(
            s,
            REQUEST_COUNT_SQL,
            binds::binds1(Bind::Id(batch_id)),
            "failed to lock completing issuance batch",
        )?;
        if !is_accounted_for(issued, rejected, failed, request_count) {
            return Err(script::fail_conflict("issuance result still has unprocessed rows"));
        }
        script::execute(
            s,
            COMPLETE_BATCH_SQL,
            binds::binds6(
                Bind::Label(to_batch_outcome(failed)),
                Bind::Int(issued),
                Bind::Int(rejected),
                Bind::Int(failed),
                Bind::Text(context.audit.actor_subject.clone()),
                Bind::Id(batch_id),
            ),
            "failed to complete issuance batch",
        )?;
        let found = card_issuance::fetch_batch(s, batch_id)?;
        let batch = match found {
            Some(v) => v,
            None => {
                return Err(script::fail_query("completed issuance batch disappeared"));
            },
        };
        let response = script::encode(
            s,
            Rule::IssuanceBatchResponse(batch.clone()),
            "failed to serialize completed issuance batch",
        )?;
        idempotency::complete_idempotency_record(
            s,
            &context.operation_type,
            &context.idempotency_key,
            "card_issuance_batch",
            batch_id,
            Snapshot::Text(response),
        )?;
        Ok(batch)
    }
}

/// The outcome of an issuance that failed: one whose accounts are in doubt is to be recovered.
pub open spec fn failed_row_status(safe_code: Seq<char>) -> &'static str {
    if safe_code == "TIGERBEETLE_PROVISIONING_UNCERTAIN"@ {
        "RECOVERY_REQUIRED"
    } else {
        "FAILED"
    }
}

/// The outcome of an issuance that failed: one whose accounts are in doubt is to be recovered.
pub fn to_failed_row_status(safe_code: &str) -> (r: &'static str)
    ensures
        r == failed_row_status(safe_code@),
{
    if text::same_text(safe_code, "TIGERBEETLE_PROVISIONING_UNCERTAIN") {
        "RECOVERY_REQUIRED"
    } else {
        "FAILED"
    }
}

/// Marks an issuance of a batch as failed or to be recovered, with all that was staged for it.
pub open spec fn fail_card_issuance_result_row_atomic_spec(
    st: RunView,
    batch_id: Uuid,
    issuance_request_id: Uuid,
    safe_code: &'static str,
) -> (Result<(), HaltView>, RunView) {
    match script::execute_spec(
        st,
        RECOVER_REQUEST_SQL@,
        seq![Bind::Id(issuance_request_id)],
        "failed to mark issuance request for recovery"@,
    ) { (Err(h), st) => (Err(h), st), (Ok(_), st) =>
    match script::execute_spec(
        st,
        RECOVER_USERS_SQL@,
        seq![Bind::Id(issuance_request_id)],
        "failed to mark issuance provider users for recovery"@,
    ) { (Err(h), st) => (Err(h), st), (Ok(_), st) =>
    match script::execute_spec(
        st,
        RECOVER_ACCOUNTS_SQL@,
        seq![Bind::Id(issuance_request_id)],
        "failed to mark issuance accounts for recovery"@,
    ) { (Err(h), st) => (Err(h), st), (Ok(_), st) =>
    match script::execute_spec(
        st,
        RECOVER_FUNDING_SQL@,
        seq![Bind::Id(issuance_request_id)],
        "failed to mark issuance funding sources for recovery"@,
    ) { (Err(h), st) => (Err(h), st), (Ok(_), st) =>
    match script::execute_spec(
        st,
        RECOVER_CARDS_SQL@,
        seq![Bind::Id(issuance_request_id)],
        "failed to mark issued card for recovery"@,
    ) { (Err(h), st) => (Err(h), st), (Ok(_), st) =>
    match script::execute_spec(
        st,
        FAIL_WAL_SQL@,
        seq![Bind::Json(Document::ErrorCode(safe_code)), Bind::Id(issuance_request_id)],
        "failed to mark issuance WAL failed"@,
    ) { (Err(h), st) => (Err(h), st), (Ok(_), st) =>
    match script::execute_spec(
        st,
        ROW_OUTCOME_SQL@,
        seq![
            Bind::Label(failed_row_status(safe_code@)),
            Bind::Label(safe_code),
            Bind::Id(batch_id),
            Bind::Id(issuance_request_id),
        ],
        "failed to mark issuance batch row outcome"@,
    ) { (Err(h), st) => (Err(h), st), (Ok(_), st) =>
    (Ok(()), st)
    }}}}}}}
}

impl OracleRepository {
    /// Marks an issuance of a batch as failed or to be recovered, with all that was staged for it.
    pub fn fail_card_issuance_result_row_atomic(
        s: &mut Session,
        batch_id: Uuid,
        issuance_request_id: Uuid,
        safe_code: &'static str,
    ) -> (r: Result<(), Halt>)
        ensures
            (script::seen(r), final(s)@) == fail_card_issuance_result_row_atomic_spec(
                old(s)@,
                batch_id,
                issuance_request_id,
                safe_code,
            ),
    {
        script::execute(
            s,
            RECOVER_REQUEST_SQL,
            binds::binds1(Bind::Id(issuance_request_id)),
            "failed to mark issuance request for recovery",
        )?;
        script::execute(
            s,
            RECOVER_USERS_SQL,
            binds::binds1(Bind::Id(issuance_request_id)),
            "failed to mark issuance provider users for recovery",
        )?;
        script::execute(
            s,
            RECOVER_ACCOUNTS_SQL,
            binds::binds1(Bind::Id(issuance_request_id)),
            "failed to mark issuance accounts for recovery",
        )?;
        script::execute(
            s,
            RECOVER_FUNDING_SQL,
            binds::binds1(Bind::Id(issuance_request_id)),
            "failed to mark issuance funding sources for recovery",
        )?;
        script::execute(
            s,
            RECOVER_CARDS_SQL,
            binds::binds1(Bind::Id(issuance_request_id)),
            "failed to mark issued card for recovery",
        )?;
        script::execute(
            s,
            FAIL_WAL_SQL,
            binds::binds2(
                Bind::Json(Document::ErrorCode(safe_code)),
                Bind::Id(issuance_request_id),
            ),
            "failed to mark issuance WAL failed",
        )?;
        script::execute(
            s,
            ROW_OUTCOME_SQL,
            binds::binds4(
                Bind::Label(to_failed_row_status(safe_code)),
                Bind::Label(safe_code),
                Bind::Id(batch_id),
                Bind::Id(issuance_request_id),
            ),
            "failed to mark issuance batch row outcome",
        )?;
        Ok(())
    }
}

/// A result that is refused, answered from a record or already being worked through changes
/// nothing.
pub proof fn refused_result_changes_nothing(
    st: RunView,
    context: MutationCommandContext,
    batch_id: Uuid,
    result_object_key: String,
    checksum: String,
    rows: Seq<CardIssuanceResultRow>,
)
    ensures
        ({
            let (result, after) = begin_card_issuance_result_atomic_spec(
                st,
                context,
                batch_id,
                result_object_key,
                checksum,
                rows,
            );
            result matches Ok(outcome) ==> outcome is Started || script::writes(after.log)
                == script::writes(st.log)
        }),
{
    broadcast use script::writes_with_another;

}

/// A result is worked through only where it reports on each issuance of the batch once.
pub proof fn started_result_covers_the_batch(
    st: RunView,
    context: MutationCommandContext,
    batch_id: Uuid,
    result_object_key: String,
    checksum: String,
    rows: Seq<CardIssuanceResultRow>,
)
    ensures
        begin_card_issuance_result_atomic_spec(
            st,
            context,
            batch_id,
            result_object_key,
            checksum,
            rows,
        ).0 matches Ok(BeginIssuanceResultOutcome::Started) ==> reported_ids(rows).no_duplicates(),
{
}

/// An issuance that is not out for issuance, or was rejected before, is left alone.
pub proof fn untouched_rejection_changes_nothing(
    st: RunView,
    context: MutationCommandContext,
    batch_id: Uuid,
    result: CardIssuanceResultRow,
)
    requires
        script::maybe_text_spec(
            st,
            LOCK_REQUEST_SQL@,
            seq![Bind::Id(result.issuance_request_id), Bind::Id(batch_id)],
            "failed to lock rejected issuance request"@,
        ).0 matches Ok(found) && !(found matches Some(status) && status@ == "EXPORTED"@),
    ensures
        script::writes(
            reject_card_issuance_request_atomic_spec(st, context, batch_id, result).1.log,
        ) == script::writes(st.log),
{
    broadcast use script::writes_with_another;

}

/// An issued card that is refused changes nothing.
pub proof fn refused_card_changes_nothing(
    st: RunView,
    context: MutationCommandContext,
    batch_id: Uuid,
    result: CardIssuanceResultRow,
)
    ensures
        ({
            let (outcome, after) = prepare_issued_card_atomic_spec(st, context, batch_id, result);
            outcome matches Ok(prepared) ==> prepared is Prepared || script::writes(after.log)
                == script::writes(st.log)
        }),
{
    broadcast use script::writes_with_another;

}

/// A batch is completed only where its outcomes account for all its issuances, and as a complete
/// one only where none failed.
pub proof fn completed_batch_is_accounted_for(issued: i64, rejected: i64, failed: i64, count: i64)
    ensures
        accounted_for(issued, rejected, failed, count) && batch_outcome(failed)@ == "COMPLETED"@
            ==> issued + rejected == count,
{
    reveal_strlit("COMPLETED");
    reveal_strlit("PARTIALLY_COMPLETED");
    assert("COMPLETED"@.len() == 9 && "PARTIALLY_COMPLETED"@.len() == 19);
}


/// Where a run that stages an issued card stands when it asks for the intent to provision it, and
/// what the intent says.
pub open spec fn asking_for_intent(
    st: RunView,
    context: MutationCommandContext,
    result: CardIssuanceResultRow,
    card_number: String,
    parties: IssuanceParties,
) -> (RunView, IssuanceWalFacts, Seq<IssuanceProviderAccountIntent>) {
    let (card_id, named) = script::fresh_id_spec(st);
    let stored = script::execute_spec(
        named,
        STAGE_CARD_SQL@,
        seq![
            Bind::Id(card_id->Ok_0),
            Bind::Text(card_number),
            Bind::Id(parties.user_id),
            Bind::Id(parties.card_range_id),
            Bind::Text(context.actor.subject),
        ],
        "failed to stage issued card"@,
    ).1;
    let (usage, told) = script::usage_accounts_spec(stored, card_id->Ok_0);
    let mapped = provider_user::ensure_usage_account_mapping_spec(
        told,
        card_id->Ok_0,
        usage->Ok_0,
    ).1;
    let (listed, read) = script::rows_spec(
        mapped,
        PENDING_PROVIDERS_SQL@,
        seq![Bind::Id(parties.issuance_request_id)],
        "rrri",
        "failed to list pending issuance providers"@,
    );
    let (staged, kept) = stage_providers_spec(
        read,
        listed->Ok_0.rows@,
        0,
        parties,
        card_id->Ok_0,
        context.actor.subject,
        Seq::empty(),
    );
    let numbered = script::fresh_id_spec(kept).1;
    let (durable, written) = script::consult_text_spec(
        numbered,
        Rule::DurableCommand(context.lasting()),
    );
    let (counted, at) = script::consult_text_spec(
        written,
        Rule::UsageAccountsDocument(usage->Ok_0),
    );
    (
        at,
        IssuanceWalFacts {
            finalization: IssuedCardFinalizationSnapshot::kept_of(result),
            issuance_request_id: parties.issuance_request_id,
            batch_id: parties.batch_id,
            card_id: card_id->Ok_0,
            card_range_id: parties.card_range_id,
            command_context: durable->Ok_0,
            policy_usage_account_ids: counted->Ok_0,
        },
        account_intents(staged->Ok_0),
    )
}

/// Where an issued card is staged and the question for its intent is answered with what is owed to
/// it, the intent is stored as this library writes it.
#[verifier::rlimit(60)]
pub proof fn staged_intent_is_stored_as_written(
    st: RunView,
    context: MutationCommandContext,
    result: CardIssuanceResultRow,
    card_number: String,
    parties: IssuanceParties,
)
    requires
        stage_issued_card_spec(st, context, result, card_number, parties).0 is Ok,
        ({
            let (at, facts, accounts) = asking_for_intent(
                st,
                context,
                result,
                card_number,
                parties,
            );
            answers::is_answered(
                Rule::IssuanceWal(facts),
                AttachmentView::AccountIntents(accounts),
                at.rest[0],
            )
        }),
    ensures
        ({
            let (_, facts, accounts) = asking_for_intent(st, context, result, card_number, parties);
            let log = stage_issued_card_spec(st, context, result, card_number, parties).1.log;
            &&& log[log.len() - 2] matches CallView::Sql { mode, sql, binds, .. }
            &&& mode == Mode::Execute && sql == STAGE_WAL_SQL@ && binds.len() == 3
            &&& binds[1] == Bind::Id(parties.issuance_request_id)
            &&& binds[2] matches Bind::Text(wal)
            &&& wal@ == json::json_object_text(issuance_wal_members(facts, accounts))
        }),
{
    let (at, facts, accounts) = asking_for_intent(st, context, result, card_number, parties);
    answers::owed_text_is_taken(
        at,
        Rule::IssuanceWal(facts),
        AttachmentView::AccountIntents(accounts),
    );
}

/// Where an issued card is activated, the event that tells the runtime of it is stored.
#[verifier::rlimit(60)]
pub proof fn issued_card_is_published(
    st: RunView,
    context: DurableMutationContext,
    intent: IssuedCardProvisioningIntent,
    result: CardIssuanceResultRow,
)
    requires
        finalize_issued_card_atomic_spec(st, context, intent, result).0 is Ok,
    ensures
        script::runs(
            finalize_issued_card_atomic_spec(st, context, intent, result).1.log,
            provider_user::CARD_OUTBOX_SQL@,
        ) > 0,
{
    broadcast use script::runs_with_another;

}

/// Where a run that prepares an issued card stands when all is checked, with the card's number and
/// whom it is for.
pub open spec fn about_to_stage(st: RunView, batch_id: Uuid, result: CardIssuanceResultRow) -> (
    RunView,
    String,
    IssuanceParties,
) {
    let (found, locked) = script::maybe_row_spec(
        st,
        ISSUED_REQUEST_SQL@,
        seq![Bind::Id(result.issuance_request_id), Bind::Id(batch_id)],
        "rrt",
        "failed to lock issued request"@,
    );
    let row = found->Ok_0->Some_0;
    let user_id = script::id_of(row.raw_at(0, READ_ROW@)->Ok_0@)->Ok_0;
    let card_range_id = script::id_of(row.raw_at(1, READ_ROW@)->Ok_0@)->Ok_0;
    let card_number = result.card_number->Some_0;
    let ranged = script::one_int_spec(
        locked,
        PAN_RANGE_SQL@,
        seq![Bind::Id(card_range_id), Bind::Text(card_number)],
        "failed to validate issued PAN range"@,
    ).1;
    let free = script::one_int_spec(
        ranged,
        PAN_TAKEN_SQL@,
        seq![Bind::Text(card_number)],
        "failed to check issued PAN uniqueness"@,
    ).1;
    let single = script::one_int_spec(
        free,
        ACTIVE_CARDS_SQL@,
        seq![Bind::Id(user_id), Bind::Id(card_range_id)],
        "failed to check active card uniqueness"@,
    ).1;
    (
        single,
        card_number,
        IssuanceParties {
            user_id,
            card_range_id,
            issuance_request_id: result.issuance_request_id,
            batch_id,
        },
    )
}

/// Where a run prepares an issued card whose intent was not stored before, and the question for the
/// intent is answered with what is owed to it, the intent is stored as this library writes it.
#[verifier::rlimit(60)]
pub proof fn prepared_intent_is_stored_as_written(
    st: RunView,
    context: MutationCommandContext,
    batch_id: Uuid,
    result: CardIssuanceResultRow,
)
    requires
        prepare_issued_card_atomic_spec(st, context, batch_id, result).0 matches Ok(outcome)
            && outcome is Prepared,
        script::runs(
            prepare_issued_card_atomic_spec(st, context, batch_id, result).1.log,
            STAGE_WAL_SQL@,
        ) > script::runs(st.log, STAGE_WAL_SQL@),
        ({
            let (ready, card_number, parties) = about_to_stage(st, batch_id, result);
            let (at, facts, accounts) = asking_for_intent(
                ready,
                context,
                result,
                card_number,
                parties,
            );
            answers::is_answered(
                Rule::IssuanceWal(facts),
                AttachmentView::AccountIntents(accounts),
                at.rest[0],
            )
        }),
    ensures
        ({
            let (ready, card_number, parties) = about_to_stage(st, batch_id, result);
            let (_, facts, accounts) = asking_for_intent(
                ready,
                context,
                result,
                card_number,
                parties,
            );
            let log = prepare_issued_card_atomic_spec(st, context, batch_id, result).1.log;
            &&& log[log.len() - 2] matches CallView::Sql { mode, sql, binds, .. }
            &&& mode == Mode::Execute && sql == STAGE_WAL_SQL@ && binds.len() == 3
            &&& binds[1] == Bind::Id(result.issuance_request_id)
            &&& binds[2] matches Bind::Text(wal)
            &&& wal@ == json::json_object_text(issuance_wal_members(facts, accounts))
        }),
{
    broadcast use script::runs_with_another;

    let (ready, card_number, parties) = about_to_stage(st, batch_id, result);
    let row = script::maybe_row_spec(
        st,
        ISSUED_REQUEST_SQL@,
        seq![Bind::Id(result.issuance_request_id), Bind::Id(batch_id)],
        "rrt",
        "failed to lock issued request"@,
    ).0->Ok_0->Some_0;
    let status = row.text_at(2, READ_ROW@)->Ok_0@;
    assert(status != "PROCESSING_RESULT"@ && status != "RECOVERY_REQUIRED"@);
    staged_intent_is_stored_as_written(ready, context, result, card_number, parties);
}

/// The bank's report for a batch is taken up only where the batch is there, is ready and the report
/// covers its requests. Each refusal has its one reason. What is started is told to the batch with
/// the file, its checksum and the command.
#[verifier::rlimit(80)]
pub proof fn report_is_refused_for_one_reason(
    st: RunView,
    context: MutationCommandContext,
    batch_id: Uuid,
    result_object_key: String,
    checksum: String,
    rows: Seq<CardIssuanceResultRow>,
    status: Option<String>,
)
    requires
        script::maybe_text_spec(
            st,
            LOCK_BATCH_SQL@,
            seq![Bind::Id(batch_id)],
            "failed to lock issuance batch"@,
        ).0 == Ok::<Option<String>, HaltView>(status),
    ensures
        ({
            let (result, after) = begin_card_issuance_result_atomic_spec(
                st,
                context,
                batch_id,
                result_object_key,
                checksum,
                rows,
            );
            let locked = script::maybe_text_spec(
                st,
                LOCK_BATCH_SQL@,
                seq![Bind::Id(batch_id)],
                "failed to lock issuance batch"@,
            ).1;
            let (looked, at) = idempotency::fetch_idempotency_record_spec(
                locked,
                context.operation_type,
                context.idempotency_key,
            );
            let fresh = looked == Ok::<Option<IdempotencyRecord>, HaltView>(None);
            let ready = status matches Some(text) && text@ == "READY"@;
            &&& status is None <==> result == Ok::<_, HaltView>(
                BeginIssuanceResultOutcome::BatchNotFound,
            )
            &&& status is Some && fresh && !ready <==> result == Ok::<_, HaltView>(
                BeginIssuanceResultOutcome::BatchNotReady,
            )
            &&& result == Ok::<_, HaltView>(BeginIssuanceResultOutcome::RowSetMismatch) ==> fresh
                && ready
            &&& result == Ok::<_, HaltView>(BeginIssuanceResultOutcome::Started) ==> fresh && ready
                && script::told_where(
                after.log,
                START_RESULT_SQL@,
                |b: Seq<Bind>|
                    b.len() == 5 && b[0] == Bind::Text(result_object_key) && b[1] == Bind::Text(
                        checksum,
                    ) && b[3] == Bind::Text(context.actor.subject) && b[4] == Bind::Id(batch_id),
            ) > 0
        }),
{
    broadcast use script::told_where_with_another;

}

/// A report that is recorded is answered by its record. One that was interrupted is taken up again
/// where the batch is still being processed.
pub proof fn report_is_answered_from_its_record(
    record: IdempotencyRecord,
    request_hash: String,
    batch_status: Seq<char>,
)
    ensures
        ({
            let answered = result_verdict(
                idempotency::idempotency_verdict(record, request_hash),
                batch_status,
            );
            let same = record.request_hash@ == request_hash@;
            &&& answered is IdempotencyConflict <==> !same
            &&& answered is Resumed <==> same && record.status is InProgress && batch_status
                == "PROCESSING_RESULT"@
            &&& answered is Replayed <==> same && record.status is Completed
                && record.response_snapshot is Some
            &&& answered matches BeginIssuanceResultOutcome::Replayed(answer)
                ==> record.response_snapshot == Some(answer)
        }),
{
}

/// A request is rejected only where it was exported. One that was rejected before is answered
/// alike, and nothing more is changed; any other is left alone.
#[verifier::rlimit(80)]
pub proof fn exported_request_is_rejected(
    st: RunView,
    context: MutationCommandContext,
    batch_id: Uuid,
    result: CardIssuanceResultRow,
)
    ensures
        ({
            let (ended, after) = reject_card_issuance_request_atomic_spec(
                st,
                context,
                batch_id,
                result,
            );
            let (found, locked) = script::maybe_text_spec(
                st,
                LOCK_REQUEST_SQL@,
                seq![Bind::Id(result.issuance_request_id), Bind::Id(batch_id)],
                "failed to lock rejected issuance request"@,
            );
            &&& (found matches Ok(None)) ==> ended == Ok::<bool, HaltView>(false)
            &&& found matches Ok(Some(status)) ==> {
                &&& status@ == "REJECTED"@ ==> ended == Ok::<bool, HaltView>(true)
                    && after == locked
                &&& status@ != "REJECTED"@ && status@ != "EXPORTED"@ ==> ended == Ok::<
                    bool,
                    HaltView,
                >(false) && after == locked
                &&& status@ != "REJECTED"@ && ended == Ok::<bool, HaltView>(true) ==> {
                    &&& status@ == "EXPORTED"@
                    &&& script::ran(
                        after.log,
                        REJECT_REQUEST_SQL@,
                        seq![
                            Bind::OptText(result.failure_code),
                            Bind::OptText(result.failure_message),
                            Bind::Text(context.actor.subject),
                            Bind::Id(result.issuance_request_id),
                        ],
                    )
                    &&& script::ran(
                        after.log,
                        REJECT_USERS_SQL@,
                        seq![
                            Bind::Text(context.actor.subject),
                            Bind::Id(result.issuance_request_id),
                        ],
                    )
                    &&& script::ran(
                        after.log,
                        REJECT_PROVIDERS_SQL@,
                        seq![Bind::Id(result.issuance_request_id)],
                    )
                    &&& script::ran(
                        after.log,
                        REJECT_ROW_SQL@,
                        seq![
                            Bind::OptText(result.failure_code),
                            Bind::OptText(result.failure_message),
                            Bind::Id(batch_id),
                            Bind::Id(result.issuance_request_id),
                        ],
                    )
                }
                &&& status@ == "EXPORTED"@ && ended is Ok ==> ended == Ok::<bool, HaltView>(true)
            }
        }),
{
    broadcast use script::runs_on_with_another;

}

/// A card that the bank issued is staged only for a request that was exported, under a number that
/// lies in the range and is free, for a user without an active card of the range. Each refusal has
/// its one reason. A request whose card was issued before is answered so.
#[verifier::rlimit(80)]
pub proof fn issued_card_is_refused_for_one_reason(
    st: RunView,
    context: MutationCommandContext,
    batch_id: Uuid,
    result: CardIssuanceResultRow,
    row: Row,
)
    requires
        script::maybe_row_spec(
            st,
            ISSUED_REQUEST_SQL@,
            seq![Bind::Id(result.issuance_request_id), Bind::Id(batch_id)],
            "rrt",
            "failed to lock issued request"@,
        ).0 == Ok::<Option<Row>, HaltView>(Some(row)),
        row.id_at(0, READ_ROW@) is Ok,
        row.id_at(1, READ_ROW@) is Ok,
        row.text_at(2, READ_ROW@) is Ok,
    ensures
        ({
            let ended = prepare_issued_card_atomic_spec(st, context, batch_id, result).0;
            let locked = script::maybe_row_spec(
                st,
                ISSUED_REQUEST_SQL@,
                seq![Bind::Id(result.issuance_request_id), Bind::Id(batch_id)],
                "rrt",
                "failed to lock issued request"@,
            ).1;
            let status = row.text_at(2, READ_ROW@)->Ok_0@;
            let user_id = row.id_at(0, READ_ROW@)->Ok_0;
            let range_id = row.id_at(1, READ_ROW@)->Ok_0;
            let open = status == "EXPORTED"@ && status != "ISSUED"@
                && status != "PROCESSING_RESULT"@
                && status != "RECOVERY_REQUIRED"@;
            &&& status == "ISSUED"@ <==> ended == Ok::<_, HaltView>(
                PrepareIssuedCardView::AlreadyProcessed,
            )
            &&& status != "ISSUED"@ && status != "PROCESSING_RESULT"@ && status
                != "RECOVERY_REQUIRED"@ && status != "EXPORTED"@ ==> ended == Ok::<_, HaltView>(
                PrepareIssuedCardView::RequestNotFound,
            )
            &&& open ==> (result.card_number matches Some(number) ==> {
                let (in_range, a) = script::one_int_spec(
                    locked,
                    PAN_RANGE_SQL@,
                    seq![Bind::Id(range_id), Bind::Text(number)],
                    "failed to validate issued PAN range"@,
                );
                let (taken, b) = script::one_int_spec(
                    a,
                    PAN_TAKEN_SQL@,
                    seq![Bind::Text(number)],
                    "failed to check issued PAN uniqueness"@,
                );
                let active = script::one_int_spec(
                    b,
                    ACTIVE_CARDS_SQL@,
                    seq![Bind::Id(user_id), Bind::Id(range_id)],
                    "failed to check active card uniqueness"@,
                ).0;
                &&& (in_range matches Ok(n) && n != 1) <==> ended == Ok::<_, HaltView>(
                    PrepareIssuedCardView::InvalidPanRange,
                )
                &&& in_range == Ok::<i64, HaltView>(1) && (taken matches Ok(n) && n != 0) <==> ended
                    == Ok::<_, HaltView>(PrepareIssuedCardView::CardNumberConflict)
                &&& in_range == Ok::<i64, HaltView>(1) && taken == Ok::<i64, HaltView>(0) && (active
                    matches Ok(n) && n != 0) <==> ended == Ok::<_, HaltView>(
                    PrepareIssuedCardView::ActiveCardConflict,
                )
            })
        }),
{
}

/// A batch is completed only where each of its requests is issued, rejected or failed, and is told
/// with these counts: completed where none failed, and partially completed otherwise.
#[verifier::rlimit(80)]
pub proof fn completed_batch_is_told_with_its_counts(
    st: RunView,
    context: DurableMutationContext,
    batch_id: Uuid,
)
    ensures
        ({
            let (ended, after) = complete_card_issuance_result_atomic_spec(st, context, batch_id);
            let failure = "failed to count issuance outcomes"@;
            let (issued, a) = outcome_count_spec(st, batch_id, "ISSUED", failure);
            let (rejected, b) = outcome_count_spec(a, batch_id, "REJECTED", failure);
            let (failed, c) = outcome_count_spec(b, batch_id, "FAILED", failure);
            let count = script::one_int_spec(
                c,
                REQUEST_COUNT_SQL@,
                seq![Bind::Id(batch_id)],
                "failed to lock completing issuance batch"@,
            ).0;
            let whole = issued->Ok_0 + rejected->Ok_0 + failed->Ok_0 == count->Ok_0;
            &&& issued is Ok && rejected is Ok && failed is Ok && count is Ok && !whole ==> ended
                == script::conflict_fault::<CardIssuanceBatch>(
                "issuance result still has unprocessed rows"@,
            )
            &&& ended is Ok ==> whole && script::ran(
                after.log,
                COMPLETE_BATCH_SQL@,
                seq![
                    Bind::Label(
                        if failed->Ok_0 == 0 {
                            "COMPLETED"
                        } else {
                            "PARTIALLY_COMPLETED"
                        },
                    ),
                    Bind::Int(issued->Ok_0),
                    Bind::Int(rejected->Ok_0),
                    Bind::Int(failed->Ok_0),
                    Bind::Text(context.audit.actor_subject),
                    Bind::Id(batch_id),
                ],
            )
        }),
{
    broadcast use script::runs_on_with_another;

    reveal(card_issuance::map_batch_spec);
}

/// The outcomes of a batch are counted by the batch and the status asked for.
pub proof fn outcomes_are_counted_by_status(
    st: RunView,
    batch_id: Uuid,
    status: &'static str,
    failure: Seq<char>,
)
    requires
        st.rest.len() > 0,
    ensures
        outcome_count_spec(st, batch_id, status, failure).1.log == st.log.push(
            script::sql_call(
                script::Mode::QueryRow,
                OUTCOME_COUNT_SQL@,
                seq![Bind::Id(batch_id), Bind::Label(status)],
                "i",
            ),
        ),
{
}

/// A row whose accounts are in doubt needs recovery; one that failed otherwise is failed.
pub proof fn doubtful_row_needs_recovery(safe_code: Seq<char>)
    ensures
        safe_code == "TIGERBEETLE_PROVISIONING_UNCERTAIN"@ ==> failed_row_status(safe_code)@
            == "RECOVERY_REQUIRED"@,
        safe_code != "TIGERBEETLE_PROVISIONING_UNCERTAIN"@ ==> failed_row_status(safe_code)@
            == "FAILED"@,
{
}

/// What is to be recovered for an issued card is read from its own columns and has a provider;
/// without a row there is nothing to recover.
#[verifier::rlimit(40)]
pub proof fn recovered_intent_is_read_from_its_columns(
    st: RunView,
    batch_id: Uuid,
    issuance_request_id: Uuid,
)
    ensures
        ({
            let ended = load_issued_card_intent_spec(st, batch_id, issuance_request_id).0;
            ended matches Ok(Some(intent)) ==> {
                &&& st.rest[0] matches script::Reply::Rows(found)
                &&& st.rest[1] matches script::Reply::Rows(listed)
                &&& map_staged_providers_spec(listed.rows@, 0, Seq::empty()) matches Ok(staged)
                &&& staged.len() > 0
                &&& intent.batch_id == batch_id
                &&& intent.issuance_request_id == issuance_request_id
                &&& found.rows@[0].id_at(0, READ_ROW@) == Ok::<Uuid, HaltView>(
                    intent.base.operation_id,
                )
                &&& found.rows@[0].id_at(1, READ_ROW@) == Ok::<Uuid, HaltView>(intent.base.card_id)
                &&& found.rows@[0].id_at(2, READ_ROW@) == Ok::<Uuid, HaltView>(intent.base.user_id)
                &&& found.rows@[0].id_at(3, READ_ROW@) == Ok::<Uuid, HaltView>(
                    intent.base.card_range_id,
                )
                &&& found.rows@[0].id_at(4, READ_ROW@) == Ok::<Uuid, HaltView>(
                    intent.base.usage_account_ids.amount_daily,
                )
                &&& found.rows@[0].id_at(11, READ_ROW@) == Ok::<Uuid, HaltView>(
                    intent.base.usage_account_ids.count_yearly,
                )
                &&& intent.base.enrollment_id == staged.last().enrollment_id
                &&& intent.base.provider_id == staged[0].intent.provider_id
                &&& intent.base.provider_user_id == staged[0].intent.provider_user_id
                &&& intent.base.provider_user_account_id == staged[0].intent.account_id
            }
        }),
{
}

/// What is asked first, and with which values, in a run that does this:
/// the issuances of a batch.
pub proof fn expected_request_ids_asks_first(
    st: RunView,
    batch_id: Uuid,
)
    requires
        st.rest.len() == 0,
    ensures
        expected_request_ids_spec(st, batch_id).0 matches Err(HaltView::Ask(asked))
            && (
                asked matches script::CallView::Sql { sql, binds, .. } && sql == EXPECTED_ROWS_SQL@
                    && binds == seq![Bind::Id(batch_id)]
            ),
{
}

/// What is asked first, and with which values, in a run that does this:
/// begins to work through the result of a batch, where it reports on each issuance of the batch
/// once.
pub proof fn begin_card_issuance_result_atomic_asks_first(
    st: RunView,
    context: MutationCommandContext,
    batch_id: Uuid,
    result_object_key: String,
    checksum: String,
    rows: Seq<CardIssuanceResultRow>,
)
    requires
        st.rest.len() == 0,
    ensures
        begin_card_issuance_result_atomic_spec(
            st,
            context,
            batch_id,
            result_object_key,
            checksum,
            rows,
        ).0 matches Err(HaltView::Ask(asked))
            && (
                asked matches script::CallView::Sql { sql, binds, .. } && sql == LOCK_BATCH_SQL@
                    && binds == seq![Bind::Id(batch_id)]
            ),
{
}

/// What is asked first, and with which values, in a run that does this:
/// marks an issuance of a batch as rejected by the bank, with the customers and providers behind
/// it.
pub proof fn reject_card_issuance_request_atomic_asks_first(
    st: RunView,
    context: MutationCommandContext,
    batch_id: Uuid,
    result: CardIssuanceResultRow,
)
    requires
        st.rest.len() == 0,
    ensures
        reject_card_issuance_request_atomic_spec(
            st,
            context,
            batch_id,
            result,
        ).0 matches Err(HaltView::Ask(asked))
            && (
                asked matches script::CallView::Sql { sql, binds, .. } && sql == LOCK_REQUEST_SQL@
                    && binds == seq![Bind::Id(result.issuance_request_id), Bind::Id(batch_id)]
            ),
{
}

/// Each value is read from its own column: the account of a customer that a row holds.
#[verifier::rlimit(60)]
pub proof fn map_staged_provider_is_read_by_column(
    row: Row,
)
    ensures
        map_staged_provider_spec(row) matches Ok(read) ==> {
            &&& read.intent.provider_user_id == row.id_at(0, READ_ROW@)->Ok_0
            &&& read.intent.provider_id == row.id_at(1, READ_ROW@)->Ok_0
            &&& read.intent.account_id == row.id_at(3, READ_ROW@)->Ok_0
            &&& read.enrollment_id == row.id_at(2, READ_ROW@)->Ok_0
        },
{
    reveal(map_staged_provider_spec);
}

/// What is asked first, and with which values, in a run that does this:
/// the intent behind an issuance that is being provisioned, where there is one.
pub proof fn load_issued_card_intent_asks_first(
    st: RunView,
    batch_id: Uuid,
    issuance_request_id: Uuid,
)
    requires
        st.rest.len() == 0,
    ensures
        load_issued_card_intent_spec(
            st,
            batch_id,
            issuance_request_id,
        ).0 matches Err(HaltView::Ask(asked))
            && (
                asked matches script::CallView::Sql { sql, binds, .. } && sql == INTENT_SQL@
                    && binds == seq![Bind::Id(issuance_request_id)]
            ),
{
}

/// What the database is told, and with which values, where a run succeeds that does this:
/// stages the account, the funding source and the customer that a row names, for a card.
#[verifier::rlimit(60)]
pub proof fn stage_provider_is_told(
    st: RunView,
    row: Row,
    parties: IssuanceParties,
    card_id: Uuid,
    subject: String,
)
    ensures
        ({
            let (ended, after) = stage_provider_spec(st, row, parties, card_id, subject);
            let log = after.log;
            ended is Ok ==> {
                &&& script::told_where(
                    log,
                    STAGE_ACCOUNT_SQL@,
                    |b: Seq<Bind>| b.len() == 4
                        && b[1] == Bind::Id(script::id_of(row.raw_at(0, READ_ROW@)->Ok_0@)->Ok_0)
                        && b[2] == Bind::Id(script::id_of(row.raw_at(1, READ_ROW@)->Ok_0@)->Ok_0)
                        && b[3] == Bind::Id(parties.user_id),
                ) > 0
                &&& script::told_where(
                    log,
                    STAGE_FUNDING_SQL@,
                    |b: Seq<Bind>| b.len() == 7 && b[1] == Bind::Id(card_id)
                        && b[2] == Bind::Id(script::id_of(row.raw_at(1, READ_ROW@)->Ok_0@)->Ok_0)
                        && b[3] == Bind::Id(script::id_of(row.raw_at(0, READ_ROW@)->Ok_0@)->Ok_0)
                        && b[5] == Bind::Int(row.int_at(3, READ_ROW@)->Ok_0)
                        && b[6] == Bind::Text(subject),
                ) > 0
                &&& script::ran(
                    log,
                    STAGE_USER_SQL@,
                    seq![
                        Bind::Text(subject),
                        Bind::Id(script::id_of(row.raw_at(0, READ_ROW@)->Ok_0@)->Ok_0),
                    ],
                )
                &&& script::ran(
                    log,
                    STAGE_PROVIDER_SQL@,
                    seq![
                        Bind::Id(parties.issuance_request_id),
                        Bind::Id(script::id_of(row.raw_at(1, READ_ROW@)->Ok_0@)->Ok_0),
                    ],
                )
            }
        }),
{
    broadcast use {script::runs_on_with_another, script::told_where_with_another};

}

/// Each value is read from its own column: stages the account, the funding source and the customer
/// that a row names, for a card.
#[verifier::rlimit(60)]
pub proof fn stage_provider_is_read_by_column(
    st: RunView,
    row: Row,
    parties: IssuanceParties,
    card_id: Uuid,
    subject: String,
)
    ensures
        stage_provider_spec(st, row, parties, card_id, subject).0 matches Ok(read) ==> {
            &&& read.intent.provider_user_id == row.id_at(0, READ_ROW@)->Ok_0
            &&& read.intent.provider_id == row.id_at(1, READ_ROW@)->Ok_0
            &&& read.enrollment_id == row.id_at(2, READ_ROW@)->Ok_0
        },
{
}

/// What is asked first, and with which values, in a run that does this:
/// stages the card that the bank issued, where its number is within the range, not in use, and the
/// user has no active card there.
pub proof fn prepare_issued_card_atomic_asks_first(
    st: RunView,
    context: MutationCommandContext,
    batch_id: Uuid,
    result: CardIssuanceResultRow,
)
    requires
        st.rest.len() == 0,
    ensures
        prepare_issued_card_atomic_spec(
            st,
            context,
            batch_id,
            result,
        ).0 matches Err(HaltView::Ask(asked))
            && (
                asked matches script::CallView::Sql { sql, binds, .. } && sql == ISSUED_REQUEST_SQL@
                    && binds == seq![Bind::Id(result.issuance_request_id), Bind::Id(batch_id)]
            ),
{
}

/// What is asked first, and with which values, in a run that does this:
/// activates an issued card with all that was staged for it, and marks its issuance as issued.
pub proof fn activate_issued_card_asks_first(
    st: RunView,
    context: DurableMutationContext,
    intent: IssuedCardProvisioningIntent,
    result: CardIssuanceResultRow,
)
    requires
        st.rest.len() == 0,
    ensures
        activate_issued_card_spec(st, context, intent, result).0 matches Err(HaltView::Ask(asked))
            && (
                asked matches script::CallView::Sql { sql, binds, .. } && sql == ACTIVATE_CARD_SQL@
                    && binds == seq![
                        Bind::Text(context.audit.actor_subject),
                        Bind::Id(intent.base.card_id),
                    ]
            ),
{
}

/// What the database is told, and with which values, where a run succeeds that does this:
/// activates an issued card with all that was staged for it, and marks its issuance as issued.
#[verifier::rlimit(60)]
pub proof fn activate_issued_card_is_told(
    st: RunView,
    context: DurableMutationContext,
    intent: IssuedCardProvisioningIntent,
    result: CardIssuanceResultRow,
)
    ensures
        ({
            let (ended, after) = activate_issued_card_spec(st, context, intent, result);
            let log = after.log;
            ended is Ok ==> {
                &&& script::ran(
                    log,
                    ACTIVATE_CARD_SQL@,
                    seq![Bind::Text(context.audit.actor_subject), Bind::Id(intent.base.card_id)],
                )
                &&& script::ran(log, ACTIVATE_USAGE_SQL@, seq![Bind::Id(intent.base.card_id)])
                &&& script::ran(
                    log,
                    ACTIVATE_ACCOUNTS_SQL@,
                    seq![Bind::Id(intent.issuance_request_id)],
                )
                &&& script::ran(
                    log,
                    ACTIVATE_USERS_SQL@,
                    seq![
                        Bind::Text(context.audit.actor_subject),
                        Bind::Id(intent.issuance_request_id),
                    ],
                )
                &&& script::ran(
                    log,
                    ACTIVATE_FUNDING_SQL@,
                    seq![Bind::Text(context.audit.actor_subject), Bind::Id(intent.base.card_id)],
                )
                &&& script::ran(
                    log,
                    ACTIVATE_PROVIDERS_SQL@,
                    seq![Bind::Id(intent.issuance_request_id)],
                )
                &&& script::ran(
                    log,
                    ISSUED_SQL@,
                    seq![
                        Bind::OptText(result.issuer_reference),
                        Bind::OptTime(result.produced_at),
                        Bind::OptTime(result.dispatched_at),
                        Bind::OptText(result.tracking_reference),
                        Bind::Text(context.audit.actor_subject),
                        Bind::Id(intent.issuance_request_id),
                    ],
                )
                &&& script::ran(
                    log,
                    ISSUED_ROW_SQL@,
                    seq![Bind::Id(intent.batch_id), Bind::Id(intent.issuance_request_id)],
                )
                &&& script::ran(
                    log,
                    COMPLETE_WAL_SQL@,
                    seq![Bind::Json(Document::Verified), Bind::Id(intent.base.operation_id)],
                )
            }
        }),
{
    broadcast use {script::runs_on_with_another, script::told_where_with_another};

}

/// What the database is told, and with which values, where a run succeeds that does this:
/// completes a batch whose issuances are all accounted for.
#[verifier::rlimit(60)]
pub proof fn complete_card_issuance_result_atomic_is_told(
    st: RunView,
    context: DurableMutationContext,
    batch_id: Uuid,
)
    ensures
        ({
            let (ended, after) = complete_card_issuance_result_atomic_spec(st, context, batch_id);
            let log = after.log;
            ended is Ok ==> {
                &&& script::told_where(
                    log,
                    COMPLETE_BATCH_SQL@,
                    |b: Seq<Bind>| b.len() == 6 && b[4] == Bind::Text(context.audit.actor_subject)
                        && b[5] == Bind::Id(batch_id),
                ) > 0
            }
        }),
{
    broadcast use {script::runs_on_with_another, script::told_where_with_another};

}

/// What is asked first, and with which values, in a run that does this:
/// marks an issuance of a batch as failed or to be recovered, with all that was staged for it.
pub proof fn fail_card_issuance_result_row_atomic_asks_first(
    st: RunView,
    batch_id: Uuid,
    issuance_request_id: Uuid,
    safe_code: &'static str,
)
    requires
        st.rest.len() == 0,
    ensures
        fail_card_issuance_result_row_atomic_spec(
            st,
            batch_id,
            issuance_request_id,
            safe_code,
        ).0 matches Err(HaltView::Ask(asked))
            && (
                asked matches script::CallView::Sql { sql, binds, .. }
                    && sql == RECOVER_REQUEST_SQL@ && binds == seq![Bind::Id(issuance_request_id)]
            ),
{
}

/// What the database is told, and with which values, where a run succeeds that does this:
/// marks an issuance of a batch as failed or to be recovered, with all that was staged for it.
#[verifier::rlimit(60)]
pub proof fn fail_card_issuance_result_row_atomic_is_told(
    st: RunView,
    batch_id: Uuid,
    issuance_request_id: Uuid,
    safe_code: &'static str,
)
    ensures
        ({
            let (ended, after) = fail_card_issuance_result_row_atomic_spec(
                st,
                batch_id,
                issuance_request_id,
                safe_code,
            );
            let log = after.log;
            ended is Ok ==> {
                &&& script::ran(log, RECOVER_REQUEST_SQL@, seq![Bind::Id(issuance_request_id)])
                &&& script::ran(log, RECOVER_USERS_SQL@, seq![Bind::Id(issuance_request_id)])
                &&& script::ran(log, RECOVER_ACCOUNTS_SQL@, seq![Bind::Id(issuance_request_id)])
                &&& script::ran(log, RECOVER_FUNDING_SQL@, seq![Bind::Id(issuance_request_id)])
                &&& script::ran(log, RECOVER_CARDS_SQL@, seq![Bind::Id(issuance_request_id)])
                &&& script::ran(
                    log,
                    FAIL_WAL_SQL@,
                    seq![Bind::Json(Document::ErrorCode(safe_code)), Bind::Id(issuance_request_id)],
                )
                &&& script::ran(
                    log,
                    ROW_OUTCOME_SQL@,
                    seq![
                        Bind::Label(failed_row_status(safe_code@)),
                        Bind::Label(safe_code),
                        Bind::Id(batch_id),
                        Bind::Id(issuance_request_id),
                    ],
                )
            }
        }),
{
    broadcast use {script::runs_on_with_another, script::told_where_with_another};

}

} // verus!
