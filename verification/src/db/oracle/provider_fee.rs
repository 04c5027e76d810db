//! Fees of providers.
use vstd::prelude::*;
use crate::db::oracle::audit;
use crate::db::oracle::binds;
use crate::db::oracle::consult::{CodeKind, Rule};
use crate::db::oracle::document::{Document, EventKeys, Snapshot};
use crate::db::oracle::idempotency;
use crate::db::oracle::idempotency::IdempotencyVerdict;
use crate::db::oracle::repository::OracleRepository;
use crate::db::oracle::script;
use crate::db::oracle::script::{Bind, Halt, HaltView, Row, RunView, Session};
use crate::domain::audit::AuditAction;
use crate::domain::command::{HeaderSource, MutationCommandContext};
use crate::domain::idempotency::IdempotencyRecord;
use crate::domain::provider_fee::{
    DesiredProviderFeeProfile, FeePolicy, ProviderFeeMaterializationReceipt, ProviderFeeProfile,
    ProviderFeeProfileStatus,
};
use crate::text;
use crate::uuid;
use crate::uuid::Uuid;

verus! {

/// The context of a fee column that cannot be read.
pub const READ_ROW: &'static str = "failed to read Oracle fee row";

/// Stores a fee event.
pub const FEE_OUTBOX_SQL: &'static str = "INSERT INTO integration_outbox (outbox_event_id, operation_id, event_type, aggregate_type, aggregate_id, partition_key, payload_json, headers_json, status, next_attempt_at) VALUES (:1,:2,:3,:4,:5,:6,:7,:8,'PENDING',SYSTIMESTAMP)";

/// Locks a provider.
pub const LOCK_PROVIDER_SQL: &'static str = "SELECT provider_id FROM providers WHERE provider_id=:1 FOR UPDATE";

/// Counts the active ranges of a provider.
pub const ACTIVE_RANGES_SQL: &'static str = "SELECT COUNT(*) FROM card_range_providers WHERE provider_id=:1 AND status='ACTIVE'";

/// The next version of the fees of a provider.
pub const NEXT_VERSION_SQL: &'static str = "SELECT NVL(MAX(version),0)+1 FROM provider_fee_profiles WHERE provider_id=:1";

/// Stores a fee profile.
pub const INSERT_DRAFT_SQL: &'static str = "INSERT INTO provider_fee_profiles (provider_fee_profile_id,provider_id,rate_bps,fixed_amount_rials,fee_payer,status,version,publication_operation_id,created_by_subject,updated_by_subject,change_reason) VALUES (:1,:2,:3,:4,:5,'DRAFT',:6,:7,:8,:9,:10)";

/// Changes a draft that is not being published.
pub const UPDATE_DRAFT_SQL: &'static str = "UPDATE provider_fee_profiles SET rate_bps=:1,fixed_amount_rials=:2,fee_payer=:3,publication_operation_id=:4,updated_by_subject=:5,change_reason=:6,updated_at=SYSTIMESTAMP WHERE provider_fee_profile_id=:7 AND status='DRAFT' AND publication_operation_id IS NULL";

/// Marks a draft as being published.
pub const FREEZE_DRAFT_SQL: &'static str = "UPDATE provider_fee_profiles SET publication_operation_id=:1, updated_by_subject=:2, change_reason=:3, updated_at=SYSTIMESTAMP WHERE provider_fee_profile_id=:4 AND status='DRAFT' AND publication_operation_id IS NULL";

/// Supersedes the active fee profile of a provider.
pub const SUPERSEDE_SQL: &'static str = "UPDATE provider_fee_profiles SET status='SUPERSEDED', superseded_by_profile_id=:1, superseded_at=SYSTIMESTAMP, updated_at=SYSTIMESTAMP WHERE provider_id=:2 AND status='ACTIVE'";

/// Activates the draft that an operation publishes.
pub const ACTIVATE_SQL: &'static str = "UPDATE provider_fee_profiles SET status='ACTIVE', activated_at=SYSTIMESTAMP, updated_at=SYSTIMESTAMP WHERE provider_fee_profile_id=:1 AND publication_operation_id=:2 AND status='DRAFT'";

/// Finds a stored receipt for the same event, or for the same operation and version.
pub const RECEIPT_REPLAY_SQL: &'static str = "SELECT receipt_event_id,operation_id,aggregate_id,profile_id,materialized_version,redis_key FROM runtime_materialization_receipts WHERE receipt_event_id=:1 OR (operation_id=:2 AND profile_type='FEE' AND materialized_version=:3)";

/// Counts the rejected arrivals of a receipt.
pub const REJECTED_SQL: &'static str = "SELECT COUNT(*) FROM integration_inbox WHERE source_system='WOLFSBURG' AND source_event_id=:1 AND status='FAILED'";

/// Stores the arrival of a receipt.
pub const INBOX_INSERT_SQL: &'static str = "INSERT INTO integration_inbox (inbox_event_id,source_system,source_event_id,event_type,aggregate_type,aggregate_id,payload_json,status) VALUES (:1,'WOLFSBURG',:2,'RUNTIME_PROFILE_MATERIALIZED','PROVIDER',:3,:4,'RECEIVED')";

/// Marks a receipt as rejected.
pub const INBOX_FAILED_SQL: &'static str = "UPDATE integration_inbox SET status='FAILED',processed_at=SYSTIMESTAMP,error_json=:1 WHERE source_system='WOLFSBURG' AND source_event_id=:2";

/// Marks a receipt as processed.
pub const INBOX_PROCESSED_SQL: &'static str = "UPDATE integration_inbox SET status='PROCESSED',processed_at=SYSTIMESTAMP WHERE source_system='WOLFSBURG' AND source_event_id=:1";

/// Stores a receipt.
pub const RECEIPT_INSERT_SQL: &'static str = r#"INSERT INTO runtime_materialization_receipts (runtime_materialization_receipt_id,receipt_event_id,operation_id,profile_type,aggregate_id,profile_id,materialized_version,redis_key,materialized_at) VALUES (:1,:2,:3,'FEE',:4,:5,:6,:7,TO_TIMESTAMP_TZ(:8,'YYYY-MM-DD"T"HH24:MI:SS.FF3"Z"'))"#;

/// The columns of a fee profile, as a query lists them.
pub const FEE_SELECT_COLUMNS: &'static str = r#"provider_fee_profile_id,provider_id,rate_bps,TO_CHAR(fixed_amount_rials,'FM99999999999999999999999999999999999999'),fee_payer,status,version,superseded_by_profile_id,publication_operation_id,created_by_subject,updated_by_subject,change_reason,TO_CHAR(activated_at AT TIME ZONE 'UTC','YYYY-MM-DD"T"HH24:MI:SS.FF3"Z"'),TO_CHAR(superseded_at AT TIME ZONE 'UTC','YYYY-MM-DD"T"HH24:MI:SS.FF3"Z"'),TO_CHAR(created_at AT TIME ZONE 'UTC','YYYY-MM-DD"T"HH24:MI:SS.FF3"Z"'),TO_CHAR(updated_at AT TIME ZONE 'UTC','YYYY-MM-DD"T"HH24:MI:SS.FF3"Z"')"#;

/// The columns of a fee profile, as a query lists them.
pub fn columns() -> (r: &'static str)
    ensures
        r == FEE_SELECT_COLUMNS,
{
    FEE_SELECT_COLUMNS
}

/// What the columns of a fee profile hold.
pub const FEE_COLUMNS: &'static str = "rritttiRRtttTTtt";

/// Reads a fee profile.
pub open spec fn fee_profile_sql_text() -> Seq<char> {
    "SELECT "@ + FEE_SELECT_COLUMNS@ + " FROM provider_fee_profiles WHERE provider_fee_profile_id=:1"@
}

/// Reads a fee profile.
pub fn fee_profile_sql() -> (r: String)
    ensures
        r@ == fee_profile_sql_text(),
{
    text::joined3(
        "SELECT ",
        FEE_SELECT_COLUMNS,
        " FROM provider_fee_profiles WHERE provider_fee_profile_id=:1",
    )
}

/// Reads the fee profile of a provider that has a status.
pub open spec fn fee_profile_by_status_sql_text() -> Seq<char> {
    "SELECT "@ + FEE_SELECT_COLUMNS@ + " FROM provider_fee_profiles WHERE provider_id=:1 AND status=:2"@
}

/// Reads the fee profile of a provider that has a status.
pub fn fee_profile_by_status_sql() -> (r: String)
    ensures
        r@ == fee_profile_by_status_sql_text(),
{
    text::joined3(
        "SELECT ",
        FEE_SELECT_COLUMNS,
        " FROM provider_fee_profiles WHERE provider_id=:1 AND status=:2",
    )
}

/// Locks and reads the draft that an operation publishes.
pub open spec fn fee_profile_pending_sql_text() -> Seq<char> {
    "SELECT "@ + FEE_SELECT_COLUMNS@ + " FROM provider_fee_profiles WHERE publication_operation_id=:1 AND status='DRAFT' FOR UPDATE"@
}

/// Locks and reads the draft that an operation publishes.
pub fn fee_profile_pending_sql() -> (r: String)
    ensures
        r@ == fee_profile_pending_sql_text(),
{
    text::joined3(
        "SELECT ",
        FEE_SELECT_COLUMNS,
        " FROM provider_fee_profiles WHERE publication_operation_id=:1 AND status='DRAFT' FOR UPDATE",
    )
}

/// Lists the fee profiles of a provider below a version, newest first.
pub open spec fn fee_profile_list_sql_text() -> Seq<char> {
    "SELECT "@ + FEE_SELECT_COLUMNS@ + " FROM provider_fee_profiles WHERE provider_id = :1 AND (:2 IS NULL OR version < :3) ORDER BY version DESC FETCH FIRST :4 ROWS ONLY"@
}

/// Lists the fee profiles of a provider below a version, newest first.
pub fn fee_profile_list_sql() -> (r: String)
    ensures
        r@ == fee_profile_list_sql_text(),
{
    text::joined3(
        "SELECT ",
        FEE_SELECT_COLUMNS,
        " FROM provider_fee_profiles WHERE provider_id = :1 AND (:2 IS NULL OR version < :3) ORDER BY version DESC FETCH FIRST :4 ROWS ONLY",
    )
}

/// What setting a fee profile came to.
#[derive(Clone, Copy, Debug, PartialEq, Eq, Structural)]
pub enum FeeProfileMutationDisposition {
    Created,
    Updated,
    PublicationPending,
}

/// A fee profile that was set.
#[derive(Debug)]
pub struct SetProviderFeeProfileResult {
    pub disposition: FeeProfileMutationDisposition,
    pub profile: ProviderFeeProfile,
    pub operation_id: Option<Uuid>,
}

impl Clone for SetProviderFeeProfileResult {
    fn clone(&self) -> (r: Self)
        ensures
            r == *self,
    {
        SetProviderFeeProfileResult {
            disposition: self.disposition,
            profile: self.profile.clone(),
            operation_id: self.operation_id,
        }
    }
}

/// What became of setting a fee profile. A replayed answer is a JSON document.
#[derive(Debug)]
pub enum SetProviderFeeProfilePersistenceOutcome {
    Applied(Box<SetProviderFeeProfileResult>),
    Replayed(String),
    ProviderNotFound,
    ContractInvalid(String),
    DraftFrozen,
    IdempotencyConflict,
    IdempotencyInProgress,
    IdempotencyInvalidState,
}

/// What became of a receipt for a fee profile.
#[derive(Debug)]
pub enum ProviderFeeReceiptPersistenceOutcome {
    Activated(Box<ProviderFeeProfile>),
    Replayed,
    Mismatch,
}

/// Whether the fees of a provider allow it to be assigned to a range, and the operation that
/// publishes them where there is one.
#[derive(Clone, Copy, Debug, PartialEq, Eq, Structural)]
pub enum FeeProfileAttachmentPreparation {
    Ready { operation_id: Option<Uuid> },
    Missing,
    PublicationPending,
}

/// What a stored record means for setting a fee profile.
pub open spec fn fee_verdict(
    verdict: IdempotencyVerdict,
) -> SetProviderFeeProfilePersistenceOutcome {
    match verdict {
        IdempotencyVerdict::Conflict => {
            SetProviderFeeProfilePersistenceOutcome::IdempotencyConflict
        },
        IdempotencyVerdict::Replay(snapshot) => {
            SetProviderFeeProfilePersistenceOutcome::Replayed(snapshot)
        },
        IdempotencyVerdict::InProgress => {
            SetProviderFeeProfilePersistenceOutcome::IdempotencyInProgress
        },
        IdempotencyVerdict::InvalidState => {
            SetProviderFeeProfilePersistenceOutcome::IdempotencyInvalidState
        },
    }
}

/// What a stored record means for setting a fee profile with this request hash.
pub fn classify_idempotency(
    existing: &IdempotencyRecord,
    request_hash: &String,
) -> (r: SetProviderFeeProfilePersistenceOutcome)
    ensures
        r == fee_verdict(idempotency::idempotency_verdict(*existing, *request_hash)),
{
    match idempotency::judge_idempotency(existing, request_hash) {
        IdempotencyVerdict::Conflict => {
            SetProviderFeeProfilePersistenceOutcome::IdempotencyConflict
        },
        IdempotencyVerdict::Replay(snapshot) => {
            SetProviderFeeProfilePersistenceOutcome::Replayed(snapshot)
        },
        IdempotencyVerdict::InProgress => {
            SetProviderFeeProfilePersistenceOutcome::IdempotencyInProgress
        },
        IdempotencyVerdict::InvalidState => {
            SetProviderFeeProfilePersistenceOutcome::IdempotencyInvalidState
        },
    }
}

/// The fee profile that a row holds.
#[verifier::opaque]
pub open spec fn map_row_spec(
    st: RunView,
    row: Row,
) -> (Result<ProviderFeeProfile, HaltView>, RunView) {
    match row.raw_at(0, READ_ROW@) { Err(h) => (Err(h), st), Ok(profile_raw) =>
    match row.raw_at(1, READ_ROW@) { Err(h) => (Err(h), st), Ok(provider_raw) =>
    match row.text_at(3, READ_ROW@) { Err(h) => (Err(h), st), Ok(fixed) =>
    match row.text_at(4, READ_ROW@) { Err(h) => (Err(h), st), Ok(fee_payer) =>
    match row.text_at(5, READ_ROW@) { Err(h) => (Err(h), st), Ok(status_text) =>
    match row.opt_raw_at(7, READ_ROW@) { Err(h) => (Err(h), st), Ok(superseded_raw) =>
    match row.opt_raw_at(8, READ_ROW@) { Err(h) => (Err(h), st), Ok(operation_raw) =>
    match row.opt_text_at(12, READ_ROW@) { Err(h) => (Err(h), st), Ok(activated_text) =>
    match row.opt_text_at(13, READ_ROW@) { Err(h) => (Err(h), st), Ok(superseded_text) =>
    match row.text_at(14, READ_ROW@) { Err(h) => (Err(h), st), Ok(created_text) =>
    match row.text_at(15, READ_ROW@) { Err(h) => (Err(h), st), Ok(updated_text) =>
    match script::id_of(profile_raw@) { Err(h) => (Err(h), st), Ok(provider_fee_profile_id) =>
    match script::id_of(provider_raw@) { Err(h) => (Err(h), st), Ok(provider_id) =>
    match row.int_at(2, READ_ROW@) { Err(h) => (Err(h), st), Ok(rate_bps) =>
    match text::unsigned_of(fixed@) {
    None => {
        (script::query_fault("invalid fixed fee"@), st)
    },
    Some(fixed_amount_rials) =>
    match script::flag_spec(
        st,
        Rule::KnownCode(CodeKind::FeePayer, fee_payer),
    ) { (Err(h), st) => (Err(h), st), (Ok(known), st) =>
    if !known {
        (script::query_fault("unknown fee payer"@), st)
    } else {
    match ProviderFeeProfileStatus::of_code(status_text@) {
    None => {
        (script::query_fault("unknown fee status"@), st)
    },
    Some(status) =>
    match row.int_at(6, READ_ROW@) { Err(h) => (Err(h), st), Ok(version) =>
    match script::opt_id_of(
        superseded_raw,
    ) { Err(h) => (Err(h), st), Ok(superseded_by_profile_id) =>
    match script::opt_id_of(operation_raw) { Err(h) => (Err(h), st), Ok(publication_operation_id) =>
    match row.text_at(9, READ_ROW@) { Err(h) => (Err(h), st), Ok(created_by_subject) =>
    match row.text_at(10, READ_ROW@) { Err(h) => (Err(h), st), Ok(updated_by_subject) =>
    match row.text_at(11, READ_ROW@) { Err(h) => (Err(h), st), Ok(change_reason) =>
    match script::opt_time_of(
        activated_text,
        "invalid fee UTC timestamp"@,
    ) { Err(h) => (Err(h), st), Ok(activated_at) =>
    match script::opt_time_of(
        superseded_text,
        "invalid fee UTC timestamp"@,
    ) { Err(h) => (Err(h), st), Ok(superseded_at) =>
    match script::time_of(
        created_text@,
        "invalid fee UTC timestamp"@,
    ) { Err(h) => (Err(h), st), Ok(created_at) =>
    match script::time_of(
        updated_text@,
        "invalid fee UTC timestamp"@,
    ) { Err(h) => (Err(h), st), Ok(updated_at) =>
    (
        Ok(ProviderFeeProfile {
            provider_fee_profile_id,
            provider_id,
            fee_policy: FeePolicy { rate_bps, fixed_amount_rials, fee_payer },
            status,
            version,
            superseded_by_profile_id,
            publication_operation_id,
            created_by_subject,
            updated_by_subject,
            change_reason,
            activated_at,
            superseded_at,
            created_at,
            updated_at,
        }),
        st,
    )
    }}}}}}}}}}}}}}}}}}}}}}}}}}}}
}

/// The fee profile that a row holds.
pub fn map_row(s: &mut Session, row: &Row) -> (r: Result<ProviderFeeProfile, Halt>)
    ensures
        (script::seen(r), final(s)@) == map_row_spec(old(s)@, *row),
{
    proof {
        reveal(map_row_spec);
    }
    let profile_raw = row.raw(0, READ_ROW)?;
    let provider_raw = row.raw(1, READ_ROW)?;
    let fixed = row.text(3, READ_ROW)?;
    let fee_payer = row.text(4, READ_ROW)?;
    let status_text = row.text(5, READ_ROW)?;
    let superseded_raw = row.opt_raw(7, READ_ROW)?;
    let operation_raw = row.opt_raw(8, READ_ROW)?;
    let activated_text = row.opt_text(12, READ_ROW)?;
    let superseded_text = row.opt_text(13, READ_ROW)?;
    let created_text = row.text(14, READ_ROW)?;
    let updated_text = row.text(15, READ_ROW)?;
    let provider_fee_profile_id = script::to_id(profile_raw)?;
    let provider_id = script::to_id(provider_raw)?;
    let rate_bps: i64 = row.number(2, READ_ROW)?;
    let fixed_amount_rials = match text::parse_unsigned(fixed.as_str()) {
        Some(v) => v,
        None => {
            return Err(script::fail_query("invalid fixed fee"));
        },
    };
    let known = script::flag(s, Rule::KnownCode(CodeKind::FeePayer, fee_payer.clone()))?;
    if !known {
        return Err(script::fail_query("unknown fee payer"));
    }
    let status = match ProviderFeeProfileStatus::from_db_value(status_text.as_str()) {
        Some(v) => v,
        None => {
            return Err(script::fail_query("unknown fee status"));
        },
    };
    let version: i64 = row.number(6, READ_ROW)?;
    let superseded_by_profile_id = script::to_opt_id(superseded_raw)?;
    let publication_operation_id = script::to_opt_id(operation_raw)?;
    let created_by_subject = row.text(9, READ_ROW)?;
    let updated_by_subject = row.text(10, READ_ROW)?;
    let change_reason = row.text(11, READ_ROW)?;
    let activated_at = script::to_opt_time(&activated_text, "invalid fee UTC timestamp")?;
    let superseded_at = script::to_opt_time(&superseded_text, "invalid fee UTC timestamp")?;
    let created_at = script::to_time(created_text.as_str(), "invalid fee UTC timestamp")?;
    let updated_at = script::to_time(updated_text.as_str(), "invalid fee UTC timestamp")?;
    Ok(ProviderFeeProfile {
        provider_fee_profile_id,
        provider_id,
        fee_policy: FeePolicy { rate_bps, fixed_amount_rials, fee_payer },
        status,
        version,
        superseded_by_profile_id,
        publication_operation_id,
        created_by_subject,
        updated_by_subject,
        change_reason,
        activated_at,
        superseded_at,
        created_at,
        updated_at,
    })
}

/// Reading a row changes nothing.
pub broadcast proof fn map_row_changes_nothing(st: RunView, row: Row)
    ensures
        script::writes((#[trigger] map_row_spec(st, row)).1.log) == script::writes(st.log),
        forall|sql: Seq<char>| #[trigger]
            script::runs(map_row_spec(st, row).1.log, sql) == script::runs(st.log, sql),
        forall|spared: Set<Seq<char>>| #[trigger]
            script::writes_beside(
                map_row_spec(st, row).1.log,
                spared,
            ) == script::writes_beside(st.log, spared),
        forall|sql: Seq<char>, binds: Seq<Bind>| #[trigger]
            script::runs_on(map_row_spec(st, row).1.log, sql, binds) == script::runs_on(
                st.log,
                sql,
                binds,
            ),
        forall|sql: Seq<char>| #[trigger]
            script::told(map_row_spec(st, row).1.log, sql) == script::told(st.log, sql),
        forall|sql: Seq<char>, such: spec_fn(Seq<Bind>) -> bool| #[trigger]
            script::told_where(map_row_spec(st, row).1.log, sql, such) == script::told_where(
                st.log,
                sql,
                such,
            ),
        forall|sql: Seq<char>, id: Uuid| #[trigger]
            script::stored_under(map_row_spec(st, row).1.log, sql, id) == script::stored_under(
                st.log,
                sql,
                id,
            ),
{
    broadcast use {
        script::writes_with_another,
        script::runs_with_another,
        script::runs_on_with_another,
        script::told_with_another,
        script::told_where_with_another,
        script::stored_under_with_another,
        script::writes_beside_with_another,
    };

    reveal(map_row_spec);
}

/// Reads a fee profile, where there is one.
pub open spec fn fetch_optional_fee_profile_spec(
    st: RunView,
    profile_id: Uuid,
) -> (Result<Option<ProviderFeeProfile>, HaltView>, RunView) {
    match script::first_row_spec(
        st,
        fee_profile_sql_text(),
        seq![Bind::Id(profile_id)],
        FEE_COLUMNS,
        "failed to fetch fee profile"@,
        "failed to read fee profile"@,
    ) { (Err(h), st) => (Err(h), st), (Ok(found), st) =>
    match found {
    None => {
        (Ok(None), st)
    },
    Some(row) =>
    match map_row_spec(st, row) { (Err(h), st) => (Err(h), st), (Ok(profile), st) =>
    (Ok(Some(profile)), st)
    }}}
}

/// Reads a fee profile, where there is one.
pub fn fetch_optional_fee_profile(
    s: &mut Session,
    profile_id: Uuid,
) -> (r: Result<Option<ProviderFeeProfile>, Halt>)
    ensures
        (script::seen(r), final(s)@) == fetch_optional_fee_profile_spec(old(s)@, profile_id),
{
    let found = script::first_row(
        s,
        fee_profile_sql().as_str(),
        binds::binds1(Bind::Id(profile_id)),
        FEE_COLUMNS,
        "failed to fetch fee profile",
        "failed to read fee profile",
    )?;
    let row = match found {
        Some(v) => v,
        None => {
            return Ok(None);
        },
    };
    let profile = map_row(s, row)?;
    Ok(Some(profile))
}

/// Reads the fee profile of a provider that has a status, where there is one.
pub open spec fn fetch_fee_profile_by_status_spec(
    st: RunView,
    provider_id: Uuid,
    status: ProviderFeeProfileStatus,
) -> (Result<Option<ProviderFeeProfile>, HaltView>, RunView) {
    match script::first_row_spec(
        st,
        fee_profile_by_status_sql_text(),
        seq![Bind::Id(provider_id), Bind::Label(status.code())],
        FEE_COLUMNS,
        "failed to fetch fee status"@,
        "failed to read fee status"@,
    ) { (Err(h), st) => (Err(h), st), (Ok(found), st) =>
    match found {
    None => {
        (Ok(None), st)
    },
    Some(row) =>
    match map_row_spec(st, row) { (Err(h), st) => (Err(h), st), (Ok(profile), st) =>
    (Ok(Some(profile)), st)
    }}}
}

/// Reads the fee profile of a provider that has a status, where there is one.
pub fn fetch_fee_profile_by_status(
    s: &mut Session,
    provider_id: Uuid,
    status: ProviderFeeProfileStatus,
) -> (r: Result<Option<ProviderFeeProfile>, Halt>)
    ensures
        (script::seen(r), final(s)@) == fetch_fee_profile_by_status_spec(
            old(s)@,
            provider_id,
            status,
        ),
{
    let found = script::first_row(
        s,
        fee_profile_by_status_sql().as_str(),
        binds::binds2(Bind::Id(provider_id), Bind::Label(status.as_db_value())),
        FEE_COLUMNS,
        "failed to fetch fee status",
        "failed to read fee status",
    )?;
    let row = match found {
        Some(v) => v,
        None => {
            return Ok(None);
        },
    };
    let profile = map_row(s, row)?;
    Ok(Some(profile))
}

/// Locks and reads the draft that an operation publishes, where there is one.
pub open spec fn fetch_by_operation_for_update_spec(
    st: RunView,
    operation_id: Uuid,
) -> (Result<Option<ProviderFeeProfile>, HaltView>, RunView) {
    match script::first_row_spec(
        st,
        fee_profile_pending_sql_text(),
        seq![Bind::Id(operation_id)],
        FEE_COLUMNS,
        "failed to lock pending fee"@,
        "failed to read pending fee"@,
    ) { (Err(h), st) => (Err(h), st), (Ok(found), st) =>
    match found {
    None => {
        (Ok(None), st)
    },
    Some(row) =>
    match map_row_spec(st, row) { (Err(h), st) => (Err(h), st), (Ok(profile), st) =>
    (Ok(Some(profile)), st)
    }}}
}

/// Locks and reads the draft that an operation publishes, where there is one.
pub fn fetch_by_operation_for_update(
    s: &mut Session,
    operation_id: Uuid,
) -> (r: Result<Option<ProviderFeeProfile>, Halt>)
    ensures
        (script::seen(r), final(s)@) == fetch_by_operation_for_update_spec(old(s)@, operation_id),
{
    let found = script::first_row(
        s,
        fee_profile_pending_sql().as_str(),
        binds::binds1(Bind::Id(operation_id)),
        FEE_COLUMNS,
        "failed to lock pending fee",
        "failed to read pending fee",
    )?;
    let row = match found {
        Some(v) => v,
        None => {
            return Ok(None);
        },
    };
    let profile = map_row(s, row)?;
    Ok(Some(profile))
}

/// Reads a fee profile that was stored.
pub open spec fn fetch_fee_profile_spec(
    st: RunView,
    profile_id: Uuid,
) -> (Result<ProviderFeeProfile, HaltView>, RunView) {
    match fetch_optional_fee_profile_spec(
        st,
        profile_id,
    ) { (Err(h), st) => (Err(h), st), (Ok(found), st) =>
    match found {
    None => {
        (script::query_fault("fee profile not visible"@), st)
    },
    Some(profile) =>
    (Ok(profile), st)
    }}
}

/// Reads a fee profile that was stored.
pub fn fetch_fee_profile(s: &mut Session, profile_id: Uuid) -> (r: Result<ProviderFeeProfile, Halt>)
    ensures
        (script::seen(r), final(s)@) == fetch_fee_profile_spec(old(s)@, profile_id),
{
    let found = fetch_optional_fee_profile(s, profile_id)?;
    let profile = match found {
        Some(v) => v,
        None => {
            return Err(script::fail_query("fee profile not visible"));
        },
    };
    Ok(profile)
}

/// Locks a provider, and tells whether there is one.
pub open spec fn lock_provider_spec(
    st: RunView,
    provider_id: Uuid,
) -> (Result<bool, HaltView>, RunView) {
    match script::rows_spec(
        st,
        LOCK_PROVIDER_SQL@,
        seq![Bind::Id(provider_id)],
        "r",
        "failed to lock provider"@,
    ) { (Err(h), st) => (Err(h), st), (Ok(found), st) =>
    (Ok(found.rows@.len() > 0 || found.failure is Some), st)
    }
}

/// Locks a provider, and tells whether there is one.
pub fn lock_provider(s: &mut Session, provider_id: Uuid) -> (r: Result<bool, Halt>)
    ensures
        (script::seen(r), final(s)@) == lock_provider_spec(old(s)@, provider_id),
{
    let found = script::rows(
        s,
        LOCK_PROVIDER_SQL,
        binds::binds1(Bind::Id(provider_id)),
        "r",
        "failed to lock provider",
    )?;
    Ok(found.rows.len() > 0 || found.failure.is_some())
}

/// How many ranges a provider is active in.
pub open spec fn active_range_count_spec(
    st: RunView,
    provider_id: Uuid,
) -> (Result<i64, HaltView>, RunView) {
    script::one_int_spec(
        st,
        ACTIVE_RANGES_SQL@,
        seq![Bind::Id(provider_id)],
        "failed to count provider ranges"@,
    )
}

/// How many ranges a provider is active in.
pub fn active_range_count(s: &mut Session, provider_id: Uuid) -> (r: Result<i64, Halt>)
    ensures
        (script::seen(r), final(s)@) == active_range_count_spec(old(s)@, provider_id),
{
    script::one_int(
        s,
        ACTIVE_RANGES_SQL,
        binds::binds1(Bind::Id(provider_id)),
        "failed to count provider ranges",
    )
}

/// The version that the next fee profile of a provider gets.
pub open spec fn next_version_spec(
    st: RunView,
    provider_id: Uuid,
) -> (Result<i64, HaltView>, RunView) {
    script::one_int_spec(
        st,
        NEXT_VERSION_SQL@,
        seq![Bind::Id(provider_id)],
        "failed to allocate fee version"@,
    )
}

/// The version that the next fee profile of a provider gets.
pub fn next_version(s: &mut Session, provider_id: Uuid) -> (r: Result<i64, Halt>)
    ensures
        (script::seen(r), final(s)@) == next_version_spec(old(s)@, provider_id),
{
    script::one_int(
        s,
        NEXT_VERSION_SQL,
        binds::binds1(Bind::Id(provider_id)),
        "failed to allocate fee version",
    )
}

/// Stores a draft.
pub open spec fn insert_draft_spec(
    st: RunView,
    profile_id: Uuid,
    provider_id: Uuid,
    policy: FeePolicy,
    version: i64,
    operation_id: Option<Uuid>,
    subject: String,
    reason: String,
) -> (Result<(), HaltView>, RunView) {
    match script::execute_spec(
        st,
        INSERT_DRAFT_SQL@,
        seq![
            Bind::Id(profile_id),
            Bind::Id(provider_id),
            Bind::Int(policy.rate_bps),
            Bind::Unsigned(policy.fixed_amount_rials),
            Bind::Text(policy.fee_payer),
            Bind::Int(version),
            Bind::OptId(operation_id),
            Bind::Text(subject),
            Bind::Text(subject),
            Bind::Trimmed(reason),
        ],
        "failed to insert fee profile"@,
    ) { (Err(h), st) => (Err(h), st), (Ok(_), st) =>
    (Ok(()), st)
    }
}

/// Stores a draft.
pub fn insert_draft(
    s: &mut Session,
    profile_id: Uuid,
    provider_id: Uuid,
    policy: &FeePolicy,
    version: i64,
    operation_id: Option<Uuid>,
    subject: &String,
    reason: &String,
) -> (r: Result<(), Halt>)
    ensures
        (script::seen(r), final(s)@) == insert_draft_spec(
            old(s)@,
            profile_id,
            provider_id,
            *policy,
            version,
            operation_id,
            *subject,
            *reason,
        ),
{
    script::execute(
        s,
        INSERT_DRAFT_SQL,
        binds::binds10(
            Bind::Id(profile_id),
            Bind::Id(provider_id),
            Bind::Int(policy.rate_bps),
            Bind::Unsigned(policy.fixed_amount_rials),
            Bind::Text(policy.fee_payer.clone()),
            Bind::Int(version),
            Bind::OptId(operation_id),
            Bind::Text(subject.clone()),
            Bind::Text(subject.clone()),
            Bind::Trimmed(reason.clone()),
        ),
        "failed to insert fee profile",
    )?;
    Ok(())
}

/// Changes a draft that is not being published.
pub open spec fn update_draft_spec(
    st: RunView,
    profile_id: Uuid,
    policy: FeePolicy,
    operation_id: Option<Uuid>,
    subject: String,
    reason: String,
) -> (Result<(), HaltView>, RunView) {
    match script::execute_count_spec(
        st,
        UPDATE_DRAFT_SQL@,
        seq![
            Bind::Int(policy.rate_bps),
            Bind::Unsigned(policy.fixed_amount_rials),
            Bind::Text(policy.fee_payer),
            Bind::OptId(operation_id),
            Bind::Text(subject),
            Bind::Trimmed(reason),
            Bind::Id(profile_id),
        ],
        "failed to update fee profile"@,
        "failed to read fee update count"@,
    ) { (Err(h), st) => (Err(h), st), (Ok(touched), st) =>
    if touched != 1 {
        (script::query_fault("fee draft changed before update"@), st)
    } else {
    (Ok(()), st)
    }}
}

/// Changes a draft that is not being published.
pub fn update_draft(
    s: &mut Session,
    profile_id: Uuid,
    policy: &FeePolicy,
    operation_id: Option<Uuid>,
    subject: &String,
    reason: &String,
) -> (r: Result<(), Halt>)
    ensures
        (script::seen(r), final(s)@) == update_draft_spec(
            old(s)@,
            profile_id,
            *policy,
            operation_id,
            *subject,
            *reason,
        ),
{
    let touched = script::execute_count(
        s,
        UPDATE_DRAFT_SQL,
        binds::binds7(
            Bind::Int(policy.rate_bps),
            Bind::Unsigned(policy.fixed_amount_rials),
            Bind::Text(policy.fee_payer.clone()),
            Bind::OptId(operation_id),
            Bind::Text(subject.clone()),
            Bind::Trimmed(reason.clone()),
            Bind::Id(profile_id),
        ),
        "failed to update fee profile",
        "failed to read fee update count",
    )?;
    if touched != 1 {
        return Err(script::fail_query("fee draft changed before update"));
    }
    Ok(())
}

/// Stores the event that publishes a fee profile.
pub open spec fn insert_fee_profile_outbox_spec(
    st: RunView,
    operation_id: Uuid,
    provider_id: Uuid,
    profile_id: Uuid,
    version: i64,
    policy: FeePolicy,
    headers_of: HeaderSource,
) -> (Result<(), HaltView>, RunView) {
    match script::fresh_id_spec(st) { (Err(h), st) => (Err(h), st), (Ok(event_id), st) =>
    match script::consult_text_spec(
        st,
        Rule::FeePolicyDocument(policy),
    ) { (Err(h), st) => (Err(h), st), (Ok(fees), st) =>
    { let keys = EventKeys {
        event_id,
        event_type: "PROVIDER_FEE_PROFILE_PUBLISH_REQUESTED",
        aggregate_type: "PROVIDER",
        aggregate_id: provider_id,
        operation_id,
    };
    match script::encode_spec(
        st,
        Rule::EventEnvelope(keys, Document::FeePublication(provider_id, profile_id, version, fees)),
        "failed to serialize fee event"@,
    ) { (Err(h), st) => (Err(h), st), (Ok(payload), st) =>
    match script::encode_spec(
        st,
        Rule::EventHeaders(headers_of),
        "failed to serialize fee headers"@,
    ) { (Err(h), st) => (Err(h), st), (Ok(headers), st) =>
    match script::execute_spec(
        st,
        FEE_OUTBOX_SQL@,
        seq![
            Bind::Id(event_id),
            Bind::Id(operation_id),
            Bind::Label("PROVIDER_FEE_PROFILE_PUBLISH_REQUESTED"),
            Bind::Label("PROVIDER"),
            Bind::Id(provider_id),
            Bind::IdText(provider_id),
            Bind::Text(payload),
            Bind::Text(headers),
        ],
        "failed to insert fee outbox"@,
    ) { (Err(h), st) => (Err(h), st), (Ok(_), st) =>
    (Ok(()), st)
    }}}}}}
}

/// Stores the event that publishes a fee profile.
pub fn insert_fee_profile_outbox(
    s: &mut Session,
    operation_id: Uuid,
    provider_id: Uuid,
    profile_id: Uuid,
    version: i64,
    policy: &FeePolicy,
    headers_of: &HeaderSource,
) -> (r: Result<(), Halt>)
    ensures
        (script::seen(r), final(s)@) == insert_fee_profile_outbox_spec(
            old(s)@,
            operation_id,
            provider_id,
            profile_id,
            version,
            *policy,
            *headers_of,
        ),
{
    let event_id = script::fresh_id(s)?;
    let fees = script::consult_text(s, Rule::FeePolicyDocument(policy.clone()))?;
    let keys = EventKeys {
        event_id,
        event_type: "PROVIDER_FEE_PROFILE_PUBLISH_REQUESTED",
        aggregate_type: "PROVIDER",
        aggregate_id: provider_id,
        operation_id,
    };
    let payload = script::encode(
        s,
        Rule::EventEnvelope(
            keys,
            Document::FeePublication(provider_id, profile_id, version, fees.clone()),
        ),
        "failed to serialize fee event",
    )?;
    let headers = script::encode(
        s,
        Rule::EventHeaders(headers_of.clone()),
        "failed to serialize fee headers",
    )?;
    script::execute(
        s,
        FEE_OUTBOX_SQL,
        binds::binds8(
            Bind::Id(event_id),
            Bind::Id(operation_id),
            Bind::Label("PROVIDER_FEE_PROFILE_PUBLISH_REQUESTED"),
            Bind::Label("PROVIDER"),
            Bind::Id(provider_id),
            Bind::IdText(provider_id),
            Bind::Text(payload.clone()),
            Bind::Text(headers.clone()),
        ),
        "failed to insert fee outbox",
    )?;
    Ok(())
}

/// The draft of a provider is being published, and cannot be changed.
pub open spec fn draft_is_frozen(draft: Option<ProviderFeeProfile>) -> bool {
    match draft {
        Some(d) => d.publication_operation_id is Some,
        None => false,
    }
}

fn frozen(draft: &Option<ProviderFeeProfile>) -> (r: bool)
    ensures
        r == draft_is_frozen(*draft),
{
    match draft {
        Some(d) => d.publication_operation_id.is_some(),
        None => false,
    }
}

/// What setting a fee profile comes to.
pub open spec fn disposition_of(had_draft: bool, published: bool) -> FeeProfileMutationDisposition {
    if published {
        FeeProfileMutationDisposition::PublicationPending
    } else if had_draft {
        FeeProfileMutationDisposition::Updated
    } else {
        FeeProfileMutationDisposition::Created
    }
}

fn disposition(had_draft: bool, published: bool) -> (r: FeeProfileMutationDisposition)
    ensures
        r == disposition_of(had_draft, published),
{
    if published {
        FeeProfileMutationDisposition::PublicationPending
    } else if had_draft {
        FeeProfileMutationDisposition::Updated
    } else {
        FeeProfileMutationDisposition::Created
    }
}

/// The identifier of a fee profile, where there is one.
pub open spec fn identity_of(profile: Option<ProviderFeeProfile>) -> Option<Uuid> {
    match profile {
        Some(p) => Some(p.provider_fee_profile_id),
        None => None,
    }
}

fn identity(profile: &Option<ProviderFeeProfile>) -> (r: Option<Uuid>)
    ensures
        r == identity_of(*profile),
{
    match profile {
        Some(p) => Some(p.provider_fee_profile_id),
        None => None,
    }
}

/// The identifier of the draft, or a new one.
pub open spec fn draft_identity_spec(
    st: RunView,
    draft: Option<ProviderFeeProfile>,
) -> (Result<Uuid, HaltView>, RunView) {
    if let Some(existing) = draft {
        (Ok(existing.provider_fee_profile_id), st)
    } else {
    script::fresh_id_spec(st)
    }
}

/// The identifier of the draft, or a new one.
pub fn draft_identity(
    s: &mut Session,
    draft: &Option<ProviderFeeProfile>,
) -> (r: Result<Uuid, Halt>)
    ensures
        (script::seen(r), final(s)@) == draft_identity_spec(old(s)@, *draft),
{
    if let Some(existing) = draft {
        return Ok(existing.provider_fee_profile_id);
    }
    script::fresh_id(s)
}

/// The version of the draft, or the next one of the provider.
pub open spec fn draft_version_spec(
    st: RunView,
    draft: Option<ProviderFeeProfile>,
    provider_id: Uuid,
) -> (Result<i64, HaltView>, RunView) {
    match next_version_spec(st, provider_id) { (Err(h), st) => (Err(h), st), (Ok(next), st) =>
    if let Some(existing) = draft {
        (Ok(existing.version), st)
    } else {
    (Ok(next), st)
    }}
}

/// The version of the draft, or the next one of the provider.
pub fn draft_version(
    s: &mut Session,
    draft: &Option<ProviderFeeProfile>,
    provider_id: Uuid,
) -> (r: Result<i64, Halt>)
    ensures
        (script::seen(r), final(s)@) == draft_version_spec(old(s)@, *draft, provider_id),
{
    let next = next_version(s, provider_id)?;
    if let Some(existing) = draft {
        return Ok(existing.version);
    }
    Ok(next)
}

/// The operation that publishes a fee profile, where the provider is active in a range.
pub open spec fn publication_spec(
    st: RunView,
    provider_id: Uuid,
) -> (Result<Option<Uuid>, HaltView>, RunView) {
    match active_range_count_spec(
        st,
        provider_id,
    ) { (Err(h), st) => (Err(h), st), (Ok(ranges), st) =>
    if ranges > 0 {
        match script::fresh_id_spec(st) { (Err(h), st) => (Err(h), st), (Ok(id), st) =>
        (Ok(Some(id)), st)
        }
    } else {
    (Ok(None), st)
    }}
}

/// The operation that publishes a fee profile, where the provider is active in a range.
pub fn publication(s: &mut Session, provider_id: Uuid) -> (r: Result<Option<Uuid>, Halt>)
    ensures
        (script::seen(r), final(s)@) == publication_spec(old(s)@, provider_id),
{
    let ranges = active_range_count(s, provider_id)?;
    if ranges > 0 {
        let id = script::fresh_id(s)?;
        return Ok(Some(id));
    }
    Ok(None)
}

/// Stores the event that publishes a fee profile, where an operation asks for it.
pub open spec fn publish_fees_spec(
    st: RunView,
    operation_id: Option<Uuid>,
    provider_id: Uuid,
    profile_id: Uuid,
    version: i64,
    policy: FeePolicy,
    headers_of: HeaderSource,
) -> (Result<(), HaltView>, RunView) {
    match operation_id {
    None => {
        (Ok(()), st)
    },
    Some(id) =>
    insert_fee_profile_outbox_spec(st, id, provider_id, profile_id, version, policy, headers_of)
    }
}

/// Stores the event that publishes a fee profile, where an operation asks for it.
pub fn publish_fees(
    s: &mut Session,
    operation_id: Option<Uuid>,
    provider_id: Uuid,
    profile_id: Uuid,
    version: i64,
    policy: &FeePolicy,
    headers_of: &HeaderSource,
) -> (r: Result<(), Halt>)
    ensures
        (script::seen(r), final(s)@) == publish_fees_spec(
            old(s)@,
            operation_id,
            provider_id,
            profile_id,
            version,
            *policy,
            *headers_of,
        ),
{
    let id = match operation_id {
        Some(v) => v,
        None => {
            return Ok(());
        },
    };
    insert_fee_profile_outbox(s, id, provider_id, profile_id, version, policy, headers_of)
}

/// Changes the draft of a provider, or stores one.
pub open spec fn store_draft_spec(
    st: RunView,
    draft: Option<ProviderFeeProfile>,
    profile_id: Uuid,
    provider_id: Uuid,
    desired: DesiredProviderFeeProfile,
    version: i64,
    operation_id: Option<Uuid>,
    subject: String,
) -> (Result<ProviderFeeProfile, HaltView>, RunView) {
    if draft is Some {
        match update_draft_spec(
            st,
            profile_id,
            desired.fee_policy,
            operation_id,
            subject,
            desired.reason,
        ) { (Err(h), st) => (Err(h), st), (Ok(_), st) =>
        fetch_fee_profile_spec(st, profile_id)
        }
    } else {
    match insert_draft_spec(
        st,
        profile_id,
        provider_id,
        desired.fee_policy,
        version,
        operation_id,
        subject,
        desired.reason,
    ) { (Err(h), st) => (Err(h), st), (Ok(_), st) =>
    fetch_fee_profile_spec(st, profile_id)
    }}
}

/// Changes the draft of a provider, or stores one.
pub fn store_draft(
    s: &mut Session,
    draft: &Option<ProviderFeeProfile>,
    profile_id: Uuid,
    provider_id: Uuid,
    desired: &DesiredProviderFeeProfile,
    version: i64,
    operation_id: Option<Uuid>,
    subject: &String,
) -> (r: Result<ProviderFeeProfile, Halt>)
    ensures
        (script::seen(r), final(s)@) == store_draft_spec(
            old(s)@,
            *draft,
            profile_id,
            provider_id,
            *desired,
            version,
            operation_id,
            *subject,
        ),
{
    if draft.is_some() {
        update_draft(s, profile_id, &desired.fee_policy, operation_id, subject, &desired.reason)?;
        return fetch_fee_profile(s, profile_id);
    }
    insert_draft(
        s,
        profile_id,
        provider_id,
        &desired.fee_policy,
        version,
        operation_id,
        subject,
        &desired.reason,
    )?;
    fetch_fee_profile(s, profile_id)
}

/// The snapshot of the draft that was there before.
pub open spec fn draft_snapshot_spec(
    st: RunView,
    draft: Option<ProviderFeeProfile>,
) -> (Result<Option<Snapshot>, HaltView>, RunView) {
    match draft {
    None => {
        (Ok(None), st)
    },
    Some(existing) =>
    match script::consult_text_spec(
        st,
        Rule::FeeSnapshot(existing),
    ) { (Err(h), st) => (Err(h), st), (Ok(snapshot), st) =>
    (Ok(Some(Snapshot::Text(snapshot))), st)
    }}
}

/// The snapshot of the draft that was there before.
pub fn draft_snapshot(
    s: &mut Session,
    draft: &Option<ProviderFeeProfile>,
) -> (r: Result<Option<Snapshot>, Halt>)
    ensures
        (script::seen(r), final(s)@) == draft_snapshot_spec(old(s)@, *draft),
{
    let existing = match draft {
        Some(v) => v,
        None => {
            return Ok(None);
        },
    };
    let snapshot = script::consult_text(s, Rule::FeeSnapshot(existing.clone()))?;
    Ok(Some(Snapshot::Text(snapshot)))
}

/// Stores a fee profile for a locked provider, publishes it where the provider is active in a
/// range, audits it and completes the command.
#[verifier::opaque]
pub open spec fn apply_fees_spec(
    st: RunView,
    context: MutationCommandContext,
    provider_id: Uuid,
    desired: DesiredProviderFeeProfile,
    draft: Option<ProviderFeeProfile>,
) -> (Result<SetProviderFeeProfilePersistenceOutcome, HaltView>, RunView) {
    match draft_identity_spec(st, draft) { (Err(h), st) => (Err(h), st), (Ok(profile_id), st) =>
    match draft_version_spec(
        st,
        draft,
        provider_id,
    ) { (Err(h), st) => (Err(h), st), (Ok(version), st) =>
    match publication_spec(
        st,
        provider_id,
    ) { (Err(h), st) => (Err(h), st), (Ok(operation_id), st) =>
    match publish_fees_spec(
        st,
        operation_id,
        provider_id,
        profile_id,
        version,
        desired.fee_policy,
        context.headers(),
    ) { (Err(h), st) => (Err(h), st), (Ok(_), st) =>
    match idempotency::insert_idempotency_record_spec(
        st,
        context.record,
    ) { (Err(h), st) => (Err(h), st), (Ok(_), st) =>
    match store_draft_spec(
        st,
        draft,
        profile_id,
        provider_id,
        desired,
        version,
        operation_id,
        context.actor.subject,
    ) { (Err(h), st) => (Err(h), st), (Ok(profile), st) =>
    match draft_snapshot_spec(st, draft) { (Err(h), st) => (Err(h), st), (Ok(old_snapshot), st) =>
    { let result = SetProviderFeeProfileResult {
        disposition: disposition_of(draft is Some, operation_id is Some),
        profile,
        operation_id,
    };
    match script::encode_spec(
        st,
        Rule::FeeResponse(result),
        "failed to serialize fee response"@,
    ) { (Err(h), st) => (Err(h), st), (Ok(response), st) =>
    match script::consult_text_spec(
        st,
        Rule::FeeSnapshot(result.profile),
    ) { (Err(h), st) => (Err(h), st), (Ok(new_snapshot), st) =>
    match audit::insert_audit_log_spec(
        st,
        "PROVIDER_FEE_PROFILE",
        profile_id,
        if draft is Some { AuditAction::Update } else { AuditAction::Insert },
        Bind::Trimmed(desired.reason),
        old_snapshot,
        Some(Snapshot::Text(new_snapshot)),
        audit::trusted_origin_spec(context.audit),
    ) { (Err(h), st) => (Err(h), st), (Ok(_), st) =>
    match idempotency::complete_idempotency_record_spec(
        st,
        context.operation_type,
        context.idempotency_key,
        "provider_fee_profile",
        profile_id,
        Snapshot::Text(response),
    ) { (Err(h), st) => (Err(h), st), (Ok(_), st) =>
    (Ok(SetProviderFeeProfilePersistenceOutcome::Applied(Box::new(result))), st)
    }}}}}}}}}}}}
}

/// Stores a fee profile for a locked provider, publishes it where the provider is active in a
/// range, audits it and completes the command.
pub fn apply_fees(
    s: &mut Session,
    context: &MutationCommandContext,
    provider_id: Uuid,
    desired: &DesiredProviderFeeProfile,
    draft: &Option<ProviderFeeProfile>,
) -> (r: Result<SetProviderFeeProfilePersistenceOutcome, Halt>)
    ensures
        (script::seen(r), final(s)@) == apply_fees_spec(
            old(s)@,
            *context,
            provider_id,
            *desired,
            *draft,
        ),
{
    proof {
        reveal(apply_fees_spec);
    }
    let profile_id = draft_identity(s, draft)?;
    let version: i64 = draft_version(s, draft, provider_id)?;
    let operation_id = publication(s, provider_id)?;
    publish_fees(
        s,
        operation_id,
        provider_id,
        profile_id,
        version,
        &desired.fee_policy,
        &context.event_headers(),
    )?;
    idempotency::insert_idempotency_record(s, &context.record)?;
    let profile = store_draft(
        s,
        draft,
        profile_id,
        provider_id,
        desired,
        version,
        operation_id,
        &context.actor.subject,
    )?;
    let old_snapshot = draft_snapshot(s, draft)?;
    let result = SetProviderFeeProfileResult {
        disposition: disposition(draft.is_some(), operation_id.is_some()),
        profile,
        operation_id,
    };
    let response = script::encode(
        s,
        Rule::FeeResponse(result.clone()),
        "failed to serialize fee response",
    )?;
    let new_snapshot = script::consult_text(s, Rule::FeeSnapshot(result.profile.clone()))?;
    audit::insert_audit_log(
        s,
        "PROVIDER_FEE_PROFILE",
        profile_id,
        if draft.is_some() { AuditAction::Update } else { AuditAction::Insert },
        Bind::Trimmed(desired.reason.clone()),
        old_snapshot,
        Some(Snapshot::Text(new_snapshot)),
        audit::trusted_origin(&context.audit),
    )?;
    idempotency::complete_idempotency_record(
        s,
        &context.operation_type,
        &context.idempotency_key,
        "provider_fee_profile",
        profile_id,
        Snapshot::Text(response),
    )?;
    Ok(SetProviderFeeProfilePersistenceOutcome::Applied(Box::new(result)))
}

/// Sets the fees of a provider: the draft is changed or stored, and published where the provider is
/// active in a range. Under one idempotency key this happens once.
pub open spec fn set_provider_fee_profile_atomic_spec(
    st: RunView,
    context: MutationCommandContext,
    provider_id: Uuid,
    desired: DesiredProviderFeeProfile,
) -> (Result<SetProviderFeeProfilePersistenceOutcome, HaltView>, RunView) {
    match idempotency::fetch_idempotency_record_spec(
        st,
        context.operation_type,
        context.idempotency_key,
    ) { (Err(h), st) => (Err(h), st), (Ok(existing), st) =>
    if let Some(record) = existing {
        (Ok(fee_verdict(idempotency::idempotency_verdict(record, context.request_hash))), st)
    } else {
    match script::verdict_spec(
        st,
        Rule::FeeContract(desired),
    ) { (Err(h), st) => (Err(h), st), (Ok(objection), st) =>
    if let Some(reason) = objection {
        (Ok(SetProviderFeeProfilePersistenceOutcome::ContractInvalid(reason)), st)
    } else {
    match lock_provider_spec(st, provider_id) { (Err(h), st) => (Err(h), st), (Ok(present), st) =>
    if !present {
        (Ok(SetProviderFeeProfilePersistenceOutcome::ProviderNotFound), st)
    } else {
    match idempotency::fetch_idempotency_record_spec(
        st,
        context.operation_type,
        context.idempotency_key,
    ) { (Err(h), st) => (Err(h), st), (Ok(recheck), st) =>
    if let Some(record) = recheck {
        (Ok(fee_verdict(idempotency::idempotency_verdict(record, context.request_hash))), st)
    } else {
    match fetch_fee_profile_by_status_spec(
        st,
        provider_id,
        ProviderFeeProfileStatus::Draft,
    ) { (Err(h), st) => (Err(h), st), (Ok(draft), st) =>
    if draft_is_frozen(draft) {
        (Ok(SetProviderFeeProfilePersistenceOutcome::DraftFrozen), st)
    } else {
    apply_fees_spec(st, context, provider_id, desired, draft)
    }}}}}}}}}}
}

impl OracleRepository {
    /// Sets the fees of a provider: the draft is changed or stored, and published where the
    /// provider is active in a range. Under one idempotency key this happens once.
    pub fn set_provider_fee_profile_atomic(
        s: &mut Session,
        context: &MutationCommandContext,
        provider_id: Uuid,
        desired: &DesiredProviderFeeProfile,
    ) -> (r: Result<SetProviderFeeProfilePersistenceOutcome, Halt>)
        ensures
            (script::seen(r), final(s)@) == set_provider_fee_profile_atomic_spec(
                old(s)@,
                *context,
                provider_id,
                *desired,
            ),
    {
        let existing = idempotency::fetch_idempotency_record(
            s,
            &context.operation_type,
            &context.idempotency_key,
        )?;
        if let Some(record) = &existing {
            return Ok(classify_idempotency(record, &context.request_hash));
        }
        let objection = script::verdict(s, Rule::FeeContract(desired.clone()))?;
        if let Some(reason) = objection {
            return Ok(SetProviderFeeProfilePersistenceOutcome::ContractInvalid(reason));
        }
        let present = lock_provider(s, provider_id)?;
        if !present {
            return Ok(SetProviderFeeProfilePersistenceOutcome::ProviderNotFound);
        }
        let recheck = idempotency::fetch_idempotency_record(
            s,
            &context.operation_type,
            &context.idempotency_key,
        )?;
        if let Some(record) = &recheck {
            return Ok(classify_idempotency(record, &context.request_hash));
        }
        let draft = fetch_fee_profile_by_status(s, provider_id, ProviderFeeProfileStatus::Draft)?;
        if frozen(&draft) {
            return Ok(SetProviderFeeProfilePersistenceOutcome::DraftFrozen);
        }
        apply_fees(s, context, provider_id, desired, &draft)
    }
}

/// What a command comes to when another one with its idempotency key won.
pub open spec fn set_provider_fee_profile_after_conflict_spec(
    st: RunView,
    context: MutationCommandContext,
) -> (Result<SetProviderFeeProfilePersistenceOutcome, HaltView>, RunView) {
    match idempotency::fetch_idempotency_record_spec(
        st,
        context.operation_type,
        context.idempotency_key,
    ) { (Err(h), st) => (Err(h), st), (Ok(existing), st) =>
    if let Some(record) = existing {
        (Ok(fee_verdict(idempotency::idempotency_verdict(record, context.request_hash))), st)
    } else {
    (script::query_fault("concurrent fee idempotency winner was not visible"@), st)
    }}
}

impl OracleRepository {
    /// What a command comes to when another one with its idempotency key won.
    pub fn set_provider_fee_profile_after_conflict(
        s: &mut Session,
        context: &MutationCommandContext,
    ) -> (r: Result<SetProviderFeeProfilePersistenceOutcome, Halt>)
        ensures
            (script::seen(r), final(s)@) == set_provider_fee_profile_after_conflict_spec(
                old(s)@,
                *context,
            ),
    {
        let existing = idempotency::fetch_idempotency_record(
            s,
            &context.operation_type,
            &context.idempotency_key,
        )?;
        if let Some(record) = &existing {
            return Ok(classify_idempotency(record, &context.request_hash));
        }
        Err(script::fail_query("concurrent fee idempotency winner was not visible"))
    }
}

/// The fee profile of a provider that is in force.
pub open spec fn get_current_provider_fee_profile_spec(
    st: RunView,
    provider_id: Uuid,
) -> (Result<Option<ProviderFeeProfile>, HaltView>, RunView) {
    fetch_fee_profile_by_status_spec(st, provider_id, ProviderFeeProfileStatus::Active)
}

impl OracleRepository {
    /// The fee profile of a provider that is in force.
    pub fn get_current_provider_fee_profile(
        s: &mut Session,
        provider_id: Uuid,
    ) -> (r: Result<Option<ProviderFeeProfile>, Halt>)
        ensures
            (script::seen(r), final(s)@) == get_current_provider_fee_profile_spec(
                old(s)@,
                provider_id,
            ),
    {
        fetch_fee_profile_by_status(s, provider_id, ProviderFeeProfileStatus::Active)
    }
}

/// A fee profile of a provider.
pub open spec fn get_provider_fee_profile_spec(
    st: RunView,
    provider_id: Uuid,
    profile_id: Uuid,
) -> (Result<Option<ProviderFeeProfile>, HaltView>, RunView) {
    match fetch_optional_fee_profile_spec(
        st,
        profile_id,
    ) { (Err(h), st) => (Err(h), st), (Ok(found), st) =>
    match found {
    None => {
        (Ok(None), st)
    },
    Some(profile) =>
    if profile.provider_id == provider_id {
        (Ok(Some(profile)), st)
    } else {
    (Ok(None), st)
    }}}
}

impl OracleRepository {
    /// A fee profile of a provider.
    pub fn get_provider_fee_profile(
        s: &mut Session,
        provider_id: Uuid,
        profile_id: Uuid,
    ) -> (r: Result<Option<ProviderFeeProfile>, Halt>)
        ensures
            (script::seen(r), final(s)@) == get_provider_fee_profile_spec(
                old(s)@,
                provider_id,
                profile_id,
            ),
    {
        let found = fetch_optional_fee_profile(s, profile_id)?;
        let profile = match found {
            Some(v) => v,
            None => {
                return Ok(None);
            },
        };
        if profile.provider_id == provider_id {
            return Ok(Some(profile));
        }
        Ok(None)
    }
}

/// The fee profiles that rows hold, in order.
pub open spec fn map_rows_spec(
    st: RunView,
    rows: Seq<Row>,
    i: nat,
    done: Seq<ProviderFeeProfile>,
) -> (Result<Seq<ProviderFeeProfile>, HaltView>, RunView)
    decreases rows.len() - i,
{
    if i >= rows.len() {
        (Ok(done), st)
    } else {
        match map_row_spec(st, rows[i as int]) {
            (Err(h), st) => (Err(h), st), (Ok(item), st) => map_rows_spec(
                st,
                rows,
                i + 1,
                done.push(item),
            )
        }
    }
}

/// The fee profiles that rows hold, in order.
pub fn map_rows(s: &mut Session, rows: &Vec<Row>) -> (r: Result<Vec<ProviderFeeProfile>, Halt>)
    ensures
        (script::seen_view(r), final(s)@) == map_rows_spec(old(s)@, rows@, 0, Seq::empty()),
{
    let mut done: Vec<ProviderFeeProfile> = Vec::new();
    let mut i: usize = 0;
    assert(done@ =~= Seq::empty());
    while i < rows.len()
        invariant
            i <= rows@.len(),
            map_rows_spec(old(s)@, rows@, 0, Seq::empty()) == map_rows_spec(
                s@,
                rows@,
                i as nat,
                done@,
            ),
        decreases rows@.len() - i,
    {
        let item = map_row(s, &rows[i])?;
        done.push(item);
        i = i + 1;
    }
    Ok(done)
}

/// Each is taken in its turn, after those before it, and the first that fails ends the run.
pub proof fn map_rows_go_in_turn(st: RunView, rows: Seq<Row>, i: nat, done: Seq<ProviderFeeProfile>)
    ensures
        ({
            let whole = map_rows_spec(st, rows, i, done);
            let (next, at) = map_row_spec(st, rows[i as int]);
            &&& i >= rows.len() ==> whole == (Ok::<_, HaltView>(done), st)
            &&& i < rows.len() ==> match next {
                Ok(item) => whole == map_rows_spec(at, rows, i + 1, done.push(item)),
                Err(halt) => whole.0 == Err::<Seq<ProviderFeeProfile>, _>(halt) && whole.1 == at,
            }
        }),
{
}

/// The fee profiles of a provider below a version, newest first.
pub open spec fn list_provider_fee_profiles_spec(
    st: RunView,
    provider_id: Uuid,
    before_version: Option<i64>,
    limit: u16,
) -> (Result<Seq<ProviderFeeProfile>, HaltView>, RunView) {
    match script::rows_spec(
        st,
        fee_profile_list_sql_text(),
        seq![
            Bind::Id(provider_id),
            Bind::OptInt(before_version),
            Bind::OptInt(before_version),
            Bind::Int(limit as i64),
        ],
        FEE_COLUMNS,
        "failed to list fee profiles"@,
    ) { (Err(h), st) => (Err(h), st), (Ok(found), st) =>
    match map_rows_spec(
        st,
        found.rows@,
        0,
        Seq::empty(),
    ) { (Err(h), st) => (Err(h), st), (Ok(items), st) =>
    if let Some(cause) = found.failure {
        (script::failed("failed to read fee profile list"@, cause@), st)
    } else {
    (Ok(items), st)
    }}}
}

impl OracleRepository {
    /// The fee profiles of a provider below a version, newest first.
    pub fn list_provider_fee_profiles(
        s: &mut Session,
        provider_id: Uuid,
        before_version: Option<i64>,
        limit: u16,
    ) -> (r: Result<Vec<ProviderFeeProfile>, Halt>)
        ensures
            (script::seen_view(r), final(s)@) == list_provider_fee_profiles_spec(
                old(s)@,
                provider_id,
                before_version,
                limit,
            ),
    {
        let found = script::rows(
            s,
            fee_profile_list_sql().as_str(),
            binds::binds4(
                Bind::Id(provider_id),
                Bind::OptInt(before_version),
                Bind::OptInt(before_version),
                Bind::Int(limit as i64),
            ),
            FEE_COLUMNS,
            "failed to list fee profiles",
        )?;
        let items = map_rows(s, &found.rows)?;
        if let Some(cause) = &found.failure {
            return Err(script::fail_because("failed to read fee profile list", cause.as_str()));
        }
        Ok(items)
    }
}

/// What a receipt comes to, where it was stored or rejected before.
pub open spec fn classify_receipt_replay_spec(
    st: RunView,
    receipt: ProviderFeeMaterializationReceipt,
) -> (Result<Option<ProviderFeeReceiptPersistenceOutcome>, HaltView>, RunView) {
    match script::first_row_spec(
        st,
        RECEIPT_REPLAY_SQL@,
        seq![
            Bind::Id(receipt.receipt_event_id),
            Bind::Id(receipt.operation_id),
            Bind::Int(receipt.materialized_version),
        ],
        "rrrrit",
        "failed to check fee receipt"@,
        "failed to read fee receipt"@,
    ) { (Err(h), st) => (Err(h), st), (Ok(found), st) =>
    if let Some(row) = found {
        match row.raw_at(0, READ_ROW@) { Err(h) => (Err(h), st), Ok(event_raw) =>
        match script::id_of(event_raw@) { Err(h) => (Err(h), st), Ok(stored_event) =>
        if stored_event != receipt.receipt_event_id {
            (Ok(Some(ProviderFeeReceiptPersistenceOutcome::Mismatch)), st)
        } else {
        match row.raw_at(1, READ_ROW@) { Err(h) => (Err(h), st), Ok(operation_raw) =>
        match script::id_of(operation_raw@) { Err(h) => (Err(h), st), Ok(stored_operation) =>
        if stored_operation != receipt.operation_id {
            (Ok(Some(ProviderFeeReceiptPersistenceOutcome::Mismatch)), st)
        } else {
        match row.raw_at(2, READ_ROW@) { Err(h) => (Err(h), st), Ok(provider_raw) =>
        match script::id_of(provider_raw@) { Err(h) => (Err(h), st), Ok(stored_provider) =>
        if stored_provider != receipt.provider_id {
            (Ok(Some(ProviderFeeReceiptPersistenceOutcome::Mismatch)), st)
        } else {
        match row.raw_at(3, READ_ROW@) { Err(h) => (Err(h), st), Ok(profile_raw) =>
        match script::id_of(profile_raw@) { Err(h) => (Err(h), st), Ok(stored_profile) =>
        if stored_profile != receipt.provider_fee_profile_id {
            (Ok(Some(ProviderFeeReceiptPersistenceOutcome::Mismatch)), st)
        } else {
        match row.int_at(4, READ_ROW@) { Err(h) => (Err(h), st), Ok(version) =>
        if version != receipt.materialized_version {
            (Ok(Some(ProviderFeeReceiptPersistenceOutcome::Mismatch)), st)
        } else {
        match row.text_at(5, READ_ROW@) { Err(h) => (Err(h), st), Ok(key) =>
        if key@ == receipt.runtime_key@ {
            (Ok(Some(ProviderFeeReceiptPersistenceOutcome::Replayed)), st)
        } else {
        (Ok(Some(ProviderFeeReceiptPersistenceOutcome::Mismatch)), st)
        }}}}}}}}}}}}}}}}
    } else {
    match script::one_int_spec(
        st,
        REJECTED_SQL@,
        seq![Bind::Id(receipt.receipt_event_id)],
        "failed to check rejected fee receipt"@,
    ) { (Err(h), st) => (Err(h), st), (Ok(rejected), st) =>
    if rejected > 0 {
        (Ok(Some(ProviderFeeReceiptPersistenceOutcome::Mismatch)), st)
    } else {
    (Ok(None), st)
    }}}}
}

/// What a receipt comes to, where it was stored or rejected before.
pub fn classify_receipt_replay(
    s: &mut Session,
    receipt: &ProviderFeeMaterializationReceipt,
) -> (r: Result<Option<ProviderFeeReceiptPersistenceOutcome>, Halt>)
    ensures
        (script::seen(r), final(s)@) == classify_receipt_replay_spec(old(s)@, *receipt),
{
    let found = script::first_row(
        s,
        RECEIPT_REPLAY_SQL,
        binds::binds3(
            Bind::Id(receipt.receipt_event_id),
            Bind::Id(receipt.operation_id),
            Bind::Int(receipt.materialized_version),
        ),
        "rrrrit",
        "failed to check fee receipt",
        "failed to read fee receipt",
    )?;
    if let Some(row) = found {
        let event_raw = row.raw(0, READ_ROW)?;
        let stored_event = script::to_id(event_raw)?;
        if stored_event != receipt.receipt_event_id {
            return Ok(Some(ProviderFeeReceiptPersistenceOutcome::Mismatch));
        }
        let operation_raw = row.raw(1, READ_ROW)?;
        let stored_operation = script::to_id(operation_raw)?;
        if stored_operation != receipt.operation_id {
            return Ok(Some(ProviderFeeReceiptPersistenceOutcome::Mismatch));
        }
        let provider_raw = row.raw(2, READ_ROW)?;
        let stored_provider = script::to_id(provider_raw)?;
        if stored_provider != receipt.provider_id {
            return Ok(Some(ProviderFeeReceiptPersistenceOutcome::Mismatch));
        }
        let profile_raw = row.raw(3, READ_ROW)?;
        let stored_profile = script::to_id(profile_raw)?;
        if stored_profile != receipt.provider_fee_profile_id {
            return Ok(Some(ProviderFeeReceiptPersistenceOutcome::Mismatch));
        }
        let version: i64 = row.number(4, READ_ROW)?;
        if version != receipt.materialized_version {
            return Ok(Some(ProviderFeeReceiptPersistenceOutcome::Mismatch));
        }
        let key = row.text(5, READ_ROW)?;
        if text::same_text(key.as_str(), receipt.runtime_key.as_str()) {
            return Ok(Some(ProviderFeeReceiptPersistenceOutcome::Replayed));
        }
        return Ok(Some(ProviderFeeReceiptPersistenceOutcome::Mismatch));
    }
    let rejected = script::one_int(
        s,
        REJECTED_SQL,
        binds::binds1(Bind::Id(receipt.receipt_event_id)),
        "failed to check rejected fee receipt",
    )?;
    if rejected > 0 {
        return Ok(Some(ProviderFeeReceiptPersistenceOutcome::Mismatch));
    }
    Ok(None)
}

/// Stores the arrival of a receipt.
pub open spec fn insert_inbox_spec(
    st: RunView,
    receipt: ProviderFeeMaterializationReceipt,
) -> (Result<(), HaltView>, RunView) {
    match script::encode_spec(
        st,
        Rule::FeeReceipt(receipt),
        "failed to serialize fee receipt"@,
    ) { (Err(h), st) => (Err(h), st), (Ok(payload), st) =>
    match script::fresh_id_spec(st) { (Err(h), st) => (Err(h), st), (Ok(inbox_id), st) =>
    match script::execute_spec(
        st,
        INBOX_INSERT_SQL@,
        seq![
            Bind::Id(inbox_id),
            Bind::Id(receipt.receipt_event_id),
            Bind::Id(receipt.provider_id),
            Bind::Text(payload),
        ],
        "failed to insert fee inbox"@,
    ) { (Err(h), st) => (Err(h), st), (Ok(_), st) =>
    (Ok(()), st)
    }}}
}

/// Stores the arrival of a receipt.
pub fn insert_inbox(
    s: &mut Session,
    receipt: &ProviderFeeMaterializationReceipt,
) -> (r: Result<(), Halt>)
    ensures
        (script::seen(r), final(s)@) == insert_inbox_spec(old(s)@, *receipt),
{
    let payload = script::encode(
        s,
        Rule::FeeReceipt(receipt.clone()),
        "failed to serialize fee receipt",
    )?;
    let inbox_id = script::fresh_id(s)?;
    script::execute(
        s,
        INBOX_INSERT_SQL,
        binds::binds4(
            Bind::Id(inbox_id),
            Bind::Id(receipt.receipt_event_id),
            Bind::Id(receipt.provider_id),
            Bind::Text(payload.clone()),
        ),
        "failed to insert fee inbox",
    )?;
    Ok(())
}

/// Marks a receipt as rejected.
pub open spec fn fail_inbox_spec(
    st: RunView,
    receipt: ProviderFeeMaterializationReceipt,
) -> (Result<(), HaltView>, RunView) {
    match script::execute_spec(
        st,
        INBOX_FAILED_SQL@,
        seq![
            Bind::Json(Document::FeeMismatch(
                receipt.operation_id,
                receipt.provider_fee_profile_id,
            )),
            Bind::Id(receipt.receipt_event_id),
        ],
        "failed to reject fee receipt"@,
    ) { (Err(h), st) => (Err(h), st), (Ok(_), st) =>
    (Ok(()), st)
    }
}

/// Marks a receipt as rejected.
pub fn fail_inbox(
    s: &mut Session,
    receipt: &ProviderFeeMaterializationReceipt,
) -> (r: Result<(), Halt>)
    ensures
        (script::seen(r), final(s)@) == fail_inbox_spec(old(s)@, *receipt),
{
    script::execute(
        s,
        INBOX_FAILED_SQL,
        binds::binds2(
            Bind::Json(Document::FeeMismatch(
                receipt.operation_id,
                receipt.provider_fee_profile_id,
            )),
            Bind::Id(receipt.receipt_event_id),
        ),
        "failed to reject fee receipt",
    )?;
    Ok(())
}

/// Marks a receipt as processed.
pub open spec fn complete_inbox_spec(
    st: RunView,
    event_id: Uuid,
) -> (Result<(), HaltView>, RunView) {
    match script::execute_spec(
        st,
        INBOX_PROCESSED_SQL@,
        seq![Bind::Id(event_id)],
        "failed to complete fee inbox"@,
    ) { (Err(h), st) => (Err(h), st), (Ok(_), st) =>
    (Ok(()), st)
    }
}

/// Marks a receipt as processed.
pub fn complete_inbox(s: &mut Session, event_id: Uuid) -> (r: Result<(), Halt>)
    ensures
        (script::seen(r), final(s)@) == complete_inbox_spec(old(s)@, event_id),
{
    script::execute(
        s,
        INBOX_PROCESSED_SQL,
        binds::binds1(Bind::Id(event_id)),
        "failed to complete fee inbox",
    )?;
    Ok(())
}

/// Stores a receipt.
pub open spec fn insert_runtime_receipt_spec(
    st: RunView,
    receipt: ProviderFeeMaterializationReceipt,
) -> (Result<(), HaltView>, RunView) {
    match script::fresh_id_spec(st) { (Err(h), st) => (Err(h), st), (Ok(receipt_id), st) =>
    match script::execute_spec(
        st,
        RECEIPT_INSERT_SQL@,
        seq![
            Bind::Id(receipt_id),
            Bind::Id(receipt.receipt_event_id),
            Bind::Id(receipt.operation_id),
            Bind::Id(receipt.provider_id),
            Bind::Id(receipt.provider_fee_profile_id),
            Bind::Int(receipt.materialized_version),
            Bind::Text(receipt.runtime_key),
            Bind::Time(receipt.materialized_at),
        ],
        "failed to persist fee receipt"@,
    ) { (Err(h), st) => (Err(h), st), (Ok(_), st) =>
    (Ok(()), st)
    }}
}

/// Stores a receipt.
pub fn insert_runtime_receipt(
    s: &mut Session,
    receipt: &ProviderFeeMaterializationReceipt,
) -> (r: Result<(), Halt>)
    ensures
        (script::seen(r), final(s)@) == insert_runtime_receipt_spec(old(s)@, *receipt),
{
    let receipt_id = script::fresh_id(s)?;
    script::execute(
        s,
        RECEIPT_INSERT_SQL,
        binds::binds8(
            Bind::Id(receipt_id),
            Bind::Id(receipt.receipt_event_id),
            Bind::Id(receipt.operation_id),
            Bind::Id(receipt.provider_id),
            Bind::Id(receipt.provider_fee_profile_id),
            Bind::Int(receipt.materialized_version),
            Bind::Text(receipt.runtime_key.clone()),
            Bind::Time(receipt.materialized_at),
        ),
        "failed to persist fee receipt",
    )?;
    Ok(())
}

/// A receipt is for the draft that its operation publishes.
pub open spec fn receipt_is_for(
    pending: Option<ProviderFeeProfile>,
    receipt: ProviderFeeMaterializationReceipt,
) -> bool {
    match pending {
        Some(profile) => profile.provider_id == receipt.provider_id
            && profile.provider_fee_profile_id == receipt.provider_fee_profile_id
            && profile.version == receipt.materialized_version && receipt.runtime_key@ == "FEE:"@
            + uuid::hyphenated_text(receipt.provider_id),
        None => false,
    }
}

fn receipt_matches(
    pending: &Option<ProviderFeeProfile>,
    receipt: &ProviderFeeMaterializationReceipt,
) -> (r: bool)
    ensures
        r == receipt_is_for(*pending, *receipt),
{
    match pending {
        Some(profile) => {
            let key = text::joined2("FEE:", receipt.provider_id.to_text().as_str());
            profile.provider_id == receipt.provider_id && profile.provider_fee_profile_id
                == receipt.provider_fee_profile_id && profile.version
                == receipt.materialized_version && text::same_text(
                receipt.runtime_key.as_str(),
                key.as_str(),
            )
        },
        None => false,
    }
}

/// Switches a provider to the draft that a receipt is for.
pub open spec fn activate_fees_spec(
    st: RunView,
    pending: ProviderFeeProfile,
    receipt: ProviderFeeMaterializationReceipt,
) -> (Result<ProviderFeeReceiptPersistenceOutcome, HaltView>, RunView) {
    match fetch_fee_profile_by_status_spec(
        st,
        receipt.provider_id,
        ProviderFeeProfileStatus::Active,
    ) { (Err(h), st) => (Err(h), st), (Ok(previous), st) =>
    match insert_runtime_receipt_spec(st, receipt) { (Err(h), st) => (Err(h), st), (Ok(_), st) =>
    match script::execute_spec(
        st,
        SUPERSEDE_SQL@,
        seq![Bind::Id(receipt.provider_fee_profile_id), Bind::Id(receipt.provider_id)],
        "failed to supersede fee profile"@,
    ) { (Err(h), st) => (Err(h), st), (Ok(_), st) =>
    match script::execute_count_spec(
        st,
        ACTIVATE_SQL@,
        seq![Bind::Id(receipt.provider_fee_profile_id), Bind::Id(receipt.operation_id)],
        "failed to activate fee profile"@,
        "failed to read fee activation count"@,
    ) { (Err(h), st) => (Err(h), st), (Ok(touched), st) =>
    if touched != 1 {
        (script::query_fault("pending fee profile changed before activation"@), st)
    } else {
    match complete_inbox_spec(
        st,
        receipt.receipt_event_id,
    ) { (Err(h), st) => (Err(h), st), (Ok(_), st) =>
    match fetch_fee_profile_spec(
        st,
        receipt.provider_fee_profile_id,
    ) { (Err(h), st) => (Err(h), st), (Ok(active), st) =>
    match script::consult_text_spec(
        st,
        Rule::FeeSnapshot(pending),
    ) { (Err(h), st) => (Err(h), st), (Ok(old_snapshot), st) =>
    match script::consult_text_spec(
        st,
        Rule::FeeSnapshot(active),
    ) { (Err(h), st) => (Err(h), st), (Ok(active_snapshot), st) =>
    { let evidence = Document::FeeActivation(
        active_snapshot,
        identity_of(previous),
        receipt.receipt_event_id,
    );
    match audit::insert_audit_log_spec(
        st,
        "PROVIDER_FEE_PROFILE",
        active.provider_fee_profile_id,
        AuditAction::StateTransition,
        Bind::Label("Wolfsburg confirmed FEE materialization"),
        Some(Snapshot::Text(old_snapshot)),
        Some(Snapshot::Document(evidence)),
        audit::materializer_origin_spec(receipt.operation_id, receipt.receipt_event_id),
    ) { (Err(h), st) => (Err(h), st), (Ok(_), st) =>
    (Ok(ProviderFeeReceiptPersistenceOutcome::Activated(Box::new(active))), st)
    }}}}}}}}}}}
}

/// Switches a provider to the draft that a receipt is for.
pub fn activate_fees(
    s: &mut Session,
    pending: &ProviderFeeProfile,
    receipt: &ProviderFeeMaterializationReceipt,
) -> (r: Result<ProviderFeeReceiptPersistenceOutcome, Halt>)
    ensures
        (script::seen(r), final(s)@) == activate_fees_spec(old(s)@, *pending, *receipt),
{
    let previous = fetch_fee_profile_by_status(
        s,
        receipt.provider_id,
        ProviderFeeProfileStatus::Active,
    )?;
    insert_runtime_receipt(s, receipt)?;
    script::execute(
        s,
        SUPERSEDE_SQL,
        binds::binds2(Bind::Id(receipt.provider_fee_profile_id), Bind::Id(receipt.provider_id)),
        "failed to supersede fee profile",
    )?;
    let touched = script::execute_count(
        s,
        ACTIVATE_SQL,
        binds::binds2(Bind::Id(receipt.provider_fee_profile_id), Bind::Id(receipt.operation_id)),
        "failed to activate fee profile",
        "failed to read fee activation count",
    )?;
    if touched != 1 {
        return Err(script::fail_query("pending fee profile changed before activation"));
    }
    complete_inbox(s, receipt.receipt_event_id)?;
    let active = fetch_fee_profile(s, receipt.provider_fee_profile_id)?;
    let old_snapshot = script::consult_text(s, Rule::FeeSnapshot(pending.clone()))?;
    let active_snapshot = script::consult_text(s, Rule::FeeSnapshot(active.clone()))?;
    let evidence = Document::FeeActivation(
        active_snapshot.clone(),
        identity(&previous),
        receipt.receipt_event_id,
    );
    audit::insert_audit_log(
        s,
        "PROVIDER_FEE_PROFILE",
        active.provider_fee_profile_id,
        AuditAction::StateTransition,
        Bind::Label("Wolfsburg confirmed FEE materialization"),
        Some(Snapshot::Text(old_snapshot)),
        Some(Snapshot::Document(evidence)),
        audit::materializer_origin(receipt.operation_id, receipt.receipt_event_id),
    )?;
    Ok(ProviderFeeReceiptPersistenceOutcome::Activated(Box::new(active)))
}

/// Stores a receipt and switches the provider to the fee profile that it is for. A receipt that is
/// for nothing pending is kept as rejected, and no fee profile changes.
pub open spec fn apply_provider_fee_materialization_receipt_spec(
    st: RunView,
    receipt: ProviderFeeMaterializationReceipt,
) -> (Result<ProviderFeeReceiptPersistenceOutcome, HaltView>, RunView) {
    match classify_receipt_replay_spec(
        st,
        receipt,
    ) { (Err(h), st) => (Err(h), st), (Ok(known), st) =>
    if let Some(outcome) = known {
        (Ok(outcome), st)
    } else {
    match insert_inbox_spec(st, receipt) { (Err(h), st) => (Err(h), st), (Ok(_), st) =>
    match fetch_by_operation_for_update_spec(
        st,
        receipt.operation_id,
    ) { (Err(h), st) => (Err(h), st), (Ok(pending), st) =>
    if !receipt_is_for(pending, receipt) {
        match fail_inbox_spec(st, receipt) { (Err(h), st) => (Err(h), st), (Ok(_), st) =>
        (Ok(ProviderFeeReceiptPersistenceOutcome::Mismatch), st)
        }
    } else {
    match pending {
    None => {
        (Ok(ProviderFeeReceiptPersistenceOutcome::Mismatch), st)
    },
    Some(profile) =>
    activate_fees_spec(st, profile, receipt)
    }}}}}}
}

impl OracleRepository {
    /// Stores a receipt and switches the provider to the fee profile that it is for. A receipt that
    /// is for nothing pending is kept as rejected, and no fee profile changes.
    pub fn apply_provider_fee_materialization_receipt(
        s: &mut Session,
        receipt: &ProviderFeeMaterializationReceipt,
    ) -> (r: Result<ProviderFeeReceiptPersistenceOutcome, Halt>)
        ensures
            (script::seen(r), final(s)@) == apply_provider_fee_materialization_receipt_spec(
                old(s)@,
                *receipt,
            ),
    {
        let known = classify_receipt_replay(s, receipt)?;
        if let Some(outcome) = known {
            return Ok(outcome);
        }
        insert_inbox(s, receipt)?;
        let pending = fetch_by_operation_for_update(s, receipt.operation_id)?;
        if !receipt_matches(&pending, receipt) {
            fail_inbox(s, receipt)?;
            return Ok(ProviderFeeReceiptPersistenceOutcome::Mismatch);
        }
        let profile = match &pending {
            Some(v) => v,
            None => {
                return Ok(ProviderFeeReceiptPersistenceOutcome::Mismatch);
            },
        };
        activate_fees(s, profile, receipt)
    }
}

/// Publishes the draft of a provider that is to be assigned to a range.
pub open spec fn publish_draft_spec(
    st: RunView,
    context: MutationCommandContext,
    provider_id: Uuid,
    draft: ProviderFeeProfile,
    reason: String,
) -> (Result<FeeProfileAttachmentPreparation, HaltView>, RunView) {
    if draft.publication_operation_id is Some {
        (Ok(FeeProfileAttachmentPreparation::PublicationPending), st)
    } else {
    match script::fresh_id_spec(st) { (Err(h), st) => (Err(h), st), (Ok(operation_id), st) =>
    match insert_fee_profile_outbox_spec(
        st,
        operation_id,
        provider_id,
        draft.provider_fee_profile_id,
        draft.version,
        draft.fee_policy,
        context.headers(),
    ) { (Err(h), st) => (Err(h), st), (Ok(_), st) =>
    match script::execute_count_spec(
        st,
        FREEZE_DRAFT_SQL@,
        seq![
            Bind::Id(operation_id),
            Bind::Text(context.actor.subject),
            Bind::Text(reason),
            Bind::Id(draft.provider_fee_profile_id),
        ],
        "failed to freeze fee publication"@,
        "failed to read fee freeze count"@,
    ) { (Err(h), st) => (Err(h), st), (Ok(touched), st) =>
    if touched != 1 {
        (Ok(FeeProfileAttachmentPreparation::PublicationPending), st)
    } else {
    match fetch_fee_profile_spec(
        st,
        draft.provider_fee_profile_id,
    ) { (Err(h), st) => (Err(h), st), (Ok(published), st) =>
    match script::consult_text_spec(
        st,
        Rule::FeeSnapshot(draft),
    ) { (Err(h), st) => (Err(h), st), (Ok(old_snapshot), st) =>
    match script::consult_text_spec(
        st,
        Rule::FeeSnapshot(published),
    ) { (Err(h), st) => (Err(h), st), (Ok(new_snapshot), st) =>
    match audit::insert_audit_log_spec(
        st,
        "PROVIDER_FEE_PROFILE",
        draft.provider_fee_profile_id,
        AuditAction::Update,
        Bind::Text(reason),
        Some(Snapshot::Text(old_snapshot)),
        Some(Snapshot::Text(new_snapshot)),
        audit::trusted_origin_spec(context.audit),
    ) { (Err(h), st) => (Err(h), st), (Ok(_), st) =>
    (Ok(FeeProfileAttachmentPreparation::Ready { operation_id: Some(operation_id) }), st)
    }}}}}}}}}
}

/// Publishes the draft of a provider that is to be assigned to a range.
pub fn publish_draft(
    s: &mut Session,
    context: &MutationCommandContext,
    provider_id: Uuid,
    draft: &ProviderFeeProfile,
    reason: &String,
) -> (r: Result<FeeProfileAttachmentPreparation, Halt>)
    ensures
        (script::seen(r), final(s)@) == publish_draft_spec(
            old(s)@,
            *context,
            provider_id,
            *draft,
            *reason,
        ),
{
    if draft.publication_operation_id.is_some() {
        return Ok(FeeProfileAttachmentPreparation::PublicationPending);
    }
    let operation_id = script::fresh_id(s)?;
    insert_fee_profile_outbox(
        s,
        operation_id,
        provider_id,
        draft.provider_fee_profile_id,
        draft.version,
        &draft.fee_policy,
        &context.event_headers(),
    )?;
    let touched = script::execute_count(
        s,
        FREEZE_DRAFT_SQL,
        binds::binds4(
            Bind::Id(operation_id),
            Bind::Text(context.actor.subject.clone()),
            Bind::Text(reason.clone()),
            Bind::Id(draft.provider_fee_profile_id),
        ),
        "failed to freeze fee publication",
        "failed to read fee freeze count",
    )?;
    if touched != 1 {
        return Ok(FeeProfileAttachmentPreparation::PublicationPending);
    }
    let published = fetch_fee_profile(s, draft.provider_fee_profile_id)?;
    let old_snapshot = script::consult_text(s, Rule::FeeSnapshot(draft.clone()))?;
    let new_snapshot = script::consult_text(s, Rule::FeeSnapshot(published.clone()))?;
    audit::insert_audit_log(
        s,
        "PROVIDER_FEE_PROFILE",
        draft.provider_fee_profile_id,
        AuditAction::Update,
        Bind::Text(reason.clone()),
        Some(Snapshot::Text(old_snapshot)),
        Some(Snapshot::Text(new_snapshot)),
        audit::trusted_origin(&context.audit),
    )?;
    Ok(FeeProfileAttachmentPreparation::Ready { operation_id: Some(operation_id) })
}

/// Whether the fees of a provider allow it to be assigned to a range. A draft is published first.
#[verifier::opaque]
pub open spec fn prepare_fee_profile_for_attachment_spec(
    st: RunView,
    context: MutationCommandContext,
    provider_id: Uuid,
    reason: String,
) -> (Result<FeeProfileAttachmentPreparation, HaltView>, RunView) {
    match fetch_fee_profile_by_status_spec(
        st,
        provider_id,
        ProviderFeeProfileStatus::Draft,
    ) { (Err(h), st) => (Err(h), st), (Ok(draft), st) =>
    if let Some(existing) = draft {
        publish_draft_spec(st, context, provider_id, existing, reason)
    } else {
    match fetch_fee_profile_by_status_spec(
        st,
        provider_id,
        ProviderFeeProfileStatus::Active,
    ) { (Err(h), st) => (Err(h), st), (Ok(active), st) =>
    if active is Some {
        (Ok(FeeProfileAttachmentPreparation::Ready { operation_id: None }), st)
    } else {
    (Ok(FeeProfileAttachmentPreparation::Missing), st)
    }}}}
}

/// Whether the fees of a provider allow it to be assigned to a range. A draft is published first.
pub fn prepare_fee_profile_for_attachment(
    s: &mut Session,
    context: &MutationCommandContext,
    provider_id: Uuid,
    reason: &String,
) -> (r: Result<FeeProfileAttachmentPreparation, Halt>)
    ensures
        (script::seen(r), final(s)@) == prepare_fee_profile_for_attachment_spec(
            old(s)@,
            *context,
            provider_id,
            *reason,
        ),
{
    proof {
        reveal(prepare_fee_profile_for_attachment_spec);
    }
    let draft = fetch_fee_profile_by_status(s, provider_id, ProviderFeeProfileStatus::Draft)?;
    if let Some(existing) = &draft {
        return publish_draft(s, context, provider_id, existing, reason);
    }
    let active = fetch_fee_profile_by_status(s, provider_id, ProviderFeeProfileStatus::Active)?;
    if active.is_some() {
        return Ok(FeeProfileAttachmentPreparation::Ready { operation_id: None });
    }
    Ok(FeeProfileAttachmentPreparation::Missing)
}

/// Under one idempotency key a fee profile is asked for once: where a record is stored, the command
/// is answered from it, and looking it up is all that is done.
pub proof fn fee_command_is_done_once(
    st: RunView,
    context: MutationCommandContext,
    provider_id: Uuid,
    desired: DesiredProviderFeeProfile,
    record: IdempotencyRecord,
)
    requires
        idempotency::fetch_idempotency_record_spec(
            st,
            context.operation_type,
            context.idempotency_key,
        ).0 == Ok::<Option<IdempotencyRecord>, HaltView>(Some(record)),
    ensures
        set_provider_fee_profile_atomic_spec(st, context, provider_id, desired) == (
            Ok::<_, HaltView>(
                fee_verdict(idempotency::idempotency_verdict(record, context.request_hash)),
            ),
            idempotency::fetch_idempotency_record_spec(
                st,
                context.operation_type,
                context.idempotency_key,
            ).1,
        ),
        script::writes(
            set_provider_fee_profile_atomic_spec(st, context, provider_id, desired).1.log,
        ) == script::writes(st.log),
{
    broadcast use script::writes_with_another;

}

/// What is carried out of a fee profile stores audit evidence and completes the command's record
/// last.
#[verifier::rlimit(60)]
pub broadcast proof fn apply_fees_leaves_evidence(
    st: RunView,
    context: MutationCommandContext,
    provider_id: Uuid,
    desired: DesiredProviderFeeProfile,
    draft: Option<ProviderFeeProfile>,
)
    ensures
        (
            #[trigger] apply_fees_spec(st, context, provider_id, desired, draft)
        ).0 matches Ok(outcome) ==> {
            let log = apply_fees_spec(st, context, provider_id, desired, draft).1.log;
            &&& outcome is Applied
            &&& script::runs(log, audit::AUDIT_INSERT_SQL@) > 0
            &&& script::is_run_of(log.last(), idempotency::IDEMPOTENCY_COMPLETE_SQL@)
        },
{
    broadcast use script::runs_with_another;

    reveal(apply_fees_spec);
}

/// Where a fee profile is refused, or answered from a record, nothing is changed.
#[verifier::rlimit(40)]
pub proof fn refused_fee_command_changes_nothing(
    st: RunView,
    context: MutationCommandContext,
    provider_id: Uuid,
    desired: DesiredProviderFeeProfile,
)
    ensures
        ({
            let (result, after) = set_provider_fee_profile_atomic_spec(
                st,
                context,
                provider_id,
                desired,
            );
            result matches Ok(outcome) ==> outcome is Applied || script::writes(after.log)
                == script::writes(st.log)
        }),
{
    broadcast use {
        script::writes_with_another,
        map_row_changes_nothing,
        apply_fees_leaves_evidence,
    };

}

/// Where a fee profile is carried out in a run of its own, audit evidence is stored within it, and
/// the command's record is completed last.
#[verifier::rlimit(40)]
pub proof fn fee_command_leaves_evidence(
    st: RunView,
    context: MutationCommandContext,
    provider_id: Uuid,
    desired: DesiredProviderFeeProfile,
)
    requires
        st.log.len() == 0,
    ensures
        ({
            let (result, after) = set_provider_fee_profile_atomic_spec(
                st,
                context,
                provider_id,
                desired,
            );
            result matches Ok(outcome) ==> outcome is Applied ==> script::runs(
                after.log,
                audit::AUDIT_INSERT_SQL@,
            ) > 0 && script::is_run_of(after.log.last(), idempotency::IDEMPOTENCY_COMPLETE_SQL@)
        }),
{
    broadcast use apply_fees_leaves_evidence;

}

/// A command that is recorded is answered by its record: under another request it conflicts; under
/// the same one it gets the answer that is stored, or is told that it is under way, or that the
/// record is not in order.
pub proof fn fee_verdict_goes_by_the_record(
    record: crate::domain::idempotency::IdempotencyRecord,
    request_hash: String,
)
    ensures
        ({
            let answered = fee_verdict(idempotency::idempotency_verdict(record, request_hash));
            let same = record.request_hash@ == request_hash@;
            &&& answered is IdempotencyConflict <==> !same
            &&& answered is IdempotencyInProgress <==> same && record.status is InProgress
            &&& answered matches SetProviderFeeProfilePersistenceOutcome::Replayed(
                answer,
            ) ==> record.response_snapshot == Some(answer)
            &&& answered is Replayed <==> same && record.status is Completed
                && record.response_snapshot is Some
            &&& answered is IdempotencyInvalidState <==> same && !(record.status is InProgress)
                && !(
            record.status is Completed && record.response_snapshot is Some)
        }),
{
}

/// Where a provider has no fee profile to be charged by, nothing is changed. Nor is it where the
/// profile's publication is pending, unless that showed only when the draft was to be frozen.
pub proof fn missing_fees_change_nothing(
    st: RunView,
    context: MutationCommandContext,
    provider_id: Uuid,
    reason: String,
)
    ensures
        ({
            let (result, after) = prepare_fee_profile_for_attachment_spec(
                st,
                context,
                provider_id,
                reason,
            );
            result matches Ok(fees) ==> {
                &&& fees is Missing ==> script::writes(after.log) == script::writes(st.log)
                &&& fees is PublicationPending ==> script::writes(after.log) == script::writes(
                    st.log,
                ) || script::is_run_of(after.log.last(), FREEZE_DRAFT_SQL@)
            }
        }),
{
    broadcast use {script::writes_with_another, map_row_changes_nothing};

    reveal(prepare_fee_profile_for_attachment_spec);
}

/// A receipt that was stored before changes nothing. One that is for nothing pending is kept as
/// rejected evidence: beside the inbox nothing is changed, so each fee profile stays as it is.
pub proof fn rejected_receipt_is_only_evidence(
    st: RunView,
    receipt: ProviderFeeMaterializationReceipt,
)
    ensures
        ({
            let (result, after) = apply_provider_fee_materialization_receipt_spec(st, receipt);
            let inbox = set![INBOX_INSERT_SQL@, INBOX_FAILED_SQL@];
            &&& result matches Ok(outcome) ==> outcome is Replayed ==> script::writes(after.log)
                == script::writes(st.log)
            &&& result matches Ok(outcome) ==> outcome is Mismatch ==> script::writes_beside(
                after.log,
                inbox,
            ) == script::writes_beside(st.log, inbox)
        }),
{
    broadcast use {
        script::writes_with_another,
        script::writes_beside_with_another,
        map_row_changes_nothing,
    };

}


/// The values that a receipt is stored with.
pub open spec fn receipt_values(
    receipt_id: Uuid,
    receipt: ProviderFeeMaterializationReceipt,
) -> Seq<Bind> {
    seq![
        Bind::Id(receipt_id),
        Bind::Id(receipt.receipt_event_id),
        Bind::Id(receipt.operation_id),
        Bind::Id(receipt.provider_id),
        Bind::Id(receipt.provider_fee_profile_id),
        Bind::Int(receipt.materialized_version),
        Bind::Text(receipt.runtime_key),
        Bind::Time(receipt.materialized_at),
    ]
}

/// A row under which receipts are looked up gives back a receipt as it was stored.
pub open spec fn is_stored_receipt(row: Row, stored: Seq<Bind>) -> bool {
    &&& row.cells@.len() == 6
    &&& forall|i: int|
        0 <= i < 6 ==> crate::db::oracle::values::gives_back(
            #[trigger] row.cells@[i],
            stored[i + 1],
        )
}

/// A receipt whose own row is found is answered as replayed, and nothing is changed.
pub proof fn stored_receipt_is_replayed(
    st: RunView,
    receipt: ProviderFeeMaterializationReceipt,
    receipt_id: Uuid,
    found: script::Rows,
)
    requires
        st.rest.len() > 0,
        st.rest[0] == script::Reply::Rows(found),
        found.rows@.len() > 0,
        is_stored_receipt(found.rows@[0], receipt_values(receipt_id, receipt)),
    ensures
        ({
            let (result, after) = apply_provider_fee_materialization_receipt_spec(st, receipt);
            &&& result == Ok::<ProviderFeeReceiptPersistenceOutcome, HaltView>(
                ProviderFeeReceiptPersistenceOutcome::Replayed,
            )
            &&& script::writes(after.log) == script::writes(st.log)
        }),
{
    broadcast use script::writes_with_another;

    let row = found.rows@[0];
    crate::db::oracle::types::raw16_round_trip(receipt.receipt_event_id, row.cells@[0]->Raw_0@);
    crate::db::oracle::types::raw16_round_trip(receipt.operation_id, row.cells@[1]->Raw_0@);
    crate::db::oracle::types::raw16_round_trip(receipt.provider_id, row.cells@[2]->Raw_0@);
    crate::db::oracle::types::raw16_round_trip(
        receipt.provider_fee_profile_id,
        row.cells@[3]->Raw_0@,
    );
    assert(crate::db::oracle::values::gives_back(
        row.cells@[0],
        receipt_values(receipt_id, receipt)[1],
    ));
    assert(crate::db::oracle::values::gives_back(
        row.cells@[1],
        receipt_values(receipt_id, receipt)[2],
    ));
    assert(crate::db::oracle::values::gives_back(
        row.cells@[2],
        receipt_values(receipt_id, receipt)[3],
    ));
    assert(crate::db::oracle::values::gives_back(
        row.cells@[3],
        receipt_values(receipt_id, receipt)[4],
    ));
    assert(crate::db::oracle::values::gives_back(
        row.cells@[4],
        receipt_values(receipt_id, receipt)[5],
    ));
    assert(crate::db::oracle::values::gives_back(
        row.cells@[5],
        receipt_values(receipt_id, receipt)[6],
    ));
}

/// What is carried out of a fee profile stores the event that publishes it, where an operation does
/// so.
#[verifier::rlimit(60)]
pub broadcast proof fn apply_fees_publishes(
    st: RunView,
    context: MutationCommandContext,
    provider_id: Uuid,
    desired: DesiredProviderFeeProfile,
    draft: Option<ProviderFeeProfile>,
)
    ensures
        (
            #[trigger] apply_fees_spec(st, context, provider_id, desired, draft)
        ).0 matches Ok(outcome) ==> {
            let log = apply_fees_spec(st, context, provider_id, desired, draft).1.log;
            (
                outcome matches SetProviderFeeProfilePersistenceOutcome::Applied(applied) ==> (
                    applied.operation_id matches Some(id) ==> script::stored_under(
                        log,
                        FEE_OUTBOX_SQL@,
                        id,
                    ) > 0
                )
            )
        },
{
    broadcast use {
        script::runs_with_another,
        script::stored_under_with_another,
        map_row_changes_nothing,
    };

    reveal(apply_fees_spec);
}

/// Where a fee profile is set and an operation publishes it, the event is stored under that
/// operation.
#[verifier::rlimit(40)]
pub proof fn applied_fees_are_published(
    st: RunView,
    context: MutationCommandContext,
    provider_id: Uuid,
    desired: DesiredProviderFeeProfile,
)
    ensures
        ({
            let (result, after) = set_provider_fee_profile_atomic_spec(
                st,
                context,
                provider_id,
                desired,
            );
            let log = after.log;
            result matches Ok(outcome) ==> (
                outcome matches SetProviderFeeProfilePersistenceOutcome::Applied(applied) ==> (
                    applied.operation_id matches Some(id) ==> script::stored_under(
                        log,
                        FEE_OUTBOX_SQL@,
                        id,
                    ) > 0
                )
            )
        }),
{
    broadcast use apply_fees_publishes;

}

/// Where a draft of fees is frozen under an operation, the event that publishes it is stored under
/// that operation.
#[verifier::rlimit(60)]
pub broadcast proof fn prepare_fee_profile_for_attachment_publishes(
    st: RunView,
    context: MutationCommandContext,
    provider_id: Uuid,
    reason: String,
)
    ensures
        (
            #[trigger] prepare_fee_profile_for_attachment_spec(st, context, provider_id, reason)
        ).0 matches Ok(outcome) ==> {
            let log = prepare_fee_profile_for_attachment_spec(
                st,
                context,
                provider_id,
                reason,
            ).1.log;
            (
                outcome matches FeeProfileAttachmentPreparation::Ready {
                    operation_id: Some(id),
                } ==> script::stored_under(log, FEE_OUTBOX_SQL@, id) > 0
            )
        },
{
    broadcast use {
        script::runs_with_another,
        script::stored_under_with_another,
        map_row_changes_nothing,
    };

    reveal(prepare_fee_profile_for_attachment_spec);
}

proof fn fee_publication_is_told_apart()
    ensures
        FEE_OUTBOX_SQL@ != INSERT_DRAFT_SQL@,
        FEE_OUTBOX_SQL@ != UPDATE_DRAFT_SQL@,
        FEE_OUTBOX_SQL@ != idempotency::IDEMPOTENCY_INSERT_SQL@,
        FEE_OUTBOX_SQL@ != idempotency::IDEMPOTENCY_COMPLETE_SQL@,
        FEE_OUTBOX_SQL@ != audit::AUDIT_INSERT_SQL@,
{
    reveal_strlit(
        "INSERT INTO integration_outbox (outbox_event_id, operation_id, event_type, aggregate_type, aggregate_id, partition_key, payload_json, headers_json, status, next_attempt_at) VALUES (:1,:2,:3,:4,:5,:6,:7,:8,'PENDING',SYSTIMESTAMP)",
    );
    reveal_strlit(
        "INSERT INTO provider_fee_profiles (provider_fee_profile_id,provider_id,rate_bps,fixed_amount_rials,fee_payer,status,version,publication_operation_id,created_by_subject,updated_by_subject,change_reason) VALUES (:1,:2,:3,:4,:5,'DRAFT',:6,:7,:8,:9,:10)",
    );
    reveal_strlit(
        "UPDATE provider_fee_profiles SET rate_bps=:1,fixed_amount_rials=:2,fee_payer=:3,publication_operation_id=:4,updated_by_subject=:5,change_reason=:6,updated_at=SYSTIMESTAMP WHERE provider_fee_profile_id=:7 AND status='DRAFT' AND publication_operation_id IS NULL",
    );
    reveal_strlit(r#"
    INSERT INTO idempotency_records (
        idempotency_record_id,
        operation_type,
        idempotency_key,
        request_hash,
        status,
        created_by_subject,
        created_by_client_id,
        actor_provider_id,
        actor_user_id,
        correlation_id,
        request_id
    )
    VALUES (:1, :2, :3, :4, :5, :6, :7, :8, :9, :10, :11)
    "#);
    reveal_strlit(r#"
    UPDATE idempotency_records
    SET status = 'COMPLETED',
        resource_type = :1,
        resource_id = :2,
        response_snapshot = :3,
        updated_at = SYSTIMESTAMP,
        completed_at = SYSTIMESTAMP
    WHERE operation_type = :4
      AND idempotency_key = :5
      AND status = 'IN_PROGRESS'
    "#);
    reveal_strlit(r#"
    INSERT INTO audit_logs (
        audit_log_id,
        entity_type,
        entity_id,
        action_type,
        reason,
        old_values,
        new_values,
        actor_subject,
        actor_client_id,
        actor_provider_id,
        actor_user_id,
        actor_issuer,
        source_ip,
        correlation_id,
        request_id
    )
    VALUES (:1, :2, :3, :4, :5, :6, :7, :8, :9, :10, :11, :12, :13, :14, :15)
    "#);
    assert(FEE_OUTBOX_SQL@.len() != INSERT_DRAFT_SQL@.len());
    assert(FEE_OUTBOX_SQL@.len() != UPDATE_DRAFT_SQL@.len());
    assert(FEE_OUTBOX_SQL@.len() != idempotency::IDEMPOTENCY_INSERT_SQL@.len());
    assert(FEE_OUTBOX_SQL@.len() != idempotency::IDEMPOTENCY_COMPLETE_SQL@.len());
    assert(FEE_OUTBOX_SQL@.len() != audit::AUDIT_INSERT_SQL@.len());
}

/// Fees of a provider that is active in a range are published: an operation is answered, and the
/// event is stored under it. Those of a provider without a range stay a draft: no operation is
/// answered and no event is stored.
#[verifier::rlimit(100)]
pub proof fn fees_in_use_are_published(
    st: RunView,
    context: MutationCommandContext,
    provider_id: Uuid,
    desired: DesiredProviderFeeProfile,
    draft: Option<ProviderFeeProfile>,
)
    ensures
        ({
            let (result, after) = apply_fees_spec(st, context, provider_id, desired, draft);
            let identified = draft_identity_spec(st, draft).1;
            let versioned = draft_version_spec(identified, draft, provider_id).1;
            let ranges = script::one_int_spec(
                versioned,
                ACTIVE_RANGES_SQL@,
                seq![Bind::Id(provider_id)],
                "failed to count provider ranges"@,
            ).0;
            result matches Ok(outcome) ==> {
                &&& outcome matches SetProviderFeeProfilePersistenceOutcome::Applied(applied) && {
                    &&& ranges is Ok
                    &&& ranges->Ok_0 > 0 <==> applied.operation_id is Some
                    &&& ranges->Ok_0 > 0 ==> applied.disposition is PublicationPending
                        && script::stored_under(
                        after.log,
                        FEE_OUTBOX_SQL@,
                        applied.operation_id->Some_0,
                    ) > 0
                    &&& ranges->Ok_0 <= 0 ==> script::runs(after.log, FEE_OUTBOX_SQL@)
                        == script::runs(st.log, FEE_OUTBOX_SQL@) && (draft is Some
                        <==> applied.disposition is Updated) && (draft is None
                        <==> applied.disposition is Created)
                }
            }
        }),
{
    broadcast use {
        script::runs_with_another,
        script::stored_under_with_another,
        map_row_changes_nothing,
    };

    fee_publication_is_told_apart();
    reveal(apply_fees_spec);
}

/// A command for fees without a record is refused where the rules object to them, where the
/// provider is missing, and where the draft is being published. Each has its own answer, in this
/// order.
#[verifier::rlimit(60)]
pub proof fn fees_are_refused_for_one_reason(
    st: RunView,
    context: MutationCommandContext,
    provider_id: Uuid,
    desired: DesiredProviderFeeProfile,
)
    requires
        idempotency::fetch_idempotency_record_spec(
            st,
            context.operation_type,
            context.idempotency_key,
        ).0 == Ok::<Option<IdempotencyRecord>, HaltView>(None),
    ensures
        ({
            let result = set_provider_fee_profile_atomic_spec(st, context, provider_id, desired).0;
            let at = idempotency::fetch_idempotency_record_spec(
                st,
                context.operation_type,
                context.idempotency_key,
            ).1;
            let (verdict, judged) = script::verdict_spec(at, Rule::FeeContract(desired));
            let (found, locked) = script::rows_spec(
                judged,
                LOCK_PROVIDER_SQL@,
                seq![Bind::Id(provider_id)],
                "r",
                "failed to lock provider"@,
            );
            let (recheck, again) = idempotency::fetch_idempotency_record_spec(
                locked,
                context.operation_type,
                context.idempotency_key,
            );
            let draft = fetch_fee_profile_by_status_spec(
                again,
                provider_id,
                ProviderFeeProfileStatus::Draft,
            ).0;
            let sound = verdict == Ok::<Option<String>, HaltView>(None);
            let missing = found matches Ok(rows) && rows.rows@.len() == 0 && rows.failure is None;
            &&& verdict matches Ok(Some(objection)) ==> result == Ok::<_, HaltView>(
                SetProviderFeeProfilePersistenceOutcome::ContractInvalid(objection),
            )
            &&& result matches Ok(
                SetProviderFeeProfilePersistenceOutcome::ContractInvalid(objection),
            )
                ==> verdict == Ok::<Option<String>, HaltView>(Some(objection))
            &&& sound && missing <==> result == Ok::<_, HaltView>(
                SetProviderFeeProfilePersistenceOutcome::ProviderNotFound,
            )
            &&& sound && found is Ok && !missing && recheck == Ok::<
                Option<IdempotencyRecord>,
                HaltView,
            >(None) && (draft matches Ok(Some(fees)) && fees.publication_operation_id is Some)
                <==> result == Ok::<_, HaltView>(
                SetProviderFeeProfilePersistenceOutcome::DraftFrozen,
            )
        }),
{
    broadcast use apply_fees_leaves_evidence;

}

/// A receipt is for the pending fees exactly where it names the provider, the profile and its
/// version, and the key under which the runtime holds the fees of that provider.
pub proof fn receipt_is_for_the_pending_fees(
    pending: Option<ProviderFeeProfile>,
    receipt: ProviderFeeMaterializationReceipt,
)
    ensures
        receipt_is_for(pending, receipt) <==> (pending matches Some(fees) && receipt.provider_id
            == fees.provider_id && receipt.provider_fee_profile_id == fees.provider_fee_profile_id
            && receipt.materialized_version == fees.version && receipt.runtime_key@ == "FEE:"@
            + uuid::hyphenated_text(fees.provider_id)),
{
}

/// A receipt brings fees into force exactly where it was not seen before and is for the pending
/// fees of its operation. Any other that was not seen before is rejected.
#[verifier::rlimit(60)]
pub proof fn receipt_activates_the_pending_fees(
    st: RunView,
    receipt: ProviderFeeMaterializationReceipt,
)
    requires
        classify_receipt_replay_spec(st, receipt).0 == Ok::<
            Option<ProviderFeeReceiptPersistenceOutcome>,
            HaltView,
        >(None),
    ensures
        ({
            let result = apply_provider_fee_materialization_receipt_spec(st, receipt).0;
            let kept = insert_inbox_spec(classify_receipt_replay_spec(st, receipt).1, receipt).1;
            let pending = fetch_by_operation_for_update_spec(kept, receipt.operation_id).0;
            result matches Ok(outcome) ==> {
                &&& outcome is Activated <==> receipt_is_for(pending->Ok_0, receipt)
                &&& outcome is Mismatch <==> !receipt_is_for(pending->Ok_0, receipt)
            }
        }),
{
    reveal(map_row_spec);
}

/// What a provider that joins a range is charged by: a draft is published with it, unless it is
/// being published; otherwise the fees in force do; otherwise there are none.
#[verifier::rlimit(60)]
pub proof fn joining_provider_is_charged_by_draft_or_active_fees(
    st: RunView,
    context: MutationCommandContext,
    provider_id: Uuid,
    reason: String,
)
    ensures
        ({
            let result = prepare_fee_profile_for_attachment_spec(
                st,
                context,
                provider_id,
                reason,
            ).0;
            let (draft, read) = fetch_fee_profile_by_status_spec(
                st,
                provider_id,
                ProviderFeeProfileStatus::Draft,
            );
            let active = fetch_fee_profile_by_status_spec(
                read,
                provider_id,
                ProviderFeeProfileStatus::Active,
            ).0;
            result matches Ok(fees) ==> {
                &&& draft matches Ok(Some(existing)) ==> (existing.publication_operation_id is Some
                    ==> fees is PublicationPending) && !(fees is Missing) && (fees matches
                    FeeProfileAttachmentPreparation::Ready {
                        operation_id,
                    } ==> operation_id is Some)
                &&& draft matches Ok(None) ==> {
                    &&& fees is Missing <==> active == Ok::<Option<ProviderFeeProfile>, HaltView>(
                        None,
                    )
                    &&& active matches Ok(Some(_)) ==> fees
                        == (FeeProfileAttachmentPreparation::Ready { operation_id: None })
                }
            }
        }),
{
    reveal(prepare_fee_profile_for_attachment_spec);
}

/// Fees are handed out only as those of the provider that is asked about.
pub proof fn fees_are_handed_out_for_their_provider(
    st: RunView,
    provider_id: Uuid,
    profile_id: Uuid,
)
    ensures
        get_provider_fee_profile_spec(
            st,
            provider_id,
            profile_id,
        ).0 matches Ok(Some(fees)) ==> fees.provider_id == provider_id,
{
}

/// A profile that is published is pending; otherwise it is updated where there was a draft, and
/// created where there was none.
pub proof fn disposition_goes_by_draft_and_publication(had_draft: bool, published: bool)
    ensures
        disposition_of(had_draft, published) is PublicationPending <==> published,
        disposition_of(had_draft, published) is Updated <==> !published && had_draft,
        disposition_of(had_draft, published) is Created <==> !published && !had_draft,
{
}

/// A draft is published with its fees only where no publication of it is pending.
#[verifier::rlimit(40)]
pub proof fn pending_draft_is_not_published_again(
    st: RunView,
    context: MutationCommandContext,
    provider_id: Uuid,
    draft: ProviderFeeProfile,
    reason: String,
)
    ensures
        ({
            let (ended, after) = publish_draft_spec(st, context, provider_id, draft, reason);
            &&& draft.publication_operation_id is Some ==> after == st && (ended matches Ok(outcome)
                && outcome is PublicationPending)
            &&& (
                ended matches Ok(outcome) && outcome is Ready
            ) ==> draft.publication_operation_id is None
        }),
{
}

/// What a provider's fees are ready with, before it is attached: without a draft they are ready
/// where a profile is active, and missing where none is.
pub proof fn fees_without_draft_are_ready_or_missing(
    st: RunView,
    context: MutationCommandContext,
    provider_id: Uuid,
    reason: String,
)
    ensures
        ({
            let (draft, at) = fetch_fee_profile_by_status_spec(
                st,
                provider_id,
                ProviderFeeProfileStatus::Draft,
            );
            let active = fetch_fee_profile_by_status_spec(
                at,
                provider_id,
                ProviderFeeProfileStatus::Active,
            ).0;
            let ended = prepare_fee_profile_for_attachment_spec(st, context, provider_id, reason).0;
            (draft matches Ok(None)) ==> {
                &&& (active matches Ok(Some(_))) <==> (
                    ended matches Ok(outcome) && outcome is Ready
                )
                &&& (active matches Ok(None)) <==> (ended matches Ok(outcome) && outcome is Missing)
            }
        }),
{
    reveal(prepare_fee_profile_for_attachment_spec);
}

/// Each value is read from its own column: the fee profile that a row holds.
#[verifier::rlimit(60)]
pub proof fn map_row_is_read_by_column(
    st: RunView,
    row: Row,
)
    ensures
        map_row_spec(st, row).0 matches Ok(read) ==> {
            &&& read.provider_fee_profile_id == row.id_at(0, READ_ROW@)->Ok_0
            &&& read.provider_id == row.id_at(1, READ_ROW@)->Ok_0
            &&& read.fee_policy.rate_bps == row.int_at(2, READ_ROW@)->Ok_0
            &&& read.fee_policy.fixed_amount_rials == (
                text::unsigned_of(row.text_at(3, READ_ROW@)->Ok_0@)
            )->Some_0
            &&& read.fee_policy.fee_payer == row.text_at(4, READ_ROW@)->Ok_0
            &&& read.status == (
                ProviderFeeProfileStatus::of_code(row.text_at(5, READ_ROW@)->Ok_0@)
            )->Some_0
            &&& read.version == row.int_at(6, READ_ROW@)->Ok_0
            &&& read.superseded_by_profile_id == script::opt_id_of(
                row.opt_raw_at(7, READ_ROW@)->Ok_0,
            )->Ok_0
            &&& read.publication_operation_id == script::opt_id_of(
                row.opt_raw_at(8, READ_ROW@)->Ok_0,
            )->Ok_0
            &&& read.created_by_subject == row.text_at(9, READ_ROW@)->Ok_0
            &&& read.updated_by_subject == row.text_at(10, READ_ROW@)->Ok_0
            &&& read.change_reason == row.text_at(11, READ_ROW@)->Ok_0
            &&& read.activated_at == script::opt_time_of(
                row.opt_text_at(12, READ_ROW@)->Ok_0,
                "invalid fee UTC timestamp"@,
            )->Ok_0
            &&& read.superseded_at == script::opt_time_of(
                row.opt_text_at(13, READ_ROW@)->Ok_0,
                "invalid fee UTC timestamp"@,
            )->Ok_0
            &&& read.created_at == script::time_of(
                row.text_at(14, READ_ROW@)->Ok_0@,
                "invalid fee UTC timestamp"@,
            )->Ok_0
            &&& read.updated_at == script::time_of(
                row.text_at(15, READ_ROW@)->Ok_0@,
                "invalid fee UTC timestamp"@,
            )->Ok_0
        },
{
    reveal(map_row_spec);
}

/// What is asked first, and with which values, in a run that does this:
/// reads a fee profile, where there is one.
pub proof fn fetch_optional_fee_profile_asks_first(
    st: RunView,
    profile_id: Uuid,
)
    requires
        st.rest.len() == 0,
    ensures
        fetch_optional_fee_profile_spec(st, profile_id).0 matches Err(HaltView::Ask(asked))
            && (
                asked matches script::CallView::Sql { sql, binds, .. }
                    && sql == fee_profile_sql_text() && binds == seq![Bind::Id(profile_id)]
            ),
{
}

/// What is asked first, and with which values, in a run that does this:
/// reads the fee profile of a provider that has a status, where there is one.
pub proof fn fetch_fee_profile_by_status_asks_first(
    st: RunView,
    provider_id: Uuid,
    status: ProviderFeeProfileStatus,
)
    requires
        st.rest.len() == 0,
    ensures
        fetch_fee_profile_by_status_spec(
            st,
            provider_id,
            status,
        ).0 matches Err(HaltView::Ask(asked))
            && (
                asked matches script::CallView::Sql { sql, binds, .. }
                    && sql == fee_profile_by_status_sql_text()
                    && binds == seq![Bind::Id(provider_id), Bind::Label(status.code())]
            ),
{
}

/// What is asked first, and with which values, in a run that does this:
/// locks and reads the draft that an operation publishes, where there is one.
pub proof fn fetch_by_operation_for_update_asks_first(
    st: RunView,
    operation_id: Uuid,
)
    requires
        st.rest.len() == 0,
    ensures
        fetch_by_operation_for_update_spec(st, operation_id).0 matches Err(HaltView::Ask(asked))
            && (
                asked matches script::CallView::Sql { sql, binds, .. }
                    && sql == fee_profile_pending_sql_text()
                    && binds == seq![Bind::Id(operation_id)]
            ),
{
}

/// What is asked first, and with which values, in a run that does this:
/// locks a provider, and tells whether there is one.
pub proof fn lock_provider_asks_first(
    st: RunView,
    provider_id: Uuid,
)
    requires
        st.rest.len() == 0,
    ensures
        lock_provider_spec(st, provider_id).0 matches Err(HaltView::Ask(asked))
            && (
                asked matches script::CallView::Sql { sql, binds, .. } && sql == LOCK_PROVIDER_SQL@
                    && binds == seq![Bind::Id(provider_id)]
            ),
{
}

/// What is asked first, and with which values, in a run that does this:
/// stores a draft.
pub proof fn insert_draft_asks_first(
    st: RunView,
    profile_id: Uuid,
    provider_id: Uuid,
    policy: FeePolicy,
    version: i64,
    operation_id: Option<Uuid>,
    subject: String,
    reason: String,
)
    requires
        st.rest.len() == 0,
    ensures
        insert_draft_spec(
            st,
            profile_id,
            provider_id,
            policy,
            version,
            operation_id,
            subject,
            reason,
        ).0 matches Err(HaltView::Ask(asked))
            && (
                asked matches script::CallView::Sql { sql, binds, .. } && sql == INSERT_DRAFT_SQL@
                    && binds == seq![
                        Bind::Id(profile_id),
                        Bind::Id(provider_id),
                        Bind::Int(policy.rate_bps),
                        Bind::Unsigned(policy.fixed_amount_rials),
                        Bind::Text(policy.fee_payer),
                        Bind::Int(version),
                        Bind::OptId(operation_id),
                        Bind::Text(subject),
                        Bind::Text(subject),
                        Bind::Trimmed(reason),
                    ]
            ),
{
}

/// What the database is told, and with which values, where a run succeeds that does this:
/// stores a draft.
#[verifier::rlimit(60)]
pub proof fn insert_draft_is_told(
    st: RunView,
    profile_id: Uuid,
    provider_id: Uuid,
    policy: FeePolicy,
    version: i64,
    operation_id: Option<Uuid>,
    subject: String,
    reason: String,
)
    ensures
        ({
            let (ended, after) = insert_draft_spec(
                st,
                profile_id,
                provider_id,
                policy,
                version,
                operation_id,
                subject,
                reason,
            );
            let log = after.log;
            ended is Ok ==> {
                &&& script::ran(
                    log,
                    INSERT_DRAFT_SQL@,
                    seq![
                        Bind::Id(profile_id),
                        Bind::Id(provider_id),
                        Bind::Int(policy.rate_bps),
                        Bind::Unsigned(policy.fixed_amount_rials),
                        Bind::Text(policy.fee_payer),
                        Bind::Int(version),
                        Bind::OptId(operation_id),
                        Bind::Text(subject),
                        Bind::Text(subject),
                        Bind::Trimmed(reason),
                    ],
                )
            }
        }),
{
    broadcast use {
        script::runs_on_with_another,
        script::told_where_with_another,
        map_row_changes_nothing,
    };

}

/// What is asked first, and with which values, in a run that does this:
/// changes a draft that is not being published.
pub proof fn update_draft_asks_first(
    st: RunView,
    profile_id: Uuid,
    policy: FeePolicy,
    operation_id: Option<Uuid>,
    subject: String,
    reason: String,
)
    requires
        st.rest.len() == 0,
    ensures
        update_draft_spec(
            st,
            profile_id,
            policy,
            operation_id,
            subject,
            reason,
        ).0 matches Err(HaltView::Ask(asked))
            && (
                asked matches script::CallView::Sql { sql, binds, .. } && sql == UPDATE_DRAFT_SQL@
                    && binds == seq![
                        Bind::Int(policy.rate_bps),
                        Bind::Unsigned(policy.fixed_amount_rials),
                        Bind::Text(policy.fee_payer),
                        Bind::OptId(operation_id),
                        Bind::Text(subject),
                        Bind::Trimmed(reason),
                        Bind::Id(profile_id),
                    ]
            ),
{
}

/// Exactly one row is touched where a run succeeds that does this:
/// changes a draft that is not being published.
pub proof fn update_draft_touches_one_row(
    st: RunView,
    profile_id: Uuid,
    policy: FeePolicy,
    operation_id: Option<Uuid>,
    subject: String,
    reason: String,
)
    requires
        update_draft_spec(st, profile_id, policy, operation_id, subject, reason).0 is Ok,
    ensures
        st.rest[0] == script::Reply::Executed(Ok(1)),
{
}

/// What the database is told, and with which values, where a run succeeds that does this:
/// changes a draft that is not being published.
#[verifier::rlimit(60)]
pub proof fn update_draft_is_told(
    st: RunView,
    profile_id: Uuid,
    policy: FeePolicy,
    operation_id: Option<Uuid>,
    subject: String,
    reason: String,
)
    ensures
        ({
            let (ended, after) = update_draft_spec(
                st,
                profile_id,
                policy,
                operation_id,
                subject,
                reason,
            );
            let log = after.log;
            ended is Ok ==> {
                &&& script::ran(
                    log,
                    UPDATE_DRAFT_SQL@,
                    seq![
                        Bind::Int(policy.rate_bps),
                        Bind::Unsigned(policy.fixed_amount_rials),
                        Bind::Text(policy.fee_payer),
                        Bind::OptId(operation_id),
                        Bind::Text(subject),
                        Bind::Trimmed(reason),
                        Bind::Id(profile_id),
                    ],
                )
            }
        }),
{
    broadcast use {
        script::runs_on_with_another,
        script::told_where_with_another,
        map_row_changes_nothing,
    };

}

/// What the database is told, and with which values, where a run succeeds that does this:
/// stores the event that publishes a fee profile.
#[verifier::rlimit(60)]
pub proof fn insert_fee_profile_outbox_is_told(
    st: RunView,
    operation_id: Uuid,
    provider_id: Uuid,
    profile_id: Uuid,
    version: i64,
    policy: FeePolicy,
    headers_of: HeaderSource,
)
    ensures
        ({
            let (ended, after) = insert_fee_profile_outbox_spec(
                st,
                operation_id,
                provider_id,
                profile_id,
                version,
                policy,
                headers_of,
            );
            let log = after.log;
            ended is Ok ==> {
                &&& script::told_where(
                    log,
                    FEE_OUTBOX_SQL@,
                    |b: Seq<Bind>| b.len() == 8 && b[1] == Bind::Id(operation_id)
                        && b[2] == Bind::Label("PROVIDER_FEE_PROFILE_PUBLISH_REQUESTED")
                        && b[3] == Bind::Label("PROVIDER") && b[4] == Bind::Id(provider_id)
                        && b[5] == Bind::IdText(provider_id),
                ) > 0
            }
        }),
{
    broadcast use {
        script::runs_on_with_another,
        script::told_where_with_another,
        map_row_changes_nothing,
    };

}

/// What is asked first, and with which values, in a run that does this:
/// the fee profiles of a provider below a version, newest first.
pub proof fn list_provider_fee_profiles_asks_first(
    st: RunView,
    provider_id: Uuid,
    before_version: Option<i64>,
    limit: u16,
)
    requires
        st.rest.len() == 0,
    ensures
        list_provider_fee_profiles_spec(
            st,
            provider_id,
            before_version,
            limit,
        ).0 matches Err(HaltView::Ask(asked))
            && (
                asked matches script::CallView::Sql { sql, binds, .. }
                    && sql == fee_profile_list_sql_text()
                    && binds == seq![
                        Bind::Id(provider_id),
                        Bind::OptInt(before_version),
                        Bind::OptInt(before_version),
                        Bind::Int(limit as i64),
                    ]
            ),
{
}

/// What is asked first, and with which values, in a run that does this:
/// what a receipt comes to, where it was stored or rejected before.
pub proof fn classify_receipt_replay_asks_first(
    st: RunView,
    receipt: ProviderFeeMaterializationReceipt,
)
    requires
        st.rest.len() == 0,
    ensures
        classify_receipt_replay_spec(st, receipt).0 matches Err(HaltView::Ask(asked))
            && (
                asked matches script::CallView::Sql { sql, binds, .. } && sql == RECEIPT_REPLAY_SQL@
                    && binds == seq![
                        Bind::Id(receipt.receipt_event_id),
                        Bind::Id(receipt.operation_id),
                        Bind::Int(receipt.materialized_version),
                    ]
            ),
{
}

/// What the database is told, and with which values, where a run succeeds that does this:
/// stores the arrival of a receipt.
#[verifier::rlimit(60)]
pub proof fn insert_inbox_is_told(
    st: RunView,
    receipt: ProviderFeeMaterializationReceipt,
)
    ensures
        ({
            let (ended, after) = insert_inbox_spec(st, receipt);
            let log = after.log;
            ended is Ok ==> {
                &&& script::told_where(
                    log,
                    INBOX_INSERT_SQL@,
                    |b: Seq<Bind>| b.len() == 4 && b[1] == Bind::Id(receipt.receipt_event_id)
                        && b[2] == Bind::Id(receipt.provider_id),
                ) > 0
            }
        }),
{
    broadcast use {
        script::runs_on_with_another,
        script::told_where_with_another,
        map_row_changes_nothing,
    };

}

/// What is asked first, and with which values, in a run that does this:
/// marks a receipt as rejected.
pub proof fn fail_inbox_asks_first(
    st: RunView,
    receipt: ProviderFeeMaterializationReceipt,
)
    requires
        st.rest.len() == 0,
    ensures
        fail_inbox_spec(st, receipt).0 matches Err(HaltView::Ask(asked))
            && (
                asked matches script::CallView::Sql { sql, binds, .. } && sql == INBOX_FAILED_SQL@
                    && binds == seq![
                        Bind::Json(Document::FeeMismatch(
                            receipt.operation_id,
                            receipt.provider_fee_profile_id,
                        )),
                        Bind::Id(receipt.receipt_event_id),
                    ]
            ),
{
}

/// What the database is told, and with which values, where a run succeeds that does this:
/// marks a receipt as rejected.
#[verifier::rlimit(60)]
pub proof fn fail_inbox_is_told(
    st: RunView,
    receipt: ProviderFeeMaterializationReceipt,
)
    ensures
        ({
            let (ended, after) = fail_inbox_spec(st, receipt);
            let log = after.log;
            ended is Ok ==> {
                &&& script::ran(
                    log,
                    INBOX_FAILED_SQL@,
                    seq![
                        Bind::Json(Document::FeeMismatch(
                            receipt.operation_id,
                            receipt.provider_fee_profile_id,
                        )),
                        Bind::Id(receipt.receipt_event_id),
                    ],
                )
            }
        }),
{
    broadcast use {
        script::runs_on_with_another,
        script::told_where_with_another,
        map_row_changes_nothing,
    };

}

/// What is asked first, and with which values, in a run that does this:
/// marks a receipt as processed.
pub proof fn complete_inbox_asks_first(
    st: RunView,
    event_id: Uuid,
)
    requires
        st.rest.len() == 0,
    ensures
        complete_inbox_spec(st, event_id).0 matches Err(HaltView::Ask(asked))
            && (
                asked matches script::CallView::Sql { sql, binds, .. }
                    && sql == INBOX_PROCESSED_SQL@ && binds == seq![Bind::Id(event_id)]
            ),
{
}

/// What the database is told, and with which values, where a run succeeds that does this:
/// marks a receipt as processed.
#[verifier::rlimit(60)]
pub proof fn complete_inbox_is_told(
    st: RunView,
    event_id: Uuid,
)
    ensures
        ({
            let (ended, after) = complete_inbox_spec(st, event_id);
            let log = after.log;
            ended is Ok ==> {
                &&& script::ran(log, INBOX_PROCESSED_SQL@, seq![Bind::Id(event_id)])
            }
        }),
{
    broadcast use {
        script::runs_on_with_another,
        script::told_where_with_another,
        map_row_changes_nothing,
    };

}

/// What the database is told, and with which values, where a run succeeds that does this:
/// stores a receipt.
#[verifier::rlimit(60)]
pub proof fn insert_runtime_receipt_is_told(
    st: RunView,
    receipt: ProviderFeeMaterializationReceipt,
)
    ensures
        ({
            let (ended, after) = insert_runtime_receipt_spec(st, receipt);
            let log = after.log;
            ended is Ok ==> {
                &&& script::told_where(
                    log,
                    RECEIPT_INSERT_SQL@,
                    |b: Seq<Bind>| b.len() == 8 && b[1] == Bind::Id(receipt.receipt_event_id)
                        && b[2] == Bind::Id(receipt.operation_id)
                        && b[3] == Bind::Id(receipt.provider_id)
                        && b[4] == Bind::Id(receipt.provider_fee_profile_id)
                        && b[5] == Bind::Int(receipt.materialized_version)
                        && b[6] == Bind::Text(receipt.runtime_key)
                        && b[7] == Bind::Time(receipt.materialized_at),
                ) > 0
            }
        }),
{
    broadcast use {
        script::runs_on_with_another,
        script::told_where_with_another,
        map_row_changes_nothing,
    };

}

/// What the database is told, and with which values, where a run succeeds that does this:
/// switches a provider to the draft that a receipt is for.
#[verifier::rlimit(60)]
pub proof fn activate_fees_is_told(
    st: RunView,
    pending: ProviderFeeProfile,
    receipt: ProviderFeeMaterializationReceipt,
)
    ensures
        ({
            let (ended, after) = activate_fees_spec(st, pending, receipt);
            let log = after.log;
            ended is Ok ==> {
                &&& script::ran(
                    log,
                    SUPERSEDE_SQL@,
                    seq![Bind::Id(receipt.provider_fee_profile_id), Bind::Id(receipt.provider_id)],
                )
                &&& script::ran(
                    log,
                    ACTIVATE_SQL@,
                    seq![Bind::Id(receipt.provider_fee_profile_id), Bind::Id(receipt.operation_id)],
                )
            }
        }),
{
    broadcast use {
        script::runs_on_with_another,
        script::told_where_with_another,
        map_row_changes_nothing,
    };

}

/// What the database is told, and with which values, where a run succeeds that does this:
/// publishes the draft of a provider that is to be assigned to a range.
#[verifier::rlimit(60)]
pub proof fn publish_draft_is_told(
    st: RunView,
    context: MutationCommandContext,
    provider_id: Uuid,
    draft: ProviderFeeProfile,
    reason: String,
)
    ensures
        ({
            let (ended, after) = publish_draft_spec(st, context, provider_id, draft, reason);
            let log = after.log;
            (ended matches Ok(outcome) && outcome is Ready) ==> {
                &&& script::told_where(
                    log,
                    FREEZE_DRAFT_SQL@,
                    |b: Seq<Bind>| b.len() == 4 && b[1] == Bind::Text(context.actor.subject)
                        && b[2] == Bind::Text(reason)
                        && b[3] == Bind::Id(draft.provider_fee_profile_id),
                ) > 0
            }
        }),
{
    broadcast use {
        script::runs_on_with_another,
        script::told_where_with_another,
        map_row_changes_nothing,
    };

}

} // verus!
