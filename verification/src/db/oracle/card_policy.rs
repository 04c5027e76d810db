//! Card policies.
use vstd::prelude::*;
use crate::db::oracle::audit;
use crate::db::oracle::binds;
use crate::db::oracle::card_range;
use crate::db::oracle::consult::{DocumentKind, Rule};
use crate::db::oracle::document::{Document, EventKeys, Snapshot};
use crate::db::oracle::idempotency;
use crate::db::oracle::idempotency::IdempotencyVerdict;
use crate::db::oracle::repository::OracleRepository;
use crate::db::oracle::script;
use crate::db::oracle::script::{Bind, Halt, HaltView, Row, RunView, Session};
use crate::domain::audit::AuditAction;
use crate::domain::card_policy::{
    CardPolicyProfile, CardPolicyStatus, DesiredCardPolicy, PolicyMaterializationReceipt,
};
use crate::domain::card_range::{FundingMode, LimitCalendar, WithdrawalLimitAuthority};
use crate::domain::command::{HeaderSource, MutationCommandContext};
use crate::domain::idempotency::IdempotencyRecord;
use crate::text;
use crate::uuid;
use crate::uuid::Uuid;

verus! {

/// The context of a policy column that cannot be read.
pub const READ_ROW: &'static str = "failed to read Oracle policy row";

/// Locks a card range and reads what its policy depends on.
pub const POLICY_RANGE_LOCK_SQL: &'static str = r#"
    SELECT
        cr.funding_mode,
        cr.withdrawal_limit_authority,
        JSON_SERIALIZE(cr.limit_calendar_json RETURNING CLOB) AS limit_calendar_json,
        (SELECT COUNT(*) FROM card_range_providers crp
         WHERE crp.card_range_id = cr.card_range_id AND crp.status = 'ACTIVE')
    FROM card_ranges cr
    WHERE cr.card_range_id = :1
    FOR UPDATE
    "#;

/// Locks a card range and reads what its policy depends on.
pub fn policy_range_lock_sql() -> (r: &'static str)
    ensures
        r == POLICY_RANGE_LOCK_SQL,
{
    POLICY_RANGE_LOCK_SQL
}

/// Stores a policy.
pub const POLICY_INSERT_SQL: &'static str = r#"
    INSERT INTO card_policy_profiles (
        card_policy_profile_id, card_range_id, profile_json, status, version,
        publication_operation_id, created_by_subject, updated_by_subject,
        change_reason
    ) VALUES (:1, :2, :3, :4, :5, :6, :7, :8, :9)
    "#;

/// Stores a policy.
pub fn policy_insert_sql() -> (r: &'static str)
    ensures
        r == POLICY_INSERT_SQL,
{
    POLICY_INSERT_SQL
}

/// Changes a draft that is not being published.
pub const POLICY_UPDATE_DRAFT_SQL: &'static str = r#"
    UPDATE card_policy_profiles
    SET profile_json = :1,
        publication_operation_id = :2,
        updated_by_subject = :3,
        change_reason = :4,
        updated_at = SYSTIMESTAMP
    WHERE card_policy_profile_id = :5
      AND status = 'DRAFT'
      AND publication_operation_id IS NULL
    "#;

/// Changes a draft that is not being published.
pub fn policy_update_draft_sql() -> (r: &'static str)
    ensures
        r == POLICY_UPDATE_DRAFT_SQL,
{
    POLICY_UPDATE_DRAFT_SQL
}

/// The next version of the policy of a range.
pub const POLICY_NEXT_VERSION_SQL: &'static str = "SELECT NVL(MAX(version), 0) + 1 FROM card_policy_profiles WHERE card_range_id = :1";

/// The next version of the policy of a range.
pub fn policy_next_version_sql() -> (r: &'static str)
    ensures
        r == POLICY_NEXT_VERSION_SQL,
{
    POLICY_NEXT_VERSION_SQL
}

/// Stores a policy event.
pub const POLICY_OUTBOX_INSERT_SQL: &'static str = r#"
    INSERT INTO integration_outbox (
        outbox_event_id, operation_id, event_type, aggregate_type, aggregate_id,
        partition_key, payload_json, headers_json, status, next_attempt_at
    ) VALUES (:1, :2, :3, :4, :5, :6, :7, :8, 'PENDING', SYSTIMESTAMP)
    "#;

/// Stores a policy event.
pub fn policy_outbox_insert_sql() -> (r: &'static str)
    ensures
        r == POLICY_OUTBOX_INSERT_SQL,
{
    POLICY_OUTBOX_INSERT_SQL
}

/// Finds a stored receipt for the same event, or for the same operation and version.
pub const POLICY_RECEIPT_REPLAY_SQL: &'static str = r#"
    SELECT receipt_event_id, operation_id, aggregate_id, profile_id,
           materialized_version, redis_key
    FROM runtime_materialization_receipts
    WHERE receipt_event_id = :1
       OR (operation_id = :2 AND profile_type = 'CPOL' AND materialized_version = :3)
    "#;

/// Finds a stored receipt for the same event, or for the same operation and version.
pub fn policy_receipt_replay_sql() -> (r: &'static str)
    ensures
        r == POLICY_RECEIPT_REPLAY_SQL,
{
    POLICY_RECEIPT_REPLAY_SQL
}

/// Stores the arrival of a receipt.
pub const POLICY_RECEIPT_INBOX_INSERT_SQL: &'static str = r#"
    INSERT INTO integration_inbox (
        inbox_event_id, source_system, source_event_id, event_type,
        aggregate_type, aggregate_id, payload_json, status
    ) VALUES (:1, :2, :3, :4, :5, :6, :7, 'RECEIVED')
    "#;

/// Stores the arrival of a receipt.
pub fn policy_receipt_inbox_insert_sql() -> (r: &'static str)
    ensures
        r == POLICY_RECEIPT_INBOX_INSERT_SQL,
{
    POLICY_RECEIPT_INBOX_INSERT_SQL
}

/// Stores a receipt.
pub const POLICY_RECEIPT_INSERT_SQL: &'static str = r#"
    INSERT INTO runtime_materialization_receipts (
        runtime_materialization_receipt_id, receipt_event_id, operation_id,
        profile_type, aggregate_id, profile_id, materialized_version,
        redis_key, materialized_at
    ) VALUES (
        :1, :2, :3, :4, :5, :6, :7, :8,
        FROM_TZ(TO_TIMESTAMP(:9, 'YYYY-MM-DD"T"HH24:MI:SS.FF3"Z"'), 'UTC')
    )
    "#;

/// Stores a receipt.
pub fn policy_receipt_insert_sql() -> (r: &'static str)
    ensures
        r == POLICY_RECEIPT_INSERT_SQL,
{
    POLICY_RECEIPT_INSERT_SQL
}

/// The columns of a policy, as a query lists them.
pub const POLICY_SELECT_COLUMNS: &'static str = r#"
        card_policy_profile_id,
        card_range_id,
        JSON_SERIALIZE(profile_json RETURNING CLOB) AS profile_json,
        status,
        version,
        superseded_by_profile_id,
        publication_operation_id,
        created_by_subject,
        updated_by_subject,
        change_reason,
        TO_CHAR(SYS_EXTRACT_UTC(activated_at), 'YYYY-MM-DD"T"HH24:MI:SS.FF3"Z"') AS activated_at,
        TO_CHAR(SYS_EXTRACT_UTC(superseded_at), 'YYYY-MM-DD"T"HH24:MI:SS.FF3"Z"') AS superseded_at,
        TO_CHAR(SYS_EXTRACT_UTC(created_at), 'YYYY-MM-DD"T"HH24:MI:SS.FF3"Z"') AS created_at,
        TO_CHAR(SYS_EXTRACT_UTC(updated_at), 'YYYY-MM-DD"T"HH24:MI:SS.FF3"Z"') AS updated_at
    "#;

/// What the columns of a policy hold.
pub const POLICY_COLUMNS: &'static str = "rrttiRRtttTTtt";

/// Reads a policy.
pub open spec fn policy_select_sql_text() -> Seq<char> {
    "SELECT "@ + POLICY_SELECT_COLUMNS@ + " FROM card_policy_profiles WHERE card_policy_profile_id = :1"@
}

/// Reads a policy.
pub fn policy_select_sql() -> (r: String)
    ensures
        r@ == policy_select_sql_text(),
{
    text::joined3(
        "SELECT ",
        POLICY_SELECT_COLUMNS,
        " FROM card_policy_profiles WHERE card_policy_profile_id = :1",
    )
}

/// Reads the policy of a range that has a status.
pub open spec fn policy_select_by_status_sql_text() -> Seq<char> {
    "SELECT "@ + POLICY_SELECT_COLUMNS@ + " FROM card_policy_profiles WHERE card_range_id = :1 AND status = :2"@
}

/// Reads the policy of a range that has a status.
pub fn policy_select_by_status_sql() -> (r: String)
    ensures
        r@ == policy_select_by_status_sql_text(),
{
    text::joined3(
        "SELECT ",
        POLICY_SELECT_COLUMNS,
        " FROM card_policy_profiles WHERE card_range_id = :1 AND status = :2",
    )
}

/// Lists the policies of a range below a version, newest first.
pub open spec fn policy_list_sql_text() -> Seq<char> {
    "SELECT "@ + POLICY_SELECT_COLUMNS@ + " FROM card_policy_profiles WHERE card_range_id = :1 AND (:2 IS NULL OR version < :3) ORDER BY version DESC FETCH NEXT :4 ROWS ONLY"@
}

/// Lists the policies of a range below a version, newest first.
pub fn policy_list_sql() -> (r: String)
    ensures
        r@ == policy_list_sql_text(),
{
    text::joined3(
        "SELECT ",
        POLICY_SELECT_COLUMNS,
        " FROM card_policy_profiles WHERE card_range_id = :1 AND (:2 IS NULL OR version < :3) ORDER BY version DESC FETCH NEXT :4 ROWS ONLY",
    )
}

/// Locks and reads the draft that an operation publishes.
pub open spec fn policy_pending_sql_text() -> Seq<char> {
    "SELECT "@ + POLICY_SELECT_COLUMNS@ + " FROM card_policy_profiles WHERE publication_operation_id = :1 AND status = 'DRAFT' FOR UPDATE"@
}

/// Locks and reads the draft that an operation publishes.
pub fn policy_pending_sql() -> (r: String)
    ensures
        r@ == policy_pending_sql_text(),
{
    text::joined3(
        "SELECT ",
        POLICY_SELECT_COLUMNS,
        " FROM card_policy_profiles WHERE publication_operation_id = :1 AND status = 'DRAFT' FOR UPDATE",
    )
}

/// Counts the rejected arrivals of a receipt.
pub const POLICY_REJECTED_SQL: &'static str = "SELECT COUNT(*) FROM integration_inbox WHERE source_system = 'WOLFSBURG' AND source_event_id = :1 AND status = 'FAILED'";

/// Reads how a range is funded.
pub const POLICY_FUNDING_MODE_SQL: &'static str = "SELECT funding_mode FROM card_ranges WHERE card_range_id = :1";

/// Marks a receipt as rejected.
pub const POLICY_INBOX_FAILED_SQL: &'static str = "UPDATE integration_inbox SET status = 'FAILED', processed_at = SYSTIMESTAMP, error_json = :1 WHERE source_system = 'WOLFSBURG' AND source_event_id = :2";

/// Marks a receipt as processed.
pub const POLICY_INBOX_PROCESSED_SQL: &'static str = "UPDATE integration_inbox SET status = 'PROCESSED', processed_at = SYSTIMESTAMP WHERE source_system = 'WOLFSBURG' AND source_event_id = :1";

/// Supersedes the active policy of a range.
pub const POLICY_SUPERSEDE_SQL: &'static str = "UPDATE card_policy_profiles SET status = 'SUPERSEDED', superseded_by_profile_id = :1, superseded_at = SYSTIMESTAMP, updated_at = SYSTIMESTAMP WHERE card_range_id = :2 AND status = 'ACTIVE'";

/// Activates the draft that an operation publishes.
pub const POLICY_ACTIVATE_SQL: &'static str = "UPDATE card_policy_profiles SET status = 'ACTIVE', activated_at = SYSTIMESTAMP, updated_at = SYSTIMESTAMP WHERE card_policy_profile_id = :1 AND publication_operation_id = :2 AND status = 'DRAFT'";

/// What setting a policy came to.
#[derive(Clone, Copy, Debug, PartialEq, Eq, Structural)]
pub enum PolicyMutationDisposition {
    Created,
    Updated,
    PublicationPending,
}

/// A policy that was set, with what it depends on.
#[derive(Debug)]
pub struct SetCardPolicyResult {
    pub disposition: PolicyMutationDisposition,
    pub profile: CardPolicyProfile,
    pub operation_id: Option<Uuid>,
    pub funding_mode: FundingMode,
    pub withdrawal_limit_authority: WithdrawalLimitAuthority,
    pub limit_calendar: Option<LimitCalendar>,
}

impl Clone for SetCardPolicyResult {
    fn clone(&self) -> (r: Self)
        ensures
            r == *self,
    {
        SetCardPolicyResult {
            disposition: self.disposition,
            profile: self.profile.clone(),
            operation_id: self.operation_id,
            funding_mode: self.funding_mode,
            withdrawal_limit_authority: self.withdrawal_limit_authority,
            limit_calendar: match &self.limit_calendar { Some(v) => Some(v.clone()), None => None },
        }
    }
}

/// What became of setting a policy. A replayed answer is a JSON document.
#[derive(Debug)]
pub enum SetCardPolicyPersistenceOutcome {
    Applied(Box<SetCardPolicyResult>),
    Replayed(String),
    RangeNotFound,
    ContractInvalid(String),
    DraftFrozen,
    IdempotencyConflict,
    IdempotencyInProgress,
    IdempotencyInvalidState,
}

/// What became of a receipt for a policy.
#[derive(Debug)]
pub enum PolicyReceiptPersistenceOutcome {
    Activated(Box<CardPolicyProfile>),
    Replayed,
    Mismatch,
}

/// What the policy of a range depends on.
#[derive(Debug)]
pub struct LockedRangePolicyContext {
    pub funding_mode: FundingMode,
    pub authority: WithdrawalLimitAuthority,
    pub limit_calendar: Option<LimitCalendar>,
    pub active_provider_count: i64,
}

/// What a stored record means for setting a policy.
pub open spec fn policy_verdict(verdict: IdempotencyVerdict) -> SetCardPolicyPersistenceOutcome {
    match verdict {
        IdempotencyVerdict::Conflict => SetCardPolicyPersistenceOutcome::IdempotencyConflict,
        IdempotencyVerdict::Replay(snapshot) => SetCardPolicyPersistenceOutcome::Replayed(snapshot),
        IdempotencyVerdict::InProgress => SetCardPolicyPersistenceOutcome::IdempotencyInProgress,
        IdempotencyVerdict::InvalidState => {
            SetCardPolicyPersistenceOutcome::IdempotencyInvalidState
        },
    }
}

/// What a stored record means for setting a policy with this request hash.
pub fn classify_idempotency(
    existing: &IdempotencyRecord,
    request_hash: &String,
) -> (r: SetCardPolicyPersistenceOutcome)
    ensures
        r == policy_verdict(idempotency::idempotency_verdict(*existing, *request_hash)),
{
    match idempotency::judge_idempotency(existing, request_hash) {
        IdempotencyVerdict::Conflict => SetCardPolicyPersistenceOutcome::IdempotencyConflict,
        IdempotencyVerdict::Replay(snapshot) => SetCardPolicyPersistenceOutcome::Replayed(snapshot),
        IdempotencyVerdict::InProgress => SetCardPolicyPersistenceOutcome::IdempotencyInProgress,
        IdempotencyVerdict::InvalidState => {
            SetCardPolicyPersistenceOutcome::IdempotencyInvalidState
        },
    }
}

/// The policy that a row holds.
#[verifier::opaque]
pub open spec fn map_policy_row_spec(
    st: RunView,
    row: Row,
) -> (Result<CardPolicyProfile, HaltView>, RunView) {
    match row.raw_at(0, READ_ROW@) { Err(h) => (Err(h), st), Ok(policy_raw) =>
    match row.raw_at(1, READ_ROW@) { Err(h) => (Err(h), st), Ok(range_raw) =>
    match row.text_at(2, READ_ROW@) { Err(h) => (Err(h), st), Ok(terms) =>
    match row.text_at(3, READ_ROW@) { Err(h) => (Err(h), st), Ok(status_text) =>
    match row.opt_raw_at(5, READ_ROW@) { Err(h) => (Err(h), st), Ok(superseded_raw) =>
    match row.opt_raw_at(6, READ_ROW@) { Err(h) => (Err(h), st), Ok(publication_raw) =>
    match row.opt_text_at(10, READ_ROW@) { Err(h) => (Err(h), st), Ok(activated_text) =>
    match row.opt_text_at(11, READ_ROW@) { Err(h) => (Err(h), st), Ok(superseded_text) =>
    match row.text_at(12, READ_ROW@) { Err(h) => (Err(h), st), Ok(created_text) =>
    match row.text_at(13, READ_ROW@) { Err(h) => (Err(h), st), Ok(updated_text) =>
    match script::id_of(policy_raw@) { Err(h) => (Err(h), st), Ok(card_policy_profile_id) =>
    match script::id_of(range_raw@) { Err(h) => (Err(h), st), Ok(card_range_id) =>
    match script::verdict_spec(
        st,
        Rule::Document(DocumentKind::CardPolicyTerms, terms),
    ) { (Err(h), st) => (Err(h), st), (Ok(fault), st) =>
    if let Some(cause) = fault {
        (script::failed("invalid policy JSON in Oracle"@, cause@), st)
    } else {
    match CardPolicyStatus::of_code(status_text@) {
    None => {
        (script::query_fault("unknown card policy status"@), st)
    },
    Some(status) =>
    match row.int_at(4, READ_ROW@) { Err(h) => (Err(h), st), Ok(version) =>
    match script::opt_id_of(
        superseded_raw,
    ) { Err(h) => (Err(h), st), Ok(superseded_by_profile_id) =>
    match script::opt_id_of(
        publication_raw,
    ) { Err(h) => (Err(h), st), Ok(publication_operation_id) =>
    match row.text_at(7, READ_ROW@) { Err(h) => (Err(h), st), Ok(created_by_subject) =>
    match row.text_at(8, READ_ROW@) { Err(h) => (Err(h), st), Ok(updated_by_subject) =>
    match row.text_at(9, READ_ROW@) { Err(h) => (Err(h), st), Ok(change_reason) =>
    match script::opt_time_of(
        activated_text,
        "invalid policy UTC timestamp"@,
    ) { Err(h) => (Err(h), st), Ok(activated_at) =>
    match script::opt_time_of(
        superseded_text,
        "invalid policy UTC timestamp"@,
    ) { Err(h) => (Err(h), st), Ok(superseded_at) =>
    match script::time_of(
        created_text@,
        "invalid policy UTC timestamp"@,
    ) { Err(h) => (Err(h), st), Ok(created_at) =>
    match script::time_of(
        updated_text@,
        "invalid policy UTC timestamp"@,
    ) { Err(h) => (Err(h), st), Ok(updated_at) =>
    (
        Ok(CardPolicyProfile {
            card_policy_profile_id,
            card_range_id,
            terms,
            status,
            version,
            superseded_by_profile_id,
            publication_operation_id,
            created_by_subject,
            updated_by_subject,
            change_reason,
            activated_at,
            superseded_at,
            created_at,
            updated_at,
        }),
        st,
    )
    }}}}}}}}}}}}}}}}}}}}}}}}}
}

/// The policy that a row holds.
pub fn map_policy_row(s: &mut Session, row: &Row) -> (r: Result<CardPolicyProfile, Halt>)
    ensures
        (script::seen(r), final(s)@) == map_policy_row_spec(old(s)@, *row),
{
    proof {
        reveal(map_policy_row_spec);
    }
    let policy_raw = row.raw(0, READ_ROW)?;
    let range_raw = row.raw(1, READ_ROW)?;
    let terms = row.text(2, READ_ROW)?;
    let status_text = row.text(3, READ_ROW)?;
    let superseded_raw = row.opt_raw(5, READ_ROW)?;
    let publication_raw = row.opt_raw(6, READ_ROW)?;
    let activated_text = row.opt_text(10, READ_ROW)?;
    let superseded_text = row.opt_text(11, READ_ROW)?;
    let created_text = row.text(12, READ_ROW)?;
    let updated_text = row.text(13, READ_ROW)?;
    let card_policy_profile_id = script::to_id(policy_raw)?;
    let card_range_id = script::to_id(range_raw)?;
    let fault = script::verdict(s, Rule::Document(DocumentKind::CardPolicyTerms, terms.clone()))?;
    if let Some(cause) = &fault {
        return Err(script::fail_because("invalid policy JSON in Oracle", cause.as_str()));
    }
    let status = match CardPolicyStatus::from_db_value(status_text.as_str()) {
        Some(v) => v,
        None => {
            return Err(script::fail_query("unknown card policy status"));
        },
    };
    let version: i64 = row.number(4, READ_ROW)?;
    let superseded_by_profile_id = script::to_opt_id(superseded_raw)?;
    let publication_operation_id = script::to_opt_id(publication_raw)?;
    let created_by_subject = row.text(7, READ_ROW)?;
    let updated_by_subject = row.text(8, READ_ROW)?;
    let change_reason = row.text(9, READ_ROW)?;
    let activated_at = script::to_opt_time(&activated_text, "invalid policy UTC timestamp")?;
    let superseded_at = script::to_opt_time(&superseded_text, "invalid policy UTC timestamp")?;
    let created_at = script::to_time(created_text.as_str(), "invalid policy UTC timestamp")?;
    let updated_at = script::to_time(updated_text.as_str(), "invalid policy UTC timestamp")?;
    Ok(CardPolicyProfile {
        card_policy_profile_id,
        card_range_id,
        terms,
        status,
        version,
        superseded_by_profile_id,
        publication_operation_id,
        created_by_subject,
        updated_by_subject,
        change_reason,
        activated_at,
        superseded_at,
        created_at,
        updated_at,
    })
}

/// Reading a row changes nothing.
pub broadcast proof fn map_policy_row_changes_nothing(st: RunView, row: Row)
    ensures
        script::writes((#[trigger] map_policy_row_spec(st, row)).1.log) == script::writes(st.log),
        forall|sql: Seq<char>| #[trigger]
            script::runs(map_policy_row_spec(st, row).1.log, sql) == script::runs(st.log, sql),
        forall|spared: Set<Seq<char>>| #[trigger]
            script::writes_beside(
                map_policy_row_spec(st, row).1.log,
                spared,
            ) == script::writes_beside(st.log, spared),
        forall|sql: Seq<char>, binds: Seq<Bind>| #[trigger]
            script::runs_on(map_policy_row_spec(st, row).1.log, sql, binds) == script::runs_on(
                st.log,
                sql,
                binds,
            ),
        forall|sql: Seq<char>| #[trigger]
            script::told(map_policy_row_spec(st, row).1.log, sql) == script::told(st.log, sql),
        forall|sql: Seq<char>, such: spec_fn(Seq<Bind>) -> bool| #[trigger]
            script::told_where(map_policy_row_spec(st, row).1.log, sql, such) == script::told_where(
                st.log,
                sql,
                such,
            ),
        forall|sql: Seq<char>, id: Uuid| #[trigger]
            script::stored_under(map_policy_row_spec(st, row).1.log, sql, id) == script::stored_under(
                st.log,
                sql,
                id,
            ),
{
    broadcast use {
        script::writes_with_another,
        script::runs_with_another,
        script::runs_on_with_another,
        script::told_with_another,
        script::told_where_with_another,
        script::stored_under_with_another,
        script::writes_beside_with_another,
    };

    reveal(map_policy_row_spec);
}

/// Reads a policy, where there is one.
pub open spec fn fetch_optional_policy_spec(
    st: RunView,
    policy_id: Uuid,
) -> (Result<Option<CardPolicyProfile>, HaltView>, RunView) {
    match script::first_row_spec(
        st,
        policy_select_sql_text(),
        seq![Bind::Id(policy_id)],
        POLICY_COLUMNS,
        "failed to fetch card policy"@,
        "failed to read card policy"@,
    ) { (Err(h), st) => (Err(h), st), (Ok(found), st) =>
    match found {
    None => {
        (Ok(None), st)
    },
    Some(row) =>
    match map_policy_row_spec(st, row) { (Err(h), st) => (Err(h), st), (Ok(profile), st) =>
    (Ok(Some(profile)), st)
    }}}
}

/// Reads a policy, where there is one.
pub fn fetch_optional_policy(
    s: &mut Session,
    policy_id: Uuid,
) -> (r: Result<Option<CardPolicyProfile>, Halt>)
    ensures
        (script::seen(r), final(s)@) == fetch_optional_policy_spec(old(s)@, policy_id),
{
    let found = script::first_row(
        s,
        policy_select_sql().as_str(),
        binds::binds1(Bind::Id(policy_id)),
        POLICY_COLUMNS,
        "failed to fetch card policy",
        "failed to read card policy",
    )?;
    let row = match found {
        Some(v) => v,
        None => {
            return Ok(None);
        },
    };
    let profile = map_policy_row(s, row)?;
    Ok(Some(profile))
}

/// Reads the policy of a range that has a status, where there is one.
pub open spec fn fetch_policy_by_status_spec(
    st: RunView,
    card_range_id: Uuid,
    status: CardPolicyStatus,
) -> (Result<Option<CardPolicyProfile>, HaltView>, RunView) {
    match script::first_row_spec(
        st,
        policy_select_by_status_sql_text(),
        seq![Bind::Id(card_range_id), Bind::Label(status.code())],
        POLICY_COLUMNS,
        "failed to fetch policy by status"@,
        "failed to read policy status row"@,
    ) { (Err(h), st) => (Err(h), st), (Ok(found), st) =>
    match found {
    None => {
        (Ok(None), st)
    },
    Some(row) =>
    match map_policy_row_spec(st, row) { (Err(h), st) => (Err(h), st), (Ok(profile), st) =>
    (Ok(Some(profile)), st)
    }}}
}

/// Reads the policy of a range that has a status, where there is one.
pub fn fetch_policy_by_status(
    s: &mut Session,
    card_range_id: Uuid,
    status: CardPolicyStatus,
) -> (r: Result<Option<CardPolicyProfile>, Halt>)
    ensures
        (script::seen(r), final(s)@) == fetch_policy_by_status_spec(old(s)@, card_range_id, status),
{
    let found = script::first_row(
        s,
        policy_select_by_status_sql().as_str(),
        binds::binds2(Bind::Id(card_range_id), Bind::Label(status.as_db_value())),
        POLICY_COLUMNS,
        "failed to fetch policy by status",
        "failed to read policy status row",
    )?;
    let row = match found {
        Some(v) => v,
        None => {
            return Ok(None);
        },
    };
    let profile = map_policy_row(s, row)?;
    Ok(Some(profile))
}

/// Locks and reads the draft that an operation publishes, where there is one.
pub open spec fn fetch_policy_by_operation_for_update_spec(
    st: RunView,
    operation_id: Uuid,
) -> (Result<Option<CardPolicyProfile>, HaltView>, RunView) {
    match script::first_row_spec(
        st,
        policy_pending_sql_text(),
        seq![Bind::Id(operation_id)],
        POLICY_COLUMNS,
        "failed to lock pending policy"@,
        "failed to read pending policy"@,
    ) { (Err(h), st) => (Err(h), st), (Ok(found), st) =>
    match found {
    None => {
        (Ok(None), st)
    },
    Some(row) =>
    match map_policy_row_spec(st, row) { (Err(h), st) => (Err(h), st), (Ok(profile), st) =>
    (Ok(Some(profile)), st)
    }}}
}

/// Locks and reads the draft that an operation publishes, where there is one.
pub fn fetch_policy_by_operation_for_update(
    s: &mut Session,
    operation_id: Uuid,
) -> (r: Result<Option<CardPolicyProfile>, Halt>)
    ensures
        (script::seen(r), final(s)@) == fetch_policy_by_operation_for_update_spec(
            old(s)@,
            operation_id,
        ),
{
    let found = script::first_row(
        s,
        policy_pending_sql().as_str(),
        binds::binds1(Bind::Id(operation_id)),
        POLICY_COLUMNS,
        "failed to lock pending policy",
        "failed to read pending policy",
    )?;
    let row = match found {
        Some(v) => v,
        None => {
            return Ok(None);
        },
    };
    let profile = map_policy_row(s, row)?;
    Ok(Some(profile))
}

/// Reads a policy that was stored.
pub open spec fn fetch_policy_spec(
    st: RunView,
    policy_id: Uuid,
) -> (Result<CardPolicyProfile, HaltView>, RunView) {
    match fetch_optional_policy_spec(
        st,
        policy_id,
    ) { (Err(h), st) => (Err(h), st), (Ok(found), st) =>
    match found {
    None => {
        (script::query_fault("card policy was not visible after persistence"@), st)
    },
    Some(profile) =>
    (Ok(profile), st)
    }}
}

/// Reads a policy that was stored.
pub fn fetch_policy(s: &mut Session, policy_id: Uuid) -> (r: Result<CardPolicyProfile, Halt>)
    ensures
        (script::seen(r), final(s)@) == fetch_policy_spec(old(s)@, policy_id),
{
    let found = fetch_optional_policy(s, policy_id)?;
    let profile = match found {
        Some(v) => v,
        None => {
            return Err(script::fail_query("card policy was not visible after persistence"));
        },
    };
    Ok(profile)
}

/// Locks a range and reads what its policy depends on, where there is such a range.
pub open spec fn lock_range_policy_context_spec(
    st: RunView,
    card_range_id: Uuid,
) -> (Result<Option<LockedRangePolicyContext>, HaltView>, RunView) {
    match script::first_row_spec(
        st,
        POLICY_RANGE_LOCK_SQL@,
        seq![Bind::Id(card_range_id)],
        "ttTi",
        "failed to lock policy card range"@,
        "failed to read locked policy card range"@,
    ) { (Err(h), st) => (Err(h), st), (Ok(found), st) =>
    match found {
    None => {
        (Ok(None), st)
    },
    Some(row) =>
    match row.text_at(0, READ_ROW@) { Err(h) => (Err(h), st), Ok(mode_text) =>
    match row.text_at(1, READ_ROW@) { Err(h) => (Err(h), st), Ok(authority_text) =>
    match row.opt_text_at(2, READ_ROW@) { Err(h) => (Err(h), st), Ok(calendar_text) =>
    match FundingMode::of_code(mode_text@) {
    None => {
        (script::query_fault("unknown policy funding mode"@), st)
    },
    Some(funding_mode) =>
    match WithdrawalLimitAuthority::of_code(authority_text@) {
    None => {
        (script::query_fault("unknown policy authority"@), st)
    },
    Some(authority) =>
    match card_range::opt_calendar_of(calendar_text) { Err(h) => (Err(h), st), Ok(limit_calendar) =>
    match row.int_at(3, READ_ROW@) { Err(h) => (Err(h), st), Ok(active_provider_count) =>
    (
        Ok(Some(LockedRangePolicyContext {
            funding_mode,
            authority,
            limit_calendar,
            active_provider_count,
        })),
        st,
    )
    }}}}}}}}}
}

/// Locks a range and reads what its policy depends on, where there is such a range.
pub fn lock_range_policy_context(
    s: &mut Session,
    card_range_id: Uuid,
) -> (r: Result<Option<LockedRangePolicyContext>, Halt>)
    ensures
        (script::seen(r), final(s)@) == lock_range_policy_context_spec(old(s)@, card_range_id),
{
    let found = script::first_row(
        s,
        POLICY_RANGE_LOCK_SQL,
        binds::binds1(Bind::Id(card_range_id)),
        "ttTi",
        "failed to lock policy card range",
        "failed to read locked policy card range",
    )?;
    let row = match found {
        Some(v) => v,
        None => {
            return Ok(None);
        },
    };
    let mode_text = row.text(0, READ_ROW)?;
    let authority_text = row.text(1, READ_ROW)?;
    let calendar_text = row.opt_text(2, READ_ROW)?;
    let funding_mode = match FundingMode::from_db_value(mode_text.as_str()) {
        Some(v) => v,
        None => {
            return Err(script::fail_query("unknown policy funding mode"));
        },
    };
    let authority = match WithdrawalLimitAuthority::from_db_value(authority_text.as_str()) {
        Some(v) => v,
        None => {
            return Err(script::fail_query("unknown policy authority"));
        },
    };
    let limit_calendar = card_range::optional_calendar(&calendar_text)?;
    let active_provider_count: i64 = row.number(3, READ_ROW)?;
    Ok(Some(LockedRangePolicyContext {
        funding_mode,
        authority,
        limit_calendar,
        active_provider_count,
    }))
}

/// The version that the next policy of a range gets.
pub open spec fn next_policy_version_spec(
    st: RunView,
    card_range_id: Uuid,
) -> (Result<i64, HaltView>, RunView) {
    script::one_int_spec(
        st,
        POLICY_NEXT_VERSION_SQL@,
        seq![Bind::Id(card_range_id)],
        "failed to allocate policy version"@,
    )
}

/// The version that the next policy of a range gets.
pub fn next_policy_version(s: &mut Session, card_range_id: Uuid) -> (r: Result<i64, Halt>)
    ensures
        (script::seen(r), final(s)@) == next_policy_version_spec(old(s)@, card_range_id),
{
    script::one_int(
        s,
        POLICY_NEXT_VERSION_SQL,
        binds::binds1(Bind::Id(card_range_id)),
        "failed to allocate policy version",
    )
}

/// Stores a draft.
pub open spec fn insert_draft_policy_spec(
    st: RunView,
    policy_id: Uuid,
    card_range_id: Uuid,
    terms: String,
    version: i64,
    operation_id: Option<Uuid>,
    actor: String,
    reason: String,
) -> (Result<(), HaltView>, RunView) {
    match script::execute_spec(
        st,
        POLICY_INSERT_SQL@,
        seq![
            Bind::Id(policy_id),
            Bind::Id(card_range_id),
            Bind::Text(terms),
            Bind::Label(CardPolicyStatus::Draft.code()),
            Bind::Int(version),
            Bind::OptId(operation_id),
            Bind::Text(actor),
            Bind::Text(actor),
            Bind::Trimmed(reason),
        ],
        "failed to insert draft policy"@,
    ) { (Err(h), st) => (Err(h), st), (Ok(_), st) =>
    (Ok(()), st)
    }
}

/// Stores a draft.
pub fn insert_draft_policy(
    s: &mut Session,
    policy_id: Uuid,
    card_range_id: Uuid,
    terms: &String,
    version: i64,
    operation_id: Option<Uuid>,
    actor: &String,
    reason: &String,
) -> (r: Result<(), Halt>)
    ensures
        (script::seen(r), final(s)@) == insert_draft_policy_spec(
            old(s)@,
            policy_id,
            card_range_id,
            *terms,
            version,
            operation_id,
            *actor,
            *reason,
        ),
{
    script::execute(
        s,
        POLICY_INSERT_SQL,
        binds::binds9(
            Bind::Id(policy_id),
            Bind::Id(card_range_id),
            Bind::Text(terms.clone()),
            Bind::Label(CardPolicyStatus::Draft.as_db_value()),
            Bind::Int(version),
            Bind::OptId(operation_id),
            Bind::Text(actor.clone()),
            Bind::Text(actor.clone()),
            Bind::Trimmed(reason.clone()),
        ),
        "failed to insert draft policy",
    )?;
    Ok(())
}

/// Changes a draft that is not being published.
pub open spec fn update_draft_policy_spec(
    st: RunView,
    policy_id: Uuid,
    terms: String,
    operation_id: Option<Uuid>,
    actor: String,
    reason: String,
) -> (Result<(), HaltView>, RunView) {
    match script::execute_count_spec(
        st,
        POLICY_UPDATE_DRAFT_SQL@,
        seq![
            Bind::Text(terms),
            Bind::OptId(operation_id),
            Bind::Text(actor),
            Bind::Trimmed(reason),
            Bind::Id(policy_id),
        ],
        "failed to update draft policy"@,
        "failed to read draft policy update count"@,
    ) { (Err(h), st) => (Err(h), st), (Ok(touched), st) =>
    if touched != 1 {
        (script::query_fault("draft policy changed before update completed"@), st)
    } else {
    (Ok(()), st)
    }}
}

/// Changes a draft that is not being published.
pub fn update_draft_policy(
    s: &mut Session,
    policy_id: Uuid,
    terms: &String,
    operation_id: Option<Uuid>,
    actor: &String,
    reason: &String,
) -> (r: Result<(), Halt>)
    ensures
        (script::seen(r), final(s)@) == update_draft_policy_spec(
            old(s)@,
            policy_id,
            *terms,
            operation_id,
            *actor,
            *reason,
        ),
{
    let touched = script::execute_count(
        s,
        POLICY_UPDATE_DRAFT_SQL,
        binds::binds5(
            Bind::Text(terms.clone()),
            Bind::OptId(operation_id),
            Bind::Text(actor.clone()),
            Bind::Trimmed(reason.clone()),
            Bind::Id(policy_id),
        ),
        "failed to update draft policy",
        "failed to read draft policy update count",
    )?;
    if touched != 1 {
        return Err(script::fail_query("draft policy changed before update completed"));
    }
    Ok(())
}

/// Stores the event that publishes a policy.
pub open spec fn insert_policy_outbox_spec(
    st: RunView,
    operation_id: Uuid,
    card_range_id: Uuid,
    policy_id: Uuid,
    version: i64,
    funding_mode: FundingMode,
    authority: WithdrawalLimitAuthority,
    limit_calendar: Option<LimitCalendar>,
    terms: String,
    headers_of: HeaderSource,
) -> (Result<(), HaltView>, RunView) {
    match script::fresh_id_spec(st) { (Err(h), st) => (Err(h), st), (Ok(event_id), st) =>
    { let calendar = limit_calendar;
    match script::consult_text_spec(
        st,
        Rule::WithdrawalLimits(terms),
    ) { (Err(h), st) => (Err(h), st), (Ok(limits), st) =>
    match script::consult_text_spec(
        st,
        Rule::CalendarDocument(calendar),
    ) { (Err(h), st) => (Err(h), st), (Ok(counted), st) =>
    { let keys = EventKeys {
        event_id,
        event_type: "CARD_POLICY_PROFILE_PUBLISH_REQUESTED",
        aggregate_type: "CARD_RANGE",
        aggregate_id: card_range_id,
        operation_id,
    };
    match script::encode_spec(
        st,
        Rule::EventEnvelope(
            keys,
            Document::PolicyPublication(
                card_range_id,
                policy_id,
                version,
                funding_mode,
                authority,
                limits,
                counted,
            ),
        ),
        "failed to serialize policy event"@,
    ) { (Err(h), st) => (Err(h), st), (Ok(payload), st) =>
    match script::encode_spec(
        st,
        Rule::EventHeaders(headers_of),
        "failed to serialize policy headers"@,
    ) { (Err(h), st) => (Err(h), st), (Ok(headers), st) =>
    match script::execute_spec(
        st,
        POLICY_OUTBOX_INSERT_SQL@,
        seq![
            Bind::Id(event_id),
            Bind::Id(operation_id),
            Bind::Label("CARD_POLICY_PROFILE_PUBLISH_REQUESTED"),
            Bind::Label("CARD_RANGE"),
            Bind::Id(card_range_id),
            Bind::IdText(card_range_id),
            Bind::Text(payload),
            Bind::Text(headers),
        ],
        "failed to insert policy outbox event"@,
    ) { (Err(h), st) => (Err(h), st), (Ok(_), st) =>
    (Ok(()), st)
    }}}}}}}}
}

/// Stores the event that publishes a policy.
pub fn insert_policy_outbox(
    s: &mut Session,
    operation_id: Uuid,
    card_range_id: Uuid,
    policy_id: Uuid,
    version: i64,
    funding_mode: FundingMode,
    authority: WithdrawalLimitAuthority,
    limit_calendar: &Option<LimitCalendar>,
    terms: &String,
    headers_of: &HeaderSource,
) -> (r: Result<(), Halt>)
    ensures
        (script::seen(r), final(s)@) == insert_policy_outbox_spec(
            old(s)@,
            operation_id,
            card_range_id,
            policy_id,
            version,
            funding_mode,
            authority,
            *limit_calendar,
            *terms,
            *headers_of,
        ),
{
    let event_id = script::fresh_id(s)?;
    let calendar = match limit_calendar { Some(c) => Some(c.clone()), None => None };
    let limits = script::consult_text(s, Rule::WithdrawalLimits(terms.clone()))?;
    let counted = script::consult_text(s, Rule::CalendarDocument(calendar))?;
    let keys = EventKeys {
        event_id,
        event_type: "CARD_POLICY_PROFILE_PUBLISH_REQUESTED",
        aggregate_type: "CARD_RANGE",
        aggregate_id: card_range_id,
        operation_id,
    };
    let payload = script::encode(
        s,
        Rule::EventEnvelope(
            keys,
            Document::PolicyPublication(
                card_range_id,
                policy_id,
                version,
                funding_mode,
                authority,
                limits.clone(),
                counted.clone(),
            ),
        ),
        "failed to serialize policy event",
    )?;
    let headers = script::encode(
        s,
        Rule::EventHeaders(headers_of.clone()),
        "failed to serialize policy headers",
    )?;
    script::execute(
        s,
        POLICY_OUTBOX_INSERT_SQL,
        binds::binds8(
            Bind::Id(event_id),
            Bind::Id(operation_id),
            Bind::Label("CARD_POLICY_PROFILE_PUBLISH_REQUESTED"),
            Bind::Label("CARD_RANGE"),
            Bind::Id(card_range_id),
            Bind::IdText(card_range_id),
            Bind::Text(payload.clone()),
            Bind::Text(headers.clone()),
        ),
        "failed to insert policy outbox event",
    )?;
    Ok(())
}

/// The draft of a range is being published, and cannot be changed.
pub open spec fn draft_is_frozen(draft: Option<CardPolicyProfile>) -> bool {
    match draft {
        Some(d) => d.publication_operation_id is Some,
        None => false,
    }
}

fn frozen(draft: &Option<CardPolicyProfile>) -> (r: bool)
    ensures
        r == draft_is_frozen(*draft),
{
    match draft {
        Some(d) => d.publication_operation_id.is_some(),
        None => false,
    }
}

/// What setting a policy comes to.
pub open spec fn disposition_of(had_draft: bool, published: bool) -> PolicyMutationDisposition {
    if published {
        PolicyMutationDisposition::PublicationPending
    } else if had_draft {
        PolicyMutationDisposition::Updated
    } else {
        PolicyMutationDisposition::Created
    }
}

fn disposition(had_draft: bool, published: bool) -> (r: PolicyMutationDisposition)
    ensures
        r == disposition_of(had_draft, published),
{
    if published {
        PolicyMutationDisposition::PublicationPending
    } else if had_draft {
        PolicyMutationDisposition::Updated
    } else {
        PolicyMutationDisposition::Created
    }
}

/// The identifier of the draft, or a new one.
pub open spec fn draft_identity_spec(
    st: RunView,
    draft: Option<CardPolicyProfile>,
) -> (Result<Uuid, HaltView>, RunView) {
    if let Some(existing) = draft {
        (Ok(existing.card_policy_profile_id), st)
    } else {
    script::fresh_id_spec(st)
    }
}

/// The identifier of the draft, or a new one.
pub fn draft_identity(s: &mut Session, draft: &Option<CardPolicyProfile>) -> (r: Result<Uuid, Halt>)
    ensures
        (script::seen(r), final(s)@) == draft_identity_spec(old(s)@, *draft),
{
    if let Some(existing) = draft {
        return Ok(existing.card_policy_profile_id);
    }
    script::fresh_id(s)
}

/// The version of the draft, or the next one of the range.
pub open spec fn draft_version_spec(
    st: RunView,
    draft: Option<CardPolicyProfile>,
    card_range_id: Uuid,
) -> (Result<i64, HaltView>, RunView) {
    match next_policy_version_spec(
        st,
        card_range_id,
    ) { (Err(h), st) => (Err(h), st), (Ok(next), st) =>
    if let Some(existing) = draft {
        (Ok(existing.version), st)
    } else {
    (Ok(next), st)
    }}
}

/// The version of the draft, or the next one of the range.
pub fn draft_version(
    s: &mut Session,
    draft: &Option<CardPolicyProfile>,
    card_range_id: Uuid,
) -> (r: Result<i64, Halt>)
    ensures
        (script::seen(r), final(s)@) == draft_version_spec(old(s)@, *draft, card_range_id),
{
    let next = next_policy_version(s, card_range_id)?;
    if let Some(existing) = draft {
        return Ok(existing.version);
    }
    Ok(next)
}

/// The operation that publishes a policy, where a provider is to be told.
pub open spec fn publication_spec(
    st: RunView,
    range: LockedRangePolicyContext,
) -> (Result<Option<Uuid>, HaltView>, RunView) {
    if range.active_provider_count > 0 {
        match script::fresh_id_spec(st) { (Err(h), st) => (Err(h), st), (Ok(id), st) =>
        (Ok(Some(id)), st)
        }
    } else {
    (Ok(None), st)
    }
}

/// The operation that publishes a policy, where a provider is to be told.
pub fn publication(
    s: &mut Session,
    range: &LockedRangePolicyContext,
) -> (r: Result<Option<Uuid>, Halt>)
    ensures
        (script::seen(r), final(s)@) == publication_spec(old(s)@, *range),
{
    if range.active_provider_count > 0 {
        let id = script::fresh_id(s)?;
        return Ok(Some(id));
    }
    Ok(None)
}

/// Stores the event that publishes a policy, where an operation asks for it.
pub open spec fn publish_policy_spec(
    st: RunView,
    operation_id: Option<Uuid>,
    card_range_id: Uuid,
    policy_id: Uuid,
    version: i64,
    range: LockedRangePolicyContext,
    terms: String,
    headers_of: HeaderSource,
) -> (Result<(), HaltView>, RunView) {
    match operation_id {
    None => {
        (Ok(()), st)
    },
    Some(id) =>
    insert_policy_outbox_spec(
        st,
        id,
        card_range_id,
        policy_id,
        version,
        range.funding_mode,
        range.authority,
        range.limit_calendar,
        terms,
        headers_of,
    )
    }
}

/// Stores the event that publishes a policy, where an operation asks for it.
pub fn publish_policy(
    s: &mut Session,
    operation_id: Option<Uuid>,
    card_range_id: Uuid,
    policy_id: Uuid,
    version: i64,
    range: &LockedRangePolicyContext,
    terms: &String,
    headers_of: &HeaderSource,
) -> (r: Result<(), Halt>)
    ensures
        (script::seen(r), final(s)@) == publish_policy_spec(
            old(s)@,
            operation_id,
            card_range_id,
            policy_id,
            version,
            *range,
            *terms,
            *headers_of,
        ),
{
    let id = match operation_id {
        Some(v) => v,
        None => {
            return Ok(());
        },
    };
    insert_policy_outbox(
        s,
        id,
        card_range_id,
        policy_id,
        version,
        range.funding_mode,
        range.authority,
        &range.limit_calendar,
        terms,
        headers_of,
    )
}

/// Changes the draft of a range, or stores one.
pub open spec fn store_draft_spec(
    st: RunView,
    draft: Option<CardPolicyProfile>,
    policy_id: Uuid,
    card_range_id: Uuid,
    desired: DesiredCardPolicy,
    version: i64,
    operation_id: Option<Uuid>,
    actor: String,
) -> (Result<CardPolicyProfile, HaltView>, RunView) {
    if draft is Some {
        match update_draft_policy_spec(
            st,
            policy_id,
            desired.terms,
            operation_id,
            actor,
            desired.reason,
        ) { (Err(h), st) => (Err(h), st), (Ok(_), st) =>
        fetch_policy_spec(st, policy_id)
        }
    } else {
    match insert_draft_policy_spec(
        st,
        policy_id,
        card_range_id,
        desired.terms,
        version,
        operation_id,
        actor,
        desired.reason,
    ) { (Err(h), st) => (Err(h), st), (Ok(_), st) =>
    fetch_policy_spec(st, policy_id)
    }}
}

/// Changes the draft of a range, or stores one.
pub fn store_draft(
    s: &mut Session,
    draft: &Option<CardPolicyProfile>,
    policy_id: Uuid,
    card_range_id: Uuid,
    desired: &DesiredCardPolicy,
    version: i64,
    operation_id: Option<Uuid>,
    actor: &String,
) -> (r: Result<CardPolicyProfile, Halt>)
    ensures
        (script::seen(r), final(s)@) == store_draft_spec(
            old(s)@,
            *draft,
            policy_id,
            card_range_id,
            *desired,
            version,
            operation_id,
            *actor,
        ),
{
    if draft.is_some() {
        update_draft_policy(s, policy_id, &desired.terms, operation_id, actor, &desired.reason)?;
        return fetch_policy(s, policy_id);
    }
    insert_draft_policy(
        s,
        policy_id,
        card_range_id,
        &desired.terms,
        version,
        operation_id,
        actor,
        &desired.reason,
    )?;
    fetch_policy(s, policy_id)
}

/// The snapshot of the draft that was there before.
pub open spec fn draft_snapshot_spec(
    st: RunView,
    draft: Option<CardPolicyProfile>,
) -> (Result<Option<Snapshot>, HaltView>, RunView) {
    match draft {
    None => {
        (Ok(None), st)
    },
    Some(existing) =>
    match script::consult_text_spec(
        st,
        Rule::CardPolicySnapshot(existing),
    ) { (Err(h), st) => (Err(h), st), (Ok(snapshot), st) =>
    (Ok(Some(Snapshot::Text(snapshot))), st)
    }}
}

/// The snapshot of the draft that was there before.
pub fn draft_snapshot(
    s: &mut Session,
    draft: &Option<CardPolicyProfile>,
) -> (r: Result<Option<Snapshot>, Halt>)
    ensures
        (script::seen(r), final(s)@) == draft_snapshot_spec(old(s)@, *draft),
{
    let existing = match draft {
        Some(v) => v,
        None => {
            return Ok(None);
        },
    };
    let snapshot = script::consult_text(s, Rule::CardPolicySnapshot(existing.clone()))?;
    Ok(Some(Snapshot::Text(snapshot)))
}

/// Stores a policy for a locked range, publishes it where a provider is to be told, audits it and
/// completes the command.
#[verifier::opaque]
pub open spec fn apply_policy_spec(
    st: RunView,
    context: MutationCommandContext,
    card_range_id: Uuid,
    desired: DesiredCardPolicy,
    range: LockedRangePolicyContext,
    draft: Option<CardPolicyProfile>,
) -> (Result<SetCardPolicyPersistenceOutcome, HaltView>, RunView) {
    match draft_identity_spec(st, draft) { (Err(h), st) => (Err(h), st), (Ok(policy_id), st) =>
    match draft_version_spec(
        st,
        draft,
        card_range_id,
    ) { (Err(h), st) => (Err(h), st), (Ok(version), st) =>
    match publication_spec(st, range) { (Err(h), st) => (Err(h), st), (Ok(operation_id), st) =>
    match publish_policy_spec(
        st,
        operation_id,
        card_range_id,
        policy_id,
        version,
        range,
        desired.terms,
        context.headers(),
    ) { (Err(h), st) => (Err(h), st), (Ok(_), st) =>
    match idempotency::insert_idempotency_record_spec(
        st,
        context.record,
    ) { (Err(h), st) => (Err(h), st), (Ok(_), st) =>
    match store_draft_spec(
        st,
        draft,
        policy_id,
        card_range_id,
        desired,
        version,
        operation_id,
        context.actor.subject,
    ) { (Err(h), st) => (Err(h), st), (Ok(profile), st) =>
    match draft_snapshot_spec(st, draft) { (Err(h), st) => (Err(h), st), (Ok(old_snapshot), st) =>
    { let result = SetCardPolicyResult {
        disposition: disposition_of(draft is Some, operation_id is Some),
        profile,
        operation_id,
        funding_mode: range.funding_mode,
        withdrawal_limit_authority: range.authority,
        limit_calendar: range.limit_calendar,
    };
    match script::encode_spec(
        st,
        Rule::CardPolicyResponse(result),
        "failed to serialize policy response"@,
    ) { (Err(h), st) => (Err(h), st), (Ok(response), st) =>
    match script::consult_text_spec(
        st,
        Rule::CardPolicySnapshot(result.profile),
    ) { (Err(h), st) => (Err(h), st), (Ok(new_snapshot), st) =>
    match audit::insert_audit_log_spec(
        st,
        "CARD_POLICY_PROFILE",
        policy_id,
        if draft is Some { AuditAction::Update } else { AuditAction::Insert },
        Bind::Trimmed(desired.reason),
        old_snapshot,
        Some(Snapshot::Text(new_snapshot)),
        audit::trusted_origin_spec(context.audit),
    ) { (Err(h), st) => (Err(h), st), (Ok(_), st) =>
    match idempotency::complete_idempotency_record_spec(
        st,
        context.operation_type,
        context.idempotency_key,
        "card_policy_profile",
        policy_id,
        Snapshot::Text(response),
    ) { (Err(h), st) => (Err(h), st), (Ok(_), st) =>
    (Ok(SetCardPolicyPersistenceOutcome::Applied(Box::new(result))), st)
    }}}}}}}}}}}}
}

/// Stores a policy for a locked range, publishes it where a provider is to be told, audits it and
/// completes the command.
pub fn apply_policy(
    s: &mut Session,
    context: &MutationCommandContext,
    card_range_id: Uuid,
    desired: &DesiredCardPolicy,
    range: LockedRangePolicyContext,
    draft: &Option<CardPolicyProfile>,
) -> (r: Result<SetCardPolicyPersistenceOutcome, Halt>)
    ensures
        (script::seen(r), final(s)@) == apply_policy_spec(
            old(s)@,
            *context,
            card_range_id,
            *desired,
            range,
            *draft,
        ),
{
    proof {
        reveal(apply_policy_spec);
    }
    let policy_id = draft_identity(s, draft)?;
    let version: i64 = draft_version(s, draft, card_range_id)?;
    let operation_id = publication(s, &range)?;
    publish_policy(
        s,
        operation_id,
        card_range_id,
        policy_id,
        version,
        &range,
        &desired.terms,
        &context.event_headers(),
    )?;
    idempotency::insert_idempotency_record(s, &context.record)?;
    let profile = store_draft(
        s,
        draft,
        policy_id,
        card_range_id,
        desired,
        version,
        operation_id,
        &context.actor.subject,
    )?;
    let old_snapshot = draft_snapshot(s, draft)?;
    let result = SetCardPolicyResult {
        disposition: disposition(draft.is_some(), operation_id.is_some()),
        profile,
        operation_id,
        funding_mode: range.funding_mode,
        withdrawal_limit_authority: range.authority,
        limit_calendar: range.limit_calendar,
    };
    let response = script::encode(
        s,
        Rule::CardPolicyResponse(result.clone()),
        "failed to serialize policy response",
    )?;
    let new_snapshot = script::consult_text(s, Rule::CardPolicySnapshot(result.profile.clone()))?;
    audit::insert_audit_log(
        s,
        "CARD_POLICY_PROFILE",
        policy_id,
        if draft.is_some() { AuditAction::Update } else { AuditAction::Insert },
        Bind::Trimmed(desired.reason.clone()),
        old_snapshot,
        Some(Snapshot::Text(new_snapshot)),
        audit::trusted_origin(&context.audit),
    )?;
    idempotency::complete_idempotency_record(
        s,
        &context.operation_type,
        &context.idempotency_key,
        "card_policy_profile",
        policy_id,
        Snapshot::Text(response),
    )?;
    Ok(SetCardPolicyPersistenceOutcome::Applied(Box::new(result)))
}

/// Sets the policy of a card range: the draft is changed or stored, and published where a provider
/// is to be told. Under one idempotency key this happens once.
pub open spec fn set_card_policy_atomic_spec(
    st: RunView,
    context: MutationCommandContext,
    card_range_id: Uuid,
    desired: DesiredCardPolicy,
) -> (Result<SetCardPolicyPersistenceOutcome, HaltView>, RunView) {
    match idempotency::fetch_idempotency_record_spec(
        st,
        context.operation_type,
        context.idempotency_key,
    ) { (Err(h), st) => (Err(h), st), (Ok(existing), st) =>
    if let Some(record) = existing {
        (Ok(policy_verdict(idempotency::idempotency_verdict(record, context.request_hash))), st)
    } else {
    match lock_range_policy_context_spec(
        st,
        card_range_id,
    ) { (Err(h), st) => (Err(h), st), (Ok(locked), st) =>
    match locked {
    None => {
        (Ok(SetCardPolicyPersistenceOutcome::RangeNotFound), st)
    },
    Some(range) =>
    match script::verdict_spec(
        st,
        Rule::CardPolicyContract(range.authority, desired),
    ) { (Err(h), st) => (Err(h), st), (Ok(objection), st) =>
    if let Some(reason) = objection {
        (Ok(SetCardPolicyPersistenceOutcome::ContractInvalid(reason)), st)
    } else {
    match idempotency::fetch_idempotency_record_spec(
        st,
        context.operation_type,
        context.idempotency_key,
    ) { (Err(h), st) => (Err(h), st), (Ok(recheck), st) =>
    if let Some(record) = recheck {
        (Ok(policy_verdict(idempotency::idempotency_verdict(record, context.request_hash))), st)
    } else {
    match fetch_policy_by_status_spec(
        st,
        card_range_id,
        CardPolicyStatus::Draft,
    ) { (Err(h), st) => (Err(h), st), (Ok(draft), st) =>
    if draft_is_frozen(draft) {
        (Ok(SetCardPolicyPersistenceOutcome::DraftFrozen), st)
    } else {
    apply_policy_spec(st, context, card_range_id, desired, range, draft)
    }}}}}}}}}}
}

impl OracleRepository {
    /// Sets the policy of a card range: the draft is changed or stored, and published where a
    /// provider is to be told. Under one idempotency key this happens once.
    pub fn set_card_policy_atomic(
        s: &mut Session,
        context: &MutationCommandContext,
        card_range_id: Uuid,
        desired: &DesiredCardPolicy,
    ) -> (r: Result<SetCardPolicyPersistenceOutcome, Halt>)
        ensures
            (script::seen(r), final(s)@) == set_card_policy_atomic_spec(
                old(s)@,
                *context,
                card_range_id,
                *desired,
            ),
    {
        let existing = idempotency::fetch_idempotency_record(
            s,
            &context.operation_type,
            &context.idempotency_key,
        )?;
        if let Some(record) = &existing {
            return Ok(classify_idempotency(record, &context.request_hash));
        }
        let locked = lock_range_policy_context(s, card_range_id)?;
        let range = match locked {
            Some(v) => v,
            None => {
                return Ok(SetCardPolicyPersistenceOutcome::RangeNotFound);
            },
        };
        let objection = script::verdict(
            s,
            Rule::CardPolicyContract(range.authority, desired.clone()),
        )?;
        if let Some(reason) = objection {
            return Ok(SetCardPolicyPersistenceOutcome::ContractInvalid(reason));
        }
        let recheck = idempotency::fetch_idempotency_record(
            s,
            &context.operation_type,
            &context.idempotency_key,
        )?;
        if let Some(record) = &recheck {
            return Ok(classify_idempotency(record, &context.request_hash));
        }
        let draft = fetch_policy_by_status(s, card_range_id, CardPolicyStatus::Draft)?;
        if frozen(&draft) {
            return Ok(SetCardPolicyPersistenceOutcome::DraftFrozen);
        }
        apply_policy(s, context, card_range_id, desired, range, &draft)
    }
}

/// What a command comes to when another one with its idempotency key won.
pub open spec fn set_card_policy_after_conflict_spec(
    st: RunView,
    context: MutationCommandContext,
) -> (Result<SetCardPolicyPersistenceOutcome, HaltView>, RunView) {
    match idempotency::fetch_idempotency_record_spec(
        st,
        context.operation_type,
        context.idempotency_key,
    ) { (Err(h), st) => (Err(h), st), (Ok(existing), st) =>
    if let Some(record) = existing {
        (Ok(policy_verdict(idempotency::idempotency_verdict(record, context.request_hash))), st)
    } else {
    (script::query_fault("concurrent policy idempotency winner was not visible"@), st)
    }}
}

impl OracleRepository {
    /// What a command comes to when another one with its idempotency key won.
    pub fn set_card_policy_after_conflict(
        s: &mut Session,
        context: &MutationCommandContext,
    ) -> (r: Result<SetCardPolicyPersistenceOutcome, Halt>)
        ensures
            (script::seen(r), final(s)@) == set_card_policy_after_conflict_spec(old(s)@, *context),
    {
        let existing = idempotency::fetch_idempotency_record(
            s,
            &context.operation_type,
            &context.idempotency_key,
        )?;
        if let Some(record) = &existing {
            return Ok(classify_idempotency(record, &context.request_hash));
        }
        Err(script::fail_query("concurrent policy idempotency winner was not visible"))
    }
}

/// The policy of a range that is in force. A draft is not, before its receipt.
pub open spec fn get_current_card_policy_spec(
    st: RunView,
    card_range_id: Uuid,
) -> (Result<Option<CardPolicyProfile>, HaltView>, RunView) {
    fetch_policy_by_status_spec(st, card_range_id, CardPolicyStatus::Active)
}

impl OracleRepository {
    /// The policy of a range that is in force. A draft is not, before its receipt.
    pub fn get_current_card_policy(
        s: &mut Session,
        card_range_id: Uuid,
    ) -> (r: Result<Option<CardPolicyProfile>, Halt>)
        ensures
            (script::seen(r), final(s)@) == get_current_card_policy_spec(old(s)@, card_range_id),
    {
        fetch_policy_by_status(s, card_range_id, CardPolicyStatus::Active)
    }
}

/// A policy of a range.
pub open spec fn get_card_policy_spec(
    st: RunView,
    card_range_id: Uuid,
    policy_id: Uuid,
) -> (Result<Option<CardPolicyProfile>, HaltView>, RunView) {
    match fetch_optional_policy_spec(
        st,
        policy_id,
    ) { (Err(h), st) => (Err(h), st), (Ok(found), st) =>
    match found {
    None => {
        (Ok(None), st)
    },
    Some(policy) =>
    if policy.card_range_id == card_range_id {
        (Ok(Some(policy)), st)
    } else {
    (Ok(None), st)
    }}}
}

impl OracleRepository {
    /// A policy of a range.
    pub fn get_card_policy(
        s: &mut Session,
        card_range_id: Uuid,
        policy_id: Uuid,
    ) -> (r: Result<Option<CardPolicyProfile>, Halt>)
        ensures
            (script::seen(r), final(s)@) == get_card_policy_spec(old(s)@, card_range_id, policy_id),
    {
        let found = fetch_optional_policy(s, policy_id)?;
        let policy = match found {
            Some(v) => v,
            None => {
                return Ok(None);
            },
        };
        if policy.card_range_id == card_range_id {
            return Ok(Some(policy));
        }
        Ok(None)
    }
}

/// The policies that rows hold, in order.
pub open spec fn map_policy_rows_spec(
    st: RunView,
    rows: Seq<Row>,
    i: nat,
    done: Seq<CardPolicyProfile>,
) -> (Result<Seq<CardPolicyProfile>, HaltView>, RunView)
    decreases rows.len() - i,
{
    if i >= rows.len() {
        (Ok(done), st)
    } else {
        match map_policy_row_spec(st, rows[i as int]) {
            (Err(h), st) => (Err(h), st), (Ok(item), st) => map_policy_rows_spec(
                st,
                rows,
                i + 1,
                done.push(item),
            )
        }
    }
}

/// The policies that rows hold, in order.
pub fn map_policy_rows(
    s: &mut Session,
    rows: &Vec<Row>,
) -> (r: Result<Vec<CardPolicyProfile>, Halt>)
    ensures
        (script::seen_view(r), final(s)@) == map_policy_rows_spec(old(s)@, rows@, 0, Seq::empty()),
{
    let mut done: Vec<CardPolicyProfile> = Vec::new();
    let mut i: usize = 0;
    assert(done@ =~= Seq::empty());
    while i < rows.len()
        invariant
            i <= rows@.len(),
            map_policy_rows_spec(old(s)@, rows@, 0, Seq::empty()) == map_policy_rows_spec(
                s@,
                rows@,
                i as nat,
                done@,
            ),
        decreases rows@.len() - i,
    {
        let item = map_policy_row(s, &rows[i])?;
        done.push(item);
        i = i + 1;
    }
    Ok(done)
}

/// Each is taken in its turn, after those before it, and the first that fails ends the run.
pub proof fn map_policy_rows_go_in_turn(
    st: RunView,
    rows: Seq<Row>,
    i: nat,
    done: Seq<CardPolicyProfile>,
)
    ensures
        ({
            let whole = map_policy_rows_spec(st, rows, i, done);
            let (next, at) = map_policy_row_spec(st, rows[i as int]);
            &&& i >= rows.len() ==> whole == (Ok::<_, HaltView>(done), st)
            &&& i < rows.len() ==> match next {
                Ok(item) => whole == map_policy_rows_spec(at, rows, i + 1, done.push(item)),
                Err(halt) => whole.0 == Err::<Seq<CardPolicyProfile>, _>(halt) && whole.1 == at,
            }
        }),
{
}

/// The policies of a range below a version, newest first.
pub open spec fn list_card_policies_spec(
    st: RunView,
    card_range_id: Uuid,
    before_version: Option<i64>,
    limit: u16,
) -> (Result<Seq<CardPolicyProfile>, HaltView>, RunView) {
    match script::rows_spec(
        st,
        policy_list_sql_text(),
        seq![
            Bind::Id(card_range_id),
            Bind::OptInt(before_version),
            Bind::OptInt(before_version),
            Bind::Int(limit as i64),
        ],
        POLICY_COLUMNS,
        "failed to list card policies"@,
    ) { (Err(h), st) => (Err(h), st), (Ok(found), st) =>
    match map_policy_rows_spec(
        st,
        found.rows@,
        0,
        Seq::empty(),
    ) { (Err(h), st) => (Err(h), st), (Ok(items), st) =>
    if let Some(cause) = found.failure {
        (script::failed("failed to read card policy list row"@, cause@), st)
    } else {
    (Ok(items), st)
    }}}
}

impl OracleRepository {
    /// The policies of a range below a version, newest first.
    pub fn list_card_policies(
        s: &mut Session,
        card_range_id: Uuid,
        before_version: Option<i64>,
        limit: u16,
    ) -> (r: Result<Vec<CardPolicyProfile>, Halt>)
        ensures
            (script::seen_view(r), final(s)@) == list_card_policies_spec(
                old(s)@,
                card_range_id,
                before_version,
                limit,
            ),
    {
        let found = script::rows(
            s,
            policy_list_sql().as_str(),
            binds::binds4(
                Bind::Id(card_range_id),
                Bind::OptInt(before_version),
                Bind::OptInt(before_version),
                Bind::Int(limit as i64),
            ),
            POLICY_COLUMNS,
            "failed to list card policies",
        )?;
        let items = map_policy_rows(s, &found.rows)?;
        if let Some(cause) = &found.failure {
            return Err(script::fail_because("failed to read card policy list row", cause.as_str()));
        }
        Ok(items)
    }
}

/// What a receipt comes to, where it was stored or rejected before.
pub open spec fn classify_existing_receipt_spec(
    st: RunView,
    receipt: PolicyMaterializationReceipt,
) -> (Result<Option<PolicyReceiptPersistenceOutcome>, HaltView>, RunView) {
    match script::first_row_spec(
        st,
        POLICY_RECEIPT_REPLAY_SQL@,
        seq![
            Bind::Id(receipt.receipt_event_id),
            Bind::Id(receipt.operation_id),
            Bind::Int(receipt.materialized_version),
        ],
        "rrrrit",
        "failed to check policy receipt replay"@,
        "failed to read policy receipt replay"@,
    ) { (Err(h), st) => (Err(h), st), (Ok(found), st) =>
    if let Some(row) = found {
        match row.raw_at(0, READ_ROW@) { Err(h) => (Err(h), st), Ok(event_raw) =>
        match row.raw_at(1, READ_ROW@) { Err(h) => (Err(h), st), Ok(operation_raw) =>
        match row.raw_at(2, READ_ROW@) { Err(h) => (Err(h), st), Ok(aggregate_raw) =>
        match row.raw_at(3, READ_ROW@) { Err(h) => (Err(h), st), Ok(profile_raw) =>
        match row.int_at(4, READ_ROW@) { Err(h) => (Err(h), st), Ok(version) =>
        match row.text_at(5, READ_ROW@) { Err(h) => (Err(h), st), Ok(key) =>
        match script::id_of(event_raw@) { Err(h) => (Err(h), st), Ok(stored_event) =>
        if stored_event != receipt.receipt_event_id {
            (Ok(Some(PolicyReceiptPersistenceOutcome::Mismatch)), st)
        } else {
        match script::id_of(operation_raw@) { Err(h) => (Err(h), st), Ok(stored_operation) =>
        if stored_operation != receipt.operation_id {
            (Ok(Some(PolicyReceiptPersistenceOutcome::Mismatch)), st)
        } else {
        match script::id_of(aggregate_raw@) { Err(h) => (Err(h), st), Ok(stored_aggregate) =>
        if stored_aggregate != receipt.card_range_id {
            (Ok(Some(PolicyReceiptPersistenceOutcome::Mismatch)), st)
        } else {
        match script::id_of(profile_raw@) { Err(h) => (Err(h), st), Ok(stored_profile) =>
        if stored_profile != receipt.card_policy_profile_id {
            (Ok(Some(PolicyReceiptPersistenceOutcome::Mismatch)), st)
        } else {
        if version == receipt.materialized_version && key@ == receipt.runtime_key@ {
            (Ok(Some(PolicyReceiptPersistenceOutcome::Replayed)), st)
        } else {
        (Ok(Some(PolicyReceiptPersistenceOutcome::Mismatch)), st)
        }}}}}}}}}}}}}}}
    } else {
    match script::one_int_spec(
        st,
        POLICY_REJECTED_SQL@,
        seq![Bind::Id(receipt.receipt_event_id)],
        "failed to check rejected policy receipt"@,
    ) { (Err(h), st) => (Err(h), st), (Ok(rejected), st) =>
    if rejected > 0 {
        (Ok(Some(PolicyReceiptPersistenceOutcome::Mismatch)), st)
    } else {
    (Ok(None), st)
    }}}}
}

/// What a receipt comes to, where it was stored or rejected before.
pub fn classify_existing_receipt(
    s: &mut Session,
    receipt: &PolicyMaterializationReceipt,
) -> (r: Result<Option<PolicyReceiptPersistenceOutcome>, Halt>)
    ensures
        (script::seen(r), final(s)@) == classify_existing_receipt_spec(old(s)@, *receipt),
{
    let found = script::first_row(
        s,
        POLICY_RECEIPT_REPLAY_SQL,
        binds::binds3(
            Bind::Id(receipt.receipt_event_id),
            Bind::Id(receipt.operation_id),
            Bind::Int(receipt.materialized_version),
        ),
        "rrrrit",
        "failed to check policy receipt replay",
        "failed to read policy receipt replay",
    )?;
    if let Some(row) = found {
        let event_raw = row.raw(0, READ_ROW)?;
        let operation_raw = row.raw(1, READ_ROW)?;
        let aggregate_raw = row.raw(2, READ_ROW)?;
        let profile_raw = row.raw(3, READ_ROW)?;
        let version: i64 = row.number(4, READ_ROW)?;
        let key = row.text(5, READ_ROW)?;
        let stored_event = script::to_id(event_raw)?;
        if stored_event != receipt.receipt_event_id {
            return Ok(Some(PolicyReceiptPersistenceOutcome::Mismatch));
        }
        let stored_operation = script::to_id(operation_raw)?;
        if stored_operation != receipt.operation_id {
            return Ok(Some(PolicyReceiptPersistenceOutcome::Mismatch));
        }
        let stored_aggregate = script::to_id(aggregate_raw)?;
        if stored_aggregate != receipt.card_range_id {
            return Ok(Some(PolicyReceiptPersistenceOutcome::Mismatch));
        }
        let stored_profile = script::to_id(profile_raw)?;
        if stored_profile != receipt.card_policy_profile_id {
            return Ok(Some(PolicyReceiptPersistenceOutcome::Mismatch));
        }
        if version == receipt.materialized_version
            && text::same_text(key.as_str(), receipt.runtime_key.as_str()) {
            return Ok(Some(PolicyReceiptPersistenceOutcome::Replayed));
        }
        return Ok(Some(PolicyReceiptPersistenceOutcome::Mismatch));
    }
    let rejected = script::one_int(
        s,
        POLICY_REJECTED_SQL,
        binds::binds1(Bind::Id(receipt.receipt_event_id)),
        "failed to check rejected policy receipt",
    )?;
    if rejected > 0 {
        return Ok(Some(PolicyReceiptPersistenceOutcome::Mismatch));
    }
    Ok(None)
}

/// Stores the arrival of a receipt.
pub open spec fn insert_receipt_inbox_spec(
    st: RunView,
    receipt: PolicyMaterializationReceipt,
) -> (Result<(), HaltView>, RunView) {
    match script::encode_spec(
        st,
        Rule::PolicyReceipt(receipt),
        "failed to serialize policy receipt"@,
    ) { (Err(h), st) => (Err(h), st), (Ok(payload), st) =>
    match script::fresh_id_spec(st) { (Err(h), st) => (Err(h), st), (Ok(inbox_id), st) =>
    match script::execute_spec(
        st,
        POLICY_RECEIPT_INBOX_INSERT_SQL@,
        seq![
            Bind::Id(inbox_id),
            Bind::Label("WOLFSBURG"),
            Bind::Id(receipt.receipt_event_id),
            Bind::Label("RUNTIME_PROFILE_MATERIALIZED"),
            Bind::Label("CARD_RANGE"),
            Bind::Id(receipt.card_range_id),
            Bind::Text(payload),
        ],
        "failed to insert policy receipt inbox"@,
    ) { (Err(h), st) => (Err(h), st), (Ok(_), st) =>
    (Ok(()), st)
    }}}
}

/// Stores the arrival of a receipt.
pub fn insert_receipt_inbox(
    s: &mut Session,
    receipt: &PolicyMaterializationReceipt,
) -> (r: Result<(), Halt>)
    ensures
        (script::seen(r), final(s)@) == insert_receipt_inbox_spec(old(s)@, *receipt),
{
    let payload = script::encode(
        s,
        Rule::PolicyReceipt(receipt.clone()),
        "failed to serialize policy receipt",
    )?;
    let inbox_id = script::fresh_id(s)?;
    script::execute(
        s,
        POLICY_RECEIPT_INBOX_INSERT_SQL,
        binds::binds7(
            Bind::Id(inbox_id),
            Bind::Label("WOLFSBURG"),
            Bind::Id(receipt.receipt_event_id),
            Bind::Label("RUNTIME_PROFILE_MATERIALIZED"),
            Bind::Label("CARD_RANGE"),
            Bind::Id(receipt.card_range_id),
            Bind::Text(payload.clone()),
        ),
        "failed to insert policy receipt inbox",
    )?;
    Ok(())
}

/// The key under which the runtime holds the policy of a range, where its funding is known.
pub open spec fn runtime_key_of(mode: Seq<char>, card_range_id: Uuid) -> Option<Seq<char>> {
    match FundingMode::of_code(mode) {
        Some(FundingMode::SingleProvider) => Some(
            "CPOL:SingleProvider"@ + ":"@ + uuid::hyphenated_text(card_range_id),
        ),
        Some(FundingMode::MultiProvider) => Some(
            "CPOL:MultiProvider"@ + ":"@ + uuid::hyphenated_text(card_range_id),
        ),
        None => None,
    }
}

fn is_runtime_key(mode: &str, card_range_id: Uuid, key: &str) -> (r: bool)
    ensures
        r == (runtime_key_of(mode@, card_range_id) == Some(key@)),
{
    let prefix: &str = match FundingMode::from_db_value(mode) {
        Some(FundingMode::SingleProvider) => "CPOL:SingleProvider",
        Some(FundingMode::MultiProvider) => "CPOL:MultiProvider",
        None => {
            return false;
        },
    };
    let expected = text::joined3(prefix, ":", card_range_id.to_text().as_str());
    text::same_text(expected.as_str(), key)
}

/// How the range of a policy is funded, which decides its runtime key.
pub open spec fn expected_runtime_key_spec(
    st: RunView,
    card_range_id: Uuid,
) -> (Result<String, HaltView>, RunView) {
    script::one_text_spec(
        st,
        POLICY_FUNDING_MODE_SQL@,
        seq![Bind::Id(card_range_id)],
        "failed to resolve policy runtime key"@,
    )
}

/// How the range of a policy is funded, which decides its runtime key.
pub fn expected_runtime_key(s: &mut Session, card_range_id: Uuid) -> (r: Result<String, Halt>)
    ensures
        (script::seen(r), final(s)@) == expected_runtime_key_spec(old(s)@, card_range_id),
{
    script::one_text(
        s,
        POLICY_FUNDING_MODE_SQL,
        binds::binds1(Bind::Id(card_range_id)),
        "failed to resolve policy runtime key",
    )
}

/// Whether a receipt is for the draft that its operation publishes.
pub open spec fn receipt_matches_spec(
    st: RunView,
    pending: Option<CardPolicyProfile>,
    receipt: PolicyMaterializationReceipt,
) -> (Result<bool, HaltView>, RunView) {
    match pending {
    None => {
        (Ok(false), st)
    },
    Some(profile) =>
    match expected_runtime_key_spec(
        st,
        profile.card_range_id,
    ) { (Err(h), st) => (Err(h), st), (Ok(mode), st) =>
    (
        Ok(
            profile.card_range_id == receipt.card_range_id
                && profile.card_policy_profile_id == receipt.card_policy_profile_id
                && profile.version == receipt.materialized_version
                && runtime_key_of(mode@, profile.card_range_id) == Some(receipt.runtime_key@),
        ),
        st,
    )
    }}
}

/// Whether a receipt is for the draft that its operation publishes.
pub fn receipt_matches(
    s: &mut Session,
    pending: &Option<CardPolicyProfile>,
    receipt: &PolicyMaterializationReceipt,
) -> (r: Result<bool, Halt>)
    ensures
        (script::seen(r), final(s)@) == receipt_matches_spec(old(s)@, *pending, *receipt),
{
    let profile = match pending {
        Some(v) => v,
        None => {
            return Ok(false);
        },
    };
    let mode = expected_runtime_key(s, profile.card_range_id)?;
    Ok(
        profile.card_range_id == receipt.card_range_id
            && profile.card_policy_profile_id == receipt.card_policy_profile_id
            && profile.version == receipt.materialized_version
            && is_runtime_key(mode.as_str(), profile.card_range_id, receipt.runtime_key.as_str()),
    )
}

/// Marks a receipt as rejected.
pub open spec fn mark_receipt_inbox_failed_spec(
    st: RunView,
    receipt: PolicyMaterializationReceipt,
) -> (Result<(), HaltView>, RunView) {
    match script::execute_spec(
        st,
        POLICY_INBOX_FAILED_SQL@,
        seq![
            Bind::Json(Document::PolicyMismatch(
                receipt.operation_id,
                receipt.card_policy_profile_id,
                receipt.materialized_version,
            )),
            Bind::Id(receipt.receipt_event_id),
        ],
        "failed to reject policy receipt"@,
    ) { (Err(h), st) => (Err(h), st), (Ok(_), st) =>
    (Ok(()), st)
    }
}

/// Marks a receipt as rejected.
pub fn mark_receipt_inbox_failed(
    s: &mut Session,
    receipt: &PolicyMaterializationReceipt,
) -> (r: Result<(), Halt>)
    ensures
        (script::seen(r), final(s)@) == mark_receipt_inbox_failed_spec(old(s)@, *receipt),
{
    script::execute(
        s,
        POLICY_INBOX_FAILED_SQL,
        binds::binds2(
            Bind::Json(Document::PolicyMismatch(
                receipt.operation_id,
                receipt.card_policy_profile_id,
                receipt.materialized_version,
            )),
            Bind::Id(receipt.receipt_event_id),
        ),
        "failed to reject policy receipt",
    )?;
    Ok(())
}

/// Stores a receipt.
pub open spec fn insert_materialization_receipt_spec(
    st: RunView,
    receipt: PolicyMaterializationReceipt,
) -> (Result<(), HaltView>, RunView) {
    match script::fresh_id_spec(st) { (Err(h), st) => (Err(h), st), (Ok(receipt_id), st) =>
    match script::execute_spec(
        st,
        POLICY_RECEIPT_INSERT_SQL@,
        seq![
            Bind::Id(receipt_id),
            Bind::Id(receipt.receipt_event_id),
            Bind::Id(receipt.operation_id),
            Bind::Label("CPOL"),
            Bind::Id(receipt.card_range_id),
            Bind::Id(receipt.card_policy_profile_id),
            Bind::Int(receipt.materialized_version),
            Bind::Text(receipt.runtime_key),
            Bind::Time(receipt.materialized_at),
        ],
        "failed to persist policy receipt"@,
    ) { (Err(h), st) => (Err(h), st), (Ok(_), st) =>
    (Ok(()), st)
    }}
}

/// Stores a receipt.
pub fn insert_materialization_receipt(
    s: &mut Session,
    receipt: &PolicyMaterializationReceipt,
) -> (r: Result<(), Halt>)
    ensures
        (script::seen(r), final(s)@) == insert_materialization_receipt_spec(old(s)@, *receipt),
{
    let receipt_id = script::fresh_id(s)?;
    script::execute(
        s,
        POLICY_RECEIPT_INSERT_SQL,
        binds::binds9(
            Bind::Id(receipt_id),
            Bind::Id(receipt.receipt_event_id),
            Bind::Id(receipt.operation_id),
            Bind::Label("CPOL"),
            Bind::Id(receipt.card_range_id),
            Bind::Id(receipt.card_policy_profile_id),
            Bind::Int(receipt.materialized_version),
            Bind::Text(receipt.runtime_key.clone()),
            Bind::Time(receipt.materialized_at),
        ),
        "failed to persist policy receipt",
    )?;
    Ok(())
}

/// Supersedes the active policy of a range.
pub open spec fn supersede_active_policy_spec(
    st: RunView,
    card_range_id: Uuid,
    replacement_policy_id: Uuid,
) -> (Result<(), HaltView>, RunView) {
    match script::execute_spec(
        st,
        POLICY_SUPERSEDE_SQL@,
        seq![Bind::Id(replacement_policy_id), Bind::Id(card_range_id)],
        "failed to supersede active policy"@,
    ) { (Err(h), st) => (Err(h), st), (Ok(_), st) =>
    (Ok(()), st)
    }
}

/// Supersedes the active policy of a range.
pub fn supersede_active_policy(
    s: &mut Session,
    card_range_id: Uuid,
    replacement_policy_id: Uuid,
) -> (r: Result<(), Halt>)
    ensures
        (script::seen(r), final(s)@) == supersede_active_policy_spec(
            old(s)@,
            card_range_id,
            replacement_policy_id,
        ),
{
    script::execute(
        s,
        POLICY_SUPERSEDE_SQL,
        binds::binds2(Bind::Id(replacement_policy_id), Bind::Id(card_range_id)),
        "failed to supersede active policy",
    )?;
    Ok(())
}

/// Activates the draft that a receipt is for.
pub open spec fn activate_pending_policy_spec(
    st: RunView,
    receipt: PolicyMaterializationReceipt,
) -> (Result<(), HaltView>, RunView) {
    match script::execute_count_spec(
        st,
        POLICY_ACTIVATE_SQL@,
        seq![Bind::Id(receipt.card_policy_profile_id), Bind::Id(receipt.operation_id)],
        "failed to activate pending policy"@,
        "failed to read policy activation count"@,
    ) { (Err(h), st) => (Err(h), st), (Ok(touched), st) =>
    if touched != 1 {
        (script::query_fault("pending policy changed before receipt activation"@), st)
    } else {
    (Ok(()), st)
    }}
}

/// Activates the draft that a receipt is for.
pub fn activate_pending_policy(
    s: &mut Session,
    receipt: &PolicyMaterializationReceipt,
) -> (r: Result<(), Halt>)
    ensures
        (script::seen(r), final(s)@) == activate_pending_policy_spec(old(s)@, *receipt),
{
    let touched = script::execute_count(
        s,
        POLICY_ACTIVATE_SQL,
        binds::binds2(Bind::Id(receipt.card_policy_profile_id), Bind::Id(receipt.operation_id)),
        "failed to activate pending policy",
        "failed to read policy activation count",
    )?;
    if touched != 1 {
        return Err(script::fail_query("pending policy changed before receipt activation"));
    }
    Ok(())
}

/// Marks a receipt as processed.
pub open spec fn mark_receipt_inbox_processed_spec(
    st: RunView,
    receipt_event_id: Uuid,
) -> (Result<(), HaltView>, RunView) {
    match script::execute_spec(
        st,
        POLICY_INBOX_PROCESSED_SQL@,
        seq![Bind::Id(receipt_event_id)],
        "failed to complete policy receipt inbox"@,
    ) { (Err(h), st) => (Err(h), st), (Ok(_), st) =>
    (Ok(()), st)
    }
}

/// Marks a receipt as processed.
pub fn mark_receipt_inbox_processed(
    s: &mut Session,
    receipt_event_id: Uuid,
) -> (r: Result<(), Halt>)
    ensures
        (script::seen(r), final(s)@) == mark_receipt_inbox_processed_spec(
            old(s)@,
            receipt_event_id,
        ),
{
    script::execute(
        s,
        POLICY_INBOX_PROCESSED_SQL,
        binds::binds1(Bind::Id(receipt_event_id)),
        "failed to complete policy receipt inbox",
    )?;
    Ok(())
}

/// The identifier of a policy, where there is one.
pub open spec fn identity_of(profile: Option<CardPolicyProfile>) -> Option<Uuid> {
    match profile {
        Some(p) => Some(p.card_policy_profile_id),
        None => None,
    }
}

fn identity(profile: &Option<CardPolicyProfile>) -> (r: Option<Uuid>)
    ensures
        r == identity_of(*profile),
{
    match profile {
        Some(p) => Some(p.card_policy_profile_id),
        None => None,
    }
}

/// Switches a range to the draft that a receipt is for.
pub open spec fn activate_policy_spec(
    st: RunView,
    pending: CardPolicyProfile,
    receipt: PolicyMaterializationReceipt,
) -> (Result<PolicyReceiptPersistenceOutcome, HaltView>, RunView) {
    match fetch_policy_by_status_spec(
        st,
        receipt.card_range_id,
        CardPolicyStatus::Active,
    ) { (Err(h), st) => (Err(h), st), (Ok(previous), st) =>
    match insert_materialization_receipt_spec(
        st,
        receipt,
    ) { (Err(h), st) => (Err(h), st), (Ok(_), st) =>
    match supersede_active_policy_spec(
        st,
        receipt.card_range_id,
        receipt.card_policy_profile_id,
    ) { (Err(h), st) => (Err(h), st), (Ok(_), st) =>
    match activate_pending_policy_spec(st, receipt) { (Err(h), st) => (Err(h), st), (Ok(_), st) =>
    match mark_receipt_inbox_processed_spec(
        st,
        receipt.receipt_event_id,
    ) { (Err(h), st) => (Err(h), st), (Ok(_), st) =>
    match fetch_policy_spec(
        st,
        receipt.card_policy_profile_id,
    ) { (Err(h), st) => (Err(h), st), (Ok(activated), st) =>
    match script::consult_text_spec(
        st,
        Rule::CardPolicySnapshot(pending),
    ) { (Err(h), st) => (Err(h), st), (Ok(old_snapshot), st) =>
    match script::consult_text_spec(
        st,
        Rule::CardPolicySnapshot(activated),
    ) { (Err(h), st) => (Err(h), st), (Ok(active_snapshot), st) =>
    { let evidence = Document::PolicyActivation(
        active_snapshot,
        identity_of(previous),
        receipt.receipt_event_id,
        receipt.operation_id,
        receipt.materialized_version,
    );
    match audit::insert_audit_log_spec(
        st,
        "CARD_POLICY_PROFILE",
        receipt.card_policy_profile_id,
        AuditAction::StateTransition,
        Bind::Label("Wolfsburg confirmed CPOL materialization"),
        Some(Snapshot::Text(old_snapshot)),
        Some(Snapshot::Document(evidence)),
        audit::materializer_origin_spec(receipt.operation_id, receipt.receipt_event_id),
    ) { (Err(h), st) => (Err(h), st), (Ok(_), st) =>
    (Ok(PolicyReceiptPersistenceOutcome::Activated(Box::new(activated))), st)
    }}}}}}}}}}
}

/// Switches a range to the draft that a receipt is for.
pub fn activate_policy(
    s: &mut Session,
    pending: &CardPolicyProfile,
    receipt: &PolicyMaterializationReceipt,
) -> (r: Result<PolicyReceiptPersistenceOutcome, Halt>)
    ensures
        (script::seen(r), final(s)@) == activate_policy_spec(old(s)@, *pending, *receipt),
{
    let previous = fetch_policy_by_status(s, receipt.card_range_id, CardPolicyStatus::Active)?;
    insert_materialization_receipt(s, receipt)?;
    supersede_active_policy(s, receipt.card_range_id, receipt.card_policy_profile_id)?;
    activate_pending_policy(s, receipt)?;
    mark_receipt_inbox_processed(s, receipt.receipt_event_id)?;
    let activated = fetch_policy(s, receipt.card_policy_profile_id)?;
    let old_snapshot = script::consult_text(s, Rule::CardPolicySnapshot(pending.clone()))?;
    let active_snapshot = script::consult_text(s, Rule::CardPolicySnapshot(activated.clone()))?;
    let evidence = Document::PolicyActivation(
        active_snapshot.clone(),
        identity(&previous),
        receipt.receipt_event_id,
        receipt.operation_id,
        receipt.materialized_version,
    );
    audit::insert_audit_log(
        s,
        "CARD_POLICY_PROFILE",
        receipt.card_policy_profile_id,
        AuditAction::StateTransition,
        Bind::Label("Wolfsburg confirmed CPOL materialization"),
        Some(Snapshot::Text(old_snapshot)),
        Some(Snapshot::Document(evidence)),
        audit::materializer_origin(receipt.operation_id, receipt.receipt_event_id),
    )?;
    Ok(PolicyReceiptPersistenceOutcome::Activated(Box::new(activated)))
}

/// Stores a receipt and switches the range to the policy that it is for. A receipt that is for
/// nothing pending is kept as rejected, and no policy changes.
pub open spec fn apply_policy_materialization_receipt_spec(
    st: RunView,
    receipt: PolicyMaterializationReceipt,
) -> (Result<PolicyReceiptPersistenceOutcome, HaltView>, RunView) {
    match classify_existing_receipt_spec(
        st,
        receipt,
    ) { (Err(h), st) => (Err(h), st), (Ok(known), st) =>
    if let Some(outcome) = known {
        (Ok(outcome), st)
    } else {
    match insert_receipt_inbox_spec(st, receipt) { (Err(h), st) => (Err(h), st), (Ok(_), st) =>
    match fetch_policy_by_operation_for_update_spec(
        st,
        receipt.operation_id,
    ) { (Err(h), st) => (Err(h), st), (Ok(pending), st) =>
    match receipt_matches_spec(
        st,
        pending,
        receipt,
    ) { (Err(h), st) => (Err(h), st), (Ok(matches), st) =>
    if !matches {
        match mark_receipt_inbox_failed_spec(
            st,
            receipt,
        ) { (Err(h), st) => (Err(h), st), (Ok(_), st) =>
        (Ok(PolicyReceiptPersistenceOutcome::Mismatch), st)
        }
    } else {
    match pending {
    None => {
        (Ok(PolicyReceiptPersistenceOutcome::Mismatch), st)
    },
    Some(profile) =>
    activate_policy_spec(st, profile, receipt)
    }}}}}}}
}

impl OracleRepository {
    /// Stores a receipt and switches the range to the policy that it is for. A receipt that is for
    /// nothing pending is kept as rejected, and no policy changes.
    pub fn apply_policy_materialization_receipt(
        s: &mut Session,
        receipt: &PolicyMaterializationReceipt,
    ) -> (r: Result<PolicyReceiptPersistenceOutcome, Halt>)
        ensures
            (script::seen(r), final(s)@) == apply_policy_materialization_receipt_spec(
                old(s)@,
                *receipt,
            ),
    {
        let known = classify_existing_receipt(s, receipt)?;
        if let Some(outcome) = known {
            return Ok(outcome);
        }
        insert_receipt_inbox(s, receipt)?;
        let pending = fetch_policy_by_operation_for_update(s, receipt.operation_id)?;
        let matches = receipt_matches(s, &pending, receipt)?;
        if !matches {
            mark_receipt_inbox_failed(s, receipt)?;
            return Ok(PolicyReceiptPersistenceOutcome::Mismatch);
        }
        let profile = match &pending {
            Some(v) => v,
            None => {
                return Ok(PolicyReceiptPersistenceOutcome::Mismatch);
            },
        };
        activate_policy(s, profile, receipt)
    }
}

/// Under one idempotency key a policy is asked for once: where a record is stored, the command is
/// answered from it, and looking it up is all that is done.
pub proof fn policy_command_is_done_once(
    st: RunView,
    context: MutationCommandContext,
    card_range_id: Uuid,
    desired: DesiredCardPolicy,
    record: IdempotencyRecord,
)
    requires
        idempotency::fetch_idempotency_record_spec(
            st,
            context.operation_type,
            context.idempotency_key,
        ).0 == Ok::<Option<IdempotencyRecord>, HaltView>(Some(record)),
    ensures
        set_card_policy_atomic_spec(st, context, card_range_id, desired) == (
            Ok::<_, HaltView>(
                policy_verdict(idempotency::idempotency_verdict(record, context.request_hash)),
            ),
            idempotency::fetch_idempotency_record_spec(
                st,
                context.operation_type,
                context.idempotency_key,
            ).1,
        ),
        script::writes(
            set_card_policy_atomic_spec(st, context, card_range_id, desired).1.log,
        ) == script::writes(st.log),
{
    broadcast use script::writes_with_another;

}

/// What is carried out of a policy stores audit evidence and completes the command's record last.
#[verifier::rlimit(60)]
pub broadcast proof fn apply_policy_leaves_evidence(
    st: RunView,
    context: MutationCommandContext,
    card_range_id: Uuid,
    desired: DesiredCardPolicy,
    range: LockedRangePolicyContext,
    draft: Option<CardPolicyProfile>,
)
    ensures
        (
            #[trigger] apply_policy_spec(st, context, card_range_id, desired, range, draft)
        ).0 matches Ok(outcome) ==> {
            let log = apply_policy_spec(st, context, card_range_id, desired, range, draft).1.log;
            &&& outcome is Applied
            &&& script::runs(log, audit::AUDIT_INSERT_SQL@) > 0
            &&& script::is_run_of(log.last(), idempotency::IDEMPOTENCY_COMPLETE_SQL@)
        },
{
    broadcast use script::runs_with_another;

    reveal(apply_policy_spec);
}

/// Where a policy is refused, or answered from a record, nothing is changed.
#[verifier::rlimit(40)]
pub proof fn refused_policy_command_changes_nothing(
    st: RunView,
    context: MutationCommandContext,
    card_range_id: Uuid,
    desired: DesiredCardPolicy,
)
    ensures
        ({
            let (result, after) = set_card_policy_atomic_spec(st, context, card_range_id, desired);
            result matches Ok(outcome) ==> outcome is Applied || script::writes(after.log)
                == script::writes(st.log)
        }),
{
    broadcast use {
        script::writes_with_another,
        map_policy_row_changes_nothing,
        card_range::map_card_range_row_changes_nothing,
        apply_policy_leaves_evidence,
    };

}

/// Where a policy is carried out in a run of its own, audit evidence is stored within it, and the
/// command's record is completed last.
#[verifier::rlimit(40)]
pub proof fn policy_command_leaves_evidence(
    st: RunView,
    context: MutationCommandContext,
    card_range_id: Uuid,
    desired: DesiredCardPolicy,
)
    requires
        st.log.len() == 0,
    ensures
        ({
            let (result, after) = set_card_policy_atomic_spec(st, context, card_range_id, desired);
            result matches Ok(outcome) ==> outcome is Applied ==> script::runs(
                after.log,
                audit::AUDIT_INSERT_SQL@,
            ) > 0 && script::is_run_of(after.log.last(), idempotency::IDEMPOTENCY_COMPLETE_SQL@)
        }),
{
    broadcast use apply_policy_leaves_evidence;

}

/// A command that is recorded is answered by its record: under another request it conflicts; under
/// the same one it gets the answer that is stored, or is told that it is under way, or that the
/// record is not in order.
pub proof fn policy_verdict_goes_by_the_record(
    record: crate::domain::idempotency::IdempotencyRecord,
    request_hash: String,
)
    ensures
        ({
            let answered = policy_verdict(idempotency::idempotency_verdict(record, request_hash));
            let same = record.request_hash@ == request_hash@;
            &&& answered is IdempotencyConflict <==> !same
            &&& answered is IdempotencyInProgress <==> same && record.status is InProgress
            &&& answered matches SetCardPolicyPersistenceOutcome::Replayed(
                answer,
            ) ==> record.response_snapshot == Some(answer)
            &&& answered is Replayed <==> same && record.status is Completed
                && record.response_snapshot is Some
            &&& answered is IdempotencyInvalidState <==> same && !(record.status is InProgress)
                && !(
            record.status is Completed && record.response_snapshot is Some)
        }),
{
}

/// A receipt that was stored before changes nothing. One that is for nothing pending is kept as
/// rejected evidence: beside the inbox nothing is changed, so each policy stays as it is.
pub proof fn rejected_receipt_is_only_evidence(st: RunView, receipt: PolicyMaterializationReceipt)
    ensures
        ({
            let (result, after) = apply_policy_materialization_receipt_spec(st, receipt);
            let inbox = set![POLICY_RECEIPT_INBOX_INSERT_SQL@, POLICY_INBOX_FAILED_SQL@];
            &&& result matches Ok(outcome) ==> outcome is Replayed ==> script::writes(after.log)
                == script::writes(st.log)
            &&& result matches Ok(outcome) ==> outcome is Mismatch ==> script::writes_beside(
                after.log,
                inbox,
            ) == script::writes_beside(st.log, inbox)
        }),
{
    broadcast use {
        script::writes_with_another,
        script::writes_beside_with_another,
        map_policy_row_changes_nothing,
    };

}


/// The values that a receipt is stored with.
pub open spec fn receipt_values(receipt_id: Uuid, receipt: PolicyMaterializationReceipt) -> Seq<
    Bind,
> {
    seq![
        Bind::Id(receipt_id),
        Bind::Id(receipt.receipt_event_id),
        Bind::Id(receipt.operation_id),
        Bind::Label("CPOL"),
        Bind::Id(receipt.card_range_id),
        Bind::Id(receipt.card_policy_profile_id),
        Bind::Int(receipt.materialized_version),
        Bind::Text(receipt.runtime_key),
        Bind::Time(receipt.materialized_at),
    ]
}

/// A row under which receipts are looked up gives back a receipt as it was stored.
pub open spec fn is_stored_receipt(row: Row, stored: Seq<Bind>) -> bool {
    &&& row.cells@.len() == 6
    &&& crate::db::oracle::values::gives_back(row.cells@[0], stored[1])
    &&& crate::db::oracle::values::gives_back(row.cells@[1], stored[2])
    &&& crate::db::oracle::values::gives_back(row.cells@[2], stored[4])
    &&& crate::db::oracle::values::gives_back(row.cells@[3], stored[5])
    &&& crate::db::oracle::values::gives_back(row.cells@[4], stored[6])
    &&& crate::db::oracle::values::gives_back(row.cells@[5], stored[7])
}

/// A receipt whose own row is found is answered as replayed, and nothing is changed.
pub proof fn stored_receipt_is_replayed(
    st: RunView,
    receipt: PolicyMaterializationReceipt,
    receipt_id: Uuid,
    found: script::Rows,
)
    requires
        st.rest.len() > 0,
        st.rest[0] == script::Reply::Rows(found),
        found.rows@.len() > 0,
        is_stored_receipt(found.rows@[0], receipt_values(receipt_id, receipt)),
    ensures
        ({
            let (result, after) = apply_policy_materialization_receipt_spec(st, receipt);
            &&& result == Ok::<PolicyReceiptPersistenceOutcome, HaltView>(
                PolicyReceiptPersistenceOutcome::Replayed,
            )
            &&& script::writes(after.log) == script::writes(st.log)
        }),
{
    broadcast use script::writes_with_another;

    let row = found.rows@[0];
    crate::db::oracle::types::raw16_round_trip(receipt.receipt_event_id, row.cells@[0]->Raw_0@);
    crate::db::oracle::types::raw16_round_trip(receipt.operation_id, row.cells@[1]->Raw_0@);
    crate::db::oracle::types::raw16_round_trip(receipt.card_range_id, row.cells@[2]->Raw_0@);
    crate::db::oracle::types::raw16_round_trip(
        receipt.card_policy_profile_id,
        row.cells@[3]->Raw_0@,
    );
}

proof fn activation_is_carried_out(
    st: RunView,
    pending: CardPolicyProfile,
    receipt: PolicyMaterializationReceipt,
)
    requires
        activate_policy_spec(st, pending, receipt).0 is Ok,
    ensures
        ({
            let log = activate_policy_spec(st, pending, receipt).1.log;
            let superseded = seq![
                Bind::Id(receipt.card_policy_profile_id),
                Bind::Id(receipt.card_range_id),
            ];
            let activated = seq![
                Bind::Id(receipt.card_policy_profile_id),
                Bind::Id(receipt.operation_id),
            ];
            &&& exists|receipt_id: Uuid|
                script::runs_on(
                    log,
                    POLICY_RECEIPT_INSERT_SQL@,
                    #[trigger] receipt_values(receipt_id, receipt),
                ) > script::runs_on(
                    st.log,
                    POLICY_RECEIPT_INSERT_SQL@,
                    receipt_values(receipt_id, receipt),
                )
            &&& script::runs_on(log, POLICY_SUPERSEDE_SQL@, superseded) > script::runs_on(
                st.log,
                POLICY_SUPERSEDE_SQL@,
                superseded,
            )
            &&& script::runs_on(log, POLICY_ACTIVATE_SQL@, activated) > script::runs_on(
                st.log,
                POLICY_ACTIVATE_SQL@,
                activated,
            )
        }),
{
    broadcast use {script::runs_on_with_another, map_policy_row_changes_nothing};

    let before = fetch_policy_by_status_spec(st, receipt.card_range_id, CardPolicyStatus::Active).1;
    let stored = receipt_values(script::fresh_id_spec(before).0->Ok_0, receipt);
    assert(script::runs_on(
        insert_materialization_receipt_spec(before, receipt).1.log,
        POLICY_RECEIPT_INSERT_SQL@,
        stored,
    ) > script::runs_on(before.log, POLICY_RECEIPT_INSERT_SQL@, stored));
}

/// A receipt that brought a policy into force is stored, the policy that was in force before gives
/// way to it and the pending one is activated. Where its row is then found, the receipt is answered
/// as replayed and nothing is changed again.
pub proof fn activated_receipt_is_replayed(
    st: RunView,
    receipt: PolicyMaterializationReceipt,
    receipt_id: Uuid,
    again: RunView,
    found: script::Rows,
)
    requires
        apply_policy_materialization_receipt_spec(st, receipt).0 matches Ok(outcome) && outcome
            is Activated,
        again.rest.len() > 0,
        again.rest[0] == script::Reply::Rows(found),
        found.rows@.len() > 0,
        is_stored_receipt(found.rows@[0], receipt_values(receipt_id, receipt)),
    ensures
        ({
            let log = apply_policy_materialization_receipt_spec(st, receipt).1.log;
            let superseded = seq![
                Bind::Id(receipt.card_policy_profile_id),
                Bind::Id(receipt.card_range_id),
            ];
            let activated = seq![
                Bind::Id(receipt.card_policy_profile_id),
                Bind::Id(receipt.operation_id),
            ];
            &&& exists|stored_id: Uuid|
                script::runs_on(
                    log,
                    POLICY_RECEIPT_INSERT_SQL@,
                    #[trigger] receipt_values(stored_id, receipt),
                ) > script::runs_on(
                    st.log,
                    POLICY_RECEIPT_INSERT_SQL@,
                    receipt_values(stored_id, receipt),
                )
            &&& script::runs_on(log, POLICY_SUPERSEDE_SQL@, superseded) > script::runs_on(
                st.log,
                POLICY_SUPERSEDE_SQL@,
                superseded,
            )
            &&& script::runs_on(log, POLICY_ACTIVATE_SQL@, activated) > script::runs_on(
                st.log,
                POLICY_ACTIVATE_SQL@,
                activated,
            )
        }),
        ({
            let (result, after) = apply_policy_materialization_receipt_spec(again, receipt);
            &&& result == Ok::<PolicyReceiptPersistenceOutcome, HaltView>(
                PolicyReceiptPersistenceOutcome::Replayed,
            )
            &&& script::writes(after.log) == script::writes(again.log)
        }),
{
    broadcast use {script::runs_on_with_another, map_policy_row_changes_nothing};

    stored_receipt_is_replayed(again, receipt, receipt_id, found);
    let checked = classify_existing_receipt_spec(st, receipt).1;
    let kept = insert_receipt_inbox_spec(checked, receipt).1;
    let (pending, locked) = fetch_policy_by_operation_for_update_spec(kept, receipt.operation_id);
    let matched = receipt_matches_spec(locked, pending->Ok_0, receipt).1;
    activation_is_carried_out(matched, pending->Ok_0->Some_0, receipt);
}

/// What is carried out of a policy stores the event that publishes it, where an operation does so.
#[verifier::rlimit(60)]
pub broadcast proof fn apply_policy_publishes(
    st: RunView,
    context: MutationCommandContext,
    card_range_id: Uuid,
    desired: DesiredCardPolicy,
    range: LockedRangePolicyContext,
    draft: Option<CardPolicyProfile>,
)
    ensures
        (
            #[trigger] apply_policy_spec(st, context, card_range_id, desired, range, draft)
        ).0 matches Ok(outcome) ==> {
            let log = apply_policy_spec(st, context, card_range_id, desired, range, draft).1.log;
            (
                outcome matches SetCardPolicyPersistenceOutcome::Applied(applied) ==> (
                    applied.operation_id matches Some(id) ==> script::stored_under(
                        log,
                        POLICY_OUTBOX_INSERT_SQL@,
                        id,
                    ) > 0
                )
            )
        },
{
    broadcast use {
        script::runs_with_another,
        script::stored_under_with_another,
        map_policy_row_changes_nothing,
    };

    reveal(apply_policy_spec);
}

/// Where a policy is set and an operation publishes it, the event is stored under that operation.
#[verifier::rlimit(40)]
pub proof fn applied_policy_is_published(
    st: RunView,
    context: MutationCommandContext,
    card_range_id: Uuid,
    desired: DesiredCardPolicy,
)
    ensures
        ({
            let (result, after) = set_card_policy_atomic_spec(st, context, card_range_id, desired);
            let log = after.log;
            result matches Ok(outcome) ==> (
                outcome matches SetCardPolicyPersistenceOutcome::Applied(applied) ==> (
                    applied.operation_id matches Some(id) ==> script::stored_under(
                        log,
                        POLICY_OUTBOX_INSERT_SQL@,
                        id,
                    ) > 0
                )
            )
        }),
{
    broadcast use apply_policy_publishes;

}

/// Where a run that handles a receipt stands when it reads back the policy that it brought into
/// force.
pub open spec fn reading_policy_back(
    st: RunView,
    receipt: PolicyMaterializationReceipt,
) -> RunView {
    let checked = classify_existing_receipt_spec(st, receipt).1;
    let kept = insert_receipt_inbox_spec(checked, receipt).1;
    let (pending, locked) = fetch_policy_by_operation_for_update_spec(kept, receipt.operation_id);
    let matched = receipt_matches_spec(locked, pending->Ok_0, receipt).1;
    let read = fetch_policy_by_status_spec(
        matched,
        receipt.card_range_id,
        CardPolicyStatus::Active,
    ).1;
    let stored = insert_materialization_receipt_spec(read, receipt).1;
    let superseded = supersede_active_policy_spec(
        stored,
        receipt.card_range_id,
        receipt.card_policy_profile_id,
    ).1;
    let activated = activate_pending_policy_spec(superseded, receipt).1;
    mark_receipt_inbox_processed_spec(activated, receipt.receipt_event_id).1
}

/// The policy that a receipt brings into force is the one that its operation publishes, with the
/// identifier, the range and the version that the receipt names; and where the row that is read
/// back is the one that is asked for, the policy that is answered is the one that the receipt
/// names.
#[verifier::rlimit(60)]
pub proof fn activated_policy_is_the_one_named(
    st: RunView,
    receipt: PolicyMaterializationReceipt,
    found: script::Rows,
)
    requires
        apply_policy_materialization_receipt_spec(st, receipt).0 matches Ok(outcome) && outcome
            is Activated,
        reading_policy_back(st, receipt).rest[0] == script::Reply::Rows(found),
        crate::db::oracle::values::gives_back(
            found.rows@[0].cells@[0],
            Bind::Id(receipt.card_policy_profile_id),
        ),
    ensures
        apply_policy_materialization_receipt_spec(st, receipt).0 matches Ok(
            PolicyReceiptPersistenceOutcome::Activated(policy),
        ) && policy.card_policy_profile_id == receipt.card_policy_profile_id,
        ({
            let checked = classify_existing_receipt_spec(st, receipt).1;
            let kept = insert_receipt_inbox_spec(checked, receipt).1;
            let pending = fetch_policy_by_operation_for_update_spec(kept, receipt.operation_id).0;
            &&& pending matches Ok(Some(policy))
            &&& policy.card_policy_profile_id == receipt.card_policy_profile_id
            &&& policy.card_range_id == receipt.card_range_id
            &&& policy.version == receipt.materialized_version
        }),
{
    reveal(map_policy_row_spec);
    crate::db::oracle::types::raw16_round_trip(
        receipt.card_policy_profile_id,
        found.rows@[0].cells@[0]->Raw_0@,
    );
}

proof fn publication_is_told_apart()
    ensures
        POLICY_OUTBOX_INSERT_SQL@ != POLICY_INSERT_SQL@,
        POLICY_OUTBOX_INSERT_SQL@ != POLICY_UPDATE_DRAFT_SQL@,
        POLICY_OUTBOX_INSERT_SQL@ != idempotency::IDEMPOTENCY_INSERT_SQL@,
        POLICY_OUTBOX_INSERT_SQL@ != idempotency::IDEMPOTENCY_COMPLETE_SQL@,
        POLICY_OUTBOX_INSERT_SQL@ != audit::AUDIT_INSERT_SQL@,
{
    reveal_strlit(r#"
    INSERT INTO integration_outbox (
        outbox_event_id, operation_id, event_type, aggregate_type, aggregate_id,
        partition_key, payload_json, headers_json, status, next_attempt_at
    ) VALUES (:1, :2, :3, :4, :5, :6, :7, :8, 'PENDING', SYSTIMESTAMP)
    "#);
    reveal_strlit(r#"
    INSERT INTO card_policy_profiles (
        card_policy_profile_id, card_range_id, profile_json, status, version,
        publication_operation_id, created_by_subject, updated_by_subject,
        change_reason
    ) VALUES (:1, :2, :3, :4, :5, :6, :7, :8, :9)
    "#);
    reveal_strlit(r#"
    UPDATE card_policy_profiles
    SET profile_json = :1,
        publication_operation_id = :2,
        updated_by_subject = :3,
        change_reason = :4,
        updated_at = SYSTIMESTAMP
    WHERE card_policy_profile_id = :5
      AND status = 'DRAFT'
      AND publication_operation_id IS NULL
    "#);
    reveal_strlit(r#"
    INSERT INTO idempotency_records (
        idempotency_record_id,
        operation_type,
        idempotency_key,
        request_hash,
        status,
        created_by_subject,
        created_by_client_id,
        actor_provider_id,
        actor_user_id,
        correlation_id,
        request_id
    )
    VALUES (:1, :2, :3, :4, :5, :6, :7, :8, :9, :10, :11)
    "#);
    reveal_strlit(r#"
    UPDATE idempotency_records
    SET status = 'COMPLETED',
        resource_type = :1,
        resource_id = :2,
        response_snapshot = :3,
        updated_at = SYSTIMESTAMP,
        completed_at = SYSTIMESTAMP
    WHERE operation_type = :4
      AND idempotency_key = :5
      AND status = 'IN_PROGRESS'
    "#);
    reveal_strlit(r#"
    INSERT INTO audit_logs (
        audit_log_id,
        entity_type,
        entity_id,
        action_type,
        reason,
        old_values,
        new_values,
        actor_subject,
        actor_client_id,
        actor_provider_id,
        actor_user_id,
        actor_issuer,
        source_ip,
        correlation_id,
        request_id
    )
    VALUES (:1, :2, :3, :4, :5, :6, :7, :8, :9, :10, :11, :12, :13, :14, :15)
    "#);
    assert(POLICY_OUTBOX_INSERT_SQL@.len() != POLICY_INSERT_SQL@.len());
    assert(POLICY_OUTBOX_INSERT_SQL@.len() != POLICY_UPDATE_DRAFT_SQL@.len());
    assert(POLICY_OUTBOX_INSERT_SQL@.len() != idempotency::IDEMPOTENCY_INSERT_SQL@.len());
    assert(POLICY_OUTBOX_INSERT_SQL@.len() != idempotency::IDEMPOTENCY_COMPLETE_SQL@.len());
    assert(POLICY_OUTBOX_INSERT_SQL@.len() != audit::AUDIT_INSERT_SQL@.len());
}

/// The range that a policy is set for is read from its row: who funds its cards, who enforces the
/// limits, and how many active providers it has.
pub proof fn locked_range_is_read_from_its_columns(st: RunView, card_range_id: Uuid)
    ensures
        lock_range_policy_context_spec(st, card_range_id).0 matches Ok(Some(range)) ==> {
            &&& st.rest[0] matches script::Reply::Rows(found) && {
                let row = found.rows@[0];
                &&& row.text_at(0, READ_ROW@) matches Ok(mode) && FundingMode::of_code(mode@)
                    == Some(range.funding_mode)
                &&& row.text_at(1, READ_ROW@) matches Ok(authority)
                    && WithdrawalLimitAuthority::of_code(authority@) == Some(range.authority)
                &&& row.int_at(3, READ_ROW@) == Ok::<i64, HaltView>(range.active_provider_count)
            }
            &&& lock_range_policy_context_spec(st, card_range_id).1.log == st.log.push(
                script::sql_call(
                    script::Mode::Query,
                    POLICY_RANGE_LOCK_SQL@,
                    seq![Bind::Id(card_range_id)],
                    "ttTi",
                ),
            )
        },
{
}

/// A policy of a range with active providers is published: an operation is answered, and the event
/// is stored under it. One of a range without them stays a draft: no operation is answered and no
/// event is stored. What is answered says which of it came to pass, and who funds and who limits
/// the range.
#[verifier::rlimit(100)]
pub proof fn policy_in_use_is_published(
    st: RunView,
    context: MutationCommandContext,
    card_range_id: Uuid,
    desired: DesiredCardPolicy,
    range: LockedRangePolicyContext,
    draft: Option<CardPolicyProfile>,
)
    ensures
        ({
            let (result, after) = apply_policy_spec(
                st,
                context,
                card_range_id,
                desired,
                range,
                draft,
            );
            result matches Ok(outcome) ==> {
                &&& outcome matches SetCardPolicyPersistenceOutcome::Applied(applied) && {
                    &&& range.active_provider_count > 0 <==> applied.operation_id is Some
                    &&& range.active_provider_count > 0 ==> applied.disposition
                        is PublicationPending && script::stored_under(
                        after.log,
                        POLICY_OUTBOX_INSERT_SQL@,
                        applied.operation_id->Some_0,
                    ) > 0
                    &&& range.active_provider_count <= 0 ==> script::runs(
                        after.log,
                        POLICY_OUTBOX_INSERT_SQL@,
                    ) == script::runs(st.log, POLICY_OUTBOX_INSERT_SQL@)
                    &&& range.active_provider_count <= 0 ==> (draft is Some
                        <==> applied.disposition is Updated) && (draft is None
                        <==> applied.disposition is Created)
                    &&& applied.funding_mode == range.funding_mode
                    &&& applied.withdrawal_limit_authority == range.authority
                    &&& applied.limit_calendar == range.limit_calendar
                }
            }
        }),
{
    broadcast use {
        script::runs_with_another,
        script::stored_under_with_another,
        map_policy_row_changes_nothing,
    };

    publication_is_told_apart();
    reveal(apply_policy_spec);
}

/// Where a policy is set, its range was found, and an operation that publishes it is answered
/// exactly where the row of the range counts an active provider. The event is then stored under
/// that operation. Where it counts none, no event is stored.
#[verifier::rlimit(60)]
pub proof fn set_policy_is_published_where_it_is_in_use(
    st: RunView,
    context: MutationCommandContext,
    card_range_id: Uuid,
    desired: DesiredCardPolicy,
)
    ensures
        ({
            let (result, after) = set_card_policy_atomic_spec(st, context, card_range_id, desired);
            result matches Ok(SetCardPolicyPersistenceOutcome::Applied(applied)) ==> {
                &&& st.rest[1] matches script::Reply::Rows(found)
                &&& found.rows@[0].int_at(3, READ_ROW@) matches Ok(providers)
                &&& providers > 0 <==> applied.operation_id is Some
                &&& providers > 0 ==> script::stored_under(
                    after.log,
                    POLICY_OUTBOX_INSERT_SQL@,
                    applied.operation_id->Some_0,
                ) > 0 && applied.disposition is PublicationPending
                &&& providers <= 0 ==> script::runs(after.log, POLICY_OUTBOX_INSERT_SQL@)
                    == script::runs(st.log, POLICY_OUTBOX_INSERT_SQL@) && !(applied.disposition
                    is PublicationPending)
            }
        }),
{
    broadcast use {script::runs_with_another, map_policy_row_changes_nothing};

    let looked = idempotency::fetch_idempotency_record_spec(
        st,
        context.operation_type,
        context.idempotency_key,
    ).1;
    let (locked, at) = lock_range_policy_context_spec(looked, card_range_id);
    locked_range_is_read_from_its_columns(looked, card_range_id);
    if let Ok(Some(range)) = locked {
        let checked = script::verdict_spec(
            at,
            Rule::CardPolicyContract(range.authority, desired),
        ).1;
        let again = idempotency::fetch_idempotency_record_spec(
            checked,
            context.operation_type,
            context.idempotency_key,
        ).1;
        let (draft, read) = fetch_policy_by_status_spec(
            again,
            card_range_id,
            CardPolicyStatus::Draft,
        );
        if let Ok(found) = draft {
            policy_in_use_is_published(read, context, card_range_id, desired, range, found);
        }
    }
}

/// A command for a policy without a record is refused where the range is missing, where the rules
/// object to the policy, and where the draft is being published. Each has its own answer, and what
/// the rules object is answered as they say it.
#[verifier::rlimit(60)]
pub proof fn policy_is_refused_for_one_reason(
    st: RunView,
    context: MutationCommandContext,
    card_range_id: Uuid,
    desired: DesiredCardPolicy,
    locked: Option<LockedRangePolicyContext>,
)
    requires
        ({
            let (looked, at) = idempotency::fetch_idempotency_record_spec(
                st,
                context.operation_type,
                context.idempotency_key,
            );
            &&& looked == Ok::<Option<IdempotencyRecord>, HaltView>(None)
            &&& lock_range_policy_context_spec(at, card_range_id).0 == Ok::<
                Option<LockedRangePolicyContext>,
                HaltView,
            >(locked)
        }),
    ensures
        ({
            let result = set_card_policy_atomic_spec(st, context, card_range_id, desired).0;
            let looked = idempotency::fetch_idempotency_record_spec(
                st,
                context.operation_type,
                context.idempotency_key,
            ).1;
            let at = lock_range_policy_context_spec(looked, card_range_id).1;
            &&& locked is None <==> result == Ok::<_, HaltView>(
                SetCardPolicyPersistenceOutcome::RangeNotFound,
            )
            &&& locked matches Some(range) ==> {
                let verdict = script::verdict_spec(
                    at,
                    Rule::CardPolicyContract(range.authority, desired),
                );
                let (recheck, again) = idempotency::fetch_idempotency_record_spec(
                    verdict.1,
                    context.operation_type,
                    context.idempotency_key,
                );
                let draft = fetch_policy_by_status_spec(
                    again,
                    card_range_id,
                    CardPolicyStatus::Draft,
                ).0;
                &&& verdict.0 matches Ok(Some(objection)) ==> result == Ok::<_, HaltView>(
                    SetCardPolicyPersistenceOutcome::ContractInvalid(objection),
                )
                &&& result matches Ok(SetCardPolicyPersistenceOutcome::ContractInvalid(objection))
                    ==> verdict.0 == Ok::<Option<String>, HaltView>(Some(objection))
                &&& verdict.0 == Ok::<Option<String>, HaltView>(None) && recheck == Ok::<
                    Option<IdempotencyRecord>,
                    HaltView,
                >(None) && (draft matches Ok(Some(policy)) && policy.publication_operation_id
                    is Some) <==> result == Ok::<_, HaltView>(
                    SetCardPolicyPersistenceOutcome::DraftFrozen,
                )
                &&& (result matches Ok(outcome) && outcome is Applied) ==> verdict.0 == Ok::<
                    Option<String>,
                    HaltView,
                >(None) && (draft matches Ok(found) && !(found matches Some(policy)
                    && policy.publication_operation_id is Some))
            }
        }),
{
    broadcast use apply_policy_leaves_evidence;

}

/// The values that a new draft of a policy is stored with.
pub open spec fn draft_binds(
    policy_id: Uuid,
    card_range_id: Uuid,
    desired: DesiredCardPolicy,
    version: i64,
    operation_id: Option<Uuid>,
    subject: String,
) -> Seq<Bind> {
    seq![
        Bind::Id(policy_id),
        Bind::Id(card_range_id),
        Bind::Text(desired.terms),
        Bind::Label("DRAFT"),
        Bind::Int(version),
        Bind::OptId(operation_id),
        Bind::Text(subject),
        Bind::Text(subject),
        Bind::Trimmed(desired.reason),
    ]
}

/// A draft that is there is changed, where exactly it is touched, and keeps its identifier.
/// Otherwise a new one is stored for the range. Both take the terms and the reason asked for and
/// the operation that publishes them.
#[verifier::rlimit(60)]
pub proof fn draft_is_stored_as_asked_for(
    st: RunView,
    draft: Option<CardPolicyProfile>,
    policy_id: Uuid,
    card_range_id: Uuid,
    desired: DesiredCardPolicy,
    version: i64,
    operation_id: Option<Uuid>,
    actor: String,
)
    requires
        store_draft_spec(
            st,
            draft,
            policy_id,
            card_range_id,
            desired,
            version,
            operation_id,
            actor,
        ).0 is Ok,
        st.rest.len() > 0,
    ensures
        ({
            let log = store_draft_spec(
                st,
                draft,
                policy_id,
                card_range_id,
                desired,
                version,
                operation_id,
                actor,
            ).1.log;
            &&& draft is Some ==> log[st.log.len() as int] == script::change(
                POLICY_UPDATE_DRAFT_SQL@,
                seq![
                    Bind::Text(desired.terms),
                    Bind::OptId(operation_id),
                    Bind::Text(actor),
                    Bind::Trimmed(desired.reason),
                    Bind::Id(policy_id),
                ],
            ) && st.rest[0] == script::Reply::Executed(Ok(1))
            &&& draft is None ==> log[st.log.len() as int] == script::change(
                POLICY_INSERT_SQL@,
                draft_binds(policy_id, card_range_id, desired, version, operation_id, actor),
            )
            &&& log[st.log.len() as int + 1] matches script::CallView::Sql { mode, sql, binds, .. }
                && mode == script::Mode::Query && sql == policy_select_sql_text() && binds
                == seq![Bind::Id(policy_id)]
        }),
{
    reveal(map_policy_row_spec);
}

/// A draft that is there keeps its identifier and its version. A new one gets a new identifier and
/// the next version of its range.
pub proof fn draft_keeps_its_identity(
    st: RunView,
    draft: Option<CardPolicyProfile>,
    card_range_id: Uuid,
)
    ensures
        draft matches Some(existing) ==> draft_identity_spec(st, draft) == (
            Ok::<Uuid, HaltView>(existing.card_policy_profile_id),
            st,
        ) && (draft_version_spec(st, draft, card_range_id).0 matches Ok(version) ==> version
            == existing.version),
        draft is None ==> draft_identity_spec(st, draft) == script::fresh_id_spec(st)
            && draft_version_spec(st, draft, card_range_id).0 == script::one_int_spec(
            st,
            POLICY_NEXT_VERSION_SQL@,
            seq![Bind::Id(card_range_id)],
            "failed to allocate policy version"@,
        ).0,
{
}

/// The event that publishes a policy names its range, the policy, its version and who funds and
/// limits it, and is stored under its operation.
#[verifier::rlimit(60)]
pub proof fn published_policy_is_the_one_stored(
    st: RunView,
    operation_id: Uuid,
    card_range_id: Uuid,
    policy_id: Uuid,
    version: i64,
    funding_mode: FundingMode,
    authority: WithdrawalLimitAuthority,
    limit_calendar: Option<LimitCalendar>,
    terms: String,
    headers_of: HeaderSource,
)
    requires
        insert_policy_outbox_spec(
            st,
            operation_id,
            card_range_id,
            policy_id,
            version,
            funding_mode,
            authority,
            limit_calendar,
            terms,
            headers_of,
        ).0 is Ok,
    ensures
        ({
            let log = insert_policy_outbox_spec(
                st,
                operation_id,
                card_range_id,
                policy_id,
                version,
                funding_mode,
                authority,
                limit_calendar,
                terms,
                headers_of,
            ).1.log;
            let first = st.log.len() as int;
            &&& log.len() == first + 6
            &&& log[first + 1] == script::CallView::Consult(
                Rule::WithdrawalLimits(terms),
                crate::db::oracle::consult::AttachmentView::Nothing,
            )
            &&& log[first + 2] == script::CallView::Consult(
                Rule::CalendarDocument(limit_calendar),
                crate::db::oracle::consult::AttachmentView::Nothing,
            )
            &&& log[first + 3] matches script::CallView::Consult(
                Rule::EventEnvelope(keys, Document::PolicyPublication(
                    range_id,
                    id,
                    at,
                    mode,
                    limited_by,
                    _,
                    _,
                )),
                _,
            ) && {
                &&& keys.event_type@ == "CARD_POLICY_PROFILE_PUBLISH_REQUESTED"@
                &&& keys.aggregate_type@ == "CARD_RANGE"@
                &&& keys.aggregate_id == card_range_id
                &&& keys.operation_id == operation_id
                &&& range_id == card_range_id
                &&& id == policy_id
                &&& at == version
                &&& mode == funding_mode
                &&& limited_by == authority
                &&& log[first + 5]->binds[0] == Bind::Id(keys.event_id)
            }
            &&& log[first + 4] == script::CallView::Consult(
                Rule::EventHeaders(headers_of),
                crate::db::oracle::consult::AttachmentView::Nothing,
            )
            &&& script::is_run_of(log[first + 5], POLICY_OUTBOX_INSERT_SQL@)
            &&& log[first + 5]->binds[1] == Bind::Id(operation_id)
            &&& log[first + 5]->binds[2] == Bind::Label("CARD_POLICY_PROFILE_PUBLISH_REQUESTED")
            &&& log[first + 5]->binds[3] == Bind::Label("CARD_RANGE")
            &&& log[first + 5]->binds[4] == Bind::Id(card_range_id)
            &&& log[first + 5]->binds[5] == Bind::IdText(card_range_id)
        }),
{
}

/// A receipt is for the pending policy exactly where it names its range, the policy and its
/// version, and the key under which the runtime holds the policy of a range that is funded that
/// way.
pub proof fn receipt_is_for_the_pending_policy(
    st: RunView,
    pending: Option<CardPolicyProfile>,
    receipt: PolicyMaterializationReceipt,
)
    ensures
        pending is None ==> receipt_matches_spec(st, pending, receipt) == (
            Ok::<bool, HaltView>(false),
            st,
        ),
        pending matches Some(policy) ==> (expected_runtime_key_spec(
            st,
            policy.card_range_id,
        ).0 matches Ok(mode) ==> receipt_matches_spec(st, pending, receipt).0 == Ok::<
            bool,
            HaltView,
        >(
            receipt.card_range_id == policy.card_range_id && receipt.card_policy_profile_id
                == policy.card_policy_profile_id && receipt.materialized_version == policy.version
                && (match FundingMode::of_code(mode@) {
                Some(FundingMode::SingleProvider) => receipt.runtime_key@
                    == "CPOL:SingleProvider"@ + ":"@ + uuid::hyphenated_text(policy.card_range_id),
                Some(FundingMode::MultiProvider) => receipt.runtime_key@ == "CPOL:MultiProvider"@
                    + ":"@ + uuid::hyphenated_text(policy.card_range_id),
                None => false,
            }),
        )),
{
}

/// A receipt brings a policy into force exactly where it was not seen before and is for the pending
/// policy of its operation. Any other that was not seen before is rejected.
#[verifier::rlimit(60)]
pub proof fn receipt_activates_the_pending_policy(
    st: RunView,
    receipt: PolicyMaterializationReceipt,
)
    requires
        classify_existing_receipt_spec(st, receipt).0 == Ok::<
            Option<PolicyReceiptPersistenceOutcome>,
            HaltView,
        >(None),
    ensures
        ({
            let result = apply_policy_materialization_receipt_spec(st, receipt).0;
            let kept = insert_receipt_inbox_spec(
                classify_existing_receipt_spec(st, receipt).1,
                receipt,
            ).1;
            let (pending, locked) = fetch_policy_by_operation_for_update_spec(
                kept,
                receipt.operation_id,
            );
            let fits = receipt_matches_spec(locked, pending->Ok_0, receipt).0;
            result matches Ok(outcome) ==> {
                &&& outcome is Activated <==> fits == Ok::<bool, HaltView>(true)
                &&& outcome is Mismatch <==> fits == Ok::<bool, HaltView>(false)
            }
        }),
{
    reveal(map_policy_row_spec);
}

/// A policy is handed out only as one of the range that is asked about.
pub proof fn policy_is_handed_out_for_its_range(st: RunView, card_range_id: Uuid, policy_id: Uuid)
    ensures
        get_card_policy_spec(st, card_range_id, policy_id).0 matches Ok(Some(policy))
            ==> policy.card_range_id == card_range_id && fetch_optional_policy_spec(st, policy_id).0
            == Ok::<Option<CardPolicyProfile>, HaltView>(Some(policy)),
        fetch_optional_policy_spec(st, policy_id).0 matches Ok(Some(policy)) ==> (
        policy.card_range_id == card_range_id ==> get_card_policy_spec(
            st,
            card_range_id,
            policy_id,
        ).0 == Ok::<Option<CardPolicyProfile>, HaltView>(Some(policy))),
{
}

/// A policy that is published is pending; otherwise it is updated where there was a draft, and
/// created where there was none.
pub proof fn disposition_goes_by_draft_and_publication(had_draft: bool, published: bool)
    ensures
        disposition_of(had_draft, published) is PublicationPending <==> published,
        disposition_of(had_draft, published) is Updated <==> !published && had_draft,
        disposition_of(had_draft, published) is Created <==> !published && !had_draft,
{
}

/// Each value is read from its own column: the policy that a row holds.
#[verifier::rlimit(60)]
pub proof fn map_policy_row_is_read_by_column(
    st: RunView,
    row: Row,
)
    ensures
        map_policy_row_spec(st, row).0 matches Ok(read) ==> {
            &&& read.card_policy_profile_id == row.id_at(0, READ_ROW@)->Ok_0
            &&& read.card_range_id == row.id_at(1, READ_ROW@)->Ok_0
            &&& read.terms == row.text_at(2, READ_ROW@)->Ok_0
            &&& read.status == (CardPolicyStatus::of_code(row.text_at(3, READ_ROW@)->Ok_0@))->Some_0
            &&& read.version == row.int_at(4, READ_ROW@)->Ok_0
            &&& read.superseded_by_profile_id == script::opt_id_of(
                row.opt_raw_at(5, READ_ROW@)->Ok_0,
            )->Ok_0
            &&& read.publication_operation_id == script::opt_id_of(
                row.opt_raw_at(6, READ_ROW@)->Ok_0,
            )->Ok_0
            &&& read.created_by_subject == row.text_at(7, READ_ROW@)->Ok_0
            &&& read.updated_by_subject == row.text_at(8, READ_ROW@)->Ok_0
            &&& read.change_reason == row.text_at(9, READ_ROW@)->Ok_0
            &&& read.activated_at == script::opt_time_of(
                row.opt_text_at(10, READ_ROW@)->Ok_0,
                "invalid policy UTC timestamp"@,
            )->Ok_0
            &&& read.superseded_at == script::opt_time_of(
                row.opt_text_at(11, READ_ROW@)->Ok_0,
                "invalid policy UTC timestamp"@,
            )->Ok_0
            &&& read.created_at == script::time_of(
                row.text_at(12, READ_ROW@)->Ok_0@,
                "invalid policy UTC timestamp"@,
            )->Ok_0
            &&& read.updated_at == script::time_of(
                row.text_at(13, READ_ROW@)->Ok_0@,
                "invalid policy UTC timestamp"@,
            )->Ok_0
        },
{
    reveal(map_policy_row_spec);
}

/// What is asked first, and with which values, in a run that does this:
/// reads a policy, where there is one.
pub proof fn fetch_optional_policy_asks_first(
    st: RunView,
    policy_id: Uuid,
)
    requires
        st.rest.len() == 0,
    ensures
        fetch_optional_policy_spec(st, policy_id).0 matches Err(HaltView::Ask(asked))
            && (
                asked matches script::CallView::Sql { sql, binds, .. }
                    && sql == policy_select_sql_text() && binds == seq![Bind::Id(policy_id)]
            ),
{
}

/// What is asked first, and with which values, in a run that does this:
/// reads the policy of a range that has a status, where there is one.
pub proof fn fetch_policy_by_status_asks_first(
    st: RunView,
    card_range_id: Uuid,
    status: CardPolicyStatus,
)
    requires
        st.rest.len() == 0,
    ensures
        fetch_policy_by_status_spec(st, card_range_id, status).0 matches Err(HaltView::Ask(asked))
            && (
                asked matches script::CallView::Sql { sql, binds, .. }
                    && sql == policy_select_by_status_sql_text()
                    && binds == seq![Bind::Id(card_range_id), Bind::Label(status.code())]
            ),
{
}

/// What is asked first, and with which values, in a run that does this:
/// locks and reads the draft that an operation publishes, where there is one.
pub proof fn fetch_policy_by_operation_for_update_asks_first(
    st: RunView,
    operation_id: Uuid,
)
    requires
        st.rest.len() == 0,
    ensures
        fetch_policy_by_operation_for_update_spec(st, operation_id).0 matches Err(
            HaltView::Ask(asked),
        )
            && (
                asked matches script::CallView::Sql { sql, binds, .. }
                    && sql == policy_pending_sql_text() && binds == seq![Bind::Id(operation_id)]
            ),
{
}

/// What is asked first, and with which values, in a run that does this:
/// locks a range and reads what its policy depends on, where there is such a range.
pub proof fn lock_range_policy_context_asks_first(
    st: RunView,
    card_range_id: Uuid,
)
    requires
        st.rest.len() == 0,
    ensures
        lock_range_policy_context_spec(st, card_range_id).0 matches Err(HaltView::Ask(asked))
            && (
                asked matches script::CallView::Sql { sql, binds, .. }
                    && sql == POLICY_RANGE_LOCK_SQL@ && binds == seq![Bind::Id(card_range_id)]
            ),
{
}

/// What is asked first, and with which values, in a run that does this:
/// stores a draft.
pub proof fn insert_draft_policy_asks_first(
    st: RunView,
    policy_id: Uuid,
    card_range_id: Uuid,
    terms: String,
    version: i64,
    operation_id: Option<Uuid>,
    actor: String,
    reason: String,
)
    requires
        st.rest.len() == 0,
    ensures
        insert_draft_policy_spec(
            st,
            policy_id,
            card_range_id,
            terms,
            version,
            operation_id,
            actor,
            reason,
        ).0 matches Err(HaltView::Ask(asked))
            && (
                asked matches script::CallView::Sql { sql, binds, .. } && sql == POLICY_INSERT_SQL@
                    && binds == seq![
                        Bind::Id(policy_id),
                        Bind::Id(card_range_id),
                        Bind::Text(terms),
                        Bind::Label(CardPolicyStatus::Draft.code()),
                        Bind::Int(version),
                        Bind::OptId(operation_id),
                        Bind::Text(actor),
                        Bind::Text(actor),
                        Bind::Trimmed(reason),
                    ]
            ),
{
}

/// What the database is told, and with which values, where a run succeeds that does this:
/// stores a draft.
#[verifier::rlimit(60)]
pub proof fn insert_draft_policy_is_told(
    st: RunView,
    policy_id: Uuid,
    card_range_id: Uuid,
    terms: String,
    version: i64,
    operation_id: Option<Uuid>,
    actor: String,
    reason: String,
)
    ensures
        ({
            let (ended, after) = insert_draft_policy_spec(
                st,
                policy_id,
                card_range_id,
                terms,
                version,
                operation_id,
                actor,
                reason,
            );
            let log = after.log;
            ended is Ok ==> {
                &&& script::ran(
                    log,
                    POLICY_INSERT_SQL@,
                    seq![
                        Bind::Id(policy_id),
                        Bind::Id(card_range_id),
                        Bind::Text(terms),
                        Bind::Label(CardPolicyStatus::Draft.code()),
                        Bind::Int(version),
                        Bind::OptId(operation_id),
                        Bind::Text(actor),
                        Bind::Text(actor),
                        Bind::Trimmed(reason),
                    ],
                )
            }
        }),
{
    broadcast use {
        script::runs_on_with_another,
        script::told_where_with_another,
        map_policy_row_changes_nothing,
    };

}

/// What is asked first, and with which values, in a run that does this:
/// changes a draft that is not being published.
pub proof fn update_draft_policy_asks_first(
    st: RunView,
    policy_id: Uuid,
    terms: String,
    operation_id: Option<Uuid>,
    actor: String,
    reason: String,
)
    requires
        st.rest.len() == 0,
    ensures
        update_draft_policy_spec(
            st,
            policy_id,
            terms,
            operation_id,
            actor,
            reason,
        ).0 matches Err(HaltView::Ask(asked))
            && (
                asked matches script::CallView::Sql { sql, binds, .. }
                    && sql == POLICY_UPDATE_DRAFT_SQL@
                    && binds == seq![
                        Bind::Text(terms),
                        Bind::OptId(operation_id),
                        Bind::Text(actor),
                        Bind::Trimmed(reason),
                        Bind::Id(policy_id),
                    ]
            ),
{
}

/// Exactly one row is touched where a run succeeds that does this:
/// changes a draft that is not being published.
pub proof fn update_draft_policy_touches_one_row(
    st: RunView,
    policy_id: Uuid,
    terms: String,
    operation_id: Option<Uuid>,
    actor: String,
    reason: String,
)
    requires
        update_draft_policy_spec(st, policy_id, terms, operation_id, actor, reason).0 is Ok,
    ensures
        st.rest[0] == script::Reply::Executed(Ok(1)),
{
}

/// What the database is told, and with which values, where a run succeeds that does this:
/// changes a draft that is not being published.
#[verifier::rlimit(60)]
pub proof fn update_draft_policy_is_told(
    st: RunView,
    policy_id: Uuid,
    terms: String,
    operation_id: Option<Uuid>,
    actor: String,
    reason: String,
)
    ensures
        ({
            let (ended, after) = update_draft_policy_spec(
                st,
                policy_id,
                terms,
                operation_id,
                actor,
                reason,
            );
            let log = after.log;
            ended is Ok ==> {
                &&& script::ran(
                    log,
                    POLICY_UPDATE_DRAFT_SQL@,
                    seq![
                        Bind::Text(terms),
                        Bind::OptId(operation_id),
                        Bind::Text(actor),
                        Bind::Trimmed(reason),
                        Bind::Id(policy_id),
                    ],
                )
            }
        }),
{
    broadcast use {
        script::runs_on_with_another,
        script::told_where_with_another,
        map_policy_row_changes_nothing,
    };

}

/// What the database is told, and with which values, where a run succeeds that does this:
/// stores the event that publishes a policy.
#[verifier::rlimit(60)]
pub proof fn insert_policy_outbox_is_told(
    st: RunView,
    operation_id: Uuid,
    card_range_id: Uuid,
    policy_id: Uuid,
    version: i64,
    funding_mode: FundingMode,
    authority: WithdrawalLimitAuthority,
    limit_calendar: Option<LimitCalendar>,
    terms: String,
    headers_of: HeaderSource,
)
    ensures
        ({
            let (ended, after) = insert_policy_outbox_spec(
                st,
                operation_id,
                card_range_id,
                policy_id,
                version,
                funding_mode,
                authority,
                limit_calendar,
                terms,
                headers_of,
            );
            let log = after.log;
            ended is Ok ==> {
                &&& script::told_where(
                    log,
                    POLICY_OUTBOX_INSERT_SQL@,
                    |b: Seq<Bind>| b.len() == 8 && b[1] == Bind::Id(operation_id)
                        && b[2] == Bind::Label("CARD_POLICY_PROFILE_PUBLISH_REQUESTED")
                        && b[3] == Bind::Label("CARD_RANGE") && b[4] == Bind::Id(card_range_id)
                        && b[5] == Bind::IdText(card_range_id),
                ) > 0
            }
        }),
{
    broadcast use {
        script::runs_on_with_another,
        script::told_where_with_another,
        map_policy_row_changes_nothing,
    };

}

/// What is asked first, and with which values, in a run that does this:
/// the policies of a range below a version, newest first.
pub proof fn list_card_policies_asks_first(
    st: RunView,
    card_range_id: Uuid,
    before_version: Option<i64>,
    limit: u16,
)
    requires
        st.rest.len() == 0,
    ensures
        list_card_policies_spec(
            st,
            card_range_id,
            before_version,
            limit,
        ).0 matches Err(HaltView::Ask(asked))
            && (
                asked matches script::CallView::Sql { sql, binds, .. }
                    && sql == policy_list_sql_text()
                    && binds == seq![
                        Bind::Id(card_range_id),
                        Bind::OptInt(before_version),
                        Bind::OptInt(before_version),
                        Bind::Int(limit as i64),
                    ]
            ),
{
}

/// What is asked first, and with which values, in a run that does this:
/// what a receipt comes to, where it was stored or rejected before.
pub proof fn classify_existing_receipt_asks_first(
    st: RunView,
    receipt: PolicyMaterializationReceipt,
)
    requires
        st.rest.len() == 0,
    ensures
        classify_existing_receipt_spec(st, receipt).0 matches Err(HaltView::Ask(asked))
            && (
                asked matches script::CallView::Sql { sql, binds, .. }
                    && sql == POLICY_RECEIPT_REPLAY_SQL@
                    && binds == seq![
                        Bind::Id(receipt.receipt_event_id),
                        Bind::Id(receipt.operation_id),
                        Bind::Int(receipt.materialized_version),
                    ]
            ),
{
}

/// What the database is told, and with which values, where a run succeeds that does this:
/// stores the arrival of a receipt.
#[verifier::rlimit(60)]
pub proof fn insert_receipt_inbox_is_told(
    st: RunView,
    receipt: PolicyMaterializationReceipt,
)
    ensures
        ({
            let (ended, after) = insert_receipt_inbox_spec(st, receipt);
            let log = after.log;
            ended is Ok ==> {
                &&& script::told_where(
                    log,
                    POLICY_RECEIPT_INBOX_INSERT_SQL@,
                    |b: Seq<Bind>| b.len() == 7 && b[1] == Bind::Label("WOLFSBURG")
                        && b[2] == Bind::Id(receipt.receipt_event_id)
                        && b[3] == Bind::Label("RUNTIME_PROFILE_MATERIALIZED")
                        && b[4] == Bind::Label("CARD_RANGE")
                        && b[5] == Bind::Id(receipt.card_range_id),
                ) > 0
            }
        }),
{
    broadcast use {
        script::runs_on_with_another,
        script::told_where_with_another,
        map_policy_row_changes_nothing,
    };

}

/// What is asked first, and with which values, in a run that does this:
/// marks a receipt as rejected.
pub proof fn mark_receipt_inbox_failed_asks_first(
    st: RunView,
    receipt: PolicyMaterializationReceipt,
)
    requires
        st.rest.len() == 0,
    ensures
        mark_receipt_inbox_failed_spec(st, receipt).0 matches Err(HaltView::Ask(asked))
            && (
                asked matches script::CallView::Sql { sql, binds, .. }
                    && sql == POLICY_INBOX_FAILED_SQL@
                    && binds == seq![
                        Bind::Json(Document::PolicyMismatch(
                            receipt.operation_id,
                            receipt.card_policy_profile_id,
                            receipt.materialized_version,
                        )),
                        Bind::Id(receipt.receipt_event_id),
                    ]
            ),
{
}

/// What the database is told, and with which values, where a run succeeds that does this:
/// marks a receipt as rejected.
#[verifier::rlimit(60)]
pub proof fn mark_receipt_inbox_failed_is_told(
    st: RunView,
    receipt: PolicyMaterializationReceipt,
)
    ensures
        ({
            let (ended, after) = mark_receipt_inbox_failed_spec(st, receipt);
            let log = after.log;
            ended is Ok ==> {
                &&& script::ran(
                    log,
                    POLICY_INBOX_FAILED_SQL@,
                    seq![
                        Bind::Json(Document::PolicyMismatch(
                            receipt.operation_id,
                            receipt.card_policy_profile_id,
                            receipt.materialized_version,
                        )),
                        Bind::Id(receipt.receipt_event_id),
                    ],
                )
            }
        }),
{
    broadcast use {
        script::runs_on_with_another,
        script::told_where_with_another,
        map_policy_row_changes_nothing,
    };

}

/// What the database is told, and with which values, where a run succeeds that does this:
/// stores a receipt.
#[verifier::rlimit(60)]
pub proof fn insert_materialization_receipt_is_told(
    st: RunView,
    receipt: PolicyMaterializationReceipt,
)
    ensures
        ({
            let (ended, after) = insert_materialization_receipt_spec(st, receipt);
            let log = after.log;
            ended is Ok ==> {
                &&& script::told_where(
                    log,
                    POLICY_RECEIPT_INSERT_SQL@,
                    |b: Seq<Bind>| b.len() == 9 && b[1] == Bind::Id(receipt.receipt_event_id)
                        && b[2] == Bind::Id(receipt.operation_id) && b[3] == Bind::Label("CPOL")
                        && b[4] == Bind::Id(receipt.card_range_id)
                        && b[5] == Bind::Id(receipt.card_policy_profile_id)
                        && b[6] == Bind::Int(receipt.materialized_version)
                        && b[7] == Bind::Text(receipt.runtime_key)
                        && b[8] == Bind::Time(receipt.materialized_at),
                ) > 0
            }
        }),
{
    broadcast use {
        script::runs_on_with_another,
        script::told_where_with_another,
        map_policy_row_changes_nothing,
    };

}

/// What is asked first, and with which values, in a run that does this:
/// supersedes the active policy of a range.
pub proof fn supersede_active_policy_asks_first(
    st: RunView,
    card_range_id: Uuid,
    replacement_policy_id: Uuid,
)
    requires
        st.rest.len() == 0,
    ensures
        supersede_active_policy_spec(
            st,
            card_range_id,
            replacement_policy_id,
        ).0 matches Err(HaltView::Ask(asked))
            && (
                asked matches script::CallView::Sql { sql, binds, .. }
                    && sql == POLICY_SUPERSEDE_SQL@
                    && binds == seq![Bind::Id(replacement_policy_id), Bind::Id(card_range_id)]
            ),
{
}

/// What the database is told, and with which values, where a run succeeds that does this:
/// supersedes the active policy of a range.
#[verifier::rlimit(60)]
pub proof fn supersede_active_policy_is_told(
    st: RunView,
    card_range_id: Uuid,
    replacement_policy_id: Uuid,
)
    ensures
        ({
            let (ended, after) = supersede_active_policy_spec(
                st,
                card_range_id,
                replacement_policy_id,
            );
            let log = after.log;
            ended is Ok ==> {
                &&& script::ran(
                    log,
                    POLICY_SUPERSEDE_SQL@,
                    seq![Bind::Id(replacement_policy_id), Bind::Id(card_range_id)],
                )
            }
        }),
{
    broadcast use {
        script::runs_on_with_another,
        script::told_where_with_another,
        map_policy_row_changes_nothing,
    };

}

/// What is asked first, and with which values, in a run that does this:
/// activates the draft that a receipt is for.
pub proof fn activate_pending_policy_asks_first(
    st: RunView,
    receipt: PolicyMaterializationReceipt,
)
    requires
        st.rest.len() == 0,
    ensures
        activate_pending_policy_spec(st, receipt).0 matches Err(HaltView::Ask(asked))
            && (
                asked matches script::CallView::Sql { sql, binds, .. }
                    && sql == POLICY_ACTIVATE_SQL@
                    && binds == seq![
                        Bind::Id(receipt.card_policy_profile_id),
                        Bind::Id(receipt.operation_id),
                    ]
            ),
{
}

/// Exactly one row is touched where a run succeeds that does this:
/// activates the draft that a receipt is for.
pub proof fn activate_pending_policy_touches_one_row(
    st: RunView,
    receipt: PolicyMaterializationReceipt,
)
    requires
        activate_pending_policy_spec(st, receipt).0 is Ok,
    ensures
        st.rest[0] == script::Reply::Executed(Ok(1)),
{
}

/// What the database is told, and with which values, where a run succeeds that does this:
/// activates the draft that a receipt is for.
#[verifier::rlimit(60)]
pub proof fn activate_pending_policy_is_told(
    st: RunView,
    receipt: PolicyMaterializationReceipt,
)
    ensures
        ({
            let (ended, after) = activate_pending_policy_spec(st, receipt);
            let log = after.log;
            ended is Ok ==> {
                &&& script::ran(
                    log,
                    POLICY_ACTIVATE_SQL@,
                    seq![Bind::Id(receipt.card_policy_profile_id), Bind::Id(receipt.operation_id)],
                )
            }
        }),
{
    broadcast use {
        script::runs_on_with_another,
        script::told_where_with_another,
        map_policy_row_changes_nothing,
    };

}

/// What is asked first, and with which values, in a run that does this:
/// marks a receipt as processed.
pub proof fn mark_receipt_inbox_processed_asks_first(
    st: RunView,
    receipt_event_id: Uuid,
)
    requires
        st.rest.len() == 0,
    ensures
        mark_receipt_inbox_processed_spec(st, receipt_event_id).0 matches Err(HaltView::Ask(asked))
            && (
                asked matches script::CallView::Sql { sql, binds, .. }
                    && sql == POLICY_INBOX_PROCESSED_SQL@
                    && binds == seq![Bind::Id(receipt_event_id)]
            ),
{
}

/// What the database is told, and with which values, where a run succeeds that does this:
/// marks a receipt as processed.
#[verifier::rlimit(60)]
pub proof fn mark_receipt_inbox_processed_is_told(
    st: RunView,
    receipt_event_id: Uuid,
)
    ensures
        ({
            let (ended, after) = mark_receipt_inbox_processed_spec(st, receipt_event_id);
            let log = after.log;
            ended is Ok ==> {
                &&& script::ran(log, POLICY_INBOX_PROCESSED_SQL@, seq![Bind::Id(receipt_event_id)])
            }
        }),
{
    broadcast use {
        script::runs_on_with_another,
        script::told_where_with_another,
        map_policy_row_changes_nothing,
    };

}

} // verus!
