//! Movements of credit between providers and their customers.
use vstd::prelude::*;
use crate::db::error::DbError;
use crate::db::oracle::audit;
use crate::db::oracle::binds;
use crate::db::oracle::consult::{Answer, DocumentKind, Rule};
use crate::db::oracle::document::{Document, Snapshot};
use crate::db::oracle::idempotency;
use crate::db::oracle::outbox;
use crate::db::oracle::provider_event_subscription;
use crate::db::oracle::provider_event_subscription::DeliveryGate;
use crate::db::oracle::provider_user;
use crate::db::oracle::repository::OracleRepository;
use crate::db::oracle::script;
use crate::db::oracle::script::{
    Bind, Halt, HaltView, Reply, Row, RunView, Session, UNEXPECTED_REPLY,
};
use crate::domain::audit::AuditAction;
use crate::domain::command::{DurableMutationContext, MutationCommandContext};
use crate::domain::copied;
use crate::domain::idempotency::{IdempotencyRecord, IdempotencyStatus};
use crate::domain::provider_credit::{
    CreditAccountContext, CreditEvent, CreditEventData, CreditEventSubject, CreditMovementFacts,
    CreditMovementIntent, CreditMovementResult, CreditMovementType, CreditMovementWalPayload,
    RialsText,
};
use crate::domain::provider_event::ProviderEventCatalog;
use crate::domain::user_card::CardProfileRefreshReason;
use crate::text;
use crate::time::UtcTime;
use crate::uuid::Uuid;

verus! {

/// The context of a column that cannot be read.
pub const READ_ROW: &'static str = "failed to map provider credit row";

/// The conflict of a reference that a provider used before.
pub const REFERENCE_TAKEN: &'static str = "provider credit reference already exists";

/// Reads the operational profile of a provider that is in force.
pub const ACTIVE_PROFILE_SQL: &'static str = "SELECT provider_operational_profile_id FROM provider_operational_profiles WHERE provider_id=:1 AND status='ACTIVE' AND effective_at<=SYSTIMESTAMP ORDER BY version DESC FETCH FIRST 1 ROWS ONLY";

/// Stores the intent of a movement.
pub const INSERT_WAL_SQL: &'static str = "INSERT INTO operation_wal (operation_id,operation_type,aggregate_type,aggregate_id,status,deterministic_external_id,request_json) VALUES (:1,'PROVIDER_CREDIT_MOVEMENT','PROVIDER_CREDIT_MOVEMENT',:2,'PENDING',:3,:4)";

/// Stores a movement.
pub const INSERT_MOVEMENT_SQL: &'static str = "INSERT INTO provider_credit_movements (movement_id,operation_id,movement_type,initiated_by,provider_id,user_id,card_id,provider_user_account_id,provider_owned_account_id,amount_rials,expected_remaining_amount_rials,provider_reference,deterministic_transfer_id,status,reason,metadata_json) VALUES (:1,:2,:3,:4,:5,:6,:7,:8,:9,:10,:11,:12,:13,'PENDING',:14,:15)";

/// Marks an intent as under way at the ledger.
pub const IN_FLIGHT_SQL: &'static str = "UPDATE operation_wal SET status='EXTERNAL_IN_FLIGHT',attempt_count=attempt_count+1,updated_at=SYSTIMESTAMP WHERE operation_id=:1 AND status IN ('PENDING','FAILED','EXTERNAL_IN_FLIGHT')";

/// Marks a movement for recovery.
pub const RECOVERY_SQL: &'static str = "UPDATE provider_credit_movements SET status='RECOVERY_REQUIRED',safe_error_code=:1,updated_at=SYSTIMESTAMP WHERE operation_id=:2 AND status<>'APPLIED'";

/// Marks an intent as failed.
pub const FAIL_WAL_SQL: &'static str = "UPDATE operation_wal SET status='FAILED',error_json=:1,locked_by=NULL,locked_until=NULL,updated_at=SYSTIMESTAMP WHERE operation_id=:2 AND status<>'COMPLETED'";

/// Locks a movement and reads its status.
pub const MOVEMENT_STATUS_SQL: &'static str = "SELECT status FROM provider_credit_movements WHERE movement_id=:1 AND operation_id=:2 FOR UPDATE";

/// Locks an active card and reads its version.
pub const CARD_VERSION_SQL: &'static str = "SELECT state_version FROM cards WHERE card_id=:1 AND status='ACTIVE' FOR UPDATE";

/// Gives a card its next version.
pub const ADVANCE_CARD_SQL: &'static str = "UPDATE cards SET state_version=:1,updated_by_subject=:2,updated_at=SYSTIMESTAMP WHERE card_id=:3 AND state_version=:4";

/// Stores the event that tells a provider of a movement.
pub const EVENT_OUTBOX_SQL: &'static str = "INSERT INTO integration_outbox (outbox_event_id,operation_id,event_sequence,delivery_channel,provider_id,event_type,schema_version,aggregate_type,aggregate_id,partition_key,payload_json,delivery_gate_snapshot_json,status) VALUES (:1,:2,2,'PROVIDER',:3,:4,1,'PROVIDER_USER_ACCOUNT',:5,:6,:7,:8,:9)";

/// Marks a movement as made.
pub const APPLY_SQL: &'static str = "UPDATE provider_credit_movements SET status='APPLIED',card_state_version=:1,safe_error_code=NULL,updated_at=SYSTIMESTAMP WHERE movement_id=:2 AND status IN ('PENDING','RECOVERY_REQUIRED')";

/// Marks an intent as verified at the ledger.
pub const VERIFY_WAL_SQL: &'static str = "UPDATE operation_wal SET status='EXTERNAL_VERIFIED',response_json=:1,error_json=NULL,locked_by=NULL,locked_until=NULL,updated_at=SYSTIMESTAMP WHERE operation_id=:2 AND status IN ('PENDING','EXTERNAL_IN_FLIGHT','FAILED','EXTERNAL_VERIFIED')";

/// Reads an intent that is under way.
pub const RECOVERABLE_SQL: &'static str = "SELECT JSON_SERIALIZE(w.request_json RETURNING CLOB),c.card_number FROM operation_wal w JOIN provider_credit_movements m ON m.operation_id=w.operation_id JOIN cards c ON c.card_id=m.card_id WHERE w.operation_id=:1 AND w.status='EXTERNAL_IN_FLIGHT'";

/// Stores the fact of a movement.
pub const INSERT_TRANSACTION_SQL: &'static str = r#"INSERT INTO financial_transactions (transaction_id,transaction_type,source_system,source_operation_id,user_id,card_id,amount_rials,currency,status,external_reference,metadata_json,occurred_at) VALUES (:1,:2,'WURZBURG',:3,:4,:5,:6,'IRR','POSTED',:7,'{}',TO_TIMESTAMP_TZ(:8,'YYYY-MM-DD"T"HH24:MI:SS.FF3"Z"'))"#;

/// Stores one side of a movement.
pub const INSERT_ENTRY_SQL: &'static str = "INSERT INTO financial_transaction_entries (transaction_entry_id,transaction_id,entry_sequence,provider_id,account_id,account_category,direction,entry_role,amount_rials,tigerbeetle_transfer_id) VALUES (:1,:2,:3,:4,:5,:6,:7,'PRINCIPAL',:8,:9)";

/// Reads the status of a provider.
pub const PROVIDER_STATUS_SQL: &'static str = "SELECT status FROM providers WHERE provider_id=:1";

/// Reads the status of a customer.
pub const RELATIONSHIP_STATUS_SQL: &'static str = "SELECT status FROM provider_users WHERE provider_id=:1 AND user_id=:2";

/// Reads the accounts between which credit moves.
pub const CONTEXT_SQL: &'static str = "SELECT c.card_id,c.card_number,c.status,c.state_version,pu.provider_user_id,pu.provider_customer_reference,pua.tigerbeetle_account_id,owned.tigerbeetle_account_id,cms.tigerbeetle_account_id,fs.status FROM cards c JOIN card_provider_funding_sources fs ON fs.card_id=c.card_id AND fs.provider_id=:1 JOIN provider_users pu ON pu.provider_user_id=fs.provider_user_id AND pu.status='ACTIVE' JOIN provider_user_accounts pua ON pua.provider_user_account_id=fs.provider_user_account_id AND pua.status='ACTIVE' JOIN provider_ledger_accounts owned ON owned.provider_id=:2 AND owned.account_category='PROVIDER_OWNED' AND owned.status='ACTIVE' JOIN provider_ledger_accounts cms ON cms.provider_id=:3 AND cms.account_category='CMS_SETTLEMENT' AND cms.status='ACTIVE' WHERE c.card_number=:4 AND c.user_id=:5";

/// Counts a card of a user.
pub const CARD_EXISTS_SQL: &'static str = "SELECT COUNT(*) FROM cards WHERE card_number=:1 AND user_id=:2";

/// Reads whom a movement is about.
pub const EVENT_SUBJECT_SQL: &'static str = "SELECT c.card_number,pu.provider_customer_reference FROM cards c JOIN card_provider_funding_sources fs ON fs.card_id=c.card_id AND fs.provider_id=:1 JOIN provider_users pu ON pu.provider_user_id=fs.provider_user_id WHERE c.card_id=:2 AND c.user_id=:3";

/// Counts the movements of a provider with a reference.
pub const REFERENCE_SQL: &'static str = "SELECT COUNT(*) FROM provider_credit_movements WHERE provider_id=:1 AND provider_reference=:2";

/// Reads a movement.
pub const RESULT_SQL: &'static str = r#"SELECT operation_id,movement_type,provider_id,user_id,card_id,amount_rials,provider_reference,TO_CHAR(SYS_EXTRACT_UTC(created_at),'YYYY-MM-DD"T"HH24:MI:SS.FF3"Z"') FROM provider_credit_movements WHERE movement_id=:1"#;

/// Reads the accounts between which credit moves, and locks them where it is asked for.
pub open spec fn context_sql_text(lock: bool) -> Seq<char> {
    CONTEXT_SQL@ + (if lock {
        " FOR UPDATE"@
    } else {
        ""@
    })
}

fn context_sql(lock: bool) -> (r: String)
    ensures
        r@ == context_sql_text(lock),
{
    text::joined2(
        CONTEXT_SQL,
        if lock {
            " FOR UPDATE"
        } else {
            ""
        },
    )
}

/// The accounts between which credit moves, or why there are none.
#[derive(Debug)]
pub enum CreditAccountContextOutcome {
    Found(CreditAccountContext),
    ProviderNotFound,
    ProviderNotActive,
    RelationshipNotFound,
    RelationshipNotActive,
    CardNotFound,
    CardNotActive,
    FundingSourceNotActive,
}

/// What became of a movement that was to begin. A replayed answer is a JSON document.
#[derive(Debug)]
pub enum BeginCreditMovementOutcome {
    Prepared(CreditMovementIntent),
    Replayed(String),
    IdempotencyConflict,
    IdempotencyInProgress,
    ProviderReferenceConflict,
    ContextChanged,
    OperationalProfileChanged,
}

/// A movement that is under way: its command, its intent and its card.
#[derive(Debug)]
pub struct RecoverableMovement {
    pub payload: CreditMovementWalPayload,
    pub card_number: String,
}

/// Whom a movement is about.
pub struct EventSubject {
    pub masked_card_number: String,
    pub provider_customer_reference: String,
}

/// What a stored record means for a movement that comes again.
pub open spec fn classify_idempotency_spec(
    st: RunView,
    record: IdempotencyRecord,
    request_hash: String,
) -> (Result<BeginCreditMovementOutcome, HaltView>, RunView) {
    if record.request_hash@ != request_hash@ {
        (Ok(BeginCreditMovementOutcome::IdempotencyConflict), st)
    } else {
    match record.status {
        IdempotencyStatus::Completed => {
            match record.response_snapshot {
            None => {
                (script::query_fault("completed credit movement has no response"@), st)
            },
            Some(snapshot) =>
            match script::verdict_spec(
                st,
                Rule::Document(DocumentKind::CreditMovementResult, snapshot),
            ) { (Err(h), st) => (Err(h), st), (Ok(fault), st) =>
            if let Some(cause) = fault {
                (script::failed("invalid credit movement replay"@, cause@), st)
            } else {
            (Ok(BeginCreditMovementOutcome::Replayed(snapshot)), st)
            }}}
        },
        IdempotencyStatus::InProgress => {
            (Ok(BeginCreditMovementOutcome::IdempotencyInProgress), st)
        },
        _ => {
            (script::query_fault("credit movement idempotency record has invalid state"@), st)
        },
    }
    }
}

/// What a stored record means for a movement that comes again.
pub fn classify_idempotency(
    s: &mut Session,
    record: &IdempotencyRecord,
    request_hash: &String,
) -> (r: Result<BeginCreditMovementOutcome, Halt>)
    ensures
        (script::seen(r), final(s)@) == classify_idempotency_spec(old(s)@, *record, *request_hash),
{
    if !text::same_text(record.request_hash.as_str(), request_hash.as_str()) {
        return Ok(BeginCreditMovementOutcome::IdempotencyConflict);
    }
    match record.status {
        IdempotencyStatus::Completed => {
            let snapshot = match &record.response_snapshot {
                Some(v) => v,
                None => {
                    return Err(script::fail_query("completed credit movement has no response"));
                },
            };
            let fault = script::verdict(
                s,
                Rule::Document(DocumentKind::CreditMovementResult, snapshot.clone()),
            )?;
            if let Some(cause) = &fault {
                return Err(script::fail_because("invalid credit movement replay", cause.as_str()));
            }
            return Ok(BeginCreditMovementOutcome::Replayed(snapshot.clone()));
        },
        IdempotencyStatus::InProgress => {
            return Ok(BeginCreditMovementOutcome::IdempotencyInProgress);
        },
        _ => {
            return Err(script::fail_query("credit movement idempotency record has invalid state"));
        },
    }
}

/// The text that a statement finds, where it finds one.
pub open spec fn optional_string_spec(
    st: RunView,
    statement: Seq<char>,
    binds: Seq<Bind>,
) -> (Result<Option<String>, HaltView>, RunView) {
    script::maybe_text_spec(st, statement, binds, "failed to resolve provider credit state"@)
}

/// The text that a statement finds, where it finds one.
pub fn optional_string(
    s: &mut Session,
    statement: &str,
    binds: Vec<Bind>,
) -> (r: Result<Option<String>, Halt>)
    ensures
        (script::seen(r), final(s)@) == optional_string_spec(old(s)@, statement@, binds@),
{
    script::maybe_text(s, statement, binds, "failed to resolve provider credit state")
}

/// The accounts that a row holds, where the card and its funding are active.
#[verifier::opaque]
pub open spec fn map_context_spec(
    st: RunView,
    row: Row,
    provider_id: Uuid,
    user_id: Uuid,
) -> (Result<CreditAccountContextOutcome, HaltView>, RunView) {
    match row.text_at(2, READ_ROW@) { Err(h) => (Err(h), st), Ok(card_status) =>
    if card_status@ != "ACTIVE"@ {
        (Ok(CreditAccountContextOutcome::CardNotActive), st)
    } else {
    match row.text_at(9, READ_ROW@) { Err(h) => (Err(h), st), Ok(funding_status) =>
    if funding_status@ != "ACTIVE"@ {
        (Ok(CreditAccountContextOutcome::FundingSourceNotActive), st)
    } else {
    match row.text_at(1, READ_ROW@) { Err(h) => (Err(h), st), Ok(number) =>
    match row.raw_at(0, READ_ROW@) { Err(h) => (Err(h), st), Ok(card_id_raw) =>
    match script::id_of(card_id_raw@) { Err(h) => (Err(h), st), Ok(card_id) =>
    match script::consult_text_spec(
        st,
        Rule::MaskedCardNumber(number),
    ) { (Err(h), st) => (Err(h), st), (Ok(masked_card_number), st) =>
    match row.raw_at(4, READ_ROW@) { Err(h) => (Err(h), st), Ok(provider_user_id_raw) =>
    match script::id_of(provider_user_id_raw@) { Err(h) => (Err(h), st), Ok(provider_user_id) =>
    match row.text_at(5, READ_ROW@) { Err(h) => (Err(h), st), Ok(provider_customer_reference) =>
    match row.raw_at(6, READ_ROW@) { Err(h) => (Err(h), st), Ok(provider_user_account_id_raw) =>
    match script::id_of(
        provider_user_account_id_raw@,
    ) { Err(h) => (Err(h), st), Ok(provider_user_account_id) =>
    match row.raw_at(7, READ_ROW@) { Err(h) => (Err(h), st), Ok(provider_owned_account_id_raw) =>
    match script::id_of(
        provider_owned_account_id_raw@,
    ) { Err(h) => (Err(h), st), Ok(provider_owned_account_id) =>
    match row.raw_at(8, READ_ROW@) { Err(h) => (Err(h), st), Ok(cms_settlement_account_id_raw) =>
    match script::id_of(
        cms_settlement_account_id_raw@,
    ) { Err(h) => (Err(h), st), Ok(cms_settlement_account_id) =>
    match row.int_at(3, READ_ROW@) { Err(h) => (Err(h), st), Ok(card_state_version) =>
    (
        Ok(CreditAccountContextOutcome::Found(CreditAccountContext {
            provider_id,
            user_id,
            card_id,
            masked_card_number,
            card_number: number,
            provider_user_id,
            provider_customer_reference,
            provider_user_account_id,
            provider_owned_account_id,
            cms_settlement_account_id,
            card_state_version,
        })),
        st,
    )
    }}}}}}}}}}}}}}}}}}
}

/// The accounts that a row holds, where the card and its funding are active.
pub fn map_context(
    s: &mut Session,
    row: &Row,
    provider_id: Uuid,
    user_id: Uuid,
) -> (r: Result<CreditAccountContextOutcome, Halt>)
    ensures
        (script::seen(r), final(s)@) == map_context_spec(old(s)@, *row, provider_id, user_id),
{
    proof {
        reveal(map_context_spec);
    }
    let card_status = row.text(2, READ_ROW)?;
    if !text::same_text(card_status.as_str(), "ACTIVE") {
        return Ok(CreditAccountContextOutcome::CardNotActive);
    }
    let funding_status = row.text(9, READ_ROW)?;
    if !text::same_text(funding_status.as_str(), "ACTIVE") {
        return Ok(CreditAccountContextOutcome::FundingSourceNotActive);
    }
    let number = row.text(1, READ_ROW)?;
    let card_id_raw = row.raw(0, READ_ROW)?;
    let card_id = script::to_id(card_id_raw)?;
    let masked_card_number = script::consult_text(s, Rule::MaskedCardNumber(number.clone()))?;
    let provider_user_id_raw = row.raw(4, READ_ROW)?;
    let provider_user_id = script::to_id(provider_user_id_raw)?;
    let provider_customer_reference = row.text(5, READ_ROW)?;
    let provider_user_account_id_raw = row.raw(6, READ_ROW)?;
    let provider_user_account_id = script::to_id(provider_user_account_id_raw)?;
    let provider_owned_account_id_raw = row.raw(7, READ_ROW)?;
    let provider_owned_account_id = script::to_id(provider_owned_account_id_raw)?;
    let cms_settlement_account_id_raw = row.raw(8, READ_ROW)?;
    let cms_settlement_account_id = script::to_id(cms_settlement_account_id_raw)?;
    let card_state_version: i64 = row.number(3, READ_ROW)?;
    Ok(CreditAccountContextOutcome::Found(CreditAccountContext {
        provider_id,
        user_id,
        card_id,
        masked_card_number,
        card_number: number,
        provider_user_id,
        provider_customer_reference,
        provider_user_account_id,
        provider_owned_account_id,
        cms_settlement_account_id,
        card_state_version,
    }))
}

/// Reading a row changes nothing.
pub broadcast proof fn map_context_changes_nothing(
    st: RunView,
    row: Row,
    provider_id: Uuid,
    user_id: Uuid,
)
    ensures
        script::writes(
            (#[trigger] map_context_spec(st, row, provider_id, user_id)).1.log,
        ) == script::writes(st.log),
        forall|sql: Seq<char>| #[trigger]
            script::runs(
                map_context_spec(st, row, provider_id, user_id).1.log,
                sql,
            ) == script::runs(st.log, sql),
        forall|spared: Set<Seq<char>>| #[trigger]
            script::writes_beside(
                map_context_spec(st, row, provider_id, user_id).1.log,
                spared,
            ) == script::writes_beside(st.log, spared),
        forall|sql: Seq<char>, binds: Seq<Bind>| #[trigger]
            script::runs_on(map_context_spec(st, row, provider_id, user_id).1.log, sql, binds) == script::runs_on(
                st.log,
                sql,
                binds,
            ),
        forall|sql: Seq<char>| #[trigger]
            script::told(
                map_context_spec(st, row, provider_id, user_id).1.log,
                sql,
            ) == script::told(st.log, sql),
        forall|sql: Seq<char>, such: spec_fn(Seq<Bind>) -> bool| #[trigger]
            script::told_where(map_context_spec(st, row, provider_id, user_id).1.log, sql, such) == script::told_where(
                st.log,
                sql,
                such,
            ),
        forall|sql: Seq<char>, id: Uuid| #[trigger]
            script::stored_under(map_context_spec(st, row, provider_id, user_id).1.log, sql, id) == script::stored_under(
                st.log,
                sql,
                id,
            ),
{
    broadcast use {
        script::writes_with_another,
        script::runs_with_another,
        script::runs_on_with_another,
        script::told_with_another,
        script::told_where_with_another,
        script::stored_under_with_another,
        script::writes_beside_with_another,
    };

    reveal(map_context_spec);
}

/// The accounts between which credit of a provider moves for a card of a user, or why there are
/// none.
pub open spec fn resolve_context_spec(
    st: RunView,
    provider_id: Uuid,
    user_id: Uuid,
    card_number: String,
    lock: bool,
) -> (Result<CreditAccountContextOutcome, HaltView>, RunView) {
    match optional_string_spec(
        st,
        PROVIDER_STATUS_SQL@,
        seq![Bind::Id(provider_id)],
    ) { (Err(h), st) => (Err(h), st), (Ok(provider_status), st) =>
    match provider_status {
    None => {
        (Ok(CreditAccountContextOutcome::ProviderNotFound), st)
    },
    Some(status) =>
    if status@ != "ACTIVE"@ {
        (Ok(CreditAccountContextOutcome::ProviderNotActive), st)
    } else {
    match optional_string_spec(
        st,
        RELATIONSHIP_STATUS_SQL@,
        seq![Bind::Id(provider_id), Bind::Id(user_id)],
    ) { (Err(h), st) => (Err(h), st), (Ok(relationship_status), st) =>
    match relationship_status {
    None => {
        (Ok(CreditAccountContextOutcome::RelationshipNotFound), st)
    },
    Some(customer_status) =>
    if customer_status@ != "ACTIVE"@ {
        (Ok(CreditAccountContextOutcome::RelationshipNotActive), st)
    } else {
    match script::first_row_spec(
        st,
        context_sql_text(lock),
        seq![
            Bind::Id(provider_id),
            Bind::Id(provider_id),
            Bind::Id(provider_id),
            Bind::Text(card_number),
            Bind::Id(user_id),
        ],
        "rttirtrrrt",
        "failed to resolve provider credit context"@,
        "failed to read provider credit context"@,
    ) { (Err(h), st) => (Err(h), st), (Ok(found), st) =>
    if let Some(row) = found {
        map_context_spec(st, row, provider_id, user_id)
    } else {
    match script::one_int_spec(
        st,
        CARD_EXISTS_SQL@,
        seq![Bind::Text(card_number), Bind::Id(user_id)],
        "failed to classify provider credit card"@,
    ) { (Err(h), st) => (Err(h), st), (Ok(cards), st) =>
    if cards == 0 {
        (Ok(CreditAccountContextOutcome::CardNotFound), st)
    } else {
    (Ok(CreditAccountContextOutcome::FundingSourceNotActive), st)
    }}}}}}}}}}
}

/// The accounts between which credit of a provider moves for a card of a user, or why there are
/// none.
pub fn resolve_context(
    s: &mut Session,
    provider_id: Uuid,
    user_id: Uuid,
    card_number: &String,
    lock: bool,
) -> (r: Result<CreditAccountContextOutcome, Halt>)
    ensures
        (script::seen(r), final(s)@) == resolve_context_spec(
            old(s)@,
            provider_id,
            user_id,
            *card_number,
            lock,
        ),
{
    let provider_status = optional_string(
        s,
        PROVIDER_STATUS_SQL,
        binds::binds1(Bind::Id(provider_id)),
    )?;
    let status = match &provider_status {
        Some(v) => v,
        None => {
            return Ok(CreditAccountContextOutcome::ProviderNotFound);
        },
    };
    if !text::same_text(status.as_str(), "ACTIVE") {
        return Ok(CreditAccountContextOutcome::ProviderNotActive);
    }
    let relationship_status = optional_string(
        s,
        RELATIONSHIP_STATUS_SQL,
        binds::binds2(Bind::Id(provider_id), Bind::Id(user_id)),
    )?;
    let customer_status = match &relationship_status {
        Some(v) => v,
        None => {
            return Ok(CreditAccountContextOutcome::RelationshipNotFound);
        },
    };
    if !text::same_text(customer_status.as_str(), "ACTIVE") {
        return Ok(CreditAccountContextOutcome::RelationshipNotActive);
    }
    let found = script::first_row(
        s,
        context_sql(lock).as_str(),
        binds::binds5(
            Bind::Id(provider_id),
            Bind::Id(provider_id),
            Bind::Id(provider_id),
            Bind::Text(card_number.clone()),
            Bind::Id(user_id),
        ),
        "rttirtrrrt",
        "failed to resolve provider credit context",
        "failed to read provider credit context",
    )?;
    if let Some(row) = found {
        return map_context(s, row, provider_id, user_id);
    }
    let cards = script::one_int(
        s,
        CARD_EXISTS_SQL,
        binds::binds2(Bind::Text(card_number.clone()), Bind::Id(user_id)),
        "failed to classify provider credit card",
    )?;
    if cards == 0 {
        return Ok(CreditAccountContextOutcome::CardNotFound);
    }
    Ok(CreditAccountContextOutcome::FundingSourceNotActive)
}

/// The accounts between which credit of a provider moves for a card of a user, or why there are
/// none.
pub open spec fn resolve_credit_account_context_spec(
    st: RunView,
    provider_id: Uuid,
    user_id: Uuid,
    card_number: String,
) -> (Result<CreditAccountContextOutcome, HaltView>, RunView) {
    resolve_context_spec(st, provider_id, user_id, card_number, false)
}

impl OracleRepository {
    /// The accounts between which credit of a provider moves for a card of a user, or why there are
    /// none.
    pub fn resolve_credit_account_context(
        s: &mut Session,
        provider_id: Uuid,
        user_id: Uuid,
        card_number: &String,
    ) -> (r: Result<CreditAccountContextOutcome, Halt>)
        ensures
            (script::seen(r), final(s)@) == resolve_credit_account_context_spec(
                old(s)@,
                provider_id,
                user_id,
                *card_number,
            ),
    {
        resolve_context(s, provider_id, user_id, card_number, false)
    }
}

/// What a stored record means for a movement, where there is one.
pub open spec fn find_credit_movement_replay_spec(
    st: RunView,
    context: MutationCommandContext,
) -> (Result<Option<BeginCreditMovementOutcome>, HaltView>, RunView) {
    match idempotency::fetch_idempotency_record_spec(
        st,
        context.operation_type,
        context.idempotency_key,
    ) { (Err(h), st) => (Err(h), st), (Ok(existing), st) =>
    match existing {
    None => {
        (Ok(None), st)
    },
    Some(record) =>
    match classify_idempotency_spec(
        st,
        record,
        context.request_hash,
    ) { (Err(h), st) => (Err(h), st), (Ok(outcome), st) =>
    (Ok(Some(outcome)), st)
    }}}
}

impl OracleRepository {
    /// What a stored record means for a movement, where there is one.
    pub fn find_credit_movement_replay(
        s: &mut Session,
        context: &MutationCommandContext,
    ) -> (r: Result<Option<BeginCreditMovementOutcome>, Halt>)
        ensures
            (script::seen(r), final(s)@) == find_credit_movement_replay_spec(old(s)@, *context),
    {
        let existing = idempotency::fetch_idempotency_record(
            s,
            &context.operation_type,
            &context.idempotency_key,
        )?;
        let record = match &existing {
            Some(v) => v,
            None => {
                return Ok(None);
            },
        };
        let outcome = classify_idempotency(s, record, &context.request_hash)?;
        Ok(Some(outcome))
    }
}

/// Whether a provider used a reference before.
pub open spec fn provider_reference_exists_spec(
    st: RunView,
    provider_id: Uuid,
    reference: Option<String>,
) -> (Result<bool, HaltView>, RunView) {
    match reference {
    None => {
        (Ok(false), st)
    },
    Some(used) =>
    match script::one_int_spec(
        st,
        REFERENCE_SQL@,
        seq![Bind::Id(provider_id), Bind::Text(used)],
        "failed to check provider credit reference"@,
    ) { (Err(h), st) => (Err(h), st), (Ok(count), st) =>
    (Ok(count > 0), st)
    }}
}

/// Whether a provider used a reference before.
pub fn provider_reference_exists(
    s: &mut Session,
    provider_id: Uuid,
    reference: &Option<String>,
) -> (r: Result<bool, Halt>)
    ensures
        (script::seen(r), final(s)@) == provider_reference_exists_spec(
            old(s)@,
            provider_id,
            *reference,
        ),
{
    let used = match reference {
        Some(v) => v,
        None => {
            return Ok(false);
        },
    };
    let count = script::one_int(
        s,
        REFERENCE_SQL,
        binds::binds2(Bind::Id(provider_id), Bind::Text(used.clone())),
        "failed to check provider credit reference",
    )?;
    Ok(count > 0)
}

/// The accounts of an intent are those that were found.
pub open spec fn same_accounts(
    outcome: CreditAccountContextOutcome,
    intent: CreditMovementIntent,
) -> bool {
    match outcome {
        CreditAccountContextOutcome::Found(found) => found.card_id == intent.card_id
            && found.provider_user_account_id == intent.provider_user_account_id
            && found.provider_owned_account_id == intent.provider_owned_account_id,
        _ => false,
    }
}

fn accounts_match(outcome: &CreditAccountContextOutcome, intent: &CreditMovementIntent) -> (r: bool)
    ensures
        r == same_accounts(*outcome, *intent),
{
    match outcome {
        CreditAccountContextOutcome::Found(found) => found.card_id == intent.card_id
            && found.provider_user_account_id == intent.provider_user_account_id
            && found.provider_owned_account_id == intent.provider_owned_account_id,
        _ => false,
    }
}

/// An amount as a database number, or the message where it is too great.
pub open spec fn amount_of(amount: u64, message: Seq<char>) -> Result<i64, HaltView> {
    if amount <= i64::MAX {
        Ok(amount as i64)
    } else {
        script::query_fault(message)
    }
}

fn to_amount(amount: u64, message: &str) -> (r: Result<i64, Halt>)
    ensures
        script::seen(r) == amount_of(amount, message@),
{
    if amount <= i64::MAX as u64 {
        Ok(amount as i64)
    } else {
        Err(script::fail_query(message))
    }
}

/// An optional amount as a database number, or the message where it is too great.
pub open spec fn opt_amount_of(
    amount: Option<u64>,
    message: Seq<char>,
) -> Result<Option<i64>, HaltView> {
    match amount {
        None => Ok(None),
        Some(a) => match amount_of(a, message) {
            Ok(n) => Ok(Some(n)),
            Err(h) => Err(h),
        },
    }
}

fn to_opt_amount(amount: Option<u64>, message: &str) -> (r: Result<Option<i64>, Halt>)
    ensures
        script::seen(r) == opt_amount_of(amount, message@),
{
    match amount {
        None => Ok(None),
        Some(a) => match to_amount(a, message) {
            Ok(n) => Ok(Some(n)),
            Err(h) => Err(h),
        },
    }
}

/// What the reply to storing a movement means: a reference that was used before is a conflict, so
/// that the transaction rolls the command's record back.
pub open spec fn insertion_result(reply: Reply) -> Result<(), HaltView> {
    match reply {
        Reply::Executed(_) => Ok(()),
        Reply::Failed(f) => if text::contains_text(
            text::ascii_uppercase(f.text@),
            "UQ_PCM_PROVIDER_REFERENCE"@,
        ) {
            script::conflict_fault(REFERENCE_TAKEN@)
        } else {
            script::failed("failed to insert provider credit movement"@, f.text@)
        },
        _ => script::failed("failed to insert provider credit movement"@, UNEXPECTED_REPLY@),
    }
}

fn insertion(reply: &Reply) -> (r: Result<(), Halt>)
    ensures
        script::seen(r) == insertion_result(*reply),
{
    match reply {
        Reply::Executed(_) => Ok(()),
        Reply::Failed(f) => if text::contains_in_uppercase(
            f.text.as_str(),
            "UQ_PCM_PROVIDER_REFERENCE",
        ) {
            Err(script::fail_conflict(REFERENCE_TAKEN))
        } else {
            Err(script::fail_because("failed to insert provider credit movement", f.text.as_str()))
        },
        _ => Err(
            script::fail_because("failed to insert provider credit movement", UNEXPECTED_REPLY),
        ),
    }
}

/// Stores the command, the intent and the movement.
#[verifier::opaque]
pub open spec fn store_movement_spec(
    st: RunView,
    context: MutationCommandContext,
    intent: CreditMovementIntent,
) -> (Result<BeginCreditMovementOutcome, HaltView>, RunView) {
    match idempotency::insert_idempotency_record_spec(
        st,
        context.record,
    ) { (Err(h), st) => (Err(h), st), (Ok(_), st) =>
    match script::encode_spec(
        st,
        Rule::CreditMovementWal(context.lasting(), intent),
        "failed to serialize credit movement WAL"@,
    ) { (Err(h), st) => (Err(h), st), (Ok(payload), st) =>
    match script::execute_spec(
        st,
        INSERT_WAL_SQL@,
        seq![
            Bind::Id(intent.operation_id),
            Bind::Id(intent.movement_id),
            Bind::Id(intent.deterministic_transfer_id),
            Bind::Text(payload),
        ],
        "failed to insert credit movement WAL"@,
    ) { (Err(h), st) => (Err(h), st), (Ok(_), st) =>
    match amount_of(
        intent.amount_rials,
        "credit amount exceeds Oracle contract"@,
    ) { Err(h) => (Err(h), st), Ok(amount) =>
    match opt_amount_of(
        intent.expected_remaining_amount_rials,
        "expected credit balance exceeds Oracle contract"@,
    ) { Err(h) => (Err(h), st), Ok(expected) =>
    match script::attempt_spec(
        st,
        INSERT_MOVEMENT_SQL@,
        seq![
            Bind::Id(intent.movement_id),
            Bind::Id(intent.operation_id),
            Bind::Label(intent.movement_type.code()),
            Bind::Text(intent.initiated_by),
            Bind::Id(intent.provider_id),
            Bind::Id(intent.user_id),
            Bind::Id(intent.card_id),
            Bind::Id(intent.provider_user_account_id),
            Bind::Id(intent.provider_owned_account_id),
            Bind::Int(amount),
            Bind::OptInt(expected),
            Bind::OptText(intent.provider_reference),
            Bind::Id(intent.deterministic_transfer_id),
            Bind::Text(intent.reason),
            Bind::JsonText(intent.metadata),
        ],
    ) { (Err(h), st) => (Err(h), st), (Ok(reply), st) =>
    match insertion_result(reply) { Err(h) => (Err(h), st), Ok(_) =>
    (Ok(BeginCreditMovementOutcome::Prepared(intent)), st)
    }}}}}}}
}

/// Stores the command, the intent and the movement.
pub fn store_movement(
    s: &mut Session,
    context: &MutationCommandContext,
    intent: &CreditMovementIntent,
) -> (r: Result<BeginCreditMovementOutcome, Halt>)
    ensures
        (script::seen(r), final(s)@) == store_movement_spec(old(s)@, *context, *intent),
{
    proof {
        reveal(store_movement_spec);
    }
    idempotency::insert_idempotency_record(s, &context.record)?;
    let payload = script::encode(
        s,
        Rule::CreditMovementWal(context.durable(), intent.clone()),
        "failed to serialize credit movement WAL",
    )?;
    script::execute(
        s,
        INSERT_WAL_SQL,
        binds::binds4(
            Bind::Id(intent.operation_id),
            Bind::Id(intent.movement_id),
            Bind::Id(intent.deterministic_transfer_id),
            Bind::Text(payload.clone()),
        ),
        "failed to insert credit movement WAL",
    )?;
    let amount: i64 = to_amount(intent.amount_rials, "credit amount exceeds Oracle contract")?;
    let expected = to_opt_amount(
        intent.expected_remaining_amount_rials,
        "expected credit balance exceeds Oracle contract",
    )?;
    let reply = script::attempt(
        s,
        INSERT_MOVEMENT_SQL,
        binds::binds15(
            Bind::Id(intent.movement_id),
            Bind::Id(intent.operation_id),
            Bind::Label(intent.movement_type.as_db_value()),
            Bind::Text(intent.initiated_by.clone()),
            Bind::Id(intent.provider_id),
            Bind::Id(intent.user_id),
            Bind::Id(intent.card_id),
            Bind::Id(intent.provider_user_account_id),
            Bind::Id(intent.provider_owned_account_id),
            Bind::Int(amount),
            Bind::OptInt(expected),
            Bind::OptText(copied(&intent.provider_reference)),
            Bind::Id(intent.deterministic_transfer_id),
            Bind::Text(intent.reason.clone()),
            Bind::JsonText(intent.metadata.clone()),
        ),
    )?;
    insertion(reply)?;
    Ok(BeginCreditMovementOutcome::Prepared(intent.clone()))
}

fn is_profile(found: Option<Uuid>, expected: Uuid) -> (r: bool)
    ensures
        r == (found == Some(expected)),
{
    match found {
        Some(id) => id == expected,
        None => false,
    }
}

/// Begins a movement of credit, where its accounts and the operational profile are still those of
/// its intent. Under one idempotency key, and under one reference of a provider, this happens once.
pub open spec fn begin_credit_movement_atomic_spec(
    st: RunView,
    context: MutationCommandContext,
    intent: CreditMovementIntent,
    card_number: String,
) -> (Result<BeginCreditMovementOutcome, HaltView>, RunView) {
    match idempotency::fetch_idempotency_record_spec(
        st,
        context.operation_type,
        context.idempotency_key,
    ) { (Err(h), st) => (Err(h), st), (Ok(existing), st) =>
    if let Some(record) = existing {
        classify_idempotency_spec(st, record, context.request_hash)
    } else {
    match provider_reference_exists_spec(
        st,
        intent.provider_id,
        intent.provider_reference,
    ) { (Err(h), st) => (Err(h), st), (Ok(taken), st) =>
    if taken {
        (Ok(BeginCreditMovementOutcome::ProviderReferenceConflict), st)
    } else {
    match resolve_context_spec(
        st,
        intent.provider_id,
        intent.user_id,
        card_number,
        true,
    ) { (Err(h), st) => (Err(h), st), (Ok(resolved), st) =>
    if !same_accounts(resolved, intent) {
        (Ok(BeginCreditMovementOutcome::ContextChanged), st)
    } else {
    match script::maybe_id_spec(
        st,
        ACTIVE_PROFILE_SQL@,
        seq![Bind::Id(intent.provider_id)],
        "failed to revalidate provider operational profile"@,
    ) { (Err(h), st) => (Err(h), st), (Ok(profile), st) =>
    if profile != Some(intent.operational_profile_id) {
        (Ok(BeginCreditMovementOutcome::OperationalProfileChanged), st)
    } else {
    store_movement_spec(st, context, intent)
    }}}}}}}}
}

impl OracleRepository {
    /// Begins a movement of credit, where its accounts and the operational profile are still those
    /// of its intent. Under one idempotency key, and under one reference of a provider, this
    /// happens once.
    pub fn begin_credit_movement_atomic(
        s: &mut Session,
        context: &MutationCommandContext,
        intent: &CreditMovementIntent,
        card_number: &String,
    ) -> (r: Result<BeginCreditMovementOutcome, Halt>)
        ensures
            (script::seen(r), final(s)@) == begin_credit_movement_atomic_spec(
                old(s)@,
                *context,
                *intent,
                *card_number,
            ),
    {
        let existing = idempotency::fetch_idempotency_record(
            s,
            &context.operation_type,
            &context.idempotency_key,
        )?;
        if let Some(record) = &existing {
            return classify_idempotency(s, record, &context.request_hash);
        }
        let taken = provider_reference_exists(s, intent.provider_id, &intent.provider_reference)?;
        if taken {
            return Ok(BeginCreditMovementOutcome::ProviderReferenceConflict);
        }
        let resolved = resolve_context(s, intent.provider_id, intent.user_id, card_number, true)?;
        if !accounts_match(&resolved, intent) {
            return Ok(BeginCreditMovementOutcome::ContextChanged);
        }
        let profile = script::maybe_id(
            s,
            ACTIVE_PROFILE_SQL,
            binds::binds1(Bind::Id(intent.provider_id)),
            "failed to revalidate provider operational profile",
        )?;
        if !is_profile(profile, intent.operational_profile_id) {
            return Ok(BeginCreditMovementOutcome::OperationalProfileChanged);
        }
        store_movement(s, context, intent)
    }
}

/// The outcome of a movement whose transaction ended: a reference that another movement took at the
/// same time is a conflict of references.
pub open spec fn settle_begin_result(
    result: Result<BeginCreditMovementOutcome, DbError>,
) -> Result<BeginCreditMovementOutcome, DbError> {
    match result {
        Err(DbError::Conflict(message)) => if message@ == REFERENCE_TAKEN@ {
            Ok(BeginCreditMovementOutcome::ProviderReferenceConflict)
        } else {
            Err(DbError::Conflict(message))
        },
        other => other,
    }
}

/// The outcome of a movement whose transaction ended: a reference that another movement took at the
/// same time is a conflict of references.
pub fn settle_begin(
    result: Result<BeginCreditMovementOutcome, DbError>,
) -> (r: Result<BeginCreditMovementOutcome, DbError>)
    ensures
        r == settle_begin_result(result),
{
    match result {
        Err(DbError::Conflict(message)) => if text::same_text(message.as_str(), REFERENCE_TAKEN) {
            Ok(BeginCreditMovementOutcome::ProviderReferenceConflict)
        } else {
            Err(DbError::Conflict(message))
        },
        other => other,
    }
}

/// Marks the intent of a movement as under way at the ledger.
pub open spec fn mark_credit_movement_external_in_flight_spec(
    st: RunView,
    operation_id: Uuid,
) -> (Result<(), HaltView>, RunView) {
    match script::execute_count_spec(
        st,
        IN_FLIGHT_SQL@,
        seq![Bind::Id(operation_id)],
        "failed to update provider credit WAL"@,
        READ_ROW@,
    ) { (Err(h), st) => (Err(h), st), (Ok(touched), st) =>
    if touched != 1 {
        (script::conflict_fault("credit movement WAL cannot enter external execution"@), st)
    } else {
    (Ok(()), st)
    }}
}

impl OracleRepository {
    /// Marks the intent of a movement as under way at the ledger.
    pub fn mark_credit_movement_external_in_flight(
        s: &mut Session,
        operation_id: Uuid,
    ) -> (r: Result<(), Halt>)
        ensures
            (script::seen(r), final(s)@) == mark_credit_movement_external_in_flight_spec(
                old(s)@,
                operation_id,
            ),
    {
        let touched = script::execute_count(
            s,
            IN_FLIGHT_SQL,
            binds::binds1(Bind::Id(operation_id)),
            "failed to update provider credit WAL",
            READ_ROW,
        )?;
        if touched != 1 {
            return Err(script::fail_conflict(
                "credit movement WAL cannot enter external execution",
            ));
        }
        Ok(())
    }
}

/// Marks a movement for recovery, and its intent as failed.
pub open spec fn mark_credit_movement_recovery_required_spec(
    st: RunView,
    operation_id: Uuid,
    safe_error_code: &'static str,
) -> (Result<(), HaltView>, RunView) {
    match script::execute_spec(
        st,
        RECOVERY_SQL@,
        seq![Bind::Label(safe_error_code), Bind::Id(operation_id)],
        "failed to mark credit movement recovery required"@,
    ) { (Err(h), st) => (Err(h), st), (Ok(_), st) =>
    match script::execute_spec(
        st,
        FAIL_WAL_SQL@,
        seq![Bind::Json(Document::ErrorCode(safe_error_code)), Bind::Id(operation_id)],
        "failed to reschedule credit movement WAL"@,
    ) { (Err(h), st) => (Err(h), st), (Ok(_), st) =>
    (Ok(()), st)
    }}
}

impl OracleRepository {
    /// Marks a movement for recovery, and its intent as failed.
    pub fn mark_credit_movement_recovery_required(
        s: &mut Session,
        operation_id: Uuid,
        safe_error_code: &'static str,
    ) -> (r: Result<(), Halt>)
        ensures
            (script::seen(r), final(s)@) == mark_credit_movement_recovery_required_spec(
                old(s)@,
                operation_id,
                safe_error_code,
            ),
    {
        script::execute(
            s,
            RECOVERY_SQL,
            binds::binds2(Bind::Label(safe_error_code), Bind::Id(operation_id)),
            "failed to mark credit movement recovery required",
        )?;
        script::execute(
            s,
            FAIL_WAL_SQL,
            binds::binds2(Bind::Json(Document::ErrorCode(safe_error_code)), Bind::Id(operation_id)),
            "failed to reschedule credit movement WAL",
        )?;
        Ok(())
    }
}

/// One side of a movement: an account, what it is for, and whether it is debited or credited.
pub struct LedgerEntry {
    pub sequence: i64,
    pub account_id: Uuid,
    pub category: &'static str,
    pub direction: &'static str,
}

/// The side of a movement that is debited: the provider's own account for a grant, the customer's
/// for a return.
pub open spec fn debit_entry(intent: CreditMovementIntent) -> LedgerEntry {
    match intent.movement_type {
        CreditMovementType::Grant => LedgerEntry {
            sequence: 1,
            account_id: intent.provider_owned_account_id,
            category: "PROVIDER_OWNED",
            direction: "DEBIT",
        },
        CreditMovementType::ReturnFullBalance => LedgerEntry {
            sequence: 1,
            account_id: intent.provider_user_account_id,
            category: "PROVIDER_USER",
            direction: "DEBIT",
        },
    }
}

/// The side of a movement that is credited.
pub open spec fn credit_entry(intent: CreditMovementIntent) -> LedgerEntry {
    match intent.movement_type {
        CreditMovementType::Grant => LedgerEntry {
            sequence: 2,
            account_id: intent.provider_user_account_id,
            category: "PROVIDER_USER",
            direction: "CREDIT",
        },
        CreditMovementType::ReturnFullBalance => LedgerEntry {
            sequence: 2,
            account_id: intent.provider_owned_account_id,
            category: "PROVIDER_OWNED",
            direction: "CREDIT",
        },
    }
}

fn debit_side(intent: &CreditMovementIntent) -> (r: LedgerEntry)
    ensures
        r == debit_entry(*intent),
{
    match intent.movement_type {
        CreditMovementType::Grant => LedgerEntry {
            sequence: 1,
            account_id: intent.provider_owned_account_id,
            category: "PROVIDER_OWNED",
            direction: "DEBIT",
        },
        CreditMovementType::ReturnFullBalance => LedgerEntry {
            sequence: 1,
            account_id: intent.provider_user_account_id,
            category: "PROVIDER_USER",
            direction: "DEBIT",
        },
    }
}

fn credit_side(intent: &CreditMovementIntent) -> (r: LedgerEntry)
    ensures
        r == credit_entry(*intent),
{
    match intent.movement_type {
        CreditMovementType::Grant => LedgerEntry {
            sequence: 2,
            account_id: intent.provider_user_account_id,
            category: "PROVIDER_USER",
            direction: "CREDIT",
        },
        CreditMovementType::ReturnFullBalance => LedgerEntry {
            sequence: 2,
            account_id: intent.provider_owned_account_id,
            category: "PROVIDER_OWNED",
            direction: "CREDIT",
        },
    }
}

/// A return of credit debits the account that its grant credited, and credits the one that it
/// debited.
pub proof fn return_reverses_grant(granted: CreditMovementIntent, returned: CreditMovementIntent)
    requires
        granted.movement_type == CreditMovementType::Grant,
        returned.movement_type == CreditMovementType::ReturnFullBalance,
        granted.provider_owned_account_id == returned.provider_owned_account_id,
        granted.provider_user_account_id == returned.provider_user_account_id,
    ensures
        debit_entry(returned).account_id == credit_entry(granted).account_id,
        credit_entry(returned).account_id == debit_entry(granted).account_id,
{
}

/// The kind of fact that a movement is.
pub open spec fn transaction_kind(movement_type: CreditMovementType) -> &'static str {
    match movement_type {
        CreditMovementType::Grant => "CREDIT_GRANTED",
        CreditMovementType::ReturnFullBalance => "CREDIT_RETURNED",
    }
}

fn kind_of(movement_type: CreditMovementType) -> (r: &'static str)
    ensures
        r == transaction_kind(movement_type),
{
    match movement_type {
        CreditMovementType::Grant => "CREDIT_GRANTED",
        CreditMovementType::ReturnFullBalance => "CREDIT_RETURNED",
    }
}

/// Stores one side of a movement.
pub open spec fn insert_entry_spec(
    st: RunView,
    intent: CreditMovementIntent,
    entry: LedgerEntry,
    amount: i64,
) -> (Result<(), HaltView>, RunView) {
    match script::fresh_id_spec(st) { (Err(h), st) => (Err(h), st), (Ok(entry_id), st) =>
    match script::execute_spec(
        st,
        INSERT_ENTRY_SQL@,
        seq![
            Bind::Id(entry_id),
            Bind::Id(intent.movement_id),
            Bind::Int(entry.sequence),
            Bind::Id(intent.provider_id),
            Bind::Id(entry.account_id),
            Bind::Label(entry.category),
            Bind::Label(entry.direction),
            Bind::Int(amount),
            Bind::Id(intent.deterministic_transfer_id),
        ],
        "failed to insert provider credit transaction entry"@,
    ) { (Err(h), st) => (Err(h), st), (Ok(_), st) =>
    (Ok(()), st)
    }}
}

/// Stores one side of a movement.
pub fn insert_entry(
    s: &mut Session,
    intent: &CreditMovementIntent,
    entry: LedgerEntry,
    amount: i64,
) -> (r: Result<(), Halt>)
    ensures
        (script::seen(r), final(s)@) == insert_entry_spec(old(s)@, *intent, entry, amount),
{
    let entry_id = script::fresh_id(s)?;
    script::execute(
        s,
        INSERT_ENTRY_SQL,
        binds::binds9(
            Bind::Id(entry_id),
            Bind::Id(intent.movement_id),
            Bind::Int(entry.sequence),
            Bind::Id(intent.provider_id),
            Bind::Id(entry.account_id),
            Bind::Label(entry.category),
            Bind::Label(entry.direction),
            Bind::Int(amount),
            Bind::Id(intent.deterministic_transfer_id),
        ),
        "failed to insert provider credit transaction entry",
    )?;
    Ok(())
}

/// Stores the fact of a movement with its two sides, in the transaction that marks the movement as
/// made. They are the transfer itself, and no balance.
pub open spec fn insert_credit_transaction_fact_spec(
    st: RunView,
    intent: CreditMovementIntent,
    occurred_at: UtcTime,
) -> (Result<(), HaltView>, RunView) {
    match amount_of(
        intent.amount_rials,
        "credit amount exceeds transaction contract"@,
    ) { Err(h) => (Err(h), st), Ok(amount) =>
    match script::execute_spec(
        st,
        INSERT_TRANSACTION_SQL@,
        seq![
            Bind::Id(intent.movement_id),
            Bind::Label(transaction_kind(intent.movement_type)),
            Bind::Id(intent.operation_id),
            Bind::Id(intent.user_id),
            Bind::Id(intent.card_id),
            Bind::Int(amount),
            Bind::OptText(intent.provider_reference),
            Bind::Time(occurred_at),
        ],
        "failed to insert provider credit transaction fact"@,
    ) { (Err(h), st) => (Err(h), st), (Ok(_), st) =>
    match insert_entry_spec(
        st,
        intent,
        debit_entry(intent),
        amount,
    ) { (Err(h), st) => (Err(h), st), (Ok(_), st) =>
    insert_entry_spec(st, intent, credit_entry(intent), amount)
    }}}
}

/// Stores the fact of a movement with its two sides, in the transaction that marks the movement as
/// made. They are the transfer itself, and no balance.
pub fn insert_credit_transaction_fact(
    s: &mut Session,
    intent: &CreditMovementIntent,
    occurred_at: UtcTime,
) -> (r: Result<(), Halt>)
    ensures
        (script::seen(r), final(s)@) == insert_credit_transaction_fact_spec(
            old(s)@,
            *intent,
            occurred_at,
        ),
{
    let amount: i64 = to_amount(intent.amount_rials, "credit amount exceeds transaction contract")?;
    script::execute(
        s,
        INSERT_TRANSACTION_SQL,
        binds::binds8(
            Bind::Id(intent.movement_id),
            Bind::Label(kind_of(intent.movement_type)),
            Bind::Id(intent.operation_id),
            Bind::Id(intent.user_id),
            Bind::Id(intent.card_id),
            Bind::Int(amount),
            Bind::OptText(copied(&intent.provider_reference)),
            Bind::Time(occurred_at),
        ),
        "failed to insert provider credit transaction fact",
    )?;
    insert_entry(s, intent, debit_side(intent), amount)?;
    insert_entry(s, intent, credit_side(intent), amount)
}

/// Whom a movement is about.
pub open spec fn load_event_subject_spec(
    st: RunView,
    intent: CreditMovementIntent,
) -> (Result<EventSubject, HaltView>, RunView) {
    match script::one_row_spec(
        st,
        EVENT_SUBJECT_SQL@,
        seq![Bind::Id(intent.provider_id), Bind::Id(intent.card_id), Bind::Id(intent.user_id)],
        "tt",
        "failed to load provider credit event subject"@,
    ) { (Err(h), st) => (Err(h), st), (Ok(row), st) =>
    match row.text_at(0, READ_ROW@) { Err(h) => (Err(h), st), Ok(card_number) =>
    match row.text_at(1, READ_ROW@) { Err(h) => (Err(h), st), Ok(provider_customer_reference) =>
    match script::consult_text_spec(
        st,
        Rule::MaskedCardNumber(card_number),
    ) { (Err(h), st) => (Err(h), st), (Ok(masked_card_number), st) =>
    (Ok(EventSubject { masked_card_number, provider_customer_reference }), st)
    }}}}
}

/// Whom a movement is about.
pub fn load_event_subject(
    s: &mut Session,
    intent: &CreditMovementIntent,
) -> (r: Result<EventSubject, Halt>)
    ensures
        (script::seen(r), final(s)@) == load_event_subject_spec(old(s)@, *intent),
{
    let row = script::one_row(
        s,
        EVENT_SUBJECT_SQL,
        binds::binds3(
            Bind::Id(intent.provider_id),
            Bind::Id(intent.card_id),
            Bind::Id(intent.user_id),
        ),
        "tt",
        "failed to load provider credit event subject",
    )?;
    let card_number = row.text(0, READ_ROW)?;
    let provider_customer_reference = row.text(1, READ_ROW)?;
    let masked_card_number = script::consult_text(s, Rule::MaskedCardNumber(card_number))?;
    Ok(EventSubject { masked_card_number, provider_customer_reference })
}

/// A movement that was made.
pub open spec fn fetch_result_spec(
    st: RunView,
    movement_id: Uuid,
) -> (Result<CreditMovementResult, HaltView>, RunView) {
    match script::one_row_spec(
        st,
        RESULT_SQL@,
        seq![Bind::Id(movement_id)],
        "rtrrriTt",
        "failed to load provider credit result"@,
    ) { (Err(h), st) => (Err(h), st), (Ok(row), st) =>
    match row.text_at(1, READ_ROW@) { Err(h) => (Err(h), st), Ok(type_text) =>
    match row.int_at(5, READ_ROW@) { Err(h) => (Err(h), st), Ok(amount) =>
    match row.raw_at(0, READ_ROW@) { Err(h) => (Err(h), st), Ok(operation_id_raw) =>
    match script::id_of(operation_id_raw@) { Err(h) => (Err(h), st), Ok(operation_id) =>
    match CreditMovementType::of_code(type_text@) {
    None => {
        (script::query_fault("unknown provider credit movement type"@), st)
    },
    Some(movement_type) =>
    match row.raw_at(2, READ_ROW@) { Err(h) => (Err(h), st), Ok(provider_id_raw) =>
    match script::id_of(provider_id_raw@) { Err(h) => (Err(h), st), Ok(provider_id) =>
    match row.raw_at(3, READ_ROW@) { Err(h) => (Err(h), st), Ok(user_id_raw) =>
    match script::id_of(user_id_raw@) { Err(h) => (Err(h), st), Ok(user_id) =>
    match row.raw_at(4, READ_ROW@) { Err(h) => (Err(h), st), Ok(card_id_raw) =>
    match script::id_of(card_id_raw@) { Err(h) => (Err(h), st), Ok(card_id) =>
    if amount < 0 {
        (script::query_fault("invalid provider credit amount"@), st)
    } else {
    match row.opt_text_at(6, READ_ROW@) { Err(h) => (Err(h), st), Ok(provider_reference) =>
    match row.text_at(7, READ_ROW@) { Err(h) => (Err(h), st), Ok(created_text) =>
    match script::time_of(
        created_text@,
        "invalid provider credit timestamp"@,
    ) { Err(h) => (Err(h), st), Ok(created_at) =>
    (
        Ok(CreditMovementResult {
            movement_id,
            operation_id,
            movement_type,
            provider_id,
            user_id,
            card_id,
            amount_rials: amount as u64,
            provider_reference,
            command_status: "APPLIED",
            event_publication_status: "PENDING",
            profile_materialization_status: "PENDING",
            created_at,
        }),
        st,
    )
    }}}}}}}}}}}}}}}}
}

/// A movement that was made.
pub fn fetch_result(s: &mut Session, movement_id: Uuid) -> (r: Result<CreditMovementResult, Halt>)
    ensures
        (script::seen(r), final(s)@) == fetch_result_spec(old(s)@, movement_id),
{
    let row = script::one_row(
        s,
        RESULT_SQL,
        binds::binds1(Bind::Id(movement_id)),
        "rtrrriTt",
        "failed to load provider credit result",
    )?;
    let type_text = row.text(1, READ_ROW)?;
    let amount: i64 = row.number(5, READ_ROW)?;
    let operation_id_raw = row.raw(0, READ_ROW)?;
    let operation_id = script::to_id(operation_id_raw)?;
    let movement_type = match CreditMovementType::from_db_value(type_text.as_str()) {
        Some(v) => v,
        None => {
            return Err(script::fail_query("unknown provider credit movement type"));
        },
    };
    let provider_id_raw = row.raw(2, READ_ROW)?;
    let provider_id = script::to_id(provider_id_raw)?;
    let user_id_raw = row.raw(3, READ_ROW)?;
    let user_id = script::to_id(user_id_raw)?;
    let card_id_raw = row.raw(4, READ_ROW)?;
    let card_id = script::to_id(card_id_raw)?;
    if amount < 0 {
        return Err(script::fail_query("invalid provider credit amount"));
    }
    let provider_reference = row.opt_text(6, READ_ROW)?;
    let created_text = row.text(7, READ_ROW)?;
    let created_at = script::to_time(created_text.as_str(), "invalid provider credit timestamp")?;
    Ok(CreditMovementResult {
        movement_id,
        operation_id,
        movement_type,
        provider_id,
        user_id,
        card_id,
        amount_rials: amount as u64,
        provider_reference,
        command_status: "APPLIED",
        event_publication_status: "PENDING",
        profile_materialization_status: "PENDING",
        created_at,
    })
}

/// Why a movement refreshes a card.
pub open spec fn refresh_reason(movement_type: CreditMovementType) -> CardProfileRefreshReason {
    match movement_type {
        CreditMovementType::Grant => CardProfileRefreshReason::CreditGranted,
        CreditMovementType::ReturnFullBalance => CardProfileRefreshReason::CreditReturned,
    }
}

fn reason_to_refresh(movement_type: CreditMovementType) -> (r: CardProfileRefreshReason)
    ensures
        r == refresh_reason(movement_type),
{
    match movement_type {
        CreditMovementType::Grant => CardProfileRefreshReason::CreditGranted,
        CreditMovementType::ReturnFullBalance => CardProfileRefreshReason::CreditReturned,
    }
}

/// The event that a movement gives.
pub open spec fn event_of(
    catalog: ProviderEventCatalog,
    movement_type: CreditMovementType,
) -> String {
    match movement_type {
        CreditMovementType::Grant => catalog.credit_granted,
        CreditMovementType::ReturnFullBalance => catalog.credit_returned,
    }
}

fn event_name(catalog: &ProviderEventCatalog, movement_type: CreditMovementType) -> (r: &String)
    ensures
        *r == event_of(*catalog, movement_type),
{
    match movement_type {
        CreditMovementType::Grant => &catalog.credit_granted,
        CreditMovementType::ReturnFullBalance => &catalog.credit_returned,
    }
}

/// An event waits for its delivery where every gate is open, and is suppressed otherwise.
pub open spec fn publication_status(gate: DeliveryGate) -> &'static str {
    if gate.is_open() {
        "PENDING"
    } else {
        "SUPPRESSED"
    }
}

fn status_of_publication(gate: &DeliveryGate) -> (r: &'static str)
    ensures
        r == publication_status(*gate),
{
    if gate.global_delivery_enabled && gate.provider_delivery_enabled && gate.provider_active
        && gate.kafka_credential_active && gate.subscription_enabled {
        "PENDING"
    } else {
        "SUPPRESSED"
    }
}

/// Stores the event that tells a provider of a movement, and tells whether it waits or is
/// suppressed.
pub open spec fn enqueue_event_spec(
    st: RunView,
    catalog: ProviderEventCatalog,
    intent: CreditMovementIntent,
    observed: u64,
    observed_at: UtcTime,
) -> (Result<&'static str, HaltView>, RunView) {
    match load_event_subject_spec(st, intent) { (Err(h), st) => (Err(h), st), (Ok(subject), st) =>
    match script::fresh_id_spec(st) { (Err(h), st) => (Err(h), st), (Ok(event_id), st) =>
    match script::encode_spec(
        st,
        Rule::CreditEvent(CreditEvent {
            event_id,
            event_type: event_of(catalog, intent.movement_type),
            schema_version: 1,
            occurred_at: observed_at,
            provider_id: intent.provider_id,
            subject: CreditEventSubject {
                subject_type: "PROVIDER_USER_ACCOUNT",
                subject_id: intent.provider_user_account_id,
                user_id: Some(intent.user_id),
                card_id: Some(intent.card_id),
                masked_card_number: Some(subject.masked_card_number),
                provider_customer_reference: Some(subject.provider_customer_reference),
            },
            data: CreditEventData {
                currency: "IRR",
                amount_rials: RialsText(intent.amount_rials),
                observed_remaining_credit_rials: RialsText(observed),
                balance_observed_at: observed_at,
                initiated_by: intent.initiated_by,
            },
        }),
        "failed to serialize provider credit event"@,
    ) { (Err(h), st) => (Err(h), st), (Ok(payload), st) =>
    match provider_event_subscription::provider_event_delivery_gate_spec(
        st,
        catalog,
        intent.provider_id,
        event_of(catalog, intent.movement_type),
    ) { (Err(h), st) => (Err(h), st), (Ok(gate), st) =>
    match script::execute_spec(
        st,
        EVENT_OUTBOX_SQL@,
        seq![
            Bind::Id(event_id),
            Bind::Id(intent.operation_id),
            Bind::Id(intent.provider_id),
            Bind::Text(event_of(catalog, intent.movement_type)),
            Bind::Id(intent.provider_user_account_id),
            Bind::IdText(intent.provider_id),
            Bind::Text(payload),
            Bind::Json(Document::DeliveryGate(gate)),
            Bind::Label(publication_status(gate)),
        ],
        "failed to enqueue provider credit event"@,
    ) { (Err(h), st) => (Err(h), st), (Ok(_), st) =>
    (Ok(publication_status(gate)), st)
    }}}}}
}

/// Stores the event that tells a provider of a movement, and tells whether it waits or is
/// suppressed.
pub fn enqueue_event(
    s: &mut Session,
    catalog: &ProviderEventCatalog,
    intent: &CreditMovementIntent,
    observed: u64,
    observed_at: UtcTime,
) -> (r: Result<&'static str, Halt>)
    ensures
        (script::seen(r), final(s)@) == enqueue_event_spec(
            old(s)@,
            *catalog,
            *intent,
            observed,
            observed_at,
        ),
{
    let subject = load_event_subject(s, intent)?;
    let event_id = script::fresh_id(s)?;
    let payload = script::encode(
        s,
        Rule::CreditEvent(CreditEvent {
            event_id,
            event_type: event_name(catalog, intent.movement_type).clone(),
            schema_version: 1,
            occurred_at: observed_at,
            provider_id: intent.provider_id,
            subject: CreditEventSubject {
                subject_type: "PROVIDER_USER_ACCOUNT",
                subject_id: intent.provider_user_account_id,
                user_id: Some(intent.user_id),
                card_id: Some(intent.card_id),
                masked_card_number: Some(subject.masked_card_number),
                provider_customer_reference: Some(subject.provider_customer_reference),
            },
            data: CreditEventData {
                currency: "IRR",
                amount_rials: RialsText(intent.amount_rials),
                observed_remaining_credit_rials: RialsText(observed),
                balance_observed_at: observed_at,
                initiated_by: intent.initiated_by.clone(),
            },
        }),
        "failed to serialize provider credit event",
    )?;
    let gate = provider_event_subscription::provider_event_delivery_gate(
        s,
        catalog,
        intent.provider_id,
        event_name(catalog, intent.movement_type),
    )?;
    script::execute(
        s,
        EVENT_OUTBOX_SQL,
        binds::binds9(
            Bind::Id(event_id),
            Bind::Id(intent.operation_id),
            Bind::Id(intent.provider_id),
            Bind::Text(event_name(catalog, intent.movement_type).clone()),
            Bind::Id(intent.provider_user_account_id),
            Bind::IdText(intent.provider_id),
            Bind::Text(payload.clone()),
            Bind::Json(Document::DeliveryGate(gate)),
            Bind::Label(status_of_publication(&gate)),
        ),
        "failed to enqueue provider credit event",
    )?;
    Ok(status_of_publication(&gate))
}

/// Marks a movement as made, with its answer, audit evidence and completed command.
pub open spec fn record_movement_spec(
    st: RunView,
    context: DurableMutationContext,
    intent: CreditMovementIntent,
    observed: u64,
    version: i64,
    publication: &'static str,
) -> (Result<CreditMovementResult, HaltView>, RunView) {
    match script::execute_spec(
        st,
        APPLY_SQL@,
        seq![Bind::Int(version), Bind::Id(intent.movement_id)],
        "failed to apply provider credit movement"@,
    ) { (Err(h), st) => (Err(h), st), (Ok(_), st) =>
    match fetch_result_spec(
        st,
        intent.movement_id,
    ) { (Err(h), st) => (Err(h), st), (Ok(stored), st) =>
    { let result = CreditMovementResult { event_publication_status: publication, ..stored };
    match script::encode_spec(
        st,
        Rule::CreditMovementResponse(result),
        "failed to serialize provider credit response"@,
    ) { (Err(h), st) => (Err(h), st), (Ok(response), st) =>
    match script::execute_spec(
        st,
        VERIFY_WAL_SQL@,
        seq![Bind::JsonText(response), Bind::Id(intent.operation_id)],
        "failed to verify provider credit WAL"@,
    ) { (Err(h), st) => (Err(h), st), (Ok(_), st) =>
    match script::consult_text_spec(
        st,
        Rule::MovementTypeDocument(intent.movement_type),
    ) { (Err(h), st) => (Err(h), st), (Ok(movement_type), st) =>
    match script::consult_text_spec(
        st,
        Rule::InitiatorDocument(intent.initiated_by),
    ) { (Err(h), st) => (Err(h), st), (Ok(initiated_by), st) =>
    match audit::insert_audit_log_spec(
        st,
        "PROVIDER_CREDIT_MOVEMENT",
        intent.movement_id,
        AuditAction::Insert,
        Bind::Text(intent.reason),
        None,
        Some(Snapshot::Document(Document::CreditMovement(CreditMovementFacts {
            movement_id: intent.movement_id,
            operation_id: intent.operation_id,
            movement_type,
            initiated_by,
            provider_id: intent.provider_id,
            user_id: intent.user_id,
            card_id: intent.card_id,
            amount_rials: intent.amount_rials,
            observed_remaining_amount_rials: observed,
            deterministic_transfer_id: intent.deterministic_transfer_id,
            card_state_version: version,
        }))),
        audit::trusted_origin_spec(context.audit),
    ) { (Err(h), st) => (Err(h), st), (Ok(_), st) =>
    match idempotency::complete_idempotency_record_spec(
        st,
        context.operation_type,
        context.idempotency_key,
        "provider_credit_movement",
        intent.movement_id,
        Snapshot::Text(response),
    ) { (Err(h), st) => (Err(h), st), (Ok(_), st) =>
    (Ok(result), st)
    }}}}}}}}}
}

/// Marks a movement as made, with its answer, audit evidence and completed command.
pub fn record_movement(
    s: &mut Session,
    context: &DurableMutationContext,
    intent: &CreditMovementIntent,
    observed: u64,
    version: i64,
    publication: &'static str,
) -> (r: Result<CreditMovementResult, Halt>)
    ensures
        (script::seen(r), final(s)@) == record_movement_spec(
            old(s)@,
            *context,
            *intent,
            observed,
            version,
            publication,
        ),
{
    script::execute(
        s,
        APPLY_SQL,
        binds::binds2(Bind::Int(version), Bind::Id(intent.movement_id)),
        "failed to apply provider credit movement",
    )?;
    let stored = fetch_result(s, intent.movement_id)?;
    let result = CreditMovementResult { event_publication_status: publication, ..stored };
    let response = script::encode(
        s,
        Rule::CreditMovementResponse(result.clone()),
        "failed to serialize provider credit response",
    )?;
    script::execute(
        s,
        VERIFY_WAL_SQL,
        binds::binds2(Bind::JsonText(response.clone()), Bind::Id(intent.operation_id)),
        "failed to verify provider credit WAL",
    )?;
    let movement_type = script::consult_text(s, Rule::MovementTypeDocument(intent.movement_type))?;
    let initiated_by = script::consult_text(
        s,
        Rule::InitiatorDocument(intent.initiated_by.clone()),
    )?;
    audit::insert_audit_log(
        s,
        "PROVIDER_CREDIT_MOVEMENT",
        intent.movement_id,
        AuditAction::Insert,
        Bind::Text(intent.reason.clone()),
        None,
        Some(Snapshot::Document(Document::CreditMovement(CreditMovementFacts {
            movement_id: intent.movement_id,
            operation_id: intent.operation_id,
            movement_type,
            initiated_by,
            provider_id: intent.provider_id,
            user_id: intent.user_id,
            card_id: intent.card_id,
            amount_rials: intent.amount_rials,
            observed_remaining_amount_rials: observed,
            deterministic_transfer_id: intent.deterministic_transfer_id,
            card_state_version: version,
        }))),
        audit::trusted_origin(&context.audit),
    )?;
    idempotency::complete_idempotency_record(
        s,
        &context.operation_type,
        &context.idempotency_key,
        "provider_credit_movement",
        intent.movement_id,
        Snapshot::Text(response),
    )?;
    Ok(result)
}

/// Gives the card of a movement its next version, tells the runtime and the provider, and stores
/// the fact. Yields the version and whether the provider's event waits or is suppressed.
pub open spec fn carry_out_spec(
    st: RunView,
    context: DurableMutationContext,
    catalog: ProviderEventCatalog,
    intent: CreditMovementIntent,
    observed: u64,
    observed_at: UtcTime,
) -> (Result<(i64, &'static str), HaltView>, RunView) {
    match script::one_int_spec(
        st,
        CARD_VERSION_SQL@,
        seq![Bind::Id(intent.card_id)],
        "failed to lock credit movement card"@,
    ) { (Err(h), st) => (Err(h), st), (Ok(current), st) =>
    if current == i64::MAX {
        (script::query_fault("card state version overflow"@), st)
    } else {
    { let next = (current + 1) as i64;
    match script::execute_spec(
        st,
        ADVANCE_CARD_SQL@,
        seq![
            Bind::Int(next),
            Bind::Text(context.audit.actor_subject),
            Bind::Id(intent.card_id),
            Bind::Int(current),
        ],
        "failed to advance credit movement card version"@,
    ) { (Err(h), st) => (Err(h), st), (Ok(_), st) =>
    match outbox::insert_integration_operation_spec(
        st,
        intent.operation_id,
        "PROVIDER_CREDIT_MOVEMENT",
        "CARD",
        intent.card_id,
        2,
    ) { (Err(h), st) => (Err(h), st), (Ok(_), st) =>
    match provider_user::insert_card_projection_event_spec(
        st,
        intent.card_id,
        intent.operation_id,
        1,
        refresh_reason(intent.movement_type),
        context.headers(),
    ) { (Err(h), st) => (Err(h), st), (Ok(_), st) =>
    match enqueue_event_spec(
        st,
        catalog,
        intent,
        observed,
        observed_at,
    ) { (Err(h), st) => (Err(h), st), (Ok(publication), st) =>
    match insert_credit_transaction_fact_spec(
        st,
        intent,
        observed_at,
    ) { (Err(h), st) => (Err(h), st), (Ok(_), st) =>
    (Ok((next, publication)), st)
    }}}}}}}}
}

/// Gives the card of a movement its next version, tells the runtime and the provider, and stores
/// the fact. Yields the version and whether the provider's event waits or is suppressed.
pub fn carry_out(
    s: &mut Session,
    context: &DurableMutationContext,
    catalog: &ProviderEventCatalog,
    intent: &CreditMovementIntent,
    observed: u64,
    observed_at: UtcTime,
) -> (r: Result<(i64, &'static str), Halt>)
    ensures
        (script::seen(r), final(s)@) == carry_out_spec(
            old(s)@,
            *context,
            *catalog,
            *intent,
            observed,
            observed_at,
        ),
{
    let current: i64 = script::one_int(
        s,
        CARD_VERSION_SQL,
        binds::binds1(Bind::Id(intent.card_id)),
        "failed to lock credit movement card",
    )?;
    if current == i64::MAX {
        return Err(script::fail_query("card state version overflow"));
    }
    let next: i64 = current + 1;
    script::execute(
        s,
        ADVANCE_CARD_SQL,
        binds::binds4(
            Bind::Int(next),
            Bind::Text(context.audit.actor_subject.clone()),
            Bind::Id(intent.card_id),
            Bind::Int(current),
        ),
        "failed to advance credit movement card version",
    )?;
    outbox::insert_integration_operation(
        s,
        intent.operation_id,
        "PROVIDER_CREDIT_MOVEMENT",
        "CARD",
        intent.card_id,
        2,
    )?;
    provider_user::insert_card_projection_event(
        s,
        intent.card_id,
        intent.operation_id,
        1,
        reason_to_refresh(intent.movement_type),
        &context.event_headers(),
    )?;
    let publication = enqueue_event(s, catalog, intent, observed, observed_at)?;
    insert_credit_transaction_fact(s, intent, observed_at)?;
    Ok((next, publication))
}

/// Makes a movement that the ledger has carried out: the card gets its next version, the runtime
/// and the provider are told, and the fact is stored. A movement that was made before is only read.
pub open spec fn finalize_credit_movement_atomic_spec(
    st: RunView,
    context: DurableMutationContext,
    catalog: ProviderEventCatalog,
    intent: CreditMovementIntent,
    observed_remaining_amount_rials: u64,
    observed_at: UtcTime,
) -> (Result<CreditMovementResult, HaltView>, RunView) {
    match script::one_text_spec(
        st,
        MOVEMENT_STATUS_SQL@,
        seq![Bind::Id(intent.movement_id), Bind::Id(intent.operation_id)],
        "failed to lock provider credit movement"@,
    ) { (Err(h), st) => (Err(h), st), (Ok(status), st) =>
    if status@ == "APPLIED"@ {
        fetch_result_spec(st, intent.movement_id)
    } else {
    if status@ != "PENDING"@ && status@ != "RECOVERY_REQUIRED"@ {
        (script::conflict_fault("provider credit movement cannot be finalized"@), st)
    } else {
    match carry_out_spec(
        st,
        context,
        catalog,
        intent,
        observed_remaining_amount_rials,
        observed_at,
    ) { (Err(h), st) => (Err(h), st), (Ok(carried), st) =>
    record_movement_spec(st, context, intent, observed_remaining_amount_rials, carried.0, carried.1)
    }}}}
}

impl OracleRepository {
    /// Makes a movement that the ledger has carried out: the card gets its next version, the
    /// runtime and the provider are told, and the fact is stored. A movement that was made before
    /// is only read.
    pub fn finalize_credit_movement_atomic(
        s: &mut Session,
        context: &DurableMutationContext,
        catalog: &ProviderEventCatalog,
        intent: &CreditMovementIntent,
        observed_remaining_amount_rials: u64,
        observed_at: UtcTime,
    ) -> (r: Result<CreditMovementResult, Halt>)
        ensures
            (script::seen(r), final(s)@) == finalize_credit_movement_atomic_spec(
                old(s)@,
                *context,
                *catalog,
                *intent,
                observed_remaining_amount_rials,
                observed_at,
            ),
    {
        let status = script::one_text(
            s,
            MOVEMENT_STATUS_SQL,
            binds::binds2(Bind::Id(intent.movement_id), Bind::Id(intent.operation_id)),
            "failed to lock provider credit movement",
        )?;
        if text::same_text(status.as_str(), "APPLIED") {
            return fetch_result(s, intent.movement_id);
        }
        if !text::same_text(status.as_str(), "PENDING")
            && !text::same_text(status.as_str(), "RECOVERY_REQUIRED") {
            return Err(script::fail_conflict("provider credit movement cannot be finalized"));
        }
        let carried = carry_out(
            s,
            context,
            catalog,
            intent,
            observed_remaining_amount_rials,
            observed_at,
        )?;
        record_movement(s, context, intent, observed_remaining_amount_rials, carried.0, carried.1)
    }
}

/// The command and the intent that a JSON document holds.
pub open spec fn read_movement_wal_spec(
    st: RunView,
    stored: String,
    failure: Seq<char>,
) -> (Result<CreditMovementWalPayload, HaltView>, RunView) {
    match script::consult_spec(
        st,
        Rule::ReadCreditMovementWal(stored),
    ) { (Err(h), st) => (Err(h), st), (Ok(answer), st) =>
    match answer {
        Answer::CreditMovementWal(Ok(payload)) => {
            (Ok(payload), st)
        },
        Answer::CreditMovementWal(Err(cause)) => {
            (script::failed(failure, cause@), st)
        },
        _ => {
            (script::query_fault(script::UNEXPECTED_REPLY@), st)
        },
    }
    }
}

/// The command and the intent that a JSON document holds.
pub fn read_movement_wal(
    s: &mut Session,
    stored: String,
    failure: &str,
) -> (r: Result<CreditMovementWalPayload, Halt>)
    ensures
        (script::seen(r), final(s)@) == read_movement_wal_spec(old(s)@, stored, failure@),
{
    let answer = script::consult(s, Rule::ReadCreditMovementWal(stored))?;
    match answer {
        Answer::CreditMovementWal(Ok(payload)) => {
            return Ok(payload.clone());
        },
        Answer::CreditMovementWal(Err(cause)) => {
            return Err(script::fail_because(failure, cause.as_str()));
        },
        _ => {
            return Err(script::fail_query(script::UNEXPECTED_REPLY));
        },
    }
}

/// A movement that is under way, where there is one.
pub open spec fn load_credit_movement_recovery_spec(
    st: RunView,
    operation_id: Uuid,
) -> (Result<Option<RecoverableMovement>, HaltView>, RunView) {
    match script::first_row_spec(
        st,
        RECOVERABLE_SQL@,
        seq![Bind::Id(operation_id)],
        "tt",
        "failed to load credit movement recovery"@,
        "failed to read credit movement recovery"@,
    ) { (Err(h), st) => (Err(h), st), (Ok(found), st) =>
    match found {
    None => {
        (Ok(None), st)
    },
    Some(row) =>
    match row.text_at(0, READ_ROW@) { Err(h) => (Err(h), st), Ok(stored) =>
    match read_movement_wal_spec(
        st,
        stored,
        "invalid credit movement WAL payload"@,
    ) { (Err(h), st) => (Err(h), st), (Ok(payload), st) =>
    match row.text_at(1, READ_ROW@) { Err(h) => (Err(h), st), Ok(card_number) =>
    (Ok(Some(RecoverableMovement { payload, card_number })), st)
    }}}}}
}

impl OracleRepository {
    /// A movement that is under way, where there is one.
    pub fn load_credit_movement_recovery(
        s: &mut Session,
        operation_id: Uuid,
    ) -> (r: Result<Option<RecoverableMovement>, Halt>)
        ensures
            (script::seen(r), final(s)@) == load_credit_movement_recovery_spec(
                old(s)@,
                operation_id,
            ),
    {
        let found = script::first_row(
            s,
            RECOVERABLE_SQL,
            binds::binds1(Bind::Id(operation_id)),
            "tt",
            "failed to load credit movement recovery",
            "failed to read credit movement recovery",
        )?;
        let row = match found {
            Some(v) => v,
            None => {
                return Ok(None);
            },
        };
        let stored = row.text(0, READ_ROW)?;
        let payload = read_movement_wal(s, stored, "invalid credit movement WAL payload")?;
        let card_number = row.text(1, READ_ROW)?;
        Ok(Some(RecoverableMovement { payload, card_number }))
    }
}

/// A movement of credit that is stored is prepared.
pub broadcast proof fn store_movement_prepares(
    st: RunView,
    context: MutationCommandContext,
    intent: CreditMovementIntent,
)
    ensures
        (#[trigger] store_movement_spec(st, context, intent)).0 matches Ok(outcome)
            ==> outcome is Prepared,
{
    reveal(store_movement_spec);
}

/// Where a movement of credit is refused, or answered from a record, nothing is changed.
#[verifier::rlimit(40)]
pub proof fn refused_movement_changes_nothing(
    st: RunView,
    context: MutationCommandContext,
    intent: CreditMovementIntent,
    card_number: String,
)
    ensures
        ({
            let (result, after) = begin_credit_movement_atomic_spec(
                st,
                context,
                intent,
                card_number,
            );
            result matches Ok(outcome) ==> outcome is Prepared || script::writes(after.log)
                == script::writes(st.log)
        }),
{
    broadcast use {
        script::writes_with_another,
        map_context_changes_nothing,
        store_movement_prepares,
    };

}

/// A movement of credit that was made before is only read.
pub proof fn made_movement_is_only_read(
    st: RunView,
    context: DurableMutationContext,
    catalog: ProviderEventCatalog,
    intent: CreditMovementIntent,
    observed: u64,
    observed_at: UtcTime,
)
    requires
        script::one_text_spec(
            st,
            MOVEMENT_STATUS_SQL@,
            seq![Bind::Id(intent.movement_id), Bind::Id(intent.operation_id)],
            "failed to lock provider credit movement"@,
        ).0 matches Ok(status) && status@ == "APPLIED"@,
    ensures
        script::writes(
            finalize_credit_movement_atomic_spec(
                st,
                context,
                catalog,
                intent,
                observed,
                observed_at,
            ).1.log,
        ) == script::writes(st.log),
{
    broadcast use script::writes_with_another;

}

/// Where a run that makes a movement of credit stands when it reads the movement back.
pub open spec fn reading_back(
    st: RunView,
    context: DurableMutationContext,
    catalog: ProviderEventCatalog,
    intent: CreditMovementIntent,
    observed: u64,
    observed_at: UtcTime,
) -> RunView {
    let locked = script::one_text_spec(
        st,
        MOVEMENT_STATUS_SQL@,
        seq![Bind::Id(intent.movement_id), Bind::Id(intent.operation_id)],
        "failed to lock provider credit movement"@,
    ).1;
    let (carried, told) = carry_out_spec(locked, context, catalog, intent, observed, observed_at);
    script::execute_spec(
        told,
        APPLY_SQL@,
        seq![Bind::Int(carried->Ok_0.0), Bind::Id(intent.movement_id)],
        "failed to apply provider credit movement"@,
    ).1
}

/// The second answer for a movement of credit is the first one but for the status of its event's
/// publication, and nothing is changed for it: where one run made the movement, another one finds
/// it applied and reads of it what the first one read.
pub proof fn made_movement_is_answered_alike(
    st: RunView,
    context: DurableMutationContext,
    catalog: ProviderEventCatalog,
    intent: CreditMovementIntent,
    observed: u64,
    observed_at: UtcTime,
    again: RunView,
    context_again: DurableMutationContext,
    catalog_again: ProviderEventCatalog,
    observed_again: u64,
    observed_at_again: UtcTime,
)
    requires
        script::one_text_spec(
            st,
            MOVEMENT_STATUS_SQL@,
            seq![Bind::Id(intent.movement_id), Bind::Id(intent.operation_id)],
            "failed to lock provider credit movement"@,
        ).0 matches Ok(status) && status@ != "APPLIED"@,
        finalize_credit_movement_atomic_spec(
            st,
            context,
            catalog,
            intent,
            observed,
            observed_at,
        ).0 is Ok,
        script::one_text_spec(
            again,
            MOVEMENT_STATUS_SQL@,
            seq![Bind::Id(intent.movement_id), Bind::Id(intent.operation_id)],
            "failed to lock provider credit movement"@,
        ).0 matches Ok(status) && status@ == "APPLIED"@,
        again.rest.len() > 1,
        again.rest[1] == reading_back(
            st,
            context,
            catalog,
            intent,
            observed,
            observed_at,
        ).rest[0],
    ensures
        ({
            let first = finalize_credit_movement_atomic_spec(
                st,
                context,
                catalog,
                intent,
                observed,
                observed_at,
            ).0->Ok_0;
            let (second, after) = finalize_credit_movement_atomic_spec(
                again,
                context_again,
                catalog_again,
                intent,
                observed_again,
                observed_at_again,
            );
            &&& second == Ok::<CreditMovementResult, HaltView>(
                (CreditMovementResult { event_publication_status: "PENDING", ..first }),
            )
            &&& script::writes(after.log) == script::writes(again.log)
        }),
{
    broadcast use script::writes_with_another;

}

/// The entries of a movement of credit balance: one account is debited and another credited, each
/// with the whole amount, and the two are those of the provider and of its customer.
pub proof fn entries_balance(intent: CreditMovementIntent)
    ensures
        debit_entry(intent).direction@ == "DEBIT"@,
        credit_entry(intent).direction@ == "CREDIT"@,
        debit_entry(intent).sequence != credit_entry(intent).sequence,
        (debit_entry(intent).account_id == intent.provider_owned_account_id && credit_entry(
            intent,
        ).account_id == intent.provider_user_account_id) || (debit_entry(intent).account_id
            == intent.provider_user_account_id && credit_entry(intent).account_id
            == intent.provider_owned_account_id),
{
}

/// Where the facts of a movement of credit are stored, its two entries are stored with one amount.
pub proof fn stored_entries_have_one_amount(
    st: RunView,
    intent: CreditMovementIntent,
    occurred_at: UtcTime,
)
    requires
        insert_credit_transaction_fact_spec(st, intent, occurred_at).0 is Ok,
    ensures
        ({
            let log = insert_credit_transaction_fact_spec(st, intent, occurred_at).1.log;
            let debit = log[log.len() - 3];
            let credit = log[log.len() - 1];
            &&& log.len() >= 3
            &&& script::is_run_of(debit, INSERT_ENTRY_SQL@)
            &&& script::is_run_of(credit, INSERT_ENTRY_SQL@)
            &&& debit->binds[6] == Bind::Label(debit_entry(intent).direction)
            &&& credit->binds[6] == Bind::Label(credit_entry(intent).direction)
            &&& debit->binds[7] == Bind::Int(intent.amount_rials as i64)
            &&& credit->binds[7] == Bind::Int(intent.amount_rials as i64)
        }),
{
}

/// A movement that is carried out leaves the event that refreshes the card and the one that tells
/// the provider, both under its operation.
#[verifier::rlimit(60)]
proof fn carried_movement_is_published(
    st: RunView,
    context: DurableMutationContext,
    catalog: ProviderEventCatalog,
    intent: CreditMovementIntent,
    observed: u64,
    observed_at: UtcTime,
)
    ensures
        ({
            let (result, after) = carry_out_spec(
                st,
                context,
                catalog,
                intent,
                observed,
                observed_at,
            );
            result is Ok ==> script::stored_under(
                after.log,
                provider_user::CARD_EVENT_OUTBOX_SQL@,
                intent.operation_id,
            ) > 0 && script::stored_under(after.log, EVENT_OUTBOX_SQL@, intent.operation_id) > 0
        }),
{
    broadcast use script::stored_under_with_another;

}

/// To record a movement takes no stored event away.
#[verifier::rlimit(60)]
proof fn recording_keeps_events(
    st: RunView,
    context: DurableMutationContext,
    intent: CreditMovementIntent,
    observed: u64,
    version: i64,
    publication: &'static str,
    sql: Seq<char>,
    operation_id: Uuid,
)
    ensures
        script::stored_under(st.log, sql, operation_id) <= script::stored_under(
            record_movement_spec(st, context, intent, observed, version, publication).1.log,
            sql,
            operation_id,
        ),
{
    broadcast use script::stored_under_with_another;

}

/// Where a movement of credit is made, the event that refreshes the card at the runtime and the one
/// that tells the provider are stored under the operation of the movement.
#[verifier::rlimit(60)]
pub proof fn made_movement_is_published(
    st: RunView,
    context: DurableMutationContext,
    catalog: ProviderEventCatalog,
    intent: CreditMovementIntent,
    observed: u64,
    observed_at: UtcTime,
)
    requires
        script::one_text_spec(
            st,
            MOVEMENT_STATUS_SQL@,
            seq![Bind::Id(intent.movement_id), Bind::Id(intent.operation_id)],
            "failed to lock provider credit movement"@,
        ).0 matches Ok(status) && status@ != "APPLIED"@,
        finalize_credit_movement_atomic_spec(
            st,
            context,
            catalog,
            intent,
            observed,
            observed_at,
        ).0 is Ok,
    ensures
        ({
            let log = finalize_credit_movement_atomic_spec(
                st,
                context,
                catalog,
                intent,
                observed,
                observed_at,
            ).1.log;
            &&& script::stored_under(
                log,
                provider_user::CARD_EVENT_OUTBOX_SQL@,
                intent.operation_id,
            ) > 0
            &&& script::stored_under(log, EVENT_OUTBOX_SQL@, intent.operation_id) > 0
        }),
{
    let locked = script::one_text_spec(
        st,
        MOVEMENT_STATUS_SQL@,
        seq![Bind::Id(intent.movement_id), Bind::Id(intent.operation_id)],
        "failed to lock provider credit movement"@,
    ).1;
    carried_movement_is_published(locked, context, catalog, intent, observed, observed_at);
    let (carried, at) = carry_out_spec(locked, context, catalog, intent, observed, observed_at);
    if let Ok(done) = carried {
        recording_keeps_events(
            at,
            context,
            intent,
            observed,
            done.0,
            done.1,
            provider_user::CARD_EVENT_OUTBOX_SQL@,
            intent.operation_id,
        );
        recording_keeps_events(
            at,
            context,
            intent,
            observed,
            done.0,
            done.1,
            EVENT_OUTBOX_SQL@,
            intent.operation_id,
        );
    }
}

/// The values that an entry of a movement of credit is stored with.
pub open spec fn entry_binds(
    entry_id: Uuid,
    intent: CreditMovementIntent,
    sequence: i64,
    account_id: Uuid,
    category: &'static str,
    direction: &'static str,
) -> Seq<Bind> {
    seq![
        Bind::Id(entry_id),
        Bind::Id(intent.movement_id),
        Bind::Int(sequence),
        Bind::Id(intent.provider_id),
        Bind::Id(account_id),
        Bind::Label(category),
        Bind::Label(direction),
        Bind::Int(intent.amount_rials as i64),
        Bind::Id(intent.deterministic_transfer_id),
    ]
}

/// A grant takes the whole amount from the account of the provider and gives it to the account of
/// the customer with the provider. A return takes it from the account of the customer and gives it
/// to that of the provider. The fact is stored first, with its kind, then what is taken, then what
/// is given, and nothing else.
pub proof fn grant_gives_to_the_customer_and_return_takes_back(
    st: RunView,
    intent: CreditMovementIntent,
    occurred_at: UtcTime,
)
    requires
        insert_credit_transaction_fact_spec(st, intent, occurred_at).0 is Ok,
    ensures
        ({
            let log = insert_credit_transaction_fact_spec(st, intent, occurred_at).1.log;
            let first = st.log.len() as int;
            &&& intent.amount_rials <= i64::MAX
            &&& log.len() == first + 5
            &&& log[first] == script::change(
                INSERT_TRANSACTION_SQL@,
                seq![
                    Bind::Id(intent.movement_id),
                    Bind::Label(
                        if intent.movement_type is Grant {
                            "CREDIT_GRANTED"
                        } else {
                            "CREDIT_RETURNED"
                        },
                    ),
                    Bind::Id(intent.operation_id),
                    Bind::Id(intent.user_id),
                    Bind::Id(intent.card_id),
                    Bind::Int(intent.amount_rials as i64),
                    Bind::OptText(intent.provider_reference),
                    Bind::Time(occurred_at),
                ],
            )
            &&& exists|taken: Uuid, given: Uuid|
                #![trigger booked(log, intent, taken, given)]
                booked(log, intent, taken, given)
        }),
{
    let stored = script::execute_spec(
        st,
        INSERT_TRANSACTION_SQL@,
        seq![
            Bind::Id(intent.movement_id),
            Bind::Label(transaction_kind(intent.movement_type)),
            Bind::Id(intent.operation_id),
            Bind::Id(intent.user_id),
            Bind::Id(intent.card_id),
            Bind::Int(intent.amount_rials as i64),
            Bind::OptText(intent.provider_reference),
            Bind::Time(occurred_at),
        ],
        "failed to insert provider credit transaction fact"@,
    ).1;
    let taken = script::fresh_id_spec(stored).0->Ok_0;
    let debited = insert_entry_spec(
        stored,
        intent,
        debit_entry(intent),
        intent.amount_rials as i64,
    ).1;
    let given = script::fresh_id_spec(debited).0->Ok_0;
    let log = insert_credit_transaction_fact_spec(st, intent, occurred_at).1.log;
    let payer = if intent.movement_type is Grant {
        entry_binds(taken, intent, 1, intent.provider_owned_account_id, "PROVIDER_OWNED", "DEBIT")
    } else {
        entry_binds(taken, intent, 1, intent.provider_user_account_id, "PROVIDER_USER", "DEBIT")
    };
    let payee = if intent.movement_type is Grant {
        entry_binds(given, intent, 2, intent.provider_user_account_id, "PROVIDER_USER", "CREDIT")
    } else {
        entry_binds(given, intent, 2, intent.provider_owned_account_id, "PROVIDER_OWNED", "CREDIT")
    };
    assert(log[log.len() - 3] == script::change(INSERT_ENTRY_SQL@, payer)) by {
        assert(log[log.len() - 3]->binds =~= payer);
    }
    assert(log[log.len() - 1] == script::change(INSERT_ENTRY_SQL@, payee)) by {
        assert(log[log.len() - 1]->binds =~= payee);
    }
    assert(booked(log, intent, taken, given));
}

/// The entries of a movement of credit are those that a log ends with: what is taken and what is
/// given, each on the account of its side.
pub open spec fn booked(
    log: Seq<script::CallView>,
    intent: CreditMovementIntent,
    taken: Uuid,
    given: Uuid,
) -> bool {
    let owned = intent.provider_owned_account_id;
    let customer = intent.provider_user_account_id;
    match intent.movement_type {
        CreditMovementType::Grant => {
            &&& log[log.len() - 3] == script::change(
                INSERT_ENTRY_SQL@,
                entry_binds(taken, intent, 1, owned, "PROVIDER_OWNED", "DEBIT"),
            )
            &&& log[log.len() - 1] == script::change(
                INSERT_ENTRY_SQL@,
                entry_binds(given, intent, 2, customer, "PROVIDER_USER", "CREDIT"),
            )
        },
        CreditMovementType::ReturnFullBalance => {
            &&& log[log.len() - 3] == script::change(
                INSERT_ENTRY_SQL@,
                entry_binds(taken, intent, 1, customer, "PROVIDER_USER", "DEBIT"),
            )
            &&& log[log.len() - 1] == script::change(
                INSERT_ENTRY_SQL@,
                entry_binds(given, intent, 2, owned, "PROVIDER_OWNED", "CREDIT"),
            )
        },
    }
}

/// Of a grant the account of the provider is debited and that of the customer is credited; of a
/// return the account of the customer is debited and that of the provider is credited.
pub proof fn sides_of_a_movement(intent: CreditMovementIntent)
    ensures
        intent.movement_type is Grant ==> {
            &&& debit_entry(intent).account_id == intent.provider_owned_account_id
            &&& debit_entry(intent).category@ == "PROVIDER_OWNED"@
            &&& credit_entry(intent).account_id == intent.provider_user_account_id
            &&& credit_entry(intent).category@ == "PROVIDER_USER"@
        },
        intent.movement_type is ReturnFullBalance ==> {
            &&& debit_entry(intent).account_id == intent.provider_user_account_id
            &&& debit_entry(intent).category@ == "PROVIDER_USER"@
            &&& credit_entry(intent).account_id == intent.provider_owned_account_id
            &&& credit_entry(intent).category@ == "PROVIDER_OWNED"@
        },
        debit_entry(intent).direction@ == "DEBIT"@,
        credit_entry(intent).direction@ == "CREDIT"@,
        debit_entry(intent).sequence == 1,
        credit_entry(intent).sequence == 2,
{
}

/// Where a movement of credit is carried out, its entries are the last that is stored for it: a
/// grant debits the provider and credits the customer, and a return does the reverse. The card gets
/// the version after the one it has, and the operation waits for two events.
#[verifier::rlimit(80)]
pub proof fn carried_movement_is_booked(
    st: RunView,
    context: DurableMutationContext,
    catalog: ProviderEventCatalog,
    intent: CreditMovementIntent,
    observed: u64,
    observed_at: UtcTime,
)
    requires
        carry_out_spec(st, context, catalog, intent, observed, observed_at).0 is Ok,
    ensures
        ({
            let log = carry_out_spec(st, context, catalog, intent, observed, observed_at).1.log;
            let next = carry_out_spec(
                st,
                context,
                catalog,
                intent,
                observed,
                observed_at,
            ).0->Ok_0.0;
            &&& exists|taken: Uuid, given: Uuid|
                #![trigger booked(log, intent, taken, given)]
                booked(log, intent, taken, given)
            &&& script::one_int_spec(
                st,
                CARD_VERSION_SQL@,
                seq![Bind::Id(intent.card_id)],
                "failed to lock credit movement card"@,
            ).0 == Ok::<i64, HaltView>((next - 1) as i64)
            &&& next > i64::MIN
            &&& log[st.log.len() as int + 1] == script::change(
                ADVANCE_CARD_SQL@,
                seq![
                    Bind::Int(next),
                    Bind::Text(context.audit.actor_subject),
                    Bind::Id(intent.card_id),
                    Bind::Int((next - 1) as i64),
                ],
            )
            &&& log[st.log.len() as int + 2] == script::change(
                outbox::OPERATION_INSERT_SQL@,
                seq![
                    Bind::Id(intent.operation_id),
                    Bind::Label("PROVIDER_CREDIT_MOVEMENT"),
                    Bind::Label("CARD"),
                    Bind::Id(intent.card_id),
                    Bind::Int(2),
                ],
            )
        }),
{
    let (current, versioned) = script::one_int_spec(
        st,
        CARD_VERSION_SQL@,
        seq![Bind::Id(intent.card_id)],
        "failed to lock credit movement card"@,
    );
    let next = (current->Ok_0 + 1) as i64;
    let advanced = script::execute_spec(
        versioned,
        ADVANCE_CARD_SQL@,
        seq![
            Bind::Int(next),
            Bind::Text(context.audit.actor_subject),
            Bind::Id(intent.card_id),
            Bind::Int(current->Ok_0),
        ],
        "failed to advance credit movement card version"@,
    ).1;
    let opened = outbox::insert_integration_operation_spec(
        advanced,
        intent.operation_id,
        "PROVIDER_CREDIT_MOVEMENT",
        "CARD",
        intent.card_id,
        2,
    ).1;
    let refreshed = provider_user::insert_card_projection_event_spec(
        opened,
        intent.card_id,
        intent.operation_id,
        1,
        refresh_reason(intent.movement_type),
        context.headers(),
    ).1;
    let told = enqueue_event_spec(refreshed, catalog, intent, observed, observed_at).1;
    grant_gives_to_the_customer_and_return_takes_back(told, intent, observed_at);
}

/// A grant is told as a grant and a return as a return: the reason of the card's refresh and the
/// name of the provider's event go by the direction of the movement.
pub proof fn movement_is_told_by_its_direction(
    catalog: ProviderEventCatalog,
    movement_type: CreditMovementType,
)
    ensures
        movement_type is Grant ==> refresh_reason(movement_type)
            == CardProfileRefreshReason::CreditGranted && event_of(catalog, movement_type)
            == catalog.credit_granted,
        movement_type is ReturnFullBalance ==> refresh_reason(movement_type)
            == CardProfileRefreshReason::CreditReturned && event_of(catalog, movement_type)
            == catalog.credit_returned,
{
}

/// The event that tells a provider of a movement waits for its publication exactly where each gate
/// is open. It is stored under the operation, for the provider and with its account, and says of
/// the movement the amount, the balance and the instant that were observed.
#[verifier::rlimit(80)]
pub proof fn provider_is_told_through_open_gates(
    st: RunView,
    catalog: ProviderEventCatalog,
    intent: CreditMovementIntent,
    observed: u64,
    observed_at: UtcTime,
)
    requires
        enqueue_event_spec(st, catalog, intent, observed, observed_at).0 is Ok,
    ensures
        ({
            let (result, after) = enqueue_event_spec(st, catalog, intent, observed, observed_at);
            let last = after.log.last();
            &&& script::is_run_of(last, EVENT_OUTBOX_SQL@)
            &&& last->binds[0] matches Bind::Id(event_id)
            &&& last->binds[1] == Bind::Id(intent.operation_id)
            &&& last->binds[2] == Bind::Id(intent.provider_id)
            &&& last->binds[3] == Bind::Text(event_of(catalog, intent.movement_type))
            &&& last->binds[4] == Bind::Id(intent.provider_user_account_id)
            &&& last->binds[5] == Bind::IdText(intent.provider_id)
            &&& last->binds[7] matches Bind::Json(Document::DeliveryGate(gate)) && {
                let open = gate.global_delivery_enabled && gate.provider_delivery_enabled
                    && gate.provider_active && gate.kafka_credential_active
                    && gate.subscription_enabled;
                &&& open ==> result == Ok::<&'static str, HaltView>("PENDING") && last->binds[8]
                    == Bind::Label("PENDING")
                &&& !open ==> result == Ok::<&'static str, HaltView>("SUPPRESSED") && last->binds[8]
                    == Bind::Label("SUPPRESSED")
            }
            &&& after.log[st.log.len() as int + 3] matches script::CallView::Consult(
                Rule::CreditEvent(event),
                _,
            ) && {
                &&& last->binds[0] == Bind::Id(event.event_id)
                &&& event.event_type == event_of(catalog, intent.movement_type)
                &&& event.occurred_at == observed_at
                &&& event.provider_id == intent.provider_id
                &&& event.subject.subject_id == intent.provider_user_account_id
                &&& event.subject.user_id == Some(intent.user_id)
                &&& event.subject.card_id == Some(intent.card_id)
                &&& event.data.amount_rials == RialsText(intent.amount_rials)
                &&& event.data.observed_remaining_credit_rials == RialsText(observed)
                &&& event.data.balance_observed_at == observed_at
                &&& event.data.initiated_by == intent.initiated_by
            }
        }),
{
    let subject = load_event_subject_spec(st, intent).1;
    let fresh = script::fresh_id_spec(subject).1;
    gate_keeps_the_log(
        script::encode_spec(
            fresh,
            enqueue_event_spec(
                st,
                catalog,
                intent,
                observed,
                observed_at,
            ).1.log[st.log.len() as int + 3]->Consult_0,
            "failed to serialize provider credit event"@,
        ).1,
        catalog,
        intent.provider_id,
        event_of(catalog, intent.movement_type),
    );
}

/// To look at the gates of a provider takes nothing away from a log.
proof fn gate_keeps_the_log(
    st: RunView,
    catalog: ProviderEventCatalog,
    provider_id: Uuid,
    event_type: String,
)
    ensures
        ({
            let log = provider_event_subscription::provider_event_delivery_gate_spec(
                st,
                catalog,
                provider_id,
                event_type,
            ).1.log;
            &&& log.len() >= st.log.len()
            &&& forall|n: int| 0 <= n < st.log.len() ==> #[trigger] log[n] == st.log[n]
        }),
{
}

/// A movement that was made is answered from its row: each value from its column, with the amount
/// as it is stored.
pub proof fn made_movement_is_read_from_its_columns(st: RunView, movement_id: Uuid)
    ensures
        fetch_result_spec(st, movement_id).0 matches Ok(made) ==> {
            &&& st.rest[0] matches script::Reply::Rows(found) && {
                let row = found.rows@[0];
                &&& row.id_at(0, READ_ROW@) == Ok::<Uuid, HaltView>(made.operation_id)
                &&& row.text_at(1, READ_ROW@) matches Ok(code) && CreditMovementType::of_code(code@)
                    == Some(made.movement_type)
                &&& row.id_at(2, READ_ROW@) == Ok::<Uuid, HaltView>(made.provider_id)
                &&& row.id_at(3, READ_ROW@) == Ok::<Uuid, HaltView>(made.user_id)
                &&& row.id_at(4, READ_ROW@) == Ok::<Uuid, HaltView>(made.card_id)
                &&& row.int_at(5, READ_ROW@) matches Ok(amount) && amount == made.amount_rials
                &&& row.opt_text_at(6, READ_ROW@) == Ok::<Option<String>, HaltView>(
                    made.provider_reference,
                )
            }
            &&& made.movement_id == movement_id
        },
{
}

/// The accounts between which credit moves are looked for only where the provider and the
/// relationship are active. Each thing that is missing or not active has its own answer.
#[verifier::rlimit(60)]
pub proof fn accounts_are_those_of_active_parties(
    st: RunView,
    provider_id: Uuid,
    user_id: Uuid,
    card_number: String,
    lock: bool,
    provider: Option<String>,
)
    requires
        optional_string_spec(st, PROVIDER_STATUS_SQL@, seq![Bind::Id(provider_id)]).0 == Ok::<
            Option<String>,
            HaltView,
        >(provider),
    ensures
        ({
            let result = resolve_context_spec(st, provider_id, user_id, card_number, lock).0;
            let at = optional_string_spec(st, PROVIDER_STATUS_SQL@, seq![Bind::Id(provider_id)]).1;
            let customer = optional_string_spec(
                at,
                RELATIONSHIP_STATUS_SQL@,
                seq![Bind::Id(provider_id), Bind::Id(user_id)],
            ).0;
            let active = provider matches Some(status) && status@ == "ACTIVE"@;
            &&& provider is None <==> result == Ok::<_, HaltView>(
                CreditAccountContextOutcome::ProviderNotFound,
            )
            &&& provider is Some && !active <==> result == Ok::<_, HaltView>(
                CreditAccountContextOutcome::ProviderNotActive,
            )
            &&& active && customer == Ok::<Option<String>, HaltView>(None) <==> result == Ok::<
                _,
                HaltView,
            >(CreditAccountContextOutcome::RelationshipNotFound)
            &&& active && (customer matches Ok(Some(status)) && status@ != "ACTIVE"@) <==> result
                == Ok::<_, HaltView>(CreditAccountContextOutcome::RelationshipNotActive)
            &&& result matches Ok(CreditAccountContextOutcome::Found(found)) ==> active
                && found.provider_id == provider_id && found.user_id == user_id
        }),
{
    reveal(map_context_spec);
}

/// The accounts between which credit moves are read from a row whose card and whose funding source
/// are active, each from its column.
#[verifier::rlimit(60)]
pub proof fn accounts_are_read_from_their_columns(
    st: RunView,
    row: Row,
    provider_id: Uuid,
    user_id: Uuid,
)
    ensures
        ({
            let result = map_context_spec(st, row, provider_id, user_id).0;
            let card = row.text_at(2, READ_ROW@);
            let funding = row.text_at(9, READ_ROW@);
            &&& card matches Ok(status) ==> (status@ != "ACTIVE"@ <==> result == Ok::<_, HaltView>(
                CreditAccountContextOutcome::CardNotActive,
            ))
            &&& (card matches Ok(status) && status@ == "ACTIVE"@) ==> (funding matches Ok(status)
                ==> (status@ != "ACTIVE"@ <==> result == Ok::<_, HaltView>(
                CreditAccountContextOutcome::FundingSourceNotActive,
            )))
            &&& result matches Ok(CreditAccountContextOutcome::Found(found)) ==> {
                &&& row.id_at(0, READ_ROW@) == Ok::<Uuid, HaltView>(found.card_id)
                &&& row.text_at(1, READ_ROW@) == Ok::<String, HaltView>(found.card_number)
                &&& row.int_at(3, READ_ROW@) == Ok::<i64, HaltView>(found.card_state_version)
                &&& row.id_at(4, READ_ROW@) == Ok::<Uuid, HaltView>(found.provider_user_id)
                &&& row.text_at(5, READ_ROW@) == Ok::<String, HaltView>(
                    found.provider_customer_reference,
                )
                &&& row.id_at(6, READ_ROW@) == Ok::<Uuid, HaltView>(found.provider_user_account_id)
                &&& row.id_at(7, READ_ROW@) == Ok::<Uuid, HaltView>(found.provider_owned_account_id)
                &&& row.id_at(8, READ_ROW@) == Ok::<Uuid, HaltView>(found.cms_settlement_account_id)
                &&& found.provider_id == provider_id
                &&& found.user_id == user_id
            }
        }),
{
    reveal(map_context_spec);
}

/// A movement of credit begins only under a reference that is free, between the accounts that are
/// found for the provider, the user and the card, and under the operational profile that is in
/// force. Each refusal has its one reason.
#[verifier::rlimit(80)]
pub proof fn movement_begins_between_its_accounts(
    st: RunView,
    context: MutationCommandContext,
    intent: CreditMovementIntent,
    card_number: String,
)
    requires
        idempotency::fetch_idempotency_record_spec(
            st,
            context.operation_type,
            context.idempotency_key,
        ).0 == Ok::<Option<IdempotencyRecord>, HaltView>(None),
    ensures
        ({
            let result = begin_credit_movement_atomic_spec(st, context, intent, card_number).0;
            let at = idempotency::fetch_idempotency_record_spec(
                st,
                context.operation_type,
                context.idempotency_key,
            ).1;
            let (taken, checked) = provider_reference_exists_spec(
                at,
                intent.provider_id,
                intent.provider_reference,
            );
            let (resolved, found) = resolve_context_spec(
                checked,
                intent.provider_id,
                intent.user_id,
                card_number,
                true,
            );
            let profile = script::maybe_id_spec(
                found,
                ACTIVE_PROFILE_SQL@,
                seq![Bind::Id(intent.provider_id)],
                "failed to revalidate provider operational profile"@,
            ).0;
            let free = taken == Ok::<bool, HaltView>(false);
            let same = resolved matches Ok(CreditAccountContextOutcome::Found(accounts))
                && accounts.card_id == intent.card_id && accounts.provider_user_account_id
                == intent.provider_user_account_id && accounts.provider_owned_account_id
                == intent.provider_owned_account_id;
            &&& taken == Ok::<bool, HaltView>(true) <==> result == Ok::<_, HaltView>(
                BeginCreditMovementOutcome::ProviderReferenceConflict,
            )
            &&& free && resolved is Ok && !same <==> result == Ok::<_, HaltView>(
                BeginCreditMovementOutcome::ContextChanged,
            )
            &&& free && same && (profile matches Ok(in_force) && in_force != Some(
                intent.operational_profile_id,
            )) <==> result == Ok::<_, HaltView>(
                BeginCreditMovementOutcome::OperationalProfileChanged,
            )
            &&& result matches Ok(BeginCreditMovementOutcome::Prepared(prepared)) ==> prepared
                == intent && free && same && profile == Ok::<Option<Uuid>, HaltView>(
                Some(intent.operational_profile_id),
            )
        }),
{
    reveal(store_movement_spec);
}

/// A reference is taken where the provider has used it; a movement without one takes none.
pub proof fn reference_is_taken_once(st: RunView, provider_id: Uuid, reference: Option<String>)
    ensures
        reference is None ==> provider_reference_exists_spec(st, provider_id, reference) == (
            Ok::<bool, HaltView>(false),
            st,
        ),
        reference matches Some(used) ==> (script::one_int_spec(
            st,
            REFERENCE_SQL@,
            seq![Bind::Id(provider_id), Bind::Text(used)],
            "failed to check provider credit reference"@,
        ).0 matches Ok(count) ==> provider_reference_exists_spec(st, provider_id, reference).0
            == Ok::<bool, HaltView>(count > 0)),
{
}

/// Where a movement of credit is prepared, the intent is stored before the movement, both with the
/// values of the intent and with its direction.
#[verifier::rlimit(80)]
pub proof fn prepared_movement_is_stored(
    st: RunView,
    context: MutationCommandContext,
    intent: CreditMovementIntent,
)
    requires
        store_movement_spec(st, context, intent).0 is Ok,
    ensures
        ({
            let log = store_movement_spec(st, context, intent).1.log;
            let first = st.log.len() as int;
            &&& log.len() == first + 4
            &&& script::is_run_of(log[first], idempotency::IDEMPOTENCY_INSERT_SQL@)
            &&& log[first + 1] matches script::CallView::Consult(
                Rule::CreditMovementWal(command, moved),
                _,
            ) && moved == intent && command == context.lasting()
            &&& script::is_run_of(log[first + 2], INSERT_WAL_SQL@)
            &&& log[first + 2]->binds[0] == Bind::Id(intent.operation_id)
            &&& log[first + 2]->binds[1] == Bind::Id(intent.movement_id)
            &&& log[first + 2]->binds[2] == Bind::Id(intent.deterministic_transfer_id)
            &&& log[first + 3] == script::change(
                INSERT_MOVEMENT_SQL@,
                seq![
                    Bind::Id(intent.movement_id),
                    Bind::Id(intent.operation_id),
                    Bind::Label(
                        match intent.movement_type {
                            CreditMovementType::Grant => "GRANT",
                            CreditMovementType::ReturnFullBalance => "RETURN_FULL_BALANCE",
                        },
                    ),
                    Bind::Text(intent.initiated_by),
                    Bind::Id(intent.provider_id),
                    Bind::Id(intent.user_id),
                    Bind::Id(intent.card_id),
                    Bind::Id(intent.provider_user_account_id),
                    Bind::Id(intent.provider_owned_account_id),
                    Bind::Int(intent.amount_rials as i64),
                    Bind::OptInt(
                        match intent.expected_remaining_amount_rials {
                            Some(n) => Some(n as i64),
                            None => None,
                        },
                    ),
                    Bind::OptText(intent.provider_reference),
                    Bind::Id(intent.deterministic_transfer_id),
                    Bind::Text(intent.reason),
                    Bind::JsonText(intent.metadata),
                ],
            )
            &&& intent.amount_rials <= i64::MAX
        }),
{
    reveal(store_movement_spec);
    let log = store_movement_spec(st, context, intent).1.log;
    let expected = opt_amount_of(
        intent.expected_remaining_amount_rials,
        "expected credit balance exceeds Oracle contract"@,
    );
    assert(expected == Ok::<Option<i64>, HaltView>(
        match intent.expected_remaining_amount_rials {
            Some(n) => Some(n as i64),
            None => None,
        },
    ));
    assert(log[st.log.len() as int + 3]->binds =~= seq![
        Bind::Id(intent.movement_id),
        Bind::Id(intent.operation_id),
        Bind::Label(
            match intent.movement_type {
                CreditMovementType::Grant => "GRANT",
                CreditMovementType::ReturnFullBalance => "RETURN_FULL_BALANCE",
            },
        ),
        Bind::Text(intent.initiated_by),
        Bind::Id(intent.provider_id),
        Bind::Id(intent.user_id),
        Bind::Id(intent.card_id),
        Bind::Id(intent.provider_user_account_id),
        Bind::Id(intent.provider_owned_account_id),
        Bind::Int(intent.amount_rials as i64),
        Bind::OptInt(
            match intent.expected_remaining_amount_rials {
                Some(n) => Some(n as i64),
                None => None,
            },
        ),
        Bind::OptText(intent.provider_reference),
        Bind::Id(intent.deterministic_transfer_id),
        Bind::Text(intent.reason),
        Bind::JsonText(intent.metadata),
    ]);
}

/// A movement that is recorded is told to be applied at the version of the card that it made, its
/// intent is told to be verified, and the answer is that of its row, with the status of its
/// publication.
#[verifier::rlimit(80)]
pub proof fn recorded_movement_is_told_as_applied(
    st: RunView,
    context: DurableMutationContext,
    intent: CreditMovementIntent,
    observed: u64,
    version: i64,
    publication: &'static str,
)
    requires
        record_movement_spec(st, context, intent, observed, version, publication).0 is Ok,
    ensures
        ({
            let (result, after) = record_movement_spec(
                st,
                context,
                intent,
                observed,
                version,
                publication,
            );
            let log = after.log;
            &&& log[st.log.len() as int] == script::change(
                APPLY_SQL@,
                seq![Bind::Int(version), Bind::Id(intent.movement_id)],
            )
            &&& script::is_run_of(log[st.log.len() as int + 3], VERIFY_WAL_SQL@)
            &&& log[st.log.len() as int + 3]->binds[1] == Bind::Id(intent.operation_id)
            &&& result->Ok_0.movement_id == intent.movement_id
            &&& result->Ok_0.event_publication_status == publication
        }),
{
}

/// A movement goes to the ledger only where exactly its own intent enters execution; anything else
/// is a conflict.
pub proof fn movement_enters_execution_alone(st: RunView, operation_id: Uuid)
    requires
        st.rest.len() > 0,
    ensures
        ({
            let (result, after) = mark_credit_movement_external_in_flight_spec(st, operation_id);
            &&& result is Ok <==> st.rest[0] == script::Reply::Executed(Ok(1))
            &&& (st.rest[0] matches script::Reply::Executed(Ok(n)) && n != 1) ==> result
                == script::conflict_fault::<()>(
                "credit movement WAL cannot enter external execution"@,
            )
            &&& after.log == st.log.push(
                script::change(IN_FLIGHT_SQL@, seq![Bind::Id(operation_id)]),
            )
        }),
{
}

/// A movement whose outcome is open is told to need recovery, and its intent is put off, both with
/// the code given. Nothing else is changed.
pub proof fn open_movement_is_told_to_need_recovery(
    st: RunView,
    operation_id: Uuid,
    safe_error_code: &'static str,
)
    requires
        mark_credit_movement_recovery_required_spec(st, operation_id, safe_error_code).0 is Ok,
    ensures
        mark_credit_movement_recovery_required_spec(
            st,
            operation_id,
            safe_error_code,
        ).1.log == st.log.push(
            script::change(
                RECOVERY_SQL@,
                seq![Bind::Label(safe_error_code), Bind::Id(operation_id)],
            ),
        ).push(
            script::change(
                FAIL_WAL_SQL@,
                seq![Bind::Json(Document::ErrorCode(safe_error_code)), Bind::Id(operation_id)],
            ),
        ),
{
}

/// A movement is made only where it waits for it or for its recovery. One that is applied is
/// answered, and any other is a conflict.
pub proof fn movement_is_made_where_it_waits(
    st: RunView,
    context: DurableMutationContext,
    catalog: ProviderEventCatalog,
    intent: CreditMovementIntent,
    observed_remaining_amount_rials: u64,
    observed_at: UtcTime,
    status: String,
)
    requires
        script::one_text_spec(
            st,
            MOVEMENT_STATUS_SQL@,
            seq![Bind::Id(intent.movement_id), Bind::Id(intent.operation_id)],
            "failed to lock provider credit movement"@,
        ).0 == Ok::<String, HaltView>(status),
        status@ != "APPLIED"@,
    ensures
        status@ != "PENDING"@ && status@ != "RECOVERY_REQUIRED"@ ==> {
            &&& finalize_credit_movement_atomic_spec(
                st,
                context,
                catalog,
                intent,
                observed_remaining_amount_rials,
                observed_at,
            ).0 == script::conflict_fault::<
                CreditMovementResult,
            >("provider credit movement cannot be finalized"@)
            &&& finalize_credit_movement_atomic_spec(
                st,
                context,
                catalog,
                intent,
                observed_remaining_amount_rials,
                observed_at,
            ).1.log.len() == st.log.len() + 1
        },
        (status@ == "PENDING"@ || status@ == "RECOVERY_REQUIRED"@) && st.rest.len() == 1 ==> (
        finalize_credit_movement_atomic_spec(
            st,
            context,
            catalog,
            intent,
            observed_remaining_amount_rials,
            observed_at,
        ).0 matches Err(HaltView::Ask(call))
            && call
            == script::sql_call(
            script::Mode::QueryRow,
            CARD_VERSION_SQL@,
            seq![Bind::Id(intent.card_id)],
            "i",
        )),
{
}

/// A record under another request is a conflict. Under the same request a completed one is answered
/// again, and one that is under way is reported so.
pub proof fn movement_is_answered_from_its_record(
    st: RunView,
    record: IdempotencyRecord,
    request_hash: String,
)
    ensures
        ({
            let result = classify_idempotency_spec(st, record, request_hash).0;
            let same = record.request_hash@ == request_hash@;
            &&& !same <==> result == Ok::<_, HaltView>(
                BeginCreditMovementOutcome::IdempotencyConflict,
            )
            &&& same && record.status is InProgress <==> result == Ok::<_, HaltView>(
                BeginCreditMovementOutcome::IdempotencyInProgress,
            )
            &&& result matches Ok(BeginCreditMovementOutcome::Replayed(answer)) ==> same
                && record.status is Completed && record.response_snapshot == Some(answer)
            &&& result matches Ok(outcome) ==> outcome is Replayed || outcome is IdempotencyConflict
                || outcome is IdempotencyInProgress
        }),
{
}

/// An amount is stored as it is, as far as the database can hold it, and is refused beyond.
pub proof fn amount_is_stored_as_it_is(amount: u64, message: Seq<char>)
    ensures
        amount <= i64::MAX ==> (amount_of(amount, message) matches Ok(stored) && stored == amount),
        amount > i64::MAX ==> amount_of(amount, message) is Err,
{
}

/// A reference that was taken meanwhile is a conflict of references; every other end stays what it
/// is.
pub proof fn taken_reference_is_a_conflict_of_references(
    result: Result<BeginCreditMovementOutcome, DbError>,
)
    ensures
        ({
            let settled = settle_begin_result(result);
            let taken = result matches Err(DbError::Conflict(message)) && message@
                == REFERENCE_TAKEN@;
            &&& taken ==> (settled matches Ok(outcome) && outcome is ProviderReferenceConflict)
            &&& !taken ==> settled == result
        }),
{
}

/// A publication waits only where every gate is open, and is suppressed where one is not.
pub proof fn publication_waits_behind_open_gates(gate: DeliveryGate)
    ensures
        gate.global_delivery_enabled && gate.provider_delivery_enabled && gate.provider_active
            && gate.kafka_credential_active && gate.subscription_enabled ==> publication_status(
            gate,
        )@ == "PENDING"@,
        !(gate.global_delivery_enabled && gate.provider_delivery_enabled && gate.provider_active
            && gate.kafka_credential_active && gate.subscription_enabled) ==> publication_status(
            gate,
        )@ == "SUPPRESSED"@,
{
}

/// What the database is told, and with which values, where a run succeeds that does this:
/// stores the command, the intent and the movement.
#[verifier::rlimit(60)]
pub proof fn store_movement_is_told(
    st: RunView,
    context: MutationCommandContext,
    intent: CreditMovementIntent,
)
    ensures
        ({
            let (ended, after) = store_movement_spec(st, context, intent);
            let log = after.log;
            ended is Ok ==> {
                &&& script::told_where(
                    log,
                    INSERT_WAL_SQL@,
                    |b: Seq<Bind>| b.len() == 4 && b[0] == Bind::Id(intent.operation_id)
                        && b[1] == Bind::Id(intent.movement_id)
                        && b[2] == Bind::Id(intent.deterministic_transfer_id),
                ) > 0
                &&& script::ran(
                    log,
                    INSERT_MOVEMENT_SQL@,
                    seq![
                        Bind::Id(intent.movement_id),
                        Bind::Id(intent.operation_id),
                        Bind::Label(intent.movement_type.code()),
                        Bind::Text(intent.initiated_by),
                        Bind::Id(intent.provider_id),
                        Bind::Id(intent.user_id),
                        Bind::Id(intent.card_id),
                        Bind::Id(intent.provider_user_account_id),
                        Bind::Id(intent.provider_owned_account_id),
                        Bind::Int(
                            amount_of(
                                intent.amount_rials,
                                "credit amount exceeds Oracle contract"@,
                            )->Ok_0,
                        ),
                        Bind::OptInt(
                            opt_amount_of(
                                intent.expected_remaining_amount_rials,
                                "expected credit balance exceeds Oracle contract"@,
                            )->Ok_0,
                        ),
                        Bind::OptText(intent.provider_reference),
                        Bind::Id(intent.deterministic_transfer_id),
                        Bind::Text(intent.reason),
                        Bind::JsonText(intent.metadata),
                    ],
                )
            }
        }),
{
    broadcast use {
        script::runs_on_with_another,
        script::told_where_with_another,
        map_context_changes_nothing,
    };

    reveal(store_movement_spec);
}

/// What is asked first, and with which values, in a run that does this:
/// marks the intent of a movement as under way at the ledger.
pub proof fn mark_credit_movement_external_in_flight_asks_first(
    st: RunView,
    operation_id: Uuid,
)
    requires
        st.rest.len() == 0,
    ensures
        mark_credit_movement_external_in_flight_spec(st, operation_id).0 matches Err(
            HaltView::Ask(asked),
        )
            && (
                asked matches script::CallView::Sql { sql, binds, .. } && sql == IN_FLIGHT_SQL@
                    && binds == seq![Bind::Id(operation_id)]
            ),
{
}

/// Exactly one row is touched where a run succeeds that does this:
/// marks the intent of a movement as under way at the ledger.
pub proof fn mark_credit_movement_external_in_flight_touches_one_row(
    st: RunView,
    operation_id: Uuid,
)
    requires
        mark_credit_movement_external_in_flight_spec(st, operation_id).0 is Ok,
    ensures
        st.rest[0] == script::Reply::Executed(Ok(1)),
{
}

/// What is asked first, and with which values, in a run that does this:
/// marks a movement for recovery, and its intent as failed.
pub proof fn mark_credit_movement_recovery_required_asks_first(
    st: RunView,
    operation_id: Uuid,
    safe_error_code: &'static str,
)
    requires
        st.rest.len() == 0,
    ensures
        mark_credit_movement_recovery_required_spec(
            st,
            operation_id,
            safe_error_code,
        ).0 matches Err(HaltView::Ask(asked))
            && (
                asked matches script::CallView::Sql { sql, binds, .. } && sql == RECOVERY_SQL@
                    && binds == seq![Bind::Label(safe_error_code), Bind::Id(operation_id)]
            ),
{
}

/// What the database is told, and with which values, where a run succeeds that does this:
/// stores one side of a movement.
#[verifier::rlimit(60)]
pub proof fn insert_entry_is_told(
    st: RunView,
    intent: CreditMovementIntent,
    entry: LedgerEntry,
    amount: i64,
)
    ensures
        ({
            let (ended, after) = insert_entry_spec(st, intent, entry, amount);
            let log = after.log;
            ended is Ok ==> {
                &&& script::told_where(
                    log,
                    INSERT_ENTRY_SQL@,
                    |b: Seq<Bind>| b.len() == 9 && b[1] == Bind::Id(intent.movement_id)
                        && b[2] == Bind::Int(entry.sequence) && b[3] == Bind::Id(intent.provider_id)
                        && b[4] == Bind::Id(entry.account_id) && b[5] == Bind::Label(entry.category)
                        && b[6] == Bind::Label(entry.direction) && b[7] == Bind::Int(amount)
                        && b[8] == Bind::Id(intent.deterministic_transfer_id),
                ) > 0
            }
        }),
{
    broadcast use {
        script::runs_on_with_another,
        script::told_where_with_another,
        map_context_changes_nothing,
    };

}

/// What is asked first, and with which values, in a run that does this:
/// whom a movement is about.
pub proof fn load_event_subject_asks_first(
    st: RunView,
    intent: CreditMovementIntent,
)
    requires
        st.rest.len() == 0,
    ensures
        load_event_subject_spec(st, intent).0 matches Err(HaltView::Ask(asked))
            && (
                asked matches script::CallView::Sql { sql, binds, .. } && sql == EVENT_SUBJECT_SQL@
                    && binds == seq![
                        Bind::Id(intent.provider_id),
                        Bind::Id(intent.card_id),
                        Bind::Id(intent.user_id),
                    ]
            ),
{
}

/// What is asked first, and with which values, in a run that does this:
/// a movement that was made.
pub proof fn fetch_result_asks_first(
    st: RunView,
    movement_id: Uuid,
)
    requires
        st.rest.len() == 0,
    ensures
        fetch_result_spec(st, movement_id).0 matches Err(HaltView::Ask(asked))
            && (
                asked matches script::CallView::Sql { sql, binds, .. } && sql == RESULT_SQL@
                    && binds == seq![Bind::Id(movement_id)]
            ),
{
}

/// What the database is told, and with which values, where a run succeeds that does this:
/// stores the event that tells a provider of a movement, and tells whether it waits or is
/// suppressed.
#[verifier::rlimit(60)]
pub proof fn enqueue_event_is_told(
    st: RunView,
    catalog: ProviderEventCatalog,
    intent: CreditMovementIntent,
    observed: u64,
    observed_at: UtcTime,
)
    ensures
        ({
            let (ended, after) = enqueue_event_spec(st, catalog, intent, observed, observed_at);
            let log = after.log;
            ended is Ok ==> {
                &&& script::told_where(
                    log,
                    EVENT_OUTBOX_SQL@,
                    |b: Seq<Bind>| b.len() == 9 && b[1] == Bind::Id(intent.operation_id)
                        && b[2] == Bind::Id(intent.provider_id)
                        && b[3] == Bind::Text(event_of(catalog, intent.movement_type))
                        && b[4] == Bind::Id(intent.provider_user_account_id)
                        && b[5] == Bind::IdText(intent.provider_id),
                ) > 0
            }
        }),
{
    broadcast use {
        script::runs_on_with_another,
        script::told_where_with_another,
        map_context_changes_nothing,
    };

}

/// What is asked first, and with which values, in a run that does this:
/// marks a movement as made, with its answer, audit evidence and completed command.
pub proof fn record_movement_asks_first(
    st: RunView,
    context: DurableMutationContext,
    intent: CreditMovementIntent,
    observed: u64,
    version: i64,
    publication: &'static str,
)
    requires
        st.rest.len() == 0,
    ensures
        record_movement_spec(
            st,
            context,
            intent,
            observed,
            version,
            publication,
        ).0 matches Err(HaltView::Ask(asked))
            && (
                asked matches script::CallView::Sql { sql, binds, .. } && sql == APPLY_SQL@
                    && binds == seq![Bind::Int(version), Bind::Id(intent.movement_id)]
            ),
{
}

/// What the database is told, and with which values, where a run succeeds that does this:
/// marks a movement as made, with its answer, audit evidence and completed command.
#[verifier::rlimit(60)]
pub proof fn record_movement_is_told(
    st: RunView,
    context: DurableMutationContext,
    intent: CreditMovementIntent,
    observed: u64,
    version: i64,
    publication: &'static str,
)
    ensures
        ({
            let (ended, after) = record_movement_spec(
                st,
                context,
                intent,
                observed,
                version,
                publication,
            );
            let log = after.log;
            ended is Ok ==> {
                &&& script::ran(
                    log,
                    APPLY_SQL@,
                    seq![Bind::Int(version), Bind::Id(intent.movement_id)],
                )
                &&& script::told_where(
                    log,
                    VERIFY_WAL_SQL@,
                    |b: Seq<Bind>| b.len() == 2 && b[1] == Bind::Id(intent.operation_id),
                ) > 0
            }
        }),
{
    broadcast use {
        script::runs_on_with_another,
        script::told_where_with_another,
        map_context_changes_nothing,
    };

}

/// What is asked first, and with which values, in a run that does this:
/// gives the card of a movement its next version, tells the runtime and the provider, and stores
/// the fact.
pub proof fn carry_out_asks_first(
    st: RunView,
    context: DurableMutationContext,
    catalog: ProviderEventCatalog,
    intent: CreditMovementIntent,
    observed: u64,
    observed_at: UtcTime,
)
    requires
        st.rest.len() == 0,
    ensures
        carry_out_spec(
            st,
            context,
            catalog,
            intent,
            observed,
            observed_at,
        ).0 matches Err(HaltView::Ask(asked))
            && (
                asked matches script::CallView::Sql { sql, binds, .. } && sql == CARD_VERSION_SQL@
                    && binds == seq![Bind::Id(intent.card_id)]
            ),
{
}

/// What the database is told, and with which values, where a run succeeds that does this:
/// gives the card of a movement its next version, tells the runtime and the provider, and stores
/// the fact.
#[verifier::rlimit(60)]
pub proof fn carry_out_is_told(
    st: RunView,
    context: DurableMutationContext,
    catalog: ProviderEventCatalog,
    intent: CreditMovementIntent,
    observed: u64,
    observed_at: UtcTime,
)
    ensures
        ({
            let (ended, after) = carry_out_spec(
                st,
                context,
                catalog,
                intent,
                observed,
                observed_at,
            );
            let log = after.log;
            ended is Ok ==> {
                &&& script::told_where(
                    log,
                    ADVANCE_CARD_SQL@,
                    |b: Seq<Bind>| b.len() == 4 && b[1] == Bind::Text(context.audit.actor_subject)
                        && b[2] == Bind::Id(intent.card_id),
                ) > 0
            }
        }),
{
    broadcast use {
        script::runs_on_with_another,
        script::told_where_with_another,
        map_context_changes_nothing,
    };

}

/// What is asked first, and with which values, in a run that does this:
/// makes a movement that the ledger has carried out: the card gets its next version, the runtime
/// and the provider are told, and the fact is stored.
pub proof fn finalize_credit_movement_atomic_asks_first(
    st: RunView,
    context: DurableMutationContext,
    catalog: ProviderEventCatalog,
    intent: CreditMovementIntent,
    observed_remaining_amount_rials: u64,
    observed_at: UtcTime,
)
    requires
        st.rest.len() == 0,
    ensures
        finalize_credit_movement_atomic_spec(
            st,
            context,
            catalog,
            intent,
            observed_remaining_amount_rials,
            observed_at,
        ).0 matches Err(HaltView::Ask(asked))
            && (
                asked matches script::CallView::Sql { sql, binds, .. }
                    && sql == MOVEMENT_STATUS_SQL@
                    && binds == seq![Bind::Id(intent.movement_id), Bind::Id(intent.operation_id)]
            ),
{
}

/// What is asked first, and with which values, in a run that does this:
/// a movement that is under way, where there is one.
pub proof fn load_credit_movement_recovery_asks_first(
    st: RunView,
    operation_id: Uuid,
)
    requires
        st.rest.len() == 0,
    ensures
        load_credit_movement_recovery_spec(st, operation_id).0 matches Err(HaltView::Ask(asked))
            && (
                asked matches script::CallView::Sql { sql, binds, .. } && sql == RECOVERABLE_SQL@
                    && binds == seq![Bind::Id(operation_id)]
            ),
{
}

} // verus!
