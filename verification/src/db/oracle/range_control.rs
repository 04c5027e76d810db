//! Receipts for the controls of card ranges.
use vstd::prelude::*;
use crate::db::oracle::audit;
use crate::db::oracle::binds;
use crate::db::oracle::card_range;
use crate::db::oracle::consult::Rule;
use crate::db::oracle::document::{Document, Snapshot};
use crate::db::oracle::outbox;
use crate::db::oracle::repository::OracleRepository;
use crate::db::oracle::script;
use crate::db::oracle::script::{Bind, Halt, HaltView, Row, RunView, Session};
use crate::domain::audit::AuditAction;
use crate::domain::receipt::RuntimeMaterializationReceipt;
use crate::text;
use crate::uuid;
use crate::uuid::Uuid;

verus! {

/// Marks the controls of a range as in force.
pub const FINALIZE_SQL: &'static str = "UPDATE card_ranges SET materialized_operational_version=:1, range_control_operation_id=NULL, updated_at=SYSTIMESTAMP WHERE card_range_id=:2 AND range_control_operation_id=:3 AND operational_version=:1";

/// Finds a stored receipt for the same event, or for the same operation and version.
pub const REPLAY_SQL: &'static str = "SELECT receipt_event_id, operation_id, aggregate_id, materialized_version, redis_key FROM runtime_materialization_receipts WHERE receipt_event_id=:1 OR (operation_id=:2 AND profile_type='CRCTL' AND materialized_version=:3)";

/// Counts the rejected arrivals of a receipt.
pub const REJECTED_SQL: &'static str = "SELECT COUNT(*) FROM integration_inbox WHERE source_system='WOLFSBURG' AND source_event_id=:1 AND status='FAILED'";

/// Stores the arrival of a receipt.
pub const INBOX_INSERT_SQL: &'static str = "INSERT INTO integration_inbox (inbox_event_id, source_system, source_event_id, event_type, aggregate_type, aggregate_id, payload_json) VALUES (:1,'WOLFSBURG',:2,'RUNTIME_PROFILE_MATERIALIZED','CARD_RANGE',:3,:4)";

/// Locks and reads the range whose controls an operation publishes.
pub const PENDING_RANGE_SQL: &'static str = "SELECT card_range_id, operational_version FROM card_ranges WHERE range_control_operation_id=:1 FOR UPDATE";

/// Stores a receipt.
pub const RECEIPT_INSERT_SQL: &'static str = r#"INSERT INTO runtime_materialization_receipts (runtime_materialization_receipt_id, receipt_event_id, operation_id, profile_type, aggregate_id, profile_id, materialized_version, redis_key, materialized_at) VALUES (:1,:2,:3,'CRCTL',:4,NULL,:5,:6,TO_TIMESTAMP_TZ(:7,'YYYY-MM-DD"T"HH24:MI:SS.FF3"Z"'))"#;

/// Marks a receipt as processed.
pub const INBOX_PROCESSED_SQL: &'static str = "UPDATE integration_inbox SET status='PROCESSED', processed_at=SYSTIMESTAMP WHERE source_system='WOLFSBURG' AND source_event_id=:1";

/// Marks a receipt as rejected.
pub const INBOX_FAILED_SQL: &'static str = "UPDATE integration_inbox SET status='FAILED', processed_at=SYSTIMESTAMP, error_json=:1 WHERE source_system='WOLFSBURG' AND source_event_id=:2";

/// The context of a column of a stored receipt that cannot be read.
pub const REPLAY_ROW: &'static str = "failed to map range receipt replay";

/// What became of a receipt for the controls of a range.
#[derive(Clone, Copy, Debug, PartialEq, Eq, Structural)]
pub enum RangeControlReceiptOutcome {
    Materialized,
    Replayed,
    Mismatch,
}

/// A range whose controls are being published, and their version.
#[derive(Clone, Copy, Debug, PartialEq, Eq, Structural)]
pub struct PendingRange {
    pub card_range_id: Uuid,
    pub version: i64,
}

/// A receipt is for the version of the controls that its operation publishes.
pub open spec fn receipt_matches_spec(
    pending: Option<PendingRange>,
    receipt: RuntimeMaterializationReceipt,
) -> bool {
    &&& receipt.profile_type@ == "CRCTL"@
    &&& receipt.profile_id is None
    &&& pending == Some(
        PendingRange {
            card_range_id: receipt.aggregate_id,
            version: receipt.materialized_version,
        },
    )
    &&& receipt.runtime_key@ == "CRCTL:"@ + uuid::hyphenated_text(receipt.aggregate_id)
}

/// Whether a receipt is for the version of the controls that its operation publishes.
pub fn receipt_matches(
    pending: Option<PendingRange>,
    receipt: &RuntimeMaterializationReceipt,
) -> (r: bool)
    ensures
        r == receipt_matches_spec(pending, *receipt),
{
    match pending {
        Some(range) => text::same_text(receipt.profile_type.as_str(), "CRCTL")
            && receipt.profile_id.is_none() && range.card_range_id == receipt.aggregate_id
            && range.version == receipt.materialized_version && text::same_text(
            receipt.runtime_key.as_str(),
            text::joined2("CRCTL:", receipt.aggregate_id.to_text().as_str()).as_str(),
        ),
        None => false,
    }
}

/// What a receipt comes to beside the one that a row holds.
pub open spec fn compare_stored_receipt_spec(
    row: Row,
    receipt: RuntimeMaterializationReceipt,
) -> Result<RangeControlReceiptOutcome, HaltView> {
    match row.raw_at(0, REPLAY_ROW@) { Err(h) => Err(h), Ok(event_raw) =>
    match row.raw_at(1, REPLAY_ROW@) { Err(h) => Err(h), Ok(operation_raw) =>
    match row.raw_at(2, REPLAY_ROW@) { Err(h) => Err(h), Ok(aggregate_raw) =>
    match row.int_at(3, REPLAY_ROW@) { Err(h) => Err(h), Ok(version) =>
    match row.text_at(4, REPLAY_ROW@) { Err(h) => Err(h), Ok(key) =>
    if receipt.profile_type@ != "CRCTL"@ || receipt.profile_id is Some {
        Ok(RangeControlReceiptOutcome::Mismatch)
    } else {
    match script::id_of(event_raw@) { Err(h) => Err(h), Ok(event) =>
    if event != receipt.receipt_event_id {
        Ok(RangeControlReceiptOutcome::Mismatch)
    } else {
    match script::id_of(operation_raw@) { Err(h) => Err(h), Ok(operation) =>
    if operation != receipt.operation_id {
        Ok(RangeControlReceiptOutcome::Mismatch)
    } else {
    match script::id_of(aggregate_raw@) { Err(h) => Err(h), Ok(aggregate) =>
    if aggregate != receipt.aggregate_id {
        Ok(RangeControlReceiptOutcome::Mismatch)
    } else {
    if version == receipt.materialized_version && key@ == receipt.runtime_key@ {
        Ok(RangeControlReceiptOutcome::Replayed)
    } else {
    Ok(RangeControlReceiptOutcome::Mismatch)
    }}}}}}}}}}}}}
}

/// What a receipt comes to beside the one that a row holds.
pub fn compare_stored_receipt(
    row: &Row,
    receipt: &RuntimeMaterializationReceipt,
) -> (r: Result<RangeControlReceiptOutcome, Halt>)
    ensures
        script::seen(r) == compare_stored_receipt_spec(*row, *receipt),
{
    let event_raw = row.raw(0, REPLAY_ROW)?;
    let operation_raw = row.raw(1, REPLAY_ROW)?;
    let aggregate_raw = row.raw(2, REPLAY_ROW)?;
    let version: i64 = row.number(3, REPLAY_ROW)?;
    let key = row.text(4, REPLAY_ROW)?;
    if !text::same_text(receipt.profile_type.as_str(), "CRCTL") || receipt.profile_id.is_some() {
        return Ok(RangeControlReceiptOutcome::Mismatch);
    }
    let event = script::to_id(event_raw)?;
    if event != receipt.receipt_event_id {
        return Ok(RangeControlReceiptOutcome::Mismatch);
    }
    let operation = script::to_id(operation_raw)?;
    if operation != receipt.operation_id {
        return Ok(RangeControlReceiptOutcome::Mismatch);
    }
    let aggregate = script::to_id(aggregate_raw)?;
    if aggregate != receipt.aggregate_id {
        return Ok(RangeControlReceiptOutcome::Mismatch);
    }
    if version == receipt.materialized_version
        && text::same_text(key.as_str(), receipt.runtime_key.as_str()) {
        return Ok(RangeControlReceiptOutcome::Replayed);
    }
    Ok(RangeControlReceiptOutcome::Mismatch)
}

/// What a receipt comes to, where it was stored or rejected before.
pub open spec fn classify_existing_receipt_spec(
    st: RunView,
    receipt: RuntimeMaterializationReceipt,
) -> (Result<Option<RangeControlReceiptOutcome>, HaltView>, RunView) {
    match script::first_row_spec(
        st,
        REPLAY_SQL@,
        seq![
            Bind::Id(receipt.receipt_event_id),
            Bind::Id(receipt.operation_id),
            Bind::Int(receipt.materialized_version),
        ],
        "rrrit",
        "failed to check range receipt replay"@,
        "failed to read range receipt replay"@,
    ) { (Err(h), st) => (Err(h), st), (Ok(found), st) =>
    if let Some(row) = found {
        match compare_stored_receipt_spec(row, receipt) { Err(h) => (Err(h), st), Ok(outcome) =>
        (Ok(Some(outcome)), st)
        }
    } else {
    match script::one_int_spec(
        st,
        REJECTED_SQL@,
        seq![Bind::Id(receipt.receipt_event_id)],
        "failed to check rejected range receipt"@,
    ) { (Err(h), st) => (Err(h), st), (Ok(rejected), st) =>
    if rejected > 0 {
        (Ok(Some(RangeControlReceiptOutcome::Mismatch)), st)
    } else {
    (Ok(None), st)
    }}}}
}

/// What a receipt comes to, where it was stored or rejected before.
pub fn classify_existing_receipt(
    s: &mut Session,
    receipt: &RuntimeMaterializationReceipt,
) -> (r: Result<Option<RangeControlReceiptOutcome>, Halt>)
    ensures
        (script::seen(r), final(s)@) == classify_existing_receipt_spec(old(s)@, *receipt),
{
    let found = script::first_row(
        s,
        REPLAY_SQL,
        binds::binds3(
            Bind::Id(receipt.receipt_event_id),
            Bind::Id(receipt.operation_id),
            Bind::Int(receipt.materialized_version),
        ),
        "rrrit",
        "failed to check range receipt replay",
        "failed to read range receipt replay",
    )?;
    if let Some(row) = found {
        let outcome = compare_stored_receipt(row, receipt)?;
        return Ok(Some(outcome));
    }
    let rejected = script::one_int(
        s,
        REJECTED_SQL,
        binds::binds1(Bind::Id(receipt.receipt_event_id)),
        "failed to check rejected range receipt",
    )?;
    if rejected > 0 {
        return Ok(Some(RangeControlReceiptOutcome::Mismatch));
    }
    Ok(None)
}

/// Stores the arrival of a receipt.
pub open spec fn insert_inbox_spec(
    st: RunView,
    receipt: RuntimeMaterializationReceipt,
) -> (Result<(), HaltView>, RunView) {
    match script::encode_spec(
        st,
        Rule::RuntimeReceipt(receipt),
        "failed to serialize range receipt"@,
    ) { (Err(h), st) => (Err(h), st), (Ok(payload), st) =>
    match script::fresh_id_spec(st) { (Err(h), st) => (Err(h), st), (Ok(inbox_id), st) =>
    match script::execute_spec(
        st,
        INBOX_INSERT_SQL@,
        seq![
            Bind::Id(inbox_id),
            Bind::Id(receipt.receipt_event_id),
            Bind::Id(receipt.aggregate_id),
            Bind::Text(payload),
        ],
        "failed to insert range receipt inbox"@,
    ) { (Err(h), st) => (Err(h), st), (Ok(_), st) =>
    (Ok(()), st)
    }}}
}

/// Stores the arrival of a receipt.
pub fn insert_inbox(
    s: &mut Session,
    receipt: &RuntimeMaterializationReceipt,
) -> (r: Result<(), Halt>)
    ensures
        (script::seen(r), final(s)@) == insert_inbox_spec(old(s)@, *receipt),
{
    let payload = script::encode(
        s,
        Rule::RuntimeReceipt(receipt.clone()),
        "failed to serialize range receipt",
    )?;
    let inbox_id = script::fresh_id(s)?;
    script::execute(
        s,
        INBOX_INSERT_SQL,
        binds::binds4(
            Bind::Id(inbox_id),
            Bind::Id(receipt.receipt_event_id),
            Bind::Id(receipt.aggregate_id),
            Bind::Text(payload.clone()),
        ),
        "failed to insert range receipt inbox",
    )?;
    Ok(())
}

/// The range whose controls an operation publishes, locked.
pub open spec fn lock_pending_range_spec(
    st: RunView,
    operation_id: Uuid,
) -> (Result<Option<PendingRange>, HaltView>, RunView) {
    match script::first_row_spec(
        st,
        PENDING_RANGE_SQL@,
        seq![Bind::Id(operation_id)],
        "ri",
        "failed to lock pending range control"@,
        "failed to read pending range control"@,
    ) { (Err(h), st) => (Err(h), st), (Ok(found), st) =>
    match found {
    None => {
        (Ok(None), st)
    },
    Some(row) =>
    match row.raw_at(
        0,
        "failed to map pending range id"@,
    ) { Err(h) => (Err(h), st), Ok(range_raw) =>
    match row.int_at(
        1,
        "failed to map pending range version"@,
    ) { Err(h) => (Err(h), st), Ok(version) =>
    match script::id_of(range_raw@) { Err(h) => (Err(h), st), Ok(card_range_id) =>
    (Ok(Some(PendingRange { card_range_id, version })), st)
    }}}}}
}

/// The range whose controls an operation publishes, locked.
pub fn lock_pending_range(
    s: &mut Session,
    operation_id: Uuid,
) -> (r: Result<Option<PendingRange>, Halt>)
    ensures
        (script::seen(r), final(s)@) == lock_pending_range_spec(old(s)@, operation_id),
{
    let found = script::first_row(
        s,
        PENDING_RANGE_SQL,
        binds::binds1(Bind::Id(operation_id)),
        "ri",
        "failed to lock pending range control",
        "failed to read pending range control",
    )?;
    let row = match found {
        Some(v) => v,
        None => {
            return Ok(None);
        },
    };
    let range_raw = row.raw(0, "failed to map pending range id")?;
    let version: i64 = row.number(1, "failed to map pending range version")?;
    let card_range_id = script::to_id(range_raw)?;
    Ok(Some(PendingRange { card_range_id, version }))
}

/// Stores a receipt.
pub open spec fn insert_receipt_spec(
    st: RunView,
    receipt: RuntimeMaterializationReceipt,
) -> (Result<(), HaltView>, RunView) {
    match script::fresh_id_spec(st) { (Err(h), st) => (Err(h), st), (Ok(receipt_id), st) =>
    match script::execute_spec(
        st,
        RECEIPT_INSERT_SQL@,
        seq![
            Bind::Id(receipt_id),
            Bind::Id(receipt.receipt_event_id),
            Bind::Id(receipt.operation_id),
            Bind::Id(receipt.aggregate_id),
            Bind::Int(receipt.materialized_version),
            Bind::Text(receipt.runtime_key),
            Bind::Time(receipt.materialized_at),
        ],
        "failed to insert range materialization receipt"@,
    ) { (Err(h), st) => (Err(h), st), (Ok(_), st) =>
    (Ok(()), st)
    }}
}

/// Stores a receipt.
pub fn insert_receipt(
    s: &mut Session,
    receipt: &RuntimeMaterializationReceipt,
) -> (r: Result<(), Halt>)
    ensures
        (script::seen(r), final(s)@) == insert_receipt_spec(old(s)@, *receipt),
{
    let receipt_id = script::fresh_id(s)?;
    script::execute(
        s,
        RECEIPT_INSERT_SQL,
        binds::binds7(
            Bind::Id(receipt_id),
            Bind::Id(receipt.receipt_event_id),
            Bind::Id(receipt.operation_id),
            Bind::Id(receipt.aggregate_id),
            Bind::Int(receipt.materialized_version),
            Bind::Text(receipt.runtime_key.clone()),
            Bind::Time(receipt.materialized_at),
        ),
        "failed to insert range materialization receipt",
    )?;
    Ok(())
}

/// Marks a receipt as processed.
pub open spec fn complete_inbox_spec(
    st: RunView,
    receipt_event_id: Uuid,
) -> (Result<(), HaltView>, RunView) {
    match script::execute_spec(
        st,
        INBOX_PROCESSED_SQL@,
        seq![Bind::Id(receipt_event_id)],
        "failed to complete range receipt inbox"@,
    ) { (Err(h), st) => (Err(h), st), (Ok(_), st) =>
    (Ok(()), st)
    }
}

/// Marks a receipt as processed.
pub fn complete_inbox(s: &mut Session, receipt_event_id: Uuid) -> (r: Result<(), Halt>)
    ensures
        (script::seen(r), final(s)@) == complete_inbox_spec(old(s)@, receipt_event_id),
{
    script::execute(
        s,
        INBOX_PROCESSED_SQL,
        binds::binds1(Bind::Id(receipt_event_id)),
        "failed to complete range receipt inbox",
    )?;
    Ok(())
}

/// Marks a receipt as rejected.
pub open spec fn fail_inbox_spec(
    st: RunView,
    receipt_event_id: Uuid,
    code: &'static str,
) -> (Result<(), HaltView>, RunView) {
    match script::execute_spec(
        st,
        INBOX_FAILED_SQL@,
        seq![Bind::Json(Document::ErrorCode(code)), Bind::Id(receipt_event_id)],
        "failed to reject range receipt inbox"@,
    ) { (Err(h), st) => (Err(h), st), (Ok(_), st) =>
    (Ok(()), st)
    }
}

/// Marks a receipt as rejected.
pub fn fail_inbox(
    s: &mut Session,
    receipt_event_id: Uuid,
    code: &'static str,
) -> (r: Result<(), Halt>)
    ensures
        (script::seen(r), final(s)@) == fail_inbox_spec(old(s)@, receipt_event_id, code),
{
    script::execute(
        s,
        INBOX_FAILED_SQL,
        binds::binds2(Bind::Json(Document::ErrorCode(code)), Bind::Id(receipt_event_id)),
        "failed to reject range receipt inbox",
    )?;
    Ok(())
}

/// Stores a receipt and marks the controls that it is for as in force.
pub open spec fn materialize_spec(
    st: RunView,
    receipt: RuntimeMaterializationReceipt,
) -> (Result<RangeControlReceiptOutcome, HaltView>, RunView) {
    match card_range::fetch_card_range_spec(
        st,
        receipt.aggregate_id,
    ) { (Err(h), st) => (Err(h), st), (Ok(before), st) =>
    match insert_receipt_spec(st, receipt) { (Err(h), st) => (Err(h), st), (Ok(_), st) =>
    match script::execute_count_spec(
        st,
        FINALIZE_SQL@,
        seq![
            Bind::Int(receipt.materialized_version),
            Bind::Id(receipt.aggregate_id),
            Bind::Id(receipt.operation_id),
        ],
        "failed to finalize range control"@,
        "failed to inspect range control finalization"@,
    ) { (Err(h), st) => (Err(h), st), (Ok(touched), st) =>
    if touched != 1 {
        (script::conflict_fault("range control changed during receipt processing"@), st)
    } else {
    match complete_inbox_spec(
        st,
        receipt.receipt_event_id,
    ) { (Err(h), st) => (Err(h), st), (Ok(_), st) =>
    match outbox::mark_integration_operation_materialized_spec(
        st,
        receipt.operation_id,
    ) { (Err(h), st) => (Err(h), st), (Ok(_), st) =>
    match card_range::fetch_card_range_spec(
        st,
        receipt.aggregate_id,
    ) { (Err(h), st) => (Err(h), st), (Ok(after), st) =>
    match script::consult_text_spec(
        st,
        Rule::CardRangeSnapshot(before),
    ) { (Err(h), st) => (Err(h), st), (Ok(old_values), st) =>
    match script::consult_text_spec(
        st,
        Rule::CardRangeSnapshot(after),
    ) { (Err(h), st) => (Err(h), st), (Ok(shown), st) =>
    { let new_values = Document::RangeControls(
        shown,
        receipt.receipt_event_id,
        receipt.operation_id,
        receipt.materialized_version,
    );
    match audit::insert_audit_log_spec(
        st,
        "CARD_RANGE",
        receipt.aggregate_id,
        AuditAction::StateTransition,
        Bind::Label("Wolfsburg confirmed CRCTL materialization"),
        Some(Snapshot::Text(old_values)),
        Some(Snapshot::Document(new_values)),
        audit::materializer_origin_spec(receipt.operation_id, receipt.receipt_event_id),
    ) { (Err(h), st) => (Err(h), st), (Ok(_), st) =>
    (Ok(RangeControlReceiptOutcome::Materialized), st)
    }}}}}}}}}}}
}

/// Stores a receipt and marks the controls that it is for as in force.
pub fn materialize(
    s: &mut Session,
    receipt: &RuntimeMaterializationReceipt,
) -> (r: Result<RangeControlReceiptOutcome, Halt>)
    ensures
        (script::seen(r), final(s)@) == materialize_spec(old(s)@, *receipt),
{
    let before = card_range::fetch_card_range(s, receipt.aggregate_id)?;
    insert_receipt(s, receipt)?;
    let touched = script::execute_count(
        s,
        FINALIZE_SQL,
        binds::binds3(
            Bind::Int(receipt.materialized_version),
            Bind::Id(receipt.aggregate_id),
            Bind::Id(receipt.operation_id),
        ),
        "failed to finalize range control",
        "failed to inspect range control finalization",
    )?;
    if touched != 1 {
        return Err(script::fail_conflict("range control changed during receipt processing"));
    }
    complete_inbox(s, receipt.receipt_event_id)?;
    outbox::mark_integration_operation_materialized(s, receipt.operation_id)?;
    let after = card_range::fetch_card_range(s, receipt.aggregate_id)?;
    let old_values = script::consult_text(s, Rule::CardRangeSnapshot(before))?;
    let shown = script::consult_text(s, Rule::CardRangeSnapshot(after))?;
    let new_values = Document::RangeControls(
        shown.clone(),
        receipt.receipt_event_id,
        receipt.operation_id,
        receipt.materialized_version,
    );
    audit::insert_audit_log(
        s,
        "CARD_RANGE",
        receipt.aggregate_id,
        AuditAction::StateTransition,
        Bind::Label("Wolfsburg confirmed CRCTL materialization"),
        Some(Snapshot::Text(old_values)),
        Some(Snapshot::Document(new_values)),
        audit::materializer_origin(receipt.operation_id, receipt.receipt_event_id),
    )?;
    Ok(RangeControlReceiptOutcome::Materialized)
}

/// Stores a receipt and marks the controls of the range that it is for as in force. A receipt that
/// is for nothing pending is kept as rejected, and no range changes.
pub open spec fn apply_range_control_receipt_spec(
    st: RunView,
    receipt: RuntimeMaterializationReceipt,
) -> (Result<RangeControlReceiptOutcome, HaltView>, RunView) {
    match classify_existing_receipt_spec(
        st,
        receipt,
    ) { (Err(h), st) => (Err(h), st), (Ok(known), st) =>
    if let Some(outcome) = known {
        (Ok(outcome), st)
    } else {
    match insert_inbox_spec(st, receipt) { (Err(h), st) => (Err(h), st), (Ok(_), st) =>
    match lock_pending_range_spec(
        st,
        receipt.operation_id,
    ) { (Err(h), st) => (Err(h), st), (Ok(pending), st) =>
    if !receipt_matches_spec(pending, receipt) {
        match fail_inbox_spec(
            st,
            receipt.receipt_event_id,
            "RANGE_CONTROL_RECEIPT_MISMATCH",
        ) { (Err(h), st) => (Err(h), st), (Ok(_), st) =>
        (Ok(RangeControlReceiptOutcome::Mismatch), st)
        }
    } else {
    materialize_spec(st, receipt)
    }}}}}
}

impl OracleRepository {
    /// Stores a receipt and marks the controls of the range that it is for as in force. A receipt
    /// that is for nothing pending is kept as rejected, and no range changes.
    pub fn apply_range_control_receipt(
        s: &mut Session,
        receipt: &RuntimeMaterializationReceipt,
    ) -> (r: Result<RangeControlReceiptOutcome, Halt>)
        ensures
            (script::seen(r), final(s)@) == apply_range_control_receipt_spec(old(s)@, *receipt),
    {
        let known = classify_existing_receipt(s, receipt)?;
        if let Some(outcome) = known {
            return Ok(outcome);
        }
        insert_inbox(s, receipt)?;
        let pending = lock_pending_range(s, receipt.operation_id)?;
        if !receipt_matches(pending, receipt) {
            fail_inbox(s, receipt.receipt_event_id, "RANGE_CONTROL_RECEIPT_MISMATCH")?;
            return Ok(RangeControlReceiptOutcome::Mismatch);
        }
        materialize(s, receipt)
    }
}

/// A receipt that was stored before changes nothing. One that is for nothing pending is kept as
/// rejected evidence: beside the inbox nothing is changed, so each card range stays as it is.
pub proof fn rejected_receipt_is_only_evidence(st: RunView, receipt: RuntimeMaterializationReceipt)
    ensures
        ({
            let (result, after) = apply_range_control_receipt_spec(st, receipt);
            let inbox = set![INBOX_INSERT_SQL@, INBOX_FAILED_SQL@];
            &&& result matches Ok(outcome) ==> outcome is Replayed ==> script::writes(after.log)
                == script::writes(st.log)
            &&& result matches Ok(outcome) ==> outcome is Mismatch ==> script::writes_beside(
                after.log,
                inbox,
            ) == script::writes_beside(st.log, inbox)
        }),
{
    broadcast use {
        script::writes_with_another,
        script::writes_beside_with_another,
        card_range::map_card_range_row_changes_nothing,
    };

}


/// The values that a receipt is stored with.
pub open spec fn receipt_values(
    receipt_id: Uuid,
    receipt: RuntimeMaterializationReceipt,
) -> Seq<Bind> {
    seq![
        Bind::Id(receipt_id),
        Bind::Id(receipt.receipt_event_id),
        Bind::Id(receipt.operation_id),
        Bind::Id(receipt.aggregate_id),
        Bind::Int(receipt.materialized_version),
        Bind::Text(receipt.runtime_key),
        Bind::Time(receipt.materialized_at),
    ]
}

/// A row under which receipts are looked up gives back a receipt as it was stored.
pub open spec fn is_stored_receipt(row: Row, stored: Seq<Bind>) -> bool {
    &&& row.cells@.len() == 5
    &&& forall|i: int|
        0 <= i < 5 ==> crate::db::oracle::values::gives_back(
            #[trigger] row.cells@[i],
            stored[i + 1],
        )
}

/// A receipt for the controls of a range whose own row is found is answered as replayed, and
/// nothing is changed.
pub proof fn stored_receipt_is_replayed(
    st: RunView,
    receipt: RuntimeMaterializationReceipt,
    receipt_id: Uuid,
    found: script::Rows,
)
    requires
        receipt.profile_type@ == "CRCTL"@,
        receipt.profile_id is None,
        st.rest.len() > 0,
        st.rest[0] == script::Reply::Rows(found),
        found.rows@.len() > 0,
        is_stored_receipt(found.rows@[0], receipt_values(receipt_id, receipt)),
    ensures
        ({
            let (result, after) = apply_range_control_receipt_spec(st, receipt);
            &&& result == Ok::<RangeControlReceiptOutcome, HaltView>(
                RangeControlReceiptOutcome::Replayed,
            )
            &&& script::writes(after.log) == script::writes(st.log)
        }),
{
    broadcast use script::writes_with_another;

    let row = found.rows@[0];
    crate::db::oracle::types::raw16_round_trip(receipt.receipt_event_id, row.cells@[0]->Raw_0@);
    crate::db::oracle::types::raw16_round_trip(receipt.operation_id, row.cells@[1]->Raw_0@);
    crate::db::oracle::types::raw16_round_trip(receipt.aggregate_id, row.cells@[2]->Raw_0@);
    assert(crate::db::oracle::values::gives_back(
        row.cells@[0],
        receipt_values(receipt_id, receipt)[1],
    ));
    assert(crate::db::oracle::values::gives_back(
        row.cells@[1],
        receipt_values(receipt_id, receipt)[2],
    ));
    assert(crate::db::oracle::values::gives_back(
        row.cells@[2],
        receipt_values(receipt_id, receipt)[3],
    ));
    assert(crate::db::oracle::values::gives_back(
        row.cells@[3],
        receipt_values(receipt_id, receipt)[4],
    ));
    assert(crate::db::oracle::values::gives_back(
        row.cells@[4],
        receipt_values(receipt_id, receipt)[5],
    ));
}

/// A receipt is for the pending controls of a range exactly where it is one for controls, names no
/// profile, names the range and its version, and the key under which the runtime holds them.
pub proof fn receipt_is_for_the_pending_controls(
    pending: Option<PendingRange>,
    receipt: RuntimeMaterializationReceipt,
)
    ensures
        receipt_matches_spec(pending, receipt) <==> (pending matches Some(range)
            && receipt.profile_type@ == "CRCTL"@ && receipt.profile_id is None
            && receipt.aggregate_id == range.card_range_id && receipt.materialized_version
            == range.version && receipt.runtime_key@ == "CRCTL:"@ + uuid::hyphenated_text(
            range.card_range_id,
        )),
{
}

/// Controls are told to be materialized exactly where the receipt was not seen before and is for
/// the pending controls of its operation. Any other that was not seen before is rejected.
#[verifier::rlimit(60)]
pub proof fn receipt_materializes_the_pending_controls(
    st: RunView,
    receipt: RuntimeMaterializationReceipt,
)
    requires
        classify_existing_receipt_spec(st, receipt).0 == Ok::<
            Option<RangeControlReceiptOutcome>,
            HaltView,
        >(None),
    ensures
        ({
            let result = apply_range_control_receipt_spec(st, receipt).0;
            let kept = insert_inbox_spec(classify_existing_receipt_spec(st, receipt).1, receipt).1;
            let pending = lock_pending_range_spec(kept, receipt.operation_id).0;
            result matches Ok(outcome) ==> {
                &&& outcome is Materialized <==> receipt_matches_spec(pending->Ok_0, receipt)
                &&& outcome is Mismatch <==> !receipt_matches_spec(pending->Ok_0, receipt)
            }
        }),
{
}

/// A stored receipt is the one that comes again exactly where each of its values is the same; any
/// other is a mismatch.
pub proof fn same_receipt_is_replayed(row: Row, receipt: RuntimeMaterializationReceipt)
    ensures
        compare_stored_receipt_spec(row, receipt) matches Ok(outcome) ==> {
            &&& outcome is Replayed <==> receipt.profile_type@ == "CRCTL"@ && receipt.profile_id
                is None && row.id_at(0, REPLAY_ROW@) == Ok::<Uuid, HaltView>(
                receipt.receipt_event_id,
            ) && row.id_at(1, REPLAY_ROW@) == Ok::<Uuid, HaltView>(receipt.operation_id)
                && row.id_at(2, REPLAY_ROW@) == Ok::<Uuid, HaltView>(receipt.aggregate_id)
                && row.int_at(3, REPLAY_ROW@) == Ok::<i64, HaltView>(receipt.materialized_version)
                && row.text_at(4, REPLAY_ROW@)->Ok_0@ == receipt.runtime_key@
            &&& outcome is Replayed || outcome is Mismatch
        },
{
}

/// Where controls are materialized, the range is told so at the receipt's version, under its
/// operation, and the operation is told to be materialized.
#[verifier::rlimit(80)]
pub proof fn materialized_controls_are_told(st: RunView, receipt: RuntimeMaterializationReceipt)
    requires
        materialize_spec(st, receipt).0 is Ok,
    ensures
        ({
            let log = materialize_spec(st, receipt).1.log;
            &&& script::ran(
                log,
                FINALIZE_SQL@,
                seq![
                    Bind::Int(receipt.materialized_version),
                    Bind::Id(receipt.aggregate_id),
                    Bind::Id(receipt.operation_id),
                ],
            )
            &&& script::ran(
                log,
                outbox::OPERATION_MATERIALIZED_SQL@,
                seq![Bind::Id(receipt.operation_id)],
            )
        }),
{
    broadcast use {
        script::runs_on_with_another,
        card_range::map_card_range_row_changes_nothing,
    };

}

/// What is asked first, and with which values, in a run that does this:
/// what a receipt comes to, where it was stored or rejected before.
pub proof fn classify_existing_receipt_asks_first(
    st: RunView,
    receipt: RuntimeMaterializationReceipt,
)
    requires
        st.rest.len() == 0,
    ensures
        classify_existing_receipt_spec(st, receipt).0 matches Err(HaltView::Ask(asked))
            && (
                asked matches script::CallView::Sql { sql, binds, .. } && sql == REPLAY_SQL@
                    && binds == seq![
                        Bind::Id(receipt.receipt_event_id),
                        Bind::Id(receipt.operation_id),
                        Bind::Int(receipt.materialized_version),
                    ]
            ),
{
}

/// What the database is told, and with which values, where a run succeeds that does this:
/// stores the arrival of a receipt.
#[verifier::rlimit(60)]
pub proof fn insert_inbox_is_told(
    st: RunView,
    receipt: RuntimeMaterializationReceipt,
)
    ensures
        ({
            let (ended, after) = insert_inbox_spec(st, receipt);
            let log = after.log;
            ended is Ok ==> {
                &&& script::told_where(
                    log,
                    INBOX_INSERT_SQL@,
                    |b: Seq<Bind>| b.len() == 4 && b[1] == Bind::Id(receipt.receipt_event_id)
                        && b[2] == Bind::Id(receipt.aggregate_id),
                ) > 0
            }
        }),
{
    broadcast use {script::runs_on_with_another, script::told_where_with_another};

}

/// What is asked first, and with which values, in a run that does this:
/// the range whose controls an operation publishes, locked.
pub proof fn lock_pending_range_asks_first(
    st: RunView,
    operation_id: Uuid,
)
    requires
        st.rest.len() == 0,
    ensures
        lock_pending_range_spec(st, operation_id).0 matches Err(HaltView::Ask(asked))
            && (
                asked matches script::CallView::Sql { sql, binds, .. } && sql == PENDING_RANGE_SQL@
                    && binds == seq![Bind::Id(operation_id)]
            ),
{
}

/// Each value is read from its own column: the range whose controls an operation publishes, locked.
#[verifier::rlimit(60)]
pub proof fn lock_pending_range_is_read_by_column(
    st: RunView,
    operation_id: Uuid,
)
    ensures
        lock_pending_range_spec(st, operation_id).0 matches Ok(Some(read)) ==> {
            &&& read.card_range_id == script::id_of(
                st.rest[0]->Rows_0.rows@[0].raw_at(0, "failed to map pending range id"@)->Ok_0@,
            )->Ok_0
            &&& read.version == st.rest[0]->Rows_0.rows@[0].int_at(
                1,
                "failed to map pending range version"@,
            )->Ok_0
        },
{
}

/// What the database is told, and with which values, where a run succeeds that does this:
/// stores a receipt.
#[verifier::rlimit(60)]
pub proof fn insert_receipt_is_told(
    st: RunView,
    receipt: RuntimeMaterializationReceipt,
)
    ensures
        ({
            let (ended, after) = insert_receipt_spec(st, receipt);
            let log = after.log;
            ended is Ok ==> {
                &&& script::told_where(
                    log,
                    RECEIPT_INSERT_SQL@,
                    |b: Seq<Bind>| b.len() == 7 && b[1] == Bind::Id(receipt.receipt_event_id)
                        && b[2] == Bind::Id(receipt.operation_id)
                        && b[3] == Bind::Id(receipt.aggregate_id)
                        && b[4] == Bind::Int(receipt.materialized_version)
                        && b[5] == Bind::Text(receipt.runtime_key)
                        && b[6] == Bind::Time(receipt.materialized_at),
                ) > 0
            }
        }),
{
    broadcast use {script::runs_on_with_another, script::told_where_with_another};

}

/// What is asked first, and with which values, in a run that does this:
/// marks a receipt as processed.
pub proof fn complete_inbox_asks_first(
    st: RunView,
    receipt_event_id: Uuid,
)
    requires
        st.rest.len() == 0,
    ensures
        complete_inbox_spec(st, receipt_event_id).0 matches Err(HaltView::Ask(asked))
            && (
                asked matches script::CallView::Sql { sql, binds, .. }
                    && sql == INBOX_PROCESSED_SQL@ && binds == seq![Bind::Id(receipt_event_id)]
            ),
{
}

/// What the database is told, and with which values, where a run succeeds that does this:
/// marks a receipt as processed.
#[verifier::rlimit(60)]
pub proof fn complete_inbox_is_told(
    st: RunView,
    receipt_event_id: Uuid,
)
    ensures
        ({
            let (ended, after) = complete_inbox_spec(st, receipt_event_id);
            let log = after.log;
            ended is Ok ==> {
                &&& script::ran(log, INBOX_PROCESSED_SQL@, seq![Bind::Id(receipt_event_id)])
            }
        }),
{
    broadcast use {script::runs_on_with_another, script::told_where_with_another};

}

/// What is asked first, and with which values, in a run that does this:
/// marks a receipt as rejected.
pub proof fn fail_inbox_asks_first(
    st: RunView,
    receipt_event_id: Uuid,
    code: &'static str,
)
    requires
        st.rest.len() == 0,
    ensures
        fail_inbox_spec(st, receipt_event_id, code).0 matches Err(HaltView::Ask(asked))
            && (
                asked matches script::CallView::Sql { sql, binds, .. } && sql == INBOX_FAILED_SQL@
                    && binds == seq![
                        Bind::Json(Document::ErrorCode(code)),
                        Bind::Id(receipt_event_id),
                    ]
            ),
{
}

/// What the database is told, and with which values, where a run succeeds that does this:
/// marks a receipt as rejected.
#[verifier::rlimit(60)]
pub proof fn fail_inbox_is_told(
    st: RunView,
    receipt_event_id: Uuid,
    code: &'static str,
)
    ensures
        ({
            let (ended, after) = fail_inbox_spec(st, receipt_event_id, code);
            let log = after.log;
            ended is Ok ==> {
                &&& script::ran(
                    log,
                    INBOX_FAILED_SQL@,
                    seq![Bind::Json(Document::ErrorCode(code)), Bind::Id(receipt_event_id)],
                )
            }
        }),
{
    broadcast use {script::runs_on_with_another, script::told_where_with_another};

}

} // verus!
