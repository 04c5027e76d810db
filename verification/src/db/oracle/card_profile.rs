//! Receipts for cards.
use vstd::prelude::*;
use crate::db::oracle::binds;
use crate::db::oracle::consult::Rule;
use crate::db::oracle::document::Document;
use crate::db::oracle::repository::OracleRepository;
use crate::db::oracle::script;
use crate::db::oracle::script::{Bind, Halt, HaltView, RunView, Session};
use crate::domain::receipt::RuntimeMaterializationReceipt;
use crate::text;
use crate::uuid::Uuid;

verus! {

/// Counts the stored receipts of an event.
pub const REPLAY_SQL: &'static str = "SELECT COUNT(*) FROM runtime_materialization_receipts WHERE receipt_event_id=:1";

/// Stores the arrival of a receipt.
pub const INBOX_INSERT_SQL: &'static str = "INSERT INTO integration_inbox (inbox_event_id,source_system,source_event_id,event_type,aggregate_type,aggregate_id,payload_json) VALUES (:1,'WOLFSBURG',:2,'RUNTIME_PROFILE_MATERIALIZED','CARD',:3,:4)";

/// Locks and reads the card that an operation publishes.
pub const PENDING_CARD_SQL: &'static str = "SELECT state_version,card_number FROM cards WHERE card_id=:1 AND publication_operation_id=:2 FOR UPDATE";

/// Marks a receipt as rejected.
pub const INBOX_FAILED_SQL: &'static str = "UPDATE integration_inbox SET status='FAILED',processed_at=SYSTIMESTAMP,error_json=:1 WHERE source_system='WOLFSBURG' AND source_event_id=:2";

/// Stores a receipt.
pub const RECEIPT_INSERT_SQL: &'static str = r#"INSERT INTO runtime_materialization_receipts (runtime_materialization_receipt_id,receipt_event_id,operation_id,profile_type,aggregate_id,profile_id,materialized_version,redis_key,materialized_at) VALUES (:1,:2,:3,'CP',:4,NULL,:5,:6,TO_TIMESTAMP_TZ(:7,'YYYY-MM-DD"T"HH24:MI:SS.FF3"Z"'))"#;

/// Marks a version of a card as in force.
pub const FINALIZE_SQL: &'static str = r#"UPDATE cards SET materialized_version=:1,materialized_at=TO_TIMESTAMP_TZ(:2,'YYYY-MM-DD"T"HH24:MI:SS.FF3"Z"'),publication_operation_id=NULL,updated_at=SYSTIMESTAMP WHERE card_id=:3 AND publication_operation_id=:4 AND state_version=:1"#;

/// Marks a receipt as processed.
pub const INBOX_PROCESSED_SQL: &'static str = "UPDATE integration_inbox SET status='PROCESSED',processed_at=SYSTIMESTAMP WHERE source_system='WOLFSBURG' AND source_event_id=:1";

/// The context of a column that cannot be read.
pub const MAPPING: &'static str = "failed to map card state version";

/// What became of a receipt for a card.
#[derive(Clone, Copy, Debug, PartialEq, Eq, Structural)]
pub enum CardProfileReceiptOutcome {
    Materialized,
    Replayed,
    Mismatch,
}

/// A card that is being published.
#[derive(Debug)]
pub struct PendingCard {
    pub state_version: i64,
    pub card_number: String,
}

/// A receipt is for the version of the card that its operation publishes.
pub open spec fn receipt_matches_spec(
    pending: Option<PendingCard>,
    receipt: RuntimeMaterializationReceipt,
) -> bool {
    &&& receipt.profile_type@ == "CP"@
    &&& receipt.profile_id is None
    &&& pending is Some
    &&& pending->0.state_version == receipt.materialized_version
    &&& receipt.runtime_key@ == "CP:"@ + pending->0.card_number@
}

/// Whether a receipt is for the version of the card that its operation publishes.
pub fn receipt_matches(
    pending: &Option<PendingCard>,
    receipt: &RuntimeMaterializationReceipt,
) -> (r: bool)
    ensures
        r == receipt_matches_spec(*pending, *receipt),
{
    match pending {
        Some(card) => text::same_text(receipt.profile_type.as_str(), "CP")
            && receipt.profile_id.is_none() && card.state_version == receipt.materialized_version
            && text::same_text(
            receipt.runtime_key.as_str(),
            text::joined2("CP:", card.card_number.as_str()).as_str(),
        ),
        None => false,
    }
}

/// The card that an operation publishes, locked.
pub open spec fn lock_pending_card_spec(
    st: RunView,
    card_id: Uuid,
    operation_id: Uuid,
) -> (Result<Option<PendingCard>, HaltView>, RunView) {
    match script::first_row_spec(
        st,
        PENDING_CARD_SQL@,
        seq![Bind::Id(card_id), Bind::Id(operation_id)],
        "it",
        "failed to lock pending card projection"@,
        "failed to read pending card projection"@,
    ) { (Err(h), st) => (Err(h), st), (Ok(found), st) =>
    match found {
    None => {
        (Ok(None), st)
    },
    Some(row) =>
    match row.int_at(0, MAPPING@) { Err(h) => (Err(h), st), Ok(state_version) =>
    match row.text_at(1, MAPPING@) { Err(h) => (Err(h), st), Ok(card_number) =>
    (Ok(Some(PendingCard { state_version, card_number })), st)
    }}}}
}

/// The card that an operation publishes, locked.
pub fn lock_pending_card(
    s: &mut Session,
    card_id: Uuid,
    operation_id: Uuid,
) -> (r: Result<Option<PendingCard>, Halt>)
    ensures
        (script::seen(r), final(s)@) == lock_pending_card_spec(old(s)@, card_id, operation_id),
{
    let found = script::first_row(
        s,
        PENDING_CARD_SQL,
        binds::binds2(Bind::Id(card_id), Bind::Id(operation_id)),
        "it",
        "failed to lock pending card projection",
        "failed to read pending card projection",
    )?;
    let row = match found {
        Some(v) => v,
        None => {
            return Ok(None);
        },
    };
    let state_version: i64 = row.number(0, MAPPING)?;
    let card_number = row.text(1, MAPPING)?;
    Ok(Some(PendingCard { state_version, card_number }))
}

/// Stores a receipt and marks the version of the card that it is for as in force.
pub open spec fn materialize_spec(
    st: RunView,
    receipt: RuntimeMaterializationReceipt,
) -> (Result<CardProfileReceiptOutcome, HaltView>, RunView) {
    match script::fresh_id_spec(st) { (Err(h), st) => (Err(h), st), (Ok(receipt_id), st) =>
    match script::execute_spec(
        st,
        RECEIPT_INSERT_SQL@,
        seq![
            Bind::Id(receipt_id),
            Bind::Id(receipt.receipt_event_id),
            Bind::Id(receipt.operation_id),
            Bind::Id(receipt.aggregate_id),
            Bind::Int(receipt.materialized_version),
            Bind::Text(receipt.runtime_key),
            Bind::Time(receipt.materialized_at),
        ],
        "failed to insert card materialization receipt"@,
    ) { (Err(h), st) => (Err(h), st), (Ok(_), st) =>
    match script::execute_count_spec(
        st,
        FINALIZE_SQL@,
        seq![
            Bind::Int(receipt.materialized_version),
            Bind::Time(receipt.materialized_at),
            Bind::Id(receipt.aggregate_id),
            Bind::Id(receipt.operation_id),
        ],
        "failed to finalize card materialization"@,
        "failed to inspect card receipt update"@,
    ) { (Err(h), st) => (Err(h), st), (Ok(touched), st) =>
    if touched != 1 {
        (script::conflict_fault("card projection changed during receipt processing"@), st)
    } else {
    match script::execute_spec(
        st,
        INBOX_PROCESSED_SQL@,
        seq![Bind::Id(receipt.receipt_event_id)],
        "failed to complete card receipt inbox"@,
    ) { (Err(h), st) => (Err(h), st), (Ok(_), st) =>
    (Ok(CardProfileReceiptOutcome::Materialized), st)
    }}}}}
}

/// Stores a receipt and marks the version of the card that it is for as in force.
pub fn materialize(
    s: &mut Session,
    receipt: &RuntimeMaterializationReceipt,
) -> (r: Result<CardProfileReceiptOutcome, Halt>)
    ensures
        (script::seen(r), final(s)@) == materialize_spec(old(s)@, *receipt),
{
    let receipt_id = script::fresh_id(s)?;
    script::execute(
        s,
        RECEIPT_INSERT_SQL,
        binds::binds7(
            Bind::Id(receipt_id),
            Bind::Id(receipt.receipt_event_id),
            Bind::Id(receipt.operation_id),
            Bind::Id(receipt.aggregate_id),
            Bind::Int(receipt.materialized_version),
            Bind::Text(receipt.runtime_key.clone()),
            Bind::Time(receipt.materialized_at),
        ),
        "failed to insert card materialization receipt",
    )?;
    let touched = script::execute_count(
        s,
        FINALIZE_SQL,
        binds::binds4(
            Bind::Int(receipt.materialized_version),
            Bind::Time(receipt.materialized_at),
            Bind::Id(receipt.aggregate_id),
            Bind::Id(receipt.operation_id),
        ),
        "failed to finalize card materialization",
        "failed to inspect card receipt update",
    )?;
    if touched != 1 {
        return Err(script::fail_conflict("card projection changed during receipt processing"));
    }
    script::execute(
        s,
        INBOX_PROCESSED_SQL,
        binds::binds1(Bind::Id(receipt.receipt_event_id)),
        "failed to complete card receipt inbox",
    )?;
    Ok(CardProfileReceiptOutcome::Materialized)
}

/// Stores a receipt and marks the version of the card that it is for as in force. A receipt that is
/// for nothing pending is kept as rejected, and no card changes.
pub open spec fn apply_card_profile_receipt_spec(
    st: RunView,
    receipt: RuntimeMaterializationReceipt,
) -> (Result<CardProfileReceiptOutcome, HaltView>, RunView) {
    match script::one_int_spec(
        st,
        REPLAY_SQL@,
        seq![Bind::Id(receipt.receipt_event_id)],
        "failed to check card receipt replay"@,
    ) { (Err(h), st) => (Err(h), st), (Ok(duplicate), st) =>
    if duplicate > 0 {
        (Ok(CardProfileReceiptOutcome::Replayed), st)
    } else {
    match script::encode_spec(
        st,
        Rule::RuntimeReceipt(receipt),
        "failed to serialize card receipt"@,
    ) { (Err(h), st) => (Err(h), st), (Ok(payload), st) =>
    match script::fresh_id_spec(st) { (Err(h), st) => (Err(h), st), (Ok(inbox_id), st) =>
    match script::execute_spec(
        st,
        INBOX_INSERT_SQL@,
        seq![
            Bind::Id(inbox_id),
            Bind::Id(receipt.receipt_event_id),
            Bind::Id(receipt.aggregate_id),
            Bind::Text(payload),
        ],
        "failed to insert card receipt inbox"@,
    ) { (Err(h), st) => (Err(h), st), (Ok(_), st) =>
    match lock_pending_card_spec(
        st,
        receipt.aggregate_id,
        receipt.operation_id,
    ) { (Err(h), st) => (Err(h), st), (Ok(pending), st) =>
    if !receipt_matches_spec(pending, receipt) {
        match script::execute_spec(
            st,
            INBOX_FAILED_SQL@,
            seq![
                Bind::Json(Document::ErrorCode("CARD_PROFILE_RECEIPT_MISMATCH")),
                Bind::Id(receipt.receipt_event_id),
            ],
            "failed to reject card receipt"@,
        ) { (Err(h), st) => (Err(h), st), (Ok(_), st) =>
        (Ok(CardProfileReceiptOutcome::Mismatch), st)
        }
    } else {
    materialize_spec(st, receipt)
    }}}}}}}
}

impl OracleRepository {
    /// Stores a receipt and marks the version of the card that it is for as in force. A receipt
    /// that is for nothing pending is kept as rejected, and no card changes.
    pub fn apply_card_profile_receipt(
        s: &mut Session,
        receipt: &RuntimeMaterializationReceipt,
    ) -> (r: Result<CardProfileReceiptOutcome, Halt>)
        ensures
            (script::seen(r), final(s)@) == apply_card_profile_receipt_spec(old(s)@, *receipt),
    {
        let duplicate = script::one_int(
            s,
            REPLAY_SQL,
            binds::binds1(Bind::Id(receipt.receipt_event_id)),
            "failed to check card receipt replay",
        )?;
        if duplicate > 0 {
            return Ok(CardProfileReceiptOutcome::Replayed);
        }
        let payload = script::encode(
            s,
            Rule::RuntimeReceipt(receipt.clone()),
            "failed to serialize card receipt",
        )?;
        let inbox_id = script::fresh_id(s)?;
        script::execute(
            s,
            INBOX_INSERT_SQL,
            binds::binds4(
                Bind::Id(inbox_id),
                Bind::Id(receipt.receipt_event_id),
                Bind::Id(receipt.aggregate_id),
                Bind::Text(payload.clone()),
            ),
            "failed to insert card receipt inbox",
        )?;
        let pending = lock_pending_card(s, receipt.aggregate_id, receipt.operation_id)?;
        if !receipt_matches(&pending, receipt) {
            script::execute(
                s,
                INBOX_FAILED_SQL,
                binds::binds2(
                    Bind::Json(Document::ErrorCode("CARD_PROFILE_RECEIPT_MISMATCH")),
                    Bind::Id(receipt.receipt_event_id),
                ),
                "failed to reject card receipt",
            )?;
            return Ok(CardProfileReceiptOutcome::Mismatch);
        }
        materialize(s, receipt)
    }
}

/// A receipt that was stored before changes nothing. One that is for nothing pending is kept as
/// rejected evidence: beside the inbox nothing is changed, so each card stays as it is.
pub proof fn rejected_receipt_is_only_evidence(st: RunView, receipt: RuntimeMaterializationReceipt)
    ensures
        ({
            let (result, after) = apply_card_profile_receipt_spec(st, receipt);
            let inbox = set![INBOX_INSERT_SQL@, INBOX_FAILED_SQL@];
            &&& result matches Ok(outcome) ==> outcome is Replayed ==> script::writes(after.log)
                == script::writes(st.log)
            &&& result matches Ok(outcome) ==> outcome is Mismatch ==> script::writes_beside(
                after.log,
                inbox,
            ) == script::writes_beside(st.log, inbox)
        }),
{
    broadcast use {script::writes_with_another, script::writes_beside_with_another};

}


/// A receipt that is found among the stored ones is answered as replayed, and nothing is changed.
pub proof fn stored_receipt_is_replayed(st: RunView, receipt: RuntimeMaterializationReceipt)
    requires
        script::one_int_spec(
            st,
            REPLAY_SQL@,
            seq![Bind::Id(receipt.receipt_event_id)],
            "failed to check card receipt replay"@,
        ).0 matches Ok(stored) && stored > 0,
    ensures
        ({
            let (result, after) = apply_card_profile_receipt_spec(st, receipt);
            &&& result == Ok::<CardProfileReceiptOutcome, HaltView>(
                CardProfileReceiptOutcome::Replayed,
            )
            &&& script::writes(after.log) == script::writes(st.log)
        }),
{
    broadcast use script::writes_with_another;

}

/// A receipt is for the pending card exactly where it is one for cards, names no profile, and names
/// the version of the card and the key under which the runtime holds it.
pub proof fn receipt_is_for_the_pending_card(
    pending: Option<PendingCard>,
    receipt: RuntimeMaterializationReceipt,
)
    ensures
        receipt_matches_spec(pending, receipt) <==> (pending matches Some(card)
            && receipt.profile_type@ == "CP"@ && receipt.profile_id is None
            && receipt.materialized_version == card.state_version && receipt.runtime_key@ == "CP:"@
            + card.card_number@),
{
}

/// A receipt for a card is answered as replayed where it is stored already. Otherwise the card is
/// told to be materialized exactly where the receipt is for the card that is pending under its
/// operation, and any other is rejected.
#[verifier::rlimit(60)]
pub proof fn receipt_materializes_the_pending_card(
    st: RunView,
    receipt: RuntimeMaterializationReceipt,
    duplicates: i64,
)
    requires
        script::one_int_spec(
            st,
            REPLAY_SQL@,
            seq![Bind::Id(receipt.receipt_event_id)],
            "failed to check card receipt replay"@,
        ).0 == Ok::<i64, HaltView>(duplicates),
    ensures
        ({
            let (result, after) = apply_card_profile_receipt_spec(st, receipt);
            &&& duplicates > 0 <==> result == Ok::<_, HaltView>(CardProfileReceiptOutcome::Replayed)
            &&& duplicates > 0 ==> script::writes(after.log) == script::writes(st.log)
            &&& result matches Ok(outcome) ==> (duplicates <= 0 ==> {
                &&& st.rest[4] matches script::Reply::Rows(found)
                &&& outcome is Materialized || outcome is Mismatch
                &&& outcome is Materialized <==> found.rows@.len() > 0 && receipt.profile_type@
                    == "CP"@ && receipt.profile_id is None
                        && found.rows@[0].int_at(0, MAPPING@)->Ok_0
                    == receipt.materialized_version && receipt.runtime_key@ == "CP:"@
                    + found.rows@[0].text_at(1, MAPPING@)->Ok_0@
            })
        }),
{
    broadcast use script::writes_with_another;

}

/// What is asked first, and with which values, in a run that does this:
/// the card that an operation publishes, locked.
pub proof fn lock_pending_card_asks_first(
    st: RunView,
    card_id: Uuid,
    operation_id: Uuid,
)
    requires
        st.rest.len() == 0,
    ensures
        lock_pending_card_spec(st, card_id, operation_id).0 matches Err(HaltView::Ask(asked))
            && (
                asked matches script::CallView::Sql { sql, binds, .. } && sql == PENDING_CARD_SQL@
                    && binds == seq![Bind::Id(card_id), Bind::Id(operation_id)]
            ),
{
}

/// Each value is read from its own column: the card that an operation publishes, locked.
#[verifier::rlimit(60)]
pub proof fn lock_pending_card_is_read_by_column(
    st: RunView,
    card_id: Uuid,
    operation_id: Uuid,
)
    ensures
        lock_pending_card_spec(st, card_id, operation_id).0 matches Ok(Some(read)) ==> {
            &&& read.state_version == st.rest[0]->Rows_0.rows@[0].int_at(0, MAPPING@)->Ok_0
            &&& read.card_number == st.rest[0]->Rows_0.rows@[0].text_at(1, MAPPING@)->Ok_0
        },
{
}

/// Exactly one row is touched where a run succeeds that does this:
/// stores a receipt and marks the version of the card that it is for as in force.
pub proof fn materialize_touches_one_row(
    st: RunView,
    receipt: RuntimeMaterializationReceipt,
)
    requires
        materialize_spec(st, receipt).0 is Ok,
    ensures
        st.rest[2] == script::Reply::Executed(Ok(1)),
{
}

/// What is asked first, and with which values, in a run that does this:
/// stores a receipt and marks the version of the card that it is for as in force.
pub proof fn apply_card_profile_receipt_asks_first(
    st: RunView,
    receipt: RuntimeMaterializationReceipt,
)
    requires
        st.rest.len() == 0,
    ensures
        apply_card_profile_receipt_spec(st, receipt).0 matches Err(HaltView::Ask(asked))
            && (
                asked matches script::CallView::Sql { sql, binds, .. } && sql == REPLAY_SQL@
                    && binds == seq![Bind::Id(receipt.receipt_event_id)]
            ),
{
}

} // verus!
