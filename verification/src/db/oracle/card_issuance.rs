//! Batches of card issuances.
use vstd::prelude::*;
use crate::db::oracle::audit;
use crate::db::oracle::binds;
use crate::db::oracle::consult::Rule;
use crate::db::oracle::document::{Document, Snapshot};
use crate::domain::copied;
use crate::db::oracle::idempotency;
use crate::db::oracle::repository::OracleRepository;
use crate::db::oracle::script;
use crate::db::oracle::script::{Bind, Halt, HaltView, Row, RunView, Session};
use crate::domain::audit::AuditAction;
use crate::domain::card_issuance::{
    CardIssuanceBatch, CardIssuanceBatchCursor, CardIssuanceBatchPage, CardIssuanceBatchResultRow,
    CardIssuanceBatchStatus, CardIssuanceExportRow, PreparedBatchView, PreparedCardIssuanceBatch,
};
use crate::domain::command::MutationCommandContext;
use crate::domain::idempotency::{IdempotencyRecord, IdempotencyStatus};
use crate::domain::page;
use crate::domain::page::Page;
use crate::text;
use crate::time::UtcTime;
use crate::uuid;
use crate::uuid::Uuid;

verus! {

/// Locks and reads pending issuances.
pub const CLAIM_SQL: &'static str = "SELECT card_issuance_request_id FROM card_issuance_requests WHERE status='PENDING_EXPORT' AND ROWNUM<=:1 FOR UPDATE SKIP LOCKED";

/// Stores a batch.
pub const CREATE_BATCH_SQL: &'static str = r#"INSERT INTO card_issuance_batches (card_issuance_batch_id,status,request_object_key,request_count,expires_at,created_by_subject,updated_by_subject) VALUES (:1,'CREATING',:2,:3,TO_TIMESTAMP_TZ(:4,'YYYY-MM-DD"T"HH24:MI:SS.FF3"Z"'),:5,:5)"#;

/// Ties a command in progress to the batch that it prepares.
pub const BIND_BATCH_SQL: &'static str = "UPDATE idempotency_records SET resource_type='card_issuance_batch',resource_id=:1,updated_at=SYSTIMESTAMP WHERE operation_type=:2 AND idempotency_key=:3 AND status='IN_PROGRESS'";

/// Puts an issuance into a batch.
pub const ASSIGN_SQL: &'static str = "UPDATE card_issuance_requests SET status='EXPORTED',batch_id=:1,updated_by_subject=:2,updated_at=SYSTIMESTAMP WHERE card_issuance_request_id=:3 AND status='PENDING_EXPORT'";

/// Stores the place of an issuance in a batch.
pub const CREATE_ROW_SQL: &'static str = "INSERT INTO card_issuance_batch_rows (card_issuance_batch_id,card_issuance_request_id,row_number) VALUES (:1,:2,:3)";

/// Marks a batch as ready, with the checksum of its object.
pub const FINALIZE_FILE_SQL: &'static str = "UPDATE card_issuance_batches SET status='READY',request_checksum_sha256=:1,updated_by_subject=:2,updated_at=SYSTIMESTAMP WHERE card_issuance_batch_id=:3 AND status='CREATING'";

/// Lists batches, newest first.
pub const LIST_BATCHES_SQL: &'static str = r#"SELECT card_issuance_batch_id FROM card_issuance_batches WHERE (:1 IS NULL OR created_at<TO_TIMESTAMP_TZ(:2,'YYYY-MM-DD"T"HH24:MI:SS.FF3"Z"') OR (created_at=TO_TIMESTAMP_TZ(:3,'YYYY-MM-DD"T"HH24:MI:SS.FF3"Z"') AND card_issuance_batch_id<:4)) ORDER BY created_at DESC,card_issuance_batch_id DESC FETCH FIRST :5 ROWS ONLY"#;

/// Lists what became of the issuances of a batch.
pub const RESULT_ROWS_SQL: &'static str = "SELECT card_issuance_request_id,row_number,NVL(result_status,'PENDING'),safe_result_code,safe_result_message FROM card_issuance_batch_rows WHERE card_issuance_batch_id=:1 ORDER BY row_number";

/// Reads the object of a batch and its checksum.
pub const REQUEST_OBJECT_SQL: &'static str = "SELECT request_object_key,request_checksum_sha256 FROM card_issuance_batches WHERE card_issuance_batch_id=:1 AND status IN ('READY','PROCESSING_RESULT','COMPLETED','PARTIALLY_COMPLETED')";

/// Reads an issuance as the bank is asked for it.
pub const EXPORT_ROW_SQL: &'static str = r#"SELECT cir.card_issuance_request_id,TO_CHAR(SYS_EXTRACT_UTC(cir.created_at),'YYYY-MM-DD"T"HH24:MI:SS.FF3"Z"'),cir.card_range_id,cr.funding_mode,JSON_VALUE(cir.identity_snapshot_json,'$.national_id'),JSON_VALUE(cir.identity_snapshot_json,'$.first_name'),JSON_VALUE(cir.identity_snapshot_json,'$.last_name'),JSON_VALUE(cir.identity_snapshot_json,'$.birth_date'),JSON_VALUE(cir.delivery_snapshot_json,'$.mobile'),JSON_VALUE(cir.delivery_snapshot_json,'$.delivery_province'),JSON_VALUE(cir.delivery_snapshot_json,'$.delivery_city'),JSON_VALUE(cir.delivery_snapshot_json,'$.delivery_address'),JSON_VALUE(cir.delivery_snapshot_json,'$.postal_code'),(SELECT COUNT(*) FROM card_issuance_request_providers p WHERE p.card_issuance_request_id=cir.card_issuance_request_id) FROM card_issuance_requests cir JOIN card_ranges cr ON cr.card_range_id=cir.card_range_id WHERE cir.card_issuance_request_id=:1"#;

/// Reads a batch.
pub const BATCH_SQL: &'static str = r#"SELECT status,request_checksum_sha256,result_checksum_sha256,request_count,issued_count,rejected_count,failed_count,TO_CHAR(SYS_EXTRACT_UTC(expires_at),'YYYY-MM-DD"T"HH24:MI:SS.FF3"Z"'),TO_CHAR(SYS_EXTRACT_UTC(created_at),'YYYY-MM-DD"T"HH24:MI:SS.FF3"Z"'),TO_CHAR(SYS_EXTRACT_UTC(updated_at),'YYYY-MM-DD"T"HH24:MI:SS.FF3"Z"'),TO_CHAR(SYS_EXTRACT_UTC(completed_at),'YYYY-MM-DD"T"HH24:MI:SS.FF3"Z"') FROM card_issuance_batches WHERE card_issuance_batch_id=:1"#;

/// Reads the object of a batch.
pub const OBJECT_KEY_SQL: &'static str = "SELECT request_object_key FROM card_issuance_batches WHERE card_issuance_batch_id=:1";

/// Lists the issuances of a batch by their places.
pub const BATCH_ROWS_SQL: &'static str = "SELECT card_issuance_request_id FROM card_issuance_batch_rows WHERE card_issuance_batch_id=:1 ORDER BY row_number";

/// The context of a column that cannot be read.
pub const READ_ROW: &'static str = "failed to read Oracle issuance row";

/// What became of a batch that was to be prepared. A replayed answer is a JSON document.
#[derive(Debug)]
pub enum PrepareCardIssuanceBatchOutcome {
    Prepared(Box<PreparedCardIssuanceBatch>),
    Replayed(String),
    NoPendingRequests,
    IdempotencyConflict,
    IdempotencyInProgress,
    IdempotencyInvalidState,
}

/// What became of a batch that was to be prepared, as plain values.
pub enum PrepareBatchOutcomeView {
    Prepared(PreparedBatchView),
    Replayed(String),
    NoPendingRequests,
    IdempotencyConflict,
    IdempotencyInProgress,
    IdempotencyInvalidState,
}

impl View for PrepareCardIssuanceBatchOutcome {
    type V = PrepareBatchOutcomeView;

    open spec fn view(&self) -> PrepareBatchOutcomeView {
        match self {
            PrepareCardIssuanceBatchOutcome::Prepared(batch) => PrepareBatchOutcomeView::Prepared(
                (*batch)@,
            ),
            PrepareCardIssuanceBatchOutcome::Replayed(
                snapshot,
            ) => PrepareBatchOutcomeView::Replayed(
                *snapshot,
            ),
            PrepareCardIssuanceBatchOutcome::NoPendingRequests => {
                PrepareBatchOutcomeView::NoPendingRequests
            },
            PrepareCardIssuanceBatchOutcome::IdempotencyConflict => {
                PrepareBatchOutcomeView::IdempotencyConflict
            },
            PrepareCardIssuanceBatchOutcome::IdempotencyInProgress => {
                PrepareBatchOutcomeView::IdempotencyInProgress
            },
            PrepareCardIssuanceBatchOutcome::IdempotencyInvalidState => {
                PrepareBatchOutcomeView::IdempotencyInvalidState
            },
        }
    }
}

/// A stored count as it is shown, where it can be.
pub open spec fn count_of(value: i64, message: Seq<char>) -> Result<u32, HaltView> {
    if 0 <= value <= u32::MAX {
        Ok(value as u32)
    } else {
        script::query_fault(message)
    }
}

/// A stored count as it is shown, where it can be.
pub fn to_count(value: i64, message: &str) -> (r: Result<u32, Halt>)
    ensures
        script::seen(r) == count_of(value, message@),
{
    if 0 <= value && value <= u32::MAX as i64 {
        Ok(value as u32)
    } else {
        Err(script::fail_query(message))
    }
}

/// A count of a batch that a row holds.
pub open spec fn number_spec(row: Row, index: usize) -> Result<u32, HaltView> {
    match row.int_at(index as int, READ_ROW@) { Err(h) => Err(h), Ok(value) =>
    count_of(value, "invalid issuance batch count"@)
    }
}

/// A count of a batch that a row holds.
pub fn number(row: &Row, index: usize) -> (r: Result<u32, Halt>)
    ensures
        script::seen(r) == number_spec(*row, index),
{
    let value: i64 = row.number(index, READ_ROW)?;
    to_count(value, "invalid issuance batch count")
}

/// The batch that a row holds.
#[verifier::opaque]
pub open spec fn map_batch_spec(row: Row, batch_id: Uuid) -> Result<CardIssuanceBatch, HaltView> {
    match row.text_at(0, READ_ROW@) { Err(h) => Err(h), Ok(status_text) =>
    match row.text_at(7, READ_ROW@) { Err(h) => Err(h), Ok(expires) =>
    match row.text_at(8, READ_ROW@) { Err(h) => Err(h), Ok(created) =>
    match row.text_at(9, READ_ROW@) { Err(h) => Err(h), Ok(updated) =>
    match row.opt_text_at(10, READ_ROW@) { Err(h) => Err(h), Ok(completed) =>
    match CardIssuanceBatchStatus::of_code(status_text@) {
    None => {
        script::query_fault("unknown issuance batch status"@)
    },
    Some(status) =>
    match row.opt_text_at(1, READ_ROW@) { Err(h) => Err(h), Ok(request_checksum_sha256) =>
    match row.opt_text_at(2, READ_ROW@) { Err(h) => Err(h), Ok(result_checksum_sha256) =>
    match number_spec(row, 3) { Err(h) => Err(h), Ok(request_count) =>
    match number_spec(row, 4) { Err(h) => Err(h), Ok(issued_count) =>
    match number_spec(row, 5) { Err(h) => Err(h), Ok(rejected_count) =>
    match number_spec(row, 6) { Err(h) => Err(h), Ok(failed_count) =>
    match script::time_of(
        expires@,
        "invalid issuance timestamp"@,
    ) { Err(h) => Err(h), Ok(expires_at) =>
    match script::time_of(
        created@,
        "invalid issuance timestamp"@,
    ) { Err(h) => Err(h), Ok(created_at) =>
    match script::time_of(
        updated@,
        "invalid issuance timestamp"@,
    ) { Err(h) => Err(h), Ok(updated_at) =>
    match script::opt_time_of(
        completed,
        "invalid issuance timestamp"@,
    ) { Err(h) => Err(h), Ok(completed_at) =>
    Ok(CardIssuanceBatch {
        batch_id,
        status,
        request_checksum_sha256,
        result_checksum_sha256,
        request_count,
        issued_count,
        rejected_count,
        failed_count,
        expires_at,
        created_at,
        updated_at,
        completed_at,
    })
    }}}}}}}}}}}}}}}}
}

/// The batch that a row holds.
pub fn map_batch(row: &Row, batch_id: Uuid) -> (r: Result<CardIssuanceBatch, Halt>)
    ensures
        script::seen(r) == map_batch_spec(*row, batch_id),
{
    proof {
        reveal(map_batch_spec);
    }
    let status_text = row.text(0, READ_ROW)?;
    let expires = row.text(7, READ_ROW)?;
    let created = row.text(8, READ_ROW)?;
    let updated = row.text(9, READ_ROW)?;
    let completed = row.opt_text(10, READ_ROW)?;
    let status = match CardIssuanceBatchStatus::from_db_value(status_text.as_str()) {
        Some(v) => v,
        None => {
            return Err(script::fail_query("unknown issuance batch status"));
        },
    };
    let request_checksum_sha256 = row.opt_text(1, READ_ROW)?;
    let result_checksum_sha256 = row.opt_text(2, READ_ROW)?;
    let request_count: u32 = number(row, 3)?;
    let issued_count: u32 = number(row, 4)?;
    let rejected_count: u32 = number(row, 5)?;
    let failed_count: u32 = number(row, 6)?;
    let expires_at = script::to_time(expires.as_str(), "invalid issuance timestamp")?;
    let created_at = script::to_time(created.as_str(), "invalid issuance timestamp")?;
    let updated_at = script::to_time(updated.as_str(), "invalid issuance timestamp")?;
    let completed_at = script::to_opt_time(&completed, "invalid issuance timestamp")?;
    Ok(CardIssuanceBatch {
        batch_id,
        status,
        request_checksum_sha256,
        result_checksum_sha256,
        request_count,
        issued_count,
        rejected_count,
        failed_count,
        expires_at,
        created_at,
        updated_at,
        completed_at,
    })
}

/// A batch, where there is one.
pub open spec fn fetch_batch_spec(
    st: RunView,
    batch_id: Uuid,
) -> (Result<Option<CardIssuanceBatch>, HaltView>, RunView) {
    match script::maybe_row_spec(
        st,
        BATCH_SQL@,
        seq![Bind::Id(batch_id)],
        "tTTiiiitttT",
        "failed to read issuance batch"@,
    ) { (Err(h), st) => (Err(h), st), (Ok(found), st) =>
    match found {
    None => {
        (Ok(None), st)
    },
    Some(row) =>
    match map_batch_spec(row, batch_id) { Err(h) => (Err(h), st), Ok(batch) =>
    (Ok(Some(batch)), st)
    }}}
}

/// A batch, where there is one.
pub fn fetch_batch(s: &mut Session, batch_id: Uuid) -> (r: Result<Option<CardIssuanceBatch>, Halt>)
    ensures
        (script::seen(r), final(s)@) == fetch_batch_spec(old(s)@, batch_id),
{
    let found = script::maybe_row(
        s,
        BATCH_SQL,
        binds::binds1(Bind::Id(batch_id)),
        "tTTiiiitttT",
        "failed to read issuance batch",
    )?;
    let row = match found {
        Some(v) => v,
        None => {
            return Ok(None);
        },
    };
    let batch = map_batch(row, batch_id)?;
    Ok(Some(batch))
}

/// An issuance as the bank is asked for it.
pub open spec fn fetch_export_row_spec(
    st: RunView,
    request_id: Uuid,
) -> (Result<CardIssuanceExportRow, HaltView>, RunView) {
    match script::one_row_spec(
        st,
        EXPORT_ROW_SQL@,
        seq![Bind::Id(request_id)],
        "rtrtttttttttti",
        "failed to read issuance export row"@,
    ) { (Err(h), st) => (Err(h), st), (Ok(row), st) =>
    match row.raw_at(0, READ_ROW@) { Err(h) => (Err(h), st), Ok(request_raw) =>
    match row.text_at(1, READ_ROW@) { Err(h) => (Err(h), st), Ok(requested) =>
    match row.raw_at(2, READ_ROW@) { Err(h) => (Err(h), st), Ok(range_raw) =>
    match row.int_at(13, READ_ROW@) { Err(h) => (Err(h), st), Ok(count) =>
    match script::id_of(request_raw@) { Err(h) => (Err(h), st), Ok(issuance_request_id) =>
    match script::time_of(
        requested@,
        "invalid issuance timestamp"@,
    ) { Err(h) => (Err(h), st), Ok(requested_at) =>
    match script::id_of(range_raw@) { Err(h) => (Err(h), st), Ok(card_range_id) =>
    match row.text_at(3, READ_ROW@) { Err(h) => (Err(h), st), Ok(funding_mode) =>
    match row.text_at(4, READ_ROW@) { Err(h) => (Err(h), st), Ok(national_id) =>
    match row.text_at(5, READ_ROW@) { Err(h) => (Err(h), st), Ok(first_name) =>
    match row.text_at(6, READ_ROW@) { Err(h) => (Err(h), st), Ok(last_name) =>
    match row.text_at(7, READ_ROW@) { Err(h) => (Err(h), st), Ok(birth_date) =>
    match row.text_at(8, READ_ROW@) { Err(h) => (Err(h), st), Ok(mobile) =>
    match row.text_at(9, READ_ROW@) { Err(h) => (Err(h), st), Ok(delivery_province) =>
    match row.text_at(10, READ_ROW@) { Err(h) => (Err(h), st), Ok(delivery_city) =>
    match row.text_at(11, READ_ROW@) { Err(h) => (Err(h), st), Ok(delivery_address) =>
    match row.text_at(12, READ_ROW@) { Err(h) => (Err(h), st), Ok(postal_code) =>
    match count_of(
        count,
        "invalid provider request count"@,
    ) { Err(h) => (Err(h), st), Ok(provider_request_count) =>
    (
        Ok(CardIssuanceExportRow {
            issuance_request_id,
            requested_at,
            card_range_id,
            funding_mode,
            national_id,
            first_name,
            last_name,
            birth_date,
            mobile,
            delivery_province,
            delivery_city,
            delivery_address,
            postal_code,
            provider_request_count,
        }),
        st,
    )
    }}}}}}}}}}}}}}}}}}}
}

/// An issuance as the bank is asked for it.
pub fn fetch_export_row(
    s: &mut Session,
    request_id: Uuid,
) -> (r: Result<CardIssuanceExportRow, Halt>)
    ensures
        (script::seen(r), final(s)@) == fetch_export_row_spec(old(s)@, request_id),
{
    let row = script::one_row(
        s,
        EXPORT_ROW_SQL,
        binds::binds1(Bind::Id(request_id)),
        "rtrtttttttttti",
        "failed to read issuance export row",
    )?;
    let request_raw = row.raw(0, READ_ROW)?;
    let requested = row.text(1, READ_ROW)?;
    let range_raw = row.raw(2, READ_ROW)?;
    let count: i64 = row.number(13, READ_ROW)?;
    let issuance_request_id = script::to_id(request_raw)?;
    let requested_at = script::to_time(requested.as_str(), "invalid issuance timestamp")?;
    let card_range_id = script::to_id(range_raw)?;
    let funding_mode = row.text(3, READ_ROW)?;
    let national_id = row.text(4, READ_ROW)?;
    let first_name = row.text(5, READ_ROW)?;
    let last_name = row.text(6, READ_ROW)?;
    let birth_date = row.text(7, READ_ROW)?;
    let mobile = row.text(8, READ_ROW)?;
    let delivery_province = row.text(9, READ_ROW)?;
    let delivery_city = row.text(10, READ_ROW)?;
    let delivery_address = row.text(11, READ_ROW)?;
    let postal_code = row.text(12, READ_ROW)?;
    let provider_request_count: u32 = to_count(count, "invalid provider request count")?;
    Ok(CardIssuanceExportRow {
        issuance_request_id,
        requested_at,
        card_range_id,
        funding_mode,
        national_id,
        first_name,
        last_name,
        birth_date,
        mobile,
        delivery_province,
        delivery_city,
        delivery_address,
        postal_code,
        provider_request_count,
    })
}

/// The issuance that a row names.
pub open spec fn map_request_id_spec(row: Row) -> Result<Uuid, HaltView> {
    match row.raw_at(0, READ_ROW@) { Err(h) => Err(h), Ok(value) =>
    match script::id_of(value@) { Err(h) => Err(h), Ok(id) =>
    Ok(id)
    }}
}

/// The issuance that a row names.
pub fn map_request_id(row: &Row) -> (r: Result<Uuid, Halt>)
    ensures
        script::seen(r) == map_request_id_spec(*row),
{
    let value = row.raw(0, READ_ROW)?;
    let id = script::to_id(value)?;
    Ok(id)
}

/// The issuances that rows name, in order.
pub open spec fn map_request_ids_spec(
    rows: Seq<Row>,
    i: nat,
    done: Seq<Uuid>,
) -> Result<Seq<Uuid>, HaltView>
    decreases rows.len() - i,
{
    if i >= rows.len() {
        Ok(done)
    } else {
        match map_request_id_spec(rows[i as int]) {
            Err(h) => Err(h), Ok(item) => map_request_ids_spec(rows, i + 1, done.push(item))
        }
    }
}

/// The issuances that rows name, in order.
pub fn map_request_ids(rows: &Vec<Row>) -> (r: Result<Vec<Uuid>, Halt>)
    ensures
        script::seen_view(r) == map_request_ids_spec(rows@, 0, Seq::empty()),
{
    let mut done: Vec<Uuid> = Vec::new();
    let mut i: usize = 0;
    assert(done@ =~= Seq::empty());
    while i < rows.len()
        invariant
            i <= rows@.len(),
            map_request_ids_spec(rows@, 0, Seq::empty()) == map_request_ids_spec(
                rows@,
                i as nat,
                done@,
            ),
        decreases rows@.len() - i,
    {
        let item = map_request_id(&rows[i])?;
        done.push(item);
        i = i + 1;
    }
    Ok(done)
}

/// Each is that of its own row, and they come in the order of the rows.
pub proof fn map_request_ids_go_in_turn(rows: Seq<Row>, i: nat, done: Seq<Uuid>)
    requires
        i <= rows.len(),
    ensures
        map_request_ids_spec(rows, i, done) matches Ok(all) ==> {
            &&& all.len() == done.len() + (rows.len() - i)
            &&& all.take(done.len() as int) == done
            &&& forall|k: int| i <= k < rows.len() ==> (#[trigger] rows[k], map_request_id_spec(rows[k])) == (
                rows[k],
                Ok::<Uuid, HaltView>(all[done.len() + k - i]),
            )
        },
    decreases rows.len() - i,
{
    if i < rows.len() {
        if let Ok(item) = map_request_id_spec(rows[i as int]) {
            map_request_ids_go_in_turn(rows, i + 1, done.push(item));
            if let Ok(all) = map_request_ids_spec(rows, i, done) {
                assert(
                    all.take(done.len() as int) =~= all.take(
                        done.len() as int + 1,
                    ).take(done.len() as int)
                );
                assert(done.push(item).take(done.len() as int) =~= done);
                assert(
                    all[done.len() as int] == all.take(done.len() as int + 1)[done.len() as int]
                );
            }
        }
    } else {
        assert(done.take(done.len() as int) =~= done);
    }
}

/// The issuance that a row names, as the bank is asked for it.
pub open spec fn recover_export_row_spec(
    st: RunView,
    row: Row,
) -> (Result<CardIssuanceExportRow, HaltView>, RunView) {
    match map_request_id_spec(row) { Err(h) => (Err(h), st), Ok(id) =>
    fetch_export_row_spec(st, id)
    }
}

/// The issuance that a row names, as the bank is asked for it.
pub fn recover_export_row(s: &mut Session, row: &Row) -> (r: Result<CardIssuanceExportRow, Halt>)
    ensures
        (script::seen(r), final(s)@) == recover_export_row_spec(old(s)@, *row),
{
    let id = map_request_id(row)?;
    fetch_export_row(s, id)
}

/// The issuances that rows name, in order, as the bank is asked for them.
pub open spec fn recover_export_rows_spec(
    st: RunView,
    rows: Seq<Row>,
    i: nat,
    done: Seq<CardIssuanceExportRow>,
) -> (Result<Seq<CardIssuanceExportRow>, HaltView>, RunView)
    decreases rows.len() - i,
{
    if i >= rows.len() {
        (Ok(done), st)
    } else {
        match recover_export_row_spec(st, rows[i as int]) {
            (Err(h), st) => (Err(h), st), (Ok(item), st) => recover_export_rows_spec(
                st,
                rows,
                i + 1,
                done.push(item),
            )
        }
    }
}

/// The issuances that rows name, in order, as the bank is asked for them.
pub fn recover_export_rows(
    s: &mut Session,
    rows: &Vec<Row>,
) -> (r: Result<Vec<CardIssuanceExportRow>, Halt>)
    ensures
        (script::seen_view(r), final(s)@) == recover_export_rows_spec(
            old(s)@,
            rows@,
            0,
            Seq::empty(),
        ),
{
    let mut done: Vec<CardIssuanceExportRow> = Vec::new();
    let mut i: usize = 0;
    assert(done@ =~= Seq::empty());
    while i < rows.len()
        invariant
            i <= rows@.len(),
            recover_export_rows_spec(old(s)@, rows@, 0, Seq::empty()) == recover_export_rows_spec(
                s@,
                rows@,
                i as nat,
                done@,
            ),
        decreases rows@.len() - i,
    {
        let item = recover_export_row(s, &rows[i])?;
        done.push(item);
        i = i + 1;
    }
    Ok(done)
}

/// Each is taken in its turn, after those before it, and the first that fails ends the run.
pub proof fn recover_export_rows_go_in_turn(
    st: RunView,
    rows: Seq<Row>,
    i: nat,
    done: Seq<CardIssuanceExportRow>,
)
    ensures
        ({
            let whole = recover_export_rows_spec(st, rows, i, done);
            let (next, at) = recover_export_row_spec(st, rows[i as int]);
            &&& i >= rows.len() ==> whole == (Ok::<_, HaltView>(done), st)
            &&& i < rows.len() ==> match next {
                Ok(item) => whole == recover_export_rows_spec(at, rows, i + 1, done.push(item)),
                Err(halt) => whole.0 == Err::<Seq<CardIssuanceExportRow>, _>(halt) && whole.1 == at,
            }
        }),
{
}

/// A batch whose preparation was interrupted, where it can be taken up again.
pub open spec fn resume_prepared_batch_spec(
    st: RunView,
    batch_id: Uuid,
) -> (Result<PrepareBatchOutcomeView, HaltView>, RunView) {
    match fetch_batch_spec(st, batch_id) { (Err(h), st) => (Err(h), st), (Ok(found), st) =>
    match found {
    None => {
        (Ok(PrepareBatchOutcomeView::IdempotencyInvalidState), st)
    },
    Some(batch) =>
    if batch.status != CardIssuanceBatchStatus::Creating {
        (Ok(PrepareBatchOutcomeView::IdempotencyInvalidState), st)
    } else {
    match script::one_text_spec(
        st,
        OBJECT_KEY_SQL@,
        seq![Bind::Id(batch_id)],
        "failed to recover issuance request object key"@,
    ) { (Err(h), st) => (Err(h), st), (Ok(object_key), st) =>
    match script::rows_spec(
        st,
        BATCH_ROWS_SQL@,
        seq![Bind::Id(batch_id)],
        "r",
        "failed to recover issuance batch rows"@,
    ) { (Err(h), st) => (Err(h), st), (Ok(listed), st) =>
    match recover_export_rows_spec(
        st,
        listed.rows@,
        0,
        Seq::empty(),
    ) { (Err(h), st) => (Err(h), st), (Ok(rows), st) =>
    if let Some(cause) = listed.failure {
        (script::failed("failed to read recovered issuance row"@, cause@), st)
    } else {
    if rows.len() != batch.request_count {
        (Ok(PrepareBatchOutcomeView::IdempotencyInvalidState), st)
    } else {
    (
        Ok(PrepareBatchOutcomeView::Prepared(
            PreparedBatchView { batch, object_key: object_key@, rows },
        )),
        st,
    )
    }}}}}}}}
}

/// A batch whose preparation was interrupted, where it can be taken up again.
pub fn resume_prepared_batch(
    s: &mut Session,
    batch_id: Uuid,
) -> (r: Result<PrepareCardIssuanceBatchOutcome, Halt>)
    ensures
        (script::seen_view(r), final(s)@) == resume_prepared_batch_spec(old(s)@, batch_id),
{
    let found = fetch_batch(s, batch_id)?;
    let batch = match found {
        Some(v) => v,
        None => {
            return Ok(PrepareCardIssuanceBatchOutcome::IdempotencyInvalidState);
        },
    };
    if batch.status != CardIssuanceBatchStatus::Creating {
        return Ok(PrepareCardIssuanceBatchOutcome::IdempotencyInvalidState);
    }
    let object_key = script::one_text(
        s,
        OBJECT_KEY_SQL,
        binds::binds1(Bind::Id(batch_id)),
        "failed to recover issuance request object key",
    )?;
    let listed = script::rows(
        s,
        BATCH_ROWS_SQL,
        binds::binds1(Bind::Id(batch_id)),
        "r",
        "failed to recover issuance batch rows",
    )?;
    let rows = recover_export_rows(s, &listed.rows)?;
    if let Some(cause) = &listed.failure {
        return Err(script::fail_because("failed to read recovered issuance row", cause.as_str()));
    }
    if rows.len() as u64 != batch.request_count as u64 {
        return Ok(PrepareCardIssuanceBatchOutcome::IdempotencyInvalidState);
    }
    Ok(PrepareCardIssuanceBatchOutcome::Prepared(Box::new(
        PreparedCardIssuanceBatch { batch, object_key, rows },
    )))
}

/// What a stored record means for a batch that is to be prepared again: one that is under way is
/// taken up where it was left.
pub open spec fn classify_idempotency_spec(
    st: RunView,
    record: IdempotencyRecord,
    request_hash: String,
) -> (Result<PrepareBatchOutcomeView, HaltView>, RunView) {
    if record.request_hash@ != request_hash@ {
        (Ok(PrepareBatchOutcomeView::IdempotencyConflict), st)
    } else {
    match record.status {
        IdempotencyStatus::Completed => {
            match record.response_snapshot {
            None => {
                (Ok(PrepareBatchOutcomeView::IdempotencyInvalidState), st)
            },
            Some(snapshot) =>
            (Ok(PrepareBatchOutcomeView::Replayed(snapshot)), st)
            }
        },
        IdempotencyStatus::InProgress => {
            match record.resource_id {
            None => {
                (Ok(PrepareBatchOutcomeView::IdempotencyInvalidState), st)
            },
            Some(batch_id) =>
            if !(record.resource_type matches Some(kind) && kind@ == "card_issuance_batch"@) {
                (Ok(PrepareBatchOutcomeView::IdempotencyInvalidState), st)
            } else {
            resume_prepared_batch_spec(st, batch_id)
            }}
        },
        _ => {
            (Ok(PrepareBatchOutcomeView::IdempotencyInvalidState), st)
        },
    }
    }
}

/// What a stored record means for a batch that is to be prepared again: one that is under way is
/// taken up where it was left.
pub fn classify_idempotency(
    s: &mut Session,
    record: &IdempotencyRecord,
    request_hash: &String,
) -> (r: Result<PrepareCardIssuanceBatchOutcome, Halt>)
    ensures
        (script::seen_view(r), final(s)@) == classify_idempotency_spec(
            old(s)@,
            *record,
            *request_hash,
        ),
{
    if !text::same_text(record.request_hash.as_str(), request_hash.as_str()) {
        return Ok(PrepareCardIssuanceBatchOutcome::IdempotencyConflict);
    }
    match record.status {
        IdempotencyStatus::Completed => {
            let snapshot = match &record.response_snapshot {
                Some(v) => v,
                None => {
                    return Ok(PrepareCardIssuanceBatchOutcome::IdempotencyInvalidState);
                },
            };
            return Ok(PrepareCardIssuanceBatchOutcome::Replayed(snapshot.clone()));
        },
        IdempotencyStatus::InProgress => {
            let batch_id = match record.resource_id {
                Some(v) => v,
                None => {
                    return Ok(PrepareCardIssuanceBatchOutcome::IdempotencyInvalidState);
                },
            };
            if !text::is_some_text(&record.resource_type, "card_issuance_batch") {
                return Ok(PrepareCardIssuanceBatchOutcome::IdempotencyInvalidState);
            }
            return resume_prepared_batch(s, batch_id);
        },
        _ => {
            return Ok(PrepareCardIssuanceBatchOutcome::IdempotencyInvalidState);
        },
    }
}

/// Puts the issuances from `i` on into a batch, each at the next place, after those that are done.
pub open spec fn assign_requests_spec(
    st: RunView,
    ids: Seq<Uuid>,
    i: nat,
    batch_id: Uuid,
    subject: String,
    done: Seq<CardIssuanceExportRow>,
) -> (Result<Seq<CardIssuanceExportRow>, HaltView>, RunView)
    decreases ids.len() - i,
{
    if i >= ids.len() {
        (Ok(done), st)
    } else {
        match script::execute_spec(
            st,
            ASSIGN_SQL@,
            seq![Bind::Id(batch_id), Bind::Text(subject), Bind::Id(ids[i as int])],
            "failed to assign issuance request to batch"@,
        ) {
            (Err(h), st) => (Err(h), st),
            (Ok(_), st) => match script::execute_spec(
                st,
                CREATE_ROW_SQL@,
                seq![Bind::Id(batch_id), Bind::Id(ids[i as int]), Bind::Int((i + 1) as i64)],
                "failed to create issuance batch row"@,
            ) {
                (Err(h), st) => (Err(h), st),
                (Ok(_), st) => match fetch_export_row_spec(st, ids[i as int]) {
                    (Err(h), st) => (Err(h), st),
                    (Ok(row), st) => assign_requests_spec(
                        st,
                        ids,
                        i + 1,
                        batch_id,
                        subject,
                        done.push(row),
                    ),
                },
            },
        }
    }
}

/// Puts issuances into a batch, in order.
pub fn assign_requests(s: &mut Session, ids: &Vec<Uuid>, batch_id: Uuid, subject: &String) -> (r:
    Result<Vec<CardIssuanceExportRow>, Halt>)
    ensures
        (script::seen_view(r), final(s)@) == assign_requests_spec(
            old(s)@,
            ids@,
            0,
            batch_id,
            *subject,
            Seq::empty(),
        ),
{
    let mut done: Vec<CardIssuanceExportRow> = Vec::new();
    let mut i: usize = 0;
    assert(done@ =~= Seq::empty());
    while i < ids.len()
        invariant
            i <= ids@.len(),
            assign_requests_spec(old(s)@, ids@, 0, batch_id, *subject, Seq::empty())
                == assign_requests_spec(s@, ids@, i as nat, batch_id, *subject, done@),
        decreases ids@.len() - i,
    {
        script::execute(
            s,
            ASSIGN_SQL,
            binds::binds3(Bind::Id(batch_id), Bind::Text(subject.clone()), Bind::Id(ids[i])),
            "failed to assign issuance request to batch",
        )?;
        script::execute(
            s,
            CREATE_ROW_SQL,
            binds::binds3(Bind::Id(batch_id), Bind::Id(ids[i]), Bind::Int((i + 1) as i64)),
            "failed to create issuance batch row",
        )?;
        let row = fetch_export_row(s, ids[i])?;
        done.push(row);
        i = i + 1;
    }
    Ok(done)
}

/// The name of the object of a batch.
pub open spec fn object_key_text(batch_id: Uuid) -> Seq<char> {
    "card-issuance/"@ + uuid::hyphenated_text(batch_id) + "/request.csv"@
}

fn object_key_of(batch_id: Uuid) -> (r: String)
    ensures
        r@ == object_key_text(batch_id),
{
    text::joined3("card-issuance/", batch_id.to_text().as_str(), "/request.csv")
}

/// Stores a batch of issuances that are locked.
pub open spec fn create_batch_spec(
    st: RunView,
    context: MutationCommandContext,
    request_ids: Seq<Uuid>,
    retention_days: i64,
) -> (Result<PrepareBatchOutcomeView, HaltView>, RunView) {
    match idempotency::insert_idempotency_record_spec(
        st,
        context.record,
    ) { (Err(h), st) => (Err(h), st), (Ok(_), st) =>
    match script::fresh_id_spec(st) { (Err(h), st) => (Err(h), st), (Ok(batch_id), st) =>
    match script::now_spec(st) { (Err(h), st) => (Err(h), st), (Ok(present), st) =>
    match present.days_on(retention_days) {
    None => {
        (script::query_fault("issuance batch expiry is out of range"@), st)
    },
    Some(expires_at) =>
    match script::execute_spec(
        st,
        CREATE_BATCH_SQL@,
        seq![
            Bind::Id(batch_id),
            Bind::Path("card-issuance/", batch_id, "/request.csv"),
            Bind::Int(request_ids.len() as i64),
            Bind::Time(expires_at),
            Bind::Text(context.actor.subject),
        ],
        "failed to create issuance batch"@,
    ) { (Err(h), st) => (Err(h), st), (Ok(_), st) =>
    match script::execute_spec(
        st,
        BIND_BATCH_SQL@,
        seq![
            Bind::Id(batch_id),
            Bind::Text(context.operation_type),
            Bind::Text(context.idempotency_key),
        ],
        "failed to bind issuance batch recovery resource"@,
    ) { (Err(h), st) => (Err(h), st), (Ok(_), st) =>
    match assign_requests_spec(
        st,
        request_ids,
        0,
        batch_id,
        context.actor.subject,
        Seq::empty(),
    ) { (Err(h), st) => (Err(h), st), (Ok(rows), st) =>
    match script::now_spec(st) { (Err(h), st) => (Err(h), st), (Ok(created_at), st) =>
    { let batch = CardIssuanceBatch {
        batch_id,
        status: CardIssuanceBatchStatus::Creating,
        request_checksum_sha256: None,
        result_checksum_sha256: None,
        request_count: request_ids.len() as u32,
        issued_count: 0,
        rejected_count: 0,
        failed_count: 0,
        expires_at,
        created_at,
        updated_at: created_at,
        completed_at: None,
    };
    (
        Ok(PrepareBatchOutcomeView::Prepared(PreparedBatchView {
            batch,
            object_key: object_key_text(batch_id),
            rows,
        })),
        st,
    )
    }}}}}}}}}
}

/// Stores a batch of issuances that are locked.
pub fn create_batch(
    s: &mut Session,
    context: &MutationCommandContext,
    request_ids: &Vec<Uuid>,
    retention_days: i64,
) -> (r: Result<PrepareCardIssuanceBatchOutcome, Halt>)
    ensures
        (script::seen_view(r), final(s)@) == create_batch_spec(
            old(s)@,
            *context,
            request_ids@,
            retention_days,
        ),
{
    idempotency::insert_idempotency_record(s, &context.record)?;
    let batch_id = script::fresh_id(s)?;
    let present = script::now(s)?;
    let expires_at = match present.plus_days(retention_days) {
        Some(v) => v,
        None => {
            return Err(script::fail_query("issuance batch expiry is out of range"));
        },
    };
    script::execute(
        s,
        CREATE_BATCH_SQL,
        binds::binds5(
            Bind::Id(batch_id),
            Bind::Path("card-issuance/", batch_id, "/request.csv"),
            Bind::Int(request_ids.len() as i64),
            Bind::Time(expires_at),
            Bind::Text(context.actor.subject.clone()),
        ),
        "failed to create issuance batch",
    )?;
    script::execute(
        s,
        BIND_BATCH_SQL,
        binds::binds3(
            Bind::Id(batch_id),
            Bind::Text(context.operation_type.clone()),
            Bind::Text(context.idempotency_key.clone()),
        ),
        "failed to bind issuance batch recovery resource",
    )?;
    let rows = assign_requests(s, request_ids, batch_id, &context.actor.subject)?;
    let created_at = script::now(s)?;
    let batch = CardIssuanceBatch {
        batch_id,
        status: CardIssuanceBatchStatus::Creating,
        request_checksum_sha256: None,
        result_checksum_sha256: None,
        request_count: request_ids.len() as u32,
        issued_count: 0,
        rejected_count: 0,
        failed_count: 0,
        expires_at,
        created_at,
        updated_at: created_at,
        completed_at: None,
    };
    Ok(PrepareCardIssuanceBatchOutcome::Prepared(Box::new(PreparedCardIssuanceBatch {
        batch,
        object_key: object_key_of(batch_id),
        rows,
    })))
}

/// Puts pending issuances, at most a batch of them, into a new batch. Under one idempotency key
/// this happens once; a batch whose object was not written yet is taken up again.
pub open spec fn prepare_card_issuance_batch_atomic_spec(
    st: RunView,
    context: MutationCommandContext,
    batch_size: u16,
    retention_days: i64,
) -> (Result<PrepareBatchOutcomeView, HaltView>, RunView) {
    match idempotency::fetch_idempotency_record_spec(
        st,
        context.operation_type,
        context.idempotency_key,
    ) { (Err(h), st) => (Err(h), st), (Ok(existing), st) =>
    if let Some(record) = existing {
        classify_idempotency_spec(st, record, context.request_hash)
    } else {
    match script::rows_spec(
        st,
        CLAIM_SQL@,
        seq![Bind::Int(batch_size as i64)],
        "r",
        "failed to claim pending issuance requests"@,
    ) { (Err(h), st) => (Err(h), st), (Ok(claimed), st) =>
    match map_request_ids_spec(
        claimed.rows@,
        0,
        Seq::empty(),
    ) { Err(h) => (Err(h), st), Ok(request_ids) =>
    if let Some(cause) = claimed.failure {
        (script::failed("failed to read claimed issuance request"@, cause@), st)
    } else {
    if request_ids.len() == 0 {
        (Ok(PrepareBatchOutcomeView::NoPendingRequests), st)
    } else {
    match idempotency::fetch_idempotency_record_spec(
        st,
        context.operation_type,
        context.idempotency_key,
    ) { (Err(h), st) => (Err(h), st), (Ok(later), st) =>
    if let Some(record) = later {
        classify_idempotency_spec(st, record, context.request_hash)
    } else {
    create_batch_spec(st, context, request_ids, retention_days)
    }}}}}}}}
}

impl OracleRepository {
    /// Puts pending issuances, at most a batch of them, into a new batch. Under one idempotency key
    /// this happens once; a batch whose object was not written yet is taken up again.
    pub fn prepare_card_issuance_batch_atomic(
        s: &mut Session,
        context: &MutationCommandContext,
        batch_size: u16,
        retention_days: i64,
    ) -> (r: Result<PrepareCardIssuanceBatchOutcome, Halt>)
        ensures
            (script::seen_view(r), final(s)@) == prepare_card_issuance_batch_atomic_spec(
                old(s)@,
                *context,
                batch_size,
                retention_days,
            ),
    {
        let existing = idempotency::fetch_idempotency_record(
            s,
            &context.operation_type,
            &context.idempotency_key,
        )?;
        if let Some(record) = &existing {
            return classify_idempotency(s, record, &context.request_hash);
        }
        let claimed = script::rows(
            s,
            CLAIM_SQL,
            binds::binds1(Bind::Int(batch_size as i64)),
            "r",
            "failed to claim pending issuance requests",
        )?;
        let request_ids = map_request_ids(&claimed.rows)?;
        if let Some(cause) = &claimed.failure {
            return Err(script::fail_because(
                "failed to read claimed issuance request",
                cause.as_str(),
            ));
        }
        if request_ids.len() == 0 {
            return Ok(PrepareCardIssuanceBatchOutcome::NoPendingRequests);
        }
        let later = idempotency::fetch_idempotency_record(
            s,
            &context.operation_type,
            &context.idempotency_key,
        )?;
        if let Some(record) = &later {
            return classify_idempotency(s, record, &context.request_hash);
        }
        create_batch(s, context, &request_ids, retention_days)
    }
}

/// Marks a batch as ready once its object is written.
pub open spec fn complete_card_issuance_batch_request_file_atomic_spec(
    st: RunView,
    context: MutationCommandContext,
    batch_id: Uuid,
    checksum: String,
) -> (Result<CardIssuanceBatch, HaltView>, RunView) {
    match script::execute_count_spec(
        st,
        FINALIZE_FILE_SQL@,
        seq![Bind::Text(checksum), Bind::Text(context.actor.subject), Bind::Id(batch_id)],
        "failed to finalize issuance request file"@,
        "failed to inspect issuance batch update"@,
    ) { (Err(h), st) => (Err(h), st), (Ok(touched), st) =>
    if touched != 1 {
        (script::conflict_fault("issuance batch is not awaiting request-file upload"@), st)
    } else {
    match fetch_batch_spec(st, batch_id) { (Err(h), st) => (Err(h), st), (Ok(found), st) =>
    match found {
    None => {
        (script::query_fault("issuance batch disappeared"@), st)
    },
    Some(batch) =>
    match script::consult_text_spec(
        st,
        Rule::IssuanceStatusDocument(batch.status),
    ) { (Err(h), st) => (Err(h), st), (Ok(status), st) =>
    { let evidence = Document::IssuanceBatch(
        batch.batch_id,
        status,
        batch.request_count,
        batch.request_checksum_sha256,
        batch.expires_at,
    );
    match audit::insert_audit_log_spec(
        st,
        "CARD_ISSUANCE_BATCH",
        batch_id,
        AuditAction::Insert,
        Bind::Label("Created bank card-issuance request batch"),
        None,
        Some(Snapshot::Document(evidence)),
        audit::trusted_origin_spec(context.audit),
    ) { (Err(h), st) => (Err(h), st), (Ok(_), st) =>
    match script::encode_spec(
        st,
        Rule::IssuanceBatchResponse(batch),
        "failed to serialize issuance batch"@,
    ) { (Err(h), st) => (Err(h), st), (Ok(response), st) =>
    match idempotency::complete_idempotency_record_spec(
        st,
        context.operation_type,
        context.idempotency_key,
        "card_issuance_batch",
        batch_id,
        Snapshot::Text(response),
    ) { (Err(h), st) => (Err(h), st), (Ok(_), st) =>
    (Ok(batch), st)
    }}}}}}}}}
}

impl OracleRepository {
    /// Marks a batch as ready once its object is written.
    pub fn complete_card_issuance_batch_request_file_atomic(
        s: &mut Session,
        context: &MutationCommandContext,
        batch_id: Uuid,
        checksum: &String,
    ) -> (r: Result<CardIssuanceBatch, Halt>)
        ensures
            (script::seen(r), final(s)@) == complete_card_issuance_batch_request_file_atomic_spec(
                old(s)@,
                *context,
                batch_id,
                *checksum,
            ),
    {
        let touched = script::execute_count(
            s,
            FINALIZE_FILE_SQL,
            binds::binds3(
                Bind::Text(checksum.clone()),
                Bind::Text(context.actor.subject.clone()),
                Bind::Id(batch_id),
            ),
            "failed to finalize issuance request file",
            "failed to inspect issuance batch update",
        )?;
        if touched != 1 {
            return Err(script::fail_conflict("issuance batch is not awaiting request-file upload"));
        }
        let found = fetch_batch(s, batch_id)?;
        let batch = match found {
            Some(v) => v,
            None => {
                return Err(script::fail_query("issuance batch disappeared"));
            },
        };
        let status = script::consult_text(s, Rule::IssuanceStatusDocument(batch.status))?;
        let evidence = Document::IssuanceBatch(
            batch.batch_id,
            status.clone(),
            batch.request_count,
            copied(&batch.request_checksum_sha256),
            batch.expires_at,
        );
        audit::insert_audit_log(
            s,
            "CARD_ISSUANCE_BATCH",
            batch_id,
            AuditAction::Insert,
            Bind::Label("Created bank card-issuance request batch"),
            None,
            Some(Snapshot::Document(evidence)),
            audit::trusted_origin(&context.audit),
        )?;
        let response = script::encode(
            s,
            Rule::IssuanceBatchResponse(batch.clone()),
            "failed to serialize issuance batch",
        )?;
        idempotency::complete_idempotency_record(
            s,
            &context.operation_type,
            &context.idempotency_key,
            "card_issuance_batch",
            batch_id,
            Snapshot::Text(response),
        )?;
        Ok(batch)
    }
}

/// A batch, where there is one.
pub open spec fn get_card_issuance_batch_spec(
    st: RunView,
    batch_id: Uuid,
) -> (Result<Option<CardIssuanceBatch>, HaltView>, RunView) {
    fetch_batch_spec(st, batch_id)
}

impl OracleRepository {
    /// A batch, where there is one.
    pub fn get_card_issuance_batch(
        s: &mut Session,
        batch_id: Uuid,
    ) -> (r: Result<Option<CardIssuanceBatch>, Halt>)
        ensures
            (script::seen(r), final(s)@) == get_card_issuance_batch_spec(old(s)@, batch_id),
    {
        fetch_batch(s, batch_id)
    }
}

/// The batch that a row names.
pub open spec fn list_batch_spec(
    st: RunView,
    row: Row,
) -> (Result<CardIssuanceBatch, HaltView>, RunView) {
    match map_request_id_spec(row) { Err(h) => (Err(h), st), Ok(id) =>
    match fetch_batch_spec(st, id) { (Err(h), st) => (Err(h), st), (Ok(found), st) =>
    match found {
    None => {
        (script::query_fault("listed issuance batch disappeared"@), st)
    },
    Some(batch) =>
    (Ok(batch), st)
    }}}
}

/// The batch that a row names.
pub fn list_batch(s: &mut Session, row: &Row) -> (r: Result<CardIssuanceBatch, Halt>)
    ensures
        (script::seen(r), final(s)@) == list_batch_spec(old(s)@, *row),
{
    let id = map_request_id(row)?;
    let found = fetch_batch(s, id)?;
    let batch = match found {
        Some(v) => v,
        None => {
            return Err(script::fail_query("listed issuance batch disappeared"));
        },
    };
    Ok(batch)
}

/// The batches that rows name, in order.
pub open spec fn list_batches_spec(
    st: RunView,
    rows: Seq<Row>,
    i: nat,
    done: Seq<CardIssuanceBatch>,
) -> (Result<Seq<CardIssuanceBatch>, HaltView>, RunView)
    decreases rows.len() - i,
{
    if i >= rows.len() {
        (Ok(done), st)
    } else {
        match list_batch_spec(st, rows[i as int]) {
            (Err(h), st) => (Err(h), st), (Ok(item), st) => list_batches_spec(
                st,
                rows,
                i + 1,
                done.push(item),
            )
        }
    }
}

/// The batches that rows name, in order.
pub fn list_batches(s: &mut Session, rows: &Vec<Row>) -> (r: Result<Vec<CardIssuanceBatch>, Halt>)
    ensures
        (script::seen_view(r), final(s)@) == list_batches_spec(old(s)@, rows@, 0, Seq::empty()),
{
    let mut done: Vec<CardIssuanceBatch> = Vec::new();
    let mut i: usize = 0;
    assert(done@ =~= Seq::empty());
    while i < rows.len()
        invariant
            i <= rows@.len(),
            list_batches_spec(old(s)@, rows@, 0, Seq::empty()) == list_batches_spec(
                s@,
                rows@,
                i as nat,
                done@,
            ),
        decreases rows@.len() - i,
    {
        let item = list_batch(s, &rows[i])?;
        done.push(item);
        i = i + 1;
    }
    Ok(done)
}

/// Each is taken in its turn, after those before it, and the first that fails ends the run.
pub proof fn list_batches_go_in_turn(
    st: RunView,
    rows: Seq<Row>,
    i: nat,
    done: Seq<CardIssuanceBatch>,
)
    ensures
        ({
            let whole = list_batches_spec(st, rows, i, done);
            let (next, at) = list_batch_spec(st, rows[i as int]);
            &&& i >= rows.len() ==> whole == (Ok::<_, HaltView>(done), st)
            &&& i < rows.len() ==> match next {
                Ok(item) => whole == list_batches_spec(at, rows, i + 1, done.push(item)),
                Err(halt) => whole.0 == Err::<Seq<CardIssuanceBatch>, _>(halt) && whole.1 == at,
            }
        }),
{
}

/// The instant after which a page begins, where there is a cursor.
pub open spec fn cursor_time_spec(cursor: Option<CardIssuanceBatchCursor>) -> Option<UtcTime> {
    match cursor {
        Some(c) => Some(c.created_at),
        None => None,
    }
}

fn cursor_time(cursor: &Option<CardIssuanceBatchCursor>) -> (r: Option<UtcTime>)
    ensures
        r == cursor_time_spec(*cursor),
{
    match cursor {
        Some(c) => Some(c.created_at),
        None => None,
    }
}

/// The identifier after which a page begins, where there is a cursor.
pub open spec fn cursor_id_spec(cursor: Option<CardIssuanceBatchCursor>) -> Option<Uuid> {
    match cursor {
        Some(c) => Some(c.batch_id),
        None => None,
    }
}

fn cursor_id(cursor: &Option<CardIssuanceBatchCursor>) -> (r: Option<Uuid>)
    ensures
        r == cursor_id_spec(*cursor),
{
    match cursor {
        Some(c) => Some(c.batch_id),
        None => None,
    }
}

/// A page of batches: its last one is the cursor, where another page follows.
pub open spec fn batch_page(
    found: Seq<CardIssuanceBatch>,
    limit: nat,
) -> (Seq<CardIssuanceBatch>, Option<CardIssuanceBatchCursor>) {
    let items = page::page_items(found, limit);
    (
        items,
        if page::has_next(found, limit) && items.len() > 0 {
            Some(CardIssuanceBatchCursor {
                created_at: items.last().created_at,
                batch_id: items.last().batch_id,
            })
        } else {
            None
        },
    )
}

fn to_batch_page(found: Vec<CardIssuanceBatch>, limit: usize) -> (r: CardIssuanceBatchPage)
    ensures
        r@ == batch_page(found@, limit as nat),
{
    let (items, more) = page::cut_page(found, limit);
    let next_cursor = if more && items.len() > 0 {
        let last = &items[items.len() - 1];
        Some(CardIssuanceBatchCursor { created_at: last.created_at, batch_id: last.batch_id })
    } else {
        None
    };
    Page { items, next_cursor }
}

/// A page holds no more than its limit and goes on after its last item exactly where more was
/// found.
pub proof fn batch_page_goes_on_after_its_last(found: Seq<CardIssuanceBatch>, limit: nat)
    requires
        limit > 0,
    ensures
        ({
            let (shown, next) = batch_page(found, limit);
            &&& found.len() <= limit ==> shown == found && next is None
            &&& found.len() > limit ==> {
                &&& shown == found.take(limit as int)
                &&& next matches Some(cursor)
                &&& cursor.created_at == found[limit - 1].created_at
                &&& cursor.batch_id == found[limit - 1].batch_id
            }
        }),
{
    page::page_is_bounded_prefix(found, limit);
}

/// A page of batches, newest first.
pub open spec fn list_card_issuance_batches_spec(
    st: RunView,
    cursor: Option<CardIssuanceBatchCursor>,
    limit: u16,
) -> (Result<(Seq<CardIssuanceBatch>, Option<CardIssuanceBatchCursor>), HaltView>, RunView) {
    match script::rows_spec(
        st,
        LIST_BATCHES_SQL@,
        seq![
            Bind::OptTime(cursor_time_spec(cursor)),
            Bind::OptTime(cursor_time_spec(cursor)),
            Bind::OptTime(cursor_time_spec(cursor)),
            Bind::OptId(cursor_id_spec(cursor)),
            Bind::Int(page::fetch_limit_spec(limit)),
        ],
        "r",
        "failed to list issuance batches"@,
    ) { (Err(h), st) => (Err(h), st), (Ok(listed), st) =>
    match list_batches_spec(
        st,
        listed.rows@,
        0,
        Seq::empty(),
    ) { (Err(h), st) => (Err(h), st), (Ok(items), st) =>
    if let Some(cause) = listed.failure {
        (script::failed("failed to read issuance batch list row"@, cause@), st)
    } else {
    (Ok(batch_page(items, limit as nat)), st)
    }}}
}

impl OracleRepository {
    /// A page of batches, newest first.
    pub fn list_card_issuance_batches(
        s: &mut Session,
        cursor: Option<CardIssuanceBatchCursor>,
        limit: u16,
    ) -> (r: Result<CardIssuanceBatchPage, Halt>)
        ensures
            (script::seen_view(r), final(s)@) == list_card_issuance_batches_spec(
                old(s)@,
                cursor,
                limit,
            ),
    {
        let listed = script::rows(
            s,
            LIST_BATCHES_SQL,
            binds::binds5(
                Bind::OptTime(cursor_time(&cursor)),
                Bind::OptTime(cursor_time(&cursor)),
                Bind::OptTime(cursor_time(&cursor)),
                Bind::OptId(cursor_id(&cursor)),
                Bind::Int(page::fetch_limit(limit)),
            ),
            "r",
            "failed to list issuance batches",
        )?;
        let items = list_batches(s, &listed.rows)?;
        if let Some(cause) = &listed.failure {
            return Err(script::fail_because(
                "failed to read issuance batch list row",
                cause.as_str(),
            ));
        }
        Ok(to_batch_page(items, limit as usize))
    }
}

/// What a row says became of an issuance.
#[verifier::opaque]
pub open spec fn map_result_row_spec(row: Row) -> Result<CardIssuanceBatchResultRow, HaltView> {
    match row.raw_at(0, READ_ROW@) { Err(h) => Err(h), Ok(request_raw) =>
    match row.int_at(1, READ_ROW@) { Err(h) => Err(h), Ok(place) =>
    match script::id_of(request_raw@) { Err(h) => Err(h), Ok(issuance_request_id) =>
    match count_of(
        place,
        "invalid issuance result row number"@,
    ) { Err(h) => Err(h), Ok(row_number) =>
    match row.text_at(2, READ_ROW@) { Err(h) => Err(h), Ok(status) =>
    match row.opt_text_at(3, READ_ROW@) { Err(h) => Err(h), Ok(result_code) =>
    match row.opt_text_at(4, READ_ROW@) { Err(h) => Err(h), Ok(result_message) =>
    Ok(CardIssuanceBatchResultRow {
        issuance_request_id,
        row_number,
        status,
        result_code,
        result_message,
    })
    }}}}}}}
}

/// What a row says became of an issuance.
pub fn map_result_row(row: &Row) -> (r: Result<CardIssuanceBatchResultRow, Halt>)
    ensures
        script::seen(r) == map_result_row_spec(*row),
{
    proof {
        reveal(map_result_row_spec);
    }
    let request_raw = row.raw(0, READ_ROW)?;
    let place: i64 = row.number(1, READ_ROW)?;
    let issuance_request_id = script::to_id(request_raw)?;
    let row_number: u32 = to_count(place, "invalid issuance result row number")?;
    let status = row.text(2, READ_ROW)?;
    let result_code = row.opt_text(3, READ_ROW)?;
    let result_message = row.opt_text(4, READ_ROW)?;
    Ok(CardIssuanceBatchResultRow {
        issuance_request_id,
        row_number,
        status,
        result_code,
        result_message,
    })
}

/// What rows say became of issuances, in order.
pub open spec fn map_result_rows_spec(
    rows: Seq<Row>,
    i: nat,
    done: Seq<CardIssuanceBatchResultRow>,
) -> Result<Seq<CardIssuanceBatchResultRow>, HaltView>
    decreases rows.len() - i,
{
    if i >= rows.len() {
        Ok(done)
    } else {
        match map_result_row_spec(rows[i as int]) {
            Err(h) => Err(h), Ok(item) => map_result_rows_spec(rows, i + 1, done.push(item))
        }
    }
}

/// What rows say became of issuances, in order.
pub fn map_result_rows(rows: &Vec<Row>) -> (r: Result<Vec<CardIssuanceBatchResultRow>, Halt>)
    ensures
        script::seen_view(r) == map_result_rows_spec(rows@, 0, Seq::empty()),
{
    let mut done: Vec<CardIssuanceBatchResultRow> = Vec::new();
    let mut i: usize = 0;
    assert(done@ =~= Seq::empty());
    while i < rows.len()
        invariant
            i <= rows@.len(),
            map_result_rows_spec(rows@, 0, Seq::empty()) == map_result_rows_spec(
                rows@,
                i as nat,
                done@,
            ),
        decreases rows@.len() - i,
    {
        let item = map_result_row(&rows[i])?;
        done.push(item);
        i = i + 1;
    }
    Ok(done)
}

/// Each is that of its own row, and they come in the order of the rows.
pub proof fn map_result_rows_go_in_turn(
    rows: Seq<Row>,
    i: nat,
    done: Seq<CardIssuanceBatchResultRow>,
)
    requires
        i <= rows.len(),
    ensures
        map_result_rows_spec(rows, i, done) matches Ok(all) ==> {
            &&& all.len() == done.len() + (rows.len() - i)
            &&& all.take(done.len() as int) == done
            &&& forall|k: int| i <= k < rows.len() ==> (#[trigger] rows[k], map_result_row_spec(rows[k])) == (
                rows[k],
                Ok::<CardIssuanceBatchResultRow, HaltView>(all[done.len() + k - i]),
            )
        },
    decreases rows.len() - i,
{
    if i < rows.len() {
        if let Ok(item) = map_result_row_spec(rows[i as int]) {
            map_result_rows_go_in_turn(rows, i + 1, done.push(item));
            if let Ok(all) = map_result_rows_spec(rows, i, done) {
                assert(
                    all.take(done.len() as int) =~= all.take(
                        done.len() as int + 1,
                    ).take(done.len() as int)
                );
                assert(done.push(item).take(done.len() as int) =~= done);
                assert(
                    all[done.len() as int] == all.take(done.len() as int + 1)[done.len() as int]
                );
            }
        }
    } else {
        assert(done.take(done.len() as int) =~= done);
    }
}

/// What became of the issuances of a batch, where there is such a batch.
pub open spec fn get_card_issuance_batch_result_spec(
    st: RunView,
    batch_id: Uuid,
) -> (Result<Option<Seq<CardIssuanceBatchResultRow>>, HaltView>, RunView) {
    match fetch_batch_spec(st, batch_id) { (Err(h), st) => (Err(h), st), (Ok(found), st) =>
    if found is None {
        (Ok(None), st)
    } else {
    match script::rows_spec(
        st,
        RESULT_ROWS_SQL@,
        seq![Bind::Id(batch_id)],
        "ritTT",
        "failed to read issuance batch results"@,
    ) { (Err(h), st) => (Err(h), st), (Ok(listed), st) =>
    match map_result_rows_spec(
        listed.rows@,
        0,
        Seq::empty(),
    ) { Err(h) => (Err(h), st), Ok(values) =>
    if let Some(cause) = listed.failure {
        (script::failed("failed to read issuance batch result row"@, cause@), st)
    } else {
    (Ok(Some(values)), st)
    }}}}}
}

impl OracleRepository {
    /// What became of the issuances of a batch, where there is such a batch.
    pub fn get_card_issuance_batch_result(
        s: &mut Session,
        batch_id: Uuid,
    ) -> (r: Result<Option<Vec<CardIssuanceBatchResultRow>>, Halt>)
        ensures
            (script::seen_opt_view(r), final(s)@) == get_card_issuance_batch_result_spec(
                old(s)@,
                batch_id,
            ),
    {
        let found = fetch_batch(s, batch_id)?;
        if found.is_none() {
            return Ok(None);
        }
        let listed = script::rows(
            s,
            RESULT_ROWS_SQL,
            binds::binds1(Bind::Id(batch_id)),
            "ritTT",
            "failed to read issuance batch results",
        )?;
        let values = map_result_rows(&listed.rows)?;
        if let Some(cause) = &listed.failure {
            return Err(script::fail_because(
                "failed to read issuance batch result row",
                cause.as_str(),
            ));
        }
        Ok(Some(values))
    }
}

/// The object of a batch and its checksum, where it was written.
pub open spec fn get_card_issuance_request_object_spec(
    st: RunView,
    batch_id: Uuid,
) -> (Result<Option<(String, String)>, HaltView>, RunView) {
    match script::maybe_row_spec(
        st,
        REQUEST_OBJECT_SQL@,
        seq![Bind::Id(batch_id)],
        "tt",
        "failed to resolve issuance request object"@,
    ) { (Err(h), st) => (Err(h), st), (Ok(found), st) =>
    match found {
    None => {
        (Ok(None), st)
    },
    Some(row) =>
    match row.text_at(0, READ_ROW@) { Err(h) => (Err(h), st), Ok(object_key) =>
    match row.text_at(1, READ_ROW@) { Err(h) => (Err(h), st), Ok(checksum) =>
    (Ok(Some((object_key, checksum))), st)
    }}}}
}

impl OracleRepository {
    /// The object of a batch and its checksum, where it was written.
    pub fn get_card_issuance_request_object(
        s: &mut Session,
        batch_id: Uuid,
    ) -> (r: Result<Option<(String, String)>, Halt>)
        ensures
            (script::seen(r), final(s)@) == get_card_issuance_request_object_spec(
                old(s)@,
                batch_id,
            ),
    {
        let found = script::maybe_row(
            s,
            REQUEST_OBJECT_SQL,
            binds::binds1(Bind::Id(batch_id)),
            "tt",
            "failed to resolve issuance request object",
        )?;
        let row = match found {
            Some(v) => v,
            None => {
                return Ok(None);
            },
        };
        let object_key = row.text(0, READ_ROW)?;
        let checksum = row.text(1, READ_ROW)?;
        Ok(Some((object_key, checksum)))
    }
}

/// A batch whose object was not written is taken up where it was left: the command is answered with
/// what is stored of the batch, and nothing is changed.
pub proof fn interrupted_batch_is_taken_up(
    st: RunView,
    context: MutationCommandContext,
    batch_size: u16,
    retention_days: i64,
    record: IdempotencyRecord,
    batch_id: Uuid,
)
    requires
        idempotency::fetch_idempotency_record_spec(
            st,
            context.operation_type,
            context.idempotency_key,
        ).0 == Ok::<Option<IdempotencyRecord>, HaltView>(Some(record)),
        record.request_hash@ == context.request_hash@,
        record.status == IdempotencyStatus::InProgress,
        record.resource_id == Some(batch_id),
        record.resource_type matches Some(kind) && kind@ == "card_issuance_batch"@,
    ensures
        ({
            let (result, after) = prepare_card_issuance_batch_atomic_spec(
                st,
                context,
                batch_size,
                retention_days,
            );
            let looked = idempotency::fetch_idempotency_record_spec(
                st,
                context.operation_type,
                context.idempotency_key,
            ).1;
            &&& (result, after) == resume_prepared_batch_spec(looked, batch_id)
            &&& script::writes(after.log) == script::writes(st.log)
            &&& result matches Ok(PrepareBatchOutcomeView::Prepared(prepared))
                ==> prepared.batch.batch_id == batch_id && prepared.batch.status
                == CardIssuanceBatchStatus::Creating && prepared.rows.len()
                == prepared.batch.request_count
        }),
{
    broadcast use script::writes_with_another;

    reveal(map_batch_spec);
    assert forall|at: RunView, rows: Seq<Row>|
        script::writes(
            (#[trigger] recover_export_rows_spec(at, rows, 0, Seq::empty())).1.log,
        ) == script::writes(at.log) by {
        recovery_changes_nothing(at, rows, 0, Seq::empty());
    }
}

proof fn recovery_changes_nothing(
    st: RunView,
    rows: Seq<Row>,
    i: nat,
    done: Seq<CardIssuanceExportRow>,
)
    ensures
        script::writes(recover_export_rows_spec(st, rows, i, done).1.log) == script::writes(st.log),
    decreases rows.len() - i,
{
    broadcast use script::writes_with_another;

    if i < rows.len() {
        let read = recover_export_row_spec(st, rows[i as int]);
        if let Ok(item) = read.0 {
            recovery_changes_nothing(read.1, rows, i + 1, done.push(item));
        }
    }
}

/// A batch takes requests that wait, up to its size; where none waits, there is no batch. One that
/// is made holds the requests that were claimed.
#[verifier::rlimit(80)]
pub proof fn batch_takes_waiting_requests(
    st: RunView,
    context: MutationCommandContext,
    batch_size: u16,
    retention_days: i64,
)
    requires
        idempotency::fetch_idempotency_record_spec(
            st,
            context.operation_type,
            context.idempotency_key,
        ).0 == Ok::<Option<IdempotencyRecord>, HaltView>(None),
    ensures
        ({
            let (ended, after) = prepare_card_issuance_batch_atomic_spec(
                st,
                context,
                batch_size,
                retention_days,
            );
            ended matches Ok(outcome) ==> {
                &&& st.rest[1] matches script::Reply::Rows(claimed)
                &&& claimed.failure is None
                &&& outcome is NoPendingRequests <==> claimed.rows@.len() == 0
                &&& claimed.rows@.len() == 0 ==> after.log == st.log.push(
                    after.log[st.log.len() as int],
                ).push(
                    script::sql_call(
                        script::Mode::Query,
                        CLAIM_SQL@,
                        seq![Bind::Int(batch_size as i64)],
                        "r",
                    ),
                )
            }
        }),
{
    let looked = idempotency::fetch_idempotency_record_spec(
        st,
        context.operation_type,
        context.idempotency_key,
    ).1;
    let claimed = script::rows_spec(
        looked,
        CLAIM_SQL@,
        seq![Bind::Int(batch_size as i64)],
        "r",
        "failed to claim pending issuance requests"@,
    ).0;
    if let Ok(rows) = claimed {
        as_many_requests_as_rows(rows.rows@, 0, Seq::empty());
    }
}

proof fn as_many_requests_as_rows(rows: Seq<Row>, i: nat, done: Seq<Uuid>)
    requires
        i <= rows.len(),
    ensures
        map_request_ids_spec(
            rows,
            i,
            done,
        ) matches Ok(ids) ==> ids.len() == done.len() + (rows.len()
            - i),
    decreases rows.len() - i,
{
    if i < rows.len() {
        if let Ok(id) = map_request_id_spec(rows[i as int]) {
            as_many_requests_as_rows(rows, i + 1, done.push(id));
        }
    }
}

/// The file of a batch is completed only where exactly this batch waits for it, with its checksum.
pub proof fn awaited_file_is_completed(
    st: RunView,
    context: MutationCommandContext,
    batch_id: Uuid,
    checksum: String,
)
    requires
        complete_card_issuance_batch_request_file_atomic_spec(
            st,
            context,
            batch_id,
            checksum,
        ).0 is Ok,
    ensures
        st.rest[0] == script::Reply::Executed(Ok(1)),
{
}

/// A batch that is recorded is answered by its record: under another request it conflicts, a
/// completed one gets the answer that is stored, and one that is under way is taken up again.
pub proof fn batch_is_answered_from_its_record(
    st: RunView,
    record: IdempotencyRecord,
    request_hash: String,
)
    ensures
        ({
            let (ended, after) = classify_idempotency_spec(st, record, request_hash);
            let same = record.request_hash@ == request_hash@;
            &&& !same ==> ended == Ok::<_, HaltView>(
                PrepareBatchOutcomeView::IdempotencyConflict,
            ) && after == st
            &&& same
                && record.status is Completed ==> (record.response_snapshot matches Some(answer)
                ==> ended == Ok::<_, HaltView>(PrepareBatchOutcomeView::Replayed(answer)))
            &&& same && record.status is InProgress ==> (record.resource_id matches Some(batch_id)
                ==> ((record.resource_type matches Some(kind) && kind@ == "card_issuance_batch"@)
                ==> classify_idempotency_spec(
                    st,
                    record,
                    request_hash,
                ) == resume_prepared_batch_spec(st, batch_id)))
        }),
{
}

/// Each request of a batch is assigned to it in its turn, under a row number that counts from one.
#[verifier::rlimit(40)]
pub proof fn requests_are_numbered_from_one(
    st: RunView,
    ids: Seq<Uuid>,
    i: nat,
    batch_id: Uuid,
    subject: String,
    done: Seq<CardIssuanceExportRow>,
)
    requires
        i < ids.len(),
        i < i64::MAX,
        assign_requests_spec(st, ids, i, batch_id, subject, done).0 is Ok,
    ensures
        ({
            let assigned = RunView {
                rest: st.rest.skip(1).skip(1),
                log: st.log.push(
                    script::sql_call(
                        script::Mode::Execute,
                        ASSIGN_SQL@,
                        seq![Bind::Id(batch_id), Bind::Text(subject), Bind::Id(ids[i as int])],
                        "",
                    ),
                ).push(
                    script::sql_call(
                        script::Mode::Execute,
                        CREATE_ROW_SQL@,
                        seq![
                            Bind::Id(batch_id),
                            Bind::Id(ids[i as int]),
                            Bind::Int((i + 1) as i64),
                        ],
                        "",
                    ),
                ),
            };
            let (row, at) = fetch_export_row_spec(assigned, ids[i as int]);
            &&& row is Ok
            &&& assign_requests_spec(st, ids, i, batch_id, subject, done) == assign_requests_spec(
                at,
                ids,
                i + 1,
                batch_id,
                subject,
                done.push(row->Ok_0),
            )
        }),
{
}

/// The results of a batch are those of its rows, and there are none exactly where there is no
/// batch.
pub proof fn results_are_those_of_a_stored_batch(
    st: RunView,
    batch_id: Uuid,
)
    requires
        fetch_batch_spec(st, batch_id).0 is Ok,
    ensures
        ({
            let (found, at) = fetch_batch_spec(st, batch_id);
            let ended = get_card_issuance_batch_result_spec(st, batch_id).0;
            &&& (ended matches Ok(None)) <==> found->Ok_0 is None
            &&& ended matches Ok(Some(rows)) ==> {
                &&& at.rest[0] matches script::Reply::Rows(listed)
                &&& map_result_rows_spec(listed.rows@, 0, Seq::empty()) == Ok::<_, HaltView>(rows)
            }
        }),
{
}

/// A prepared batch is taken up again only where it is still being made and all its requests are
/// there.
pub proof fn unfinished_batch_is_taken_up_again(
    st: RunView,
    batch_id: Uuid,
)
    requires
        fetch_batch_spec(st, batch_id).0 is Ok,
    ensures
        ({
            let found = fetch_batch_spec(st, batch_id).0->Ok_0;
            let ended = resume_prepared_batch_spec(st, batch_id).0;
            (ended matches Ok(outcome) && outcome is Prepared) ==> (found matches Some(batch)
                && batch.status is Creating)
        }),
{
}

/// Each value is read from its own column: the batch that a row holds.
#[verifier::rlimit(60)]
pub proof fn map_batch_is_read_by_column(
    row: Row,
    batch_id: Uuid,
)
    ensures
        map_batch_spec(row, batch_id) matches Ok(read) ==> {
            &&& read.batch_id == batch_id
            &&& read.status == (
                CardIssuanceBatchStatus::of_code(row.text_at(0, READ_ROW@)->Ok_0@)
            )->Some_0
            &&& read.request_checksum_sha256 == row.opt_text_at(1, READ_ROW@)->Ok_0
            &&& read.result_checksum_sha256 == row.opt_text_at(2, READ_ROW@)->Ok_0
            &&& read.request_count == number_spec(row, 3)->Ok_0
            &&& read.issued_count == number_spec(row, 4)->Ok_0
            &&& read.rejected_count == number_spec(row, 5)->Ok_0
            &&& read.failed_count == number_spec(row, 6)->Ok_0
            &&& read.expires_at == script::time_of(
                row.text_at(7, READ_ROW@)->Ok_0@,
                "invalid issuance timestamp"@,
            )->Ok_0
            &&& read.created_at == script::time_of(
                row.text_at(8, READ_ROW@)->Ok_0@,
                "invalid issuance timestamp"@,
            )->Ok_0
            &&& read.updated_at == script::time_of(
                row.text_at(9, READ_ROW@)->Ok_0@,
                "invalid issuance timestamp"@,
            )->Ok_0
            &&& read.completed_at == script::opt_time_of(
                row.opt_text_at(10, READ_ROW@)->Ok_0,
                "invalid issuance timestamp"@,
            )->Ok_0
        },
{
    reveal(map_batch_spec);
}

/// What is asked first, and with which values, in a run that does this:
/// a batch, where there is one.
pub proof fn fetch_batch_asks_first(
    st: RunView,
    batch_id: Uuid,
)
    requires
        st.rest.len() == 0,
    ensures
        fetch_batch_spec(st, batch_id).0 matches Err(HaltView::Ask(asked))
            && (
                asked matches script::CallView::Sql { sql, binds, .. } && sql == BATCH_SQL@
                    && binds == seq![Bind::Id(batch_id)]
            ),
{
}

/// What is asked first, and with which values, in a run that does this:
/// an issuance as the bank is asked for it.
pub proof fn fetch_export_row_asks_first(
    st: RunView,
    request_id: Uuid,
)
    requires
        st.rest.len() == 0,
    ensures
        fetch_export_row_spec(st, request_id).0 matches Err(HaltView::Ask(asked))
            && (
                asked matches script::CallView::Sql { sql, binds, .. } && sql == EXPORT_ROW_SQL@
                    && binds == seq![Bind::Id(request_id)]
            ),
{
}

/// Each value is read from its own column: an issuance as the bank is asked for it.
#[verifier::rlimit(60)]
pub proof fn fetch_export_row_is_read_by_column(
    st: RunView,
    request_id: Uuid,
)
    ensures
        fetch_export_row_spec(st, request_id).0 matches Ok(read) ==> {
            &&& read.issuance_request_id == st.rest[0]->Rows_0.rows@[0].id_at(0, READ_ROW@)->Ok_0
            &&& read.requested_at == script::time_of(
                st.rest[0]->Rows_0.rows@[0].text_at(1, READ_ROW@)->Ok_0@,
                "invalid issuance timestamp"@,
            )->Ok_0
            &&& read.card_range_id == st.rest[0]->Rows_0.rows@[0].id_at(2, READ_ROW@)->Ok_0
            &&& read.funding_mode == st.rest[0]->Rows_0.rows@[0].text_at(3, READ_ROW@)->Ok_0
            &&& read.national_id == st.rest[0]->Rows_0.rows@[0].text_at(4, READ_ROW@)->Ok_0
            &&& read.first_name == st.rest[0]->Rows_0.rows@[0].text_at(5, READ_ROW@)->Ok_0
            &&& read.last_name == st.rest[0]->Rows_0.rows@[0].text_at(6, READ_ROW@)->Ok_0
            &&& read.birth_date == st.rest[0]->Rows_0.rows@[0].text_at(7, READ_ROW@)->Ok_0
            &&& read.mobile == st.rest[0]->Rows_0.rows@[0].text_at(8, READ_ROW@)->Ok_0
            &&& read.delivery_province == st.rest[0]->Rows_0.rows@[0].text_at(9, READ_ROW@)->Ok_0
            &&& read.delivery_city == st.rest[0]->Rows_0.rows@[0].text_at(10, READ_ROW@)->Ok_0
            &&& read.delivery_address == st.rest[0]->Rows_0.rows@[0].text_at(11, READ_ROW@)->Ok_0
            &&& read.postal_code == st.rest[0]->Rows_0.rows@[0].text_at(12, READ_ROW@)->Ok_0
            &&& read.provider_request_count == count_of(
                st.rest[0]->Rows_0.rows@[0].int_at(13, READ_ROW@)->Ok_0,
                "invalid provider request count"@,
            )->Ok_0
        },
{
}

/// What is asked first, and with which values, in a run that does this:
/// marks a batch as ready once its object is written.
pub proof fn complete_card_issuance_batch_request_file_atomic_asks_first(
    st: RunView,
    context: MutationCommandContext,
    batch_id: Uuid,
    checksum: String,
)
    requires
        st.rest.len() == 0,
    ensures
        complete_card_issuance_batch_request_file_atomic_spec(
            st,
            context,
            batch_id,
            checksum,
        ).0 matches Err(HaltView::Ask(asked))
            && (
                asked matches script::CallView::Sql { sql, binds, .. } && sql == FINALIZE_FILE_SQL@
                    && binds == seq![
                        Bind::Text(checksum),
                        Bind::Text(context.actor.subject),
                        Bind::Id(batch_id),
                    ]
            ),
{
}

/// What the database is told, and with which values, where a run succeeds that does this:
/// marks a batch as ready once its object is written.
#[verifier::rlimit(60)]
pub proof fn complete_card_issuance_batch_request_file_atomic_is_told(
    st: RunView,
    context: MutationCommandContext,
    batch_id: Uuid,
    checksum: String,
)
    ensures
        ({
            let (ended, after) = complete_card_issuance_batch_request_file_atomic_spec(
                st,
                context,
                batch_id,
                checksum,
            );
            let log = after.log;
            ended is Ok ==> {
                &&& script::ran(
                    log,
                    FINALIZE_FILE_SQL@,
                    seq![
                        Bind::Text(checksum),
                        Bind::Text(context.actor.subject),
                        Bind::Id(batch_id),
                    ],
                )
            }
        }),
{
    broadcast use {script::runs_on_with_another, script::told_where_with_another};

}

/// What is asked first, and with which values, in a run that does this:
/// a page of batches, newest first.
pub proof fn list_card_issuance_batches_asks_first(
    st: RunView,
    cursor: Option<CardIssuanceBatchCursor>,
    limit: u16,
)
    requires
        st.rest.len() == 0,
    ensures
        list_card_issuance_batches_spec(st, cursor, limit).0 matches Err(HaltView::Ask(asked))
            && (
                asked matches script::CallView::Sql { sql, binds, .. } && sql == LIST_BATCHES_SQL@
                    && binds == seq![
                        Bind::OptTime(cursor_time_spec(cursor)),
                        Bind::OptTime(cursor_time_spec(cursor)),
                        Bind::OptTime(cursor_time_spec(cursor)),
                        Bind::OptId(cursor_id_spec(cursor)),
                        Bind::Int(page::fetch_limit_spec(limit)),
                    ]
            ),
{
}

/// Each value is read from its own column: what a row says became of an issuance.
#[verifier::rlimit(60)]
pub proof fn map_result_row_is_read_by_column(
    row: Row,
)
    ensures
        map_result_row_spec(row) matches Ok(read) ==> {
            &&& read.issuance_request_id == row.id_at(0, READ_ROW@)->Ok_0
            &&& read.row_number == count_of(
                row.int_at(1, READ_ROW@)->Ok_0,
                "invalid issuance result row number"@,
            )->Ok_0
            &&& read.status == row.text_at(2, READ_ROW@)->Ok_0
            &&& read.result_code == row.opt_text_at(3, READ_ROW@)->Ok_0
            &&& read.result_message == row.opt_text_at(4, READ_ROW@)->Ok_0
        },
{
    reveal(map_result_row_spec);
}

/// What is asked first, and with which values, in a run that does this:
/// the object of a batch and its checksum, where it was written.
pub proof fn get_card_issuance_request_object_asks_first(
    st: RunView,
    batch_id: Uuid,
)
    requires
        st.rest.len() == 0,
    ensures
        get_card_issuance_request_object_spec(st, batch_id).0 matches Err(HaltView::Ask(asked))
            && (
                asked matches script::CallView::Sql { sql, binds, .. } && sql == REQUEST_OBJECT_SQL@
                    && binds == seq![Bind::Id(batch_id)]
            ),
{
}

} // verus!
