//! Idempotency records.
use vstd::prelude::*;
use crate::db::oracle::binds;
use crate::db::oracle::document::Snapshot;
use crate::db::oracle::repository::OracleRepository;
use crate::db::oracle::script;
use crate::db::oracle::script::{
    Bind, Halt, HaltView, Reply, Row, RunView, Session, UNEXPECTED_REPLY,
};
use crate::db::oracle::transaction;
use crate::domain::copied;
use crate::domain::idempotency::{IdempotencyRecord, IdempotencyStatus, NewIdempotencyRecord};
use crate::json;
use crate::text;
use crate::time::UtcTime;
use crate::uuid::Uuid;

verus! {

/// Stores a record for a command that begins.
pub const IDEMPOTENCY_INSERT_SQL: &'static str = r#"
    INSERT INTO idempotency_records (
        idempotency_record_id,
        operation_type,
        idempotency_key,
        request_hash,
        status,
        created_by_subject,
        created_by_client_id,
        actor_provider_id,
        actor_user_id,
        correlation_id,
        request_id
    )
    VALUES (:1, :2, :3, :4, :5, :6, :7, :8, :9, :10, :11)
    "#;

/// Completes a record that is in progress.
pub const IDEMPOTENCY_COMPLETE_SQL: &'static str = r#"
    UPDATE idempotency_records
    SET status = 'COMPLETED',
        resource_type = :1,
        resource_id = :2,
        response_snapshot = :3,
        updated_at = SYSTIMESTAMP,
        completed_at = SYSTIMESTAMP
    WHERE operation_type = :4
      AND idempotency_key = :5
      AND status = 'IN_PROGRESS'
    "#;

/// Reads the record of an operation type and a key.
pub const IDEMPOTENCY_SELECT_SQL: &'static str = r#"
    SELECT
        idempotency_record_id,
        operation_type,
        idempotency_key,
        request_hash,
        status,
        resource_type,
        resource_id,
        JSON_SERIALIZE(response_snapshot RETURNING CLOB) AS response_snapshot,
        JSON_SERIALIZE(error_snapshot RETURNING CLOB) AS error_snapshot,
        created_by_subject,
        created_by_client_id,
        actor_provider_id,
        actor_user_id,
        correlation_id,
        request_id,
        TO_CHAR(SYS_EXTRACT_UTC(created_at), 'YYYY-MM-DD"T"HH24:MI:SS.FF3"Z"') AS created_at,
        TO_CHAR(SYS_EXTRACT_UTC(updated_at), 'YYYY-MM-DD"T"HH24:MI:SS.FF3"Z"') AS updated_at,
        TO_CHAR(SYS_EXTRACT_UTC(completed_at), 'YYYY-MM-DD"T"HH24:MI:SS.FF3"Z"') AS completed_at
    FROM idempotency_records
    WHERE operation_type = :1
      AND idempotency_key = :2
    "#;

/// The statement that stores a record.
pub fn idempotency_insert_sql() -> (r: &'static str)
    ensures
        r == IDEMPOTENCY_INSERT_SQL,
{
    IDEMPOTENCY_INSERT_SQL
}

/// The statement that completes a record.
pub fn idempotency_complete_sql() -> (r: &'static str)
    ensures
        r == IDEMPOTENCY_COMPLETE_SQL,
{
    IDEMPOTENCY_COMPLETE_SQL
}

/// The statement that reads a record.
pub fn idempotency_select_sql() -> (r: &'static str)
    ensures
        r == IDEMPOTENCY_SELECT_SQL,
{
    IDEMPOTENCY_SELECT_SQL
}

/// What a value that cannot be read is reported as.
pub const READ: &'static str = "failed to read Oracle idempotency row";

/// The columns of a stored record.
pub const IDEMPOTENCY_COLUMNS: &'static str = "rttttTRTTtTRRttttT";

/// Whether an optional text is a JSON document.
pub open spec fn snapshot_checked(text: Option<String>) -> Result<(), HaltView> {
    match text {
        None => Ok(()),
        Some(t) => match json::json_reading_fault(t@) {
            Some(e) => script::failed("invalid JSON snapshot in Oracle row"@, e),
            None => Ok(()),
        },
    }
}

/// Whether an optional text is a JSON document.
pub fn parse_json_snapshot(text: &Option<String>) -> (r: Result<(), Halt>)
    ensures
        script::seen(r) == snapshot_checked(*text),
{
    match text {
        None => Ok(()),
        Some(t) => match json::reading_fault(t.as_str()) {
            Some(e) => Err(script::fail_because("invalid JSON snapshot in Oracle row", e.as_str())),
            None => Ok(()),
        },
    }
}

/// A timestamp, whose text is reported where it is none.
pub open spec fn utc_of(text: Seq<char>) -> Result<UtcTime, HaltView> {
    script::time_of(text, "invalid Oracle UTC timestamp `"@ + text + "`"@)
}

/// A timestamp, whose text is reported where it is none.
pub fn parse_utc(text: &str) -> (r: Result<UtcTime, Halt>)
    ensures
        script::seen(r) == utc_of(text@),
{
    let context: String = text::joined3("invalid Oracle UTC timestamp `", text, "`");
    script::to_time(text, context.as_str())
}

/// A timestamp that may be absent.
pub open spec fn opt_utc_of(text: Option<String>) -> Result<Option<UtcTime>, HaltView> {
    match text {
        None => Ok(None),
        Some(t) => match utc_of(t@) {
            Ok(t) => Ok(Some(t)),
            Err(h) => Err(h),
        },
    }
}

/// A timestamp that may be absent.
pub fn parse_opt_utc(text: &Option<String>) -> (r: Result<Option<UtcTime>, Halt>)
    ensures
        script::seen(r) == opt_utc_of(*text),
{
    match text {
        None => Ok(None),
        Some(t) => Ok(Some(parse_utc(t.as_str())?)),
    }
}

/// The record that a row holds.
#[verifier::opaque]
pub open spec fn map_idempotency_row_spec(row: Row) -> Result<IdempotencyRecord, HaltView> {
    match row.raw_at(0, READ@) { Err(h) => Err(h), Ok(record_raw) =>
    match row.text_at(4, READ@) { Err(h) => Err(h), Ok(status_text) =>
    match row.opt_raw_at(6, READ@) { Err(h) => Err(h), Ok(resource_raw) =>
    match row.opt_text_at(7, READ@) { Err(h) => Err(h), Ok(response_snapshot) =>
    match row.opt_text_at(8, READ@) { Err(h) => Err(h), Ok(error_snapshot) =>
    match row.opt_raw_at(11, READ@) { Err(h) => Err(h), Ok(provider_raw) =>
    match row.opt_raw_at(12, READ@) { Err(h) => Err(h), Ok(user_raw) =>
    match row.text_at(15, READ@) { Err(h) => Err(h), Ok(created_text) =>
    match row.text_at(16, READ@) { Err(h) => Err(h), Ok(updated_text) =>
    match row.opt_text_at(17, READ@) { Err(h) => Err(h), Ok(completed_text) =>
    match script::id_of(record_raw@) { Err(h) => Err(h), Ok(idempotency_record_id) =>
    match row.text_at(1, READ@) { Err(h) => Err(h), Ok(operation_type) =>
    match row.text_at(2, READ@) { Err(h) => Err(h), Ok(idempotency_key) =>
    match row.text_at(3, READ@) { Err(h) => Err(h), Ok(request_hash) =>
    match IdempotencyStatus::of_code(status_text@) {
    None => {
        script::query_fault("unknown idempotency status `"@ + status_text@ + "`"@)
    },
    Some(status) =>
    match row.opt_text_at(5, READ@) { Err(h) => Err(h), Ok(resource_type) =>
    match script::opt_id_of(resource_raw) { Err(h) => Err(h), Ok(resource_id) =>
    match snapshot_checked(response_snapshot) { Err(h) => Err(h), Ok(_) =>
    match snapshot_checked(error_snapshot) { Err(h) => Err(h), Ok(_) =>
    match row.text_at(9, READ@) { Err(h) => Err(h), Ok(created_by_subject) =>
    match row.opt_text_at(10, READ@) { Err(h) => Err(h), Ok(created_by_client_id) =>
    match script::opt_id_of(provider_raw) { Err(h) => Err(h), Ok(actor_provider_id) =>
    match script::opt_id_of(user_raw) { Err(h) => Err(h), Ok(actor_user_id) =>
    match row.text_at(13, READ@) { Err(h) => Err(h), Ok(correlation_id) =>
    match row.text_at(14, READ@) { Err(h) => Err(h), Ok(request_id) =>
    match utc_of(created_text@) { Err(h) => Err(h), Ok(created_at) =>
    match utc_of(updated_text@) { Err(h) => Err(h), Ok(updated_at) =>
    match opt_utc_of(completed_text) { Err(h) => Err(h), Ok(completed_at) =>
    Ok(IdempotencyRecord {
        idempotency_record_id,
        operation_type,
        idempotency_key,
        request_hash,
        status,
        resource_type,
        resource_id,
        response_snapshot,
        error_snapshot,
        created_by_subject,
        created_by_client_id,
        actor_provider_id,
        actor_user_id,
        correlation_id,
        request_id,
        created_at,
        updated_at,
        completed_at,
    })
    }}}}}}}}}}}}}}}}}}}}}}}}}}}}
}

/// The record that a row holds.
pub fn map_idempotency_row(row: &Row) -> (r: Result<IdempotencyRecord, Halt>)
    ensures
        script::seen(r) == map_idempotency_row_spec(*row),
{
    proof {
        reveal(map_idempotency_row_spec);
    }
    let record_raw = row.raw(0, READ)?;
    let status_text = row.text(4, READ)?;
    let resource_raw = row.opt_raw(6, READ)?;
    let response_snapshot = row.opt_text(7, READ)?;
    let error_snapshot = row.opt_text(8, READ)?;
    let provider_raw = row.opt_raw(11, READ)?;
    let user_raw = row.opt_raw(12, READ)?;
    let created_text = row.text(15, READ)?;
    let updated_text = row.text(16, READ)?;
    let completed_text = row.opt_text(17, READ)?;
    let idempotency_record_id = script::to_id(record_raw)?;
    let operation_type = row.text(1, READ)?;
    let idempotency_key = row.text(2, READ)?;
    let request_hash = row.text(3, READ)?;
    let status = match IdempotencyStatus::from_db_value(status_text.as_str()) {
        Some(v) => v,
        None => {
            return Err(script::fail_query(
                text::joined3("unknown idempotency status `", status_text.as_str(), "`").as_str(),
            ));
        },
    };
    let resource_type = row.opt_text(5, READ)?;
    let resource_id = script::to_opt_id(resource_raw)?;
    parse_json_snapshot(&response_snapshot)?;
    parse_json_snapshot(&error_snapshot)?;
    let created_by_subject = row.text(9, READ)?;
    let created_by_client_id = row.opt_text(10, READ)?;
    let actor_provider_id = script::to_opt_id(provider_raw)?;
    let actor_user_id = script::to_opt_id(user_raw)?;
    let correlation_id = row.text(13, READ)?;
    let request_id = row.text(14, READ)?;
    let created_at = parse_utc(created_text.as_str())?;
    let updated_at = parse_utc(updated_text.as_str())?;
    let completed_at = parse_opt_utc(&completed_text)?;
    Ok(IdempotencyRecord {
        idempotency_record_id,
        operation_type,
        idempotency_key,
        request_hash,
        status,
        resource_type,
        resource_id,
        response_snapshot,
        error_snapshot,
        created_by_subject,
        created_by_client_id,
        actor_provider_id,
        actor_user_id,
        correlation_id,
        request_id,
        created_at,
        updated_at,
        completed_at,
    })
}

/// The record under an operation type and a key, where there is one.
pub open spec fn fetch_idempotency_record_spec(
    st: RunView,
    operation_type: String,
    idempotency_key: String,
) -> (Result<Option<IdempotencyRecord>, HaltView>, RunView) {
    match script::first_row_spec(
        st,
        IDEMPOTENCY_SELECT_SQL@,
        seq![Bind::Text(operation_type), Bind::Text(idempotency_key)],
        IDEMPOTENCY_COLUMNS,
        "failed to fetch idempotency record"@,
        "failed to read idempotency record"@,
    ) { (Err(h), st) => (Err(h), st), (Ok(found), st) =>
    match found {
    None => {
        (Ok(None), st)
    },
    Some(row) =>
    match map_idempotency_row_spec(row) { Err(h) => (Err(h), st), Ok(record) =>
    (Ok(Some(record)), st)
    }}}
}

/// The record under an operation type and a key, where there is one.
pub fn fetch_idempotency_record(
    s: &mut Session,
    operation_type: &String,
    idempotency_key: &String,
) -> (r: Result<Option<IdempotencyRecord>, Halt>)
    ensures
        (script::seen(r), final(s)@) == fetch_idempotency_record_spec(
            old(s)@,
            *operation_type,
            *idempotency_key,
        ),
{
    let found = script::first_row(
        s,
        IDEMPOTENCY_SELECT_SQL,
        binds::binds2(Bind::Text(operation_type.clone()), Bind::Text(idempotency_key.clone())),
        IDEMPOTENCY_COLUMNS,
        "failed to fetch idempotency record",
        "failed to read idempotency record",
    )?;
    let row = match found {
        Some(v) => v,
        None => {
            return Ok(None);
        },
    };
    let record = map_idempotency_row(row)?;
    Ok(Some(record))
}

/// What came back of storing a record: a record that exists already is a conflict.
pub open spec fn insertion_result(reply: Reply) -> Result<(), HaltView> {
    match reply {
        Reply::Executed(_) => Ok(()),
        Reply::Failed(f) => if transaction::is_unique_violation(f.text@) {
            script::conflict_fault("idempotency record already exists"@)
        } else {
            script::failed("failed to create idempotency record"@, f.text@)
        },
        _ => script::failed("failed to create idempotency record"@, UNEXPECTED_REPLY@),
    }
}

fn insertion(reply: &Reply) -> (r: Result<(), Halt>)
    ensures
        script::seen(r) == insertion_result(*reply),
{
    match reply {
        Reply::Executed(_) => Ok(()),
        Reply::Failed(f) => if transaction::is_unique_constraint_violation(f.text.as_str()) {
            Err(script::fail_conflict("idempotency record already exists"))
        } else {
            Err(script::fail_because("failed to create idempotency record", f.text.as_str()))
        },
        _ => Err(script::fail_because("failed to create idempotency record", UNEXPECTED_REPLY)),
    }
}

/// Stores a record in progress for a command that begins.
pub open spec fn insert_idempotency_record_spec(
    st: RunView,
    record: NewIdempotencyRecord,
) -> (Result<(), HaltView>, RunView) {
    match script::attempt_spec(
        st,
        IDEMPOTENCY_INSERT_SQL@,
        seq![
            Bind::Id(record.idempotency_record_id),
            Bind::Text(record.operation_type),
            Bind::Text(record.idempotency_key),
            Bind::Text(record.request_hash),
            Bind::Label("IN_PROGRESS"),
            Bind::Text(record.created_by_subject),
            Bind::OptText(record.created_by_client_id),
            Bind::OptId(record.actor_provider_id),
            Bind::OptId(record.actor_user_id),
            Bind::Text(record.correlation_id),
            Bind::Text(record.request_id),
        ],
    ) { (Err(h), st) => (Err(h), st), (Ok(reply), st) =>
    (insertion_result(reply), st)
    }
}

/// Stores a record in progress for a command that begins.
pub fn insert_idempotency_record(
    s: &mut Session,
    record: &NewIdempotencyRecord,
) -> (r: Result<(), Halt>)
    ensures
        (script::seen(r), final(s)@) == insert_idempotency_record_spec(old(s)@, *record),
{
    let reply = script::attempt(
        s,
        IDEMPOTENCY_INSERT_SQL,
        binds::binds11(
            Bind::Id(record.idempotency_record_id),
            Bind::Text(record.operation_type.clone()),
            Bind::Text(record.idempotency_key.clone()),
            Bind::Text(record.request_hash.clone()),
            Bind::Label("IN_PROGRESS"),
            Bind::Text(record.created_by_subject.clone()),
            Bind::OptText(copied(&record.created_by_client_id)),
            Bind::OptId(record.actor_provider_id),
            Bind::OptId(record.actor_user_id),
            Bind::Text(record.correlation_id.clone()),
            Bind::Text(record.request_id.clone()),
        ),
    )?;
    insertion(reply)
}

/// Completes the record in progress under an operation type and a key.
pub open spec fn complete_idempotency_record_spec(
    st: RunView,
    operation_type: String,
    idempotency_key: String,
    resource_type: &'static str,
    resource_id: Uuid,
    response_snapshot: Snapshot,
) -> (Result<(), HaltView>, RunView) {
    match script::execute_count_spec(
        st,
        IDEMPOTENCY_COMPLETE_SQL@,
        seq![
            Bind::Label(resource_type),
            Bind::Id(resource_id),
            response_snapshot.as_bind(),
            Bind::Text(operation_type),
            Bind::Text(idempotency_key),
        ],
        "failed to complete idempotency record"@,
        "failed to read idempotency completion row count"@,
    ) { (Err(h), st) => (Err(h), st), (Ok(updated), st) =>
    if updated == 0 {
        (script::query_fault("idempotency record was not found for completion"@), st)
    } else {
    (Ok(()), st)
    }}
}

/// Completes the record in progress under an operation type and a key.
pub fn complete_idempotency_record(
    s: &mut Session,
    operation_type: &String,
    idempotency_key: &String,
    resource_type: &'static str,
    resource_id: Uuid,
    response_snapshot: Snapshot,
) -> (r: Result<(), Halt>)
    ensures
        (script::seen(r), final(s)@) == complete_idempotency_record_spec(
            old(s)@,
            *operation_type,
            *idempotency_key,
            resource_type,
            resource_id,
            response_snapshot,
        ),
{
    let updated: u64 = script::execute_count(
        s,
        IDEMPOTENCY_COMPLETE_SQL,
        binds::binds5(
            Bind::Label(resource_type),
            Bind::Id(resource_id),
            response_snapshot.bind(),
            Bind::Text(operation_type.clone()),
            Bind::Text(idempotency_key.clone()),
        ),
        "failed to complete idempotency record",
        "failed to read idempotency completion row count",
    )?;
    if updated == 0 {
        return Err(script::fail_query("idempotency record was not found for completion"));
    }
    Ok(())
}

/// What a stored record means for a command that comes again.
pub enum IdempotencyVerdict {
    /// The key was used for another request.
    Conflict,
    /// The command was done; this is its stored answer.
    Replay(String),
    /// The command is being done.
    InProgress,
    /// The record does not say.
    InvalidState,
}

/// What a stored record means for a command with this request hash.
pub open spec fn idempotency_verdict(
    record: IdempotencyRecord,
    request_hash: String,
) -> IdempotencyVerdict {
    if record.request_hash@ != request_hash@ {
        IdempotencyVerdict::Conflict
    } else {
        match record.status {
            IdempotencyStatus::Completed => match record.response_snapshot {
                Some(snapshot) => IdempotencyVerdict::Replay(snapshot),
                None => IdempotencyVerdict::InvalidState,
            },
            IdempotencyStatus::InProgress => IdempotencyVerdict::InProgress,
            _ => IdempotencyVerdict::InvalidState,
        }
    }
}

/// What a stored record means for a command with this request hash.
pub fn judge_idempotency(
    record: &IdempotencyRecord,
    request_hash: &String,
) -> (r: IdempotencyVerdict)
    ensures
        r == idempotency_verdict(*record, *request_hash),
{
    if !text::same_text(record.request_hash.as_str(), request_hash.as_str()) {
        return IdempotencyVerdict::Conflict;
    }
    match record.status {
        IdempotencyStatus::Completed => match &record.response_snapshot {
            Some(snapshot) => IdempotencyVerdict::Replay(snapshot.clone()),
            None => IdempotencyVerdict::InvalidState,
        },
        IdempotencyStatus::InProgress => IdempotencyVerdict::InProgress,
        _ => IdempotencyVerdict::InvalidState,
    }
}

/// A command that was completed with an answer gets that answer again, and only for the same
/// request.
pub proof fn completed_command_is_replayed(record: IdempotencyRecord, request_hash: String)
    requires
        record.status == IdempotencyStatus::Completed,
        record.response_snapshot is Some,
    ensures
        record.request_hash@ == request_hash@ ==> idempotency_verdict(record, request_hash)
            == IdempotencyVerdict::Replay(record.response_snapshot->Some_0),
        record.request_hash@ != request_hash@ ==> idempotency_verdict(record, request_hash)
            == IdempotencyVerdict::Conflict,
{
}

/// The record under an operation type and a key, where there is one.
pub open spec fn get_idempotency_record_spec(
    st: RunView,
    operation_type: String,
    idempotency_key: String,
) -> (Result<Option<IdempotencyRecord>, HaltView>, RunView) {
    fetch_idempotency_record_spec(st, operation_type, idempotency_key)
}

impl OracleRepository {
    /// The record under an operation type and a key, where there is one.
    pub fn get_idempotency_record(
        s: &mut Session,
        operation_type: &String,
        idempotency_key: &String,
    ) -> (r: Result<Option<IdempotencyRecord>, Halt>)
        ensures
            (script::seen(r), final(s)@) == get_idempotency_record_spec(
                old(s)@,
                *operation_type,
                *idempotency_key,
            ),
    {
        fetch_idempotency_record(s, operation_type, idempotency_key)
    }
}

/// Stores a record in progress.
pub open spec fn create_idempotency_record_spec(
    st: RunView,
    record: NewIdempotencyRecord,
) -> (Result<(), HaltView>, RunView) {
    insert_idempotency_record_spec(st, record)
}

impl OracleRepository {
    /// Stores a record in progress.
    pub fn create_idempotency_record(
        s: &mut Session,
        record: &NewIdempotencyRecord,
    ) -> (r: Result<(), Halt>)
        ensures
            (script::seen(r), final(s)@) == create_idempotency_record_spec(old(s)@, *record),
    {
        insert_idempotency_record(s, record)
    }
}

/// Completes the record in progress under an operation type and a key.
pub open spec fn complete_idempotency_record_command_spec(
    st: RunView,
    operation_type: String,
    idempotency_key: String,
    resource_type: &'static str,
    resource_id: Uuid,
    response_snapshot: String,
) -> (Result<(), HaltView>, RunView) {
    complete_idempotency_record_spec(
        st,
        operation_type,
        idempotency_key,
        resource_type,
        resource_id,
        Snapshot::Text(response_snapshot),
    )
}

impl OracleRepository {
    /// Completes the record in progress under an operation type and a key.
    pub fn complete_idempotency_record(
        s: &mut Session,
        operation_type: &String,
        idempotency_key: &String,
        resource_type: &'static str,
        resource_id: Uuid,
        response_snapshot: &String,
    ) -> (r: Result<(), Halt>)
        ensures
            (script::seen(r), final(s)@) == complete_idempotency_record_command_spec(
                old(s)@,
                *operation_type,
                *idempotency_key,
                resource_type,
                resource_id,
                *response_snapshot,
            ),
    {
        complete_idempotency_record(
            s,
            operation_type,
            idempotency_key,
            resource_type,
            resource_id,
            Snapshot::Text(response_snapshot.clone()),
        )
    }
}

/// What a record means follows from its request, its status and its answer: another request
/// conflicts, a command under way is in progress, one with an answer is replayed, and any other
/// record is no answer.
pub proof fn record_is_judged_by_request_and_status(record: IdempotencyRecord, request_hash: String)
    ensures
        ({
            let verdict = idempotency_verdict(record, request_hash);
            let same = record.request_hash@ == request_hash@;
            &&& verdict is Conflict <==> !same
            &&& verdict is InProgress <==> same && record.status is InProgress
            &&& verdict is Replay <==> same && record.status is Completed
                && record.response_snapshot is Some
            &&& verdict matches IdempotencyVerdict::Replay(answer) ==> record.response_snapshot
                == Some(answer)
        }),
{
}

/// A record is looked for by its operation type and key. It is none exactly where the reply says
/// that there is no row.
pub proof fn record_is_looked_for_by_type_and_key(
    st: RunView,
    operation_type: String,
    idempotency_key: String,
)
    requires
        st.rest.len() > 0,
    ensures
        ({
            let (found, after) = fetch_idempotency_record_spec(st, operation_type, idempotency_key);
            &&& after.log.len() == st.log.len() + 1
            &&& after.log.last() matches script::CallView::Sql { sql, binds, .. }
            &&& sql == IDEMPOTENCY_SELECT_SQL@
            &&& binds == seq![Bind::Text(operation_type), Bind::Text(idempotency_key)]
        }),
{
}

/// A record is completed only where one was in progress under the type and key.
pub proof fn completed_record_was_there(
    st: RunView,
    operation_type: String,
    idempotency_key: String,
    resource_type: &'static str,
    resource_id: Uuid,
    response_snapshot: Snapshot,
)
    ensures
        ({
            let ended = complete_idempotency_record_spec(
                st,
                operation_type,
                idempotency_key,
                resource_type,
                resource_id,
                response_snapshot,
            ).0;
            ended is Ok <==> (st.rest.len() > 0 && (st.rest[0] matches script::Reply::Executed(
                Ok(count),
            ) && count > 0))
        }),
{
}

/// A record is stored where the statement ran, is in conflict where one is there, and fails
/// otherwise.
pub proof fn second_record_is_a_conflict(reply: Reply)
    ensures
        insertion_result(reply) is Ok <==> reply is Executed,
        (reply matches Reply::Failed(f) && transaction::is_unique_violation(f.text@))
            ==> insertion_result(reply) == script::conflict_fault::<()>(
            "idempotency record already exists"@,
        ),
{
}

/// Each value is read from its own column: the record that a row holds.
#[verifier::rlimit(60)]
pub proof fn map_idempotency_row_is_read_by_column(
    row: Row,
)
    ensures
        map_idempotency_row_spec(row) matches Ok(read) ==> {
            &&& read.idempotency_record_id == row.id_at(0, READ@)->Ok_0
            &&& read.operation_type == row.text_at(1, READ@)->Ok_0
            &&& read.idempotency_key == row.text_at(2, READ@)->Ok_0
            &&& read.request_hash == row.text_at(3, READ@)->Ok_0
            &&& read.status == (IdempotencyStatus::of_code(row.text_at(4, READ@)->Ok_0@))->Some_0
            &&& read.resource_type == row.opt_text_at(5, READ@)->Ok_0
            &&& read.resource_id == script::opt_id_of(row.opt_raw_at(6, READ@)->Ok_0)->Ok_0
            &&& read.response_snapshot == row.opt_text_at(7, READ@)->Ok_0
            &&& read.error_snapshot == row.opt_text_at(8, READ@)->Ok_0
            &&& read.created_by_subject == row.text_at(9, READ@)->Ok_0
            &&& read.created_by_client_id == row.opt_text_at(10, READ@)->Ok_0
            &&& read.actor_provider_id == script::opt_id_of(row.opt_raw_at(11, READ@)->Ok_0)->Ok_0
            &&& read.actor_user_id == script::opt_id_of(row.opt_raw_at(12, READ@)->Ok_0)->Ok_0
            &&& read.correlation_id == row.text_at(13, READ@)->Ok_0
            &&& read.request_id == row.text_at(14, READ@)->Ok_0
            &&& read.created_at == utc_of(row.text_at(15, READ@)->Ok_0@)->Ok_0
            &&& read.updated_at == utc_of(row.text_at(16, READ@)->Ok_0@)->Ok_0
            &&& read.completed_at == opt_utc_of(row.opt_text_at(17, READ@)->Ok_0)->Ok_0
        },
{
    reveal(map_idempotency_row_spec);
}

/// What is asked first, and with which values, in a run that does this:
/// the record under an operation type and a key, where there is one.
pub proof fn fetch_idempotency_record_asks_first(
    st: RunView,
    operation_type: String,
    idempotency_key: String,
)
    requires
        st.rest.len() == 0,
    ensures
        fetch_idempotency_record_spec(
            st,
            operation_type,
            idempotency_key,
        ).0 matches Err(HaltView::Ask(asked))
            && (
                asked matches script::CallView::Sql { sql, binds, .. }
                    && sql == IDEMPOTENCY_SELECT_SQL@
                    && binds == seq![Bind::Text(operation_type), Bind::Text(idempotency_key)]
            ),
{
}

/// What is asked first, and with which values, in a run that does this:
/// stores a record in progress for a command that begins.
pub proof fn insert_idempotency_record_asks_first(
    st: RunView,
    record: NewIdempotencyRecord,
)
    requires
        st.rest.len() == 0,
    ensures
        insert_idempotency_record_spec(st, record).0 matches Err(HaltView::Ask(asked))
            && (
                asked matches script::CallView::Sql { sql, binds, .. }
                    && sql == IDEMPOTENCY_INSERT_SQL@
                    && binds == seq![
                        Bind::Id(record.idempotency_record_id),
                        Bind::Text(record.operation_type),
                        Bind::Text(record.idempotency_key),
                        Bind::Text(record.request_hash),
                        Bind::Label("IN_PROGRESS"),
                        Bind::Text(record.created_by_subject),
                        Bind::OptText(record.created_by_client_id),
                        Bind::OptId(record.actor_provider_id),
                        Bind::OptId(record.actor_user_id),
                        Bind::Text(record.correlation_id),
                        Bind::Text(record.request_id),
                    ]
            ),
{
}

/// What the database is told, and with which values, where a run succeeds that does this:
/// stores a record in progress for a command that begins.
#[verifier::rlimit(60)]
pub proof fn insert_idempotency_record_is_told(
    st: RunView,
    record: NewIdempotencyRecord,
)
    ensures
        ({
            let (ended, after) = insert_idempotency_record_spec(st, record);
            let log = after.log;
            ended is Ok ==> {
                &&& script::ran(
                    log,
                    IDEMPOTENCY_INSERT_SQL@,
                    seq![
                        Bind::Id(record.idempotency_record_id),
                        Bind::Text(record.operation_type),
                        Bind::Text(record.idempotency_key),
                        Bind::Text(record.request_hash),
                        Bind::Label("IN_PROGRESS"),
                        Bind::Text(record.created_by_subject),
                        Bind::OptText(record.created_by_client_id),
                        Bind::OptId(record.actor_provider_id),
                        Bind::OptId(record.actor_user_id),
                        Bind::Text(record.correlation_id),
                        Bind::Text(record.request_id),
                    ],
                )
            }
        }),
{
    broadcast use {script::runs_on_with_another, script::told_where_with_another};

}

/// What is asked first, and with which values, in a run that does this:
/// completes the record in progress under an operation type and a key.
pub proof fn complete_idempotency_record_asks_first(
    st: RunView,
    operation_type: String,
    idempotency_key: String,
    resource_type: &'static str,
    resource_id: Uuid,
    response_snapshot: Snapshot,
)
    requires
        st.rest.len() == 0,
    ensures
        complete_idempotency_record_spec(
            st,
            operation_type,
            idempotency_key,
            resource_type,
            resource_id,
            response_snapshot,
        ).0 matches Err(HaltView::Ask(asked))
            && (
                asked matches script::CallView::Sql { sql, binds, .. }
                    && sql == IDEMPOTENCY_COMPLETE_SQL@
                    && binds == seq![
                        Bind::Label(resource_type),
                        Bind::Id(resource_id),
                        response_snapshot.as_bind(),
                        Bind::Text(operation_type),
                        Bind::Text(idempotency_key),
                    ]
            ),
{
}

/// What the database is told, and with which values, where a run succeeds that does this:
/// completes the record in progress under an operation type and a key.
#[verifier::rlimit(60)]
pub proof fn complete_idempotency_record_is_told(
    st: RunView,
    operation_type: String,
    idempotency_key: String,
    resource_type: &'static str,
    resource_id: Uuid,
    response_snapshot: Snapshot,
)
    ensures
        ({
            let (ended, after) = complete_idempotency_record_spec(
                st,
                operation_type,
                idempotency_key,
                resource_type,
                resource_id,
                response_snapshot,
            );
            let log = after.log;
            ended is Ok ==> {
                &&& script::ran(
                    log,
                    IDEMPOTENCY_COMPLETE_SQL@,
                    seq![
                        Bind::Label(resource_type),
                        Bind::Id(resource_id),
                        response_snapshot.as_bind(),
                        Bind::Text(operation_type),
                        Bind::Text(idempotency_key),
                    ],
                )
            }
        }),
{
    broadcast use {script::runs_on_with_another, script::told_where_with_another};

}

} // verus!
