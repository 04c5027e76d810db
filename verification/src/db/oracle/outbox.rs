//! The outbox of integration events.
use vstd::prelude::*;
use crate::db::oracle::binds;
use crate::db::oracle::consult::{Answer, DocumentKind, Rule};
use crate::db::oracle::repository::OracleRepository;
use crate::db::oracle::script;
use crate::db::oracle::script::{Bind, Halt, HaltView, Row, RunView, Session};
use crate::json;
use crate::text;
use crate::uuid;
use crate::uuid::Uuid;

verus! {

/// Stores an integration operation.
pub const OPERATION_INSERT_SQL: &'static str = "INSERT INTO integration_operations (operation_id,operation_type,aggregate_type,aggregate_id,status,event_count,published_event_count) VALUES (:1,:2,:3,:4,'PENDING',:5,0)";

/// Marks an integration operation as materialized.
pub const OPERATION_MATERIALIZED_SQL: &'static str = "UPDATE integration_operations SET status='MATERIALIZED',materialized_at=SYSTIMESTAMP,updated_at=SYSTIMESTAMP,completed_at=SYSTIMESTAMP,safe_error_code=NULL WHERE operation_id=:1 AND status IN ('PENDING','PUBLISHING','PUBLISHED','MATERIALIZED')";

/// Creates the durable parent for one or more ordered integration events.
///
/// It belongs in the same transaction as the business change and the events: that an event was
/// published is never proof that the change was committed.
pub open spec fn insert_integration_operation_spec(
    st: RunView,
    operation_id: Uuid,
    operation_type: &'static str,
    aggregate_type: &'static str,
    aggregate_id: Uuid,
    event_count: u32,
) -> (Result<(), HaltView>, RunView) {
    match script::execute_spec(
        st,
        OPERATION_INSERT_SQL@,
        seq![
            Bind::Id(operation_id),
            Bind::Label(operation_type),
            Bind::Label(aggregate_type),
            Bind::Id(aggregate_id),
            Bind::Int(event_count as i64),
        ],
        "failed to insert integration operation"@,
    ) { (Err(h), st) => (Err(h), st), (Ok(_), st) =>
    (Ok(()), st)
    }
}

/// Creates the durable parent for one or more ordered integration events.
///
/// It belongs in the same transaction as the business change and the events: that an event was
/// published is never proof that the change was committed.
pub fn insert_integration_operation(
    s: &mut Session,
    operation_id: Uuid,
    operation_type: &'static str,
    aggregate_type: &'static str,
    aggregate_id: Uuid,
    event_count: u32,
) -> (r: Result<(), Halt>)
    ensures
        (script::seen(r), final(s)@) == insert_integration_operation_spec(
            old(s)@,
            operation_id,
            operation_type,
            aggregate_type,
            aggregate_id,
            event_count,
        ),
{
    script::execute(
        s,
        OPERATION_INSERT_SQL,
        binds::binds5(
            Bind::Id(operation_id),
            Bind::Label(operation_type),
            Bind::Label(aggregate_type),
            Bind::Id(aggregate_id),
            Bind::Int(event_count as i64),
        ),
        "failed to insert integration operation",
    )?;
    Ok(())
}

/// Marks an integration operation as materialized, unless it is past that.
pub open spec fn mark_integration_operation_materialized_spec(
    st: RunView,
    operation_id: Uuid,
) -> (Result<(), HaltView>, RunView) {
    match script::execute_count_spec(
        st,
        OPERATION_MATERIALIZED_SQL@,
        seq![Bind::Id(operation_id)],
        "failed to materialize integration operation"@,
        "failed to inspect operation materialization"@,
    ) { (Err(h), st) => (Err(h), st), (Ok(touched), st) =>
    if touched != 1 {
        (script::conflict_fault("integration operation cannot accept materialization"@), st)
    } else {
    (Ok(()), st)
    }}
}

/// Marks an integration operation as materialized, unless it is past that.
pub fn mark_integration_operation_materialized(
    s: &mut Session,
    operation_id: Uuid,
) -> (r: Result<(), Halt>)
    ensures
        (script::seen(r), final(s)@) == mark_integration_operation_materialized_spec(
            old(s)@,
            operation_id,
        ),
{
    let touched = script::execute_count(
        s,
        OPERATION_MATERIALIZED_SQL,
        binds::binds1(Bind::Id(operation_id)),
        "failed to materialize integration operation",
        "failed to inspect operation materialization",
    )?;
    if touched != 1 {
        return Err(script::fail_conflict("integration operation cannot accept materialization"));
    }
    Ok(())
}

/// Releases the events whose lease ran out.
pub const RECOVER_LEASES_SQL: &'static str = "UPDATE integration_outbox SET status = 'PENDING', locked_by = NULL, locked_until = NULL, updated_at = SYSTIMESTAMP WHERE status = 'PUBLISHING' AND locked_until < SYSTIMESTAMP";

/// Locks and reads the events that are due, oldest first.
pub const CLAIM_SELECT_SQL: &'static str = r#"
    SELECT o.outbox_event_id, o.operation_id, o.event_type, o.aggregate_type,
           o.aggregate_id, o.partition_key,
           JSON_SERIALIZE(o.payload_json RETURNING CLOB) AS payload_json,
           JSON_SERIALIZE(o.headers_json RETURNING CLOB) AS headers_json,
           o.attempt_count, o.schema_version, o.delivery_channel,
           o.provider_id, k.topic_name
    FROM integration_outbox o
    LEFT JOIN provider_kafka_access k
      ON k.provider_id = o.provider_id
     AND k.credential_status = 'ACTIVE'
    WHERE o.status = 'PENDING'
      AND (o.next_attempt_at IS NULL OR o.next_attempt_at <= SYSTIMESTAMP)
      AND (o.delivery_channel = 'INTERNAL' OR k.topic_name IS NOT NULL)
    ORDER BY o.created_at, o.outbox_event_id
    FOR UPDATE SKIP LOCKED
    "#;

/// The statement that locks and reads the events that are due.
pub fn outbox_claim_select_sql() -> (r: &'static str)
    ensures
        r == CLAIM_SELECT_SQL,
{
    CLAIM_SELECT_SQL
}

/// Leases an event to a worker.
pub const LEASE_SQL: &'static str = "UPDATE integration_outbox SET status = 'PUBLISHING', attempt_count = attempt_count + 1, locked_by = :1, locked_until = SYSTIMESTAMP + NUMTODSINTERVAL(:2 / 1000, 'SECOND'), updated_at = SYSTIMESTAMP WHERE outbox_event_id = :3";

/// Marks the operation behind an event as being published.
pub const OPERATION_PUBLISHING_SQL: &'static str = "UPDATE integration_operations SET status=CASE WHEN status='PENDING' THEN 'PUBLISHING' ELSE status END,updated_at=SYSTIMESTAMP WHERE operation_id=:1";

/// Marks a leased event as published.
pub const PUBLISHED_SQL: &'static str = "UPDATE integration_outbox SET status = 'PUBLISHED', published_at = SYSTIMESTAMP, locked_by = NULL, locked_until = NULL, dead_letter_reason = NULL, updated_at = SYSTIMESTAMP WHERE outbox_event_id = :1 AND status = 'PUBLISHING' AND locked_by = :2";

/// Counts the published events of an operation.
pub const OPERATION_PUBLISHED_SQL: &'static str = "UPDATE integration_operations SET published_event_count=(SELECT COUNT(*) FROM integration_outbox WHERE operation_id=integration_operations.operation_id AND status IN ('PUBLISHED','SUPPRESSED')),status=CASE WHEN status='MATERIALIZED' THEN 'MATERIALIZED' WHEN event_count=(SELECT COUNT(*) FROM integration_outbox WHERE operation_id=integration_operations.operation_id AND status IN ('PUBLISHED','SUPPRESSED')) THEN 'PUBLISHED' ELSE 'PUBLISHING' END,updated_at=SYSTIMESTAMP WHERE operation_id=(SELECT operation_id FROM integration_outbox WHERE outbox_event_id=:1)";

/// Gives a leased event up.
pub const DEAD_LETTER_SQL: &'static str = "UPDATE integration_outbox SET status='DEAD_LETTER', next_attempt_at=NULL, locked_by=NULL, locked_until=NULL, dead_letter_reason='KAFKA_DELIVERY_ATTEMPTS_EXHAUSTED', updated_at=SYSTIMESTAMP WHERE outbox_event_id=:1 AND status='PUBLISHING' AND locked_by=:2";

/// Puts a leased event off.
pub const RETRY_SQL: &'static str = "UPDATE integration_outbox SET status='PENDING', next_attempt_at=SYSTIMESTAMP + NUMTODSINTERVAL(:1 / 1000, 'SECOND'), locked_by=NULL, locked_until=NULL, dead_letter_reason=NULL, updated_at=SYSTIMESTAMP WHERE outbox_event_id=:2 AND status='PUBLISHING' AND locked_by=:3";

/// Gives the operation behind an event up, unless it is materialized.
pub const OPERATION_DEAD_LETTER_SQL: &'static str = "UPDATE integration_operations SET status=CASE WHEN status='MATERIALIZED' THEN status ELSE 'DEAD_LETTER' END,safe_error_code=CASE WHEN status='MATERIALIZED' THEN safe_error_code ELSE 'KAFKA_DELIVERY_ATTEMPTS_EXHAUSTED' END,updated_at=SYSTIMESTAMP WHERE operation_id=(SELECT operation_id FROM integration_outbox WHERE outbox_event_id=:1)";

/// The context of a column that cannot be read.
pub const ROW: &'static str = "failed to map outbox event";

/// What the envelope of an internal event says of it.
#[derive(Debug)]
pub struct EnvelopeKeys {
    pub event_id: Uuid,
    pub operation_id: Uuid,
    pub event_type: String,
    pub aggregate_type: String,
    pub aggregate_id: Uuid,
}

/// What the columns of the outbox say of an event.
#[derive(Debug)]
pub struct IndexedEvent {
    pub event_id: Uuid,
    pub operation_id: Uuid,
    pub event_type: String,
    pub schema_version: u16,
    pub aggregate_type: String,
    pub aggregate_id: Uuid,
}

/// To whom an event goes: to this platform's own services, or to a provider on its topic.
#[derive(Debug)]
pub enum ClaimedOutboxDelivery {
    Internal,
    Provider { provider_id: Uuid, topic: String },
}

/// An event that was leased to a worker. `payload` and `headers` are JSON documents.
#[derive(Debug)]
pub struct ClaimedOutboxEvent {
    pub event_id: Uuid,
    pub operation_id: Uuid,
    pub event_type: String,
    pub schema_version: u16,
    pub delivery: ClaimedOutboxDelivery,
    pub payload: String,
    pub headers: Option<String>,
    pub partition_key: String,
    pub attempt_count: u32,
}

/// The envelope of an internal event names the event that its columns name.
pub open spec fn envelope_matches_spec(envelope: EnvelopeKeys, event: IndexedEvent) -> bool {
    &&& envelope.event_id == event.event_id
    &&& envelope.operation_id == event.operation_id
    &&& envelope.event_type@ == event.event_type@
    &&& envelope.aggregate_type@ == event.aggregate_type@
    &&& envelope.aggregate_id == event.aggregate_id
}

/// Whether the envelope of an internal event names the event that its columns name.
pub fn envelope_matches(envelope: &EnvelopeKeys, event: &IndexedEvent) -> (r: bool)
    ensures
        r == envelope_matches_spec(*envelope, *event),
{
    envelope.event_id == event.event_id && envelope.operation_id == event.operation_id
        && text::same_text(envelope.event_type.as_str(), event.event_type.as_str())
        && text::same_text(envelope.aggregate_type.as_str(), event.aggregate_type.as_str())
        && envelope.aggregate_id == event.aggregate_id
}

/// The members of a provider event name the event and the provider that its columns name.
pub open spec fn provider_payload_matches_spec(
    payload: Seq<char>,
    event: IndexedEvent,
    provider_id: Uuid,
) -> bool {
    &&& json::json_text_member(payload, "event_id"@) == Some(uuid::hyphenated_text(event.event_id))
    &&& json::json_text_member(payload, "event_type"@) == Some(event.event_type@)
    &&& json::json_unsigned_member(payload, "schema_version"@) == Some(event.schema_version as u64)
    &&& json::json_text_member(payload, "provider_id"@) == Some(uuid::hyphenated_text(provider_id))
}

/// Whether the members of a provider event name the event and the provider that its columns name.
pub fn provider_payload_matches(payload: &str, event: &IndexedEvent, provider_id: Uuid) -> (r: bool)
    ensures
        r == provider_payload_matches_spec(payload@, *event, provider_id),
{
    let event_id = event.event_id.to_text();
    let provider = provider_id.to_text();
    text::is_some_text(&json::text_member(payload, "event_id"), event_id.as_str())
        && text::is_some_text(&json::text_member(payload, "event_type"), event.event_type.as_str())
        && json::unsigned_member(payload, "schema_version") == Some(event.schema_version as u64)
        && text::is_some_text(&json::text_member(payload, "provider_id"), provider.as_str())
}

/// A stored number of attempts, as far as it can be counted.
pub open spec fn attempts_of(stored: i64) -> u32 {
    if 0 <= stored <= u32::MAX {
        stored as u32
    } else {
        u32::MAX
    }
}

/// A stored number of attempts, as far as it can be counted.
pub fn to_attempts(stored: i64) -> (r: u32)
    ensures
        r == attempts_of(stored),
{
    if 0 <= stored && stored <= u32::MAX as i64 {
        stored as u32
    } else {
        u32::MAX
    }
}

/// One attempt more, as far as it can be counted.
pub open spec fn one_more(attempts: u32) -> u32 {
    if attempts == u32::MAX {
        u32::MAX
    } else {
        (attempts + 1) as u32
    }
}

/// Makes sure that an internal event is what its columns say.
pub open spec fn check_envelope_spec(
    st: RunView,
    payload: String,
    event: IndexedEvent,
) -> (Result<(), HaltView>, RunView) {
    match script::consult_spec(
        st,
        Rule::InternalEnvelope(payload),
    ) { (Err(h), st) => (Err(h), st), (Ok(answer), st) =>
    match answer {
        Answer::Envelope(Some(envelope)) => {
            if !envelope_matches_spec(envelope, event) {
                (
                    script::query_fault(
                        "stored internal outbox envelope does not match indexed event columns"@,
                    ),
                    st,
                )
            } else {
            (Ok(()), st)
            }
        },
        Answer::Envelope(None) => {
            (script::query_fault("stored outbox payload violates the internal event contract"@), st)
        },
        _ => {
            (script::query_fault(script::UNEXPECTED_REPLY@), st)
        },
    }
    }
}

/// Makes sure that an internal event is what its columns say.
pub fn check_envelope(
    s: &mut Session,
    payload: &String,
    event: &IndexedEvent,
) -> (r: Result<(), Halt>)
    ensures
        (script::seen(r), final(s)@) == check_envelope_spec(old(s)@, *payload, *event),
{
    let answer = script::consult(s, Rule::InternalEnvelope(payload.clone()))?;
    match answer {
        Answer::Envelope(Some(envelope)) => {
            if !envelope_matches(envelope, event) {
                return Err(script::fail_query(
                    "stored internal outbox envelope does not match indexed event columns",
                ));
            }
            return Ok(());
        },
        Answer::Envelope(None) => {
            return Err(script::fail_query(
                "stored outbox payload violates the internal event contract",
            ));
        },
        _ => {
            return Err(script::fail_query(script::UNEXPECTED_REPLY));
        },
    }
}

/// To which provider and topic an event goes, where it is what its columns say.
pub open spec fn provider_delivery_spec(
    row: Row,
    payload: String,
    event: IndexedEvent,
) -> Result<ClaimedOutboxDelivery, HaltView> {
    match row.opt_raw_at(11, ROW@) { Err(h) => Err(h), Ok(provider_raw) =>
    match row.opt_text_at(12, ROW@) { Err(h) => Err(h), Ok(topic_name) =>
    match script::opt_id_of(provider_raw) { Err(h) => Err(h), Ok(named) =>
    match named {
    None => {
        script::query_fault("provider outbox event has no provider identity"@)
    },
    Some(provider_id) =>
    match topic_name {
    None => {
        script::conflict_fault("provider Kafka access is not active"@)
    },
    Some(topic) =>
    if !provider_payload_matches_spec(payload@, event, provider_id) {
        script::query_fault("stored provider outbox envelope does not match indexed event columns"@)
    } else {
    Ok(ClaimedOutboxDelivery::Provider { provider_id, topic })
    }}}}}}
}

/// To which provider and topic an event goes, where it is what its columns say.
pub fn provider_delivery(
    row: &Row,
    payload: &String,
    event: &IndexedEvent,
) -> (r: Result<ClaimedOutboxDelivery, Halt>)
    ensures
        script::seen(r) == provider_delivery_spec(*row, *payload, *event),
{
    let provider_raw = row.opt_raw(11, ROW)?;
    let topic_name = row.opt_text(12, ROW)?;
    let named = script::to_opt_id(provider_raw)?;
    let provider_id = match named {
        Some(v) => v,
        None => {
            return Err(script::fail_query("provider outbox event has no provider identity"));
        },
    };
    let topic = match topic_name {
        Some(v) => v,
        None => {
            return Err(script::fail_conflict("provider Kafka access is not active"));
        },
    };
    if !provider_payload_matches(payload.as_str(), event, provider_id) {
        return Err(script::fail_query(
            "stored provider outbox envelope does not match indexed event columns",
        ));
    }
    Ok(ClaimedOutboxDelivery::Provider { provider_id, topic })
}

/// To whom an event goes.
pub open spec fn map_delivery_spec(
    st: RunView,
    row: Row,
    channel: String,
    payload: String,
    event: IndexedEvent,
) -> (Result<ClaimedOutboxDelivery, HaltView>, RunView) {
    if channel@ == "INTERNAL"@ {
        match check_envelope_spec(st, payload, event) { (Err(h), st) => (Err(h), st), (Ok(_), st) =>
        (Ok(ClaimedOutboxDelivery::Internal), st)
        }
    } else {
    if channel@ == "PROVIDER"@ {
        (provider_delivery_spec(row, payload, event), st)
    } else {
    (script::query_fault("stored outbox delivery channel is invalid"@), st)
    }}
}

/// To whom an event goes.
pub fn map_delivery(
    s: &mut Session,
    row: &Row,
    channel: &String,
    payload: &String,
    event: &IndexedEvent,
) -> (r: Result<ClaimedOutboxDelivery, Halt>)
    ensures
        (script::seen(r), final(s)@) == map_delivery_spec(
            old(s)@,
            *row,
            *channel,
            *payload,
            *event,
        ),
{
    if text::same_text(channel.as_str(), "INTERNAL") {
        check_envelope(s, payload, event)?;
        return Ok(ClaimedOutboxDelivery::Internal);
    }
    if text::same_text(channel.as_str(), "PROVIDER") {
        return provider_delivery(row, payload, event);
    }
    Err(script::fail_query("stored outbox delivery channel is invalid"))
}

/// Makes sure that stored headers are what headers are to be.
pub open spec fn check_headers_spec(
    st: RunView,
    headers: Option<String>,
) -> (Result<(), HaltView>, RunView) {
    if let Some(stored) = headers {
        match script::verdict_spec(
            st,
            Rule::Document(DocumentKind::EventHeaders, stored),
        ) { (Err(h), st) => (Err(h), st), (Ok(fault), st) =>
        if fault is Some {
            (script::query_fault("stored outbox headers violate the internal event contract"@), st)
        } else {
        (Ok(()), st)
        }}
    } else {
    (Ok(()), st)
    }
}

/// Makes sure that stored headers are what headers are to be.
pub fn check_headers(s: &mut Session, headers: &Option<String>) -> (r: Result<(), Halt>)
    ensures
        (script::seen(r), final(s)@) == check_headers_spec(old(s)@, *headers),
{
    if let Some(stored) = headers {
        let fault = script::verdict(s, Rule::Document(DocumentKind::EventHeaders, stored.clone()))?;
        if fault.is_some() {
            return Err(script::fail_query(
                "stored outbox headers violate the internal event contract",
            ));
        }
        return Ok(());
    }
    Ok(())
}

/// The event that a row holds, where its payload is what its columns say.
pub open spec fn map_outbox_event_spec(
    st: RunView,
    row: Row,
) -> (Result<ClaimedOutboxEvent, HaltView>, RunView) {
    match row.raw_at(0, ROW@) { Err(h) => (Err(h), st), Ok(event_raw) =>
    match row.raw_at(1, ROW@) { Err(h) => (Err(h), st), Ok(operation_raw) =>
    match script::id_of(event_raw@) { Err(h) => (Err(h), st), Ok(event_id) =>
    match script::id_of(operation_raw@) { Err(h) => (Err(h), st), Ok(operation_id) =>
    match row.text_at(2, ROW@) { Err(h) => (Err(h), st), Ok(event_type) =>
    match row.text_at(3, ROW@) { Err(h) => (Err(h), st), Ok(aggregate_type) =>
    match row.raw_at(4, ROW@) { Err(h) => (Err(h), st), Ok(aggregate_raw) =>
    match script::id_of(aggregate_raw@) { Err(h) => (Err(h), st), Ok(aggregate_id) =>
    match row.text_at(5, ROW@) { Err(h) => (Err(h), st), Ok(partition_key) =>
    match row.text_at(6, ROW@) { Err(h) => (Err(h), st), Ok(payload) =>
    match row.opt_text_at(7, ROW@) { Err(h) => (Err(h), st), Ok(headers) =>
    match row.int_at(8, ROW@) { Err(h) => (Err(h), st), Ok(attempts) =>
    match row.int_at(9, ROW@) { Err(h) => (Err(h), st), Ok(stored_version) =>
    if stored_version < 0 || stored_version > u16::MAX {
        (script::query_fault("stored outbox schema version is invalid"@), st)
    } else {
    match row.text_at(10, ROW@) { Err(h) => (Err(h), st), Ok(channel) =>
    if json::json_reading_fault(payload@) is Some {
        (script::query_fault("stored outbox payload is invalid JSON"@), st)
    } else {
    { let event = IndexedEvent {
        event_id,
        operation_id,
        event_type,
        schema_version: stored_version as u16,
        aggregate_type,
        aggregate_id,
    };
    match map_delivery_spec(
        st,
        row,
        channel,
        payload,
        event,
    ) { (Err(h), st) => (Err(h), st), (Ok(delivery), st) =>
    match check_headers_spec(st, headers) { (Err(h), st) => (Err(h), st), (Ok(_), st) =>
    (
        Ok(ClaimedOutboxEvent {
            event_id,
            operation_id,
            event_type: event.event_type,
            schema_version: event.schema_version,
            delivery,
            payload,
            headers,
            partition_key,
            attempt_count: attempts_of(attempts),
        }),
        st,
    )
    }}}}}}}}}}}}}}}}}}}
}

/// The event that a row holds, where its payload is what its columns say.
pub fn map_outbox_event(s: &mut Session, row: &Row) -> (r: Result<ClaimedOutboxEvent, Halt>)
    ensures
        (script::seen(r), final(s)@) == map_outbox_event_spec(old(s)@, *row),
{
    let event_raw = row.raw(0, ROW)?;
    let operation_raw = row.raw(1, ROW)?;
    let event_id = script::to_id(event_raw)?;
    let operation_id = script::to_id(operation_raw)?;
    let event_type = row.text(2, ROW)?;
    let aggregate_type = row.text(3, ROW)?;
    let aggregate_raw = row.raw(4, ROW)?;
    let aggregate_id = script::to_id(aggregate_raw)?;
    let partition_key = row.text(5, ROW)?;
    let payload = row.text(6, ROW)?;
    let headers = row.opt_text(7, ROW)?;
    let attempts: i64 = row.number(8, ROW)?;
    let stored_version: i64 = row.number(9, ROW)?;
    if stored_version < 0 || stored_version > u16::MAX as i64 {
        return Err(script::fail_query("stored outbox schema version is invalid"));
    }
    let channel = row.text(10, ROW)?;
    if json::reading_fault(payload.as_str()).is_some() {
        return Err(script::fail_query("stored outbox payload is invalid JSON"));
    }
    let event = IndexedEvent {
        event_id,
        operation_id,
        event_type,
        schema_version: stored_version as u16,
        aggregate_type,
        aggregate_id,
    };
    let delivery = map_delivery(s, row, &channel, &payload, &event)?;
    check_headers(s, &headers)?;
    Ok(ClaimedOutboxEvent {
        event_id,
        operation_id,
        event_type: event.event_type,
        schema_version: event.schema_version,
        delivery,
        payload,
        headers,
        partition_key,
        attempt_count: to_attempts(attempts),
    })
}

/// Leases the event that a row holds to a worker. Its attempts are counted with this one.
pub open spec fn claim_event_spec(
    st: RunView,
    row: Row,
    worker_id: String,
    lease_duration_ms: u64,
) -> (Result<ClaimedOutboxEvent, HaltView>, RunView) {
    match map_outbox_event_spec(st, row) { (Err(h), st) => (Err(h), st), (Ok(event), st) =>
    match script::execute_spec(
        st,
        LEASE_SQL@,
        seq![Bind::Text(worker_id), Bind::Int(lease_duration_ms as i64), Bind::Id(event.event_id)],
        "failed to lease outbox event"@,
    ) { (Err(h), st) => (Err(h), st), (Ok(_), st) =>
    match script::execute_spec(
        st,
        OPERATION_PUBLISHING_SQL@,
        seq![Bind::Id(event.operation_id)],
        "failed to mark integration operation publishing"@,
    ) { (Err(h), st) => (Err(h), st), (Ok(_), st) =>
    (Ok(ClaimedOutboxEvent { attempt_count: one_more(event.attempt_count), ..event }), st)
    }}}
}

/// Leases the event that a row holds to a worker. Its attempts are counted with this one.
pub fn claim_event(
    s: &mut Session,
    row: &Row,
    worker_id: &String,
    lease_duration_ms: u64,
) -> (r: Result<ClaimedOutboxEvent, Halt>)
    ensures
        (script::seen(r), final(s)@) == claim_event_spec(
            old(s)@,
            *row,
            *worker_id,
            lease_duration_ms,
        ),
{
    let event = map_outbox_event(s, row)?;
    script::execute(
        s,
        LEASE_SQL,
        binds::binds3(
            Bind::Text(worker_id.clone()),
            Bind::Int(lease_duration_ms as i64),
            Bind::Id(event.event_id),
        ),
        "failed to lease outbox event",
    )?;
    script::execute(
        s,
        OPERATION_PUBLISHING_SQL,
        binds::binds1(Bind::Id(event.operation_id)),
        "failed to mark integration operation publishing",
    )?;
    Ok(ClaimedOutboxEvent { attempt_count: event.attempt_count.saturating_add(1), ..event })
}

/// Leases the events that rows hold to a worker, in order, at most a number of them.
pub open spec fn claim_events_spec(
    st: RunView,
    rows: Seq<Row>,
    i: nat,
    worker_id: String,
    lease_duration_ms: u64,
    count: usize,
    done: Seq<ClaimedOutboxEvent>,
) -> (Result<Seq<ClaimedOutboxEvent>, HaltView>, RunView)
    decreases rows.len() - i,
{
    if i >= rows.len() || i >= count {
        (Ok(done), st)
    } else {
        match claim_event_spec(st, rows[i as int], worker_id, lease_duration_ms) {
            (Err(h), st) => (Err(h), st), (Ok(item), st) => claim_events_spec(
                st,
                rows,
                i + 1,
                worker_id,
                lease_duration_ms,
                count,
                done.push(item),
            )
        }
    }
}

/// Leases the events that rows hold to a worker, in order, at most a number of them.
pub fn claim_events(
    s: &mut Session,
    rows: &Vec<Row>,
    worker_id: &String,
    lease_duration_ms: u64,
    count: usize,
) -> (r: Result<Vec<ClaimedOutboxEvent>, Halt>)
    ensures
        (script::seen_view(r), final(s)@) == claim_events_spec(
            old(s)@,
            rows@,
            0,
            *worker_id,
            lease_duration_ms,
            count,
            Seq::empty(),
        ),
{
    let mut done: Vec<ClaimedOutboxEvent> = Vec::new();
    let mut i: usize = 0;
    assert(done@ =~= Seq::empty());
    while i < rows.len() && i < count
        invariant
            i <= rows@.len(),
            claim_events_spec(old(s)@, rows@, 0, *worker_id, lease_duration_ms, count, Seq::empty()) == claim_events_spec(
                s@,
                rows@,
                i as nat,
                *worker_id,
                lease_duration_ms,
                count,
                done@,
            ),
        decreases rows@.len() - i,
    {
        let item = claim_event(s, &rows[i], worker_id, lease_duration_ms)?;
        done.push(item);
        i = i + 1;
    }
    Ok(done)
}

/// Each is taken in its turn, after those before it, and the first that fails ends the run.
pub proof fn claim_events_go_in_turn(
    st: RunView,
    rows: Seq<Row>,
    i: nat,
    worker_id: String,
    lease_duration_ms: u64,
    count: usize,
    done: Seq<ClaimedOutboxEvent>,
)
    ensures
        ({
            let whole = claim_events_spec(st, rows, i, worker_id, lease_duration_ms, count, done);
            let (next, at) = claim_event_spec(st, rows[i as int], worker_id, lease_duration_ms);
            &&& i >= rows.len() || i >= count ==> whole == (Ok::<_, HaltView>(done), st)
            &&& i < rows.len() && i < count ==> match next {
                Ok(item) => {
                    whole == claim_events_spec(
                        at,
                        rows,
                        i + 1,
                        worker_id,
                        lease_duration_ms,
                        count,
                        done.push(item),
                    )
                },
                Err(halt) => whole.0 == Err::<Seq<ClaimedOutboxEvent>, _>(halt) && whole.1 == at,
            }
        }),
{
}

/// Leases due events to a worker, at most a batch of them, after the leases that ran out are
/// released.
pub open spec fn claim_outbox_batch_spec(
    st: RunView,
    worker_id: String,
    batch_size: u16,
    lease_duration_ms: u64,
) -> (Result<Seq<ClaimedOutboxEvent>, HaltView>, RunView) {
    match script::execute_spec(
        st,
        RECOVER_LEASES_SQL@,
        Seq::<Bind>::empty(),
        "failed to recover expired outbox leases"@,
    ) { (Err(h), st) => (Err(h), st), (Ok(_), st) =>
    match script::limited_rows_spec(
        st,
        CLAIM_SELECT_SQL@,
        Seq::<Bind>::empty(),
        "rrttrttTiitRT",
        batch_size as u64,
        "failed to select outbox events"@,
    ) { (Err(h), st) => (Err(h), st), (Ok(found), st) =>
    match claim_events_spec(
        st,
        found.rows@,
        0,
        worker_id,
        lease_duration_ms,
        batch_size as usize,
        Seq::empty(),
    ) { (Err(h), st) => (Err(h), st), (Ok(claimed), st) =>
    if claimed.len() < batch_size {
        if let Some(cause) = found.failure {
            (script::failed("failed to read outbox event"@, cause@), st)
        } else {
            (Ok(claimed), st)
        }
    } else {
        (Ok(claimed), st)
    }
    }}}
}

impl OracleRepository {
    /// Leases due events to a worker, at most a batch of them, after the leases that ran out are
    /// released.
    pub fn claim_outbox_batch(
        s: &mut Session,
        worker_id: &String,
        batch_size: u16,
        lease_duration_ms: u64,
    ) -> (r: Result<Vec<ClaimedOutboxEvent>, Halt>)
        ensures
            (script::seen_view(r), final(s)@) == claim_outbox_batch_spec(
                old(s)@,
                *worker_id,
                batch_size,
                lease_duration_ms,
            ),
    {
        script::execute(
            s,
            RECOVER_LEASES_SQL,
            binds::binds0(),
            "failed to recover expired outbox leases",
        )?;
        let found = script::limited_rows(
            s,
            CLAIM_SELECT_SQL,
            binds::binds0(),
            "rrttrttTiitRT",
            batch_size as u64,
            "failed to select outbox events",
        )?;
        let claimed = claim_events(
            s,
            &found.rows,
            worker_id,
            lease_duration_ms,
            batch_size as usize,
        )?;
        if claimed.len() < batch_size as usize {
            if let Some(cause) = &found.failure {
                return Err(script::fail_because("failed to read outbox event", cause.as_str()));
            } else {
                return Ok(claimed);
            }
        } else {
            return Ok(claimed);
        }
    }
}

/// Marks an event as published, where it is leased to the worker, and counts it for its operation.
pub open spec fn mark_outbox_published_spec(
    st: RunView,
    event_id: Uuid,
    worker_id: String,
) -> (Result<(), HaltView>, RunView) {
    match script::execute_count_spec(
        st,
        PUBLISHED_SQL@,
        seq![Bind::Id(event_id), Bind::Text(worker_id)],
        "failed to complete outbox event"@,
        "failed to inspect outbox completion"@,
    ) { (Err(h), st) => (Err(h), st), (Ok(touched), st) =>
    if touched != 1 {
        (script::conflict_fault("outbox publication lease is no longer owned by this worker"@), st)
    } else {
    match script::execute_spec(
        st,
        OPERATION_PUBLISHED_SQL@,
        seq![Bind::Id(event_id)],
        "failed to update integration operation publication"@,
    ) { (Err(h), st) => (Err(h), st), (Ok(_), st) =>
    (Ok(()), st)
    }}}
}

impl OracleRepository {
    /// Marks an event as published, where it is leased to the worker, and counts it for its
    /// operation.
    pub fn mark_outbox_published(
        s: &mut Session,
        event_id: Uuid,
        worker_id: &String,
    ) -> (r: Result<(), Halt>)
        ensures
            (script::seen(r), final(s)@) == mark_outbox_published_spec(
                old(s)@,
                event_id,
                *worker_id,
            ),
    {
        let touched = script::execute_count(
            s,
            PUBLISHED_SQL,
            binds::binds2(Bind::Id(event_id), Bind::Text(worker_id.clone())),
            "failed to complete outbox event",
            "failed to inspect outbox completion",
        )?;
        if touched != 1 {
            return Err(script::fail_conflict(
                "outbox publication lease is no longer owned by this worker",
            ));
        }
        script::execute(
            s,
            OPERATION_PUBLISHED_SQL,
            binds::binds1(Bind::Id(event_id)),
            "failed to update integration operation publication",
        )?;
        Ok(())
    }
}

/// Gives a leased event up, or puts it off.
pub open spec fn put_off_spec(
    st: RunView,
    event_id: Uuid,
    worker_id: String,
    dead_letter: bool,
    backoff_ms: u64,
) -> (Result<u64, HaltView>, RunView) {
    if dead_letter {
        script::execute_count_spec(
            st,
            DEAD_LETTER_SQL@,
            seq![Bind::Id(event_id), Bind::Text(worker_id)],
            "failed to reschedule outbox event"@,
            "failed to inspect outbox retry"@,
        )
    } else {
    script::execute_count_spec(
        st,
        RETRY_SQL@,
        seq![Bind::Int(backoff_ms as i64), Bind::Id(event_id), Bind::Text(worker_id)],
        "failed to reschedule outbox event"@,
        "failed to inspect outbox retry"@,
    )
    }
}

/// Gives a leased event up, or puts it off.
pub fn put_off(
    s: &mut Session,
    event_id: Uuid,
    worker_id: &String,
    dead_letter: bool,
    backoff_ms: u64,
) -> (r: Result<u64, Halt>)
    ensures
        (script::seen(r), final(s)@) == put_off_spec(
            old(s)@,
            event_id,
            *worker_id,
            dead_letter,
            backoff_ms,
        ),
{
    if dead_letter {
        return script::execute_count(
            s,
            DEAD_LETTER_SQL,
            binds::binds2(Bind::Id(event_id), Bind::Text(worker_id.clone())),
            "failed to reschedule outbox event",
            "failed to inspect outbox retry",
        );
    }
    script::execute_count(
        s,
        RETRY_SQL,
        binds::binds3(
            Bind::Int(backoff_ms as i64),
            Bind::Id(event_id),
            Bind::Text(worker_id.clone()),
        ),
        "failed to reschedule outbox event",
        "failed to inspect outbox retry",
    )
}

/// Gives an event up or puts it off, where it is leased to the worker. The operation behind an
/// event that is given up is given up with it.
pub open spec fn reschedule_outbox_event_spec(
    st: RunView,
    event_id: Uuid,
    worker_id: String,
    dead_letter: bool,
    backoff_ms: u64,
) -> (Result<(), HaltView>, RunView) {
    match put_off_spec(
        st,
        event_id,
        worker_id,
        dead_letter,
        backoff_ms,
    ) { (Err(h), st) => (Err(h), st), (Ok(touched), st) =>
    if touched != 1 {
        (script::conflict_fault("outbox retry lease is no longer owned by this worker"@), st)
    } else {
    if dead_letter {
        match script::execute_spec(
            st,
            OPERATION_DEAD_LETTER_SQL@,
            seq![Bind::Id(event_id)],
            "failed to dead-letter integration operation"@,
        ) { (Err(h), st) => (Err(h), st), (Ok(_), st) =>
        (Ok(()), st)
        }
    } else {
    (Ok(()), st)
    }}}
}

impl OracleRepository {
    /// Gives an event up or puts it off, where it is leased to the worker. The operation behind an
    /// event that is given up is given up with it.
    pub fn reschedule_outbox_event(
        s: &mut Session,
        event_id: Uuid,
        worker_id: &String,
        dead_letter: bool,
        backoff_ms: u64,
    ) -> (r: Result<(), Halt>)
        ensures
            (script::seen(r), final(s)@) == reschedule_outbox_event_spec(
                old(s)@,
                event_id,
                *worker_id,
                dead_letter,
                backoff_ms,
            ),
    {
        let touched = put_off(s, event_id, worker_id, dead_letter, backoff_ms)?;
        if touched != 1 {
            return Err(script::fail_conflict(
                "outbox retry lease is no longer owned by this worker",
            ));
        }
        if dead_letter {
            script::execute(
                s,
                OPERATION_DEAD_LETTER_SQL,
                binds::binds1(Bind::Id(event_id)),
                "failed to dead-letter integration operation",
            )?;
            return Ok(());
        }
        Ok(())
    }
}

/// Of the rows that follow, as many events are leased as the batch has room for, in their order.
pub proof fn leased_events_follow_their_rows(
    st: RunView,
    rows: Seq<Row>,
    i: nat,
    worker_id: String,
    lease_duration_ms: u64,
    count: usize,
    done: Seq<ClaimedOutboxEvent>,
)
    requires
        i <= rows.len(),
        i <= count,
        done.len() == i,
    ensures
        claim_events_spec(
            st,
            rows,
            i,
            worker_id,
            lease_duration_ms,
            count,
            done,
        ).0 matches Ok(claimed)
            ==> {
            &&& claimed.len() == if rows.len() < count {
                rows.len()
            } else {
                count as nat
            }
            &&& claimed.subrange(0, i as int) == done
        },
    decreases rows.len() - i,
{
    if i < rows.len() && i < count {
        let (leased, after) = claim_event_spec(st, rows[i as int], worker_id, lease_duration_ms);
        if let Ok(item) = leased {
            leased_events_follow_their_rows(
                after,
                rows,
                i + 1,
                worker_id,
                lease_duration_ms,
                count,
                done.push(item),
            );
            let rest = claim_events_spec(
                after,
                rows,
                i + 1,
                worker_id,
                lease_duration_ms,
                count,
                done.push(item),
            ).0;
            if let Ok(claimed) = rest {
                assert(claimed.subrange(0, i as int) =~= claimed.subrange(
                    0,
                    (i + 1) as int,
                ).subrange(
                    0,
                    i as int,
                ));
                assert(done.push(item).subrange(0, i as int) =~= done);
            }
        }
    } else {
        assert(done.subrange(0, i as int) =~= done);
    }
}

/// However many events are due, a worker gets no more of them than a batch holds.
pub proof fn claimed_batch_fits(
    st: RunView,
    worker_id: String,
    batch_size: u16,
    lease_duration_ms: u64,
)
    ensures
        claim_outbox_batch_spec(st, worker_id, batch_size, lease_duration_ms).0 matches Ok(claimed)
            ==> claimed.len() <= batch_size,
{
    let (_, released) = script::execute_spec(
        st,
        RECOVER_LEASES_SQL@,
        Seq::<Bind>::empty(),
        "failed to recover expired outbox leases"@,
    );
    let (found, selected) = script::limited_rows_spec(
        released,
        CLAIM_SELECT_SQL@,
        Seq::<Bind>::empty(),
        "rrttrttTiitRT",
        batch_size as u64,
        "failed to select outbox events"@,
    );
    if let Ok(rows) = found {
        leased_events_follow_their_rows(
            selected,
            rows.rows@,
            0,
            worker_id,
            lease_duration_ms,
            batch_size as usize,
            Seq::empty(),
        );
    }
}

/// An event that goes to a provider is handed out only where its payload names the event, its type,
/// its schema version and the provider that its columns name.
pub proof fn provider_event_is_what_its_columns_say(st: RunView, row: Row)
    ensures
        map_outbox_event_spec(st, row).0 matches Ok(event) ==> (event.delivery matches
            ClaimedOutboxDelivery::Provider { provider_id, topic } ==> {
            &&& json::json_reading_fault(event.payload@) is None
            &&& json::json_text_member(event.payload@, "event_id"@) == Some(
                uuid::hyphenated_text(event.event_id),
            )
            &&& json::json_text_member(event.payload@, "event_type"@) == Some(event.event_type@)
            &&& json::json_unsigned_member(event.payload@, "schema_version"@) == Some(
                event.schema_version as u64,
            )
            &&& json::json_text_member(event.payload@, "provider_id"@) == Some(
                uuid::hyphenated_text(provider_id),
            )
        }),
{
}

/// An event is settled by the worker that holds its lease alone: it is published, put off or given
/// up only where the statement that asks for the lease touched exactly this event.
pub proof fn settled_event_was_leased(
    st: RunView,
    event_id: Uuid,
    worker_id: String,
    dead_letter: bool,
    backoff_ms: u64,
)
    ensures
        mark_outbox_published_spec(st, event_id, worker_id).0 is Ok ==> script::execute_count_spec(
            st,
            PUBLISHED_SQL@,
            seq![Bind::Id(event_id), Bind::Text(worker_id)],
            "failed to complete outbox event"@,
            "failed to inspect outbox completion"@,
        ).0 == Ok::<u64, HaltView>(1),
        reschedule_outbox_event_spec(st, event_id, worker_id, dead_letter, backoff_ms).0 is Ok
            ==> put_off_spec(st, event_id, worker_id, dead_letter, backoff_ms).0 == Ok::<
            u64,
            HaltView,
        >(1),
{
}

/// An event that is given up is told to the database as dead, for this worker, and is not put off;
/// one that is put off comes back after the time asked for, for this worker, and is not given up.
/// Beside the event only the operation of one that is given up is changed.
pub proof fn event_is_given_up_or_put_off(
    st: RunView,
    event_id: Uuid,
    worker_id: String,
    dead_letter: bool,
    backoff_ms: u64,
)
    requires
        reschedule_outbox_event_spec(st, event_id, worker_id, dead_letter, backoff_ms).0 is Ok,
    ensures
        ({
            let log = reschedule_outbox_event_spec(
                st,
                event_id,
                worker_id,
                dead_letter,
                backoff_ms,
            ).1.log;
            let given_up = seq![Bind::Id(event_id), Bind::Text(worker_id)];
            let later = seq![
                Bind::Int(backoff_ms as i64),
                Bind::Id(event_id),
                Bind::Text(worker_id),
            ];
            &&& dead_letter ==> {
                &&& log == st.log.push(
                    script::change(DEAD_LETTER_SQL@, given_up),
                ).push(
                    script::change(OPERATION_DEAD_LETTER_SQL@, seq![Bind::Id(event_id)]),
                )
                &&& script::ran(log, DEAD_LETTER_SQL@, given_up)
                &&& script::runs(log, RETRY_SQL@) == script::runs(st.log, RETRY_SQL@)
            }
            &&& !dead_letter ==> {
                &&& log == st.log.push(script::change(RETRY_SQL@, later))
                &&& script::ran(log, RETRY_SQL@, later)
                &&& script::runs(log, DEAD_LETTER_SQL@) == script::runs(st.log, DEAD_LETTER_SQL@)
                &&& script::runs(log, OPERATION_DEAD_LETTER_SQL@) == script::runs(
                    st.log,
                    OPERATION_DEAD_LETTER_SQL@,
                )
            }
        }),
{
    broadcast use {script::runs_with_another, script::runs_on_with_another};

    reveal_strlit(
        "UPDATE integration_outbox SET status='DEAD_LETTER', next_attempt_at=NULL, locked_by=NULL, locked_until=NULL, dead_letter_reason='KAFKA_DELIVERY_ATTEMPTS_EXHAUSTED', updated_at=SYSTIMESTAMP WHERE outbox_event_id=:1 AND status='PUBLISHING' AND locked_by=:2",
    );
    reveal_strlit(
        "UPDATE integration_outbox SET status='PENDING', next_attempt_at=SYSTIMESTAMP + NUMTODSINTERVAL(:1 / 1000, 'SECOND'), locked_by=NULL, locked_until=NULL, dead_letter_reason=NULL, updated_at=SYSTIMESTAMP WHERE outbox_event_id=:2 AND status='PUBLISHING' AND locked_by=:3",
    );
    reveal_strlit(
        "UPDATE integration_operations SET status=CASE WHEN status='MATERIALIZED' THEN status ELSE 'DEAD_LETTER' END,safe_error_code=CASE WHEN status='MATERIALIZED' THEN safe_error_code ELSE 'KAFKA_DELIVERY_ATTEMPTS_EXHAUSTED' END,updated_at=SYSTIMESTAMP WHERE operation_id=(SELECT operation_id FROM integration_outbox WHERE outbox_event_id=:1)",
    );
    assert(DEAD_LETTER_SQL@[38] == 'D' && RETRY_SQL@[38] == 'P');
    assert(DEAD_LETTER_SQL@[20] == 'u' && RETRY_SQL@[20] == 'u');
    assert(OPERATION_DEAD_LETTER_SQL@[20] == 'p');
}

/// An event that is published is told to the database as published, for this worker, and its
/// operation is brought up to date. Nothing else is changed.
pub proof fn published_event_is_told_as_published(
    st: RunView,
    event_id: Uuid,
    worker_id: String,
)
    requires
        mark_outbox_published_spec(st, event_id, worker_id).0 is Ok,
    ensures
        mark_outbox_published_spec(st, event_id, worker_id).1.log == st.log.push(
            script::change(PUBLISHED_SQL@, seq![Bind::Id(event_id), Bind::Text(worker_id)]),
        ).push(
            script::change(OPERATION_PUBLISHED_SQL@, seq![Bind::Id(event_id)]),
        ),
{
}

/// A worker that does not hold the lease of an event settles nothing: where the statement touches
/// another number of rows than one, the answer is a conflict, and nothing more is tried.
pub proof fn lost_lease_settles_nothing(
    st: RunView,
    event_id: Uuid,
    worker_id: String,
    dead_letter: bool,
    backoff_ms: u64,
    touched: u64,
)
    requires
        st.rest.len() > 0,
        st.rest[0] == script::Reply::Executed(Ok(touched)),
        touched != 1,
    ensures
        mark_outbox_published_spec(st, event_id, worker_id).0 == script::conflict_fault::<()>(
            "outbox publication lease is no longer owned by this worker"@,
        ),
        mark_outbox_published_spec(st, event_id, worker_id).1.log.len() == st.log.len() + 1,
        reschedule_outbox_event_spec(
            st,
            event_id,
            worker_id,
            dead_letter,
            backoff_ms,
        ).0 == script::conflict_fault::<()>(
            "outbox retry lease is no longer owned by this worker"@,
        ),
        reschedule_outbox_event_spec(
            st,
            event_id,
            worker_id,
            dead_letter,
            backoff_ms,
        ).1.log.len() == st.log.len() + 1,
{
}

/// An event is handed out with what its row holds: each value from its column, and the channel from
/// the column that names it. An event for a provider names the provider and the topic of its row.
pub proof fn event_is_read_from_its_columns(st: RunView, row: Row)
    ensures
        map_outbox_event_spec(st, row).0 matches Ok(event) ==> {
            &&& row.id_at(0, ROW@) == Ok::<Uuid, HaltView>(event.event_id)
            &&& row.id_at(1, ROW@) == Ok::<Uuid, HaltView>(event.operation_id)
            &&& row.text_at(2, ROW@) == Ok::<String, HaltView>(event.event_type)
            &&& row.text_at(5, ROW@) == Ok::<String, HaltView>(event.partition_key)
            &&& row.text_at(6, ROW@) == Ok::<String, HaltView>(event.payload)
            &&& row.opt_text_at(7, ROW@) == Ok::<Option<String>, HaltView>(event.headers)
            &&& row.int_at(8, ROW@) matches Ok(attempts) && (0 <= attempts <= u32::MAX
                ==> event.attempt_count == attempts) && (attempts < 0 || attempts > u32::MAX
                ==> event.attempt_count == u32::MAX)
            &&& row.int_at(9, ROW@) matches Ok(version) && event.schema_version == version
            &&& row.text_at(10, ROW@) matches Ok(channel) && match event.delivery {
                ClaimedOutboxDelivery::Internal => channel@ == "INTERNAL"@,
                ClaimedOutboxDelivery::Provider { provider_id, topic } => {
                    &&& channel@ == "PROVIDER"@
                    &&& row.opt_raw_at(11, ROW@) matches Ok(Some(raw)) && script::id_of(raw@)
                        == Ok::<Uuid, HaltView>(provider_id)
                    &&& row.opt_text_at(12, ROW@) == Ok::<Option<String>, HaltView>(Some(topic))
                },
            }
        },
{
}

/// An internal event is handed out only where its envelope names the event, the operation, the type
/// and the aggregate that its columns name.
pub proof fn internal_event_is_what_its_columns_say(
    st: RunView,
    payload: String,
    event: IndexedEvent,
)
    requires
        check_envelope_spec(st, payload, event).0 is Ok,
    ensures
        st.rest.len() > 0,
        st.rest[0] matches script::Reply::Answer(Answer::Envelope(Some(keys)))
            && keys.event_id == event.event_id && keys.operation_id == event.operation_id
            && keys.event_type@ == event.event_type@ && keys.aggregate_type@
            == event.aggregate_type@ && keys.aggregate_id == event.aggregate_id,
{
}

/// A worker that is handed an event holds its lease for the time asked for, the event's operation
/// is told to be publishing, and the attempt that begins is counted.
pub proof fn handed_out_event_is_leased(
    st: RunView,
    row: Row,
    worker_id: String,
    lease_duration_ms: u64,
)
    requires
        claim_event_spec(st, row, worker_id, lease_duration_ms).0 is Ok,
    ensures
        ({
            let log = claim_event_spec(st, row, worker_id, lease_duration_ms).1.log;
            &&& claim_event_spec(st, row, worker_id, lease_duration_ms).0 matches Ok(event)
                && map_outbox_event_spec(
                st,
                row,
            ).0 matches Ok(stored) && event.event_id == stored.event_id && event.operation_id
                == stored.operation_id && event.payload == stored.payload && event.delivery
                == stored.delivery && (stored.attempt_count < u32::MAX ==> event.attempt_count
                == stored.attempt_count + 1) && (stored.attempt_count == u32::MAX
                ==> event.attempt_count == u32::MAX) && script::ran(
                log,
                LEASE_SQL@,
                seq![
                    Bind::Text(worker_id),
                    Bind::Int(lease_duration_ms as i64),
                    Bind::Id(event.event_id),
                ],
            ) && script::ran(
                log,
                OPERATION_PUBLISHING_SQL@,
                seq![Bind::Id(event.operation_id)],
            )
        }),
{
    broadcast use script::runs_on_with_another;

}

/// The events of a batch are those of the rows that were found, in their order.
pub proof fn leased_events_are_those_of_their_rows(
    st: RunView,
    rows: Seq<Row>,
    i: nat,
    worker_id: String,
    lease_duration_ms: u64,
    count: usize,
    done: Seq<ClaimedOutboxEvent>,
    k: nat,
)
    requires
        done.len() == i,
        k < i ==> rows[k as int].id_at(0, ROW@) == Ok::<Uuid, HaltView>(done[k as int].event_id),
    ensures
        claim_events_spec(
            st,
            rows,
            i,
            worker_id,
            lease_duration_ms,
            count,
            done,
        ).0 matches Ok(claimed)
            ==> (k < claimed.len() ==> rows[k as int].id_at(0, ROW@) == Ok::<Uuid, HaltView>(
            claimed[k as int].event_id,
        )),
    decreases rows.len() - i,
{
    if i < rows.len() && i < count {
        event_is_read_from_its_columns(st, rows[i as int]);
        let (leased, after) = claim_event_spec(st, rows[i as int], worker_id, lease_duration_ms);
        if let Ok(item) = leased {
            leased_events_are_those_of_their_rows(
                after,
                rows,
                i + 1,
                worker_id,
                lease_duration_ms,
                count,
                done.push(item),
                k,
            );
        }
    }
}

/// An operation is stored as it is asked for, with the number of events that it waits for.
pub proof fn operation_is_stored_as_asked_for(
    st: RunView,
    operation_id: Uuid,
    operation_type: &'static str,
    aggregate_type: &'static str,
    aggregate_id: Uuid,
    event_count: u32,
)
    ensures
        insert_integration_operation_spec(
            st,
            operation_id,
            operation_type,
            aggregate_type,
            aggregate_id,
            event_count,
        ).0 is Ok ==> script::ran(
            insert_integration_operation_spec(
                st,
                operation_id,
                operation_type,
                aggregate_type,
                aggregate_id,
                event_count,
            ).1.log,
            OPERATION_INSERT_SQL@,
            seq![
                Bind::Id(operation_id),
                Bind::Label(operation_type),
                Bind::Label(aggregate_type),
                Bind::Id(aggregate_id),
                Bind::Int(event_count as i64),
            ],
        ),
{
    broadcast use script::runs_on_with_another;

}

/// An operation is told as materialized only where exactly this one is touched; anything else is a
/// conflict.
pub proof fn operation_is_materialized_alone(st: RunView, operation_id: Uuid)
    ensures
        ({
            let (result, after) = mark_integration_operation_materialized_spec(st, operation_id);
            &&& st.rest.len() > 0 && st.rest[0] == script::Reply::Executed(Ok(1)) <==> result is Ok
            &&& result is Ok ==> after.log == st.log.push(
                script::change(OPERATION_MATERIALIZED_SQL@, seq![Bind::Id(operation_id)]),
            )
            &&& st.rest.len() > 0 && (st.rest[0] matches script::Reply::Executed(Ok(n)) && n != 1)
                ==> result == script::conflict_fault::<()>(
                "integration operation cannot accept materialization"@,
            )
        }),
{
}

/// A stored number of attempts counts as far as it can, and each further attempt adds one.
pub proof fn attempts_count_as_far_as_they_can(stored: i64, attempts: u32)
    ensures
        0 <= stored <= u32::MAX ==> attempts_of(stored) == stored,
        !(0 <= stored <= u32::MAX) ==> attempts_of(stored) == u32::MAX,
        attempts < u32::MAX ==> one_more(attempts) == attempts + 1,
        one_more(u32::MAX) == u32::MAX,
{
}

/// An event goes where its channel says: within the service, or to the provider and topic of its
/// columns, and nowhere over any other channel.
pub proof fn event_goes_where_its_channel_says(
    st: RunView,
    row: Row,
    channel: String,
    payload: String,
    event: IndexedEvent,
)
    ensures
        ({
            let ended = map_delivery_spec(st, row, channel, payload, event).0;
            &&& channel@ == "INTERNAL"@ ==> (ended matches Ok(delivery) ==> delivery is Internal)
            &&& channel@ != "INTERNAL"@
                && channel@ == "PROVIDER"@ ==> (ended matches Ok(delivery) ==> {
                &&& delivery matches ClaimedOutboxDelivery::Provider { provider_id, topic }
                &&& row.opt_text_at(12, ROW@) == Ok::<_, HaltView>(Some(topic))
                &&& script::opt_id_of(row.opt_raw_at(11, ROW@)->Ok_0) == Ok::<_, HaltView>(
                    Some(provider_id),
                )
                &&& provider_payload_matches_spec(payload@, event, provider_id)
            })
            &&& channel@ != "INTERNAL"@ && channel@ != "PROVIDER"@ ==> ended is Err
        }),
{
}

/// What is asked first, and with which values, in a run that does this:
/// creates the durable parent for one or more ordered integration events.
pub proof fn insert_integration_operation_asks_first(
    st: RunView,
    operation_id: Uuid,
    operation_type: &'static str,
    aggregate_type: &'static str,
    aggregate_id: Uuid,
    event_count: u32,
)
    requires
        st.rest.len() == 0,
    ensures
        insert_integration_operation_spec(
            st,
            operation_id,
            operation_type,
            aggregate_type,
            aggregate_id,
            event_count,
        ).0 matches Err(HaltView::Ask(asked))
            && (
                asked matches script::CallView::Sql { sql, binds, .. }
                    && sql == OPERATION_INSERT_SQL@
                    && binds == seq![
                        Bind::Id(operation_id),
                        Bind::Label(operation_type),
                        Bind::Label(aggregate_type),
                        Bind::Id(aggregate_id),
                        Bind::Int(event_count as i64),
                    ]
            ),
{
}

/// What is asked first, and with which values, in a run that does this:
/// marks an integration operation as materialized, unless it is past that.
pub proof fn mark_integration_operation_materialized_asks_first(
    st: RunView,
    operation_id: Uuid,
)
    requires
        st.rest.len() == 0,
    ensures
        mark_integration_operation_materialized_spec(st, operation_id).0 matches Err(
            HaltView::Ask(asked),
        )
            && (
                asked matches script::CallView::Sql { sql, binds, .. }
                    && sql == OPERATION_MATERIALIZED_SQL@ && binds == seq![Bind::Id(operation_id)]
            ),
{
}

/// Exactly one row is touched where a run succeeds that does this:
/// marks an integration operation as materialized, unless it is past that.
pub proof fn mark_integration_operation_materialized_touches_one_row(
    st: RunView,
    operation_id: Uuid,
)
    requires
        mark_integration_operation_materialized_spec(st, operation_id).0 is Ok,
    ensures
        st.rest[0] == script::Reply::Executed(Ok(1)),
{
}

/// What is asked first, and with which values, in a run that does this:
/// leases due events to a worker, at most a batch of them, after the leases that ran out are
/// released.
pub proof fn claim_outbox_batch_asks_first(
    st: RunView,
    worker_id: String,
    batch_size: u16,
    lease_duration_ms: u64,
)
    requires
        st.rest.len() == 0,
    ensures
        claim_outbox_batch_spec(
            st,
            worker_id,
            batch_size,
            lease_duration_ms,
        ).0 matches Err(HaltView::Ask(asked))
            && (
                asked matches script::CallView::Sql { sql, binds, .. } && sql == RECOVER_LEASES_SQL@
                    && binds == Seq::<Bind>::empty()
            ),
{
}

/// What is asked first, and with which values, in a run that does this:
/// marks an event as published, where it is leased to the worker, and counts it for its operation.
pub proof fn mark_outbox_published_asks_first(
    st: RunView,
    event_id: Uuid,
    worker_id: String,
)
    requires
        st.rest.len() == 0,
    ensures
        mark_outbox_published_spec(st, event_id, worker_id).0 matches Err(HaltView::Ask(asked))
            && (
                asked matches script::CallView::Sql { sql, binds, .. } && sql == PUBLISHED_SQL@
                    && binds == seq![Bind::Id(event_id), Bind::Text(worker_id)]
            ),
{
}

/// Exactly one row is touched where a run succeeds that does this:
/// marks an event as published, where it is leased to the worker, and counts it for its operation.
pub proof fn mark_outbox_published_touches_one_row(
    st: RunView,
    event_id: Uuid,
    worker_id: String,
)
    requires
        mark_outbox_published_spec(st, event_id, worker_id).0 is Ok,
    ensures
        st.rest[0] == script::Reply::Executed(Ok(1)),
{
}

} // verus!
