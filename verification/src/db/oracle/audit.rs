//! Audit evidence, stored within the command that it is evidence of, and its listing.
use vstd::prelude::*;
use crate::db::oracle::binds;
use crate::db::oracle::document::Snapshot;
use crate::db::oracle::consult::{CodeKind, Rule};
use crate::db::oracle::repository::OracleRepository;
use crate::db::oracle::script;
use crate::db::oracle::script::{Bind, Halt, HaltView, Row, RunView, Session};
use crate::domain::audit::{
    AuditAction, AuditLogCursor, AuditLogPage, AuditLogQuery, AuditLogRecord, TrustedAuditContext,
};
use crate::domain::copied;
use crate::domain::page;
use crate::domain::page::Page;
use crate::json;
use crate::time::UtcTime;
use crate::uuid::Uuid;

verus! {

/// Stores an audit entry.
pub const AUDIT_INSERT_SQL: &'static str = r#"
    INSERT INTO audit_logs (
        audit_log_id,
        entity_type,
        entity_id,
        action_type,
        reason,
        old_values,
        new_values,
        actor_subject,
        actor_client_id,
        actor_provider_id,
        actor_user_id,
        actor_issuer,
        source_ip,
        correlation_id,
        request_id
    )
    VALUES (:1, :2, :3, :4, :5, :6, :7, :8, :9, :10, :11, :12, :13, :14, :15)
    "#;

/// Lists audit entries, newest first, after a cursor.
pub const AUDIT_LIST_SQL: &'static str = r#"
    SELECT audit_log_id, entity_type, entity_id, action_type, reason,
           JSON_SERIALIZE(old_values RETURNING CLOB),
           JSON_SERIALIZE(new_values RETURNING CLOB),
           actor_subject, actor_client_id, actor_provider_id, actor_user_id,
           actor_issuer, source_ip, correlation_id, request_id,
           TO_CHAR(SYS_EXTRACT_UTC(created_at),'YYYY-MM-DD"T"HH24:MI:SS.FF3"Z"')
    FROM audit_logs
    WHERE (:entity_type IS NULL OR entity_type = :entity_type)
      AND (:entity_id IS NULL OR entity_id = :entity_id)
      AND (:action_type IS NULL OR action_type = :action_type)
      AND (:actor_subject IS NULL OR actor_subject = :actor_subject)
      AND (:actor_client_id IS NULL OR actor_client_id = :actor_client_id)
      AND (:actor_provider_id IS NULL OR actor_provider_id = :actor_provider_id)
      AND (:actor_user_id IS NULL OR actor_user_id = :actor_user_id)
      AND (:source_ip IS NULL OR source_ip = :source_ip)
      AND (:correlation_id IS NULL OR correlation_id = :correlation_id)
      AND (:request_id IS NULL OR request_id = :request_id)
      AND (:created_from IS NULL OR SYS_EXTRACT_UTC(created_at) >= TO_TIMESTAMP(:created_from, 'YYYY-MM-DD"T"HH24:MI:SS.FF3"Z"'))
      AND (:created_to IS NULL OR SYS_EXTRACT_UTC(created_at) < TO_TIMESTAMP(:created_to, 'YYYY-MM-DD"T"HH24:MI:SS.FF3"Z"'))
      AND (
          :cursor_created_at IS NULL
          OR SYS_EXTRACT_UTC(created_at) < TO_TIMESTAMP(:cursor_created_at, 'YYYY-MM-DD"T"HH24:MI:SS.FF3"Z"')
          OR (
              SYS_EXTRACT_UTC(created_at) = TO_TIMESTAMP(:cursor_created_at, 'YYYY-MM-DD"T"HH24:MI:SS.FF3"Z"')
              AND audit_log_id < :cursor_id
          )
      )
    ORDER BY created_at DESC, audit_log_id DESC
    FETCH FIRST :fetch_limit ROWS ONLY
    "#;

/// The statement that stores an audit entry.
pub fn audit_insert_sql() -> (r: &'static str)
    ensures
        r == AUDIT_INSERT_SQL,
{
    AUDIT_INSERT_SQL
}

/// The statement that lists audit entries.
pub fn audit_list_sql() -> (r: &'static str)
    ensures
        r == AUDIT_LIST_SQL,
{
    AUDIT_LIST_SQL
}

/// What a value that cannot be read is reported as.
pub const READ: &'static str = "failed to read Oracle audit row";

/// The columns of a listed audit entry.
pub const AUDIT_COLUMNS: &'static str = "rtrtTTTtTRRTTttt";

/// The bind names of the listing, in order.
pub const AUDIT_LIST_BINDS: &'static str = "entity_type,entity_id,action_type,actor_subject,actor_client_id,actor_provider_id,actor_user_id,source_ip,correlation_id,request_id,created_from,created_to,cursor_created_at,cursor_id,fetch_limit";

/// Who acted, from where, and within which request, as bind values.
pub struct AuditOrigin {
    pub subject: Bind,
    pub client_id: Bind,
    pub provider_id: Bind,
    pub user_id: Bind,
    pub issuer: Bind,
    pub source_ip: Bind,
    pub correlation_id: Bind,
    pub request_id: Bind,
}

/// The origin that a trusted context names.
pub open spec fn trusted_origin_spec(context: TrustedAuditContext) -> AuditOrigin {
    AuditOrigin {
        subject: Bind::Text(context.actor_subject),
        client_id: Bind::OptText(context.actor_client_id),
        provider_id: Bind::OptId(context.actor_provider_id),
        user_id: Bind::OptId(context.actor_user_id),
        issuer: Bind::OptText(context.actor_issuer),
        source_ip: Bind::OptText(context.source_ip),
        correlation_id: Bind::Text(context.correlation_id),
        request_id: Bind::Text(context.request_id),
    }
}

/// The origin that a trusted context names.
pub fn trusted_origin(context: &TrustedAuditContext) -> (r: AuditOrigin)
    ensures
        r == trusted_origin_spec(*context),
{
    AuditOrigin {
        subject: Bind::Text(context.actor_subject.clone()),
        client_id: Bind::OptText(copied(&context.actor_client_id)),
        provider_id: Bind::OptId(context.actor_provider_id),
        user_id: Bind::OptId(context.actor_user_id),
        issuer: Bind::OptText(copied(&context.actor_issuer)),
        source_ip: Bind::OptText(copied(&context.source_ip)),
        correlation_id: Bind::Text(context.correlation_id.clone()),
        request_id: Bind::Text(context.request_id.clone()),
    }
}

/// The origin of a materialization receipt.
pub open spec fn materializer_origin_spec(
    operation_id: Uuid,
    receipt_event_id: Uuid,
) -> AuditOrigin {
    AuditOrigin {
        subject: Bind::Label("wolfsburg"),
        client_id: Bind::OptLabel(Some("wolfsburg-materializer")),
        provider_id: Bind::OptId(None),
        user_id: Bind::OptId(None),
        issuer: Bind::OptLabel(Some("internal-kafka")),
        source_ip: Bind::OptLabel(None),
        correlation_id: Bind::IdText(operation_id),
        request_id: Bind::IdText(receipt_event_id),
    }
}

/// The origin of a materialization receipt.
pub fn materializer_origin(operation_id: Uuid, receipt_event_id: Uuid) -> (r: AuditOrigin)
    ensures
        r == materializer_origin_spec(operation_id, receipt_event_id),
{
    AuditOrigin {
        subject: Bind::Label("wolfsburg"),
        client_id: Bind::OptLabel(Some("wolfsburg-materializer")),
        provider_id: Bind::OptId(None),
        user_id: Bind::OptId(None),
        issuer: Bind::OptLabel(Some("internal-kafka")),
        source_ip: Bind::OptLabel(None),
        correlation_id: Bind::IdText(operation_id),
        request_id: Bind::IdText(receipt_event_id),
    }
}

/// The origin of a provisioning step for a provider.
pub open spec fn provisioning_origin_spec(
    provider_id: Uuid,
    transition: &'static str,
    request_id: Uuid,
) -> AuditOrigin {
    AuditOrigin {
        subject: Bind::Label("wurzburg-provider-provisioning"),
        client_id: Bind::OptLabel(Some("wurzburg-provider-provisioning")),
        provider_id: Bind::OptId(None),
        user_id: Bind::OptId(None),
        issuer: Bind::OptLabel(Some("wurzburg-internal")),
        source_ip: Bind::OptLabel(None),
        correlation_id: Bind::Named("provider-provisioning-", provider_id, transition),
        request_id: Bind::IdText(request_id),
    }
}

/// The origin of a provisioning step for a provider.
pub fn provisioning_origin(
    provider_id: Uuid,
    transition: &'static str,
    request_id: Uuid,
) -> (r: AuditOrigin)
    ensures
        r == provisioning_origin_spec(provider_id, transition, request_id),
{
    AuditOrigin {
        subject: Bind::Label("wurzburg-provider-provisioning"),
        client_id: Bind::OptLabel(Some("wurzburg-provider-provisioning")),
        provider_id: Bind::OptId(None),
        user_id: Bind::OptId(None),
        issuer: Bind::OptLabel(Some("wurzburg-internal")),
        source_ip: Bind::OptLabel(None),
        correlation_id: Bind::Named("provider-provisioning-", provider_id, transition),
        request_id: Bind::IdText(request_id),
    }
}

/// The origin of a scheduled operational profile change.
pub open spec fn scheduler_origin_spec(operation_id: Uuid) -> AuditOrigin {
    AuditOrigin {
        subject: Bind::Label("wurzburg-system"),
        client_id: Bind::OptLabel(Some("provider-operational-profile-scheduler")),
        provider_id: Bind::OptId(None),
        user_id: Bind::OptId(None),
        issuer: Bind::OptLabel(Some("wurzburg-internal")),
        source_ip: Bind::OptLabel(None),
        correlation_id: Bind::IdText(operation_id),
        request_id: Bind::IdText(operation_id),
    }
}

/// The origin of a scheduled operational profile change.
pub fn scheduler_origin(operation_id: Uuid) -> (r: AuditOrigin)
    ensures
        r == scheduler_origin_spec(operation_id),
{
    AuditOrigin {
        subject: Bind::Label("wurzburg-system"),
        client_id: Bind::OptLabel(Some("provider-operational-profile-scheduler")),
        provider_id: Bind::OptId(None),
        user_id: Bind::OptId(None),
        issuer: Bind::OptLabel(Some("wurzburg-internal")),
        source_ip: Bind::OptLabel(None),
        correlation_id: Bind::IdText(operation_id),
        request_id: Bind::IdText(operation_id),
    }
}

/// A JSON document with what must not be shown taken out, where there is one.
pub open spec fn redacted_spec(
    st: RunView,
    document: Option<Snapshot>,
) -> (Result<Option<String>, HaltView>, RunView) {
    match document {
    None => {
        (Ok(None), st)
    },
    Some(shown) =>
    match script::consult_text_spec(
        st,
        Rule::Redacted(shown),
    ) { (Err(h), st) => (Err(h), st), (Ok(text), st) =>
    (Ok(Some(text)), st)
    }}
}

/// A JSON document with what must not be shown taken out, where there is one.
pub fn redacted(s: &mut Session, document: Option<Snapshot>) -> (r: Result<Option<String>, Halt>)
    ensures
        (script::seen(r), final(s)@) == redacted_spec(old(s)@, document),
{
    let shown = match document {
        Some(v) => v,
        None => {
            return Ok(None);
        },
    };
    let text = script::consult_text(s, Rule::Redacted(shown))?;
    Ok(Some(text))
}

/// Stores an audit entry within the command that it is evidence of. The values before and after are
/// redacted first.
pub open spec fn insert_audit_log_spec(
    st: RunView,
    entity_type: &'static str,
    entity_id: Uuid,
    action: AuditAction,
    reason: Bind,
    old_values: Option<Snapshot>,
    new_values: Option<Snapshot>,
    origin: AuditOrigin,
) -> (Result<(), HaltView>, RunView) {
    match script::fresh_id_spec(st) { (Err(h), st) => (Err(h), st), (Ok(audit_log_id), st) =>
    match redacted_spec(st, old_values) { (Err(h), st) => (Err(h), st), (Ok(old_shown), st) =>
    match redacted_spec(st, new_values) { (Err(h), st) => (Err(h), st), (Ok(new_shown), st) =>
    match script::execute_spec(
        st,
        AUDIT_INSERT_SQL@,
        seq![
            Bind::Id(audit_log_id),
            Bind::Label(entity_type),
            Bind::Id(entity_id),
            Bind::Label(action.code()),
            reason,
            Bind::OptJsonText(old_shown),
            Bind::OptJsonText(new_shown),
            origin.subject,
            origin.client_id,
            origin.provider_id,
            origin.user_id,
            origin.issuer,
            origin.source_ip,
            origin.correlation_id,
            origin.request_id,
        ],
        "failed to insert audit log"@,
    ) { (Err(h), st) => (Err(h), st), (Ok(_), st) =>
    (Ok(()), st)
    }}}}
}

/// Stores an audit entry within the command that it is evidence of. The values before and after are
/// redacted first.
#[allow(clippy::too_many_arguments)]
pub fn insert_audit_log(
    s: &mut Session,
    entity_type: &'static str,
    entity_id: Uuid,
    action: AuditAction,
    reason: Bind,
    old_values: Option<Snapshot>,
    new_values: Option<Snapshot>,
    origin: AuditOrigin,
) -> (r: Result<(), Halt>)
    ensures
        (script::seen(r), final(s)@) == insert_audit_log_spec(
            old(s)@,
            entity_type,
            entity_id,
            action,
            reason,
            old_values,
            new_values,
            origin,
        ),
{
    let audit_log_id = script::fresh_id(s)?;
    let old_shown = redacted(s, old_values)?;
    let new_shown = redacted(s, new_values)?;
    script::execute(
        s,
        AUDIT_INSERT_SQL,
        binds::binds15(
            Bind::Id(audit_log_id),
            Bind::Label(entity_type),
            Bind::Id(entity_id),
            Bind::Label(action.as_db_value()),
            reason,
            Bind::OptJsonText(old_shown),
            Bind::OptJsonText(new_shown),
            origin.subject,
            origin.client_id,
            origin.provider_id,
            origin.user_id,
            origin.issuer,
            origin.source_ip,
            origin.correlation_id,
            origin.request_id,
        ),
        "failed to insert audit log",
    )?;
    Ok(())
}

/// A JSON document that may be absent, redacted.
pub open spec fn parse_optional_json_spec(
    st: RunView,
    text: Option<String>,
) -> (Result<Option<String>, HaltView>, RunView) {
    match text {
    None => {
        (Ok(None), st)
    },
    Some(document) =>
    if json::json_reading_fault(document@) is Some {
        (script::failed("invalid audit JSON"@, json::json_reading_fault(document@)->Some_0), st)
    } else {
    match script::consult_text_spec(
        st,
        Rule::Redacted(Snapshot::Text(document)),
    ) { (Err(h), st) => (Err(h), st), (Ok(shown), st) =>
    (Ok(Some(shown)), st)
    }}}
}

/// A JSON document that may be absent, redacted.
pub fn parse_optional_json(
    s: &mut Session,
    text: Option<String>,
) -> (r: Result<Option<String>, Halt>)
    ensures
        (script::seen(r), final(s)@) == parse_optional_json_spec(old(s)@, text),
{
    let document = match text {
        Some(v) => v,
        None => {
            return Ok(None);
        },
    };
    match json::reading_fault(document.as_str()) {
        Some(e) => {
            return Err(script::fail_because("invalid audit JSON", e.as_str()));
        },
        None => {},
    }
    let shown = script::consult_text(s, Rule::Redacted(Snapshot::Text(document)))?;
    Ok(Some(shown))
}

/// The audit entry that a row holds.
pub open spec fn map_audit_row_spec(
    st: RunView,
    row: Row,
) -> (Result<AuditLogRecord, HaltView>, RunView) {
    match row.raw_at(0, READ@) { Err(h) => (Err(h), st), Ok(audit_log_raw) =>
    match row.raw_at(2, READ@) { Err(h) => (Err(h), st), Ok(entity_raw) =>
    match row.text_at(3, READ@) { Err(h) => (Err(h), st), Ok(action_type) =>
    match row.opt_text_at(5, READ@) { Err(h) => (Err(h), st), Ok(old_text) =>
    match row.opt_text_at(6, READ@) { Err(h) => (Err(h), st), Ok(new_text) =>
    match row.opt_raw_at(9, READ@) { Err(h) => (Err(h), st), Ok(provider_raw) =>
    match row.opt_raw_at(10, READ@) { Err(h) => (Err(h), st), Ok(user_raw) =>
    match row.text_at(15, READ@) { Err(h) => (Err(h), st), Ok(created_text) =>
    match script::id_of(audit_log_raw@) { Err(h) => (Err(h), st), Ok(audit_log_id) =>
    match row.text_at(1, READ@) { Err(h) => (Err(h), st), Ok(entity_type) =>
    match script::id_of(entity_raw@) { Err(h) => (Err(h), st), Ok(entity_id) =>
    match script::flag_spec(
        st,
        Rule::KnownCode(CodeKind::AuditAction, action_type),
    ) { (Err(h), st) => (Err(h), st), (Ok(known), st) =>
    if !known {
        (script::query_fault("unknown audit action type"@), st)
    } else {
    match row.opt_text_at(4, READ@) { Err(h) => (Err(h), st), Ok(reason) =>
    match parse_optional_json_spec(
        st,
        old_text,
    ) { (Err(h), st) => (Err(h), st), (Ok(old_values), st) =>
    match parse_optional_json_spec(
        st,
        new_text,
    ) { (Err(h), st) => (Err(h), st), (Ok(new_values), st) =>
    match row.text_at(7, READ@) { Err(h) => (Err(h), st), Ok(actor_subject) =>
    match row.opt_text_at(8, READ@) { Err(h) => (Err(h), st), Ok(actor_client_id) =>
    match script::opt_id_of(provider_raw) { Err(h) => (Err(h), st), Ok(actor_provider_id) =>
    match script::opt_id_of(user_raw) { Err(h) => (Err(h), st), Ok(actor_user_id) =>
    match row.opt_text_at(11, READ@) { Err(h) => (Err(h), st), Ok(actor_issuer) =>
    match row.opt_text_at(12, READ@) { Err(h) => (Err(h), st), Ok(source_ip) =>
    match row.text_at(13, READ@) { Err(h) => (Err(h), st), Ok(correlation_id) =>
    match row.text_at(14, READ@) { Err(h) => (Err(h), st), Ok(request_id) =>
    match script::time_of(
        created_text@,
        "invalid audit timestamp"@,
    ) { Err(h) => (Err(h), st), Ok(created_at) =>
    (
        Ok(AuditLogRecord {
            audit_log_id,
            entity_type,
            entity_id,
            action_type,
            reason,
            old_values,
            new_values,
            actor_subject,
            actor_client_id,
            actor_provider_id,
            actor_user_id,
            actor_issuer,
            source_ip,
            correlation_id,
            request_id,
            created_at,
        }),
        st,
    )
    }}}}}}}}}}}}}}}}}}}}}}}}}
}

/// The audit entry that a row holds.
pub fn map_audit_row(s: &mut Session, row: &Row) -> (r: Result<AuditLogRecord, Halt>)
    ensures
        (script::seen(r), final(s)@) == map_audit_row_spec(old(s)@, *row),
{
    let audit_log_raw = row.raw(0, READ)?;
    let entity_raw = row.raw(2, READ)?;
    let action_type = row.text(3, READ)?;
    let old_text = row.opt_text(5, READ)?;
    let new_text = row.opt_text(6, READ)?;
    let provider_raw = row.opt_raw(9, READ)?;
    let user_raw = row.opt_raw(10, READ)?;
    let created_text = row.text(15, READ)?;
    let audit_log_id = script::to_id(audit_log_raw)?;
    let entity_type = row.text(1, READ)?;
    let entity_id = script::to_id(entity_raw)?;
    let known = script::flag(s, Rule::KnownCode(CodeKind::AuditAction, action_type.clone()))?;
    if !known {
        return Err(script::fail_query("unknown audit action type"));
    }
    let reason = row.opt_text(4, READ)?;
    let old_values = parse_optional_json(s, old_text)?;
    let new_values = parse_optional_json(s, new_text)?;
    let actor_subject = row.text(7, READ)?;
    let actor_client_id = row.opt_text(8, READ)?;
    let actor_provider_id = script::to_opt_id(provider_raw)?;
    let actor_user_id = script::to_opt_id(user_raw)?;
    let actor_issuer = row.opt_text(11, READ)?;
    let source_ip = row.opt_text(12, READ)?;
    let correlation_id = row.text(13, READ)?;
    let request_id = row.text(14, READ)?;
    let created_at = script::to_time(created_text.as_str(), "invalid audit timestamp")?;
    Ok(AuditLogRecord {
        audit_log_id,
        entity_type,
        entity_id,
        action_type,
        reason,
        old_values,
        new_values,
        actor_subject,
        actor_client_id,
        actor_provider_id,
        actor_user_id,
        actor_issuer,
        source_ip,
        correlation_id,
        request_id,
        created_at,
    })
}

/// The audit entries that rows hold, in order.
pub open spec fn map_audit_rows_spec(
    st: RunView,
    rows: Seq<Row>,
    i: nat,
    done: Seq<AuditLogRecord>,
) -> (Result<Seq<AuditLogRecord>, HaltView>, RunView)
    decreases rows.len() - i,
{
    if i >= rows.len() {
        (Ok(done), st)
    } else {
        match map_audit_row_spec(st, rows[i as int]) {
            (Err(h), st) => (Err(h), st), (Ok(item), st) => map_audit_rows_spec(
                st,
                rows,
                i + 1,
                done.push(item),
            )
        }
    }
}

/// The audit entries that rows hold, in order.
pub fn map_audit_rows(s: &mut Session, rows: &Vec<Row>) -> (r: Result<Vec<AuditLogRecord>, Halt>)
    ensures
        (script::seen_view(r), final(s)@) == map_audit_rows_spec(old(s)@, rows@, 0, Seq::empty()),
{
    let mut done: Vec<AuditLogRecord> = Vec::new();
    let mut i: usize = 0;
    assert(done@ =~= Seq::empty());
    while i < rows.len()
        invariant
            i <= rows@.len(),
            map_audit_rows_spec(old(s)@, rows@, 0, Seq::empty()) == map_audit_rows_spec(
                s@,
                rows@,
                i as nat,
                done@,
            ),
        decreases rows@.len() - i,
    {
        let item = map_audit_row(s, &rows[i])?;
        done.push(item);
        i = i + 1;
    }
    Ok(done)
}

/// Each is taken in its turn, after those before it, and the first that fails ends the run.
pub proof fn map_audit_rows_go_in_turn(
    st: RunView,
    rows: Seq<Row>,
    i: nat,
    done: Seq<AuditLogRecord>,
)
    ensures
        ({
            let whole = map_audit_rows_spec(st, rows, i, done);
            let (next, at) = map_audit_row_spec(st, rows[i as int]);
            &&& i >= rows.len() ==> whole == (Ok::<_, HaltView>(done), st)
            &&& i < rows.len() ==> match next {
                Ok(item) => whole == map_audit_rows_spec(at, rows, i + 1, done.push(item)),
                Err(halt) => whole.0 == Err::<Seq<AuditLogRecord>, _>(halt) && whole.1 == at,
            }
        }),
{
}

/// The cursor after a page: its last entry, where another page follows.
pub open spec fn audit_page(found: Seq<AuditLogRecord>, limit: nat) -> (
    Seq<AuditLogRecord>,
    Option<AuditLogCursor>,
) {
    let items = page::page_items(found, limit);
    (
        items,
        if page::has_next(found, limit) && items.len() > 0 {
            Some(
                AuditLogCursor {
                    created_at: items.last().created_at,
                    audit_log_id: items.last().audit_log_id,
                },
            )
        } else {
            None
        },
    )
}

fn to_audit_page(found: Vec<AuditLogRecord>, limit: usize) -> (r: AuditLogPage)
    ensures
        r@ == audit_page(found@, limit as nat),
{
    let (items, more) = page::cut_page(found, limit);
    let next_cursor = if more && items.len() > 0 {
        let last = &items[items.len() - 1];
        Some(AuditLogCursor { created_at: last.created_at, audit_log_id: last.audit_log_id })
    } else {
        None
    };
    Page { items, next_cursor }
}

/// The instant after which a page begins, where there is a cursor.
pub open spec fn cursor_time_spec(cursor: Option<AuditLogCursor>) -> Option<UtcTime> {
    match cursor {
        Some(c) => Some(c.created_at),
        None => None,
    }
}

fn cursor_time(cursor: &Option<AuditLogCursor>) -> (r: Option<UtcTime>)
    ensures
        r == cursor_time_spec(*cursor),
{
    match cursor {
        Some(c) => Some(c.created_at),
        None => None,
    }
}

/// The identifier after which a page begins, where there is a cursor.
pub open spec fn cursor_id_spec(cursor: Option<AuditLogCursor>) -> Option<Uuid> {
    match cursor {
        Some(c) => Some(c.audit_log_id),
        None => None,
    }
}

fn cursor_id(cursor: &Option<AuditLogCursor>) -> (r: Option<Uuid>)
    ensures
        r == cursor_id_spec(*cursor),
{
    match cursor {
        Some(c) => Some(c.audit_log_id),
        None => None,
    }
}

/// A page of the audit entries that a query selects, newest first.
pub open spec fn list_audit_logs_spec(
    st: RunView,
    query: AuditLogQuery,
) -> (Result<(Seq<AuditLogRecord>, Option<AuditLogCursor>), HaltView>, RunView) {
    match script::named_rows_spec(
        st,
        AUDIT_LIST_SQL@,
        AUDIT_LIST_BINDS,
        seq![
            Bind::OptText(query.entity_type),
            Bind::OptId(query.entity_id),
            Bind::OptText(query.action_type),
            Bind::OptText(query.actor_subject),
            Bind::OptText(query.actor_client_id),
            Bind::OptId(query.actor_provider_id),
            Bind::OptId(query.actor_user_id),
            Bind::OptText(query.source_ip),
            Bind::OptText(query.correlation_id),
            Bind::OptText(query.request_id),
            Bind::OptTime(query.created_from),
            Bind::OptTime(query.created_to),
            Bind::OptTime(cursor_time_spec(query.cursor)),
            Bind::OptId(cursor_id_spec(query.cursor)),
            Bind::Int(page::fetch_limit_spec(query.limit)),
        ],
        AUDIT_COLUMNS,
        "failed to list audit logs"@,
    ) { (Err(h), st) => (Err(h), st), (Ok(found), st) =>
    match map_audit_rows_spec(
        st,
        found.rows@,
        0,
        Seq::empty(),
    ) { (Err(h), st) => (Err(h), st), (Ok(items), st) =>
    if let Some(cause) = found.failure {
        (script::failed("failed to read audit log row"@, cause@), st)
    } else {
    (Ok(audit_page(items, query.limit as nat)), st)
    }}}
}

impl OracleRepository {
    /// A page of the audit entries that a query selects, newest first.
    pub fn list_audit_logs(
        s: &mut Session,
        query: &AuditLogQuery,
    ) -> (r: Result<AuditLogPage, Halt>)
        ensures
            (script::seen_view(r), final(s)@) == list_audit_logs_spec(old(s)@, *query),
    {
        let found = script::named_rows(
            s,
            AUDIT_LIST_SQL,
            AUDIT_LIST_BINDS,
            binds::binds15(
                Bind::OptText(copied(&query.entity_type)),
                Bind::OptId(query.entity_id),
                Bind::OptText(copied(&query.action_type)),
                Bind::OptText(copied(&query.actor_subject)),
                Bind::OptText(copied(&query.actor_client_id)),
                Bind::OptId(query.actor_provider_id),
                Bind::OptId(query.actor_user_id),
                Bind::OptText(copied(&query.source_ip)),
                Bind::OptText(copied(&query.correlation_id)),
                Bind::OptText(copied(&query.request_id)),
                Bind::OptTime(query.created_from),
                Bind::OptTime(query.created_to),
                Bind::OptTime(cursor_time(&query.cursor)),
                Bind::OptId(cursor_id(&query.cursor)),
                Bind::Int(page::fetch_limit(query.limit)),
            ),
            AUDIT_COLUMNS,
            "failed to list audit logs",
        )?;
        let items = map_audit_rows(s, &found.rows)?;
        if let Some(cause) = &found.failure {
            return Err(script::fail_because("failed to read audit log row", cause.as_str()));
        }
        Ok(to_audit_page(items, query.limit as usize))
    }
}

/// A page of audit entries holds no more than its limit and goes on after its last entry exactly
/// where more was found.
pub proof fn audit_page_goes_on_after_its_last_entry(found: Seq<AuditLogRecord>, limit: nat)
    requires
        limit > 0,
    ensures
        ({
            let (shown, next) = audit_page(found, limit);
            &&& shown.len() <= limit
            &&& found.len() <= limit ==> shown == found && next is None
            &&& found.len() > limit ==> {
                &&& shown == found.take(limit as int)
                &&& next matches Some(cursor)
                &&& cursor.created_at == found[limit - 1].created_at
                &&& cursor.audit_log_id == found[limit - 1].audit_log_id
            }
        }),
{
    page::page_is_bounded_prefix(found, limit);
}

/// The listing asks for what the query names, from its cursor on, and for one entry more than its
/// limit.
pub proof fn audit_listing_asks_for_what_the_query_names(st: RunView, query: AuditLogQuery)
    requires
        st.rest.len() > 0,
        st.rest[0] matches script::Reply::Rows(found) && found.rows@.len() == 0,
    ensures
        ({
            let asked = list_audit_logs_spec(st, query).1.log[st.log.len() as int];
            &&& asked matches script::CallView::Sql { sql, binds, .. }
            &&& sql == AUDIT_LIST_SQL@
            &&& binds == seq![
                Bind::OptText(query.entity_type),
                Bind::OptId(query.entity_id),
                Bind::OptText(query.action_type),
                Bind::OptText(query.actor_subject),
                Bind::OptText(query.actor_client_id),
                Bind::OptId(query.actor_provider_id),
                Bind::OptId(query.actor_user_id),
                Bind::OptText(query.source_ip),
                Bind::OptText(query.correlation_id),
                Bind::OptText(query.request_id),
                Bind::OptTime(query.created_from),
                Bind::OptTime(query.created_to),
                Bind::OptTime(
                    match query.cursor {
                        Some(cursor) => Some(cursor.created_at),
                        None => None,
                    },
                ),
                Bind::OptId(
                    match query.cursor {
                        Some(cursor) => Some(cursor.audit_log_id),
                        None => None,
                    },
                ),
                Bind::Int((query.limit + 1) as i64),
            ]
        }),
{
}

/// The origin of a trusted command is told field for field.
pub proof fn trusted_command_is_told_by_its_actor(context: TrustedAuditContext)
    ensures
        ({
            let origin = trusted_origin_spec(context);
            &&& origin.subject == Bind::Text(context.actor_subject)
            &&& origin.client_id == Bind::OptText(context.actor_client_id)
            &&& origin.provider_id == Bind::OptId(context.actor_provider_id)
            &&& origin.user_id == Bind::OptId(context.actor_user_id)
            &&& origin.issuer == Bind::OptText(context.actor_issuer)
            &&& origin.source_ip == Bind::OptText(context.source_ip)
            &&& origin.correlation_id == Bind::Text(context.correlation_id)
            &&& origin.request_id == Bind::Text(context.request_id)
        }),
{
}

/// What the database is told, and with which values, where a run succeeds that does this:
/// stores an audit entry within the command that it is evidence of.
#[verifier::rlimit(60)]
pub proof fn insert_audit_log_is_told(
    st: RunView,
    entity_type: &'static str,
    entity_id: Uuid,
    action: AuditAction,
    reason: Bind,
    old_values: Option<Snapshot>,
    new_values: Option<Snapshot>,
    origin: AuditOrigin,
)
    ensures
        ({
            let (ended, after) = insert_audit_log_spec(
                st,
                entity_type,
                entity_id,
                action,
                reason,
                old_values,
                new_values,
                origin,
            );
            let log = after.log;
            ended is Ok ==> {
                &&& script::told_where(
                    log,
                    AUDIT_INSERT_SQL@,
                    |b: Seq<Bind>| b.len() == 15 && b[1] == Bind::Label(entity_type)
                        && b[2] == Bind::Id(entity_id) && b[3] == Bind::Label(action.code())
                        && b[4] == reason && b[7] == origin.subject && b[8] == origin.client_id
                        && b[9] == origin.provider_id && b[10] == origin.user_id
                        && b[11] == origin.issuer && b[12] == origin.source_ip
                        && b[13] == origin.correlation_id && b[14] == origin.request_id,
                ) > 0
            }
        }),
{
    broadcast use {script::runs_on_with_another, script::told_where_with_another};

}

/// Each value is read from its own column: the audit entry that a row holds.
#[verifier::rlimit(60)]
pub proof fn map_audit_row_is_read_by_column(
    st: RunView,
    row: Row,
)
    ensures
        map_audit_row_spec(st, row).0 matches Ok(read) ==> {
            &&& read.audit_log_id == row.id_at(0, READ@)->Ok_0
            &&& read.entity_type == row.text_at(1, READ@)->Ok_0
            &&& read.entity_id == row.id_at(2, READ@)->Ok_0
            &&& read.action_type == row.text_at(3, READ@)->Ok_0
            &&& read.reason == row.opt_text_at(4, READ@)->Ok_0
            &&& read.actor_subject == row.text_at(7, READ@)->Ok_0
            &&& read.actor_client_id == row.opt_text_at(8, READ@)->Ok_0
            &&& read.actor_provider_id == script::opt_id_of(row.opt_raw_at(9, READ@)->Ok_0)->Ok_0
            &&& read.actor_user_id == script::opt_id_of(row.opt_raw_at(10, READ@)->Ok_0)->Ok_0
            &&& read.actor_issuer == row.opt_text_at(11, READ@)->Ok_0
            &&& read.source_ip == row.opt_text_at(12, READ@)->Ok_0
            &&& read.correlation_id == row.text_at(13, READ@)->Ok_0
            &&& read.request_id == row.text_at(14, READ@)->Ok_0
            &&& read.created_at == script::time_of(
                row.text_at(15, READ@)->Ok_0@,
                "invalid audit timestamp"@,
            )->Ok_0
        },
{
}

/// What is asked first, and with which values, in a run that does this:
/// a page of the audit entries that a query selects, newest first.
pub proof fn list_audit_logs_asks_first(
    st: RunView,
    query: AuditLogQuery,
)
    requires
        st.rest.len() == 0,
    ensures
        list_audit_logs_spec(st, query).0 matches Err(HaltView::Ask(asked))
            && (
                asked matches script::CallView::Sql { sql, binds, .. } && sql == AUDIT_LIST_SQL@
                    && binds == seq![
                        Bind::OptText(query.entity_type),
                        Bind::OptId(query.entity_id),
                        Bind::OptText(query.action_type),
                        Bind::OptText(query.actor_subject),
                        Bind::OptText(query.actor_client_id),
                        Bind::OptId(query.actor_provider_id),
                        Bind::OptId(query.actor_user_id),
                        Bind::OptText(query.source_ip),
                        Bind::OptText(query.correlation_id),
                        Bind::OptText(query.request_id),
                        Bind::OptTime(query.created_from),
                        Bind::OptTime(query.created_to),
                        Bind::OptTime(cursor_time_spec(query.cursor)),
                        Bind::OptId(cursor_id_spec(query.cursor)),
                        Bind::Int(page::fetch_limit_spec(query.limit)),
                    ]
            ),
{
}

} // verus!
