//! Who providers are, and their contacts.
use vstd::prelude::*;
use crate::db::oracle::audit;
use crate::db::oracle::binds;
use crate::db::oracle::consult::{Answer, CodeKind, Rule};
use crate::db::oracle::document::Snapshot;
use crate::db::oracle::idempotency;
use crate::db::oracle::idempotency::IdempotencyVerdict;
use crate::db::oracle::provider;
use crate::db::oracle::repository::OracleRepository;
use crate::db::oracle::script;
use crate::db::oracle::script::{Bind, Halt, HaltView, Row, RunView, Session, UNEXPECTED_REPLY};
use crate::domain::audit::AuditAction;
use crate::domain::command::MutationCommandContext;
use crate::domain::copied;
use crate::domain::idempotency::IdempotencyRecord;
use crate::domain::page;
use crate::domain::page::Page;
use crate::domain::provider::{
    FieldUpdate, Provider, ProviderContact, ProviderContactCursor, ProviderContactListPage,
    ProviderContactListQuery, ProviderContactRecord, ProviderContactUpdate, ProviderIdentityUpdate,
};
use crate::json;
use crate::text;
use crate::time::UtcTime;
use crate::uuid::Uuid;

verus! {

/// The context of a column that cannot be read.
pub const READ_ROW: &'static str = "failed to read provider contact row";

/// The context of a statement that fails.
pub const QUERY: &'static str = "provider identity/contact operation failed";

/// Changes who a provider is.
pub const PROVIDER_IDENTITY_UPDATE_SQL: &'static str = "UPDATE providers SET legal_name=:1,trade_name=:2,tax_id=:3,registration_number=:4,email_address=:5,website_url=:6,mailing_address=:7,metadata_json=:8,updated_by_subject=:9,updated_at=SYSTIMESTAMP WHERE provider_id=:10";

/// Changes who a provider is.
pub fn provider_identity_update_sql() -> (r: &'static str)
    ensures
        r == PROVIDER_IDENTITY_UPDATE_SQL,
{
    PROVIDER_IDENTITY_UPDATE_SQL
}

/// Reads a contact of a provider.
pub const CONTACT_SELECT_SQL: &'static str = r#"SELECT provider_contact_id,provider_id,contact_type,contact_name,email,phone,mobile,sms_enabled,JSON_SERIALIZE(metadata_json RETURNING CLOB),status,created_by_subject,updated_by_subject,TO_CHAR(SYS_EXTRACT_UTC(created_at),'YYYY-MM-DD"T"HH24:MI:SS.FF3"Z"'),TO_CHAR(SYS_EXTRACT_UTC(updated_at),'YYYY-MM-DD"T"HH24:MI:SS.FF3"Z"') FROM provider_contacts WHERE provider_contact_id=:1 AND provider_id=:2"#;

/// Reads a contact of a provider.
pub fn contact_select_sql() -> (r: &'static str)
    ensures
        r == CONTACT_SELECT_SQL,
{
    CONTACT_SELECT_SQL
}

/// Lists the contacts of a provider, newest first.
pub const CONTACT_LIST_SQL: &'static str = r#"SELECT provider_contact_id,provider_id,contact_type,contact_name,email,phone,mobile,sms_enabled,JSON_SERIALIZE(metadata_json RETURNING CLOB),status,created_by_subject,updated_by_subject,TO_CHAR(SYS_EXTRACT_UTC(created_at),'YYYY-MM-DD"T"HH24:MI:SS.FF3"Z"'),TO_CHAR(SYS_EXTRACT_UTC(updated_at),'YYYY-MM-DD"T"HH24:MI:SS.FF3"Z"') FROM provider_contacts WHERE provider_id=:provider_id AND (:contact_type IS NULL OR contact_type=:contact_type) AND (:status IS NULL OR status=:status) AND (:cursor_time IS NULL OR SYS_EXTRACT_UTC(created_at)<TO_TIMESTAMP(:cursor_time,'YYYY-MM-DD"T"HH24:MI:SS.FF3"Z"') OR (SYS_EXTRACT_UTC(created_at)=TO_TIMESTAMP(:cursor_time,'YYYY-MM-DD"T"HH24:MI:SS.FF3"Z"') AND provider_contact_id<:cursor_id)) ORDER BY created_at DESC,provider_contact_id DESC FETCH FIRST :fetch_limit ROWS ONLY"#;

/// Lists the contacts of a provider, newest first.
pub fn contact_list_sql() -> (r: &'static str)
    ensures
        r == CONTACT_LIST_SQL,
{
    CONTACT_LIST_SQL
}

/// Stores a contact of a provider.
pub const INSERT_CONTACT_SQL: &'static str = "INSERT INTO provider_contacts (provider_contact_id,provider_id,contact_type,contact_name,email,phone,mobile,sms_enabled,metadata_json,status,created_by_subject,updated_by_subject) VALUES (:1,:2,:3,:4,:5,:6,:7,:8,:9,'ACTIVE',:10,:10)";

/// Changes a contact of a provider.
pub const UPDATE_CONTACT_SQL: &'static str = "UPDATE provider_contacts SET contact_type=:1,contact_name=:2,email=:3,phone=:4,mobile=:5,sms_enabled=:6,metadata_json=:7,updated_by_subject=:8,updated_at=SYSTIMESTAMP WHERE provider_contact_id=:9 AND provider_id=:10";

/// Sets the status of a contact.
pub const SET_CONTACT_STATUS_SQL: &'static str = "UPDATE provider_contacts SET status=:1,updated_by_subject=:2,updated_at=SYSTIMESTAMP WHERE provider_contact_id=:3 AND provider_id=:4";

/// Locks a provider.
pub const LOCK_PROVIDER_SQL: &'static str = "SELECT status FROM providers WHERE provider_id=:1 FOR UPDATE";

/// Counts a provider.
pub const COUNT_PROVIDER_SQL: &'static str = "SELECT COUNT(*) FROM providers WHERE provider_id=:1";

/// The names of the values that select contacts.
pub const CONTACT_LIST_BINDS: &'static str = "provider_id,contact_type,status,cursor_time,cursor_id,fetch_limit";

/// What the columns of a contact hold.
pub const CONTACT_COLUMNS: &'static str = "rrtTTTTntttttt";

/// Locks and reads a contact of a provider.
pub open spec fn contact_lock_sql_text() -> Seq<char> {
    CONTACT_SELECT_SQL@ + " FOR UPDATE"@
}

fn contact_lock_sql() -> (r: String)
    ensures
        r@ == contact_lock_sql_text(),
{
    text::joined2(CONTACT_SELECT_SQL, " FOR UPDATE")
}

/// What became of a change of who a provider is. A replayed answer is a JSON document.
#[derive(Debug)]
pub enum ProviderIdentityMutationOutcome {
    Applied(Box<Provider>),
    Replayed(String),
    ProviderNotFound,
    IdempotencyConflict,
    IdempotencyInProgress,
    IdempotencyInvalidState,
}

/// What became of a change of a contact. A replayed answer is a JSON document.
#[derive(Debug)]
pub enum ProviderContactMutationOutcome {
    Applied(Box<ProviderContactRecord>),
    Replayed(String),
    ProviderNotFound,
    ContactNotFound,
    ContractInvalid,
    InvalidState,
    IdempotencyConflict,
    IdempotencyInProgress,
    IdempotencyInvalidState,
}

/// A field after a change.
pub open spec fn field_after(current: Option<String>, update: FieldUpdate) -> Option<String> {
    match update {
        FieldUpdate::Unchanged => current,
        FieldUpdate::Replace(value) => Some(value),
        FieldUpdate::Clear => None,
    }
}

/// A field after a change.
pub fn apply_field(current: &Option<String>, update: &FieldUpdate) -> (r: Option<String>)
    ensures
        r == field_after(*current, *update),
{
    match update {
        FieldUpdate::Unchanged => copied(current),
        FieldUpdate::Replace(value) => Some(value.clone()),
        FieldUpdate::Clear => None,
    }
}

/// A text after a change that may leave it.
pub open spec fn text_after(current: String, update: Option<String>) -> String {
    match update {
        Some(value) => value,
        None => current,
    }
}

fn apply_text(current: &String, update: &Option<String>) -> (r: String)
    ensures
        r == text_after(*current, *update),
{
    match update {
        Some(value) => value.clone(),
        None => current.clone(),
    }
}

/// A flag after a change that may leave it.
pub open spec fn flag_after(current: bool, update: Option<bool>) -> bool {
    match update {
        Some(value) => value,
        None => current,
    }
}

fn apply_flag(current: bool, update: Option<bool>) -> (r: bool)
    ensures
        r == flag_after(current, update),
{
    match update {
        Some(value) => value,
        None => current,
    }
}

/// A contact with a change applied, before it is brought into its normal form.
pub open spec fn merged_contact(
    before: ProviderContactRecord,
    update: ProviderContactUpdate,
) -> ProviderContact {
    ProviderContact {
        provider_contact_id: before.provider_contact_id,
        contact_type: text_after(before.contact_type, update.contact_type),
        name: field_after(before.name, update.name),
        email: field_after(before.email, update.email),
        phone: field_after(before.phone, update.phone),
        mobile: field_after(before.mobile, update.mobile),
        sms_enabled: flag_after(before.sms_enabled, update.sms_enabled),
        metadata: text_after(before.metadata, update.metadata),
    }
}

/// A contact with a change applied, before it is brought into its normal form.
pub fn merge_contact(
    before: &ProviderContactRecord,
    update: &ProviderContactUpdate,
) -> (r: ProviderContact)
    ensures
        r == merged_contact(*before, *update),
{
    ProviderContact {
        provider_contact_id: before.provider_contact_id,
        contact_type: apply_text(&before.contact_type, &update.contact_type),
        name: apply_field(&before.name, &update.name),
        email: apply_field(&before.email, &update.email),
        phone: apply_field(&before.phone, &update.phone),
        mobile: apply_field(&before.mobile, &update.mobile),
        sms_enabled: apply_flag(before.sms_enabled, update.sms_enabled),
        metadata: apply_text(&before.metadata, &update.metadata),
    }
}

/// A change that changes no field leaves a contact as it is.
pub proof fn unchanged_contact_keeps_fields(
    before: ProviderContactRecord,
    update: ProviderContactUpdate,
)
    requires
        update.contact_type is None,
        update.name is Unchanged,
        update.email is Unchanged,
        update.phone is Unchanged,
        update.mobile is Unchanged,
        update.sms_enabled is None,
        update.metadata is None,
    ensures
        ({
            let after = merged_contact(before, update);
            &&& after.provider_contact_id == before.provider_contact_id
            &&& after.contact_type == before.contact_type
            &&& after.name == before.name
            &&& after.email == before.email
            &&& after.phone == before.phone
            &&& after.mobile == before.mobile
            &&& after.sms_enabled == before.sms_enabled
            &&& after.metadata == before.metadata
        }),
{
}

/// What a stored record means for a change of who a provider is.
pub open spec fn identity_verdict(verdict: IdempotencyVerdict) -> ProviderIdentityMutationOutcome {
    match verdict {
        IdempotencyVerdict::Conflict => ProviderIdentityMutationOutcome::IdempotencyConflict,
        IdempotencyVerdict::Replay(snapshot) => ProviderIdentityMutationOutcome::Replayed(snapshot),
        IdempotencyVerdict::InProgress => ProviderIdentityMutationOutcome::IdempotencyInProgress,
        IdempotencyVerdict::InvalidState => {
            ProviderIdentityMutationOutcome::IdempotencyInvalidState
        },
    }
}

/// What a stored record means for a change of who a provider is with this request hash.
pub fn classify_identity_idempotency(
    existing: &IdempotencyRecord,
    request_hash: &String,
) -> (r: ProviderIdentityMutationOutcome)
    ensures
        r == identity_verdict(idempotency::idempotency_verdict(*existing, *request_hash)),
{
    match idempotency::judge_idempotency(existing, request_hash) {
        IdempotencyVerdict::Conflict => ProviderIdentityMutationOutcome::IdempotencyConflict,
        IdempotencyVerdict::Replay(snapshot) => ProviderIdentityMutationOutcome::Replayed(snapshot),
        IdempotencyVerdict::InProgress => ProviderIdentityMutationOutcome::IdempotencyInProgress,
        IdempotencyVerdict::InvalidState => {
            ProviderIdentityMutationOutcome::IdempotencyInvalidState
        },
    }
}

/// What a stored record means for a change of a contact.
pub open spec fn contact_verdict(verdict: IdempotencyVerdict) -> ProviderContactMutationOutcome {
    match verdict {
        IdempotencyVerdict::Conflict => ProviderContactMutationOutcome::IdempotencyConflict,
        IdempotencyVerdict::Replay(snapshot) => ProviderContactMutationOutcome::Replayed(snapshot),
        IdempotencyVerdict::InProgress => ProviderContactMutationOutcome::IdempotencyInProgress,
        IdempotencyVerdict::InvalidState => ProviderContactMutationOutcome::IdempotencyInvalidState,
    }
}

/// What a stored record means for a change of a contact with this request hash.
pub fn classify_contact_idempotency(
    existing: &IdempotencyRecord,
    request_hash: &String,
) -> (r: ProviderContactMutationOutcome)
    ensures
        r == contact_verdict(idempotency::idempotency_verdict(*existing, *request_hash)),
{
    match idempotency::judge_idempotency(existing, request_hash) {
        IdempotencyVerdict::Conflict => ProviderContactMutationOutcome::IdempotencyConflict,
        IdempotencyVerdict::Replay(snapshot) => ProviderContactMutationOutcome::Replayed(snapshot),
        IdempotencyVerdict::InProgress => ProviderContactMutationOutcome::IdempotencyInProgress,
        IdempotencyVerdict::InvalidState => ProviderContactMutationOutcome::IdempotencyInvalidState,
    }
}

/// Locks and reads a provider, where there is one.
pub open spec fn lock_provider_spec(
    st: RunView,
    provider_id: Uuid,
) -> (Result<Option<Provider>, HaltView>, RunView) {
    match script::maybe_text_spec(
        st,
        LOCK_PROVIDER_SQL@,
        seq![Bind::Id(provider_id)],
        QUERY@,
    ) { (Err(h), st) => (Err(h), st), (Ok(locked), st) =>
    if locked is None {
        (Ok(None), st)
    } else {
    match provider::fetch_provider_spec(
        st,
        provider_id,
    ) { (Err(h), st) => (Err(h), st), (Ok(found), st) =>
    (Ok(Some(found)), st)
    }}}
}

/// Locks and reads a provider, where there is one.
pub fn lock_provider(s: &mut Session, provider_id: Uuid) -> (r: Result<Option<Provider>, Halt>)
    ensures
        (script::seen(r), final(s)@) == lock_provider_spec(old(s)@, provider_id),
{
    let locked = script::maybe_text(
        s,
        LOCK_PROVIDER_SQL,
        binds::binds1(Bind::Id(provider_id)),
        QUERY,
    )?;
    if locked.is_none() {
        return Ok(None);
    }
    let found = provider::fetch_provider(s, provider_id)?;
    Ok(Some(found))
}

/// Whether there is a provider.
pub open spec fn provider_exists_spec(
    st: RunView,
    provider_id: Uuid,
) -> (Result<bool, HaltView>, RunView) {
    match script::one_int_spec(
        st,
        COUNT_PROVIDER_SQL@,
        seq![Bind::Id(provider_id)],
        QUERY@,
    ) { (Err(h), st) => (Err(h), st), (Ok(count), st) =>
    (Ok(count == 1), st)
    }
}

/// Whether there is a provider.
pub fn provider_exists(s: &mut Session, provider_id: Uuid) -> (r: Result<bool, Halt>)
    ensures
        (script::seen(r), final(s)@) == provider_exists_spec(old(s)@, provider_id),
{
    let count = script::one_int(
        s,
        COUNT_PROVIDER_SQL,
        binds::binds1(Bind::Id(provider_id)),
        QUERY,
    )?;
    Ok(count == 1)
}

/// The contact that a row holds.
#[verifier::opaque]
pub open spec fn map_contact_row_spec(
    st: RunView,
    row: Row,
) -> (Result<ProviderContactRecord, HaltView>, RunView) {
    match row.raw_at(0, READ_ROW@) { Err(h) => (Err(h), st), Ok(contact_raw) =>
    match row.raw_at(1, READ_ROW@) { Err(h) => (Err(h), st), Ok(provider_raw) =>
    match row.text_at(2, READ_ROW@) { Err(h) => (Err(h), st), Ok(contact_type) =>
    match row.text_at(8, READ_ROW@) { Err(h) => (Err(h), st), Ok(metadata) =>
    match row.text_at(9, READ_ROW@) { Err(h) => (Err(h), st), Ok(status) =>
    match row.text_at(12, READ_ROW@) { Err(h) => (Err(h), st), Ok(created_text) =>
    match row.text_at(13, READ_ROW@) { Err(h) => (Err(h), st), Ok(updated_text) =>
    match script::id_of(contact_raw@) { Err(h) => (Err(h), st), Ok(provider_contact_id) =>
    match script::id_of(provider_raw@) { Err(h) => (Err(h), st), Ok(provider_id) =>
    match script::flag_spec(
        st,
        Rule::KnownCode(CodeKind::ProviderContactType, contact_type),
    ) { (Err(h), st) => (Err(h), st), (Ok(known_contact_type), st) =>
    if !known_contact_type {
        (script::query_fault("unknown provider contact type"@), st)
    } else {
    match row.opt_text_at(3, READ_ROW@) { Err(h) => (Err(h), st), Ok(name) =>
    match row.opt_text_at(4, READ_ROW@) { Err(h) => (Err(h), st), Ok(email) =>
    match row.opt_text_at(5, READ_ROW@) { Err(h) => (Err(h), st), Ok(phone) =>
    match row.opt_text_at(6, READ_ROW@) { Err(h) => (Err(h), st), Ok(mobile) =>
    match row.small_at(7, READ_ROW@) { Err(h) => (Err(h), st), Ok(sms) =>
    match json::json_reading_fault(
        metadata@,
    ) { Some(e) => (script::failed("invalid provider contact metadata"@, e), st), None =>
    match script::flag_spec(
        st,
        Rule::KnownCode(CodeKind::ProviderContactStatus, status),
    ) { (Err(h), st) => (Err(h), st), (Ok(known_status), st) =>
    if !known_status {
        (script::query_fault("unknown provider contact status"@), st)
    } else {
    match row.text_at(10, READ_ROW@) { Err(h) => (Err(h), st), Ok(created_by_subject) =>
    match row.text_at(11, READ_ROW@) { Err(h) => (Err(h), st), Ok(updated_by_subject) =>
    match script::time_of(
        created_text@,
        "invalid provider contact timestamp"@,
    ) { Err(h) => (Err(h), st), Ok(created_at) =>
    match script::time_of(
        updated_text@,
        "invalid provider contact timestamp"@,
    ) { Err(h) => (Err(h), st), Ok(updated_at) =>
    (
        Ok(ProviderContactRecord {
            provider_contact_id,
            provider_id,
            contact_type,
            name,
            email,
            phone,
            mobile,
            sms_enabled: sms == 1,
            metadata,
            status,
            created_by_subject,
            updated_by_subject,
            created_at,
            updated_at,
        }),
        st,
    )
    }}}}}}}}}}}}}}}}}}}}}}}
}

/// The contact that a row holds.
pub fn map_contact_row(s: &mut Session, row: &Row) -> (r: Result<ProviderContactRecord, Halt>)
    ensures
        (script::seen(r), final(s)@) == map_contact_row_spec(old(s)@, *row),
{
    proof {
        reveal(map_contact_row_spec);
    }
    let contact_raw = row.raw(0, READ_ROW)?;
    let provider_raw = row.raw(1, READ_ROW)?;
    let contact_type = row.text(2, READ_ROW)?;
    let metadata = row.text(8, READ_ROW)?;
    let status = row.text(9, READ_ROW)?;
    let created_text = row.text(12, READ_ROW)?;
    let updated_text = row.text(13, READ_ROW)?;
    let provider_contact_id = script::to_id(contact_raw)?;
    let provider_id = script::to_id(provider_raw)?;
    let known_contact_type = script::flag(
        s,
        Rule::KnownCode(CodeKind::ProviderContactType, contact_type.clone()),
    )?;
    if !known_contact_type {
        return Err(script::fail_query("unknown provider contact type"));
    }
    let name = row.opt_text(3, READ_ROW)?;
    let email = row.opt_text(4, READ_ROW)?;
    let phone = row.opt_text(5, READ_ROW)?;
    let mobile = row.opt_text(6, READ_ROW)?;
    let sms: i64 = row.small(7, READ_ROW)?;
    match json::reading_fault(metadata.as_str()) {
        Some(e) => {
            return Err(script::fail_because("invalid provider contact metadata", e.as_str()));
        },
        None => {},
    }
    let known_status = script::flag(
        s,
        Rule::KnownCode(CodeKind::ProviderContactStatus, status.clone()),
    )?;
    if !known_status {
        return Err(script::fail_query("unknown provider contact status"));
    }
    let created_by_subject = row.text(10, READ_ROW)?;
    let updated_by_subject = row.text(11, READ_ROW)?;
    let created_at = script::to_time(created_text.as_str(), "invalid provider contact timestamp")?;
    let updated_at = script::to_time(updated_text.as_str(), "invalid provider contact timestamp")?;
    Ok(ProviderContactRecord {
        provider_contact_id,
        provider_id,
        contact_type,
        name,
        email,
        phone,
        mobile,
        sms_enabled: sms == 1,
        metadata,
        status,
        created_by_subject,
        updated_by_subject,
        created_at,
        updated_at,
    })
}

/// Reading a row changes nothing.
pub broadcast proof fn map_contact_row_changes_nothing(st: RunView, row: Row)
    ensures
        script::writes((#[trigger] map_contact_row_spec(st, row)).1.log) == script::writes(st.log),
        forall|sql: Seq<char>| #[trigger]
            script::runs(map_contact_row_spec(st, row).1.log, sql) == script::runs(st.log, sql),
        forall|spared: Set<Seq<char>>| #[trigger]
            script::writes_beside(
                map_contact_row_spec(st, row).1.log,
                spared,
            ) == script::writes_beside(st.log, spared),
        forall|sql: Seq<char>, binds: Seq<Bind>| #[trigger]
            script::runs_on(map_contact_row_spec(st, row).1.log, sql, binds) == script::runs_on(
                st.log,
                sql,
                binds,
            ),
        forall|sql: Seq<char>| #[trigger]
            script::told(map_contact_row_spec(st, row).1.log, sql) == script::told(st.log, sql),
        forall|sql: Seq<char>, such: spec_fn(Seq<Bind>) -> bool| #[trigger]
            script::told_where(map_contact_row_spec(st, row).1.log, sql, such) == script::told_where(
                st.log,
                sql,
                such,
            ),
        forall|sql: Seq<char>, id: Uuid| #[trigger]
            script::stored_under(map_contact_row_spec(st, row).1.log, sql, id) == script::stored_under(
                st.log,
                sql,
                id,
            ),
{
    broadcast use {
        script::writes_with_another,
        script::runs_with_another,
        script::runs_on_with_another,
        script::told_with_another,
        script::told_where_with_another,
        script::stored_under_with_another,
        script::writes_beside_with_another,
    };

    reveal(map_contact_row_spec);
}

/// The contact that a statement finds, where it finds one.
pub open spec fn fetch_optional_contact_sql_spec(
    st: RunView,
    statement: Seq<char>,
    provider_id: Uuid,
    contact_id: Uuid,
) -> (Result<Option<ProviderContactRecord>, HaltView>, RunView) {
    match script::first_row_spec(
        st,
        statement,
        seq![Bind::Id(contact_id), Bind::Id(provider_id)],
        CONTACT_COLUMNS,
        QUERY@,
        QUERY@,
    ) { (Err(h), st) => (Err(h), st), (Ok(found), st) =>
    match found {
    None => {
        (Ok(None), st)
    },
    Some(row) =>
    match map_contact_row_spec(st, row) { (Err(h), st) => (Err(h), st), (Ok(contact), st) =>
    (Ok(Some(contact)), st)
    }}}
}

/// The contact that a statement finds, where it finds one.
pub fn fetch_optional_contact_sql(
    s: &mut Session,
    statement: &str,
    provider_id: Uuid,
    contact_id: Uuid,
) -> (r: Result<Option<ProviderContactRecord>, Halt>)
    ensures
        (script::seen(r), final(s)@) == fetch_optional_contact_sql_spec(
            old(s)@,
            statement@,
            provider_id,
            contact_id,
        ),
{
    let found = script::first_row(
        s,
        statement,
        binds::binds2(Bind::Id(contact_id), Bind::Id(provider_id)),
        CONTACT_COLUMNS,
        QUERY,
        QUERY,
    )?;
    let row = match found {
        Some(v) => v,
        None => {
            return Ok(None);
        },
    };
    let contact = map_contact_row(s, row)?;
    Ok(Some(contact))
}

/// Locks and reads a contact of a provider, where there is one.
pub open spec fn lock_contact_spec(
    st: RunView,
    provider_id: Uuid,
    contact_id: Uuid,
) -> (Result<Option<ProviderContactRecord>, HaltView>, RunView) {
    fetch_optional_contact_sql_spec(st, contact_lock_sql_text(), provider_id, contact_id)
}

/// Locks and reads a contact of a provider, where there is one.
pub fn lock_contact(
    s: &mut Session,
    provider_id: Uuid,
    contact_id: Uuid,
) -> (r: Result<Option<ProviderContactRecord>, Halt>)
    ensures
        (script::seen(r), final(s)@) == lock_contact_spec(old(s)@, provider_id, contact_id),
{
    fetch_optional_contact_sql(s, contact_lock_sql().as_str(), provider_id, contact_id)
}

/// Reads a contact of a provider, where there is one.
pub open spec fn fetch_contact_spec(
    st: RunView,
    provider_id: Uuid,
    contact_id: Uuid,
) -> (Result<Option<ProviderContactRecord>, HaltView>, RunView) {
    fetch_optional_contact_sql_spec(st, CONTACT_SELECT_SQL@, provider_id, contact_id)
}

/// Reads a contact of a provider, where there is one.
pub fn fetch_contact(
    s: &mut Session,
    provider_id: Uuid,
    contact_id: Uuid,
) -> (r: Result<Option<ProviderContactRecord>, Halt>)
    ensures
        (script::seen(r), final(s)@) == fetch_contact_spec(old(s)@, provider_id, contact_id),
{
    fetch_optional_contact_sql(s, CONTACT_SELECT_SQL, provider_id, contact_id)
}

/// The snapshot of a contact, where there is one.
pub open spec fn contact_snapshot_spec(
    st: RunView,
    contact: Option<ProviderContactRecord>,
) -> (Result<Option<Snapshot>, HaltView>, RunView) {
    match contact {
    None => {
        (Ok(None), st)
    },
    Some(known) =>
    match script::consult_text_spec(
        st,
        Rule::ContactSnapshot(known),
    ) { (Err(h), st) => (Err(h), st), (Ok(snapshot), st) =>
    (Ok(Some(Snapshot::Text(snapshot))), st)
    }}
}

/// The snapshot of a contact, where there is one.
pub fn contact_snapshot(
    s: &mut Session,
    contact: &Option<ProviderContactRecord>,
) -> (r: Result<Option<Snapshot>, Halt>)
    ensures
        (script::seen(r), final(s)@) == contact_snapshot_spec(old(s)@, *contact),
{
    let known = match contact {
        Some(v) => v,
        None => {
            return Ok(None);
        },
    };
    let snapshot = script::consult_text(s, Rule::ContactSnapshot(known.clone()))?;
    Ok(Some(Snapshot::Text(snapshot)))
}

/// Audits a change of a contact and completes its command.
pub open spec fn finish_contact_mutation_spec(
    st: RunView,
    context: MutationCommandContext,
    before: Option<ProviderContactRecord>,
    after: ProviderContactRecord,
    action: AuditAction,
    reason: String,
) -> (Result<(), HaltView>, RunView) {
    match script::consult_text_spec(
        st,
        Rule::ContactSnapshot(after),
    ) { (Err(h), st) => (Err(h), st), (Ok(snapshot), st) =>
    match contact_snapshot_spec(
        st,
        before,
    ) { (Err(h), st) => (Err(h), st), (Ok(old_snapshot), st) =>
    match audit::insert_audit_log_spec(
        st,
        "PROVIDER_CONTACT",
        after.provider_contact_id,
        action,
        Bind::Text(reason),
        old_snapshot,
        Some(Snapshot::Text(snapshot)),
        audit::trusted_origin_spec(context.audit),
    ) { (Err(h), st) => (Err(h), st), (Ok(_), st) =>
    idempotency::complete_idempotency_record_spec(
        st,
        context.operation_type,
        context.idempotency_key,
        "provider_contact",
        after.provider_contact_id,
        Snapshot::Text(snapshot),
    )
    }}}
}

/// Audits a change of a contact and completes its command.
pub fn finish_contact_mutation(
    s: &mut Session,
    context: &MutationCommandContext,
    before: &Option<ProviderContactRecord>,
    after: &ProviderContactRecord,
    action: AuditAction,
    reason: &String,
) -> (r: Result<(), Halt>)
    ensures
        (script::seen(r), final(s)@) == finish_contact_mutation_spec(
            old(s)@,
            *context,
            *before,
            *after,
            action,
            *reason,
        ),
{
    let snapshot = script::consult_text(s, Rule::ContactSnapshot(after.clone()))?;
    let old_snapshot = contact_snapshot(s, before)?;
    audit::insert_audit_log(
        s,
        "PROVIDER_CONTACT",
        after.provider_contact_id,
        action,
        Bind::Text(reason.clone()),
        old_snapshot,
        Some(Snapshot::Text(snapshot.clone())),
        audit::trusted_origin(&context.audit),
    )?;
    idempotency::complete_idempotency_record(
        s,
        &context.operation_type,
        &context.idempotency_key,
        "provider_contact",
        after.provider_contact_id,
        Snapshot::Text(snapshot),
    )
}

/// Changes who a provider is. Under one idempotency key this happens once.
pub open spec fn update_provider_identity_atomic_spec(
    st: RunView,
    context: MutationCommandContext,
    provider_id: Uuid,
    update: ProviderIdentityUpdate,
) -> (Result<ProviderIdentityMutationOutcome, HaltView>, RunView) {
    match lock_provider_spec(st, provider_id) { (Err(h), st) => (Err(h), st), (Ok(locked), st) =>
    match locked {
    None => {
        (Ok(ProviderIdentityMutationOutcome::ProviderNotFound), st)
    },
    Some(before) =>
    match idempotency::fetch_idempotency_record_spec(
        st,
        context.operation_type,
        context.idempotency_key,
    ) { (Err(h), st) => (Err(h), st), (Ok(existing), st) =>
    if let Some(record) = existing {
        (Ok(identity_verdict(idempotency::idempotency_verdict(record, context.request_hash))), st)
    } else {
    match idempotency::insert_idempotency_record_spec(
        st,
        context.record,
    ) { (Err(h), st) => (Err(h), st), (Ok(_), st) =>
    match script::execute_spec(
        st,
        PROVIDER_IDENTITY_UPDATE_SQL@,
        seq![
            Bind::Text(text_after(before.legal_name, update.legal_name)),
            Bind::Text(text_after(before.trade_name, update.trade_name)),
            Bind::OptText(field_after(before.tax_id, update.tax_id)),
            Bind::OptText(field_after(before.registration_number, update.registration_number)),
            Bind::OptText(field_after(before.email_address, update.email_address)),
            Bind::OptText(field_after(before.website_url, update.website_url)),
            Bind::OptText(field_after(before.mailing_address, update.mailing_address)),
            Bind::JsonText(text_after(before.metadata, update.metadata)),
            Bind::Text(context.actor.subject),
            Bind::Id(provider_id),
        ],
        QUERY@,
    ) { (Err(h), st) => (Err(h), st), (Ok(_), st) =>
    match provider::fetch_provider_spec(
        st,
        provider_id,
    ) { (Err(h), st) => (Err(h), st), (Ok(after), st) =>
    match script::consult_text_spec(
        st,
        Rule::ProviderSnapshot(after),
    ) { (Err(h), st) => (Err(h), st), (Ok(snapshot), st) =>
    match script::consult_text_spec(
        st,
        Rule::ProviderSnapshot(before),
    ) { (Err(h), st) => (Err(h), st), (Ok(old_snapshot), st) =>
    match audit::insert_audit_log_spec(
        st,
        "PROVIDER",
        provider_id,
        AuditAction::Update,
        Bind::Text(update.reason),
        Some(Snapshot::Text(old_snapshot)),
        Some(Snapshot::Text(snapshot)),
        audit::trusted_origin_spec(context.audit),
    ) { (Err(h), st) => (Err(h), st), (Ok(_), st) =>
    match idempotency::complete_idempotency_record_spec(
        st,
        context.operation_type,
        context.idempotency_key,
        "provider",
        provider_id,
        Snapshot::Text(snapshot),
    ) { (Err(h), st) => (Err(h), st), (Ok(_), st) =>
    (Ok(ProviderIdentityMutationOutcome::Applied(Box::new(after))), st)
    }}}}}}}}}}}
}

impl OracleRepository {
    /// Changes who a provider is. Under one idempotency key this happens once.
    pub fn update_provider_identity_atomic(
        s: &mut Session,
        context: &MutationCommandContext,
        provider_id: Uuid,
        update: &ProviderIdentityUpdate,
    ) -> (r: Result<ProviderIdentityMutationOutcome, Halt>)
        ensures
            (script::seen(r), final(s)@) == update_provider_identity_atomic_spec(
                old(s)@,
                *context,
                provider_id,
                *update,
            ),
    {
        let locked = lock_provider(s, provider_id)?;
        let before = match &locked {
            Some(v) => v,
            None => {
                return Ok(ProviderIdentityMutationOutcome::ProviderNotFound);
            },
        };
        let existing = idempotency::fetch_idempotency_record(
            s,
            &context.operation_type,
            &context.idempotency_key,
        )?;
        if let Some(record) = &existing {
            return Ok(classify_identity_idempotency(record, &context.request_hash));
        }
        idempotency::insert_idempotency_record(s, &context.record)?;
        script::execute(
            s,
            PROVIDER_IDENTITY_UPDATE_SQL,
            binds::binds10(
                Bind::Text(apply_text(&before.legal_name, &update.legal_name)),
                Bind::Text(apply_text(&before.trade_name, &update.trade_name)),
                Bind::OptText(apply_field(&before.tax_id, &update.tax_id)),
                Bind::OptText(apply_field(
                    &before.registration_number,
                    &update.registration_number,
                )),
                Bind::OptText(apply_field(&before.email_address, &update.email_address)),
                Bind::OptText(apply_field(&before.website_url, &update.website_url)),
                Bind::OptText(apply_field(&before.mailing_address, &update.mailing_address)),
                Bind::JsonText(apply_text(&before.metadata, &update.metadata)),
                Bind::Text(context.actor.subject.clone()),
                Bind::Id(provider_id),
            ),
            QUERY,
        )?;
        let after = provider::fetch_provider(s, provider_id)?;
        let snapshot = script::consult_text(s, Rule::ProviderSnapshot(after.clone()))?;
        let old_snapshot = script::consult_text(s, Rule::ProviderSnapshot(before.clone()))?;
        audit::insert_audit_log(
            s,
            "PROVIDER",
            provider_id,
            AuditAction::Update,
            Bind::Text(update.reason.clone()),
            Some(Snapshot::Text(old_snapshot)),
            Some(Snapshot::Text(snapshot.clone())),
            audit::trusted_origin(&context.audit),
        )?;
        idempotency::complete_idempotency_record(
            s,
            &context.operation_type,
            &context.idempotency_key,
            "provider",
            provider_id,
            Snapshot::Text(snapshot),
        )?;
        Ok(ProviderIdentityMutationOutcome::Applied(Box::new(after)))
    }
}

/// Stores a contact of a provider. Under one idempotency key this happens once.
pub open spec fn create_provider_contact_atomic_spec(
    st: RunView,
    context: MutationCommandContext,
    provider_id: Uuid,
    contact: ProviderContact,
    reason: String,
) -> (Result<ProviderContactMutationOutcome, HaltView>, RunView) {
    match lock_provider_spec(st, provider_id) { (Err(h), st) => (Err(h), st), (Ok(locked), st) =>
    if locked is None {
        (Ok(ProviderContactMutationOutcome::ProviderNotFound), st)
    } else {
    match idempotency::fetch_idempotency_record_spec(
        st,
        context.operation_type,
        context.idempotency_key,
    ) { (Err(h), st) => (Err(h), st), (Ok(existing), st) =>
    if let Some(record) = existing {
        (Ok(contact_verdict(idempotency::idempotency_verdict(record, context.request_hash))), st)
    } else {
    match idempotency::insert_idempotency_record_spec(
        st,
        context.record,
    ) { (Err(h), st) => (Err(h), st), (Ok(_), st) =>
    match script::execute_spec(
        st,
        INSERT_CONTACT_SQL@,
        seq![
            Bind::Id(contact.provider_contact_id),
            Bind::Id(provider_id),
            Bind::Text(contact.contact_type),
            Bind::OptText(contact.name),
            Bind::OptText(contact.email),
            Bind::OptText(contact.phone),
            Bind::OptText(contact.mobile),
            Bind::Flag(contact.sms_enabled),
            Bind::JsonText(contact.metadata),
            Bind::Text(context.actor.subject),
        ],
        QUERY@,
    ) { (Err(h), st) => (Err(h), st), (Ok(_), st) =>
    match fetch_contact_spec(
        st,
        provider_id,
        contact.provider_contact_id,
    ) { (Err(h), st) => (Err(h), st), (Ok(found), st) =>
    match found {
    None => {
        (script::query_fault("newly inserted provider contact exists"@), st)
    },
    Some(created) =>
    match finish_contact_mutation_spec(
        st,
        context,
        None,
        created,
        AuditAction::Insert,
        reason,
    ) { (Err(h), st) => (Err(h), st), (Ok(_), st) =>
    (Ok(ProviderContactMutationOutcome::Applied(Box::new(created))), st)
    }}}}}}}}}
}

impl OracleRepository {
    /// Stores a contact of a provider. Under one idempotency key this happens once.
    pub fn create_provider_contact_atomic(
        s: &mut Session,
        context: &MutationCommandContext,
        provider_id: Uuid,
        contact: &ProviderContact,
        reason: &String,
    ) -> (r: Result<ProviderContactMutationOutcome, Halt>)
        ensures
            (script::seen(r), final(s)@) == create_provider_contact_atomic_spec(
                old(s)@,
                *context,
                provider_id,
                *contact,
                *reason,
            ),
    {
        let locked = lock_provider(s, provider_id)?;
        if locked.is_none() {
            return Ok(ProviderContactMutationOutcome::ProviderNotFound);
        }
        let existing = idempotency::fetch_idempotency_record(
            s,
            &context.operation_type,
            &context.idempotency_key,
        )?;
        if let Some(record) = &existing {
            return Ok(classify_contact_idempotency(record, &context.request_hash));
        }
        idempotency::insert_idempotency_record(s, &context.record)?;
        script::execute(
            s,
            INSERT_CONTACT_SQL,
            binds::binds10(
                Bind::Id(contact.provider_contact_id),
                Bind::Id(provider_id),
                Bind::Text(contact.contact_type.clone()),
                Bind::OptText(copied(&contact.name)),
                Bind::OptText(copied(&contact.email)),
                Bind::OptText(copied(&contact.phone)),
                Bind::OptText(copied(&contact.mobile)),
                Bind::Flag(contact.sms_enabled),
                Bind::JsonText(contact.metadata.clone()),
                Bind::Text(context.actor.subject.clone()),
            ),
            QUERY,
        )?;
        let found = fetch_contact(s, provider_id, contact.provider_contact_id)?;
        let created = match found {
            Some(v) => v,
            None => {
                return Err(script::fail_query("newly inserted provider contact exists"));
            },
        };
        finish_contact_mutation(s, context, &None, &created, AuditAction::Insert, reason)?;
        Ok(ProviderContactMutationOutcome::Applied(Box::new(created)))
    }
}

/// Changes a locked contact to its normal form.
#[verifier::opaque]
pub open spec fn store_contact_spec(
    st: RunView,
    context: MutationCommandContext,
    provider_id: Uuid,
    contact_id: Uuid,
    update: ProviderContactUpdate,
    before: Option<ProviderContactRecord>,
    merged: ProviderContact,
) -> (Result<ProviderContactMutationOutcome, HaltView>, RunView) {
    match idempotency::insert_idempotency_record_spec(
        st,
        context.record,
    ) { (Err(h), st) => (Err(h), st), (Ok(_), st) =>
    match script::execute_spec(
        st,
        UPDATE_CONTACT_SQL@,
        seq![
            Bind::Text(merged.contact_type),
            Bind::OptText(merged.name),
            Bind::OptText(merged.email),
            Bind::OptText(merged.phone),
            Bind::OptText(merged.mobile),
            Bind::Flag(merged.sms_enabled),
            Bind::JsonText(merged.metadata),
            Bind::Text(context.actor.subject),
            Bind::Id(contact_id),
            Bind::Id(provider_id),
        ],
        QUERY@,
    ) { (Err(h), st) => (Err(h), st), (Ok(_), st) =>
    match fetch_contact_spec(
        st,
        provider_id,
        contact_id,
    ) { (Err(h), st) => (Err(h), st), (Ok(found), st) =>
    match found {
    None => {
        (script::query_fault("locked contact exists"@), st)
    },
    Some(after) =>
    match finish_contact_mutation_spec(
        st,
        context,
        before,
        after,
        AuditAction::Update,
        update.reason,
    ) { (Err(h), st) => (Err(h), st), (Ok(_), st) =>
    (Ok(ProviderContactMutationOutcome::Applied(Box::new(after))), st)
    }}}}}
}

/// Changes a locked contact to its normal form.
pub fn store_contact(
    s: &mut Session,
    context: &MutationCommandContext,
    provider_id: Uuid,
    contact_id: Uuid,
    update: &ProviderContactUpdate,
    before: &Option<ProviderContactRecord>,
    merged: &ProviderContact,
) -> (r: Result<ProviderContactMutationOutcome, Halt>)
    ensures
        (script::seen(r), final(s)@) == store_contact_spec(
            old(s)@,
            *context,
            provider_id,
            contact_id,
            *update,
            *before,
            *merged,
        ),
{
    proof {
        reveal(store_contact_spec);
    }
    idempotency::insert_idempotency_record(s, &context.record)?;
    script::execute(
        s,
        UPDATE_CONTACT_SQL,
        binds::binds10(
            Bind::Text(merged.contact_type.clone()),
            Bind::OptText(copied(&merged.name)),
            Bind::OptText(copied(&merged.email)),
            Bind::OptText(copied(&merged.phone)),
            Bind::OptText(copied(&merged.mobile)),
            Bind::Flag(merged.sms_enabled),
            Bind::JsonText(merged.metadata.clone()),
            Bind::Text(context.actor.subject.clone()),
            Bind::Id(contact_id),
            Bind::Id(provider_id),
        ),
        QUERY,
    )?;
    let found = fetch_contact(s, provider_id, contact_id)?;
    let after = match found {
        Some(v) => v,
        None => {
            return Err(script::fail_query("locked contact exists"));
        },
    };
    finish_contact_mutation(s, context, before, &after, AuditAction::Update, &update.reason)?;
    Ok(ProviderContactMutationOutcome::Applied(Box::new(after)))
}

/// Changes a contact of a provider, where its normal form is in order. Under one idempotency key
/// this happens once.
pub open spec fn update_provider_contact_atomic_spec(
    st: RunView,
    context: MutationCommandContext,
    provider_id: Uuid,
    contact_id: Uuid,
    update: ProviderContactUpdate,
) -> (Result<ProviderContactMutationOutcome, HaltView>, RunView) {
    match lock_provider_spec(st, provider_id) { (Err(h), st) => (Err(h), st), (Ok(locked), st) =>
    if locked is None {
        (Ok(ProviderContactMutationOutcome::ProviderNotFound), st)
    } else {
    match idempotency::fetch_idempotency_record_spec(
        st,
        context.operation_type,
        context.idempotency_key,
    ) { (Err(h), st) => (Err(h), st), (Ok(existing), st) =>
    if let Some(record) = existing {
        (Ok(contact_verdict(idempotency::idempotency_verdict(record, context.request_hash))), st)
    } else {
    match lock_contact_spec(
        st,
        provider_id,
        contact_id,
    ) { (Err(h), st) => (Err(h), st), (Ok(held), st) =>
    match held {
    None => {
        (Ok(ProviderContactMutationOutcome::ContactNotFound), st)
    },
    Some(before) =>
    match script::consult_spec(
        st,
        Rule::NormalizedContact(merged_contact(before, update)),
    ) { (Err(h), st) => (Err(h), st), (Ok(answer), st) =>
    match answer {
        Answer::Contact(Ok(merged)) => {
            store_contact_spec(st, context, provider_id, contact_id, update, held, merged)
        },
        Answer::Contact(Err(_)) => {
            (Ok(ProviderContactMutationOutcome::ContractInvalid), st)
        },
        _ => {
            (script::query_fault(UNEXPECTED_REPLY@), st)
        },
    }
    }}}}}}}
}

impl OracleRepository {
    /// Changes a contact of a provider, where its normal form is in order. Under one idempotency
    /// key this happens once.
    pub fn update_provider_contact_atomic(
        s: &mut Session,
        context: &MutationCommandContext,
        provider_id: Uuid,
        contact_id: Uuid,
        update: &ProviderContactUpdate,
    ) -> (r: Result<ProviderContactMutationOutcome, Halt>)
        ensures
            (script::seen(r), final(s)@) == update_provider_contact_atomic_spec(
                old(s)@,
                *context,
                provider_id,
                contact_id,
                *update,
            ),
    {
        let locked = lock_provider(s, provider_id)?;
        if locked.is_none() {
            return Ok(ProviderContactMutationOutcome::ProviderNotFound);
        }
        let existing = idempotency::fetch_idempotency_record(
            s,
            &context.operation_type,
            &context.idempotency_key,
        )?;
        if let Some(record) = &existing {
            return Ok(classify_contact_idempotency(record, &context.request_hash));
        }
        let held = lock_contact(s, provider_id, contact_id)?;
        let before = match &held {
            Some(v) => v,
            None => {
                return Ok(ProviderContactMutationOutcome::ContactNotFound);
            },
        };
        let answer = script::consult(s, Rule::NormalizedContact(merge_contact(before, update)))?;
        match answer {
            Answer::Contact(Ok(merged)) => {
                return store_contact(s, context, provider_id, contact_id, update, &held, merged);
            },
            Answer::Contact(Err(_)) => {
                return Ok(ProviderContactMutationOutcome::ContractInvalid);
            },
            _ => {
                return Err(script::fail_query(UNEXPECTED_REPLY));
            },
        }
    }
}

/// Gives a contact of a provider another status, which is a database value. Under one idempotency
/// key this happens once.
pub open spec fn transition_provider_contact_atomic_spec(
    st: RunView,
    context: MutationCommandContext,
    provider_id: Uuid,
    contact_id: Uuid,
    target: String,
    reason: String,
) -> (Result<ProviderContactMutationOutcome, HaltView>, RunView) {
    match lock_provider_spec(st, provider_id) { (Err(h), st) => (Err(h), st), (Ok(locked), st) =>
    if locked is None {
        (Ok(ProviderContactMutationOutcome::ProviderNotFound), st)
    } else {
    match idempotency::fetch_idempotency_record_spec(
        st,
        context.operation_type,
        context.idempotency_key,
    ) { (Err(h), st) => (Err(h), st), (Ok(existing), st) =>
    if let Some(record) = existing {
        (Ok(contact_verdict(idempotency::idempotency_verdict(record, context.request_hash))), st)
    } else {
    match lock_contact_spec(
        st,
        provider_id,
        contact_id,
    ) { (Err(h), st) => (Err(h), st), (Ok(held), st) =>
    match held {
    None => {
        (Ok(ProviderContactMutationOutcome::ContactNotFound), st)
    },
    Some(before) =>
    if before.status@ == target@ {
        (Ok(ProviderContactMutationOutcome::InvalidState), st)
    } else {
    match idempotency::insert_idempotency_record_spec(
        st,
        context.record,
    ) { (Err(h), st) => (Err(h), st), (Ok(_), st) =>
    match script::execute_spec(
        st,
        SET_CONTACT_STATUS_SQL@,
        seq![
            Bind::Text(target),
            Bind::Text(context.actor.subject),
            Bind::Id(contact_id),
            Bind::Id(provider_id),
        ],
        QUERY@,
    ) { (Err(h), st) => (Err(h), st), (Ok(_), st) =>
    match fetch_contact_spec(
        st,
        provider_id,
        contact_id,
    ) { (Err(h), st) => (Err(h), st), (Ok(found), st) =>
    match found {
    None => {
        (script::query_fault("locked contact exists"@), st)
    },
    Some(after) =>
    match finish_contact_mutation_spec(
        st,
        context,
        held,
        after,
        AuditAction::StateTransition,
        reason,
    ) { (Err(h), st) => (Err(h), st), (Ok(_), st) =>
    (Ok(ProviderContactMutationOutcome::Applied(Box::new(after))), st)
    }}}}}}}}}}}}
}

impl OracleRepository {
    /// Gives a contact of a provider another status, which is a database value. Under one
    /// idempotency key this happens once.
    pub fn transition_provider_contact_atomic(
        s: &mut Session,
        context: &MutationCommandContext,
        provider_id: Uuid,
        contact_id: Uuid,
        target: &String,
        reason: &String,
    ) -> (r: Result<ProviderContactMutationOutcome, Halt>)
        ensures
            (script::seen(r), final(s)@) == transition_provider_contact_atomic_spec(
                old(s)@,
                *context,
                provider_id,
                contact_id,
                *target,
                *reason,
            ),
    {
        let locked = lock_provider(s, provider_id)?;
        if locked.is_none() {
            return Ok(ProviderContactMutationOutcome::ProviderNotFound);
        }
        let existing = idempotency::fetch_idempotency_record(
            s,
            &context.operation_type,
            &context.idempotency_key,
        )?;
        if let Some(record) = &existing {
            return Ok(classify_contact_idempotency(record, &context.request_hash));
        }
        let held = lock_contact(s, provider_id, contact_id)?;
        let before = match &held {
            Some(v) => v,
            None => {
                return Ok(ProviderContactMutationOutcome::ContactNotFound);
            },
        };
        if text::same_text(before.status.as_str(), target.as_str()) {
            return Ok(ProviderContactMutationOutcome::InvalidState);
        }
        idempotency::insert_idempotency_record(s, &context.record)?;
        script::execute(
            s,
            SET_CONTACT_STATUS_SQL,
            binds::binds4(
                Bind::Text(target.clone()),
                Bind::Text(context.actor.subject.clone()),
                Bind::Id(contact_id),
                Bind::Id(provider_id),
            ),
            QUERY,
        )?;
        let found = fetch_contact(s, provider_id, contact_id)?;
        let after = match found {
            Some(v) => v,
            None => {
                return Err(script::fail_query("locked contact exists"));
            },
        };
        finish_contact_mutation(s, context, &held, &after, AuditAction::StateTransition, reason)?;
        Ok(ProviderContactMutationOutcome::Applied(Box::new(after)))
    }
}

/// The contacts that rows hold, in order.
pub open spec fn map_contact_rows_spec(
    st: RunView,
    rows: Seq<Row>,
    i: nat,
    done: Seq<ProviderContactRecord>,
) -> (Result<Seq<ProviderContactRecord>, HaltView>, RunView)
    decreases rows.len() - i,
{
    if i >= rows.len() {
        (Ok(done), st)
    } else {
        match map_contact_row_spec(st, rows[i as int]) {
            (Err(h), st) => (Err(h), st), (Ok(item), st) => map_contact_rows_spec(
                st,
                rows,
                i + 1,
                done.push(item),
            )
        }
    }
}

/// The contacts that rows hold, in order.
pub fn map_contact_rows(
    s: &mut Session,
    rows: &Vec<Row>,
) -> (r: Result<Vec<ProviderContactRecord>, Halt>)
    ensures
        (script::seen_view(r), final(s)@) == map_contact_rows_spec(old(s)@, rows@, 0, Seq::empty()),
{
    let mut done: Vec<ProviderContactRecord> = Vec::new();
    let mut i: usize = 0;
    assert(done@ =~= Seq::empty());
    while i < rows.len()
        invariant
            i <= rows@.len(),
            map_contact_rows_spec(old(s)@, rows@, 0, Seq::empty()) == map_contact_rows_spec(
                s@,
                rows@,
                i as nat,
                done@,
            ),
        decreases rows@.len() - i,
    {
        let item = map_contact_row(s, &rows[i])?;
        done.push(item);
        i = i + 1;
    }
    Ok(done)
}

/// Each is taken in its turn, after those before it, and the first that fails ends the run.
pub proof fn map_contact_rows_go_in_turn(
    st: RunView,
    rows: Seq<Row>,
    i: nat,
    done: Seq<ProviderContactRecord>,
)
    ensures
        ({
            let whole = map_contact_rows_spec(st, rows, i, done);
            let (next, at) = map_contact_row_spec(st, rows[i as int]);
            &&& i >= rows.len() ==> whole == (Ok::<_, HaltView>(done), st)
            &&& i < rows.len() ==> match next {
                Ok(item) => whole == map_contact_rows_spec(at, rows, i + 1, done.push(item)),
                Err(halt) => whole.0 == Err::<Seq<ProviderContactRecord>, _>(halt) && whole.1 == at,
            }
        }),
{
}

/// The instant after which a page begins, where there is a cursor.
pub open spec fn cursor_time_spec(cursor: Option<ProviderContactCursor>) -> Option<UtcTime> {
    match cursor {
        Some(c) => Some(c.created_at),
        None => None,
    }
}

fn cursor_time(cursor: &Option<ProviderContactCursor>) -> (r: Option<UtcTime>)
    ensures
        r == cursor_time_spec(*cursor),
{
    match cursor {
        Some(c) => Some(c.created_at),
        None => None,
    }
}

/// The identifier after which a page begins, where there is a cursor.
pub open spec fn cursor_id_spec(cursor: Option<ProviderContactCursor>) -> Option<Uuid> {
    match cursor {
        Some(c) => Some(c.provider_contact_id),
        None => None,
    }
}

fn cursor_id(cursor: &Option<ProviderContactCursor>) -> (r: Option<Uuid>)
    ensures
        r == cursor_id_spec(*cursor),
{
    match cursor {
        Some(c) => Some(c.provider_contact_id),
        None => None,
    }
}

/// A page of contacts: its last one is the cursor, where another page follows.
pub open spec fn contact_page(
    found: Seq<ProviderContactRecord>,
    limit: nat,
) -> (Seq<ProviderContactRecord>, Option<ProviderContactCursor>) {
    let items = page::page_items(found, limit);
    (
        items,
        if page::has_next(found, limit) && items.len() > 0 {
            Some(ProviderContactCursor {
                created_at: items.last().created_at,
                provider_contact_id: items.last().provider_contact_id,
            })
        } else {
            None
        },
    )
}

fn to_contact_page(found: Vec<ProviderContactRecord>, limit: usize) -> (r: ProviderContactListPage)
    ensures
        r@ == contact_page(found@, limit as nat),
{
    let (items, more) = page::cut_page(found, limit);
    let next_cursor = if more && items.len() > 0 {
        let last = &items[items.len() - 1];
        Some(ProviderContactCursor {
            created_at: last.created_at,
            provider_contact_id: last.provider_contact_id,
        })
    } else {
        None
    };
    Page { items, next_cursor }
}

/// A page holds no more than its limit and goes on after its last item exactly where more was
/// found.
pub proof fn contact_page_goes_on_after_its_last(found: Seq<ProviderContactRecord>, limit: nat)
    requires
        limit > 0,
    ensures
        ({
            let (shown, next) = contact_page(found, limit);
            &&& found.len() <= limit ==> shown == found && next is None
            &&& found.len() > limit ==> {
                &&& shown == found.take(limit as int)
                &&& next matches Some(cursor)
                &&& cursor.created_at == found[limit - 1].created_at
                &&& cursor.provider_contact_id == found[limit - 1].provider_contact_id
            }
        }),
{
    page::page_is_bounded_prefix(found, limit);
}

/// A page of the contacts of a provider that a query selects, newest first, where there is such a
/// provider.
pub open spec fn list_provider_contacts_spec(
    st: RunView,
    provider_id: Uuid,
    query: ProviderContactListQuery,
) -> (
    Result<Option<(Seq<ProviderContactRecord>, Option<ProviderContactCursor>)>, HaltView>,
    RunView,
) {
    match provider_exists_spec(st, provider_id) { (Err(h), st) => (Err(h), st), (Ok(present), st) =>
    if !present {
        (Ok(None), st)
    } else {
    match script::named_rows_spec(
        st,
        CONTACT_LIST_SQL@,
        CONTACT_LIST_BINDS,
        seq![
            Bind::Id(provider_id),
            Bind::OptText(query.contact_type),
            Bind::OptText(query.status),
            Bind::OptTime(cursor_time_spec(query.cursor)),
            Bind::OptId(cursor_id_spec(query.cursor)),
            Bind::Int(page::fetch_limit_spec(query.limit)),
        ],
        CONTACT_COLUMNS,
        QUERY@,
    ) { (Err(h), st) => (Err(h), st), (Ok(found), st) =>
    match map_contact_rows_spec(
        st,
        found.rows@,
        0,
        Seq::empty(),
    ) { (Err(h), st) => (Err(h), st), (Ok(items), st) =>
    if let Some(cause) = found.failure {
        (script::failed(QUERY@, cause@), st)
    } else {
    (Ok(Some(contact_page(items, query.limit as nat))), st)
    }}}}}
}

impl OracleRepository {
    /// A page of the contacts of a provider that a query selects, newest first, where there is such
    /// a provider.
    pub fn list_provider_contacts(
        s: &mut Session,
        provider_id: Uuid,
        query: &ProviderContactListQuery,
    ) -> (r: Result<Option<ProviderContactListPage>, Halt>)
        ensures
            (script::seen_opt_view(r), final(s)@) == list_provider_contacts_spec(
                old(s)@,
                provider_id,
                *query,
            ),
    {
        let present = provider_exists(s, provider_id)?;
        if !present {
            return Ok(None);
        }
        let found = script::named_rows(
            s,
            CONTACT_LIST_SQL,
            CONTACT_LIST_BINDS,
            binds::binds6(
                Bind::Id(provider_id),
                Bind::OptText(copied(&query.contact_type)),
                Bind::OptText(copied(&query.status)),
                Bind::OptTime(cursor_time(&query.cursor)),
                Bind::OptId(cursor_id(&query.cursor)),
                Bind::Int(page::fetch_limit(query.limit)),
            ),
            CONTACT_COLUMNS,
            QUERY,
        )?;
        let items = map_contact_rows(s, &found.rows)?;
        if let Some(cause) = &found.failure {
            return Err(script::fail_because(QUERY, cause.as_str()));
        }
        Ok(Some(to_contact_page(items, query.limit as usize)))
    }
}

/// What is carried out of a change of a contact stores audit evidence and completes the command's
/// record last.
#[verifier::rlimit(60)]
pub broadcast proof fn store_contact_leaves_evidence(
    st: RunView,
    context: MutationCommandContext,
    provider_id: Uuid,
    contact_id: Uuid,
    update: ProviderContactUpdate,
    before: Option<ProviderContactRecord>,
    merged: ProviderContact,
)
    ensures
        (
            #[trigger] store_contact_spec(st, context, provider_id, contact_id, update, before, merged)
        ).0 matches Ok(outcome) ==> {
            let log = store_contact_spec(
                st,
                context,
                provider_id,
                contact_id,
                update,
                before,
                merged,
            ).1.log;
            &&& outcome is Applied
            &&& script::runs(log, audit::AUDIT_INSERT_SQL@) > 0
            &&& script::is_run_of(log.last(), idempotency::IDEMPOTENCY_COMPLETE_SQL@)
        },
{
    broadcast use script::runs_with_another;

    reveal(store_contact_spec);
}

/// Where a change of the identity of a provider is refused, or answered from a record, nothing is
/// changed.
#[verifier::rlimit(40)]
pub proof fn refused_identity_change_changes_nothing(
    st: RunView,
    context: MutationCommandContext,
    provider_id: Uuid,
    update: ProviderIdentityUpdate,
)
    ensures
        ({
            let (result, after) = update_provider_identity_atomic_spec(
                st,
                context,
                provider_id,
                update,
            );
            result matches Ok(outcome) ==> outcome is Applied || script::writes(after.log)
                == script::writes(st.log)
        }),
{
    broadcast use {script::writes_with_another, map_contact_row_changes_nothing};

}

/// Where a new contact is refused, or answered from a record, nothing is changed.
#[verifier::rlimit(40)]
pub proof fn refused_contact_creation_changes_nothing(
    st: RunView,
    context: MutationCommandContext,
    provider_id: Uuid,
    contact: ProviderContact,
    reason: String,
)
    ensures
        ({
            let (result, after) = create_provider_contact_atomic_spec(
                st,
                context,
                provider_id,
                contact,
                reason,
            );
            result matches Ok(outcome) ==> outcome is Applied || script::writes(after.log)
                == script::writes(st.log)
        }),
{
    broadcast use {script::writes_with_another, map_contact_row_changes_nothing};

}

/// Where a change of a contact is refused, or answered from a record, nothing is changed.
#[verifier::rlimit(40)]
pub proof fn refused_contact_change_changes_nothing(
    st: RunView,
    context: MutationCommandContext,
    provider_id: Uuid,
    contact_id: Uuid,
    update: ProviderContactUpdate,
)
    ensures
        ({
            let (result, after) = update_provider_contact_atomic_spec(
                st,
                context,
                provider_id,
                contact_id,
                update,
            );
            result matches Ok(outcome) ==> outcome is Applied || script::writes(after.log)
                == script::writes(st.log)
        }),
{
    broadcast use {
        script::writes_with_another,
        map_contact_row_changes_nothing,
        store_contact_leaves_evidence,
    };

}

/// Where a change of the status of a contact is refused, or answered from a record, nothing is
/// changed.
#[verifier::rlimit(40)]
pub proof fn refused_contact_transition_changes_nothing(
    st: RunView,
    context: MutationCommandContext,
    provider_id: Uuid,
    contact_id: Uuid,
    target: String,
    reason: String,
)
    ensures
        ({
            let (result, after) = transition_provider_contact_atomic_spec(
                st,
                context,
                provider_id,
                contact_id,
                target,
                reason,
            );
            result matches Ok(outcome) ==> outcome is Applied || script::writes(after.log)
                == script::writes(st.log)
        }),
{
    broadcast use {script::writes_with_another, map_contact_row_changes_nothing};

}

/// Where a change of the identity of a provider is carried out in a run of its own, audit evidence
/// is stored within it, and the command's record is completed last.
#[verifier::rlimit(40)]
pub proof fn identity_change_leaves_evidence(
    st: RunView,
    context: MutationCommandContext,
    provider_id: Uuid,
    update: ProviderIdentityUpdate,
)
    requires
        st.log.len() == 0,
    ensures
        ({
            let (result, after) = update_provider_identity_atomic_spec(
                st,
                context,
                provider_id,
                update,
            );
            result matches Ok(outcome) ==> outcome is Applied ==> script::runs(
                after.log,
                audit::AUDIT_INSERT_SQL@,
            ) > 0 && script::is_run_of(after.log.last(), idempotency::IDEMPOTENCY_COMPLETE_SQL@)
        }),
{
    broadcast use {script::runs_with_another, map_contact_row_changes_nothing};

}

/// Where a new contact is carried out in a run of its own, audit evidence is stored within it, and
/// the command's record is completed last.
#[verifier::rlimit(40)]
pub proof fn contact_creation_leaves_evidence(
    st: RunView,
    context: MutationCommandContext,
    provider_id: Uuid,
    contact: ProviderContact,
    reason: String,
)
    requires
        st.log.len() == 0,
    ensures
        ({
            let (result, after) = create_provider_contact_atomic_spec(
                st,
                context,
                provider_id,
                contact,
                reason,
            );
            result matches Ok(outcome) ==> outcome is Applied ==> script::runs(
                after.log,
                audit::AUDIT_INSERT_SQL@,
            ) > 0 && script::is_run_of(after.log.last(), idempotency::IDEMPOTENCY_COMPLETE_SQL@)
        }),
{
    broadcast use {script::runs_with_another, map_contact_row_changes_nothing};

}

/// Where a change of a contact is carried out in a run of its own, audit evidence is stored within
/// it, and the command's record is completed last.
#[verifier::rlimit(40)]
pub proof fn contact_change_leaves_evidence(
    st: RunView,
    context: MutationCommandContext,
    provider_id: Uuid,
    contact_id: Uuid,
    update: ProviderContactUpdate,
)
    requires
        st.log.len() == 0,
    ensures
        ({
            let (result, after) = update_provider_contact_atomic_spec(
                st,
                context,
                provider_id,
                contact_id,
                update,
            );
            result matches Ok(outcome) ==> outcome is Applied ==> script::runs(
                after.log,
                audit::AUDIT_INSERT_SQL@,
            ) > 0 && script::is_run_of(after.log.last(), idempotency::IDEMPOTENCY_COMPLETE_SQL@)
        }),
{
    broadcast use store_contact_leaves_evidence;

}

/// Where a change of the status of a contact is carried out in a run of its own, audit evidence is
/// stored within it, and the command's record is completed last.
#[verifier::rlimit(40)]
pub proof fn contact_transition_leaves_evidence(
    st: RunView,
    context: MutationCommandContext,
    provider_id: Uuid,
    contact_id: Uuid,
    target: String,
    reason: String,
)
    requires
        st.log.len() == 0,
    ensures
        ({
            let (result, after) = transition_provider_contact_atomic_spec(
                st,
                context,
                provider_id,
                contact_id,
                target,
                reason,
            );
            result matches Ok(outcome) ==> outcome is Applied ==> script::runs(
                after.log,
                audit::AUDIT_INSERT_SQL@,
            ) > 0 && script::is_run_of(after.log.last(), idempotency::IDEMPOTENCY_COMPLETE_SQL@)
        }),
{
    broadcast use {script::runs_with_another, map_contact_row_changes_nothing};

}

/// A command that is recorded is answered by its record: under another request it conflicts; under
/// the same one it gets the answer that is stored, or is told that it is under way, or that the
/// record is not in order.
pub proof fn identity_verdict_goes_by_the_record(
    record: crate::domain::idempotency::IdempotencyRecord,
    request_hash: String,
)
    ensures
        ({
            let answered = identity_verdict(idempotency::idempotency_verdict(record, request_hash));
            let same = record.request_hash@ == request_hash@;
            &&& answered is IdempotencyConflict <==> !same
            &&& answered is IdempotencyInProgress <==> same && record.status is InProgress
            &&& answered matches ProviderIdentityMutationOutcome::Replayed(
                answer,
            ) ==> record.response_snapshot == Some(answer)
            &&& answered is Replayed <==> same && record.status is Completed
                && record.response_snapshot is Some
            &&& answered is IdempotencyInvalidState <==> same && !(record.status is InProgress)
                && !(
            record.status is Completed && record.response_snapshot is Some)
        }),
{
}

/// A command that is recorded is answered by its record: under another request it conflicts; under
/// the same one it gets the answer that is stored, or is told that it is under way, or that the
/// record is not in order.
pub proof fn contact_verdict_goes_by_the_record(
    record: crate::domain::idempotency::IdempotencyRecord,
    request_hash: String,
)
    ensures
        ({
            let answered = contact_verdict(idempotency::idempotency_verdict(record, request_hash));
            let same = record.request_hash@ == request_hash@;
            &&& answered is IdempotencyConflict <==> !same
            &&& answered is IdempotencyInProgress <==> same && record.status is InProgress
            &&& answered matches ProviderContactMutationOutcome::Replayed(
                answer,
            ) ==> record.response_snapshot == Some(answer)
            &&& answered is Replayed <==> same && record.status is Completed
                && record.response_snapshot is Some
            &&& answered is IdempotencyInvalidState <==> same && !(record.status is InProgress)
                && !(
            record.status is Completed && record.response_snapshot is Some)
        }),
{
}

/// A change of who a provider is replaces what it names, clears what it clears and keeps everything
/// else. It is told for the provider that was locked, and none is answered exactly where there is
/// no provider.
#[verifier::rlimit(80)]
pub proof fn changed_identity_is_told_field_by_field(
    st: RunView,
    context: MutationCommandContext,
    provider_id: Uuid,
    update: ProviderIdentityUpdate,
    before: Provider,
)
    requires
        lock_provider_spec(st, provider_id).0 == Ok::<_, HaltView>(Some(before)),
    ensures
        ({
            let (ended, after) = update_provider_identity_atomic_spec(
                st,
                context,
                provider_id,
                update,
            );
            &&& (ended matches Ok(outcome) && outcome is ProviderNotFound) ==> false
            &&& (ended matches Ok(outcome) && outcome is Applied) ==> script::told_where(
                after.log,
                PROVIDER_IDENTITY_UPDATE_SQL@,
                |b: Seq<Bind>|
                    {
                        &&& b.len() == 10
                        &&& b[0] == Bind::Text(
                            match update.legal_name {
                                Some(name) => name,
                                None => before.legal_name,
                            },
                        )
                        &&& b[1] == Bind::Text(
                            match update.trade_name {
                                Some(name) => name,
                                None => before.trade_name,
                            },
                        )
                        &&& b[2] == Bind::OptText(changed(before.tax_id, update.tax_id))
                        &&& b[3] == Bind::OptText(
                            changed(before.registration_number, update.registration_number),
                        )
                        &&& b[4] == Bind::OptText(
                            changed(before.email_address, update.email_address),
                        )
                        &&& b[5] == Bind::OptText(changed(before.website_url, update.website_url))
                        &&& b[6] == Bind::OptText(
                            changed(before.mailing_address, update.mailing_address),
                        )
                        &&& b[7] == Bind::JsonText(
                            match update.metadata {
                                Some(text) => text,
                                None => before.metadata,
                            },
                        )
                        &&& b[8] == Bind::Text(context.actor.subject)
                        &&& b[9] == Bind::Id(provider_id)
                    },
            ) > 0
        }),
{
    broadcast use script::told_where_with_another;

}

/// What a field holds once a change is made: the value it is given, none, or what it held.
pub open spec fn changed(current: Option<String>, update: FieldUpdate) -> Option<String> {
    if update is Replace {
        Some(update->Replace_0)
    } else if update is Clear {
        None
    } else {
        current
    }
}

/// A field that is replaced holds the new value, one that is cleared holds none, and one that is
/// left keeps its value.
pub proof fn field_is_replaced_cleared_or_kept(current: Option<String>, update: FieldUpdate)
    ensures
        update matches FieldUpdate::Replace(value) ==> field_after(current, update) == Some(value),
        update is Clear ==> field_after(current, update) is None,
        update is Unchanged ==> field_after(current, update) == current,
{
}

/// A change of a contact takes each field from itself, and keeps the contact's own where it names
/// none.
pub proof fn contact_keeps_what_a_change_leaves(
    before: ProviderContactRecord,
    update: ProviderContactUpdate,
)
    ensures
        ({
            let after = merged_contact(before, update);
            &&& after.provider_contact_id == before.provider_contact_id
            &&& update.contact_type is None ==> after.contact_type == before.contact_type
            &&& update.contact_type matches Some(text) ==> after.contact_type == text
            &&& after.name == changed(before.name, update.name)
            &&& after.email == changed(before.email, update.email)
            &&& after.phone == changed(before.phone, update.phone)
            &&& after.mobile == changed(before.mobile, update.mobile)
            &&& update.sms_enabled is None ==> after.sms_enabled == before.sms_enabled
            &&& update.sms_enabled matches Some(flag) ==> after.sms_enabled == flag
            &&& update.metadata is None ==> after.metadata == before.metadata
            &&& update.metadata matches Some(text) ==> after.metadata == text
        }),
{
}

/// A contact gets another status only where it has a different one, and the status is told for this
/// contact of this provider. Each refusal has its one reason.
#[verifier::rlimit(80)]
pub proof fn contact_status_is_changed_to_another(
    st: RunView,
    context: MutationCommandContext,
    provider_id: Uuid,
    contact_id: Uuid,
    target: String,
    reason: String,
)
    requires
        lock_provider_spec(st, provider_id).0 is Ok,
    ensures
        ({
            let (ended, after) = transition_provider_contact_atomic_spec(
                st,
                context,
                provider_id,
                contact_id,
                target,
                reason,
            );
            let (locked, a) = lock_provider_spec(st, provider_id);
            let (looked, b) = idempotency::fetch_idempotency_record_spec(
                a,
                context.operation_type,
                context.idempotency_key,
            );
            let held = lock_contact_spec(b, provider_id, contact_id).0;
            let fresh = locked->Ok_0 is Some && (looked matches Ok(None));
            &&& (ended matches Ok(outcome) && outcome is ProviderNotFound) <==> locked->Ok_0 is None
            &&& (ended matches Ok(outcome) && outcome is ContactNotFound) <==> fresh
                && (held matches Ok(None))
            &&& (ended matches Ok(outcome) && outcome is InvalidState) <==> fresh
                && (held matches Ok(
                Some(contact),
            ) && contact.status@ == target@)
            &&& (ended matches Ok(outcome) && outcome is Applied) ==> fresh && (held matches Ok(
                Some(contact),
            ) && contact.status@ != target@) && script::ran(
                after.log,
                SET_CONTACT_STATUS_SQL@,
                seq![
                    Bind::Text(target),
                    Bind::Text(context.actor.subject),
                    Bind::Id(contact_id),
                    Bind::Id(provider_id),
                ],
            )
        }),
{
    broadcast use {script::runs_on_with_another, map_contact_row_changes_nothing};

}

/// A contact is added to a provider that is there, and is told as asked for.
#[verifier::rlimit(80)]
pub proof fn new_contact_is_stored_as_asked_for(
    st: RunView,
    context: MutationCommandContext,
    provider_id: Uuid,
    contact: ProviderContact,
    reason: String,
)
    requires
        lock_provider_spec(st, provider_id).0 is Ok,
    ensures
        ({
            let (ended, after) = create_provider_contact_atomic_spec(
                st,
                context,
                provider_id,
                contact,
                reason,
            );
            let locked = lock_provider_spec(st, provider_id).0->Ok_0;
            &&& (ended matches Ok(outcome) && outcome is ProviderNotFound) <==> locked is None
            &&& (ended matches Ok(outcome) && outcome is Applied) ==> script::ran(
                after.log,
                INSERT_CONTACT_SQL@,
                seq![
                    Bind::Id(contact.provider_contact_id),
                    Bind::Id(provider_id),
                    Bind::Text(contact.contact_type),
                    Bind::OptText(contact.name),
                    Bind::OptText(contact.email),
                    Bind::OptText(contact.phone),
                    Bind::OptText(contact.mobile),
                    Bind::Flag(contact.sms_enabled),
                    Bind::JsonText(contact.metadata),
                    Bind::Text(context.actor.subject),
                ],
            )
        }),
{
    broadcast use {script::runs_on_with_another, map_contact_row_changes_nothing};

}

/// A contact is changed only where it is there and the contact with the change is in order. Each
/// refusal has its one reason.
#[verifier::rlimit(80)]
pub proof fn contact_change_is_refused_for_one_reason(
    st: RunView,
    context: MutationCommandContext,
    provider_id: Uuid,
    contact_id: Uuid,
    update: ProviderContactUpdate,
)
    requires
        lock_provider_spec(st, provider_id).0 is Ok,
    ensures
        ({
            let ended = update_provider_contact_atomic_spec(
                st,
                context,
                provider_id,
                contact_id,
                update,
            ).0;
            let (locked, a) = lock_provider_spec(st, provider_id);
            let (looked, b) = idempotency::fetch_idempotency_record_spec(
                a,
                context.operation_type,
                context.idempotency_key,
            );
            let (held, c) = lock_contact_spec(b, provider_id, contact_id);
            let fresh = locked->Ok_0 is Some && (looked matches Ok(None));
            &&& (ended matches Ok(outcome) && outcome is ProviderNotFound) <==> locked->Ok_0 is None
            &&& (ended matches Ok(outcome) && outcome is ContactNotFound) <==> fresh
                && (held matches Ok(
                None,
            ))
            &&& (ended matches Ok(outcome) && outcome is ContractInvalid) <==> fresh
                && (held matches Ok(
                Some(before),
            ) && (script::consult_spec(
                c,
                Rule::NormalizedContact(merged_contact(before, update)),
            ).0 matches Ok(Answer::Contact(Err(_)))))
        }),
{
    reveal(store_contact_spec);
}

/// Contacts are listed for a provider that is there, and none are exactly where there is no
/// provider.
pub proof fn contacts_are_those_of_a_stored_provider(
    st: RunView,
    provider_id: Uuid,
    query: ProviderContactListQuery,
)
    requires
        provider_exists_spec(st, provider_id).0 is Ok,
    ensures
        (
            list_provider_contacts_spec(st, provider_id, query).0 matches Ok(None)
        ) <==> !provider_exists_spec(st, provider_id).0->Ok_0,
{
}

/// What is asked first, and with which values, in a run that does this:
/// locks and reads a provider, where there is one.
pub proof fn lock_provider_asks_first(
    st: RunView,
    provider_id: Uuid,
)
    requires
        st.rest.len() == 0,
    ensures
        lock_provider_spec(st, provider_id).0 matches Err(HaltView::Ask(asked))
            && (
                asked matches script::CallView::Sql { sql, binds, .. } && sql == LOCK_PROVIDER_SQL@
                    && binds == seq![Bind::Id(provider_id)]
            ),
{
}

/// What is asked first, and with which values, in a run that does this:
/// whether there is a provider.
pub proof fn provider_exists_asks_first(
    st: RunView,
    provider_id: Uuid,
)
    requires
        st.rest.len() == 0,
    ensures
        provider_exists_spec(st, provider_id).0 matches Err(HaltView::Ask(asked))
            && (
                asked matches script::CallView::Sql { sql, binds, .. } && sql == COUNT_PROVIDER_SQL@
                    && binds == seq![Bind::Id(provider_id)]
            ),
{
}

/// What is asked first, and with which values, in a run that does this:
/// the contact that a statement finds, where it finds one.
pub proof fn fetch_optional_contact_sql_asks_first(
    st: RunView,
    statement: Seq<char>,
    provider_id: Uuid,
    contact_id: Uuid,
)
    requires
        st.rest.len() == 0,
    ensures
        fetch_optional_contact_sql_spec(
            st,
            statement,
            provider_id,
            contact_id,
        ).0 matches Err(HaltView::Ask(asked))
            && (
                asked matches script::CallView::Sql { sql, binds, .. } && sql == statement
                    && binds == seq![Bind::Id(contact_id), Bind::Id(provider_id)]
            ),
{
}

/// What the database is told, and with which values, where a run succeeds that does this:
/// changes a locked contact to its normal form.
#[verifier::rlimit(60)]
pub proof fn store_contact_is_told(
    st: RunView,
    context: MutationCommandContext,
    provider_id: Uuid,
    contact_id: Uuid,
    update: ProviderContactUpdate,
    before: Option<ProviderContactRecord>,
    merged: ProviderContact,
)
    ensures
        ({
            let (ended, after) = store_contact_spec(
                st,
                context,
                provider_id,
                contact_id,
                update,
                before,
                merged,
            );
            let log = after.log;
            ended is Ok ==> {
                &&& script::ran(
                    log,
                    UPDATE_CONTACT_SQL@,
                    seq![
                        Bind::Text(merged.contact_type),
                        Bind::OptText(merged.name),
                        Bind::OptText(merged.email),
                        Bind::OptText(merged.phone),
                        Bind::OptText(merged.mobile),
                        Bind::Flag(merged.sms_enabled),
                        Bind::JsonText(merged.metadata),
                        Bind::Text(context.actor.subject),
                        Bind::Id(contact_id),
                        Bind::Id(provider_id),
                    ],
                )
            }
        }),
{
    broadcast use {
        script::runs_on_with_another,
        script::told_where_with_another,
        map_contact_row_changes_nothing,
    };

    reveal(store_contact_spec);
}

} // verus!
