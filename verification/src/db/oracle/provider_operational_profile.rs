//! Operational profiles of providers.
use vstd::prelude::*;
use crate::db::oracle::audit;
use crate::db::oracle::audit::AuditOrigin;
use crate::db::oracle::binds;
use crate::db::oracle::consult::{DocumentKind, Rule};
use crate::db::oracle::document::{Document, Snapshot};
use crate::db::oracle::idempotency;
use crate::db::oracle::idempotency::IdempotencyVerdict;
use crate::db::oracle::repository::OracleRepository;
use crate::db::oracle::script;
use crate::db::oracle::script::{Bind, Halt, HaltView, Row, RunView, Session};
use crate::domain::audit::AuditAction;
use crate::domain::command::MutationCommandContext;
use crate::domain::idempotency::IdempotencyRecord;
use crate::domain::provider::{
    DesiredProviderOperationalProfile, ProviderOperationalProfileRecord,
    ProviderOperationalProfileStatus, ProviderStatus,
};
use crate::text;
use crate::uuid::Uuid;

verus! {

/// The context of a column that cannot be read.
pub const READ_ROW: &'static str = "failed to read provider operational profile row";

/// The context of a statement that fails.
pub const QUERY: &'static str = "provider operational profile query failed";

/// The next version of the operational profiles of a provider.
pub const NEXT_VERSION_SQL: &'static str = "SELECT NVL(MAX(version),0)+1 FROM provider_operational_profiles WHERE provider_id=:1";

/// Whether an instant has come.
pub const IS_DUE_SQL: &'static str = r#"SELECT CASE WHEN TO_TIMESTAMP_TZ(:1,'YYYY-MM-DD"T"HH24:MI:SS.FF3TZH:TZM')<=SYSTIMESTAMP THEN 1 ELSE 0 END FROM dual"#;

/// Locks providers with a scheduled profile whose time has come.
pub const DUE_PROVIDERS_SQL: &'static str = "SELECT provider_id FROM providers WHERE provider_id IN (SELECT provider_id FROM provider_operational_profiles WHERE status='SCHEDULED' AND effective_at<=SYSTIMESTAMP AND ROWNUM<=:1) FOR UPDATE SKIP LOCKED";

/// Activates a scheduled profile whose time has come.
pub const PROMOTE_SQL: &'static str = "UPDATE provider_operational_profiles SET status='ACTIVE',activated_at=SYSTIMESTAMP,updated_by_subject='wurzburg-system',updated_at=SYSTIMESTAMP WHERE provider_operational_profile_id=:1 AND status='SCHEDULED' AND effective_at<=SYSTIMESTAMP";

/// Supersedes an active profile.
pub const SUPERSEDE_SQL: &'static str = "UPDATE provider_operational_profiles SET status='SUPERSEDED',superseded_by_profile_id=:1,superseded_at=SYSTIMESTAMP,updated_by_subject=:2,updated_at=SYSTIMESTAMP WHERE provider_operational_profile_id=:3 AND status='ACTIVE'";

/// Names the profile that replaced another.
pub const LINK_SQL: &'static str = "UPDATE provider_operational_profiles SET superseded_by_profile_id=:1,updated_at=SYSTIMESTAMP WHERE provider_operational_profile_id=:2 AND status IN ('SUPERSEDED','CANCELLED')";

/// Cancels a scheduled profile.
pub const CANCEL_SQL: &'static str = "UPDATE provider_operational_profiles SET status='CANCELLED',superseded_by_profile_id=:1,cancelled_at=SYSTIMESTAMP,updated_by_subject=:2,updated_at=SYSTIMESTAMP WHERE provider_operational_profile_id=:3 AND status='SCHEDULED'";

/// Stores a profile.
pub const PROFILE_INSERT_SQL: &'static str = r#"INSERT INTO provider_operational_profiles (provider_operational_profile_id,provider_id,status,version,effective_at,profile_json,created_by_subject,updated_by_subject,change_reason,activated_at) VALUES (:1,:2,:3,:4,TO_TIMESTAMP_TZ(:5,'YYYY-MM-DD"T"HH24:MI:SS.FF3TZH:TZM'),:6,:7,:8,:9,CASE WHEN :10=1 THEN SYSTIMESTAMP ELSE NULL END)"#;

/// Locks a provider and reads its status.
pub const LOCK_PROVIDER_SQL: &'static str = "SELECT status FROM providers WHERE provider_id=:1 FOR UPDATE";

/// The columns of a profile, as a query lists them.
pub const PROFILE_SELECT_COLUMNS: &'static str = r#"provider_operational_profile_id,provider_id,status,version,TO_CHAR(SYS_EXTRACT_UTC(effective_at),'YYYY-MM-DD"T"HH24:MI:SS.FF3"Z"'),JSON_SERIALIZE(profile_json RETURNING CLOB),superseded_by_profile_id,created_by_subject,updated_by_subject,change_reason,TO_CHAR(SYS_EXTRACT_UTC(activated_at),'YYYY-MM-DD"T"HH24:MI:SS.FF3"Z"'),TO_CHAR(SYS_EXTRACT_UTC(superseded_at),'YYYY-MM-DD"T"HH24:MI:SS.FF3"Z"'),TO_CHAR(SYS_EXTRACT_UTC(cancelled_at),'YYYY-MM-DD"T"HH24:MI:SS.FF3"Z"'),TO_CHAR(SYS_EXTRACT_UTC(created_at),'YYYY-MM-DD"T"HH24:MI:SS.FF3"Z"'),TO_CHAR(SYS_EXTRACT_UTC(updated_at),'YYYY-MM-DD"T"HH24:MI:SS.FF3"Z"')"#;

/// The columns of a profile, as a query lists them.
pub fn columns() -> (r: &'static str)
    ensures
        r == PROFILE_SELECT_COLUMNS,
{
    PROFILE_SELECT_COLUMNS
}

/// What the columns of a profile hold.
pub const PROFILE_COLUMNS: &'static str = "rrtittRtttTTTtt";

/// Reads a profile.
pub open spec fn profile_sql_text() -> Seq<char> {
    "SELECT "@ + PROFILE_SELECT_COLUMNS@ + " FROM provider_operational_profiles WHERE provider_operational_profile_id=:1"@
}

/// Reads a profile.
pub fn profile_sql() -> (r: String)
    ensures
        r@ == profile_sql_text(),
{
    text::joined3(
        "SELECT ",
        PROFILE_SELECT_COLUMNS,
        " FROM provider_operational_profiles WHERE provider_operational_profile_id=:1",
    )
}

/// Reads the profile of a provider that has a status.
pub open spec fn profile_by_status_sql_text() -> Seq<char> {
    "SELECT "@ + PROFILE_SELECT_COLUMNS@ + " FROM provider_operational_profiles WHERE provider_id=:1 AND status=:2"@
}

/// Reads the profile of a provider that has a status.
pub fn profile_by_status_sql() -> (r: String)
    ensures
        r@ == profile_by_status_sql_text(),
{
    text::joined3(
        "SELECT ",
        PROFILE_SELECT_COLUMNS,
        " FROM provider_operational_profiles WHERE provider_id=:1 AND status=:2",
    )
}

/// Locks and reads the scheduled profile of a provider whose time has come.
pub open spec fn profile_due_sql_text() -> Seq<char> {
    "SELECT "@ + PROFILE_SELECT_COLUMNS@ + " FROM provider_operational_profiles WHERE provider_id=:1 AND status='SCHEDULED' AND effective_at<=SYSTIMESTAMP FOR UPDATE"@
}

/// Locks and reads the scheduled profile of a provider whose time has come.
pub fn profile_due_sql() -> (r: String)
    ensures
        r@ == profile_due_sql_text(),
{
    text::joined3(
        "SELECT ",
        PROFILE_SELECT_COLUMNS,
        " FROM provider_operational_profiles WHERE provider_id=:1 AND status='SCHEDULED' AND effective_at<=SYSTIMESTAMP FOR UPDATE",
    )
}

/// Lists the profiles of a provider below a version, newest first.
pub open spec fn profile_list_sql_text() -> Seq<char> {
    "SELECT "@ + PROFILE_SELECT_COLUMNS@ + " FROM provider_operational_profiles WHERE provider_id=:1 AND (:2 IS NULL OR version<:3) ORDER BY version DESC FETCH FIRST :4 ROWS ONLY"@
}

/// Lists the profiles of a provider below a version, newest first.
pub fn profile_list_sql() -> (r: String)
    ensures
        r@ == profile_list_sql_text(),
{
    text::joined3(
        "SELECT ",
        PROFILE_SELECT_COLUMNS,
        " FROM provider_operational_profiles WHERE provider_id=:1 AND (:2 IS NULL OR version<:3) ORDER BY version DESC FETCH FIRST :4 ROWS ONLY",
    )
}

/// What setting an operational profile came to.
#[derive(Clone, Copy, Debug, PartialEq, Eq, Structural)]
pub enum OperationalProfileMutationDisposition {
    Activated,
    Scheduled,
}

/// An operational profile that was set.
#[derive(Debug)]
pub struct SetProviderOperationalProfileResult {
    pub disposition: OperationalProfileMutationDisposition,
    pub profile: ProviderOperationalProfileRecord,
}

/// What became of setting an operational profile. A replayed answer is a JSON document.
#[derive(Debug)]
pub enum SetProviderOperationalProfilePersistenceOutcome {
    Applied(Box<SetProviderOperationalProfileResult>),
    Replayed(String),
    ProviderNotFound,
    ProviderInactive,
    IdempotencyConflict,
    IdempotencyInProgress,
    IdempotencyInvalidState,
}

/// What became of cancelling an operational profile. A replayed answer is a JSON document.
#[derive(Debug)]
pub enum CancelProviderOperationalProfilePersistenceOutcome {
    Applied(Box<ProviderOperationalProfileRecord>),
    Replayed(String),
    ProviderNotFound,
    ProfileNotFound,
    InvalidState,
    IdempotencyConflict,
    IdempotencyInProgress,
    IdempotencyInvalidState,
}

/// What a stored record means for setting a profile.
pub open spec fn set_verdict(
    verdict: IdempotencyVerdict,
) -> SetProviderOperationalProfilePersistenceOutcome {
    match verdict {
        IdempotencyVerdict::Conflict => {
            SetProviderOperationalProfilePersistenceOutcome::IdempotencyConflict
        },
        IdempotencyVerdict::Replay(snapshot) => {
            SetProviderOperationalProfilePersistenceOutcome::Replayed(snapshot)
        },
        IdempotencyVerdict::InProgress => {
            SetProviderOperationalProfilePersistenceOutcome::IdempotencyInProgress
        },
        IdempotencyVerdict::InvalidState => {
            SetProviderOperationalProfilePersistenceOutcome::IdempotencyInvalidState
        },
    }
}

/// What a stored record means for setting a profile with this request hash.
pub fn classify_set_idempotency(
    existing: &IdempotencyRecord,
    request_hash: &String,
) -> (r: SetProviderOperationalProfilePersistenceOutcome)
    ensures
        r == set_verdict(idempotency::idempotency_verdict(*existing, *request_hash)),
{
    match idempotency::judge_idempotency(existing, request_hash) {
        IdempotencyVerdict::Conflict => {
            SetProviderOperationalProfilePersistenceOutcome::IdempotencyConflict
        },
        IdempotencyVerdict::Replay(snapshot) => {
            SetProviderOperationalProfilePersistenceOutcome::Replayed(snapshot)
        },
        IdempotencyVerdict::InProgress => {
            SetProviderOperationalProfilePersistenceOutcome::IdempotencyInProgress
        },
        IdempotencyVerdict::InvalidState => {
            SetProviderOperationalProfilePersistenceOutcome::IdempotencyInvalidState
        },
    }
}

/// What a stored record means for cancelling a profile.
pub open spec fn cancel_verdict(
    verdict: IdempotencyVerdict,
) -> CancelProviderOperationalProfilePersistenceOutcome {
    match verdict {
        IdempotencyVerdict::Conflict => {
            CancelProviderOperationalProfilePersistenceOutcome::IdempotencyConflict
        },
        IdempotencyVerdict::Replay(snapshot) => {
            CancelProviderOperationalProfilePersistenceOutcome::Replayed(snapshot)
        },
        IdempotencyVerdict::InProgress => {
            CancelProviderOperationalProfilePersistenceOutcome::IdempotencyInProgress
        },
        IdempotencyVerdict::InvalidState => {
            CancelProviderOperationalProfilePersistenceOutcome::IdempotencyInvalidState
        },
    }
}

/// What a stored record means for cancelling a profile with this request hash.
pub fn classify_cancel_idempotency(
    existing: &IdempotencyRecord,
    request_hash: &String,
) -> (r: CancelProviderOperationalProfilePersistenceOutcome)
    ensures
        r == cancel_verdict(idempotency::idempotency_verdict(*existing, *request_hash)),
{
    match idempotency::judge_idempotency(existing, request_hash) {
        IdempotencyVerdict::Conflict => {
            CancelProviderOperationalProfilePersistenceOutcome::IdempotencyConflict
        },
        IdempotencyVerdict::Replay(snapshot) => {
            CancelProviderOperationalProfilePersistenceOutcome::Replayed(snapshot)
        },
        IdempotencyVerdict::InProgress => {
            CancelProviderOperationalProfilePersistenceOutcome::IdempotencyInProgress
        },
        IdempotencyVerdict::InvalidState => {
            CancelProviderOperationalProfilePersistenceOutcome::IdempotencyInvalidState
        },
    }
}

/// The operational profile that a row holds.
#[verifier::opaque]
pub open spec fn map_row_spec(
    st: RunView,
    row: Row,
) -> (Result<ProviderOperationalProfileRecord, HaltView>, RunView) {
    match row.raw_at(0, READ_ROW@) { Err(h) => (Err(h), st), Ok(profile_raw) =>
    match row.raw_at(1, READ_ROW@) { Err(h) => (Err(h), st), Ok(provider_raw) =>
    match row.text_at(2, READ_ROW@) { Err(h) => (Err(h), st), Ok(status_text) =>
    match row.text_at(5, READ_ROW@) { Err(h) => (Err(h), st), Ok(controls) =>
    match row.opt_raw_at(6, READ_ROW@) { Err(h) => (Err(h), st), Ok(superseded_raw) =>
    match script::id_of(
        profile_raw@,
    ) { Err(h) => (Err(h), st), Ok(provider_operational_profile_id) =>
    match script::id_of(provider_raw@) { Err(h) => (Err(h), st), Ok(provider_id) =>
    match ProviderOperationalProfileStatus::of_code(status_text@) {
    None => {
        (
            script::query_fault(
                "unknown provider operational profile status `"@ + status_text@ + "`"@,
            ),
            st,
        )
    },
    Some(status) =>
    match row.int_at(3, READ_ROW@) { Err(h) => (Err(h), st), Ok(version) =>
    match row.text_at(4, READ_ROW@) { Err(h) => (Err(h), st), Ok(effective_text) =>
    match script::time_of(
        effective_text@,
        "invalid Oracle UTC timestamp"@,
    ) { Err(h) => (Err(h), st), Ok(effective_at) =>
    match script::verdict_spec(
        st,
        Rule::Document(DocumentKind::OperationalControls, controls),
    ) { (Err(h), st) => (Err(h), st), (Ok(fault), st) =>
    if let Some(cause) = fault {
        (script::failed("invalid provider operational profile JSON"@, cause@), st)
    } else {
    match script::opt_id_of(
        superseded_raw,
    ) { Err(h) => (Err(h), st), Ok(superseded_by_profile_id) =>
    match row.text_at(7, READ_ROW@) { Err(h) => (Err(h), st), Ok(created_by_subject) =>
    match row.text_at(8, READ_ROW@) { Err(h) => (Err(h), st), Ok(updated_by_subject) =>
    match row.text_at(9, READ_ROW@) { Err(h) => (Err(h), st), Ok(change_reason) =>
    match row.opt_text_at(10, READ_ROW@) { Err(h) => (Err(h), st), Ok(activated_text) =>
    match script::opt_time_of(
        activated_text,
        "invalid Oracle UTC timestamp"@,
    ) { Err(h) => (Err(h), st), Ok(activated_at) =>
    match row.opt_text_at(11, READ_ROW@) { Err(h) => (Err(h), st), Ok(superseded_text) =>
    match script::opt_time_of(
        superseded_text,
        "invalid Oracle UTC timestamp"@,
    ) { Err(h) => (Err(h), st), Ok(superseded_at) =>
    match row.opt_text_at(12, READ_ROW@) { Err(h) => (Err(h), st), Ok(cancelled_text) =>
    match script::opt_time_of(
        cancelled_text,
        "invalid Oracle UTC timestamp"@,
    ) { Err(h) => (Err(h), st), Ok(cancelled_at) =>
    match row.text_at(13, READ_ROW@) { Err(h) => (Err(h), st), Ok(created_text) =>
    match script::time_of(
        created_text@,
        "invalid Oracle UTC timestamp"@,
    ) { Err(h) => (Err(h), st), Ok(created_at) =>
    match row.text_at(14, READ_ROW@) { Err(h) => (Err(h), st), Ok(updated_text) =>
    match script::time_of(
        updated_text@,
        "invalid Oracle UTC timestamp"@,
    ) { Err(h) => (Err(h), st), Ok(updated_at) =>
    (
        Ok(ProviderOperationalProfileRecord {
            provider_operational_profile_id,
            provider_id,
            status,
            version,
            effective_at,
            controls,
            superseded_by_profile_id,
            created_by_subject,
            updated_by_subject,
            change_reason,
            activated_at,
            superseded_at,
            cancelled_at,
            created_at,
            updated_at,
        }),
        st,
    )
    }}}}}}}}}}}}}}}}}}}}}}}}}}}
}

/// The operational profile that a row holds.
pub fn map_row(s: &mut Session, row: &Row) -> (r: Result<ProviderOperationalProfileRecord, Halt>)
    ensures
        (script::seen(r), final(s)@) == map_row_spec(old(s)@, *row),
{
    proof {
        reveal(map_row_spec);
    }
    let profile_raw = row.raw(0, READ_ROW)?;
    let provider_raw = row.raw(1, READ_ROW)?;
    let status_text = row.text(2, READ_ROW)?;
    let controls = row.text(5, READ_ROW)?;
    let superseded_raw = row.opt_raw(6, READ_ROW)?;
    let provider_operational_profile_id = script::to_id(profile_raw)?;
    let provider_id = script::to_id(provider_raw)?;
    let status = match ProviderOperationalProfileStatus::from_db_value(status_text.as_str()) {
        Some(v) => v,
        None => {
            return Err(script::fail_query(
                text::joined3(
                    "unknown provider operational profile status `",
                    status_text.as_str(),
                    "`",
                ).as_str(),
            ));
        },
    };
    let version: i64 = row.number(3, READ_ROW)?;
    let effective_text = row.text(4, READ_ROW)?;
    let effective_at = script::to_time(effective_text.as_str(), "invalid Oracle UTC timestamp")?;
    let fault = script::verdict(
        s,
        Rule::Document(DocumentKind::OperationalControls, controls.clone()),
    )?;
    if let Some(cause) = &fault {
        return Err(script::fail_because(
            "invalid provider operational profile JSON",
            cause.as_str(),
        ));
    }
    let superseded_by_profile_id = script::to_opt_id(superseded_raw)?;
    let created_by_subject = row.text(7, READ_ROW)?;
    let updated_by_subject = row.text(8, READ_ROW)?;
    let change_reason = row.text(9, READ_ROW)?;
    let activated_text = row.opt_text(10, READ_ROW)?;
    let activated_at = script::to_opt_time(&activated_text, "invalid Oracle UTC timestamp")?;
    let superseded_text = row.opt_text(11, READ_ROW)?;
    let superseded_at = script::to_opt_time(&superseded_text, "invalid Oracle UTC timestamp")?;
    let cancelled_text = row.opt_text(12, READ_ROW)?;
    let cancelled_at = script::to_opt_time(&cancelled_text, "invalid Oracle UTC timestamp")?;
    let created_text = row.text(13, READ_ROW)?;
    let created_at = script::to_time(created_text.as_str(), "invalid Oracle UTC timestamp")?;
    let updated_text = row.text(14, READ_ROW)?;
    let updated_at = script::to_time(updated_text.as_str(), "invalid Oracle UTC timestamp")?;
    Ok(ProviderOperationalProfileRecord {
        provider_operational_profile_id,
        provider_id,
        status,
        version,
        effective_at,
        controls,
        superseded_by_profile_id,
        created_by_subject,
        updated_by_subject,
        change_reason,
        activated_at,
        superseded_at,
        cancelled_at,
        created_at,
        updated_at,
    })
}

/// Reading a row changes nothing.
pub broadcast proof fn map_row_changes_nothing(st: RunView, row: Row)
    ensures
        script::writes((#[trigger] map_row_spec(st, row)).1.log) == script::writes(st.log),
        forall|sql: Seq<char>| #[trigger]
            script::runs(map_row_spec(st, row).1.log, sql) == script::runs(st.log, sql),
        forall|spared: Set<Seq<char>>| #[trigger]
            script::writes_beside(
                map_row_spec(st, row).1.log,
                spared,
            ) == script::writes_beside(st.log, spared),
        forall|sql: Seq<char>, binds: Seq<Bind>| #[trigger]
            script::runs_on(map_row_spec(st, row).1.log, sql, binds) == script::runs_on(
                st.log,
                sql,
                binds,
            ),
        forall|sql: Seq<char>| #[trigger]
            script::told(map_row_spec(st, row).1.log, sql) == script::told(st.log, sql),
        forall|sql: Seq<char>, such: spec_fn(Seq<Bind>) -> bool| #[trigger]
            script::told_where(map_row_spec(st, row).1.log, sql, such) == script::told_where(
                st.log,
                sql,
                such,
            ),
        forall|sql: Seq<char>, id: Uuid| #[trigger]
            script::stored_under(map_row_spec(st, row).1.log, sql, id) == script::stored_under(
                st.log,
                sql,
                id,
            ),
{
    broadcast use {
        script::writes_with_another,
        script::runs_with_another,
        script::runs_on_with_another,
        script::told_with_another,
        script::told_where_with_another,
        script::stored_under_with_another,
        script::writes_beside_with_another,
    };

    reveal(map_row_spec);
}

/// Locks and reads the scheduled profile of a provider whose time has come, where there is one.
pub open spec fn fetch_due_scheduled_spec(
    st: RunView,
    provider_id: Uuid,
) -> (Result<Option<ProviderOperationalProfileRecord>, HaltView>, RunView) {
    match script::first_row_spec(
        st,
        profile_due_sql_text(),
        seq![Bind::Id(provider_id)],
        PROFILE_COLUMNS,
        QUERY@,
        QUERY@,
    ) { (Err(h), st) => (Err(h), st), (Ok(found), st) =>
    match found {
    None => {
        (Ok(None), st)
    },
    Some(row) =>
    match map_row_spec(st, row) { (Err(h), st) => (Err(h), st), (Ok(profile), st) =>
    (Ok(Some(profile)), st)
    }}}
}

/// Locks and reads the scheduled profile of a provider whose time has come, where there is one.
pub fn fetch_due_scheduled(
    s: &mut Session,
    provider_id: Uuid,
) -> (r: Result<Option<ProviderOperationalProfileRecord>, Halt>)
    ensures
        (script::seen(r), final(s)@) == fetch_due_scheduled_spec(old(s)@, provider_id),
{
    let found = script::first_row(
        s,
        profile_due_sql().as_str(),
        binds::binds1(Bind::Id(provider_id)),
        PROFILE_COLUMNS,
        QUERY,
        QUERY,
    )?;
    let row = match found {
        Some(v) => v,
        None => {
            return Ok(None);
        },
    };
    let profile = map_row(s, row)?;
    Ok(Some(profile))
}

/// Reads the profile of a provider that has a status, where there is one.
pub open spec fn fetch_by_status_spec(
    st: RunView,
    provider_id: Uuid,
    status: ProviderOperationalProfileStatus,
) -> (Result<Option<ProviderOperationalProfileRecord>, HaltView>, RunView) {
    match script::first_row_spec(
        st,
        profile_by_status_sql_text(),
        seq![Bind::Id(provider_id), Bind::Label(status.code())],
        PROFILE_COLUMNS,
        QUERY@,
        QUERY@,
    ) { (Err(h), st) => (Err(h), st), (Ok(found), st) =>
    match found {
    None => {
        (Ok(None), st)
    },
    Some(row) =>
    match map_row_spec(st, row) { (Err(h), st) => (Err(h), st), (Ok(profile), st) =>
    (Ok(Some(profile)), st)
    }}}
}

/// Reads the profile of a provider that has a status, where there is one.
pub fn fetch_by_status(
    s: &mut Session,
    provider_id: Uuid,
    status: ProviderOperationalProfileStatus,
) -> (r: Result<Option<ProviderOperationalProfileRecord>, Halt>)
    ensures
        (script::seen(r), final(s)@) == fetch_by_status_spec(old(s)@, provider_id, status),
{
    let found = script::first_row(
        s,
        profile_by_status_sql().as_str(),
        binds::binds2(Bind::Id(provider_id), Bind::Label(status.as_db_value())),
        PROFILE_COLUMNS,
        QUERY,
        QUERY,
    )?;
    let row = match found {
        Some(v) => v,
        None => {
            return Ok(None);
        },
    };
    let profile = map_row(s, row)?;
    Ok(Some(profile))
}

/// Reads a profile, where there is one.
pub open spec fn fetch_optional_profile_spec(
    st: RunView,
    profile_id: Uuid,
) -> (Result<Option<ProviderOperationalProfileRecord>, HaltView>, RunView) {
    match script::first_row_spec(
        st,
        profile_sql_text(),
        seq![Bind::Id(profile_id)],
        PROFILE_COLUMNS,
        QUERY@,
        QUERY@,
    ) { (Err(h), st) => (Err(h), st), (Ok(found), st) =>
    match found {
    None => {
        (Ok(None), st)
    },
    Some(row) =>
    match map_row_spec(st, row) { (Err(h), st) => (Err(h), st), (Ok(profile), st) =>
    (Ok(Some(profile)), st)
    }}}
}

/// Reads a profile, where there is one.
pub fn fetch_optional_profile(
    s: &mut Session,
    profile_id: Uuid,
) -> (r: Result<Option<ProviderOperationalProfileRecord>, Halt>)
    ensures
        (script::seen(r), final(s)@) == fetch_optional_profile_spec(old(s)@, profile_id),
{
    let found = script::first_row(
        s,
        profile_sql().as_str(),
        binds::binds1(Bind::Id(profile_id)),
        PROFILE_COLUMNS,
        QUERY,
        QUERY,
    )?;
    let row = match found {
        Some(v) => v,
        None => {
            return Ok(None);
        },
    };
    let profile = map_row(s, row)?;
    Ok(Some(profile))
}

/// Reads a profile that was stored.
pub open spec fn fetch_profile_spec(
    st: RunView,
    profile_id: Uuid,
) -> (Result<ProviderOperationalProfileRecord, HaltView>, RunView) {
    match fetch_optional_profile_spec(
        st,
        profile_id,
    ) { (Err(h), st) => (Err(h), st), (Ok(found), st) =>
    match found {
    None => {
        (script::query_fault("provider operational profile disappeared during transaction"@), st)
    },
    Some(profile) =>
    (Ok(profile), st)
    }}
}

/// Reads a profile that was stored.
pub fn fetch_profile(
    s: &mut Session,
    profile_id: Uuid,
) -> (r: Result<ProviderOperationalProfileRecord, Halt>)
    ensures
        (script::seen(r), final(s)@) == fetch_profile_spec(old(s)@, profile_id),
{
    let found = fetch_optional_profile(s, profile_id)?;
    let profile = match found {
        Some(v) => v,
        None => {
            return Err(script::fail_query(
                "provider operational profile disappeared during transaction",
            ));
        },
    };
    Ok(profile)
}

/// Locks a provider and reads its status, where there is one.
pub open spec fn lock_provider_spec(
    st: RunView,
    provider_id: Uuid,
) -> (Result<Option<ProviderStatus>, HaltView>, RunView) {
    match script::first_row_spec(
        st,
        LOCK_PROVIDER_SQL@,
        seq![Bind::Id(provider_id)],
        "t",
        QUERY@,
        QUERY@,
    ) { (Err(h), st) => (Err(h), st), (Ok(found), st) =>
    match found {
    None => {
        (Ok(None), st)
    },
    Some(row) =>
    match row.text_at(0, READ_ROW@) { Err(h) => (Err(h), st), Ok(status_text) =>
    match ProviderStatus::of_code(status_text@) {
    None => {
        (script::query_fault("unknown provider lifecycle status"@), st)
    },
    Some(status) =>
    (Ok(Some(status)), st)
    }}}}
}

/// Locks a provider and reads its status, where there is one.
pub fn lock_provider(
    s: &mut Session,
    provider_id: Uuid,
) -> (r: Result<Option<ProviderStatus>, Halt>)
    ensures
        (script::seen(r), final(s)@) == lock_provider_spec(old(s)@, provider_id),
{
    let found = script::first_row(
        s,
        LOCK_PROVIDER_SQL,
        binds::binds1(Bind::Id(provider_id)),
        "t",
        QUERY,
        QUERY,
    )?;
    let row = match found {
        Some(v) => v,
        None => {
            return Ok(None);
        },
    };
    let status_text = row.text(0, READ_ROW)?;
    let status = match ProviderStatus::from_db_value(status_text.as_str()) {
        Some(v) => v,
        None => {
            return Err(script::fail_query("unknown provider lifecycle status"));
        },
    };
    Ok(Some(status))
}

/// Supersedes an active profile.
pub open spec fn supersede_profile_spec(
    st: RunView,
    active: ProviderOperationalProfileRecord,
    replacement_id: Option<Uuid>,
    subject: Bind,
    origin: AuditOrigin,
) -> (Result<(), HaltView>, RunView) {
    match script::execute_spec(
        st,
        SUPERSEDE_SQL@,
        seq![
            Bind::OptId(replacement_id),
            subject,
            Bind::Id(active.provider_operational_profile_id),
        ],
        QUERY@,
    ) { (Err(h), st) => (Err(h), st), (Ok(_), st) =>
    match fetch_profile_spec(
        st,
        active.provider_operational_profile_id,
    ) { (Err(h), st) => (Err(h), st), (Ok(superseded), st) =>
    match script::consult_text_spec(
        st,
        Rule::OperationalProfileSnapshot(active),
    ) { (Err(h), st) => (Err(h), st), (Ok(old_snapshot), st) =>
    match script::consult_text_spec(
        st,
        Rule::OperationalProfileSnapshot(superseded),
    ) { (Err(h), st) => (Err(h), st), (Ok(new_snapshot), st) =>
    audit::insert_audit_log_spec(
        st,
        "PROVIDER_OPERATIONAL_PROFILE",
        active.provider_operational_profile_id,
        AuditAction::StateTransition,
        Bind::Label("operational profile superseded"),
        Some(Snapshot::Text(old_snapshot)),
        Some(Snapshot::Text(new_snapshot)),
        origin,
    )
    }}}}
}

/// Supersedes an active profile.
pub fn supersede_profile(
    s: &mut Session,
    active: &ProviderOperationalProfileRecord,
    replacement_id: Option<Uuid>,
    subject: Bind,
    origin: AuditOrigin,
) -> (r: Result<(), Halt>)
    ensures
        (script::seen(r), final(s)@) == supersede_profile_spec(
            old(s)@,
            *active,
            replacement_id,
            subject,
            origin,
        ),
{
    script::execute(
        s,
        SUPERSEDE_SQL,
        binds::binds3(
            Bind::OptId(replacement_id),
            subject,
            Bind::Id(active.provider_operational_profile_id),
        ),
        QUERY,
    )?;
    let superseded = fetch_profile(s, active.provider_operational_profile_id)?;
    let old_snapshot = script::consult_text(s, Rule::OperationalProfileSnapshot(active.clone()))?;
    let new_snapshot = script::consult_text(
        s,
        Rule::OperationalProfileSnapshot(superseded.clone()),
    )?;
    audit::insert_audit_log(
        s,
        "PROVIDER_OPERATIONAL_PROFILE",
        active.provider_operational_profile_id,
        AuditAction::StateTransition,
        Bind::Label("operational profile superseded"),
        Some(Snapshot::Text(old_snapshot)),
        Some(Snapshot::Text(new_snapshot)),
        origin,
    )
}

/// Names the profile that replaced another.
pub open spec fn link_replacement_spec(
    st: RunView,
    previous_id: Uuid,
    replacement_id: Uuid,
) -> (Result<(), HaltView>, RunView) {
    match script::execute_spec(
        st,
        LINK_SQL@,
        seq![Bind::Id(replacement_id), Bind::Id(previous_id)],
        QUERY@,
    ) { (Err(h), st) => (Err(h), st), (Ok(_), st) =>
    (Ok(()), st)
    }
}

/// Names the profile that replaced another.
pub fn link_replacement(
    s: &mut Session,
    previous_id: Uuid,
    replacement_id: Uuid,
) -> (r: Result<(), Halt>)
    ensures
        (script::seen(r), final(s)@) == link_replacement_spec(old(s)@, previous_id, replacement_id),
{
    script::execute(
        s,
        LINK_SQL,
        binds::binds2(Bind::Id(replacement_id), Bind::Id(previous_id)),
        QUERY,
    )?;
    Ok(())
}

/// Cancels a scheduled profile.
pub open spec fn cancel_locked_profile_spec(
    st: RunView,
    profile: ProviderOperationalProfileRecord,
    replacement_id: Option<Uuid>,
    context: MutationCommandContext,
    reason: Bind,
) -> (Result<(), HaltView>, RunView) {
    match script::execute_spec(
        st,
        CANCEL_SQL@,
        seq![
            Bind::OptId(replacement_id),
            Bind::Text(context.actor.subject),
            Bind::Id(profile.provider_operational_profile_id),
        ],
        QUERY@,
    ) { (Err(h), st) => (Err(h), st), (Ok(_), st) =>
    match fetch_profile_spec(
        st,
        profile.provider_operational_profile_id,
    ) { (Err(h), st) => (Err(h), st), (Ok(cancelled), st) =>
    match script::consult_text_spec(
        st,
        Rule::OperationalProfileSnapshot(profile),
    ) { (Err(h), st) => (Err(h), st), (Ok(old_snapshot), st) =>
    match script::consult_text_spec(
        st,
        Rule::OperationalProfileSnapshot(cancelled),
    ) { (Err(h), st) => (Err(h), st), (Ok(new_snapshot), st) =>
    audit::insert_audit_log_spec(
        st,
        "PROVIDER_OPERATIONAL_PROFILE",
        profile.provider_operational_profile_id,
        AuditAction::StateTransition,
        reason,
        Some(Snapshot::Text(old_snapshot)),
        Some(Snapshot::Text(new_snapshot)),
        audit::trusted_origin_spec(context.audit),
    )
    }}}}
}

/// Cancels a scheduled profile.
pub fn cancel_locked_profile(
    s: &mut Session,
    profile: &ProviderOperationalProfileRecord,
    replacement_id: Option<Uuid>,
    context: &MutationCommandContext,
    reason: Bind,
) -> (r: Result<(), Halt>)
    ensures
        (script::seen(r), final(s)@) == cancel_locked_profile_spec(
            old(s)@,
            *profile,
            replacement_id,
            *context,
            reason,
        ),
{
    script::execute(
        s,
        CANCEL_SQL,
        binds::binds3(
            Bind::OptId(replacement_id),
            Bind::Text(context.actor.subject.clone()),
            Bind::Id(profile.provider_operational_profile_id),
        ),
        QUERY,
    )?;
    let cancelled = fetch_profile(s, profile.provider_operational_profile_id)?;
    let old_snapshot = script::consult_text(s, Rule::OperationalProfileSnapshot(profile.clone()))?;
    let new_snapshot = script::consult_text(
        s,
        Rule::OperationalProfileSnapshot(cancelled.clone()),
    )?;
    audit::insert_audit_log(
        s,
        "PROVIDER_OPERATIONAL_PROFILE",
        profile.provider_operational_profile_id,
        AuditAction::StateTransition,
        reason,
        Some(Snapshot::Text(old_snapshot)),
        Some(Snapshot::Text(new_snapshot)),
        audit::trusted_origin(&context.audit),
    )
}

impl OperationalProfileMutationDisposition {
    /// Its name in answers.
    pub open spec fn spec_name(self) -> &'static str {
        match self {
            OperationalProfileMutationDisposition::Activated => "ACTIVATED",
            OperationalProfileMutationDisposition::Scheduled => "SCHEDULED",
        }
    }

    /// Its name in answers.
    pub fn name(self) -> (r: &'static str)
        ensures
            r == self.spec_name(),
    {
        match self {
            OperationalProfileMutationDisposition::Activated => "ACTIVATED",
            OperationalProfileMutationDisposition::Scheduled => "SCHEDULED",
        }
    }
}

/// The status with which a profile is stored.
pub open spec fn initial_status(
    disposition: OperationalProfileMutationDisposition,
) -> &'static str {
    match disposition {
        OperationalProfileMutationDisposition::Activated => "ACTIVE",
        OperationalProfileMutationDisposition::Scheduled => "SCHEDULED",
    }
}

fn stored_status(disposition: OperationalProfileMutationDisposition) -> (r: &'static str)
    ensures
        r == initial_status(disposition),
{
    match disposition {
        OperationalProfileMutationDisposition::Activated => "ACTIVE",
        OperationalProfileMutationDisposition::Scheduled => "SCHEDULED",
    }
}

/// Stores a profile.
pub open spec fn insert_profile_spec(
    st: RunView,
    profile_id: Uuid,
    provider_id: Uuid,
    version: i64,
    desired: DesiredProviderOperationalProfile,
    disposition: OperationalProfileMutationDisposition,
    subject: String,
) -> (Result<(), HaltView>, RunView) {
    match script::execute_spec(
        st,
        PROFILE_INSERT_SQL@,
        seq![
            Bind::Id(profile_id),
            Bind::Id(provider_id),
            Bind::Label(initial_status(disposition)),
            Bind::Int(version),
            Bind::OffsetTime(desired.effective_at),
            Bind::Text(desired.controls),
            Bind::Text(subject),
            Bind::Text(subject),
            Bind::Text(desired.reason),
            Bind::Flag(disposition == OperationalProfileMutationDisposition::Activated),
        ],
        QUERY@,
    ) { (Err(h), st) => (Err(h), st), (Ok(_), st) =>
    (Ok(()), st)
    }
}

/// Stores a profile.
pub fn insert_profile(
    s: &mut Session,
    profile_id: Uuid,
    provider_id: Uuid,
    version: i64,
    desired: &DesiredProviderOperationalProfile,
    disposition: OperationalProfileMutationDisposition,
    subject: &String,
) -> (r: Result<(), Halt>)
    ensures
        (script::seen(r), final(s)@) == insert_profile_spec(
            old(s)@,
            profile_id,
            provider_id,
            version,
            *desired,
            disposition,
            *subject,
        ),
{
    script::execute(
        s,
        PROFILE_INSERT_SQL,
        binds::binds10(
            Bind::Id(profile_id),
            Bind::Id(provider_id),
            Bind::Label(stored_status(disposition)),
            Bind::Int(version),
            Bind::OffsetTime(desired.effective_at),
            Bind::Text(desired.controls.clone()),
            Bind::Text(subject.clone()),
            Bind::Text(subject.clone()),
            Bind::Text(desired.reason.clone()),
            Bind::Flag(disposition == OperationalProfileMutationDisposition::Activated),
        ),
        QUERY,
    )?;
    Ok(())
}

/// Supersedes the active profile of a provider, where there is one, and tells which it was.
pub open spec fn supersede_active_spec(
    st: RunView,
    provider_id: Uuid,
    replacement_id: Option<Uuid>,
    subject: Bind,
    origin: AuditOrigin,
) -> (Result<Option<Uuid>, HaltView>, RunView) {
    match fetch_by_status_spec(
        st,
        provider_id,
        ProviderOperationalProfileStatus::Active,
    ) { (Err(h), st) => (Err(h), st), (Ok(active), st) =>
    match active {
    None => {
        (Ok(None), st)
    },
    Some(profile) =>
    match supersede_profile_spec(
        st,
        profile,
        replacement_id,
        subject,
        origin,
    ) { (Err(h), st) => (Err(h), st), (Ok(_), st) =>
    (Ok(Some(profile.provider_operational_profile_id)), st)
    }}}
}

/// Supersedes the active profile of a provider, where there is one, and tells which it was.
pub fn supersede_active(
    s: &mut Session,
    provider_id: Uuid,
    replacement_id: Option<Uuid>,
    subject: Bind,
    origin: AuditOrigin,
) -> (r: Result<Option<Uuid>, Halt>)
    ensures
        (script::seen(r), final(s)@) == supersede_active_spec(
            old(s)@,
            provider_id,
            replacement_id,
            subject,
            origin,
        ),
{
    let active = fetch_by_status(s, provider_id, ProviderOperationalProfileStatus::Active)?;
    let profile = match &active {
        Some(v) => v,
        None => {
            return Ok(None);
        },
    };
    supersede_profile(s, profile, replacement_id, subject, origin)?;
    Ok(Some(profile.provider_operational_profile_id))
}

/// Activates the scheduled profile of a locked provider whose time has come, where there is one.
pub open spec fn promote_due_for_provider_spec(
    st: RunView,
    provider_id: Uuid,
) -> (Result<Option<ProviderOperationalProfileRecord>, HaltView>, RunView) {
    match fetch_due_scheduled_spec(st, provider_id) { (Err(h), st) => (Err(h), st), (Ok(due), st) =>
    match due {
    None => {
        (Ok(None), st)
    },
    Some(candidate) =>
    match script::fresh_id_spec(st) { (Err(h), st) => (Err(h), st), (Ok(operation_id), st) =>
    match supersede_active_spec(
        st,
        provider_id,
        Some(candidate.provider_operational_profile_id),
        Bind::Label("wurzburg-system"),
        audit::scheduler_origin_spec(operation_id),
    ) { (Err(h), st) => (Err(h), st), (Ok(_), st) =>
    match script::execute_count_spec(
        st,
        PROMOTE_SQL@,
        seq![Bind::Id(candidate.provider_operational_profile_id)],
        QUERY@,
        QUERY@,
    ) { (Err(h), st) => (Err(h), st), (Ok(touched), st) =>
    if touched != 1 {
        (
            script::query_fault(
                "due operational profile promotion affected an unexpected row count"@,
            ),
            st,
        )
    } else {
    match fetch_profile_spec(
        st,
        candidate.provider_operational_profile_id,
    ) { (Err(h), st) => (Err(h), st), (Ok(active), st) =>
    match script::consult_text_spec(
        st,
        Rule::OperationalProfileSnapshot(candidate),
    ) { (Err(h), st) => (Err(h), st), (Ok(old_snapshot), st) =>
    match script::consult_text_spec(
        st,
        Rule::OperationalProfileSnapshot(active),
    ) { (Err(h), st) => (Err(h), st), (Ok(new_snapshot), st) =>
    match audit::insert_audit_log_spec(
        st,
        "PROVIDER_OPERATIONAL_PROFILE",
        active.provider_operational_profile_id,
        AuditAction::StateTransition,
        Bind::Label("scheduled operational profile reached effective time"),
        Some(Snapshot::Text(old_snapshot)),
        Some(Snapshot::Text(new_snapshot)),
        audit::scheduler_origin_spec(operation_id),
    ) { (Err(h), st) => (Err(h), st), (Ok(_), st) =>
    (Ok(Some(active)), st)
    }}}}}}}}}}
}

/// Activates the scheduled profile of a locked provider whose time has come, where there is one.
pub fn promote_due_for_provider(
    s: &mut Session,
    provider_id: Uuid,
) -> (r: Result<Option<ProviderOperationalProfileRecord>, Halt>)
    ensures
        (script::seen(r), final(s)@) == promote_due_for_provider_spec(old(s)@, provider_id),
{
    let due = fetch_due_scheduled(s, provider_id)?;
    let candidate = match due {
        Some(v) => v,
        None => {
            return Ok(None);
        },
    };
    let operation_id = script::fresh_id(s)?;
    supersede_active(
        s,
        provider_id,
        Some(candidate.provider_operational_profile_id),
        Bind::Label("wurzburg-system"),
        audit::scheduler_origin(operation_id),
    )?;
    let touched = script::execute_count(
        s,
        PROMOTE_SQL,
        binds::binds1(Bind::Id(candidate.provider_operational_profile_id)),
        QUERY,
        QUERY,
    )?;
    if touched != 1 {
        return Err(script::fail_query(
            "due operational profile promotion affected an unexpected row count",
        ));
    }
    let active = fetch_profile(s, candidate.provider_operational_profile_id)?;
    let old_snapshot = script::consult_text(
        s,
        Rule::OperationalProfileSnapshot(candidate.clone()),
    )?;
    let new_snapshot = script::consult_text(s, Rule::OperationalProfileSnapshot(active.clone()))?;
    audit::insert_audit_log(
        s,
        "PROVIDER_OPERATIONAL_PROFILE",
        active.provider_operational_profile_id,
        AuditAction::StateTransition,
        Bind::Label("scheduled operational profile reached effective time"),
        Some(Snapshot::Text(old_snapshot)),
        Some(Snapshot::Text(new_snapshot)),
        audit::scheduler_origin(operation_id),
    )?;
    Ok(Some(active))
}

/// Cancels the scheduled profile of a provider, where there is one, and tells which it was.
pub open spec fn cancel_candidate_spec(
    st: RunView,
    context: MutationCommandContext,
    provider_id: Uuid,
) -> (Result<Option<Uuid>, HaltView>, RunView) {
    match fetch_by_status_spec(
        st,
        provider_id,
        ProviderOperationalProfileStatus::Scheduled,
    ) { (Err(h), st) => (Err(h), st), (Ok(scheduled), st) =>
    match scheduled {
    None => {
        (Ok(None), st)
    },
    Some(candidate) =>
    match cancel_locked_profile_spec(
        st,
        candidate,
        None,
        context,
        Bind::Label("replaced by a newer operational profile schedule"),
    ) { (Err(h), st) => (Err(h), st), (Ok(_), st) =>
    (Ok(Some(candidate.provider_operational_profile_id)), st)
    }}}
}

/// Cancels the scheduled profile of a provider, where there is one, and tells which it was.
pub fn cancel_candidate(
    s: &mut Session,
    context: &MutationCommandContext,
    provider_id: Uuid,
) -> (r: Result<Option<Uuid>, Halt>)
    ensures
        (script::seen(r), final(s)@) == cancel_candidate_spec(old(s)@, *context, provider_id),
{
    let scheduled = fetch_by_status(s, provider_id, ProviderOperationalProfileStatus::Scheduled)?;
    let candidate = match &scheduled {
        Some(v) => v,
        None => {
            return Ok(None);
        },
    };
    cancel_locked_profile(
        s,
        candidate,
        None,
        context,
        Bind::Label("replaced by a newer operational profile schedule"),
    )?;
    Ok(Some(candidate.provider_operational_profile_id))
}

/// Supersedes the active profile of a provider where the new one is in force at once.
pub open spec fn supersede_if_due_spec(
    st: RunView,
    context: MutationCommandContext,
    provider_id: Uuid,
    disposition: OperationalProfileMutationDisposition,
) -> (Result<Option<Uuid>, HaltView>, RunView) {
    if disposition == OperationalProfileMutationDisposition::Scheduled {
        (Ok(None), st)
    } else {
    supersede_active_spec(
        st,
        provider_id,
        None,
        Bind::Text(context.audit.actor_subject),
        audit::trusted_origin_spec(context.audit),
    )
    }
}

/// Supersedes the active profile of a provider where the new one is in force at once.
pub fn supersede_if_due(
    s: &mut Session,
    context: &MutationCommandContext,
    provider_id: Uuid,
    disposition: OperationalProfileMutationDisposition,
) -> (r: Result<Option<Uuid>, Halt>)
    ensures
        (script::seen(r), final(s)@) == supersede_if_due_spec(
            old(s)@,
            *context,
            provider_id,
            disposition,
        ),
{
    if disposition == OperationalProfileMutationDisposition::Scheduled {
        return Ok(None);
    }
    supersede_active(
        s,
        provider_id,
        None,
        Bind::Text(context.audit.actor_subject.clone()),
        audit::trusted_origin(&context.audit),
    )
}

/// Names the profile that replaced another, where there was another.
pub open spec fn link_previous_spec(
    st: RunView,
    previous: Option<Uuid>,
    replacement_id: Uuid,
) -> (Result<(), HaltView>, RunView) {
    match previous {
    None => {
        (Ok(()), st)
    },
    Some(previous_id) =>
    link_replacement_spec(st, previous_id, replacement_id)
    }
}

/// Names the profile that replaced another, where there was another.
pub fn link_previous(
    s: &mut Session,
    previous: Option<Uuid>,
    replacement_id: Uuid,
) -> (r: Result<(), Halt>)
    ensures
        (script::seen(r), final(s)@) == link_previous_spec(old(s)@, previous, replacement_id),
{
    let previous_id = match previous {
        Some(v) => v,
        None => {
            return Ok(());
        },
    };
    link_replacement(s, previous_id, replacement_id)
}

/// A profile whose time has come is in force at once, another one is scheduled.
pub open spec fn disposition_of(due: i64) -> OperationalProfileMutationDisposition {
    if due == 1 {
        OperationalProfileMutationDisposition::Activated
    } else {
        OperationalProfileMutationDisposition::Scheduled
    }
}

fn disposition_for(due: i64) -> (r: OperationalProfileMutationDisposition)
    ensures
        r == disposition_of(due),
{
    if due == 1 {
        OperationalProfileMutationDisposition::Activated
    } else {
        OperationalProfileMutationDisposition::Scheduled
    }
}

/// Stores a profile for a locked provider, which replaces the scheduled one, and the active one
/// where it is in force at once.
#[verifier::opaque]
pub open spec fn set_profile_spec(
    st: RunView,
    context: MutationCommandContext,
    provider_id: Uuid,
    desired: DesiredProviderOperationalProfile,
) -> (Result<SetProviderOperationalProfilePersistenceOutcome, HaltView>, RunView) {
    match promote_due_for_provider_spec(
        st,
        provider_id,
    ) { (Err(h), st) => (Err(h), st), (Ok(_), st) =>
    match idempotency::insert_idempotency_record_spec(
        st,
        context.record,
    ) { (Err(h), st) => (Err(h), st), (Ok(_), st) =>
    match script::fresh_id_spec(st) { (Err(h), st) => (Err(h), st), (Ok(profile_id), st) =>
    match script::one_int_spec(
        st,
        NEXT_VERSION_SQL@,
        seq![Bind::Id(provider_id)],
        QUERY@,
    ) { (Err(h), st) => (Err(h), st), (Ok(version), st) =>
    match script::one_small_spec(
        st,
        IS_DUE_SQL@,
        seq![Bind::OffsetTime(desired.effective_at)],
        QUERY@,
    ) { (Err(h), st) => (Err(h), st), (Ok(due), st) =>
    { let disposition = disposition_of(due);
    match cancel_candidate_spec(
        st,
        context,
        provider_id,
    ) { (Err(h), st) => (Err(h), st), (Ok(candidate), st) =>
    match supersede_if_due_spec(
        st,
        context,
        provider_id,
        disposition,
    ) { (Err(h), st) => (Err(h), st), (Ok(superseded), st) =>
    match insert_profile_spec(
        st,
        profile_id,
        provider_id,
        version,
        desired,
        disposition,
        context.actor.subject,
    ) { (Err(h), st) => (Err(h), st), (Ok(_), st) =>
    match link_previous_spec(
        st,
        candidate,
        profile_id,
    ) { (Err(h), st) => (Err(h), st), (Ok(_), st) =>
    match link_previous_spec(
        st,
        superseded,
        profile_id,
    ) { (Err(h), st) => (Err(h), st), (Ok(_), st) =>
    match fetch_profile_spec(st, profile_id) { (Err(h), st) => (Err(h), st), (Ok(profile), st) =>
    match script::consult_text_spec(
        st,
        Rule::OperationalProfileSnapshot(profile),
    ) { (Err(h), st) => (Err(h), st), (Ok(snapshot), st) =>
    match audit::insert_audit_log_spec(
        st,
        "PROVIDER_OPERATIONAL_PROFILE",
        profile_id,
        AuditAction::Insert,
        Bind::Text(desired.reason),
        None,
        Some(Snapshot::Text(snapshot)),
        audit::trusted_origin_spec(context.audit),
    ) { (Err(h), st) => (Err(h), st), (Ok(_), st) =>
    match script::consult_text_spec(
        st,
        Rule::OperationalProfileSnapshot(profile),
    ) { (Err(h), st) => (Err(h), st), (Ok(shown), st) =>
    { let response = Document::OperationalProfileChange(disposition.spec_name(), shown);
    match idempotency::complete_idempotency_record_spec(
        st,
        context.operation_type,
        context.idempotency_key,
        "provider_operational_profile",
        profile_id,
        Snapshot::Document(response),
    ) { (Err(h), st) => (Err(h), st), (Ok(_), st) =>
    (
        Ok(SetProviderOperationalProfilePersistenceOutcome::Applied(Box::new(
            SetProviderOperationalProfileResult { disposition, profile },
        ))),
        st,
    )
    }}}}}}}}}}}}}}}}}
}

/// Stores a profile for a locked provider, which replaces the scheduled one, and the active one
/// where it is in force at once.
pub fn set_profile(
    s: &mut Session,
    context: &MutationCommandContext,
    provider_id: Uuid,
    desired: &DesiredProviderOperationalProfile,
) -> (r: Result<SetProviderOperationalProfilePersistenceOutcome, Halt>)
    ensures
        (script::seen(r), final(s)@) == set_profile_spec(old(s)@, *context, provider_id, *desired),
{
    proof {
        reveal(set_profile_spec);
    }
    promote_due_for_provider(s, provider_id)?;
    idempotency::insert_idempotency_record(s, &context.record)?;
    let profile_id = script::fresh_id(s)?;
    let version: i64 = script::one_int(
        s,
        NEXT_VERSION_SQL,
        binds::binds1(Bind::Id(provider_id)),
        QUERY,
    )?;
    let due: i64 = script::one_small(
        s,
        IS_DUE_SQL,
        binds::binds1(Bind::OffsetTime(desired.effective_at)),
        QUERY,
    )?;
    let disposition = disposition_for(due);
    let candidate = cancel_candidate(s, context, provider_id)?;
    let superseded = supersede_if_due(s, context, provider_id, disposition)?;
    insert_profile(
        s,
        profile_id,
        provider_id,
        version,
        desired,
        disposition,
        &context.actor.subject,
    )?;
    link_previous(s, candidate, profile_id)?;
    link_previous(s, superseded, profile_id)?;
    let profile = fetch_profile(s, profile_id)?;
    let snapshot = script::consult_text(s, Rule::OperationalProfileSnapshot(profile.clone()))?;
    audit::insert_audit_log(
        s,
        "PROVIDER_OPERATIONAL_PROFILE",
        profile_id,
        AuditAction::Insert,
        Bind::Text(desired.reason.clone()),
        None,
        Some(Snapshot::Text(snapshot)),
        audit::trusted_origin(&context.audit),
    )?;
    let shown = script::consult_text(s, Rule::OperationalProfileSnapshot(profile.clone()))?;
    let response = Document::OperationalProfileChange(disposition.name(), shown.clone());
    idempotency::complete_idempotency_record(
        s,
        &context.operation_type,
        &context.idempotency_key,
        "provider_operational_profile",
        profile_id,
        Snapshot::Document(response),
    )?;
    Ok(SetProviderOperationalProfilePersistenceOutcome::Applied(Box::new(
        SetProviderOperationalProfileResult { disposition, profile },
    )))
}

/// Sets the operational profile of a provider, now or for a later time. Under one idempotency key
/// this happens once.
pub open spec fn set_provider_operational_profile_atomic_spec(
    st: RunView,
    context: MutationCommandContext,
    provider_id: Uuid,
    desired: DesiredProviderOperationalProfile,
) -> (Result<SetProviderOperationalProfilePersistenceOutcome, HaltView>, RunView) {
    match idempotency::fetch_idempotency_record_spec(
        st,
        context.operation_type,
        context.idempotency_key,
    ) { (Err(h), st) => (Err(h), st), (Ok(existing), st) =>
    if let Some(record) = existing {
        (Ok(set_verdict(idempotency::idempotency_verdict(record, context.request_hash))), st)
    } else {
    match lock_provider_spec(st, provider_id) { (Err(h), st) => (Err(h), st), (Ok(locked), st) =>
    match locked {
    None => {
        (Ok(SetProviderOperationalProfilePersistenceOutcome::ProviderNotFound), st)
    },
    Some(status) =>
    if status == ProviderStatus::Inactive {
        (Ok(SetProviderOperationalProfilePersistenceOutcome::ProviderInactive), st)
    } else {
    set_profile_spec(st, context, provider_id, desired)
    }}}}}
}

impl OracleRepository {
    /// Sets the operational profile of a provider, now or for a later time. Under one idempotency
    /// key this happens once.
    pub fn set_provider_operational_profile_atomic(
        s: &mut Session,
        context: &MutationCommandContext,
        provider_id: Uuid,
        desired: &DesiredProviderOperationalProfile,
    ) -> (r: Result<SetProviderOperationalProfilePersistenceOutcome, Halt>)
        ensures
            (script::seen(r), final(s)@) == set_provider_operational_profile_atomic_spec(
                old(s)@,
                *context,
                provider_id,
                *desired,
            ),
    {
        let existing = idempotency::fetch_idempotency_record(
            s,
            &context.operation_type,
            &context.idempotency_key,
        )?;
        if let Some(record) = &existing {
            return Ok(classify_set_idempotency(record, &context.request_hash));
        }
        let locked = lock_provider(s, provider_id)?;
        let status = match locked {
            Some(v) => v,
            None => {
                return Ok(SetProviderOperationalProfilePersistenceOutcome::ProviderNotFound);
            },
        };
        if status == ProviderStatus::Inactive {
            return Ok(SetProviderOperationalProfilePersistenceOutcome::ProviderInactive);
        }
        set_profile(s, context, provider_id, desired)
    }
}

/// Cancels a scheduled profile of a provider. Under one idempotency key this happens once.
pub open spec fn cancel_provider_operational_profile_atomic_spec(
    st: RunView,
    context: MutationCommandContext,
    provider_id: Uuid,
    profile_id: Uuid,
    reason: String,
) -> (Result<CancelProviderOperationalProfilePersistenceOutcome, HaltView>, RunView) {
    match idempotency::fetch_idempotency_record_spec(
        st,
        context.operation_type,
        context.idempotency_key,
    ) { (Err(h), st) => (Err(h), st), (Ok(existing), st) =>
    if let Some(record) = existing {
        (Ok(cancel_verdict(idempotency::idempotency_verdict(record, context.request_hash))), st)
    } else {
    match lock_provider_spec(st, provider_id) { (Err(h), st) => (Err(h), st), (Ok(locked), st) =>
    if locked is None {
        (Ok(CancelProviderOperationalProfilePersistenceOutcome::ProviderNotFound), st)
    } else {
    match promote_due_for_provider_spec(
        st,
        provider_id,
    ) { (Err(h), st) => (Err(h), st), (Ok(_), st) =>
    match fetch_optional_profile_spec(
        st,
        profile_id,
    ) { (Err(h), st) => (Err(h), st), (Ok(found), st) =>
    match found {
    None => {
        (Ok(CancelProviderOperationalProfilePersistenceOutcome::ProfileNotFound), st)
    },
    Some(profile) =>
    if profile.provider_id != provider_id
        || profile.status != ProviderOperationalProfileStatus::Scheduled {
        (Ok(CancelProviderOperationalProfilePersistenceOutcome::InvalidState), st)
    } else {
    match idempotency::insert_idempotency_record_spec(
        st,
        context.record,
    ) { (Err(h), st) => (Err(h), st), (Ok(_), st) =>
    match cancel_locked_profile_spec(
        st,
        profile,
        None,
        context,
        Bind::Text(reason),
    ) { (Err(h), st) => (Err(h), st), (Ok(_), st) =>
    match fetch_profile_spec(st, profile_id) { (Err(h), st) => (Err(h), st), (Ok(cancelled), st) =>
    match script::consult_text_spec(
        st,
        Rule::OperationalProfileSnapshot(cancelled),
    ) { (Err(h), st) => (Err(h), st), (Ok(snapshot), st) =>
    match idempotency::complete_idempotency_record_spec(
        st,
        context.operation_type,
        context.idempotency_key,
        "provider_operational_profile",
        profile_id,
        Snapshot::Text(snapshot),
    ) { (Err(h), st) => (Err(h), st), (Ok(_), st) =>
    (Ok(CancelProviderOperationalProfilePersistenceOutcome::Applied(Box::new(cancelled))), st)
    }}}}}}}}}}}}}
}

impl OracleRepository {
    /// Cancels a scheduled profile of a provider. Under one idempotency key this happens once.
    pub fn cancel_provider_operational_profile_atomic(
        s: &mut Session,
        context: &MutationCommandContext,
        provider_id: Uuid,
        profile_id: Uuid,
        reason: &String,
    ) -> (r: Result<CancelProviderOperationalProfilePersistenceOutcome, Halt>)
        ensures
            (script::seen(r), final(s)@) == cancel_provider_operational_profile_atomic_spec(
                old(s)@,
                *context,
                provider_id,
                profile_id,
                *reason,
            ),
    {
        let existing = idempotency::fetch_idempotency_record(
            s,
            &context.operation_type,
            &context.idempotency_key,
        )?;
        if let Some(record) = &existing {
            return Ok(classify_cancel_idempotency(record, &context.request_hash));
        }
        let locked = lock_provider(s, provider_id)?;
        if locked.is_none() {
            return Ok(CancelProviderOperationalProfilePersistenceOutcome::ProviderNotFound);
        }
        promote_due_for_provider(s, provider_id)?;
        let found = fetch_optional_profile(s, profile_id)?;
        let profile = match &found {
            Some(v) => v,
            None => {
                return Ok(CancelProviderOperationalProfilePersistenceOutcome::ProfileNotFound);
            },
        };
        if profile.provider_id != provider_id
            || profile.status != ProviderOperationalProfileStatus::Scheduled {
            return Ok(CancelProviderOperationalProfilePersistenceOutcome::InvalidState);
        }
        idempotency::insert_idempotency_record(s, &context.record)?;
        cancel_locked_profile(s, profile, None, context, Bind::Text(reason.clone()))?;
        let cancelled = fetch_profile(s, profile_id)?;
        let snapshot = script::consult_text(
            s,
            Rule::OperationalProfileSnapshot(cancelled.clone()),
        )?;
        idempotency::complete_idempotency_record(
            s,
            &context.operation_type,
            &context.idempotency_key,
            "provider_operational_profile",
            profile_id,
            Snapshot::Text(snapshot),
        )?;
        Ok(CancelProviderOperationalProfilePersistenceOutcome::Applied(Box::new(cancelled)))
    }
}

/// The operational profile of a provider that is in force, after a due one was activated.
pub open spec fn get_current_provider_operational_profile_spec(
    st: RunView,
    provider_id: Uuid,
) -> (Result<Option<ProviderOperationalProfileRecord>, HaltView>, RunView) {
    match lock_provider_spec(st, provider_id) { (Err(h), st) => (Err(h), st), (Ok(locked), st) =>
    if locked is None {
        (Ok(None), st)
    } else {
    match promote_due_for_provider_spec(
        st,
        provider_id,
    ) { (Err(h), st) => (Err(h), st), (Ok(_), st) =>
    fetch_by_status_spec(st, provider_id, ProviderOperationalProfileStatus::Active)
    }}}
}

impl OracleRepository {
    /// The operational profile of a provider that is in force, after a due one was activated.
    pub fn get_current_provider_operational_profile(
        s: &mut Session,
        provider_id: Uuid,
    ) -> (r: Result<Option<ProviderOperationalProfileRecord>, Halt>)
        ensures
            (script::seen(r), final(s)@) == get_current_provider_operational_profile_spec(
                old(s)@,
                provider_id,
            ),
    {
        let locked = lock_provider(s, provider_id)?;
        if locked.is_none() {
            return Ok(None);
        }
        promote_due_for_provider(s, provider_id)?;
        fetch_by_status(s, provider_id, ProviderOperationalProfileStatus::Active)
    }
}

/// The operational profiles that rows hold, in order.
pub open spec fn map_rows_spec(
    st: RunView,
    rows: Seq<Row>,
    i: nat,
    done: Seq<ProviderOperationalProfileRecord>,
) -> (Result<Seq<ProviderOperationalProfileRecord>, HaltView>, RunView)
    decreases rows.len() - i,
{
    if i >= rows.len() {
        (Ok(done), st)
    } else {
        match map_row_spec(st, rows[i as int]) {
            (Err(h), st) => (Err(h), st), (Ok(item), st) => map_rows_spec(
                st,
                rows,
                i + 1,
                done.push(item),
            )
        }
    }
}

/// The operational profiles that rows hold, in order.
pub fn map_rows(
    s: &mut Session,
    rows: &Vec<Row>,
) -> (r: Result<Vec<ProviderOperationalProfileRecord>, Halt>)
    ensures
        (script::seen_view(r), final(s)@) == map_rows_spec(old(s)@, rows@, 0, Seq::empty()),
{
    let mut done: Vec<ProviderOperationalProfileRecord> = Vec::new();
    let mut i: usize = 0;
    assert(done@ =~= Seq::empty());
    while i < rows.len()
        invariant
            i <= rows@.len(),
            map_rows_spec(old(s)@, rows@, 0, Seq::empty()) == map_rows_spec(
                s@,
                rows@,
                i as nat,
                done@,
            ),
        decreases rows@.len() - i,
    {
        let item = map_row(s, &rows[i])?;
        done.push(item);
        i = i + 1;
    }
    Ok(done)
}

/// Each is taken in its turn, after those before it, and the first that fails ends the run.
pub proof fn map_rows_go_in_turn(
    st: RunView,
    rows: Seq<Row>,
    i: nat,
    done: Seq<ProviderOperationalProfileRecord>,
)
    ensures
        ({
            let whole = map_rows_spec(st, rows, i, done);
            let (next, at) = map_row_spec(st, rows[i as int]);
            &&& i >= rows.len() ==> whole == (Ok::<_, HaltView>(done), st)
            &&& i < rows.len() ==> match next {
                Ok(item) => whole == map_rows_spec(at, rows, i + 1, done.push(item)),
                Err(halt) => whole.0 == Err::<Seq<ProviderOperationalProfileRecord>, _>(halt)
                    && whole.1 == at,
            }
        }),
{
}

/// The operational profiles of a provider below a version, newest first, after a due one was
/// activated.
pub open spec fn list_provider_operational_profiles_spec(
    st: RunView,
    provider_id: Uuid,
    before_version: Option<i64>,
    limit: u16,
) -> (Result<Option<Seq<ProviderOperationalProfileRecord>>, HaltView>, RunView) {
    match lock_provider_spec(st, provider_id) { (Err(h), st) => (Err(h), st), (Ok(locked), st) =>
    if locked is None {
        (Ok(None), st)
    } else {
    match promote_due_for_provider_spec(
        st,
        provider_id,
    ) { (Err(h), st) => (Err(h), st), (Ok(_), st) =>
    match script::rows_spec(
        st,
        profile_list_sql_text(),
        seq![
            Bind::Id(provider_id),
            Bind::OptInt(before_version),
            Bind::OptInt(before_version),
            Bind::Int(limit as i64),
        ],
        PROFILE_COLUMNS,
        QUERY@,
    ) { (Err(h), st) => (Err(h), st), (Ok(found), st) =>
    match map_rows_spec(
        st,
        found.rows@,
        0,
        Seq::empty(),
    ) { (Err(h), st) => (Err(h), st), (Ok(items), st) =>
    if let Some(cause) = found.failure {
        (script::failed(QUERY@, cause@), st)
    } else {
    (Ok(Some(items)), st)
    }}}}}}
}

impl OracleRepository {
    /// The operational profiles of a provider below a version, newest first, after a due one was
    /// activated.
    pub fn list_provider_operational_profiles(
        s: &mut Session,
        provider_id: Uuid,
        before_version: Option<i64>,
        limit: u16,
    ) -> (r: Result<Option<Vec<ProviderOperationalProfileRecord>>, Halt>)
        ensures
            (script::seen_opt_view(r), final(s)@) == list_provider_operational_profiles_spec(
                old(s)@,
                provider_id,
                before_version,
                limit,
            ),
    {
        let locked = lock_provider(s, provider_id)?;
        if locked.is_none() {
            return Ok(None);
        }
        promote_due_for_provider(s, provider_id)?;
        let found = script::rows(
            s,
            profile_list_sql().as_str(),
            binds::binds4(
                Bind::Id(provider_id),
                Bind::OptInt(before_version),
                Bind::OptInt(before_version),
                Bind::Int(limit as i64),
            ),
            PROFILE_COLUMNS,
            QUERY,
        )?;
        let items = map_rows(s, &found.rows)?;
        if let Some(cause) = &found.failure {
            return Err(script::fail_because(QUERY, cause.as_str()));
        }
        Ok(Some(items))
    }
}

/// The provider that a row names.
pub open spec fn map_provider_id_spec(row: Row) -> Result<Uuid, HaltView> {
    match row.raw_at(0, READ_ROW@) { Err(h) => Err(h), Ok(provider_raw) =>
    script::id_of(provider_raw@)
    }
}

/// The provider that a row names.
pub fn map_provider_id(row: &Row) -> (r: Result<Uuid, Halt>)
    ensures
        script::seen(r) == map_provider_id_spec(*row),
{
    let provider_raw = row.raw(0, READ_ROW)?;
    script::to_id(provider_raw)
}

/// The providers that rows name, in order.
pub open spec fn map_provider_ids_spec(
    rows: Seq<Row>,
    i: nat,
    done: Seq<Uuid>,
) -> Result<Seq<Uuid>, HaltView>
    decreases rows.len() - i,
{
    if i >= rows.len() {
        Ok(done)
    } else {
        match map_provider_id_spec(rows[i as int]) {
            Err(h) => Err(h), Ok(item) => map_provider_ids_spec(rows, i + 1, done.push(item))
        }
    }
}

/// The providers that rows name, in order.
pub fn map_provider_ids(rows: &Vec<Row>) -> (r: Result<Vec<Uuid>, Halt>)
    ensures
        script::seen_view(r) == map_provider_ids_spec(rows@, 0, Seq::empty()),
{
    let mut done: Vec<Uuid> = Vec::new();
    let mut i: usize = 0;
    assert(done@ =~= Seq::empty());
    while i < rows.len()
        invariant
            i <= rows@.len(),
            map_provider_ids_spec(rows@, 0, Seq::empty()) == map_provider_ids_spec(
                rows@,
                i as nat,
                done@,
            ),
        decreases rows@.len() - i,
    {
        let item = map_provider_id(&rows[i])?;
        done.push(item);
        i = i + 1;
    }
    Ok(done)
}

/// Each is that of its own row, and they come in the order of the rows.
pub proof fn map_provider_ids_go_in_turn(rows: Seq<Row>, i: nat, done: Seq<Uuid>)
    requires
        i <= rows.len(),
    ensures
        map_provider_ids_spec(rows, i, done) matches Ok(all) ==> {
            &&& all.len() == done.len() + (rows.len() - i)
            &&& all.take(done.len() as int) == done
            &&& forall|k: int| i <= k < rows.len() ==> (#[trigger] rows[k], map_provider_id_spec(rows[k])) == (
                rows[k],
                Ok::<Uuid, HaltView>(all[done.len() + k - i]),
            )
        },
    decreases rows.len() - i,
{
    if i < rows.len() {
        if let Ok(item) = map_provider_id_spec(rows[i as int]) {
            map_provider_ids_go_in_turn(rows, i + 1, done.push(item));
            if let Ok(all) = map_provider_ids_spec(rows, i, done) {
                assert(
                    all.take(done.len() as int) =~= all.take(
                        done.len() as int + 1,
                    ).take(done.len() as int)
                );
                assert(done.push(item).take(done.len() as int) =~= done);
                assert(
                    all[done.len() as int] == all.take(done.len() as int + 1)[done.len() as int]
                );
            }
        }
    } else {
        assert(done.take(done.len() as int) =~= done);
    }
}

/// Activates the due profiles of locked providers in turn, and counts those that were activated.
pub open spec fn promote_each_spec(st: RunView, providers: Seq<Uuid>, i: nat, promoted: u64) -> (
    Result<u64, HaltView>,
    RunView,
)
    decreases providers.len() - i,
{
    if i >= providers.len() {
        (Ok(promoted), st)
    } else {
        match promote_due_for_provider_spec(st, providers[i as int]) {
            (Err(h), st) => (Err(h), st),
            (Ok(active), st) => promote_each_spec(
                st,
                providers,
                i + 1,
                if active is Some {
                    (promoted + 1) as u64
                } else {
                    promoted
                },
            ),
        }
    }
}

/// Activates the due profiles of locked providers in turn, and counts those that were activated.
pub fn promote_each(s: &mut Session, providers: &Vec<Uuid>) -> (r: Result<u64, Halt>)
    ensures
        (script::seen(r), final(s)@) == promote_each_spec(old(s)@, providers@, 0, 0),
{
    let mut promoted: u64 = 0;
    let mut i: usize = 0;
    while i < providers.len()
        invariant
            i <= providers@.len(),
            promoted <= i,
            promote_each_spec(old(s)@, providers@, 0, 0) == promote_each_spec(
                s@,
                providers@,
                i as nat,
                promoted,
            ),
        decreases providers@.len() - i,
    {
        let active = promote_due_for_provider(s, providers[i])?;
        if active.is_some() {
            promoted = promoted + 1;
        }
        i = i + 1;
    }
    Ok(promoted)
}

/// Activates scheduled profiles whose time has come, and counts them.
pub open spec fn promote_due_provider_operational_profiles_spec(
    st: RunView,
    batch_size: u16,
) -> (Result<u64, HaltView>, RunView) {
    match script::rows_spec(
        st,
        DUE_PROVIDERS_SQL@,
        seq![Bind::Int(batch_size as i64)],
        "r",
        QUERY@,
    ) { (Err(h), st) => (Err(h), st), (Ok(found), st) =>
    match map_provider_ids_spec(
        found.rows@,
        0,
        Seq::empty(),
    ) { Err(h) => (Err(h), st), Ok(providers) =>
    if let Some(cause) = found.failure {
        (script::failed(QUERY@, cause@), st)
    } else {
    promote_each_spec(st, providers, 0, 0)
    }}}
}

impl OracleRepository {
    /// Activates scheduled profiles whose time has come, and counts them.
    pub fn promote_due_provider_operational_profiles(
        s: &mut Session,
        batch_size: u16,
    ) -> (r: Result<u64, Halt>)
        ensures
            (script::seen(r), final(s)@) == promote_due_provider_operational_profiles_spec(
                old(s)@,
                batch_size,
            ),
    {
        let found = script::rows(
            s,
            DUE_PROVIDERS_SQL,
            binds::binds1(Bind::Int(batch_size as i64)),
            "r",
            QUERY,
        )?;
        let providers = map_provider_ids(&found.rows)?;
        if let Some(cause) = &found.failure {
            return Err(script::fail_because(QUERY, cause.as_str()));
        }
        promote_each(s, &providers)
    }
}

/// Under one idempotency key an operational profile is asked for once: where a record is stored,
/// the command is answered from it, and looking it up is all that is done.
pub proof fn profile_command_is_done_once(
    st: RunView,
    context: MutationCommandContext,
    provider_id: Uuid,
    desired: DesiredProviderOperationalProfile,
    record: IdempotencyRecord,
)
    requires
        idempotency::fetch_idempotency_record_spec(
            st,
            context.operation_type,
            context.idempotency_key,
        ).0 == Ok::<Option<IdempotencyRecord>, HaltView>(Some(record)),
    ensures
        set_provider_operational_profile_atomic_spec(st, context, provider_id, desired) == (
            Ok::<_, HaltView>(
                set_verdict(idempotency::idempotency_verdict(record, context.request_hash)),
            ),
            idempotency::fetch_idempotency_record_spec(
                st,
                context.operation_type,
                context.idempotency_key,
            ).1,
        ),
        script::writes(
            set_provider_operational_profile_atomic_spec(st, context, provider_id, desired).1.log,
        ) == script::writes(st.log),
{
    broadcast use script::writes_with_another;

}

/// Under one idempotency key the cancellation of an operational profile is asked for once: where a
/// record is stored, the command is answered from it, and looking it up is all that is done.
pub proof fn cancellation_is_done_once(
    st: RunView,
    context: MutationCommandContext,
    provider_id: Uuid,
    profile_id: Uuid,
    reason: String,
    record: IdempotencyRecord,
)
    requires
        idempotency::fetch_idempotency_record_spec(
            st,
            context.operation_type,
            context.idempotency_key,
        ).0 == Ok::<Option<IdempotencyRecord>, HaltView>(Some(record)),
    ensures
        cancel_provider_operational_profile_atomic_spec(
            st,
            context,
            provider_id,
            profile_id,
            reason,
        ) == (
            Ok::<_, HaltView>(
                cancel_verdict(idempotency::idempotency_verdict(record, context.request_hash)),
            ),
            idempotency::fetch_idempotency_record_spec(
                st,
                context.operation_type,
                context.idempotency_key,
            ).1,
        ),
        script::writes(
            cancel_provider_operational_profile_atomic_spec(
                st,
                context,
                provider_id,
                profile_id,
                reason,
            ).1.log,
        ) == script::writes(st.log),
{
    broadcast use script::writes_with_another;

}

/// What is carried out of an operational profile stores audit evidence and completes the command's
/// record last.
#[verifier::rlimit(60)]
pub broadcast proof fn set_profile_leaves_evidence(
    st: RunView,
    context: MutationCommandContext,
    provider_id: Uuid,
    desired: DesiredProviderOperationalProfile,
)
    ensures
        (#[trigger] set_profile_spec(st, context, provider_id, desired)).0 matches Ok(outcome) ==> {
            let log = set_profile_spec(st, context, provider_id, desired).1.log;
            &&& outcome is Applied
            &&& script::runs(log, audit::AUDIT_INSERT_SQL@) > 0
            &&& script::is_run_of(log.last(), idempotency::IDEMPOTENCY_COMPLETE_SQL@)
        },
{
    broadcast use script::runs_with_another;

    reveal(set_profile_spec);
}

/// Where an operational profile is refused, or answered from a record, nothing is changed.
#[verifier::rlimit(40)]
pub proof fn refused_profile_command_changes_nothing(
    st: RunView,
    context: MutationCommandContext,
    provider_id: Uuid,
    desired: DesiredProviderOperationalProfile,
)
    ensures
        ({
            let (result, after) = set_provider_operational_profile_atomic_spec(
                st,
                context,
                provider_id,
                desired,
            );
            result matches Ok(outcome) ==> outcome is Applied || script::writes(after.log)
                == script::writes(st.log)
        }),
{
    broadcast use {
        script::writes_with_another,
        map_row_changes_nothing,
        set_profile_leaves_evidence,
    };

}

/// Where an operational profile is carried out in a run of its own, audit evidence is stored within
/// it, and the command's record is completed last.
#[verifier::rlimit(40)]
pub proof fn profile_command_leaves_evidence(
    st: RunView,
    context: MutationCommandContext,
    provider_id: Uuid,
    desired: DesiredProviderOperationalProfile,
)
    requires
        st.log.len() == 0,
    ensures
        ({
            let (result, after) = set_provider_operational_profile_atomic_spec(
                st,
                context,
                provider_id,
                desired,
            );
            result matches Ok(outcome) ==> outcome is Applied ==> script::runs(
                after.log,
                audit::AUDIT_INSERT_SQL@,
            ) > 0 && script::is_run_of(after.log.last(), idempotency::IDEMPOTENCY_COMPLETE_SQL@)
        }),
{
    broadcast use set_profile_leaves_evidence;

}

/// Where the cancellation of an operational profile is carried out in a run of its own, audit
/// evidence is stored within it, and the command's record is completed last.
#[verifier::rlimit(40)]
pub proof fn cancellation_leaves_evidence(
    st: RunView,
    context: MutationCommandContext,
    provider_id: Uuid,
    profile_id: Uuid,
    reason: String,
)
    requires
        st.log.len() == 0,
    ensures
        ({
            let (result, after) = cancel_provider_operational_profile_atomic_spec(
                st,
                context,
                provider_id,
                profile_id,
                reason,
            );
            result matches Ok(outcome) ==> outcome is Applied ==> script::runs(
                after.log,
                audit::AUDIT_INSERT_SQL@,
            ) > 0 && script::is_run_of(after.log.last(), idempotency::IDEMPOTENCY_COMPLETE_SQL@)
        }),
{
    broadcast use {script::runs_with_another, map_row_changes_nothing};

}

/// A command that is recorded is answered by its record: under another request it conflicts; under
/// the same one it gets the answer that is stored, or is told that it is under way, or that the
/// record is not in order.
pub proof fn set_verdict_goes_by_the_record(
    record: crate::domain::idempotency::IdempotencyRecord,
    request_hash: String,
)
    ensures
        ({
            let answered = set_verdict(idempotency::idempotency_verdict(record, request_hash));
            let same = record.request_hash@ == request_hash@;
            &&& answered is IdempotencyConflict <==> !same
            &&& answered is IdempotencyInProgress <==> same && record.status is InProgress
            &&& answered matches SetProviderOperationalProfilePersistenceOutcome::Replayed(
                answer,
            ) ==> record.response_snapshot == Some(answer)
            &&& answered is Replayed <==> same && record.status is Completed
                && record.response_snapshot is Some
            &&& answered is IdempotencyInvalidState <==> same && !(record.status is InProgress)
                && !(
            record.status is Completed && record.response_snapshot is Some)
        }),
{
}

/// A command that is recorded is answered by its record: under another request it conflicts; under
/// the same one it gets the answer that is stored, or is told that it is under way, or that the
/// record is not in order.
pub proof fn cancel_verdict_goes_by_the_record(
    record: crate::domain::idempotency::IdempotencyRecord,
    request_hash: String,
)
    ensures
        ({
            let answered = cancel_verdict(idempotency::idempotency_verdict(record, request_hash));
            let same = record.request_hash@ == request_hash@;
            &&& answered is IdempotencyConflict <==> !same
            &&& answered is IdempotencyInProgress <==> same && record.status is InProgress
            &&& answered matches CancelProviderOperationalProfilePersistenceOutcome::Replayed(
                answer,
            ) ==> record.response_snapshot == Some(answer)
            &&& answered is Replayed <==> same && record.status is Completed
                && record.response_snapshot is Some
            &&& answered is IdempotencyInvalidState <==> same && !(record.status is InProgress)
                && !(
            record.status is Completed && record.response_snapshot is Some)
        }),
{
}

/// Where the cancellation of an operational profile is refused, or answered from a record, and no
/// profile of the provider is due meanwhile, nothing is changed.
pub proof fn refused_cancellation_changes_nothing(
    st: RunView,
    context: MutationCommandContext,
    provider_id: Uuid,
    profile_id: Uuid,
    reason: String,
)
    requires
        ({
            let looked = idempotency::fetch_idempotency_record_spec(
                st,
                context.operation_type,
                context.idempotency_key,
            ).1;
            let locked = lock_provider_spec(looked, provider_id).1;
            fetch_due_scheduled_spec(locked, provider_id).0 matches Ok(None)
        }),
    ensures
        ({
            let (result, after) = cancel_provider_operational_profile_atomic_spec(
                st,
                context,
                provider_id,
                profile_id,
                reason,
            );
            result matches Ok(outcome) ==> outcome is Applied || script::writes(after.log)
                == script::writes(st.log)
        }),
{
    broadcast use {script::writes_with_another, map_row_changes_nothing};

}

/// A profile that is due comes into force at once, and one that is not is scheduled: it is stored
/// as active or as scheduled, and the answer says which.
pub proof fn due_profile_comes_into_force(due: i64)
    ensures
        due == 1 ==> disposition_of(due) is Activated && initial_status(disposition_of(due))@
            == "ACTIVE"@,
        due != 1 ==> disposition_of(due) is Scheduled && initial_status(disposition_of(due))@
            == "SCHEDULED"@,
{
}

/// A command for a profile without a record is refused where the provider is missing or inactive.
/// Each has its own answer.
pub proof fn profile_is_refused_for_one_reason(
    st: RunView,
    context: MutationCommandContext,
    provider_id: Uuid,
    desired: DesiredProviderOperationalProfile,
    status: Option<ProviderStatus>,
)
    requires
        ({
            let (looked, at) = idempotency::fetch_idempotency_record_spec(
                st,
                context.operation_type,
                context.idempotency_key,
            );
            &&& looked == Ok::<Option<IdempotencyRecord>, HaltView>(None)
            &&& lock_provider_spec(
                at,
                provider_id,
            ).0 == Ok::<Option<ProviderStatus>, HaltView>(status)
        }),
    ensures
        ({
            let result = set_provider_operational_profile_atomic_spec(
                st,
                context,
                provider_id,
                desired,
            ).0;
            &&& status is None <==> result == Ok::<_, HaltView>(
                SetProviderOperationalProfilePersistenceOutcome::ProviderNotFound,
            )
            &&& status == Some(ProviderStatus::Inactive) <==> result == Ok::<_, HaltView>(
                SetProviderOperationalProfilePersistenceOutcome::ProviderInactive,
            )
        }),
{
    broadcast use set_profile_leaves_evidence;

}

/// The status of a provider is read from the column of its own row.
pub proof fn locked_provider_is_read_from_its_column(st: RunView, provider_id: Uuid)
    ensures
        lock_provider_spec(st, provider_id).0 matches Ok(status) ==> {
            &&& st.rest[0] matches script::Reply::Rows(found)
            &&& status is None <==> found.rows@.len() == 0
            &&& status is Some ==> ProviderStatus::of_code(
                found.rows@[0].text_at(0, READ_ROW@)->Ok_0@,
            ) == status
            &&& lock_provider_spec(st, provider_id).1.log == st.log.push(
                script::sql_call(
                    script::Mode::Query,
                    LOCK_PROVIDER_SQL@,
                    seq![Bind::Id(provider_id)],
                    "t",
                ),
            )
        },
{
}

/// Only a profile that is scheduled, and that is the provider's, is cancelled. Each refusal has its
/// reason.
#[verifier::rlimit(80)]
pub proof fn scheduled_profile_is_cancelled(
    st: RunView,
    context: MutationCommandContext,
    provider_id: Uuid,
    profile_id: Uuid,
    reason: String,
)
    requires
        idempotency::fetch_idempotency_record_spec(
            st,
            context.operation_type,
            context.idempotency_key,
        ).0 == Ok::<Option<IdempotencyRecord>, HaltView>(None),
    ensures
        ({
            let result = cancel_provider_operational_profile_atomic_spec(
                st,
                context,
                provider_id,
                profile_id,
                reason,
            ).0;
            let looked = idempotency::fetch_idempotency_record_spec(
                st,
                context.operation_type,
                context.idempotency_key,
            ).1;
            let (locked, held) = lock_provider_spec(looked, provider_id);
            let (promoted, at) = promote_due_for_provider_spec(held, provider_id);
            let found = fetch_optional_profile_spec(at, profile_id).0;
            let there = (locked matches Ok(Some(_))) && promoted is Ok;
            &&& (locked matches Ok(None)) <==> result == Ok::<_, HaltView>(
                CancelProviderOperationalProfilePersistenceOutcome::ProviderNotFound,
            )
            &&& there && (found matches Ok(None)) <==> result == Ok::<_, HaltView>(
                CancelProviderOperationalProfilePersistenceOutcome::ProfileNotFound,
            )
            &&& there && (found matches Ok(Some(profile)) && !(profile.provider_id == provider_id
                && profile.status is Scheduled)) <==> result == Ok::<_, HaltView>(
                CancelProviderOperationalProfilePersistenceOutcome::InvalidState,
            )
        }),
{
}

/// The profile in force gives way to one that comes into force, and to no one that is only
/// scheduled.
pub proof fn scheduled_profile_supersedes_nothing(
    st: RunView,
    context: MutationCommandContext,
    provider_id: Uuid,
    disposition: OperationalProfileMutationDisposition,
)
    ensures
        disposition is Scheduled ==> supersede_if_due_spec(st, context, provider_id, disposition) == (
            Ok::<Option<Uuid>, HaltView>(None),
            st,
        ),
        disposition is Activated ==> supersede_if_due_spec(
            st,
            context,
            provider_id,
            disposition,
        ) == supersede_active_spec(
            st,
            provider_id,
            None,
            Bind::Text(context.audit.actor_subject),
            audit::trusted_origin_spec(context.audit),
        ),
{
}

/// The profile that is superseded is the active one of the provider, and the database is told what
/// replaces it.
#[verifier::rlimit(80)]
pub proof fn active_profile_is_superseded(
    st: RunView,
    provider_id: Uuid,
    replacement_id: Option<Uuid>,
    subject: Bind,
    origin: AuditOrigin,
)
    ensures
        ({
            let (result, after) = supersede_active_spec(
                st,
                provider_id,
                replacement_id,
                subject,
                origin,
            );
            let active = fetch_by_status_spec(
                st,
                provider_id,
                ProviderOperationalProfileStatus::Active,
            ).0;
            result matches Ok(superseded) ==> {
                &&& active matches Ok(None) ==> superseded is None
                &&& active matches Ok(Some(profile)) ==> superseded == Some(
                    profile.provider_operational_profile_id,
                ) && script::ran(
                    after.log,
                    SUPERSEDE_SQL@,
                    seq![
                        Bind::OptId(replacement_id),
                        subject,
                        Bind::Id(profile.provider_operational_profile_id),
                    ],
                )
            }
        }),
{
    broadcast use {script::runs_on_with_another, map_row_changes_nothing};

}

/// A scheduled profile that is due is told to be in force; a provider without one is left alone.
#[verifier::rlimit(80)]
pub proof fn due_profile_is_promoted(st: RunView, provider_id: Uuid)
    ensures
        ({
            let (result, after) = promote_due_for_provider_spec(st, provider_id);
            let due = fetch_due_scheduled_spec(st, provider_id).0;
            result matches Ok(promoted) ==> {
                &&& (due matches Ok(None)) <==> promoted is None
                &&& due matches Ok(Some(candidate)) ==> script::ran(
                    after.log,
                    PROMOTE_SQL@,
                    seq![Bind::Id(candidate.provider_operational_profile_id)],
                )
            }
        }),
{
    broadcast use {script::runs_on_with_another, map_row_changes_nothing};

}

/// Each profile that becomes active counts once.
pub proof fn each_promoted_profile_counts_once(
    st: RunView,
    providers: Seq<Uuid>,
    i: nat,
    promoted: u64,
)
    requires
        i < providers.len(),
        promoted < u64::MAX,
        promote_each_spec(st, providers, i, promoted).0 is Ok,
    ensures
        ({
            let (active, at) = promote_due_for_provider_spec(st, providers[i as int]);
            &&& active is Ok
            &&& active->Ok_0 is Some ==> promote_each_spec(st, providers, i, promoted)
                == promote_each_spec(at, providers, i + 1, (promoted + 1) as u64)
            &&& active->Ok_0 is None ==> promote_each_spec(st, providers, i, promoted)
                == promote_each_spec(at, providers, i + 1, promoted)
        }),
{
}

/// The profile in force and the list of profiles are those of a provider, and there are none
/// exactly where there is no provider.
pub proof fn profiles_are_those_of_a_stored_provider(
    st: RunView,
    provider_id: Uuid,
    before_version: Option<i64>,
    limit: u16,
)
    requires
        lock_provider_spec(st, provider_id).0 is Ok,
    ensures
        ({
            let (locked, at) = lock_provider_spec(st, provider_id);
            let (promoted, next) = promote_due_for_provider_spec(at, provider_id);
            let listed = list_provider_operational_profiles_spec(
                st,
                provider_id,
                before_version,
                limit,
            );
            let current = get_current_provider_operational_profile_spec(st, provider_id);
            &&& (listed.0 matches Ok(None)) <==> locked->Ok_0 is None
            &&& locked->Ok_0 is None ==> (current.0 matches Ok(None))
            &&& locked->Ok_0 is Some && promoted is Ok ==> current == fetch_by_status_spec(
                next,
                provider_id,
                ProviderOperationalProfileStatus::Active,
            )
        }),
{
}

/// Each value is read from its own column: the operational profile that a row holds.
#[verifier::rlimit(60)]
pub proof fn map_row_is_read_by_column(
    st: RunView,
    row: Row,
)
    ensures
        map_row_spec(st, row).0 matches Ok(read) ==> {
            &&& read.provider_operational_profile_id == row.id_at(0, READ_ROW@)->Ok_0
            &&& read.provider_id == row.id_at(1, READ_ROW@)->Ok_0
            &&& read.status == (
                ProviderOperationalProfileStatus::of_code(row.text_at(2, READ_ROW@)->Ok_0@)
            )->Some_0
            &&& read.version == row.int_at(3, READ_ROW@)->Ok_0
            &&& read.effective_at == script::time_of(
                row.text_at(4, READ_ROW@)->Ok_0@,
                "invalid Oracle UTC timestamp"@,
            )->Ok_0
            &&& read.controls == row.text_at(5, READ_ROW@)->Ok_0
            &&& read.superseded_by_profile_id == script::opt_id_of(
                row.opt_raw_at(6, READ_ROW@)->Ok_0,
            )->Ok_0
            &&& read.created_by_subject == row.text_at(7, READ_ROW@)->Ok_0
            &&& read.updated_by_subject == row.text_at(8, READ_ROW@)->Ok_0
            &&& read.change_reason == row.text_at(9, READ_ROW@)->Ok_0
            &&& read.activated_at == script::opt_time_of(
                row.opt_text_at(10, READ_ROW@)->Ok_0,
                "invalid Oracle UTC timestamp"@,
            )->Ok_0
            &&& read.superseded_at == script::opt_time_of(
                row.opt_text_at(11, READ_ROW@)->Ok_0,
                "invalid Oracle UTC timestamp"@,
            )->Ok_0
            &&& read.cancelled_at == script::opt_time_of(
                row.opt_text_at(12, READ_ROW@)->Ok_0,
                "invalid Oracle UTC timestamp"@,
            )->Ok_0
            &&& read.created_at == script::time_of(
                row.text_at(13, READ_ROW@)->Ok_0@,
                "invalid Oracle UTC timestamp"@,
            )->Ok_0
            &&& read.updated_at == script::time_of(
                row.text_at(14, READ_ROW@)->Ok_0@,
                "invalid Oracle UTC timestamp"@,
            )->Ok_0
        },
{
    reveal(map_row_spec);
}

/// What is asked first, and with which values, in a run that does this:
/// locks and reads the scheduled profile of a provider whose time has come, where there is one.
pub proof fn fetch_due_scheduled_asks_first(
    st: RunView,
    provider_id: Uuid,
)
    requires
        st.rest.len() == 0,
    ensures
        fetch_due_scheduled_spec(st, provider_id).0 matches Err(HaltView::Ask(asked))
            && (
                asked matches script::CallView::Sql { sql, binds, .. }
                    && sql == profile_due_sql_text() && binds == seq![Bind::Id(provider_id)]
            ),
{
}

/// What is asked first, and with which values, in a run that does this:
/// reads the profile of a provider that has a status, where there is one.
pub proof fn fetch_by_status_asks_first(
    st: RunView,
    provider_id: Uuid,
    status: ProviderOperationalProfileStatus,
)
    requires
        st.rest.len() == 0,
    ensures
        fetch_by_status_spec(st, provider_id, status).0 matches Err(HaltView::Ask(asked))
            && (
                asked matches script::CallView::Sql { sql, binds, .. }
                    && sql == profile_by_status_sql_text()
                    && binds == seq![Bind::Id(provider_id), Bind::Label(status.code())]
            ),
{
}

/// What is asked first, and with which values, in a run that does this:
/// reads a profile, where there is one.
pub proof fn fetch_optional_profile_asks_first(
    st: RunView,
    profile_id: Uuid,
)
    requires
        st.rest.len() == 0,
    ensures
        fetch_optional_profile_spec(st, profile_id).0 matches Err(HaltView::Ask(asked))
            && (
                asked matches script::CallView::Sql { sql, binds, .. } && sql == profile_sql_text()
                    && binds == seq![Bind::Id(profile_id)]
            ),
{
}

/// What is asked first, and with which values, in a run that does this:
/// locks a provider and reads its status, where there is one.
pub proof fn lock_provider_asks_first(
    st: RunView,
    provider_id: Uuid,
)
    requires
        st.rest.len() == 0,
    ensures
        lock_provider_spec(st, provider_id).0 matches Err(HaltView::Ask(asked))
            && (
                asked matches script::CallView::Sql { sql, binds, .. } && sql == LOCK_PROVIDER_SQL@
                    && binds == seq![Bind::Id(provider_id)]
            ),
{
}

/// What is asked first, and with which values, in a run that does this:
/// supersedes an active profile.
pub proof fn supersede_profile_asks_first(
    st: RunView,
    active: ProviderOperationalProfileRecord,
    replacement_id: Option<Uuid>,
    subject: Bind,
    origin: AuditOrigin,
)
    requires
        st.rest.len() == 0,
    ensures
        supersede_profile_spec(
            st,
            active,
            replacement_id,
            subject,
            origin,
        ).0 matches Err(HaltView::Ask(asked))
            && (
                asked matches script::CallView::Sql { sql, binds, .. } && sql == SUPERSEDE_SQL@
                    && binds == seq![
                        Bind::OptId(replacement_id),
                        subject,
                        Bind::Id(active.provider_operational_profile_id),
                    ]
            ),
{
}

/// What the database is told, and with which values, where a run succeeds that does this:
/// supersedes an active profile.
#[verifier::rlimit(60)]
pub proof fn supersede_profile_is_told(
    st: RunView,
    active: ProviderOperationalProfileRecord,
    replacement_id: Option<Uuid>,
    subject: Bind,
    origin: AuditOrigin,
)
    ensures
        ({
            let (ended, after) = supersede_profile_spec(
                st,
                active,
                replacement_id,
                subject,
                origin,
            );
            let log = after.log;
            ended is Ok ==> {
                &&& script::ran(
                    log,
                    SUPERSEDE_SQL@,
                    seq![
                        Bind::OptId(replacement_id),
                        subject,
                        Bind::Id(active.provider_operational_profile_id),
                    ],
                )
            }
        }),
{
    broadcast use {
        script::runs_on_with_another,
        script::told_where_with_another,
        map_row_changes_nothing,
    };

}

/// What is asked first, and with which values, in a run that does this:
/// names the profile that replaced another.
pub proof fn link_replacement_asks_first(
    st: RunView,
    previous_id: Uuid,
    replacement_id: Uuid,
)
    requires
        st.rest.len() == 0,
    ensures
        link_replacement_spec(st, previous_id, replacement_id).0 matches Err(HaltView::Ask(asked))
            && (
                asked matches script::CallView::Sql { sql, binds, .. } && sql == LINK_SQL@
                    && binds == seq![Bind::Id(replacement_id), Bind::Id(previous_id)]
            ),
{
}

/// What the database is told, and with which values, where a run succeeds that does this:
/// names the profile that replaced another.
#[verifier::rlimit(60)]
pub proof fn link_replacement_is_told(
    st: RunView,
    previous_id: Uuid,
    replacement_id: Uuid,
)
    ensures
        ({
            let (ended, after) = link_replacement_spec(st, previous_id, replacement_id);
            let log = after.log;
            ended is Ok ==> {
                &&& script::ran(
                    log,
                    LINK_SQL@,
                    seq![Bind::Id(replacement_id), Bind::Id(previous_id)],
                )
            }
        }),
{
    broadcast use {
        script::runs_on_with_another,
        script::told_where_with_another,
        map_row_changes_nothing,
    };

}

/// What is asked first, and with which values, in a run that does this:
/// cancels a scheduled profile.
pub proof fn cancel_locked_profile_asks_first(
    st: RunView,
    profile: ProviderOperationalProfileRecord,
    replacement_id: Option<Uuid>,
    context: MutationCommandContext,
    reason: Bind,
)
    requires
        st.rest.len() == 0,
    ensures
        cancel_locked_profile_spec(
            st,
            profile,
            replacement_id,
            context,
            reason,
        ).0 matches Err(HaltView::Ask(asked))
            && (
                asked matches script::CallView::Sql { sql, binds, .. } && sql == CANCEL_SQL@
                    && binds == seq![
                        Bind::OptId(replacement_id),
                        Bind::Text(context.actor.subject),
                        Bind::Id(profile.provider_operational_profile_id),
                    ]
            ),
{
}

/// What the database is told, and with which values, where a run succeeds that does this:
/// cancels a scheduled profile.
#[verifier::rlimit(60)]
pub proof fn cancel_locked_profile_is_told(
    st: RunView,
    profile: ProviderOperationalProfileRecord,
    replacement_id: Option<Uuid>,
    context: MutationCommandContext,
    reason: Bind,
)
    ensures
        ({
            let (ended, after) = cancel_locked_profile_spec(
                st,
                profile,
                replacement_id,
                context,
                reason,
            );
            let log = after.log;
            ended is Ok ==> {
                &&& script::ran(
                    log,
                    CANCEL_SQL@,
                    seq![
                        Bind::OptId(replacement_id),
                        Bind::Text(context.actor.subject),
                        Bind::Id(profile.provider_operational_profile_id),
                    ],
                )
            }
        }),
{
    broadcast use {
        script::runs_on_with_another,
        script::told_where_with_another,
        map_row_changes_nothing,
    };

}

/// What is asked first, and with which values, in a run that does this:
/// stores a profile.
pub proof fn insert_profile_asks_first(
    st: RunView,
    profile_id: Uuid,
    provider_id: Uuid,
    version: i64,
    desired: DesiredProviderOperationalProfile,
    disposition: OperationalProfileMutationDisposition,
    subject: String,
)
    requires
        st.rest.len() == 0,
    ensures
        insert_profile_spec(
            st,
            profile_id,
            provider_id,
            version,
            desired,
            disposition,
            subject,
        ).0 matches Err(HaltView::Ask(asked))
            && (
                asked matches script::CallView::Sql { sql, binds, .. } && sql == PROFILE_INSERT_SQL@
                    && binds == seq![
                        Bind::Id(profile_id),
                        Bind::Id(provider_id),
                        Bind::Label(initial_status(disposition)),
                        Bind::Int(version),
                        Bind::OffsetTime(desired.effective_at),
                        Bind::Text(desired.controls),
                        Bind::Text(subject),
                        Bind::Text(subject),
                        Bind::Text(desired.reason),
                        Bind::Flag(disposition == OperationalProfileMutationDisposition::Activated),
                    ]
            ),
{
}

/// What the database is told, and with which values, where a run succeeds that does this:
/// stores a profile.
#[verifier::rlimit(60)]
pub proof fn insert_profile_is_told(
    st: RunView,
    profile_id: Uuid,
    provider_id: Uuid,
    version: i64,
    desired: DesiredProviderOperationalProfile,
    disposition: OperationalProfileMutationDisposition,
    subject: String,
)
    ensures
        ({
            let (ended, after) = insert_profile_spec(
                st,
                profile_id,
                provider_id,
                version,
                desired,
                disposition,
                subject,
            );
            let log = after.log;
            ended is Ok ==> {
                &&& script::ran(
                    log,
                    PROFILE_INSERT_SQL@,
                    seq![
                        Bind::Id(profile_id),
                        Bind::Id(provider_id),
                        Bind::Label(initial_status(disposition)),
                        Bind::Int(version),
                        Bind::OffsetTime(desired.effective_at),
                        Bind::Text(desired.controls),
                        Bind::Text(subject),
                        Bind::Text(subject),
                        Bind::Text(desired.reason),
                        Bind::Flag(disposition == OperationalProfileMutationDisposition::Activated),
                    ],
                )
            }
        }),
{
    broadcast use {
        script::runs_on_with_another,
        script::told_where_with_another,
        map_row_changes_nothing,
    };

}

/// What is asked first, and with which values, in a run that does this:
/// activates scheduled profiles whose time has come, and counts them.
pub proof fn promote_due_provider_operational_profiles_asks_first(
    st: RunView,
    batch_size: u16,
)
    requires
        st.rest.len() == 0,
    ensures
        promote_due_provider_operational_profiles_spec(st, batch_size).0 matches Err(
            HaltView::Ask(asked),
        )
            && (
                asked matches script::CallView::Sql { sql, binds, .. } && sql == DUE_PROVIDERS_SQL@
                    && binds == seq![Bind::Int(batch_size as i64)]
            ),
{
}

} // verus!
