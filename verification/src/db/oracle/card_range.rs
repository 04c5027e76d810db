//! Card ranges: creation, reading and listing.
use vstd::prelude::*;
use crate::db::error::{DbError, DbErrorView};
use crate::db::oracle::audit;
use crate::db::oracle::binds;
use crate::db::oracle::consult::{CodeKind, Rule};
use crate::db::oracle::document::{Document, Snapshot};
use crate::db::oracle::idempotency;
use crate::db::oracle::idempotency::IdempotencyVerdict;
use crate::db::oracle::repository::OracleRepository;
use crate::db::oracle::script;
use crate::db::oracle::script::{Bind, Halt, HaltView, Row, RunView, Session};
use crate::domain::audit::AuditAction;
use crate::domain::card_range::{
    CardNumberRange, CardRange, CardRangeListCursor, CardRangeListPage, CardRangeListQuery,
    CardRangeProviderEligibility, CardRangeStatus, FundingMode, LimitCalendar, LimitWindowMode,
    NewCardRange, WeekStartDay, WithdrawalLimitAuthority, ZoneName,
};
use crate::domain::command::MutationCommandContext;
use crate::domain::idempotency::IdempotencyRecord;
use crate::domain::page;
use crate::domain::page::Page;
use crate::json;
use crate::text;
use crate::time::UtcTime;
use crate::uuid::Uuid;

verus! {

/// Takes the lock that serializes changes to the structure of ranges.
pub const CARD_RANGE_LOCK_SQL: &'static str = "SELECT lock_name FROM card_range_allocation_locks WHERE lock_name = :1 FOR UPDATE";

/// Stores a card range.
pub const CARD_RANGE_INSERT_SQL: &'static str = r#"
    INSERT INTO card_ranges (
        card_range_id,
        start_card_number,
        end_card_number,
        funding_mode,
        withdrawal_limit_authority,
        limit_calendar_json,
        status,
        issuance_enabled,
        cms_operation_mode,
        operational_version,
        metadata_json,
        created_by_subject,
        updated_by_subject
    )
    VALUES (:1, :2, :3, :4, :5, :6, :7, :8, :9, :10, :11, :12, :13)
    "#;

/// Counts the ranges that share a card number with a new one.
pub const CARD_RANGE_OVERLAP_SQL: &'static str = r#"
    SELECT COUNT(*)
    FROM card_ranges
    WHERE start_card_number <= :1
      AND end_card_number >= :2
    "#;

/// Reads a card range.
pub const CARD_RANGE_SELECT_SQL: &'static str = r#"
    SELECT
        card_range_id,
        start_card_number,
        end_card_number,
        funding_mode,
        withdrawal_limit_authority,
        JSON_SERIALIZE(limit_calendar_json RETURNING CLOB) AS limit_calendar_json,
        status,
        issuance_enabled,
        cms_operation_mode,
        operational_version,
        materialized_operational_version,
        range_control_operation_id,
        JSON_SERIALIZE(metadata_json RETURNING CLOB) AS metadata_json,
        created_by_subject,
        updated_by_subject,
        TO_CHAR(SYS_EXTRACT_UTC(created_at), 'YYYY-MM-DD"T"HH24:MI:SS.FF3"Z"') AS created_at,
        TO_CHAR(SYS_EXTRACT_UTC(updated_at), 'YYYY-MM-DD"T"HH24:MI:SS.FF3"Z"') AS updated_at
    FROM card_ranges
    WHERE card_range_id = :1
    "#;

/// Lists card ranges, oldest first, after a cursor.
pub const CARD_RANGE_LIST_SQL: &'static str = r#"
    SELECT
        card_range_id,
        start_card_number,
        end_card_number,
        funding_mode,
        withdrawal_limit_authority,
        JSON_SERIALIZE(limit_calendar_json RETURNING CLOB) AS limit_calendar_json,
        status,
        issuance_enabled,
        cms_operation_mode,
        operational_version,
        materialized_operational_version,
        range_control_operation_id,
        JSON_SERIALIZE(metadata_json RETURNING CLOB) AS metadata_json,
        created_by_subject,
        updated_by_subject,
        TO_CHAR(SYS_EXTRACT_UTC(created_at), 'YYYY-MM-DD"T"HH24:MI:SS.FF3"Z"') AS created_at,
        TO_CHAR(SYS_EXTRACT_UTC(updated_at), 'YYYY-MM-DD"T"HH24:MI:SS.FF3"Z"') AS updated_at
    FROM card_ranges
    WHERE (:status IS NULL OR status = :status)
      AND (:funding_mode IS NULL OR funding_mode = :funding_mode)
      AND (:authority IS NULL OR withdrawal_limit_authority = :authority)
      AND (
          :cursor_created_at IS NULL
          OR SYS_EXTRACT_UTC(created_at) > TO_TIMESTAMP(:cursor_created_at, 'YYYY-MM-DD"T"HH24:MI:SS.FF3"Z"')
          OR (
              SYS_EXTRACT_UTC(created_at) = TO_TIMESTAMP(:cursor_created_at, 'YYYY-MM-DD"T"HH24:MI:SS.FF3"Z"')
              AND card_range_id > :cursor_id
          )
      )
    ORDER BY created_at ASC, card_range_id ASC
    FETCH NEXT :fetch_limit ROWS ONLY
    "#;

/// Lists the providers of a card range.
pub const CARD_RANGE_PROVIDERS_SQL: &'static str = "SELECT provider_id,status FROM card_range_providers WHERE card_range_id=:1 ORDER BY created_at,provider_id";

/// The statement that takes the structural lock.
pub fn card_range_lock_sql() -> (r: &'static str)
    ensures
        r == CARD_RANGE_LOCK_SQL,
{
    CARD_RANGE_LOCK_SQL
}

/// The statement that stores a card range.
pub fn card_range_insert_sql() -> (r: &'static str)
    ensures
        r == CARD_RANGE_INSERT_SQL,
{
    CARD_RANGE_INSERT_SQL
}

/// The statement that counts overlapping ranges.
pub fn card_range_overlap_sql() -> (r: &'static str)
    ensures
        r == CARD_RANGE_OVERLAP_SQL,
{
    CARD_RANGE_OVERLAP_SQL
}

/// The statement that reads a card range.
pub fn card_range_select_sql() -> (r: &'static str)
    ensures
        r == CARD_RANGE_SELECT_SQL,
{
    CARD_RANGE_SELECT_SQL
}

/// The statement that lists card ranges.
pub fn card_range_list_sql() -> (r: &'static str)
    ensures
        r == CARD_RANGE_LIST_SQL,
{
    CARD_RANGE_LIST_SQL
}

/// What a value that cannot be read is reported as.
pub const READ: &'static str = "failed to read Oracle card range row";

/// The columns of a card range.
pub const CARD_RANGE_COLUMNS: &'static str = "rttttTtntiiRttttt";

/// The bind names of the listing, in order.
pub const CARD_RANGE_LIST_BINDS: &'static str = "status,funding_mode,authority,cursor_created_at,cursor_id,fetch_limit";

/// What became of a card range that was to be created. A replayed answer is a JSON document.
#[derive(Debug)]
pub enum CreateCardRangePersistenceOutcome {
    Created(Box<CardRange>),
    Replayed(String),
    IdempotencyConflict,
    IdempotencyInProgress,
    IdempotencyInvalidState,
    Overlap,
}

/// What a stored record means for a creation.
pub open spec fn creation_verdict(
    verdict: IdempotencyVerdict,
) -> CreateCardRangePersistenceOutcome {
    match verdict {
        IdempotencyVerdict::Conflict => CreateCardRangePersistenceOutcome::IdempotencyConflict,
        IdempotencyVerdict::Replay(snapshot) => {
            CreateCardRangePersistenceOutcome::Replayed(snapshot)
        },
        IdempotencyVerdict::InProgress => CreateCardRangePersistenceOutcome::IdempotencyInProgress,
        IdempotencyVerdict::InvalidState => {
            CreateCardRangePersistenceOutcome::IdempotencyInvalidState
        },
    }
}

/// What a stored record means for a creation with this request hash.
pub fn classify_idempotency(
    existing: &IdempotencyRecord,
    request_hash: &String,
) -> (r: CreateCardRangePersistenceOutcome)
    ensures
        r == creation_verdict(idempotency::idempotency_verdict(*existing, *request_hash)),
{
    match idempotency::judge_idempotency(existing, request_hash) {
        IdempotencyVerdict::Conflict => CreateCardRangePersistenceOutcome::IdempotencyConflict,
        IdempotencyVerdict::Replay(snapshot) => {
            CreateCardRangePersistenceOutcome::Replayed(snapshot)
        },
        IdempotencyVerdict::InProgress => CreateCardRangePersistenceOutcome::IdempotencyInProgress,
        IdempotencyVerdict::InvalidState => {
            CreateCardRangePersistenceOutcome::IdempotencyInvalidState
        },
    }
}

/// The name of a week's first day in JSON documents.
pub open spec fn week_start_name(value: WeekStartDay) -> &'static str {
    match value {
        WeekStartDay::Saturday => "Saturday",
        WeekStartDay::Sunday => "Sunday",
        WeekStartDay::Monday => "Monday",
    }
}

/// The name of a week's first day in JSON documents.
pub fn week_start_to_json(value: WeekStartDay) -> (r: &'static str)
    ensures
        r == week_start_name(value),
{
    match value {
        WeekStartDay::Saturday => "Saturday",
        WeekStartDay::Sunday => "Sunday",
        WeekStartDay::Monday => "Monday",
    }
}

/// The name of a window mode in JSON documents.
pub fn limit_window_mode_to_json(value: LimitWindowMode) -> (r: &'static str)
    ensures
        r == "Calendar",
{
    match value {
        LimitWindowMode::Calendar => "Calendar",
    }
}

/// The day that a name in a JSON document stands for.
pub open spec fn week_start_of(name: Seq<char>) -> Option<WeekStartDay> {
    if name == "Saturday"@ {
        Some(WeekStartDay::Saturday)
    } else if name == "Sunday"@ {
        Some(WeekStartDay::Sunday)
    } else if name == "Monday"@ {
        Some(WeekStartDay::Monday)
    } else {
        None
    }
}

fn week_start_from(name: &str) -> (r: Option<WeekStartDay>)
    ensures
        r == week_start_of(name@),
{
    if text::same_text(name, "Saturday") {
        Some(WeekStartDay::Saturday)
    } else if text::same_text(name, "Sunday") {
        Some(WeekStartDay::Sunday)
    } else if text::same_text(name, "Monday") {
        Some(WeekStartDay::Monday)
    } else {
        None
    }
}

/// Reading the name of a week's first day gives the day back.
pub proof fn week_start_round_trip(value: WeekStartDay)
    ensures
        week_start_of(week_start_name(value)@) == Some(value),
{
    reveal_strlit("Saturday");
    reveal_strlit("Sunday");
    reveal_strlit("Monday");
    assert("Saturday"@.len() == 8);
    assert("Sunday"@[0] != "Monday"@[0]);
}

/// The calendar that a JSON document describes.
pub open spec fn calendar_of(document: String) -> Result<LimitCalendar, HaltView> {
    if json::json_reading_fault(document@) is Some {
        script::failed(
            "invalid limit calendar JSON"@,
            json::json_reading_fault(document@)->Some_0,
        )
    } else if json::json_text_member(document@, "timezone"@) is None {
        script::query_fault("limit calendar timezone is missing"@)
    } else {
        match json::json_text_member(document@, "week_starts_on"@) {
            None => script::query_fault("limit calendar week start is missing"@),
            Some(day) => match week_start_of(day) {
                None => script::query_fault("unknown week start day `"@ + day + "`"@),
                Some(week_starts_on) => match json::json_text_member(document@, "window_mode"@) {
                    None => script::query_fault("limit calendar window mode is missing"@),
                    Some(mode) => if mode == "Calendar"@ {
                        Ok(
                            LimitCalendar {
                                timezone: ZoneName::of_document(document),
                                week_starts_on,
                                window_mode: LimitWindowMode::Calendar,
                            },
                        )
                    } else {
                        script::query_fault("unknown limit window mode `"@ + mode + "`"@)
                    },
                },
            },
        }
    }
}

/// The calendar that a JSON document describes.
pub fn limit_calendar_from_json(document: &String) -> (r: Result<LimitCalendar, Halt>)
    ensures
        script::seen(r) == calendar_of(*document),
{
    match json::reading_fault(document.as_str()) {
        Some(e) => {
            return Err(script::fail_because("invalid limit calendar JSON", e.as_str()));
        },
        None => {},
    }
    let timezone = match ZoneName::stored(document) {
        Some(zone) => zone,
        None => {
            return Err(script::fail_query("limit calendar timezone is missing"));
        },
    };
    let day = match json::text_member(document.as_str(), "week_starts_on") {
        Some(day) => day,
        None => {
            return Err(script::fail_query("limit calendar week start is missing"));
        },
    };
    let week_starts_on = match week_start_from(day.as_str()) {
        Some(value) => value,
        None => {
            let message = text::joined3("unknown week start day `", day.as_str(), "`");
            return Err(script::fail_query(message.as_str()));
        },
    };
    let mode = match json::text_member(document.as_str(), "window_mode") {
        Some(mode) => mode,
        None => {
            return Err(script::fail_query("limit calendar window mode is missing"));
        },
    };
    if !text::same_text(mode.as_str(), "Calendar") {
        let message = text::joined3("unknown limit window mode `", mode.as_str(), "`");
        return Err(script::fail_query(message.as_str()));
    }
    Ok(
        LimitCalendar {
            timezone,
            week_starts_on,
            window_mode: LimitWindowMode::Calendar,
        },
    )
}

/// The calendar that a JSON document describes, where there is a document.
pub open spec fn opt_calendar_of(document: Option<String>) -> Result<
    Option<LimitCalendar>,
    HaltView,
> {
    match document {
        None => Ok(None),
        Some(d) => match calendar_of(d) {
            Ok(c) => Ok(Some(c)),
            Err(h) => Err(h),
        },
    }
}

/// The calendar that a JSON document describes, where there is a document.
pub fn optional_calendar(document: &Option<String>) -> (r: Result<Option<LimitCalendar>, Halt>)
    ensures
        script::seen(r) == opt_calendar_of(*document),
{
    match document {
        None => Ok(None),
        Some(d) => Ok(Some(limit_calendar_from_json(d)?)),
    }
}

/// The card range that a row holds.
#[verifier::opaque]
pub open spec fn map_card_range_row_spec(
    st: RunView,
    row: Row,
) -> (Result<CardRange, HaltView>, RunView) {
    match row.raw_at(0, READ@) { Err(h) => (Err(h), st), Ok(range_raw) =>
    match row.text_at(3, READ@) { Err(h) => (Err(h), st), Ok(mode_text) =>
    match row.text_at(4, READ@) { Err(h) => (Err(h), st), Ok(authority_text) =>
    match row.opt_text_at(5, READ@) { Err(h) => (Err(h), st), Ok(calendar_text) =>
    match row.text_at(6, READ@) { Err(h) => (Err(h), st), Ok(status_text) =>
    match row.text_at(8, READ@) { Err(h) => (Err(h), st), Ok(cms_operation_mode) =>
    match row.opt_raw_at(11, READ@) { Err(h) => (Err(h), st), Ok(operation_raw) =>
    match row.text_at(12, READ@) { Err(h) => (Err(h), st), Ok(metadata_json) =>
    match row.text_at(15, READ@) { Err(h) => (Err(h), st), Ok(created_text) =>
    match row.text_at(16, READ@) { Err(h) => (Err(h), st), Ok(updated_text) =>
    match script::id_of(range_raw@) { Err(h) => (Err(h), st), Ok(card_range_id) =>
    match row.text_at(1, READ@) { Err(h) => (Err(h), st), Ok(start) =>
    match row.text_at(2, READ@) { Err(h) => (Err(h), st), Ok(end) =>
    match FundingMode::of_code(mode_text@) {
    None => {
        (script::query_fault("unknown funding mode `"@ + mode_text@ + "`"@), st)
    },
    Some(funding_mode) =>
    match WithdrawalLimitAuthority::of_code(authority_text@) {
    None => {
        (script::query_fault("unknown withdrawal authority `"@ + authority_text@ + "`"@), st)
    },
    Some(withdrawal_limit_authority) =>
    match opt_calendar_of(calendar_text) { Err(h) => (Err(h), st), Ok(limit_calendar) =>
    match CardRangeStatus::of_code(status_text@) {
    None => {
        (script::query_fault("unknown card range status `"@ + status_text@ + "`"@), st)
    },
    Some(status) =>
    match row.small_at(7, READ@) { Err(h) => (Err(h), st), Ok(issuance) =>
    match script::flag_spec(
        st,
        Rule::KnownCode(CodeKind::CmsOperationMode, cms_operation_mode),
    ) { (Err(h), st) => (Err(h), st), (Ok(known), st) =>
    if !known {
        (script::query_fault("unknown CMS operation mode `"@ + cms_operation_mode@ + "`"@), st)
    } else {
    match row.int_at(9, READ@) { Err(h) => (Err(h), st), Ok(operational_version) =>
    match row.int_at(10, READ@) { Err(h) => (Err(h), st), Ok(materialized_operational_version) =>
    match script::opt_id_of(
        operation_raw,
    ) { Err(h) => (Err(h), st), Ok(range_control_operation_id) =>
    if json::json_reading_fault(metadata_json@) is Some {
        (
            script::failed(
                "invalid card range metadata JSON in Oracle row"@,
                json::json_reading_fault(metadata_json@)->Some_0,
            ),
            st,
        )
    } else {
    match row.text_at(13, READ@) { Err(h) => (Err(h), st), Ok(created_by_subject) =>
    match row.text_at(14, READ@) { Err(h) => (Err(h), st), Ok(updated_by_subject) =>
    match idempotency::utc_of(created_text@) { Err(h) => (Err(h), st), Ok(created_at) =>
    match idempotency::utc_of(updated_text@) { Err(h) => (Err(h), st), Ok(updated_at) =>
    (
        Ok(CardRange {
            card_range_id,
            numbers: CardNumberRange { start, end },
            funding_mode,
            withdrawal_limit_authority,
            limit_calendar,
            status,
            issuance_enabled: issuance == 1,
            cms_operation_mode,
            operational_version,
            materialized_operational_version,
            range_control_operation_id,
            metadata_json,
            created_by_subject,
            updated_by_subject,
            created_at,
            updated_at,
        }),
        st,
    )
    }}}}}}}}}}}}}}}}}}}}}}}}}}}}
}

/// The card range that a row holds.
pub fn map_card_range_row(s: &mut Session, row: &Row) -> (r: Result<CardRange, Halt>)
    ensures
        (script::seen(r), final(s)@) == map_card_range_row_spec(old(s)@, *row),
{
    proof {
        reveal(map_card_range_row_spec);
    }
    let range_raw = row.raw(0, READ)?;
    let mode_text = row.text(3, READ)?;
    let authority_text = row.text(4, READ)?;
    let calendar_text = row.opt_text(5, READ)?;
    let status_text = row.text(6, READ)?;
    let cms_operation_mode = row.text(8, READ)?;
    let operation_raw = row.opt_raw(11, READ)?;
    let metadata_json = row.text(12, READ)?;
    let created_text = row.text(15, READ)?;
    let updated_text = row.text(16, READ)?;
    let card_range_id = script::to_id(range_raw)?;
    let start = row.text(1, READ)?;
    let end = row.text(2, READ)?;
    let funding_mode = match FundingMode::from_db_value(mode_text.as_str()) {
        Some(v) => v,
        None => {
            return Err(script::fail_query(
                text::joined3("unknown funding mode `", mode_text.as_str(), "`").as_str(),
            ));
        },
    };
    let withdrawal_limit_authority = match WithdrawalLimitAuthority::from_db_value(
        authority_text.as_str(),
    ) {
        Some(v) => v,
        None => {
            return Err(script::fail_query(
                text::joined3(
                    "unknown withdrawal authority `",
                    authority_text.as_str(),
                    "`",
                ).as_str(),
            ));
        },
    };
    let limit_calendar = optional_calendar(&calendar_text)?;
    let status = match CardRangeStatus::from_db_value(status_text.as_str()) {
        Some(v) => v,
        None => {
            return Err(script::fail_query(
                text::joined3("unknown card range status `", status_text.as_str(), "`").as_str(),
            ));
        },
    };
    let issuance: i64 = row.small(7, READ)?;
    let known = script::flag(
        s,
        Rule::KnownCode(CodeKind::CmsOperationMode, cms_operation_mode.clone()),
    )?;
    if !known {
        return Err(script::fail_query(
            text::joined3(
                "unknown CMS operation mode `",
                cms_operation_mode.as_str(),
                "`",
            ).as_str(),
        ));
    }
    let operational_version: i64 = row.number(9, READ)?;
    let materialized_operational_version: i64 = row.number(10, READ)?;
    let range_control_operation_id = script::to_opt_id(operation_raw)?;
    match json::reading_fault(metadata_json.as_str()) {
        Some(e) => {
            return Err(script::fail_because(
                "invalid card range metadata JSON in Oracle row",
                e.as_str(),
            ));
        },
        None => {},
    }
    let created_by_subject = row.text(13, READ)?;
    let updated_by_subject = row.text(14, READ)?;
    let created_at = idempotency::parse_utc(created_text.as_str())?;
    let updated_at = idempotency::parse_utc(updated_text.as_str())?;
    Ok(CardRange {
        card_range_id,
        numbers: CardNumberRange { start, end },
        funding_mode,
        withdrawal_limit_authority,
        limit_calendar,
        status,
        issuance_enabled: issuance == 1,
        cms_operation_mode,
        operational_version,
        materialized_operational_version,
        range_control_operation_id,
        metadata_json,
        created_by_subject,
        updated_by_subject,
        created_at,
        updated_at,
    })
}

/// Reading a row changes nothing.
pub broadcast proof fn map_card_range_row_changes_nothing(st: RunView, row: Row)
    ensures
        script::writes(
            (#[trigger] map_card_range_row_spec(st, row)).1.log,
        ) == script::writes(st.log),
        forall|sql: Seq<char>| #[trigger]
            script::runs(map_card_range_row_spec(st, row).1.log, sql) == script::runs(st.log, sql),
        forall|spared: Set<Seq<char>>| #[trigger]
            script::writes_beside(
                map_card_range_row_spec(st, row).1.log,
                spared,
            ) == script::writes_beside(st.log, spared),
        forall|sql: Seq<char>, binds: Seq<Bind>| #[trigger]
            script::runs_on(map_card_range_row_spec(st, row).1.log, sql, binds) == script::runs_on(
                st.log,
                sql,
                binds,
            ),
        forall|sql: Seq<char>| #[trigger]
            script::told(map_card_range_row_spec(st, row).1.log, sql) == script::told(st.log, sql),
        forall|sql: Seq<char>, such: spec_fn(Seq<Bind>) -> bool| #[trigger]
            script::told_where(map_card_range_row_spec(st, row).1.log, sql, such) == script::told_where(
                st.log,
                sql,
                such,
            ),
        forall|sql: Seq<char>, id: Uuid| #[trigger]
            script::stored_under(map_card_range_row_spec(st, row).1.log, sql, id) == script::stored_under(
                st.log,
                sql,
                id,
            ),
{
    broadcast use {
        script::writes_with_another,
        script::runs_with_another,
        script::runs_on_with_another,
        script::told_with_another,
        script::told_where_with_another,
        script::stored_under_with_another,
        script::writes_beside_with_another,
    };

    reveal(map_card_range_row_spec);
}

/// The card range with this identifier, which must be there.
pub open spec fn fetch_card_range_spec(
    st: RunView,
    card_range_id: Uuid,
) -> (Result<CardRange, HaltView>, RunView) {
    match script::one_row_spec(
        st,
        CARD_RANGE_SELECT_SQL@,
        seq![Bind::Id(card_range_id)],
        CARD_RANGE_COLUMNS,
        "failed to fetch card range"@,
    ) { (Err(h), st) => (Err(h), st), (Ok(row), st) =>
    map_card_range_row_spec(st, row)
    }
}

/// The card range with this identifier, which must be there.
pub fn fetch_card_range(s: &mut Session, card_range_id: Uuid) -> (r: Result<CardRange, Halt>)
    ensures
        (script::seen(r), final(s)@) == fetch_card_range_spec(old(s)@, card_range_id),
{
    let row = script::one_row(
        s,
        CARD_RANGE_SELECT_SQL,
        binds::binds1(Bind::Id(card_range_id)),
        CARD_RANGE_COLUMNS,
        "failed to fetch card range",
    )?;
    map_card_range_row(s, row)
}

/// Takes the lock that serializes changes to the structure of ranges.
pub open spec fn lock_card_range_structure_spec(st: RunView) -> (Result<(), HaltView>, RunView) {
    match script::one_text_spec(
        st,
        CARD_RANGE_LOCK_SQL@,
        seq![Bind::Label("CARD_RANGE_STRUCTURE")],
        "failed to lock card range structure"@,
    ) { (Err(h), st) => (Err(h), st), (Ok(_), st) =>
    (Ok(()), st)
    }
}

/// Takes the lock that serializes changes to the structure of ranges.
pub fn lock_card_range_structure(s: &mut Session) -> (r: Result<(), Halt>)
    ensures
        (script::seen(r), final(s)@) == lock_card_range_structure_spec(old(s)@),
{
    script::one_text(
        s,
        CARD_RANGE_LOCK_SQL,
        binds::binds1(Bind::Label("CARD_RANGE_STRUCTURE")),
        "failed to lock card range structure",
    )?;
    Ok(())
}

/// Whether a stored range shares a card number with this one.
pub open spec fn card_range_overlaps_spec(
    st: RunView,
    numbers: CardNumberRange,
) -> (Result<bool, HaltView>, RunView) {
    match script::one_int_spec(
        st,
        CARD_RANGE_OVERLAP_SQL@,
        seq![Bind::Text(numbers.end), Bind::Text(numbers.start)],
        "failed to check card range overlap"@,
    ) { (Err(h), st) => (Err(h), st), (Ok(count), st) =>
    (Ok(count > 0), st)
    }
}

/// Whether a stored range shares a card number with this one.
pub fn card_range_overlaps(s: &mut Session, numbers: &CardNumberRange) -> (r: Result<bool, Halt>)
    ensures
        (script::seen(r), final(s)@) == card_range_overlaps_spec(old(s)@, *numbers),
{
    let count = script::one_int(
        s,
        CARD_RANGE_OVERLAP_SQL,
        binds::binds2(Bind::Text(numbers.end.clone()), Bind::Text(numbers.start.clone())),
        "failed to check card range overlap",
    )?;
    Ok(count > 0)
}

/// The calendar of a range as a bind value: a JSON document, or NULL.
pub open spec fn calendar_bind_spec(calendar: Option<LimitCalendar>) -> Bind {
    match calendar {
        Some(c) => Bind::Json(Document::Calendar(c)),
        None => Bind::OptText(None),
    }
}

/// The calendar of a range as a bind value: a JSON document, or NULL.
pub fn calendar_bind(calendar: &Option<LimitCalendar>) -> (r: Bind)
    ensures
        r == calendar_bind_spec(*calendar),
{
    match calendar {
        Some(c) => Bind::Json(Document::Calendar(c.clone())),
        None => Bind::OptText(None),
    }
}

/// Stores a draft card range and reads it back.
pub open spec fn insert_card_range_spec(
    st: RunView,
    card_range: NewCardRange,
    actor_subject: String,
) -> (Result<CardRange, HaltView>, RunView) {
    match script::execute_spec(
        st,
        CARD_RANGE_INSERT_SQL@,
        seq![
            Bind::Id(card_range.card_range_id),
            Bind::Text(card_range.numbers.start),
            Bind::Text(card_range.numbers.end),
            Bind::Label(card_range.funding_mode.code()),
            Bind::Label(card_range.withdrawal_limit_authority.code()),
            calendar_bind_spec(card_range.limit_calendar),
            Bind::Label("DRAFT"),
            Bind::Flag(card_range.issuance_enabled),
            Bind::Text(card_range.cms_operation_mode),
            Bind::Int(1),
            Bind::JsonText(card_range.metadata_json),
            Bind::Text(actor_subject),
            Bind::Text(actor_subject),
        ],
        "failed to insert card range"@,
    ) { (Err(h), st) => (Err(h), st), (Ok(_), st) =>
    fetch_card_range_spec(st, card_range.card_range_id)
    }
}

/// Stores a draft card range and reads it back.
pub fn insert_card_range(
    s: &mut Session,
    card_range: &NewCardRange,
    actor_subject: &String,
) -> (r: Result<CardRange, Halt>)
    ensures
        (script::seen(r), final(s)@) == insert_card_range_spec(
            old(s)@,
            *card_range,
            *actor_subject,
        ),
{
    script::execute(
        s,
        CARD_RANGE_INSERT_SQL,
        binds::binds13(
            Bind::Id(card_range.card_range_id),
            Bind::Text(card_range.numbers.start.clone()),
            Bind::Text(card_range.numbers.end.clone()),
            Bind::Label(card_range.funding_mode.as_db_value()),
            Bind::Label(card_range.withdrawal_limit_authority.as_db_value()),
            calendar_bind(&card_range.limit_calendar),
            Bind::Label("DRAFT"),
            Bind::Flag(card_range.issuance_enabled),
            Bind::Text(card_range.cms_operation_mode.clone()),
            Bind::Int(1),
            Bind::JsonText(card_range.metadata_json.clone()),
            Bind::Text(actor_subject.clone()),
            Bind::Text(actor_subject.clone()),
        ),
        "failed to insert card range",
    )?;
    fetch_card_range(s, card_range.card_range_id)
}

/// Creates a card range, or tells why not. Under one idempotency key it is created once.
pub open spec fn create_card_range_atomic_spec(
    st: RunView,
    context: MutationCommandContext,
    card_range: NewCardRange,
) -> (Result<CreateCardRangePersistenceOutcome, HaltView>, RunView) {
    match idempotency::fetch_idempotency_record_spec(
        st,
        context.operation_type,
        context.idempotency_key,
    ) { (Err(h), st) => (Err(h), st), (Ok(existing), st) =>
    if let Some(record) = existing {
        (Ok(creation_verdict(idempotency::idempotency_verdict(record, context.request_hash))), st)
    } else {
    match lock_card_range_structure_spec(st) { (Err(h), st) => (Err(h), st), (Ok(_), st) =>
    match idempotency::fetch_idempotency_record_spec(
        st,
        context.operation_type,
        context.idempotency_key,
    ) { (Err(h), st) => (Err(h), st), (Ok(recheck), st) =>
    if let Some(record) = recheck {
        (Ok(creation_verdict(idempotency::idempotency_verdict(record, context.request_hash))), st)
    } else {
    match card_range_overlaps_spec(
        st,
        card_range.numbers,
    ) { (Err(h), st) => (Err(h), st), (Ok(overlaps), st) =>
    if overlaps {
        (Ok(CreateCardRangePersistenceOutcome::Overlap), st)
    } else {
    match idempotency::insert_idempotency_record_spec(
        st,
        context.record,
    ) { (Err(h), st) => (Err(h), st), (Ok(_), st) =>
    match insert_card_range_spec(
        st,
        card_range,
        context.actor.subject,
    ) { (Err(h), st) => (Err(h), st), (Ok(created), st) =>
    match script::consult_text_spec(
        st,
        Rule::CardRangeSnapshot(created),
    ) { (Err(h), st) => (Err(h), st), (Ok(snapshot), st) =>
    match audit::insert_audit_log_spec(
        st,
        "CARD_RANGE",
        created.card_range_id,
        AuditAction::Insert,
        Bind::Label("card range created"),
        None,
        Some(Snapshot::Text(snapshot)),
        audit::trusted_origin_spec(context.audit),
    ) { (Err(h), st) => (Err(h), st), (Ok(_), st) =>
    match idempotency::complete_idempotency_record_spec(
        st,
        context.operation_type,
        context.idempotency_key,
        "card_range",
        created.card_range_id,
        Snapshot::Text(snapshot),
    ) { (Err(h), st) => (Err(h), st), (Ok(_), st) =>
    (Ok(CreateCardRangePersistenceOutcome::Created(Box::new(created))), st)
    }}}}}}}}}}}}
}

impl OracleRepository {
    /// Creates a card range, or tells why not. Under one idempotency key it is created once.
    pub fn create_card_range_atomic(
        s: &mut Session,
        context: &MutationCommandContext,
        card_range: &NewCardRange,
    ) -> (r: Result<CreateCardRangePersistenceOutcome, Halt>)
        ensures
            (script::seen(r), final(s)@) == create_card_range_atomic_spec(
                old(s)@,
                *context,
                *card_range,
            ),
    {
        let existing = idempotency::fetch_idempotency_record(
            s,
            &context.operation_type,
            &context.idempotency_key,
        )?;
        if let Some(record) = &existing {
            return Ok(classify_idempotency(record, &context.request_hash));
        }
        lock_card_range_structure(s)?;
        let recheck = idempotency::fetch_idempotency_record(
            s,
            &context.operation_type,
            &context.idempotency_key,
        )?;
        if let Some(record) = &recheck {
            return Ok(classify_idempotency(record, &context.request_hash));
        }
        let overlaps = card_range_overlaps(s, &card_range.numbers)?;
        if overlaps {
            return Ok(CreateCardRangePersistenceOutcome::Overlap);
        }
        idempotency::insert_idempotency_record(s, &context.record)?;
        let created = insert_card_range(s, card_range, &context.actor.subject)?;
        let snapshot = script::consult_text(s, Rule::CardRangeSnapshot(created.clone()))?;
        audit::insert_audit_log(
            s,
            "CARD_RANGE",
            created.card_range_id,
            AuditAction::Insert,
            Bind::Label("card range created"),
            None,
            Some(Snapshot::Text(snapshot.clone())),
            audit::trusted_origin(&context.audit),
        )?;
        idempotency::complete_idempotency_record(
            s,
            &context.operation_type,
            &context.idempotency_key,
            "card_range",
            created.card_range_id,
            Snapshot::Text(snapshot),
        )?;
        Ok(CreateCardRangePersistenceOutcome::Created(Box::new(created)))
    }
}

/// What another command that won the race for the same idempotency key left behind.
pub open spec fn create_card_range_after_conflict_spec(
    st: RunView,
    context: MutationCommandContext,
) -> (Result<CreateCardRangePersistenceOutcome, HaltView>, RunView) {
    match idempotency::fetch_idempotency_record_spec(
        st,
        context.operation_type,
        context.idempotency_key,
    ) { (Err(h), st) => (Err(h), st), (Ok(existing), st) =>
    match existing {
    None => {
        (script::query_fault("concurrent idempotency winner was not visible after conflict"@), st)
    },
    Some(record) =>
    (Ok(creation_verdict(idempotency::idempotency_verdict(record, context.request_hash))), st)
    }}
}

impl OracleRepository {
    /// What another command that won the race for the same idempotency key left behind.
    pub fn create_card_range_after_conflict(
        s: &mut Session,
        context: &MutationCommandContext,
    ) -> (r: Result<CreateCardRangePersistenceOutcome, Halt>)
        ensures
            (script::seen(r), final(s)@) == create_card_range_after_conflict_spec(
                old(s)@,
                *context,
            ),
    {
        let existing = idempotency::fetch_idempotency_record(
            s,
            &context.operation_type,
            &context.idempotency_key,
        )?;
        let record = match &existing {
            Some(v) => v,
            None => {
                return Err(script::fail_query(
                    "concurrent idempotency winner was not visible after conflict",
                ));
            },
        };
        Ok(classify_idempotency(record, &context.request_hash))
    }
}

/// What came back of reading a card range that may be absent.
pub open spec fn get_card_range_spec(st: RunView, card_range_id: Uuid) -> (
    Result<Option<CardRange>, HaltView>,
    RunView,
) {
    match fetch_card_range_spec(st, card_range_id) {
        (Ok(range), st) => (Ok(Some(range)), st),
        (Err(HaltView::Fail(DbErrorView::Query(message))), st) => (
            if text::contains_text(message, "ORA-01403"@) {
                Ok(None)
            } else {
                Err(HaltView::Fail(DbErrorView::Query(message)))
            },
            st,
        ),
        (Err(h), st) => (Err(h), st),
    }
}

impl OracleRepository {
    /// The card range with this identifier, where there is one.
    pub fn get_card_range(s: &mut Session, card_range_id: Uuid) -> (r: Result<
        Option<CardRange>,
        Halt,
    >)
        ensures
            (script::seen(r), final(s)@) == get_card_range_spec(old(s)@, card_range_id),
    {
        match fetch_card_range(s, card_range_id) {
            Ok(range) => Ok(Some(range)),
            Err(Halt::Fail(DbError::Query(message))) => if text::contains(
                message.as_str(),
                "ORA-01403",
            ) {
                Ok(None)
            } else {
                Err(Halt::Fail(DbError::Query(message)))
            },
            Err(h) => Err(h),
        }
    }
}

/// The card ranges that rows hold, in order.
pub open spec fn map_card_range_rows_spec(
    st: RunView,
    rows: Seq<Row>,
    i: nat,
    done: Seq<CardRange>,
) -> (Result<Seq<CardRange>, HaltView>, RunView)
    decreases rows.len() - i,
{
    if i >= rows.len() {
        (Ok(done), st)
    } else {
        match map_card_range_row_spec(st, rows[i as int]) {
            (Err(h), st) => (Err(h), st), (Ok(item), st) => map_card_range_rows_spec(
                st,
                rows,
                i + 1,
                done.push(item),
            )
        }
    }
}

/// The card ranges that rows hold, in order.
pub fn map_card_range_rows(s: &mut Session, rows: &Vec<Row>) -> (r: Result<Vec<CardRange>, Halt>)
    ensures
        (script::seen_view(r), final(s)@) == map_card_range_rows_spec(
            old(s)@,
            rows@,
            0,
            Seq::empty(),
        ),
{
    let mut done: Vec<CardRange> = Vec::new();
    let mut i: usize = 0;
    assert(done@ =~= Seq::empty());
    while i < rows.len()
        invariant
            i <= rows@.len(),
            map_card_range_rows_spec(old(s)@, rows@, 0, Seq::empty()) == map_card_range_rows_spec(
                s@,
                rows@,
                i as nat,
                done@,
            ),
        decreases rows@.len() - i,
    {
        let item = map_card_range_row(s, &rows[i])?;
        done.push(item);
        i = i + 1;
    }
    Ok(done)
}

/// Each is taken in its turn, after those before it, and the first that fails ends the run.
pub proof fn map_card_range_rows_go_in_turn(
    st: RunView,
    rows: Seq<Row>,
    i: nat,
    done: Seq<CardRange>,
)
    ensures
        ({
            let whole = map_card_range_rows_spec(st, rows, i, done);
            let (next, at) = map_card_range_row_spec(st, rows[i as int]);
            &&& i >= rows.len() ==> whole == (Ok::<_, HaltView>(done), st)
            &&& i < rows.len() ==> match next {
                Ok(item) => whole == map_card_range_rows_spec(at, rows, i + 1, done.push(item)),
                Err(halt) => whole.0 == Err::<Seq<CardRange>, _>(halt) && whole.1 == at,
            }
        }),
{
}

/// The instant after which a page begins, where there is a cursor.
pub open spec fn cursor_time_spec(cursor: Option<CardRangeListCursor>) -> Option<UtcTime> {
    match cursor {
        Some(c) => Some(c.created_at),
        None => None,
    }
}

fn cursor_time(cursor: &Option<CardRangeListCursor>) -> (r: Option<UtcTime>)
    ensures
        r == cursor_time_spec(*cursor),
{
    match cursor {
        Some(c) => Some(c.created_at),
        None => None,
    }
}

/// The identifier after which a page begins, where there is a cursor.
pub open spec fn cursor_id_spec(cursor: Option<CardRangeListCursor>) -> Option<Uuid> {
    match cursor {
        Some(c) => Some(c.card_range_id),
        None => None,
    }
}

fn cursor_id(cursor: &Option<CardRangeListCursor>) -> (r: Option<Uuid>)
    ensures
        r == cursor_id_spec(*cursor),
{
    match cursor {
        Some(c) => Some(c.card_range_id),
        None => None,
    }
}

/// A page of card ranges: its last range is the cursor, where another page follows.
pub open spec fn card_range_page(found: Seq<CardRange>, limit: nat) -> (
    Seq<CardRange>,
    Option<CardRangeListCursor>,
) {
    let items = page::page_items(found, limit);
    (
        items,
        if page::has_next(found, limit) && items.len() > 0 {
            Some(
                CardRangeListCursor {
                    created_at: items.last().created_at,
                    card_range_id: items.last().card_range_id,
                },
            )
        } else {
            None
        },
    )
}

fn to_card_range_page(found: Vec<CardRange>, limit: usize) -> (r: CardRangeListPage)
    ensures
        r@ == card_range_page(found@, limit as nat),
{
    let (items, more) = page::cut_page(found, limit);
    let next_cursor = if more && items.len() > 0 {
        let last = &items[items.len() - 1];
        Some(CardRangeListCursor { created_at: last.created_at, card_range_id: last.card_range_id })
    } else {
        None
    };
    Page { items, next_cursor }
}

/// The database value of an optional filter.
pub open spec fn status_filter_spec(value: Option<CardRangeStatus>) -> Option<&'static str> {
    match value {
        Some(v) => Some(v.code()),
        None => None,
    }
}

fn status_filter(value: Option<CardRangeStatus>) -> (r: Option<&'static str>)
    ensures
        r == status_filter_spec(value),
{
    match value {
        Some(v) => Some(v.as_db_value()),
        None => None,
    }
}

/// The database value of an optional filter.
pub open spec fn mode_filter_spec(value: Option<FundingMode>) -> Option<&'static str> {
    match value {
        Some(v) => Some(v.code()),
        None => None,
    }
}

fn mode_filter(value: Option<FundingMode>) -> (r: Option<&'static str>)
    ensures
        r == mode_filter_spec(value),
{
    match value {
        Some(v) => Some(v.as_db_value()),
        None => None,
    }
}

/// The database value of an optional filter.
pub open spec fn authority_filter_spec(
    value: Option<WithdrawalLimitAuthority>,
) -> Option<&'static str> {
    match value {
        Some(v) => Some(v.code()),
        None => None,
    }
}

fn authority_filter(value: Option<WithdrawalLimitAuthority>) -> (r: Option<&'static str>)
    ensures
        r == authority_filter_spec(value),
{
    match value {
        Some(v) => Some(v.as_db_value()),
        None => None,
    }
}

/// A page of the card ranges that a query selects, oldest first.
pub open spec fn list_card_ranges_spec(
    st: RunView,
    query: CardRangeListQuery,
) -> (Result<(Seq<CardRange>, Option<CardRangeListCursor>), HaltView>, RunView) {
    match script::named_rows_spec(
        st,
        CARD_RANGE_LIST_SQL@,
        CARD_RANGE_LIST_BINDS,
        seq![
            Bind::OptLabel(status_filter_spec(query.status)),
            Bind::OptLabel(mode_filter_spec(query.funding_mode)),
            Bind::OptLabel(authority_filter_spec(query.withdrawal_limit_authority)),
            Bind::OptTime(cursor_time_spec(query.cursor)),
            Bind::OptId(cursor_id_spec(query.cursor)),
            Bind::Int(query.database_fetch_limit as i64),
        ],
        CARD_RANGE_COLUMNS,
        "failed to list card ranges"@,
    ) { (Err(h), st) => (Err(h), st), (Ok(found), st) =>
    match map_card_range_rows_spec(
        st,
        found.rows@,
        0,
        Seq::empty(),
    ) { (Err(h), st) => (Err(h), st), (Ok(items), st) =>
    if let Some(cause) = found.failure {
        (script::failed("failed to read listed card range row"@, cause@), st)
    } else {
    (Ok(card_range_page(items, query.limit as nat)), st)
    }}}
}

impl OracleRepository {
    /// A page of the card ranges that a query selects, oldest first.
    pub fn list_card_ranges(
        s: &mut Session,
        query: &CardRangeListQuery,
    ) -> (r: Result<CardRangeListPage, Halt>)
        ensures
            (script::seen_view(r), final(s)@) == list_card_ranges_spec(old(s)@, *query),
    {
        let found = script::named_rows(
            s,
            CARD_RANGE_LIST_SQL,
            CARD_RANGE_LIST_BINDS,
            binds::binds6(
                Bind::OptLabel(status_filter(query.status)),
                Bind::OptLabel(mode_filter(query.funding_mode)),
                Bind::OptLabel(authority_filter(query.withdrawal_limit_authority)),
                Bind::OptTime(cursor_time(&query.cursor)),
                Bind::OptId(cursor_id(&query.cursor)),
                Bind::Int(query.database_fetch_limit as i64),
            ),
            CARD_RANGE_COLUMNS,
            "failed to list card ranges",
        )?;
        let items = map_card_range_rows(s, &found.rows)?;
        if let Some(cause) = &found.failure {
            return Err(script::fail_because(
                "failed to read listed card range row",
                cause.as_str(),
            ));
        }
        Ok(to_card_range_page(items, query.limit as usize))
    }
}

/// The provider of a card range that a row holds.
pub open spec fn map_eligibility_row_spec(
    st: RunView,
    row: Row,
    card_range_id: Uuid,
) -> (Result<CardRangeProviderEligibility, HaltView>, RunView) {
    match row.raw_at(0, READ@) { Err(h) => (Err(h), st), Ok(provider_raw) =>
    match row.text_at(1, READ@) { Err(h) => (Err(h), st), Ok(status) =>
    match script::id_of(provider_raw@) { Err(h) => (Err(h), st), Ok(provider_id) =>
    match script::flag_spec(
        st,
        Rule::KnownCode(CodeKind::CardRangeProviderStatus, status),
    ) { (Err(h), st) => (Err(h), st), (Ok(known), st) =>
    if !known {
        (script::query_fault("unknown range provider status"@), st)
    } else {
    (Ok(CardRangeProviderEligibility { card_range_id, provider_id, status }), st)
    }}}}}
}

/// The provider of a card range that a row holds.
pub fn map_eligibility_row(
    s: &mut Session,
    row: &Row,
    card_range_id: Uuid,
) -> (r: Result<CardRangeProviderEligibility, Halt>)
    ensures
        (script::seen(r), final(s)@) == map_eligibility_row_spec(old(s)@, *row, card_range_id),
{
    let provider_raw = row.raw(0, READ)?;
    let status = row.text(1, READ)?;
    let provider_id = script::to_id(provider_raw)?;
    let known = script::flag(
        s,
        Rule::KnownCode(CodeKind::CardRangeProviderStatus, status.clone()),
    )?;
    if !known {
        return Err(script::fail_query("unknown range provider status"));
    }
    Ok(CardRangeProviderEligibility { card_range_id, provider_id, status })
}

/// The providers of a card range that rows hold, in order.
pub open spec fn map_eligibility_rows_spec(
    st: RunView,
    rows: Seq<Row>,
    i: nat,
    card_range_id: Uuid,
    done: Seq<CardRangeProviderEligibility>,
) -> (Result<Seq<CardRangeProviderEligibility>, HaltView>, RunView)
    decreases rows.len() - i,
{
    if i >= rows.len() {
        (Ok(done), st)
    } else {
        match map_eligibility_row_spec(st, rows[i as int], card_range_id) {
            (Err(h), st) => (Err(h), st), (Ok(item), st) => map_eligibility_rows_spec(
                st,
                rows,
                i + 1,
                card_range_id,
                done.push(item),
            )
        }
    }
}

/// The providers of a card range that rows hold, in order.
pub fn map_eligibility_rows(
    s: &mut Session,
    rows: &Vec<Row>,
    card_range_id: Uuid,
) -> (r: Result<Vec<CardRangeProviderEligibility>, Halt>)
    ensures
        (script::seen_view(r), final(s)@) == map_eligibility_rows_spec(
            old(s)@,
            rows@,
            0,
            card_range_id,
            Seq::empty(),
        ),
{
    let mut done: Vec<CardRangeProviderEligibility> = Vec::new();
    let mut i: usize = 0;
    assert(done@ =~= Seq::empty());
    while i < rows.len()
        invariant
            i <= rows@.len(),
            map_eligibility_rows_spec(old(s)@, rows@, 0, card_range_id, Seq::empty()) == map_eligibility_rows_spec(
                s@,
                rows@,
                i as nat,
                card_range_id,
                done@,
            ),
        decreases rows@.len() - i,
    {
        let item = map_eligibility_row(s, &rows[i], card_range_id)?;
        done.push(item);
        i = i + 1;
    }
    Ok(done)
}

/// Each is taken in its turn, after those before it, and the first that fails ends the run.
pub proof fn map_eligibility_rows_go_in_turn(
    st: RunView,
    rows: Seq<Row>,
    i: nat,
    card_range_id: Uuid,
    done: Seq<CardRangeProviderEligibility>,
)
    ensures
        ({
            let whole = map_eligibility_rows_spec(st, rows, i, card_range_id, done);
            let (next, at) = map_eligibility_row_spec(st, rows[i as int], card_range_id);
            &&& i >= rows.len() ==> whole == (Ok::<_, HaltView>(done), st)
            &&& i < rows.len() ==> match next {
                Ok(item) => {
                    whole == map_eligibility_rows_spec(
                        at,
                        rows,
                        i + 1,
                        card_range_id,
                        done.push(item),
                    )
                },
                Err(halt) => whole.0 == Err::<Seq<CardRangeProviderEligibility>, _>(halt)
                    && whole.1 == at,
            }
        }),
{
}

/// The providers of a card range, in the order in which they joined.
pub open spec fn list_card_range_providers_spec(
    st: RunView,
    card_range_id: Uuid,
) -> (Result<Seq<CardRangeProviderEligibility>, HaltView>, RunView) {
    match script::rows_spec(
        st,
        CARD_RANGE_PROVIDERS_SQL@,
        seq![Bind::Id(card_range_id)],
        "rt",
        "failed to list range providers"@,
    ) { (Err(h), st) => (Err(h), st), (Ok(found), st) =>
    match map_eligibility_rows_spec(
        st,
        found.rows@,
        0,
        card_range_id,
        Seq::empty(),
    ) { (Err(h), st) => (Err(h), st), (Ok(items), st) =>
    if let Some(cause) = found.failure {
        (script::failed("failed to read range provider"@, cause@), st)
    } else {
    (Ok(items), st)
    }}}
}

impl OracleRepository {
    /// The providers of a card range, in the order in which they joined.
    pub fn list_card_range_providers(
        s: &mut Session,
        card_range_id: Uuid,
    ) -> (r: Result<Vec<CardRangeProviderEligibility>, Halt>)
        ensures
            (script::seen_view(r), final(s)@) == list_card_range_providers_spec(
                old(s)@,
                card_range_id,
            ),
    {
        let found = script::rows(
            s,
            CARD_RANGE_PROVIDERS_SQL,
            binds::binds1(Bind::Id(card_range_id)),
            "rt",
            "failed to list range providers",
        )?;
        let items = map_eligibility_rows(s, &found.rows, card_range_id)?;
        if let Some(cause) = &found.failure {
            return Err(script::fail_because("failed to read range provider", cause.as_str()));
        }
        Ok(items)
    }
}

/// Under one idempotency key a card range is asked for once: where a record is stored, the command
/// is answered from it, and looking it up is all that is done.
pub proof fn range_creation_is_done_once(
    st: RunView,
    context: MutationCommandContext,
    card_range: NewCardRange,
    record: IdempotencyRecord,
)
    requires
        idempotency::fetch_idempotency_record_spec(
            st,
            context.operation_type,
            context.idempotency_key,
        ).0 == Ok::<Option<IdempotencyRecord>, HaltView>(Some(record)),
    ensures
        create_card_range_atomic_spec(st, context, card_range) == (
            Ok::<_, HaltView>(
                creation_verdict(idempotency::idempotency_verdict(record, context.request_hash)),
            ),
            idempotency::fetch_idempotency_record_spec(
                st,
                context.operation_type,
                context.idempotency_key,
            ).1,
        ),
        script::writes(
            create_card_range_atomic_spec(st, context, card_range).1.log,
        ) == script::writes(st.log),
{
    broadcast use script::writes_with_another;

}

/// Where a card range is refused, or answered from a record, nothing is changed.
#[verifier::rlimit(40)]
pub proof fn refused_range_creation_changes_nothing(
    st: RunView,
    context: MutationCommandContext,
    card_range: NewCardRange,
)
    ensures
        ({
            let (result, after) = create_card_range_atomic_spec(st, context, card_range);
            result matches Ok(outcome) ==> outcome is Created || script::writes(after.log)
                == script::writes(st.log)
        }),
{
    broadcast use {script::writes_with_another, map_card_range_row_changes_nothing};

}

/// Where a card range is carried out in a run of its own, audit evidence is stored within it, and
/// the command's record is completed last.
#[verifier::rlimit(40)]
pub proof fn range_creation_leaves_evidence(
    st: RunView,
    context: MutationCommandContext,
    card_range: NewCardRange,
)
    requires
        st.log.len() == 0,
    ensures
        ({
            let (result, after) = create_card_range_atomic_spec(st, context, card_range);
            result matches Ok(outcome) ==> outcome is Created ==> script::runs(
                after.log,
                audit::AUDIT_INSERT_SQL@,
            ) > 0 && script::is_run_of(after.log.last(), idempotency::IDEMPOTENCY_COMPLETE_SQL@)
        }),
{
    broadcast use {script::runs_with_another, map_card_range_row_changes_nothing};

}

/// A command that is recorded is answered by its record: under another request it conflicts; under
/// the same one it gets the answer that is stored, or is told that it is under way, or that the
/// record is not in order.
pub proof fn creation_verdict_goes_by_the_record(
    record: crate::domain::idempotency::IdempotencyRecord,
    request_hash: String,
)
    ensures
        ({
            let answered = creation_verdict(idempotency::idempotency_verdict(record, request_hash));
            let same = record.request_hash@ == request_hash@;
            &&& answered is IdempotencyConflict <==> !same
            &&& answered is IdempotencyInProgress <==> same && record.status is InProgress
            &&& answered matches CreateCardRangePersistenceOutcome::Replayed(
                answer,
            ) ==> record.response_snapshot == Some(answer)
            &&& answered is Replayed <==> same && record.status is Completed
                && record.response_snapshot is Some
            &&& answered is IdempotencyInvalidState <==> same && !(record.status is InProgress)
                && !(
            record.status is Completed && record.response_snapshot is Some)
        }),
{
}

/// A command of the same key that finished while this one waited for its turn decides: this one is
/// answered from the record of that one, and changes nothing.
pub proof fn winner_of_a_race_is_replayed(
    st: RunView,
    context: MutationCommandContext,
    card_range: NewCardRange,
    record: IdempotencyRecord,
)
    requires
        ({
            let first = idempotency::fetch_idempotency_record_spec(
                st,
                context.operation_type,
                context.idempotency_key,
            );
            let locked = lock_card_range_structure_spec(first.1);
            let second = idempotency::fetch_idempotency_record_spec(
                locked.1,
                context.operation_type,
                context.idempotency_key,
            );
            &&& first.0 == Ok::<Option<IdempotencyRecord>, HaltView>(None)
            &&& locked.0 is Ok
            &&& second.0 == Ok::<Option<IdempotencyRecord>, HaltView>(Some(record))
        }),
    ensures
        create_card_range_atomic_spec(st, context, card_range).0 == Ok::<
            CreateCardRangePersistenceOutcome,
            HaltView,
        >(creation_verdict(idempotency::idempotency_verdict(record, context.request_hash))),
        script::writes(create_card_range_atomic_spec(st, context, card_range).1.log)
            == script::writes(st.log),
{
    broadcast use script::writes_with_another;

}


/// A calendar that is read has the time zone, the week and the windows that its document names.
pub proof fn calendar_is_that_of_its_document(document: String)
    ensures
        calendar_of(document) matches Ok(calendar) ==> {
            &&& json::json_text_member(document@, "timezone"@) == Some(calendar.timezone@)
            &&& json::json_text_member(document@, "week_starts_on"@) == Some(
                week_start_name(calendar.week_starts_on)@,
            )
            &&& json::json_text_member(document@, "window_mode"@) == Some("Calendar"@)
        },
{
    broadcast use crate::domain::card_range::stored_zone_is_in_its_document;

}

/// A card range is read from its row: each value from its own column. It issues cards where the
/// column is one.
#[verifier::rlimit(60)]
pub proof fn card_range_is_read_from_its_columns(st: RunView, row: Row)
    ensures
        map_card_range_row_spec(st, row).0 matches Ok(range) ==> {
            &&& range.card_range_id == row.id_at(0, READ@)->Ok_0
            &&& range.numbers.start == row.text_at(1, READ@)->Ok_0
            &&& range.numbers.end == row.text_at(2, READ@)->Ok_0
            &&& FundingMode::of_code(row.text_at(3, READ@)->Ok_0@) == Some(range.funding_mode)
            &&& WithdrawalLimitAuthority::of_code(row.text_at(4, READ@)->Ok_0@) == Some(
                range.withdrawal_limit_authority,
            )
            &&& CardRangeStatus::of_code(row.text_at(6, READ@)->Ok_0@) == Some(range.status)
            &&& range.issuance_enabled <==> row.small_at(7, READ@)->Ok_0 == 1
            &&& range.cms_operation_mode == row.text_at(8, READ@)->Ok_0
            &&& range.operational_version == row.int_at(9, READ@)->Ok_0
            &&& range.materialized_operational_version == row.int_at(10, READ@)->Ok_0
            &&& script::opt_id_of(row.opt_raw_at(11, READ@)->Ok_0) == Ok::<Option<Uuid>, HaltView>(
                range.range_control_operation_id,
            )
            &&& range.metadata_json == row.text_at(12, READ@)->Ok_0
            &&& range.created_by_subject == row.text_at(13, READ@)->Ok_0
            &&& range.updated_by_subject == row.text_at(14, READ@)->Ok_0
        },
{
    reveal(map_card_range_row_spec);
}

/// A range is created only where its numbers overlap no other range. What is stored is a draft of
/// version one with the values asked for.
#[verifier::rlimit(80)]
pub proof fn created_range_overlaps_none(
    st: RunView,
    context: MutationCommandContext,
    card_range: NewCardRange,
)
    requires
        idempotency::fetch_idempotency_record_spec(
            st,
            context.operation_type,
            context.idempotency_key,
        ).0 == Ok::<Option<IdempotencyRecord>, HaltView>(None),
    ensures
        ({
            let (result, after) = create_card_range_atomic_spec(st, context, card_range);
            let looked = idempotency::fetch_idempotency_record_spec(
                st,
                context.operation_type,
                context.idempotency_key,
            ).1;
            let (held, locked) = lock_card_range_structure_spec(looked);
            let (recheck, again) = idempotency::fetch_idempotency_record_spec(
                locked,
                context.operation_type,
                context.idempotency_key,
            );
            let overlaps = script::one_int_spec(
                again,
                CARD_RANGE_OVERLAP_SQL@,
                seq![Bind::Text(card_range.numbers.end), Bind::Text(card_range.numbers.start)],
                "failed to check card range overlap"@,
            ).0;
            &&& held is Ok && recheck == Ok::<Option<IdempotencyRecord>, HaltView>(None)
                && (overlaps
                matches Ok(n) && n > 0) <==> result == Ok::<_, HaltView>(
                CreateCardRangePersistenceOutcome::Overlap,
            )
            &&& (result matches Ok(outcome) && outcome is Created) ==> (overlaps matches Ok(n) && n
                <= 0) && script::ran(
                after.log,
                CARD_RANGE_INSERT_SQL@,
                seq![
                    Bind::Id(card_range.card_range_id),
                    Bind::Text(card_range.numbers.start),
                    Bind::Text(card_range.numbers.end),
                    Bind::Label(card_range.funding_mode.code()),
                    Bind::Label(card_range.withdrawal_limit_authority.code()),
                    calendar_bind_spec(card_range.limit_calendar),
                    Bind::Label("DRAFT"),
                    Bind::Flag(card_range.issuance_enabled),
                    Bind::Text(card_range.cms_operation_mode),
                    Bind::Int(1),
                    Bind::JsonText(card_range.metadata_json),
                    Bind::Text(context.actor.subject),
                    Bind::Text(context.actor.subject),
                ],
            )
        }),
{
    broadcast use {script::runs_on_with_another, map_card_range_row_changes_nothing};

}

/// What is asked first, and with which values, in a run that does this:
/// the card range with this identifier, which must be there.
pub proof fn fetch_card_range_asks_first(
    st: RunView,
    card_range_id: Uuid,
)
    requires
        st.rest.len() == 0,
    ensures
        fetch_card_range_spec(st, card_range_id).0 matches Err(HaltView::Ask(asked))
            && (
                asked matches script::CallView::Sql { sql, binds, .. }
                    && sql == CARD_RANGE_SELECT_SQL@ && binds == seq![Bind::Id(card_range_id)]
            ),
{
}

/// What is asked first, and with which values, in a run that does this:
/// takes the lock that serializes changes to the structure of ranges.
pub proof fn lock_card_range_structure_asks_first(
    st: RunView,
)
    requires
        st.rest.len() == 0,
    ensures
        lock_card_range_structure_spec(st).0 matches Err(HaltView::Ask(asked))
            && (
                asked matches script::CallView::Sql { sql, binds, .. }
                    && sql == CARD_RANGE_LOCK_SQL@
                    && binds == seq![Bind::Label("CARD_RANGE_STRUCTURE")]
            ),
{
}

/// What is asked first, and with which values, in a run that does this:
/// whether a stored range shares a card number with this one.
pub proof fn card_range_overlaps_asks_first(
    st: RunView,
    numbers: CardNumberRange,
)
    requires
        st.rest.len() == 0,
    ensures
        card_range_overlaps_spec(st, numbers).0 matches Err(HaltView::Ask(asked))
            && (
                asked matches script::CallView::Sql { sql, binds, .. }
                    && sql == CARD_RANGE_OVERLAP_SQL@
                    && binds == seq![Bind::Text(numbers.end), Bind::Text(numbers.start)]
            ),
{
}

/// What is asked first, and with which values, in a run that does this:
/// stores a draft card range and reads it back.
pub proof fn insert_card_range_asks_first(
    st: RunView,
    card_range: NewCardRange,
    actor_subject: String,
)
    requires
        st.rest.len() == 0,
    ensures
        insert_card_range_spec(st, card_range, actor_subject).0 matches Err(HaltView::Ask(asked))
            && (
                asked matches script::CallView::Sql { sql, binds, .. }
                    && sql == CARD_RANGE_INSERT_SQL@
                    && binds == seq![
                        Bind::Id(card_range.card_range_id),
                        Bind::Text(card_range.numbers.start),
                        Bind::Text(card_range.numbers.end),
                        Bind::Label(card_range.funding_mode.code()),
                        Bind::Label(card_range.withdrawal_limit_authority.code()),
                        calendar_bind_spec(card_range.limit_calendar),
                        Bind::Label("DRAFT"),
                        Bind::Flag(card_range.issuance_enabled),
                        Bind::Text(card_range.cms_operation_mode),
                        Bind::Int(1),
                        Bind::JsonText(card_range.metadata_json),
                        Bind::Text(actor_subject),
                        Bind::Text(actor_subject),
                    ]
            ),
{
}

/// What the database is told, and with which values, where a run succeeds that does this:
/// stores a draft card range and reads it back.
#[verifier::rlimit(60)]
pub proof fn insert_card_range_is_told(
    st: RunView,
    card_range: NewCardRange,
    actor_subject: String,
)
    ensures
        ({
            let (ended, after) = insert_card_range_spec(st, card_range, actor_subject);
            let log = after.log;
            ended is Ok ==> {
                &&& script::ran(
                    log,
                    CARD_RANGE_INSERT_SQL@,
                    seq![
                        Bind::Id(card_range.card_range_id),
                        Bind::Text(card_range.numbers.start),
                        Bind::Text(card_range.numbers.end),
                        Bind::Label(card_range.funding_mode.code()),
                        Bind::Label(card_range.withdrawal_limit_authority.code()),
                        calendar_bind_spec(card_range.limit_calendar),
                        Bind::Label("DRAFT"),
                        Bind::Flag(card_range.issuance_enabled),
                        Bind::Text(card_range.cms_operation_mode),
                        Bind::Int(1),
                        Bind::JsonText(card_range.metadata_json),
                        Bind::Text(actor_subject),
                        Bind::Text(actor_subject),
                    ],
                )
            }
        }),
{
    broadcast use {
        script::runs_on_with_another,
        script::told_where_with_another,
        map_card_range_row_changes_nothing,
    };

}

/// What is asked first, and with which values, in a run that does this:
/// a page of the card ranges that a query selects, oldest first.
pub proof fn list_card_ranges_asks_first(
    st: RunView,
    query: CardRangeListQuery,
)
    requires
        st.rest.len() == 0,
    ensures
        list_card_ranges_spec(st, query).0 matches Err(HaltView::Ask(asked))
            && (
                asked matches script::CallView::Sql { sql, binds, .. }
                    && sql == CARD_RANGE_LIST_SQL@
                    && binds == seq![
                        Bind::OptLabel(status_filter_spec(query.status)),
                        Bind::OptLabel(mode_filter_spec(query.funding_mode)),
                        Bind::OptLabel(authority_filter_spec(query.withdrawal_limit_authority)),
                        Bind::OptTime(cursor_time_spec(query.cursor)),
                        Bind::OptId(cursor_id_spec(query.cursor)),
                        Bind::Int(query.database_fetch_limit as i64),
                    ]
            ),
{
}

/// Each value is read from its own column: the provider of a card range that a row holds.
#[verifier::rlimit(60)]
pub proof fn map_eligibility_row_is_read_by_column(
    st: RunView,
    row: Row,
    card_range_id: Uuid,
)
    ensures
        map_eligibility_row_spec(st, row, card_range_id).0 matches Ok(read) ==> {
            &&& read.card_range_id == card_range_id
            &&& read.provider_id == row.id_at(0, READ@)->Ok_0
            &&& read.status == row.text_at(1, READ@)->Ok_0
        },
{
}

/// What is asked first, and with which values, in a run that does this:
/// the providers of a card range, in the order in which they joined.
pub proof fn list_card_range_providers_asks_first(
    st: RunView,
    card_range_id: Uuid,
)
    requires
        st.rest.len() == 0,
    ensures
        list_card_range_providers_spec(st, card_range_id).0 matches Err(HaltView::Ask(asked))
            && (
                asked matches script::CallView::Sql { sql, binds, .. }
                    && sql == CARD_RANGE_PROVIDERS_SQL@ && binds == seq![Bind::Id(card_range_id)]
            ),
{
}

} // verus!
