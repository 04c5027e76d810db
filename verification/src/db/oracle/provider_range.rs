//! Assignments of providers to card ranges.
use vstd::prelude::*;
use crate::db::oracle::audit;
use crate::db::oracle::binds;
use crate::db::oracle::card_policy;
use crate::db::oracle::card_range;
use crate::db::oracle::consult::{Attachment, AttachmentView, DocumentKind, Rule};
use crate::db::oracle::document;
use crate::db::oracle::document::{Document, EventKeys, Snapshot};
use crate::db::oracle::idempotency;
use crate::db::oracle::idempotency::IdempotencyVerdict;
use crate::db::oracle::provider_fee;
use crate::db::oracle::provider_fee::FeeProfileAttachmentPreparation;
use crate::db::oracle::repository::OracleRepository;
use crate::db::oracle::script;
use crate::db::oracle::script::{Bind, Halt, HaltView, Row, RunView, Session};
use crate::domain::audit::AuditAction;
use crate::domain::card_range::{FundingMode, WithdrawalLimitAuthority};
use crate::domain::command::{HeaderSource, MutationCommandContext};
use crate::domain::copied;
use crate::domain::idempotency::IdempotencyRecord;
use crate::json;
use crate::json::{JsonMemberView, JsonValue, JsonValueView};
use crate::text;
use crate::uuid::Uuid;

verus! {

/// The context of a column that cannot be read.
pub const READ_ROW: &'static str = "failed to read Oracle provider range row";

/// Locks a provider and reads its status.
pub const PROVIDER_STATUS_SQL: &'static str = "SELECT status FROM providers WHERE provider_id=:1 FOR UPDATE";

/// Locks a range and reads what an assignment depends on.
pub const TARGET_RANGE_SQL: &'static str = "SELECT funding_mode,withdrawal_limit_authority,JSON_SERIALIZE(limit_calendar_json RETURNING CLOB),status,issuance_enabled,cms_operation_mode,operational_version,materialized_operational_version,range_control_operation_id FROM card_ranges WHERE card_range_id=:1 FOR UPDATE";

/// Counts the active providers of a range.
pub const ACTIVE_PROVIDERS_SQL: &'static str = "SELECT COUNT(*) FROM card_range_providers WHERE card_range_id=:1 AND status='ACTIVE'";

/// Locks the active assignment of a provider and reads its range.
pub const CURRENT_RANGE_SQL: &'static str = "SELECT card_range_id FROM card_range_providers WHERE provider_id=:1 AND status='ACTIVE' FOR UPDATE";

/// Counts the active policies of a range.
pub const ACTIVE_POLICIES_SQL: &'static str = "SELECT COUNT(*) FROM card_policy_profiles WHERE card_range_id=:1 AND status='ACTIVE'";

/// Locks and reads the draft policy of a range.
pub const DRAFT_POLICY_SQL: &'static str = "SELECT card_policy_profile_id,version,JSON_SERIALIZE(profile_json RETURNING CLOB),publication_operation_id FROM card_policy_profiles WHERE card_range_id=:1 AND status='DRAFT' FOR UPDATE";

/// Suspends an assignment.
pub const SUSPEND_ASSIGNMENT_SQL: &'static str = "UPDATE card_range_providers SET status='SUSPENDED',updated_by_subject=:1,updated_at=SYSTIMESTAMP WHERE provider_id=:2 AND card_range_id=:3 AND status='ACTIVE'";

/// Makes an assignment active.
pub const ASSIGN_SQL: &'static str = "MERGE INTO card_range_providers target USING (SELECT :1 card_range_id,:2 provider_id FROM dual) source ON (target.card_range_id=source.card_range_id AND target.provider_id=source.provider_id) WHEN MATCHED THEN UPDATE SET target.status='ACTIVE',target.updated_by_subject=:3,target.updated_at=SYSTIMESTAMP WHEN NOT MATCHED THEN INSERT (card_range_id,provider_id,status,created_by_subject,updated_by_subject) VALUES (source.card_range_id,source.provider_id,'ACTIVE',:3,:3)";

/// Marks a draft policy as being published.
pub const FREEZE_POLICY_SQL: &'static str = "UPDATE card_policy_profiles SET publication_operation_id=:1,updated_by_subject=:2,updated_at=SYSTIMESTAMP WHERE card_policy_profile_id=:3 AND status='DRAFT' AND publication_operation_id IS NULL";

/// Gives the controls of a range a new version.
pub const ADVANCE_RANGE_SQL: &'static str = "UPDATE card_ranges SET operational_version=:1,range_control_operation_id=:2,updated_by_subject=:3,updated_at=SYSTIMESTAMP WHERE card_range_id=:4";

/// Lists the active providers of a range.
pub const CONTROL_PROVIDERS_SQL: &'static str = "SELECT provider_id FROM card_range_providers WHERE card_range_id=:1 AND status='ACTIVE' ORDER BY provider_id";

/// Stores a range control event.
pub const CONTROL_OUTBOX_SQL: &'static str = "INSERT INTO integration_outbox (outbox_event_id,operation_id,event_type,aggregate_type,aggregate_id,partition_key,payload_json,headers_json) VALUES (:1,:2,'CARD_RANGE_CONTROL_PUBLISH_REQUESTED','CARD_RANGE',:3,:4,:5,:6)";

/// A provider that was assigned to a range, and the operations that publish it.
#[derive(Clone, Copy, Debug, PartialEq, Eq, Structural)]
pub struct ProviderRangeAssignmentResult {
    pub provider_id: Uuid,
    pub card_range_id: Uuid,
    pub range_control_operation_id: Uuid,
    pub policy_operation_id: Option<Uuid>,
    pub fee_operation_id: Option<Uuid>,
}

/// What became of an assignment. A replayed answer is a JSON document.
#[derive(Debug)]
pub enum ProviderRangeAssignmentOutcome {
    Applied(ProviderRangeAssignmentResult),
    Replayed(String),
    ProviderNotFound,
    ProviderNotActive,
    RangeNotFound,
    PolicyMissing,
    FeeProfileMissing,
    SingleProviderOccupied,
    PublicationPending,
    IdempotencyConflict,
    IdempotencyInProgress,
    IdempotencyInvalidState,
}

/// The controls of a range, as they are published. The status and the mode are database values.
#[derive(Debug)]
pub struct RangeControlProjection {
    pub card_range_id: Uuid,
    pub operation_id: Uuid,
    pub version: i64,
    pub range_status: RangeStatusText,
    pub issuance_enabled: bool,
    pub cms_operation_mode: String,
}

impl Clone for RangeControlProjection {
    fn clone(&self) -> (r: Self)
        ensures
            r == *self,
    {
        RangeControlProjection {
            card_range_id: self.card_range_id,
            operation_id: self.operation_id,
            version: self.version,
            range_status: self.range_status.clone(),
            issuance_enabled: self.issuance_enabled,
            cms_operation_mode: self.cms_operation_mode.clone(),
        }
    }
}

/// The status of a range as a database value: the one that is stored, or the suspended one.
#[derive(Debug)]
pub enum RangeStatusText {
    Stored(String),
    Suspended,
}

impl Clone for RangeStatusText {
    fn clone(&self) -> (r: Self)
        ensures
            r == *self,
    {
        match self {
            RangeStatusText::Stored(text) => RangeStatusText::Stored(text.clone()),
            RangeStatusText::Suspended => RangeStatusText::Suspended,
        }
    }
}

impl RangeStatusText {
    /// The database value as plain values.
    pub open spec fn shown(self) -> Seq<char> {
        match self {
            RangeStatusText::Stored(text) => text@,
            RangeStatusText::Suspended => "SUSPENDED"@,
        }
    }

    /// The database value.
    pub fn text(&self) -> (r: String)
        ensures
            r@ == self.shown(),
    {
        match self {
            RangeStatusText::Stored(text) => text.clone(),
            RangeStatusText::Suspended => "SUSPENDED".to_owned(),
        }
    }

    /// The database value as a value for a statement.
    pub open spec fn as_bind(self) -> Bind {
        match self {
            RangeStatusText::Stored(text) => Bind::Text(text),
            RangeStatusText::Suspended => Bind::Label("SUSPENDED"),
        }
    }

    /// The database value as a value for a statement.
    pub fn bind(&self) -> (r: Bind)
        ensures
            r == self.as_bind(),
    {
        match self {
            RangeStatusText::Stored(text) => Bind::Text(text.clone()),
            RangeStatusText::Suspended => Bind::Label("SUSPENDED"),
        }
    }
}

/// A locked range to which a provider is to be assigned. The calendar is a JSON document.
#[derive(Debug)]
pub struct TargetRange {
    pub funding_mode: FundingMode,
    pub authority: WithdrawalLimitAuthority,
    pub calendar_json: Option<String>,
    pub range_status: String,
    pub issuance_enabled: bool,
    pub cms_operation_mode: String,
    pub operational_version: i64,
}

/// The draft policy of a range, as it is stored. The terms are a JSON document.
pub struct DraftPolicy<'a> {
    pub policy_raw: &'a Vec<u8>,
    pub version: i64,
    pub terms: String,
}

/// What a locked range says about an assignment.
pub enum Target {
    Missing,
    PublicationPending,
    Found(TargetRange),
}

/// The version after `version`, which wraps at the greatest number.
pub open spec fn version_after(version: i64) -> i64 {
    if version == i64::MAX {
        i64::MIN
    } else {
        (version + 1) as i64
    }
}

pub fn next_version(version: i64) -> (r: i64)
    ensures
        r == version_after(version),
{
    if version == i64::MAX {
        i64::MIN
    } else {
        version + 1
    }
}

/// The controls of a range are being published: the version that is in force is another one, and
/// the range is not one that was never published.
pub open spec fn controls_are_pending(
    operational: i64,
    materialized: i64,
    has_operation: bool,
) -> bool {
    operational != materialized && !(operational == 1 && materialized == 0 && !has_operation)
}

/// What a stored record means for an assignment.
pub open spec fn assignment_verdict(verdict: IdempotencyVerdict) -> ProviderRangeAssignmentOutcome {
    match verdict {
        IdempotencyVerdict::Conflict => ProviderRangeAssignmentOutcome::IdempotencyConflict,
        IdempotencyVerdict::Replay(snapshot) => ProviderRangeAssignmentOutcome::Replayed(snapshot),
        IdempotencyVerdict::InProgress => ProviderRangeAssignmentOutcome::IdempotencyInProgress,
        IdempotencyVerdict::InvalidState => ProviderRangeAssignmentOutcome::IdempotencyInvalidState,
    }
}

/// What a stored record means for an assignment with this request hash.
pub fn classify_idempotency(
    existing: &IdempotencyRecord,
    request_hash: &String,
) -> (r: ProviderRangeAssignmentOutcome)
    ensures
        r == assignment_verdict(idempotency::idempotency_verdict(*existing, *request_hash)),
{
    match idempotency::judge_idempotency(existing, request_hash) {
        IdempotencyVerdict::Conflict => ProviderRangeAssignmentOutcome::IdempotencyConflict,
        IdempotencyVerdict::Replay(snapshot) => ProviderRangeAssignmentOutcome::Replayed(snapshot),
        IdempotencyVerdict::InProgress => ProviderRangeAssignmentOutcome::IdempotencyInProgress,
        IdempotencyVerdict::InvalidState => ProviderRangeAssignmentOutcome::IdempotencyInvalidState,
    }
}

/// The text that a statement finds for an identifier, where it finds one.
pub open spec fn select_optional_string_spec(
    st: RunView,
    statement: Seq<char>,
    id: Uuid,
) -> (Result<Option<String>, HaltView>, RunView) {
    match script::first_row_spec(
        st,
        statement,
        seq![Bind::Id(id)],
        "t",
        "failed to select provider range fact"@,
        "failed to read provider range fact"@,
    ) { (Err(h), st) => (Err(h), st), (Ok(found), st) =>
    match found {
    None => {
        (Ok(None), st)
    },
    Some(row) =>
    match row.text_at(0, READ_ROW@) { Err(h) => (Err(h), st), Ok(value) =>
    (Ok(Some(value)), st)
    }}}
}

/// The text that a statement finds for an identifier, where it finds one.
pub fn select_optional_string(
    s: &mut Session,
    statement: &str,
    id: Uuid,
) -> (r: Result<Option<String>, Halt>)
    ensures
        (script::seen(r), final(s)@) == select_optional_string_spec(old(s)@, statement@, id),
{
    let found = script::first_row(
        s,
        statement,
        binds::binds1(Bind::Id(id)),
        "t",
        "failed to select provider range fact",
        "failed to read provider range fact",
    )?;
    let row = match found {
        Some(v) => v,
        None => {
            return Ok(None);
        },
    };
    let value = row.text(0, READ_ROW)?;
    Ok(Some(value))
}

/// The identifier that a statement finds for an identifier, where it finds one.
pub open spec fn select_optional_raw_spec(
    st: RunView,
    statement: Seq<char>,
    id: Uuid,
) -> (Result<Option<Uuid>, HaltView>, RunView) {
    match script::first_row_spec(
        st,
        statement,
        seq![Bind::Id(id)],
        "r",
        "failed to select provider range identity"@,
        "failed to read provider range identity"@,
    ) { (Err(h), st) => (Err(h), st), (Ok(found), st) =>
    match found {
    None => {
        (Ok(None), st)
    },
    Some(row) =>
    match row.raw_at(0, READ_ROW@) { Err(h) => (Err(h), st), Ok(raw) =>
    match script::id_of(raw@) { Err(h) => (Err(h), st), Ok(value) =>
    (Ok(Some(value)), st)
    }}}}
}

/// The identifier that a statement finds for an identifier, where it finds one.
pub fn select_optional_raw(
    s: &mut Session,
    statement: &str,
    id: Uuid,
) -> (r: Result<Option<Uuid>, Halt>)
    ensures
        (script::seen(r), final(s)@) == select_optional_raw_spec(old(s)@, statement@, id),
{
    let found = script::first_row(
        s,
        statement,
        binds::binds1(Bind::Id(id)),
        "r",
        "failed to select provider range identity",
        "failed to read provider range identity",
    )?;
    let row = match found {
        Some(v) => v,
        None => {
            return Ok(None);
        },
    };
    let raw = row.raw(0, READ_ROW)?;
    let value = script::to_id(raw)?;
    Ok(Some(value))
}

/// Locks the range to which a provider is to be assigned.
pub open spec fn lock_target_spec(
    st: RunView,
    card_range_id: Uuid,
) -> (Result<Target, HaltView>, RunView) {
    match script::first_row_spec(
        st,
        TARGET_RANGE_SQL@,
        seq![Bind::Id(card_range_id)],
        "ttTtntiiR",
        "failed to lock provider target range"@,
        "failed to read provider target range"@,
    ) { (Err(h), st) => (Err(h), st), (Ok(found), st) =>
    match found {
    None => {
        (Ok(Target::Missing), st)
    },
    Some(row) =>
    match row.text_at(0, READ_ROW@) { Err(h) => (Err(h), st), Ok(mode_text) =>
    match row.text_at(1, READ_ROW@) { Err(h) => (Err(h), st), Ok(authority_text) =>
    match row.opt_text_at(2, READ_ROW@) { Err(h) => (Err(h), st), Ok(calendar_json) =>
    match row.text_at(3, READ_ROW@) { Err(h) => (Err(h), st), Ok(range_status) =>
    match row.small_at(4, READ_ROW@) { Err(h) => (Err(h), st), Ok(issuance) =>
    match row.text_at(5, READ_ROW@) { Err(h) => (Err(h), st), Ok(cms_operation_mode) =>
    match row.int_at(6, READ_ROW@) { Err(h) => (Err(h), st), Ok(operational_version) =>
    match row.int_at(7, READ_ROW@) { Err(h) => (Err(h), st), Ok(materialized_version) =>
    match row.opt_raw_at(8, READ_ROW@) { Err(h) => (Err(h), st), Ok(control_raw) =>
    if controls_are_pending(operational_version, materialized_version, control_raw is Some) {
        (Ok(Target::PublicationPending), st)
    } else {
    match FundingMode::of_code(mode_text@) {
    None => {
        (script::query_fault("unknown card range funding mode"@), st)
    },
    Some(funding_mode) =>
    match WithdrawalLimitAuthority::of_code(authority_text@) {
    None => {
        (script::query_fault("unknown withdrawal authority"@), st)
    },
    Some(authority) =>
    (
        Ok(Target::Found(TargetRange {
            funding_mode,
            authority,
            calendar_json,
            range_status,
            issuance_enabled: issuance != 0,
            cms_operation_mode,
            operational_version,
        })),
        st,
    )
    }}}}}}}}}}}}}}
}

/// Locks the range to which a provider is to be assigned.
pub fn lock_target(s: &mut Session, card_range_id: Uuid) -> (r: Result<Target, Halt>)
    ensures
        (script::seen(r), final(s)@) == lock_target_spec(old(s)@, card_range_id),
{
    let found = script::first_row(
        s,
        TARGET_RANGE_SQL,
        binds::binds1(Bind::Id(card_range_id)),
        "ttTtntiiR",
        "failed to lock provider target range",
        "failed to read provider target range",
    )?;
    let row = match found {
        Some(v) => v,
        None => {
            return Ok(Target::Missing);
        },
    };
    let mode_text = row.text(0, READ_ROW)?;
    let authority_text = row.text(1, READ_ROW)?;
    let calendar_json = row.opt_text(2, READ_ROW)?;
    let range_status = row.text(3, READ_ROW)?;
    let issuance: i64 = row.small(4, READ_ROW)?;
    let cms_operation_mode = row.text(5, READ_ROW)?;
    let operational_version: i64 = row.number(6, READ_ROW)?;
    let materialized_version: i64 = row.number(7, READ_ROW)?;
    let control_raw = row.opt_raw(8, READ_ROW)?;
    if operational_version != materialized_version
        && !(operational_version == 1 && materialized_version == 0 && control_raw.is_none()) {
        return Ok(Target::PublicationPending);
    }
    let funding_mode = match FundingMode::from_db_value(mode_text.as_str()) {
        Some(v) => v,
        None => {
            return Err(script::fail_query("unknown card range funding mode"));
        },
    };
    let authority = match WithdrawalLimitAuthority::from_db_value(authority_text.as_str()) {
        Some(v) => v,
        None => {
            return Err(script::fail_query("unknown withdrawal authority"));
        },
    };
    Ok(Target::Found(TargetRange {
        funding_mode,
        authority,
        calendar_json,
        range_status,
        issuance_enabled: issuance != 0,
        cms_operation_mode,
        operational_version,
    }))
}

impl RangeControlProjection {
    /// What their publication says, with the providers of the range.
    pub open spec fn members(self, providers: Seq<Uuid>) -> Seq<JsonMemberView> {
        document::range_control_members(
            self.card_range_id,
            JsonValueView::Text(self.range_status.shown()),
            self.issuance_enabled,
            JsonValueView::Text(self.cms_operation_mode@),
            self.version,
            providers,
        )
    }
}

/// What the publication of the controls of a range says, as they are stored.
pub fn projection_text(projection: &RangeControlProjection, providers: &Vec<Uuid>) -> (r: String)
    ensures
        r@ == json::json_object_text(projection.members(providers@)),
{
    document::range_control_text(
        projection.card_range_id,
        JsonValue::Text(projection.range_status.text()),
        projection.issuance_enabled,
        JsonValue::Text(projection.cms_operation_mode.clone()),
        projection.version,
        providers,
    )
}

/// The provider that a row names.
pub open spec fn map_provider_id_spec(row: Row) -> Result<Uuid, HaltView> {
    match row.raw_at(0, READ_ROW@) { Err(h) => Err(h), Ok(provider_raw) =>
    script::id_of(provider_raw@)
    }
}

/// The provider that a row names.
pub fn map_provider_id(row: &Row) -> (r: Result<Uuid, Halt>)
    ensures
        script::seen(r) == map_provider_id_spec(*row),
{
    let provider_raw = row.raw(0, READ_ROW)?;
    script::to_id(provider_raw)
}

/// The providers that rows name, in order.
pub open spec fn map_provider_ids_spec(
    rows: Seq<Row>,
    i: nat,
    done: Seq<Uuid>,
) -> Result<Seq<Uuid>, HaltView>
    decreases rows.len() - i,
{
    if i >= rows.len() {
        Ok(done)
    } else {
        match map_provider_id_spec(rows[i as int]) {
            Err(h) => Err(h), Ok(item) => map_provider_ids_spec(rows, i + 1, done.push(item))
        }
    }
}

/// The providers that rows name, in order.
pub fn map_provider_ids(rows: &Vec<Row>) -> (r: Result<Vec<Uuid>, Halt>)
    ensures
        script::seen_view(r) == map_provider_ids_spec(rows@, 0, Seq::empty()),
{
    let mut done: Vec<Uuid> = Vec::new();
    let mut i: usize = 0;
    assert(done@ =~= Seq::empty());
    while i < rows.len()
        invariant
            i <= rows@.len(),
            map_provider_ids_spec(rows@, 0, Seq::empty()) == map_provider_ids_spec(
                rows@,
                i as nat,
                done@,
            ),
        decreases rows@.len() - i,
    {
        let item = map_provider_id(&rows[i])?;
        done.push(item);
        i = i + 1;
    }
    Ok(done)
}

/// Each is that of its own row, and they come in the order of the rows.
pub proof fn map_provider_ids_go_in_turn(rows: Seq<Row>, i: nat, done: Seq<Uuid>)
    requires
        i <= rows.len(),
    ensures
        map_provider_ids_spec(rows, i, done) matches Ok(all) ==> {
            &&& all.len() == done.len() + (rows.len() - i)
            &&& all.take(done.len() as int) == done
            &&& forall|k: int| i <= k < rows.len() ==> (#[trigger] rows[k], map_provider_id_spec(rows[k])) == (
                rows[k],
                Ok::<Uuid, HaltView>(all[done.len() + k - i]),
            )
        },
    decreases rows.len() - i,
{
    if i < rows.len() {
        if let Ok(item) = map_provider_id_spec(rows[i as int]) {
            map_provider_ids_go_in_turn(rows, i + 1, done.push(item));
            if let Ok(all) = map_provider_ids_spec(rows, i, done) {
                assert(
                    all.take(done.len() as int) =~= all.take(
                        done.len() as int + 1,
                    ).take(done.len() as int)
                );
                assert(done.push(item).take(done.len() as int) =~= done);
                assert(
                    all[done.len() as int] == all.take(done.len() as int + 1)[done.len() as int]
                );
            }
        }
    } else {
        assert(done.take(done.len() as int) =~= done);
    }
}

/// Stores the event that publishes the controls of a range.
pub open spec fn insert_range_control_outbox_spec(
    st: RunView,
    projection: RangeControlProjection,
    headers_of: HeaderSource,
) -> (Result<(), HaltView>, RunView) {
    match script::rows_spec(
        st,
        CONTROL_PROVIDERS_SQL@,
        seq![Bind::Id(projection.card_range_id)],
        "r",
        "failed to list range control providers"@,
    ) { (Err(h), st) => (Err(h), st), (Ok(found), st) =>
    match map_provider_ids_spec(
        found.rows@,
        0,
        Seq::empty(),
    ) { Err(h) => (Err(h), st), Ok(providers) =>
    if let Some(cause) = found.failure {
        (script::failed("failed to read range control provider"@, cause@), st)
    } else {
    match script::fresh_id_spec(st) { (Err(h), st) => (Err(h), st), (Ok(event_id), st) =>
    { let keys = EventKeys {
        event_id,
        event_type: "CARD_RANGE_CONTROL_PUBLISH_REQUESTED",
        aggregate_type: "CARD_RANGE",
        aggregate_id: projection.card_range_id,
        operation_id: projection.operation_id,
    };
    match script::encode_with_spec(
        st,
        Rule::RangeControlProjectionEvent(keys, projection),
        AttachmentView::Providers(providers),
        "failed to serialize range control event"@,
    ) { (Err(h), st) => (Err(h), st), (Ok(payload), st) =>
    match script::encode_spec(
        st,
        Rule::EventHeaders(headers_of),
        "failed to serialize range control headers"@,
    ) { (Err(h), st) => (Err(h), st), (Ok(headers), st) =>
    match script::execute_spec(
        st,
        CONTROL_OUTBOX_SQL@,
        seq![
            Bind::Id(event_id),
            Bind::Id(projection.operation_id),
            Bind::Id(projection.card_range_id),
            Bind::IdText(projection.card_range_id),
            Bind::Text(payload),
            Bind::Text(headers),
        ],
        "failed to insert range control outbox event"@,
    ) { (Err(h), st) => (Err(h), st), (Ok(_), st) =>
    (Ok(()), st)
    }}}}}}}}
}

/// Stores the event that publishes the controls of a range.
pub fn insert_range_control_outbox(
    s: &mut Session,
    projection: &RangeControlProjection,
    headers_of: &HeaderSource,
) -> (r: Result<(), Halt>)
    ensures
        (script::seen(r), final(s)@) == insert_range_control_outbox_spec(
            old(s)@,
            *projection,
            *headers_of,
        ),
{
    let found = script::rows(
        s,
        CONTROL_PROVIDERS_SQL,
        binds::binds1(Bind::Id(projection.card_range_id)),
        "r",
        "failed to list range control providers",
    )?;
    let providers = map_provider_ids(&found.rows)?;
    if let Some(cause) = &found.failure {
        return Err(script::fail_because("failed to read range control provider", cause.as_str()));
    }
    let event_id = script::fresh_id(s)?;
    let keys = EventKeys {
        event_id,
        event_type: "CARD_RANGE_CONTROL_PUBLISH_REQUESTED",
        aggregate_type: "CARD_RANGE",
        aggregate_id: projection.card_range_id,
        operation_id: projection.operation_id,
    };
    let payload = script::encode_with(
        s,
        Rule::RangeControlProjectionEvent(keys, projection.clone()),
        Attachment::Providers(providers),
        "failed to serialize range control event",
    )?;
    let headers = script::encode(
        s,
        Rule::EventHeaders(headers_of.clone()),
        "failed to serialize range control headers",
    )?;
    script::execute(
        s,
        CONTROL_OUTBOX_SQL,
        binds::binds6(
            Bind::Id(event_id),
            Bind::Id(projection.operation_id),
            Bind::Id(projection.card_range_id),
            Bind::IdText(projection.card_range_id),
            Bind::Text(payload.clone()),
            Bind::Text(headers.clone()),
        ),
        "failed to insert range control outbox event",
    )?;
    Ok(())
}

/// Suspends the assignment of a provider to another range, where there is one.
pub open spec fn suspend_prior_spec(
    st: RunView,
    context: MutationCommandContext,
    provider_id: Uuid,
    card_range_id: Uuid,
    current_range: Option<Uuid>,
) -> (Result<(), HaltView>, RunView) {
    match current_range {
    None => {
        (Ok(()), st)
    },
    Some(current) =>
    if current == card_range_id {
        (Ok(()), st)
    } else {
    match script::execute_spec(
        st,
        SUSPEND_ASSIGNMENT_SQL@,
        seq![Bind::Text(context.actor.subject), Bind::Id(provider_id), Bind::Id(current)],
        "failed to preserve prior provider range assignment"@,
    ) { (Err(h), st) => (Err(h), st), (Ok(_), st) =>
    (Ok(()), st)
    }}}
}

/// Suspends the assignment of a provider to another range, where there is one.
pub fn suspend_prior(
    s: &mut Session,
    context: &MutationCommandContext,
    provider_id: Uuid,
    card_range_id: Uuid,
    current_range: Option<Uuid>,
) -> (r: Result<(), Halt>)
    ensures
        (script::seen(r), final(s)@) == suspend_prior_spec(
            old(s)@,
            *context,
            provider_id,
            card_range_id,
            current_range,
        ),
{
    let current = match current_range {
        Some(v) => v,
        None => {
            return Ok(());
        },
    };
    if current == card_range_id {
        return Ok(());
    }
    script::execute(
        s,
        SUSPEND_ASSIGNMENT_SQL,
        binds::binds3(
            Bind::Text(context.actor.subject.clone()),
            Bind::Id(provider_id),
            Bind::Id(current),
        ),
        "failed to preserve prior provider range assignment",
    )?;
    Ok(())
}

/// Publishes the draft policy of a range, where there is one.
pub open spec fn publish_draft_spec(
    st: RunView,
    context: MutationCommandContext,
    card_range_id: Uuid,
    target: TargetRange,
    draft: Option<DraftPolicy>,
) -> (Result<Option<Uuid>, HaltView>, RunView) {
    match draft {
    None => {
        (Ok(None), st)
    },
    Some(policy) =>
    match script::fresh_id_spec(st) { (Err(h), st) => (Err(h), st), (Ok(operation_id), st) =>
    match script::id_of(policy.policy_raw@) { Err(h) => (Err(h), st), Ok(policy_id) =>
    match script::verdict_spec(
        st,
        Rule::Document(DocumentKind::CardPolicyTerms, policy.terms),
    ) { (Err(h), st) => (Err(h), st), (Ok(fault), st) =>
    if let Some(cause) = fault {
        (script::failed("invalid draft policy JSON"@, cause@), st)
    } else {
    match card_range::opt_calendar_of(
        target.calendar_json,
    ) { Err(h) => (Err(h), st), Ok(calendar) =>
    match card_policy::insert_policy_outbox_spec(
        st,
        operation_id,
        card_range_id,
        policy_id,
        policy.version,
        target.funding_mode,
        target.authority,
        calendar,
        policy.terms,
        context.headers(),
    ) { (Err(h), st) => (Err(h), st), (Ok(_), st) =>
    match script::execute_spec(
        st,
        FREEZE_POLICY_SQL@,
        seq![Bind::Id(operation_id), Bind::Text(context.actor.subject), Bind::Id(policy_id)],
        "failed to freeze range policy publication"@,
    ) { (Err(h), st) => (Err(h), st), (Ok(_), st) =>
    (Ok(Some(operation_id)), st)
    }}}}}}}}
}

/// Publishes the draft policy of a range, where there is one.
pub fn publish_draft(
    s: &mut Session,
    context: &MutationCommandContext,
    card_range_id: Uuid,
    target: &TargetRange,
    draft: Option<DraftPolicy>,
) -> (r: Result<Option<Uuid>, Halt>)
    ensures
        (script::seen(r), final(s)@) == publish_draft_spec(
            old(s)@,
            *context,
            card_range_id,
            *target,
            draft,
        ),
{
    let policy = match draft {
        Some(v) => v,
        None => {
            return Ok(None);
        },
    };
    let operation_id = script::fresh_id(s)?;
    let policy_id = script::to_id(policy.policy_raw)?;
    let fault = script::verdict(
        s,
        Rule::Document(DocumentKind::CardPolicyTerms, policy.terms.clone()),
    )?;
    if let Some(cause) = &fault {
        return Err(script::fail_because("invalid draft policy JSON", cause.as_str()));
    }
    let calendar = card_range::optional_calendar(&target.calendar_json)?;
    card_policy::insert_policy_outbox(
        s,
        operation_id,
        card_range_id,
        policy_id,
        policy.version,
        target.funding_mode,
        target.authority,
        &calendar,
        &policy.terms,
        &context.event_headers(),
    )?;
    script::execute(
        s,
        FREEZE_POLICY_SQL,
        binds::binds3(
            Bind::Id(operation_id),
            Bind::Text(context.actor.subject.clone()),
            Bind::Id(policy_id),
        ),
        "failed to freeze range policy publication",
    )?;
    Ok(Some(operation_id))
}

/// The audit evidence of the range that a provider was assigned to before.
pub open spec fn prior_assignment(current_range: Option<Uuid>) -> Option<Snapshot> {
    match current_range {
        Some(current) => Some(Snapshot::Document(Document::PriorAssignment(current))),
        None => None,
    }
}

fn prior_evidence(current_range: Option<Uuid>) -> (r: Option<Snapshot>)
    ensures
        r == prior_assignment(current_range),
{
    match current_range {
        Some(current) => Some(Snapshot::Document(Document::PriorAssignment(current))),
        None => None,
    }
}

/// Assigns a provider to a locked range and publishes what changes.
#[verifier::opaque]
pub open spec fn attach_spec(
    st: RunView,
    context: MutationCommandContext,
    provider_id: Uuid,
    card_range_id: Uuid,
    reason: String,
    target: TargetRange,
    current_range: Option<Uuid>,
    draft: Option<DraftPolicy>,
    fee_operation_id: Option<Uuid>,
) -> (Result<ProviderRangeAssignmentOutcome, HaltView>, RunView) {
    match idempotency::insert_idempotency_record_spec(
        st,
        context.record,
    ) { (Err(h), st) => (Err(h), st), (Ok(_), st) =>
    match suspend_prior_spec(
        st,
        context,
        provider_id,
        card_range_id,
        current_range,
    ) { (Err(h), st) => (Err(h), st), (Ok(_), st) =>
    match script::execute_spec(
        st,
        ASSIGN_SQL@,
        seq![Bind::Id(card_range_id), Bind::Id(provider_id), Bind::Text(context.actor.subject)],
        "failed to assign provider to range"@,
    ) { (Err(h), st) => (Err(h), st), (Ok(_), st) =>
    match publish_draft_spec(
        st,
        context,
        card_range_id,
        target,
        draft,
    ) { (Err(h), st) => (Err(h), st), (Ok(policy_operation_id), st) =>
    match script::fresh_id_spec(st) { (Err(h), st) => (Err(h), st), (Ok(control_id), st) =>
    { let version = version_after(target.operational_version);
    match script::execute_spec(
        st,
        ADVANCE_RANGE_SQL@,
        seq![
            Bind::Int(version),
            Bind::Id(control_id),
            Bind::Text(context.actor.subject),
            Bind::Id(card_range_id),
        ],
        "failed to advance range control version"@,
    ) { (Err(h), st) => (Err(h), st), (Ok(_), st) =>
    match insert_range_control_outbox_spec(
        st,
        RangeControlProjection {
            card_range_id,
            operation_id: control_id,
            version,
            range_status: RangeStatusText::Stored(target.range_status),
            issuance_enabled: target.issuance_enabled,
            cms_operation_mode: target.cms_operation_mode,
        },
        context.headers(),
    ) { (Err(h), st) => (Err(h), st), (Ok(_), st) =>
    match audit::insert_audit_log_spec(
        st,
        "CARD_RANGE_PROVIDER",
        provider_id,
        AuditAction::StateTransition,
        Bind::Text(reason),
        prior_assignment(current_range),
        Some(Snapshot::Document(Document::RangeAssignment(
            provider_id,
            card_range_id,
            control_id,
            policy_operation_id,
            fee_operation_id,
        ))),
        audit::trusted_origin_spec(context.audit),
    ) { (Err(h), st) => (Err(h), st), (Ok(_), st) =>
    match idempotency::complete_idempotency_record_spec(
        st,
        context.operation_type,
        context.idempotency_key,
        "provider",
        provider_id,
        Snapshot::Document(Document::RangeAssignment(
            provider_id,
            card_range_id,
            control_id,
            policy_operation_id,
            fee_operation_id,
        )),
    ) { (Err(h), st) => (Err(h), st), (Ok(_), st) =>
    (
        Ok(ProviderRangeAssignmentOutcome::Applied(ProviderRangeAssignmentResult {
            provider_id,
            card_range_id,
            range_control_operation_id: control_id,
            policy_operation_id,
            fee_operation_id,
        })),
        st,
    )
    }}}}}}}}}}
}

/// Assigns a provider to a locked range and publishes what changes.
pub fn attach(
    s: &mut Session,
    context: &MutationCommandContext,
    provider_id: Uuid,
    card_range_id: Uuid,
    reason: &String,
    target: &TargetRange,
    current_range: Option<Uuid>,
    draft: Option<DraftPolicy>,
    fee_operation_id: Option<Uuid>,
) -> (r: Result<ProviderRangeAssignmentOutcome, Halt>)
    ensures
        (script::seen(r), final(s)@) == attach_spec(
            old(s)@,
            *context,
            provider_id,
            card_range_id,
            *reason,
            *target,
            current_range,
            draft,
            fee_operation_id,
        ),
{
    proof {
        reveal(attach_spec);
    }
    idempotency::insert_idempotency_record(s, &context.record)?;
    suspend_prior(s, context, provider_id, card_range_id, current_range)?;
    script::execute(
        s,
        ASSIGN_SQL,
        binds::binds3(
            Bind::Id(card_range_id),
            Bind::Id(provider_id),
            Bind::Text(context.actor.subject.clone()),
        ),
        "failed to assign provider to range",
    )?;
    let policy_operation_id = publish_draft(s, context, card_range_id, target, draft)?;
    let control_id = script::fresh_id(s)?;
    let version: i64 = next_version(target.operational_version);
    script::execute(
        s,
        ADVANCE_RANGE_SQL,
        binds::binds4(
            Bind::Int(version),
            Bind::Id(control_id),
            Bind::Text(context.actor.subject.clone()),
            Bind::Id(card_range_id),
        ),
        "failed to advance range control version",
    )?;
    insert_range_control_outbox(
        s,
        &RangeControlProjection {
            card_range_id,
            operation_id: control_id,
            version,
            range_status: RangeStatusText::Stored(target.range_status.clone()),
            issuance_enabled: target.issuance_enabled,
            cms_operation_mode: target.cms_operation_mode.clone(),
        },
        &context.event_headers(),
    )?;
    audit::insert_audit_log(
        s,
        "CARD_RANGE_PROVIDER",
        provider_id,
        AuditAction::StateTransition,
        Bind::Text(reason.clone()),
        prior_evidence(current_range),
        Some(Snapshot::Document(Document::RangeAssignment(
            provider_id,
            card_range_id,
            control_id,
            policy_operation_id,
            fee_operation_id,
        ))),
        audit::trusted_origin(&context.audit),
    )?;
    idempotency::complete_idempotency_record(
        s,
        &context.operation_type,
        &context.idempotency_key,
        "provider",
        provider_id,
        Snapshot::Document(Document::RangeAssignment(
            provider_id,
            card_range_id,
            control_id,
            policy_operation_id,
            fee_operation_id,
        )),
    )?;
    Ok(ProviderRangeAssignmentOutcome::Applied(ProviderRangeAssignmentResult {
        provider_id,
        card_range_id,
        range_control_operation_id: control_id,
        policy_operation_id,
        fee_operation_id,
    }))
}

/// Assigns a provider to a locked range, where its fees allow it.
pub open spec fn attach_with_fees_spec(
    st: RunView,
    context: MutationCommandContext,
    provider_id: Uuid,
    card_range_id: Uuid,
    reason: String,
    target: TargetRange,
    current_range: Option<Uuid>,
    draft: Option<DraftPolicy>,
) -> (Result<ProviderRangeAssignmentOutcome, HaltView>, RunView) {
    match provider_fee::prepare_fee_profile_for_attachment_spec(
        st,
        context,
        provider_id,
        reason,
    ) { (Err(h), st) => (Err(h), st), (Ok(fees), st) =>
    match fees {
        FeeProfileAttachmentPreparation::Ready { operation_id } => {
            attach_spec(
                st,
                context,
                provider_id,
                card_range_id,
                reason,
                target,
                current_range,
                draft,
                operation_id,
            )
        },
        FeeProfileAttachmentPreparation::Missing => {
            (Ok(ProviderRangeAssignmentOutcome::FeeProfileMissing), st)
        },
        FeeProfileAttachmentPreparation::PublicationPending => {
            (Ok(ProviderRangeAssignmentOutcome::PublicationPending), st)
        },
    }
    }
}

/// Assigns a provider to a locked range, where its fees allow it.
pub fn attach_with_fees(
    s: &mut Session,
    context: &MutationCommandContext,
    provider_id: Uuid,
    card_range_id: Uuid,
    reason: &String,
    target: &TargetRange,
    current_range: Option<Uuid>,
    draft: Option<DraftPolicy>,
) -> (r: Result<ProviderRangeAssignmentOutcome, Halt>)
    ensures
        (script::seen(r), final(s)@) == attach_with_fees_spec(
            old(s)@,
            *context,
            provider_id,
            card_range_id,
            *reason,
            *target,
            current_range,
            draft,
        ),
{
    let fees = provider_fee::prepare_fee_profile_for_attachment(s, context, provider_id, reason)?;
    match fees {
        FeeProfileAttachmentPreparation::Ready { operation_id } => {
            return attach(
                s,
                context,
                provider_id,
                card_range_id,
                reason,
                target,
                current_range,
                draft,
                operation_id,
            );
        },
        FeeProfileAttachmentPreparation::Missing => {
            return Ok(ProviderRangeAssignmentOutcome::FeeProfileMissing);
        },
        FeeProfileAttachmentPreparation::PublicationPending => {
            return Ok(ProviderRangeAssignmentOutcome::PublicationPending);
        },
    }
}

fn is_current(current_range: Option<Uuid>, card_range_id: Uuid) -> (r: bool)
    ensures
        r == (current_range == Some(card_range_id)),
{
    match current_range {
        Some(current) => current == card_range_id,
        None => false,
    }
}

/// Assigns an active provider to a locked range, or tells why not.
pub open spec fn assign_to_target_spec(
    st: RunView,
    context: MutationCommandContext,
    provider_id: Uuid,
    card_range_id: Uuid,
    reason: String,
    target: TargetRange,
) -> (Result<ProviderRangeAssignmentOutcome, HaltView>, RunView) {
    match script::one_int_spec(
        st,
        ACTIVE_PROVIDERS_SQL@,
        seq![Bind::Id(card_range_id)],
        "failed to count target range providers"@,
    ) { (Err(h), st) => (Err(h), st), (Ok(active_count), st) =>
    match select_optional_raw_spec(
        st,
        CURRENT_RANGE_SQL@,
        provider_id,
    ) { (Err(h), st) => (Err(h), st), (Ok(current_range), st) =>
    if target.funding_mode == FundingMode::SingleProvider && active_count > 0
        && current_range != Some(card_range_id) {
        (Ok(ProviderRangeAssignmentOutcome::SingleProviderOccupied), st)
    } else {
    match script::one_int_spec(
        st,
        ACTIVE_POLICIES_SQL@,
        seq![Bind::Id(card_range_id)],
        "failed to check active range policy"@,
    ) { (Err(h), st) => (Err(h), st), (Ok(policies), st) =>
    if policies != 0 {
        attach_with_fees_spec(
            st,
            context,
            provider_id,
            card_range_id,
            reason,
            target,
            current_range,
            None,
        )
    } else {
    match script::first_row_spec(
        st,
        DRAFT_POLICY_SQL@,
        seq![Bind::Id(card_range_id)],
        "ritR",
        "failed to lock range policy draft"@,
        "failed to read range policy draft"@,
    ) { (Err(h), st) => (Err(h), st), (Ok(found), st) =>
    match found {
    None => {
        (Ok(ProviderRangeAssignmentOutcome::PolicyMissing), st)
    },
    Some(row) =>
    match row.opt_raw_at(3, READ_ROW@) { Err(h) => (Err(h), st), Ok(operation) =>
    if operation is Some {
        (Ok(ProviderRangeAssignmentOutcome::PublicationPending), st)
    } else {
    match row.raw_at(0, READ_ROW@) { Err(h) => (Err(h), st), Ok(policy_raw) =>
    match row.int_at(1, READ_ROW@) { Err(h) => (Err(h), st), Ok(version) =>
    match row.text_at(2, READ_ROW@) { Err(h) => (Err(h), st), Ok(terms) =>
    attach_with_fees_spec(
        st,
        context,
        provider_id,
        card_range_id,
        reason,
        target,
        current_range,
        Some(DraftPolicy { policy_raw: &policy_raw, version, terms }),
    )
    }}}}}}}}}}}}
}

/// Assigns an active provider to a locked range, or tells why not.
pub fn assign_to_target(
    s: &mut Session,
    context: &MutationCommandContext,
    provider_id: Uuid,
    card_range_id: Uuid,
    reason: &String,
    target: &TargetRange,
) -> (r: Result<ProviderRangeAssignmentOutcome, Halt>)
    ensures
        (script::seen(r), final(s)@) == assign_to_target_spec(
            old(s)@,
            *context,
            provider_id,
            card_range_id,
            *reason,
            *target,
        ),
{
    let active_count = script::one_int(
        s,
        ACTIVE_PROVIDERS_SQL,
        binds::binds1(Bind::Id(card_range_id)),
        "failed to count target range providers",
    )?;
    let current_range = select_optional_raw(s, CURRENT_RANGE_SQL, provider_id)?;
    if target.funding_mode == FundingMode::SingleProvider && active_count > 0
        && !is_current(current_range, card_range_id) {
        return Ok(ProviderRangeAssignmentOutcome::SingleProviderOccupied);
    }
    let policies = script::one_int(
        s,
        ACTIVE_POLICIES_SQL,
        binds::binds1(Bind::Id(card_range_id)),
        "failed to check active range policy",
    )?;
    if policies != 0 {
        return attach_with_fees(
            s,
            context,
            provider_id,
            card_range_id,
            reason,
            target,
            current_range,
            None,
        );
    }
    let found = script::first_row(
        s,
        DRAFT_POLICY_SQL,
        binds::binds1(Bind::Id(card_range_id)),
        "ritR",
        "failed to lock range policy draft",
        "failed to read range policy draft",
    )?;
    let row = match found {
        Some(v) => v,
        None => {
            return Ok(ProviderRangeAssignmentOutcome::PolicyMissing);
        },
    };
    let operation = row.opt_raw(3, READ_ROW)?;
    if operation.is_some() {
        return Ok(ProviderRangeAssignmentOutcome::PublicationPending);
    }
    let policy_raw = row.raw(0, READ_ROW)?;
    let version: i64 = row.number(1, READ_ROW)?;
    let terms = row.text(2, READ_ROW)?;
    attach_with_fees(
        s,
        context,
        provider_id,
        card_range_id,
        reason,
        target,
        current_range,
        Some(DraftPolicy { policy_raw, version, terms }),
    )
}

/// Assigns a provider to a card range. A provider is active in one range at a time, and a range
/// that one provider funds takes no second one. Under one idempotency key this happens once.
pub open spec fn assign_provider_range_atomic_spec(
    st: RunView,
    context: MutationCommandContext,
    provider_id: Uuid,
    card_range_id: Uuid,
    reason: String,
) -> (Result<ProviderRangeAssignmentOutcome, HaltView>, RunView) {
    match idempotency::fetch_idempotency_record_spec(
        st,
        context.operation_type,
        context.idempotency_key,
    ) { (Err(h), st) => (Err(h), st), (Ok(existing), st) =>
    if let Some(record) = existing {
        (Ok(assignment_verdict(idempotency::idempotency_verdict(record, context.request_hash))), st)
    } else {
    match select_optional_string_spec(
        st,
        PROVIDER_STATUS_SQL@,
        provider_id,
    ) { (Err(h), st) => (Err(h), st), (Ok(status), st) =>
    match status {
    None => {
        (Ok(ProviderRangeAssignmentOutcome::ProviderNotFound), st)
    },
    Some(provider_status) =>
    if provider_status@ != "ACTIVE"@ {
        (Ok(ProviderRangeAssignmentOutcome::ProviderNotActive), st)
    } else {
    match lock_target_spec(st, card_range_id) { (Err(h), st) => (Err(h), st), (Ok(target), st) =>
    match target {
        Target::Missing => {
            (Ok(ProviderRangeAssignmentOutcome::RangeNotFound), st)
        },
        Target::PublicationPending => {
            (Ok(ProviderRangeAssignmentOutcome::PublicationPending), st)
        },
        Target::Found(range) => {
            assign_to_target_spec(st, context, provider_id, card_range_id, reason, range)
        },
    }
    }}}}}}
}

impl OracleRepository {
    /// Assigns a provider to a card range. A provider is active in one range at a time, and a range
    /// that one provider funds takes no second one. Under one idempotency key this happens once.
    pub fn assign_provider_range_atomic(
        s: &mut Session,
        context: &MutationCommandContext,
        provider_id: Uuid,
        card_range_id: Uuid,
        reason: &String,
    ) -> (r: Result<ProviderRangeAssignmentOutcome, Halt>)
        ensures
            (script::seen(r), final(s)@) == assign_provider_range_atomic_spec(
                old(s)@,
                *context,
                provider_id,
                card_range_id,
                *reason,
            ),
    {
        let existing = idempotency::fetch_idempotency_record(
            s,
            &context.operation_type,
            &context.idempotency_key,
        )?;
        if let Some(record) = &existing {
            return Ok(classify_idempotency(record, &context.request_hash));
        }
        let status = select_optional_string(s, PROVIDER_STATUS_SQL, provider_id)?;
        let provider_status = match &status {
            Some(v) => v,
            None => {
                return Ok(ProviderRangeAssignmentOutcome::ProviderNotFound);
            },
        };
        if !text::same_text(provider_status.as_str(), "ACTIVE") {
            return Ok(ProviderRangeAssignmentOutcome::ProviderNotActive);
        }
        let target = lock_target(s, card_range_id)?;
        match &target {
            Target::Missing => {
                return Ok(ProviderRangeAssignmentOutcome::RangeNotFound);
            },
            Target::PublicationPending => {
                return Ok(ProviderRangeAssignmentOutcome::PublicationPending);
            },
            Target::Found(range) => {
                return assign_to_target(s, context, provider_id, card_range_id, reason, range);
            },
        }
    }
}

/// Under one idempotency key an assignment is asked for once: where a record is stored, the command
/// is answered from it, and looking it up is all that is done.
pub proof fn assignment_is_done_once(
    st: RunView,
    context: MutationCommandContext,
    provider_id: Uuid,
    card_range_id: Uuid,
    reason: String,
    record: IdempotencyRecord,
)
    requires
        idempotency::fetch_idempotency_record_spec(
            st,
            context.operation_type,
            context.idempotency_key,
        ).0 == Ok::<Option<IdempotencyRecord>, HaltView>(Some(record)),
    ensures
        assign_provider_range_atomic_spec(st, context, provider_id, card_range_id, reason) == (
            Ok::<_, HaltView>(
                assignment_verdict(idempotency::idempotency_verdict(record, context.request_hash)),
            ),
            idempotency::fetch_idempotency_record_spec(
                st,
                context.operation_type,
                context.idempotency_key,
            ).1,
        ),
        script::writes(
            assign_provider_range_atomic_spec(
                st,
                context,
                provider_id,
                card_range_id,
                reason,
            ).1.log,
        ) == script::writes(st.log),
{
    broadcast use script::writes_with_another;

}

/// What is carried out of an assignment stores audit evidence and completes the command's record
/// last.
#[verifier::rlimit(60)]
pub broadcast proof fn attach_leaves_evidence(
    st: RunView,
    context: MutationCommandContext,
    provider_id: Uuid,
    card_range_id: Uuid,
    reason: String,
    target: TargetRange,
    current_range: Option<Uuid>,
    draft: Option<DraftPolicy>,
    fee_operation_id: Option<Uuid>,
)
    ensures
        (
            #[trigger] attach_spec(st, context, provider_id, card_range_id, reason, target, current_range, draft, fee_operation_id)
        ).0 matches Ok(outcome) ==> {
            let log = attach_spec(
                st,
                context,
                provider_id,
                card_range_id,
                reason,
                target,
                current_range,
                draft,
                fee_operation_id,
            ).1.log;
            &&& outcome is Applied
            &&& script::runs(log, audit::AUDIT_INSERT_SQL@) > 0
            &&& script::is_run_of(log.last(), idempotency::IDEMPOTENCY_COMPLETE_SQL@)
        },
{
    broadcast use script::runs_with_another;

    reveal(attach_spec);
}

/// Where an assignment is carried out in a run of its own, audit evidence is stored within it, and
/// the command's record is completed last.
#[verifier::rlimit(40)]
pub proof fn assignment_leaves_evidence(
    st: RunView,
    context: MutationCommandContext,
    provider_id: Uuid,
    card_range_id: Uuid,
    reason: String,
)
    requires
        st.log.len() == 0,
    ensures
        ({
            let (result, after) = assign_provider_range_atomic_spec(
                st,
                context,
                provider_id,
                card_range_id,
                reason,
            );
            result matches Ok(outcome) ==> outcome is Applied ==> script::runs(
                after.log,
                audit::AUDIT_INSERT_SQL@,
            ) > 0 && script::is_run_of(after.log.last(), idempotency::IDEMPOTENCY_COMPLETE_SQL@)
        }),
{
    broadcast use attach_leaves_evidence;

}

/// A command that is recorded is answered by its record: under another request it conflicts; under
/// the same one it gets the answer that is stored, or is told that it is under way, or that the
/// record is not in order.
pub proof fn assignment_verdict_goes_by_the_record(
    record: crate::domain::idempotency::IdempotencyRecord,
    request_hash: String,
)
    ensures
        ({
            let answered = assignment_verdict(
                idempotency::idempotency_verdict(record, request_hash),
            );
            let same = record.request_hash@ == request_hash@;
            &&& answered is IdempotencyConflict <==> !same
            &&& answered is IdempotencyInProgress <==> same && record.status is InProgress
            &&& answered matches ProviderRangeAssignmentOutcome::Replayed(
                answer,
            ) ==> record.response_snapshot == Some(answer)
            &&& answered is Replayed <==> same && record.status is Completed
                && record.response_snapshot is Some
            &&& answered is IdempotencyInvalidState <==> same && !(record.status is InProgress)
                && !(
            record.status is Completed && record.response_snapshot is Some)
        }),
{
}

proof fn refused_attachment_changes_nothing(
    st: RunView,
    context: MutationCommandContext,
    provider_id: Uuid,
    card_range_id: Uuid,
    reason: String,
    target: TargetRange,
    current_range: Option<Uuid>,
    draft: Option<DraftPolicy>,
)
    ensures
        ({
            let (result, after) = attach_with_fees_spec(
                st,
                context,
                provider_id,
                card_range_id,
                reason,
                target,
                current_range,
                draft,
            );
            result matches Ok(outcome) ==> outcome is Applied || script::writes(after.log)
                == script::writes(st.log) || (outcome is PublicationPending && script::is_run_of(
                after.log.last(),
                provider_fee::FREEZE_DRAFT_SQL@,
            ))
        }),
{
    broadcast use attach_leaves_evidence;

    provider_fee::missing_fees_change_nothing(st, context, provider_id, reason);
}

/// Where an assignment is refused or answered from a record, nothing is changed. The one exception
/// is a publication that turns out to be pending only when the provider's draft fees are to be
/// frozen.
#[verifier::rlimit(60)]
pub proof fn refused_assignment_changes_nothing(
    st: RunView,
    context: MutationCommandContext,
    provider_id: Uuid,
    card_range_id: Uuid,
    reason: String,
)
    ensures
        ({
            let (result, after) = assign_provider_range_atomic_spec(
                st,
                context,
                provider_id,
                card_range_id,
                reason,
            );
            result matches Ok(outcome) ==> outcome is Applied || script::writes(after.log)
                == script::writes(st.log) || (outcome is PublicationPending && script::is_run_of(
                after.log.last(),
                provider_fee::FREEZE_DRAFT_SQL@,
            ))
        }),
{
    broadcast use script::writes_with_another;

    assert forall|
        at: RunView,
        target: TargetRange,
        current: Option<Uuid>,
        draft: Option<DraftPolicy>,
    |
        {
            let (result, after) = #[trigger] attach_with_fees_spec(
                at,
                context,
                provider_id,
                card_range_id,
                reason,
                target,
                current,
                draft,
            );
            result matches Ok(outcome) ==> outcome is Applied || script::writes(after.log)
                == script::writes(at.log) || (outcome is PublicationPending && script::is_run_of(
                after.log.last(),
                provider_fee::FREEZE_DRAFT_SQL@,
            ))
        } by {
        refused_attachment_changes_nothing(
            at,
            context,
            provider_id,
            card_range_id,
            reason,
            target,
            current,
            draft,
        );
    }
}

/// Where a range has an active policy, a provider that is added to it takes that policy: none is
/// published.
pub proof fn added_provider_takes_the_active_policy(
    st: RunView,
    context: MutationCommandContext,
    provider_id: Uuid,
    card_range_id: Uuid,
    reason: String,
    target: TargetRange,
)
    requires
        ({
            let counted = script::one_int_spec(
                st,
                ACTIVE_PROVIDERS_SQL@,
                seq![Bind::Id(card_range_id)],
                "failed to count target range providers"@,
            );
            let current = select_optional_raw_spec(counted.1, CURRENT_RANGE_SQL@, provider_id);
            script::one_int_spec(
                current.1,
                ACTIVE_POLICIES_SQL@,
                seq![Bind::Id(card_range_id)],
                "failed to check active range policy"@,
            ).0 matches Ok(policies) && policies != 0
        }),
    ensures
        assign_to_target_spec(st, context, provider_id, card_range_id, reason, target).0 matches Ok(
            ProviderRangeAssignmentOutcome::Applied(result),
        ) ==> result.policy_operation_id is None,
{
    reveal(attach_spec);
}


/// What is carried out of an assignment stores the event that publishes the controls of the range.
#[verifier::rlimit(60)]
pub broadcast proof fn attach_publishes_controls(
    st: RunView,
    context: MutationCommandContext,
    provider_id: Uuid,
    card_range_id: Uuid,
    reason: String,
    target: TargetRange,
    current_range: Option<Uuid>,
    draft: Option<DraftPolicy>,
    fee_operation_id: Option<Uuid>,
)
    ensures
        (
            #[trigger] attach_spec(st, context, provider_id, card_range_id, reason, target, current_range, draft, fee_operation_id)
        ).0 matches Ok(outcome) ==> {
            &&& outcome matches ProviderRangeAssignmentOutcome::Applied(applied)
            &&& applied.fee_operation_id == fee_operation_id
            &&& script::stored_under(
                attach_spec(
                    st,
                    context,
                    provider_id,
                    card_range_id,
                    reason,
                    target,
                    current_range,
                    draft,
                    fee_operation_id,
                ).1.log,
                CONTROL_OUTBOX_SQL@,
                applied.range_control_operation_id,
            ) > 0
        },
{
    broadcast use script::stored_under_with_another;

    reveal(attach_spec);
}

/// What is carried out of an assignment stores the event that publishes the policy of the range,
/// where an operation does so.
#[verifier::rlimit(60)]
pub broadcast proof fn attach_publishes_policy(
    st: RunView,
    context: MutationCommandContext,
    provider_id: Uuid,
    card_range_id: Uuid,
    reason: String,
    target: TargetRange,
    current_range: Option<Uuid>,
    draft: Option<DraftPolicy>,
    fee_operation_id: Option<Uuid>,
)
    ensures
        (
            #[trigger] attach_spec(st, context, provider_id, card_range_id, reason, target, current_range, draft, fee_operation_id)
        ).0 matches Ok(ProviderRangeAssignmentOutcome::Applied(applied)) ==> (
        applied.policy_operation_id matches Some(id) ==> script::stored_under(
            attach_spec(
                st,
                context,
                provider_id,
                card_range_id,
                reason,
                target,
                current_range,
                draft,
                fee_operation_id,
            ).1.log,
            card_policy::POLICY_OUTBOX_INSERT_SQL@,
            id,
        ) > 0),
{
    broadcast use script::stored_under_with_another;

    reveal(attach_spec);
}

/// What is carried out of an assignment takes no event back.
#[verifier::rlimit(60)]
pub broadcast proof fn attach_keeps_events(
    st: RunView,
    context: MutationCommandContext,
    provider_id: Uuid,
    card_range_id: Uuid,
    reason: String,
    target: TargetRange,
    current_range: Option<Uuid>,
    draft: Option<DraftPolicy>,
    fee_operation_id: Option<Uuid>,
    id: Uuid,
)
    ensures
        attach_spec(
            st,
            context,
            provider_id,
            card_range_id,
            reason,
            target,
            current_range,
            draft,
            fee_operation_id,
        ).0 is Ok ==> #[trigger] script::stored_under(
            attach_spec(
                st,
                context,
                provider_id,
                card_range_id,
                reason,
                target,
                current_range,
                draft,
                fee_operation_id,
            ).1.log,
            provider_fee::FEE_OUTBOX_SQL@,
            id,
        ) >= script::stored_under(st.log, provider_fee::FEE_OUTBOX_SQL@, id),
{
    broadcast use script::stored_under_with_another;

    reveal(attach_spec);
}

/// Where a provider is assigned to a range, the event that publishes the controls of the range is
/// stored under the operation that the answer names for them. So are the events of its policy and
/// of the provider's fees, where operations publish those.
#[verifier::rlimit(60)]
pub proof fn assignment_is_published(
    st: RunView,
    context: MutationCommandContext,
    provider_id: Uuid,
    card_range_id: Uuid,
    reason: String,
)
    ensures
        ({
            let (result, after) = assign_provider_range_atomic_spec(
                st,
                context,
                provider_id,
                card_range_id,
                reason,
            );
            result matches Ok(ProviderRangeAssignmentOutcome::Applied(applied)) ==> {
                &&& script::stored_under(
                    after.log,
                    CONTROL_OUTBOX_SQL@,
                    applied.range_control_operation_id,
                ) > 0
                &&& applied.policy_operation_id matches Some(id) ==> script::stored_under(
                    after.log,
                    card_policy::POLICY_OUTBOX_INSERT_SQL@,
                    id,
                ) > 0
                &&& applied.fee_operation_id matches Some(id) ==> script::stored_under(
                    after.log,
                    provider_fee::FEE_OUTBOX_SQL@,
                    id,
                ) > 0
            }
        }),
{
    broadcast use {
        attach_publishes_controls,
        attach_publishes_policy,
        attach_keeps_events,
        provider_fee::prepare_fee_profile_for_attachment_publishes,
    };

}

/// A provider is active in one range: where it is attached to another range than its current one,
/// the current assignment is suspended and the new one is stored.
#[verifier::rlimit(60)]
pub proof fn attached_provider_leaves_its_range(
    st: RunView,
    context: MutationCommandContext,
    provider_id: Uuid,
    card_range_id: Uuid,
    reason: String,
    target: TargetRange,
    current: Uuid,
    draft: Option<DraftPolicy>,
    fee_operation_id: Option<Uuid>,
)
    requires
        current != card_range_id,
        attach_spec(
            st,
            context,
            provider_id,
            card_range_id,
            reason,
            target,
            Some(current),
            draft,
            fee_operation_id,
        ).0 is Ok,
    ensures
        ({
            let log = attach_spec(
                st,
                context,
                provider_id,
                card_range_id,
                reason,
                target,
                Some(current),
                draft,
                fee_operation_id,
            ).1.log;
            let suspended = seq![
                Bind::Text(context.actor.subject),
                Bind::Id(provider_id),
                Bind::Id(current),
            ];
            let assigned = seq![
                Bind::Id(card_range_id),
                Bind::Id(provider_id),
                Bind::Text(context.actor.subject),
            ];
            &&& script::runs_on(log, SUSPEND_ASSIGNMENT_SQL@, suspended) > 0
            &&& script::runs_on(log, ASSIGN_SQL@, assigned) > 0
        }),
{
    broadcast use script::runs_on_with_another;

    reveal(attach_spec);
}

/// A range whose controls wait for their materialization takes no provider. One that was never
/// published waits for nothing. Else its values are those of its row, each from its column, and
/// cards are issued in it unless the column is zero.
#[verifier::rlimit(60)]
pub proof fn target_range_is_read_from_its_columns(st: RunView, card_range_id: Uuid)
    ensures
        lock_target_spec(st, card_range_id).0 matches Ok(target) ==> {
            &&& st.rest[0] matches script::Reply::Rows(found)
            &&& target is Missing <==> found.rows@.len() == 0
            &&& found.rows@.len() > 0 ==> {
                let row = found.rows@[0];
                let version = row.int_at(6, READ_ROW@)->Ok_0;
                let materialized = row.int_at(7, READ_ROW@)->Ok_0;
                let unpublished = row.opt_raw_at(8, READ_ROW@)->Ok_0 is None;
                &&& target is PublicationPending <==> version != materialized && !(version == 1
                    && materialized == 0 && unpublished)
                &&& target matches Target::Found(range) ==> {
                    &&& FundingMode::of_code(row.text_at(0, READ_ROW@)->Ok_0@) == Some(
                        range.funding_mode,
                    )
                    &&& WithdrawalLimitAuthority::of_code(row.text_at(1, READ_ROW@)->Ok_0@) == Some(
                        range.authority,
                    )
                    &&& range.calendar_json == row.opt_text_at(2, READ_ROW@)->Ok_0
                    &&& range.range_status == row.text_at(3, READ_ROW@)->Ok_0
                    &&& range.issuance_enabled <==> row.small_at(4, READ_ROW@)->Ok_0 != 0
                    &&& range.cms_operation_mode == row.text_at(5, READ_ROW@)->Ok_0
                    &&& range.operational_version == version
                }
            }
        },
{
}

/// A range for one provider that has an active one takes no other. A range without a policy in
/// force takes a provider only with a draft that is not being published.
#[verifier::rlimit(80)]
pub proof fn range_takes_a_provider_under_its_rules(
    st: RunView,
    context: MutationCommandContext,
    provider_id: Uuid,
    card_range_id: Uuid,
    reason: String,
    target: TargetRange,
)
    ensures
        ({
            let result = assign_to_target_spec(
                st,
                context,
                provider_id,
                card_range_id,
                reason,
                target,
            ).0;
            let (counted, at) = script::one_int_spec(
                st,
                ACTIVE_PROVIDERS_SQL@,
                seq![Bind::Id(card_range_id)],
                "failed to count target range providers"@,
            );
            let (current, read) = select_optional_raw_spec(at, CURRENT_RANGE_SQL@, provider_id);
            let (policies, checked) = script::one_int_spec(
                read,
                ACTIVE_POLICIES_SQL@,
                seq![Bind::Id(card_range_id)],
                "failed to check active range policy"@,
            );
            let draft = script::first_row_spec(
                checked,
                DRAFT_POLICY_SQL@,
                seq![Bind::Id(card_range_id)],
                "ritR",
                "failed to lock range policy draft"@,
                "failed to read range policy draft"@,
            ).0;
            let occupied = target.funding_mode == FundingMode::SingleProvider && counted->Ok_0 > 0
                && current->Ok_0 != Some(card_range_id);
            &&& counted is Ok && current is Ok ==> (occupied <==> result == Ok::<_, HaltView>(
                ProviderRangeAssignmentOutcome::SingleProviderOccupied,
            ))
            &&& counted is Ok && current is Ok && !occupied && policies == Ok::<i64, HaltView>(0)
                && draft == Ok::<Option<Row>, HaltView>(None) <==> result == Ok::<_, HaltView>(
                ProviderRangeAssignmentOutcome::PolicyMissing,
            )
            &&& counted is Ok && current is Ok && !occupied && policies == Ok::<i64, HaltView>(0)
                && (
            draft matches Ok(Some(row)) && (row.opt_raw_at(3, READ_ROW@) matches Ok(Some(_))))
                ==> result == Ok::<_, HaltView>(ProviderRangeAssignmentOutcome::PublicationPending)
            &&& (result matches Ok(outcome) && outcome is Applied) ==> !occupied
        }),
{
    broadcast use attach_leaves_evidence;

    reveal(provider_fee::prepare_fee_profile_for_attachment_spec);
}

/// A provider is attached only with fees to be charged by. What the fees wait for, the assignment
/// waits for.
#[verifier::rlimit(60)]
pub proof fn provider_is_attached_with_its_fees(
    st: RunView,
    context: MutationCommandContext,
    provider_id: Uuid,
    card_range_id: Uuid,
    reason: String,
    target: TargetRange,
    current_range: Option<Uuid>,
    draft: Option<DraftPolicy>,
)
    ensures
        ({
            let result = attach_with_fees_spec(
                st,
                context,
                provider_id,
                card_range_id,
                reason,
                target,
                current_range,
                draft,
            ).0;
            let fees = provider_fee::prepare_fee_profile_for_attachment_spec(
                st,
                context,
                provider_id,
                reason,
            ).0;
            &&& (fees matches Ok(found) && found is Missing) <==> result == Ok::<_, HaltView>(
                ProviderRangeAssignmentOutcome::FeeProfileMissing,
            )
            &&& (fees matches Ok(found) && found is PublicationPending) <==> result == Ok::<
                _,
                HaltView,
            >(ProviderRangeAssignmentOutcome::PublicationPending)
            &&& result matches Ok(
                ProviderRangeAssignmentOutcome::Applied(assigned),
            ) ==> fees == Ok::<
                FeeProfileAttachmentPreparation,
                HaltView,
            >(
                FeeProfileAttachmentPreparation::Ready {
                    operation_id: assigned.fee_operation_id,
                },
            ) && assigned.provider_id == provider_id && assigned.card_range_id == card_range_id
        }),
{
    reveal(attach_spec);
}

/// An assignment without a record is refused for a provider that is missing or not active and for a
/// range that is missing or being published. Each has its own answer, in this order.
#[verifier::rlimit(60)]
pub proof fn assignment_is_refused_for_one_reason(
    st: RunView,
    context: MutationCommandContext,
    provider_id: Uuid,
    card_range_id: Uuid,
    reason: String,
    status: Option<String>,
)
    requires
        ({
            let (looked, at) = idempotency::fetch_idempotency_record_spec(
                st,
                context.operation_type,
                context.idempotency_key,
            );
            &&& looked == Ok::<Option<IdempotencyRecord>, HaltView>(None)
            &&& select_optional_string_spec(at, PROVIDER_STATUS_SQL@, provider_id).0 == Ok::<
                Option<String>,
                HaltView,
            >(status)
        }),
    ensures
        ({
            let result = assign_provider_range_atomic_spec(
                st,
                context,
                provider_id,
                card_range_id,
                reason,
            ).0;
            let at = idempotency::fetch_idempotency_record_spec(
                st,
                context.operation_type,
                context.idempotency_key,
            ).1;
            let locked = select_optional_string_spec(at, PROVIDER_STATUS_SQL@, provider_id).1;
            let target = lock_target_spec(locked, card_range_id).0;
            let active = status matches Some(text) && text@ == "ACTIVE"@;
            &&& status is None <==> result == Ok::<_, HaltView>(
                ProviderRangeAssignmentOutcome::ProviderNotFound,
            )
            &&& status is Some && !active <==> result == Ok::<_, HaltView>(
                ProviderRangeAssignmentOutcome::ProviderNotActive,
            )
            &&& active && (target matches Ok(found) && found is Missing) <==> result == Ok::<
                _,
                HaltView,
            >(ProviderRangeAssignmentOutcome::RangeNotFound)
            &&& active
                && (target matches Ok(found) && found is PublicationPending) ==> result == Ok::<
                _,
                HaltView,
            >(ProviderRangeAssignmentOutcome::PublicationPending)
            &&& (result matches Ok(outcome) && outcome is Applied) ==> active && (target matches Ok(
                Target::Found(_),
            ))
        }),
{
    broadcast use attach_leaves_evidence;

}

/// Where a provider is attached, it is assigned to the range, and the range gets the version after
/// the one it has, under the operation that is answered.
#[verifier::rlimit(100)]
pub proof fn attached_provider_is_told(
    st: RunView,
    context: MutationCommandContext,
    provider_id: Uuid,
    card_range_id: Uuid,
    reason: String,
    target: TargetRange,
    current_range: Option<Uuid>,
    draft: Option<DraftPolicy>,
    fee_operation_id: Option<Uuid>,
)
    ensures
        ({
            let (result, after) = attach_spec(
                st,
                context,
                provider_id,
                card_range_id,
                reason,
                target,
                current_range,
                draft,
                fee_operation_id,
            );
            result matches Ok(ProviderRangeAssignmentOutcome::Applied(assigned)) ==> {
                &&& assigned.provider_id == provider_id
                &&& assigned.card_range_id == card_range_id
                &&& assigned.fee_operation_id == fee_operation_id
                &&& assigned.policy_operation_id is Some <==> draft is Some
                &&& script::ran(
                    after.log,
                    ASSIGN_SQL@,
                    seq![
                        Bind::Id(card_range_id),
                        Bind::Id(provider_id),
                        Bind::Text(context.actor.subject),
                    ],
                )
                &&& target.operational_version < i64::MAX ==> script::ran(
                    after.log,
                    ADVANCE_RANGE_SQL@,
                    seq![
                        Bind::Int((target.operational_version + 1) as i64),
                        Bind::Id(assigned.range_control_operation_id),
                        Bind::Text(context.actor.subject),
                        Bind::Id(card_range_id),
                    ],
                )
            }
        }),
{
    broadcast use script::runs_on_with_another;

    reveal(attach_spec);
}

/// The assignment that a provider had is suspended where it was to another range, and only there.
pub proof fn assignment_to_another_range_is_suspended(
    st: RunView,
    context: MutationCommandContext,
    provider_id: Uuid,
    card_range_id: Uuid,
    current_range: Option<Uuid>,
)
    ensures
        ({
            let (ended, after) = suspend_prior_spec(
                st,
                context,
                provider_id,
                card_range_id,
                current_range,
            );
            &&& current_range is None || current_range == Some(card_range_id) ==> ended is Ok
                && after
                == st
            &&& current_range matches Some(current) ==> current != card_range_id && ended is Ok
                ==> after.log == st.log.push(
                script::sql_call(
                    script::Mode::Execute,
                    SUSPEND_ASSIGNMENT_SQL@,
                    seq![
                        Bind::Text(context.actor.subject),
                        Bind::Id(provider_id),
                        Bind::Id(current),
                    ],
                    "",
                ),
            )
        }),
{
}

/// What is asked first, and with which values, in a run that does this:
/// the text that a statement finds for an identifier, where it finds one.
pub proof fn select_optional_string_asks_first(
    st: RunView,
    statement: Seq<char>,
    id: Uuid,
)
    requires
        st.rest.len() == 0,
    ensures
        select_optional_string_spec(st, statement, id).0 matches Err(HaltView::Ask(asked))
            && (
                asked matches script::CallView::Sql { sql, binds, .. } && sql == statement
                    && binds == seq![Bind::Id(id)]
            ),
{
}

/// What is asked first, and with which values, in a run that does this:
/// the identifier that a statement finds for an identifier, where it finds one.
pub proof fn select_optional_raw_asks_first(
    st: RunView,
    statement: Seq<char>,
    id: Uuid,
)
    requires
        st.rest.len() == 0,
    ensures
        select_optional_raw_spec(st, statement, id).0 matches Err(HaltView::Ask(asked))
            && (
                asked matches script::CallView::Sql { sql, binds, .. } && sql == statement
                    && binds == seq![Bind::Id(id)]
            ),
{
}

/// What is asked first, and with which values, in a run that does this:
/// locks the range to which a provider is to be assigned.
pub proof fn lock_target_asks_first(
    st: RunView,
    card_range_id: Uuid,
)
    requires
        st.rest.len() == 0,
    ensures
        lock_target_spec(st, card_range_id).0 matches Err(HaltView::Ask(asked))
            && (
                asked matches script::CallView::Sql { sql, binds, .. } && sql == TARGET_RANGE_SQL@
                    && binds == seq![Bind::Id(card_range_id)]
            ),
{
}

/// Each value is read from its own column: locks the range to which a provider is to be assigned.
#[verifier::rlimit(60)]
pub proof fn lock_target_is_read_by_column(
    st: RunView,
    card_range_id: Uuid,
)
    ensures
        lock_target_spec(st, card_range_id).0 matches Ok(Target::Found(read)) ==> {
            &&& read.funding_mode == (FundingMode::of_code(
                st.rest[0]->Rows_0.rows@[0].text_at(0, READ_ROW@)->Ok_0@,
            ))->Some_0
            &&& read.authority == (WithdrawalLimitAuthority::of_code(
                st.rest[0]->Rows_0.rows@[0].text_at(1, READ_ROW@)->Ok_0@,
            ))->Some_0
            &&& read.calendar_json == st.rest[0]->Rows_0.rows@[0].opt_text_at(2, READ_ROW@)->Ok_0
            &&& read.range_status == st.rest[0]->Rows_0.rows@[0].text_at(3, READ_ROW@)->Ok_0
            &&& read.cms_operation_mode == st.rest[0]->Rows_0.rows@[0].text_at(5, READ_ROW@)->Ok_0
            &&& read.operational_version == st.rest[0]->Rows_0.rows@[0].int_at(6, READ_ROW@)->Ok_0
        },
{
}

/// What is asked first, and with which values, in a run that does this:
/// stores the event that publishes the controls of a range.
pub proof fn insert_range_control_outbox_asks_first(
    st: RunView,
    projection: RangeControlProjection,
    headers_of: HeaderSource,
)
    requires
        st.rest.len() == 0,
    ensures
        insert_range_control_outbox_spec(
            st,
            projection,
            headers_of,
        ).0 matches Err(HaltView::Ask(asked))
            && (
                asked matches script::CallView::Sql { sql, binds, .. }
                    && sql == CONTROL_PROVIDERS_SQL@
                    && binds == seq![Bind::Id(projection.card_range_id)]
            ),
{
}

/// What the database is told, and with which values, where a run succeeds that does this:
/// stores the event that publishes the controls of a range.
#[verifier::rlimit(60)]
pub proof fn insert_range_control_outbox_is_told(
    st: RunView,
    projection: RangeControlProjection,
    headers_of: HeaderSource,
)
    ensures
        ({
            let (ended, after) = insert_range_control_outbox_spec(st, projection, headers_of);
            let log = after.log;
            ended is Ok ==> {
                &&& script::told_where(
                    log,
                    CONTROL_OUTBOX_SQL@,
                    |b: Seq<Bind>| b.len() == 6 && b[1] == Bind::Id(projection.operation_id)
                        && b[2] == Bind::Id(projection.card_range_id)
                        && b[3] == Bind::IdText(projection.card_range_id),
                ) > 0
            }
        }),
{
    broadcast use {script::runs_on_with_another, script::told_where_with_another};

}

/// What the database is told, and with which values, where a run succeeds that does this:
/// publishes the draft policy of a range, where there is one.
#[verifier::rlimit(60)]
pub proof fn publish_draft_is_told(
    st: RunView,
    context: MutationCommandContext,
    card_range_id: Uuid,
    target: TargetRange,
    draft: Option<DraftPolicy>,
)
    ensures
        ({
            let (ended, after) = publish_draft_spec(st, context, card_range_id, target, draft);
            let log = after.log;
            (ended matches Ok(outcome) && outcome is Some) ==> {
                &&& script::told_where(
                    log,
                    FREEZE_POLICY_SQL@,
                    |b: Seq<Bind>| b.len() == 3 && b[1] == Bind::Text(context.actor.subject)
                        && b[2] == Bind::Id(script::id_of((draft)->Some_0.policy_raw@)->Ok_0),
                ) > 0
            }
        }),
{
    broadcast use {script::runs_on_with_another, script::told_where_with_another};

}

/// What the database is told, and with which values, where a run succeeds that does this:
/// assigns a provider to a locked range and publishes what changes.
#[verifier::rlimit(60)]
pub proof fn attach_is_told(
    st: RunView,
    context: MutationCommandContext,
    provider_id: Uuid,
    card_range_id: Uuid,
    reason: String,
    target: TargetRange,
    current_range: Option<Uuid>,
    draft: Option<DraftPolicy>,
    fee_operation_id: Option<Uuid>,
)
    ensures
        ({
            let (ended, after) = attach_spec(
                st,
                context,
                provider_id,
                card_range_id,
                reason,
                target,
                current_range,
                draft,
                fee_operation_id,
            );
            let log = after.log;
            ended is Ok ==> {
                &&& script::ran(
                    log,
                    ASSIGN_SQL@,
                    seq![
                        Bind::Id(card_range_id),
                        Bind::Id(provider_id),
                        Bind::Text(context.actor.subject),
                    ],
                )
                &&& script::told_where(
                    log,
                    ADVANCE_RANGE_SQL@,
                    |b: Seq<Bind>| b.len() == 4
                        && b[0] == Bind::Int((version_after(target.operational_version)))
                        && b[2] == Bind::Text(context.actor.subject)
                        && b[3] == Bind::Id(card_range_id),
                ) > 0
            }
        }),
{
    broadcast use {script::runs_on_with_another, script::told_where_with_another};

    reveal(attach_spec);
}

/// What is asked first, and with which values, in a run that does this:
/// assigns an active provider to a locked range, or tells why not.
pub proof fn assign_to_target_asks_first(
    st: RunView,
    context: MutationCommandContext,
    provider_id: Uuid,
    card_range_id: Uuid,
    reason: String,
    target: TargetRange,
)
    requires
        st.rest.len() == 0,
    ensures
        assign_to_target_spec(
            st,
            context,
            provider_id,
            card_range_id,
            reason,
            target,
        ).0 matches Err(HaltView::Ask(asked))
            && (
                asked matches script::CallView::Sql { sql, binds, .. }
                    && sql == ACTIVE_PROVIDERS_SQL@ && binds == seq![Bind::Id(card_range_id)]
            ),
{
}

} // verus!
