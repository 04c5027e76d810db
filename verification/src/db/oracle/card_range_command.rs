//! Changes to card ranges.
use vstd::prelude::*;
use crate::db::oracle::audit;
use crate::db::oracle::binds;
use crate::db::oracle::card_range;
use crate::db::oracle::consult::{Attachment, AttachmentView, Answer, Rule};
use crate::db::oracle::document;
use crate::db::oracle::document::{Document, EventKeys, Snapshot};
use crate::db::oracle::idempotency;
use crate::db::oracle::idempotency::IdempotencyVerdict;
use crate::db::oracle::outbox;
use crate::db::oracle::repository::OracleRepository;
use crate::db::oracle::script;
use crate::db::oracle::script::{Bind, Halt, HaltView, Row, RunView, Session, UNEXPECTED_REPLY};
use crate::domain::audit::AuditAction;
use crate::domain::card_range as domain_range;
use crate::domain::card_range::{
    CardNumberRange, CardRange, CardRangeStatus, FundingMode, LimitCalendar, NewCardRange,
};
use crate::domain::command::{HeaderSource, MutationCommandContext, Objection};
use crate::domain::idempotency::IdempotencyRecord;
use crate::json;
use crate::json::{JsonMemberView, JsonValue, JsonValueView};
use crate::text;
use crate::uuid::Uuid;

verus! {

/// Reads and locks a card range.
pub const RANGE_FOR_UPDATE_SQL: &'static str = r#"SELECT
        card_range_id,
        start_card_number,
        end_card_number,
        funding_mode,
        withdrawal_limit_authority,
        JSON_SERIALIZE(limit_calendar_json RETURNING CLOB) AS limit_calendar_json,
        status,
        issuance_enabled,
        cms_operation_mode,
        operational_version,
        materialized_operational_version,
        range_control_operation_id,
        JSON_SERIALIZE(metadata_json RETURNING CLOB) AS metadata_json,
        created_by_subject,
        updated_by_subject,
        TO_CHAR(SYS_EXTRACT_UTC(created_at), 'YYYY-MM-DD"T"HH24:MI:SS.FF3"Z"') AS created_at,
        TO_CHAR(SYS_EXTRACT_UTC(updated_at), 'YYYY-MM-DD"T"HH24:MI:SS.FF3"Z"') AS updated_at
    FROM card_ranges
    WHERE card_range_id = :1 FOR UPDATE"#;

/// Counts the other ranges that share a card number with one.
pub const OVERLAPS_OTHER_SQL: &'static str = "SELECT COUNT(*) FROM card_ranges WHERE card_range_id <> :1 AND start_card_number <= :2 AND end_card_number >= :3";

/// Changes a draft range.
pub const UPDATE_DRAFT_RANGE_SQL: &'static str = "UPDATE card_ranges SET start_card_number=:1, end_card_number=:2, funding_mode=:3, withdrawal_limit_authority=:4, limit_calendar_json=:5, issuance_enabled=:6, cms_operation_mode=:7, metadata_json=:8, updated_by_subject=:9, updated_at=SYSTIMESTAMP WHERE card_range_id=:10 AND status='DRAFT'";

/// Counts the active providers of a range.
pub const ACTIVE_PROVIDERS_SQL: &'static str = "SELECT COUNT(*) FROM card_range_providers WHERE card_range_id=:1 AND status='ACTIVE'";

/// Counts the active policies of a range.
pub const ACTIVE_POLICIES_SQL: &'static str = "SELECT COUNT(*) FROM card_policy_profiles WHERE card_range_id=:1 AND status='ACTIVE'";

/// Counts the active providers of a range that have no active fee profile.
pub const MISSING_FEE_PROFILES_SQL: &'static str = "SELECT COUNT(*) FROM card_range_providers crp WHERE crp.card_range_id=:1 AND crp.status='ACTIVE' AND NOT EXISTS (SELECT 1 FROM provider_fee_profiles pfp WHERE pfp.provider_id=crp.provider_id AND pfp.status='ACTIVE')";

/// Changes the runtime state of a range that has no publication pending.
pub const UPDATE_RUNTIME_SQL: &'static str = "UPDATE card_ranges SET status=:1, issuance_enabled=:2, cms_operation_mode=:3, operational_version=operational_version+1, range_control_operation_id=:4, updated_by_subject=:5, updated_at=SYSTIMESTAMP WHERE card_range_id=:6 AND range_control_operation_id IS NULL";

/// Lists the active providers of a range.
pub const ELIGIBLE_PROVIDERS_SQL: &'static str = "SELECT provider_id FROM card_range_providers WHERE card_range_id=:1 AND status='ACTIVE' ORDER BY provider_id";

/// Stores a range control event.
pub const CONTROL_OUTBOX_SQL: &'static str = "INSERT INTO integration_outbox (outbox_event_id, operation_id, event_type, aggregate_type, aggregate_id, partition_key, payload_json, headers_json) VALUES (:1,:2,:3,:4,:5,:6,:7,:8)";

/// A change to a card range. The new draft values are held with the command.
#[derive(Debug)]
pub enum CardRangeMutation {
    /// The values asked for are a JSON document.
    UpdateDraft { values: String, reason: String },
    Activate { reason: String },
    Suspend { reason: String },
    UpdateControls { issuance_enabled: bool, cms_operation_mode: String, reason: String },
}

impl CardRangeMutation {
    /// Why the change is made.
    pub open spec fn spec_reason(self) -> String {
        match self {
            CardRangeMutation::UpdateDraft { reason, .. } => reason,
            CardRangeMutation::Activate { reason } => reason,
            CardRangeMutation::Suspend { reason } => reason,
            CardRangeMutation::UpdateControls { reason, .. } => reason,
        }
    }

    /// Why the change is made.
    pub fn reason(&self) -> (r: &String)
        ensures
            *r == self.spec_reason(),
    {
        match self {
            CardRangeMutation::UpdateDraft { reason, .. } => reason,
            CardRangeMutation::Activate { reason } => reason,
            CardRangeMutation::Suspend { reason } => reason,
            CardRangeMutation::UpdateControls { reason, .. } => reason,
        }
    }

    /// What audit evidence calls the change.
    pub open spec fn spec_action(self) -> AuditAction {
        if self is UpdateDraft || self is UpdateControls {
            AuditAction::Update
        } else {
            AuditAction::StateTransition
        }
    }

    /// What audit evidence calls the change.
    pub fn action(&self) -> (r: AuditAction)
        ensures
            r == self.spec_action(),
    {
        match self {
            CardRangeMutation::UpdateDraft { .. } => AuditAction::Update,
            CardRangeMutation::UpdateControls { .. } => AuditAction::Update,
            _ => AuditAction::StateTransition,
        }
    }
}

/// A changed card range, and the operation that publishes the change where there is one.
#[derive(Debug)]
pub struct CardRangeMutationResult {
    pub card_range: CardRange,
    pub operation_id: Option<Uuid>,
}

/// What became of a change to a card range. A replayed answer is a JSON document.
#[derive(Debug)]
pub enum CardRangeMutationPersistenceOutcome {
    Applied(Box<CardRangeMutationResult>),
    Replayed(String),
    NotFound,
    InvalidTransition,
    Immutable,
    PrerequisitesMissing,
    FeeProfilesMissing,
    PublicationPending,
    Overlap,
    ContractInvalid(Objection),
    IdempotencyConflict,
    IdempotencyInProgress,
    IdempotencyInvalidState,
}

/// What a stored record means for a change.
pub open spec fn mutation_verdict(
    verdict: IdempotencyVerdict,
) -> CardRangeMutationPersistenceOutcome {
    match verdict {
        IdempotencyVerdict::Conflict => CardRangeMutationPersistenceOutcome::IdempotencyConflict,
        IdempotencyVerdict::Replay(snapshot) => {
            CardRangeMutationPersistenceOutcome::Replayed(snapshot)
        },
        IdempotencyVerdict::InProgress => {
            CardRangeMutationPersistenceOutcome::IdempotencyInProgress
        },
        IdempotencyVerdict::InvalidState => {
            CardRangeMutationPersistenceOutcome::IdempotencyInvalidState
        },
    }
}

/// What a stored record means for a change with this request hash.
pub fn classify_idempotency(
    existing: &IdempotencyRecord,
    request_hash: &String,
) -> (r: CardRangeMutationPersistenceOutcome)
    ensures
        r == mutation_verdict(idempotency::idempotency_verdict(*existing, *request_hash)),
{
    match idempotency::judge_idempotency(existing, request_hash) {
        IdempotencyVerdict::Conflict => CardRangeMutationPersistenceOutcome::IdempotencyConflict,
        IdempotencyVerdict::Replay(snapshot) => {
            CardRangeMutationPersistenceOutcome::Replayed(snapshot)
        },
        IdempotencyVerdict::InProgress => {
            CardRangeMutationPersistenceOutcome::IdempotencyInProgress
        },
        IdempotencyVerdict::InvalidState => {
            CardRangeMutationPersistenceOutcome::IdempotencyInvalidState
        },
    }
}

/// A reason holds one to a thousand bytes of text that is not white space at its ends, and no
/// control character between them.
pub open spec fn reason_is_valid(reason: Seq<char>) -> bool {
    let kept = text::trimmed(reason);
    &&& kept.len() > 0
    &&& (vstd::utf8::encode_utf8(kept).len() as usize) <= 1000
    &&& forall|i: int| 0 <= i < kept.len() ==> !text::control(#[trigger] kept[i])
}

/// Whether a reason may be stored.
pub fn valid_reason(reason: &str) -> (r: bool)
    ensures
        r == reason_is_valid(reason@),
{
    let kept: &str = text::trim(reason);
    !kept.is_empty() && kept.len() <= 1000 && !text::has_control(kept)
}

/// Two optional calendars are absent or the same.
pub open spec fn same_optional_calendar(
    a: Option<LimitCalendar>,
    b: Option<LimitCalendar>,
) -> bool {
    match (a, b) {
        (None, None) => true,
        (Some(x), Some(y)) => domain_range::same_calendar_spec(x, y),
        _ => false,
    }
}

/// The desired values are those that the range has.
pub open spec fn draft_is_unchanged(current: CardRange, desired: NewCardRange) -> bool {
    &&& current.numbers.start@ == desired.numbers.start@
    &&& current.numbers.end@ == desired.numbers.end@
    &&& current.funding_mode == desired.funding_mode
    &&& current.withdrawal_limit_authority == desired.withdrawal_limit_authority
    &&& same_optional_calendar(current.limit_calendar, desired.limit_calendar)
    &&& current.issuance_enabled == desired.issuance_enabled
    &&& current.cms_operation_mode@ == desired.cms_operation_mode@
    &&& json::json_equal(current.metadata_json@, desired.metadata_json@)
}

/// Whether the desired values are those that the range has.
pub fn draft_values_equal(current: &CardRange, desired: &NewCardRange) -> (r: bool)
    ensures
        r == draft_is_unchanged(*current, *desired),
{
    let calendars: bool = match (&current.limit_calendar, &desired.limit_calendar) {
        (None, None) => true,
        (Some(x), Some(y)) => domain_range::same_calendar(x, y),
        _ => false,
    };
    text::same_text(current.numbers.start.as_str(), desired.numbers.start.as_str())
        && text::same_text(current.numbers.end.as_str(), desired.numbers.end.as_str())
        && current.funding_mode == desired.funding_mode && current.withdrawal_limit_authority
        == desired.withdrawal_limit_authority && calendars && current.issuance_enabled
        == desired.issuance_enabled && text::same_text(
        current.cms_operation_mode.as_str(),
        desired.cms_operation_mode.as_str(),
    ) && json::same_document(current.metadata_json.as_str(), desired.metadata_json.as_str())
}

/// Reads and locks a card range, where there is one.
pub open spec fn fetch_range_for_update_spec(
    st: RunView,
    card_range_id: Uuid,
) -> (Result<Option<CardRange>, HaltView>, RunView) {
    match script::maybe_row_spec(
        st,
        RANGE_FOR_UPDATE_SQL@,
        seq![Bind::Id(card_range_id)],
        card_range::CARD_RANGE_COLUMNS,
        "failed to lock card range"@,
    ) { (Err(h), st) => (Err(h), st), (Ok(found), st) =>
    match found {
    None => {
        (Ok(None), st)
    },
    Some(row) =>
    match card_range::map_card_range_row_spec(
        st,
        row,
    ) { (Err(h), st) => (Err(h), st), (Ok(range), st) =>
    (Ok(Some(range)), st)
    }}}
}

/// Reads and locks a card range, where there is one.
pub fn fetch_range_for_update(
    s: &mut Session,
    card_range_id: Uuid,
) -> (r: Result<Option<CardRange>, Halt>)
    ensures
        (script::seen(r), final(s)@) == fetch_range_for_update_spec(old(s)@, card_range_id),
{
    let found = script::maybe_row(
        s,
        RANGE_FOR_UPDATE_SQL,
        binds::binds1(Bind::Id(card_range_id)),
        card_range::CARD_RANGE_COLUMNS,
        "failed to lock card range",
    )?;
    let row = match found {
        Some(v) => v,
        None => {
            return Ok(None);
        },
    };
    let range = card_range::map_card_range_row(s, row)?;
    Ok(Some(range))
}

/// Whether another range shares a card number with these.
pub open spec fn overlaps_other_spec(
    st: RunView,
    card_range_id: Uuid,
    numbers: CardNumberRange,
) -> (Result<bool, HaltView>, RunView) {
    match script::one_int_spec(
        st,
        OVERLAPS_OTHER_SQL@,
        seq![Bind::Id(card_range_id), Bind::Text(numbers.end), Bind::Text(numbers.start)],
        "failed to check updated range overlap"@,
    ) { (Err(h), st) => (Err(h), st), (Ok(count), st) =>
    (Ok(count > 0), st)
    }
}

/// Whether another range shares a card number with these.
pub fn overlaps_other(
    s: &mut Session,
    card_range_id: Uuid,
    numbers: &CardNumberRange,
) -> (r: Result<bool, Halt>)
    ensures
        (script::seen(r), final(s)@) == overlaps_other_spec(old(s)@, card_range_id, *numbers),
{
    let count = script::one_int(
        s,
        OVERLAPS_OTHER_SQL,
        binds::binds3(
            Bind::Id(card_range_id),
            Bind::Text(numbers.end.clone()),
            Bind::Text(numbers.start.clone()),
        ),
        "failed to check updated range overlap",
    )?;
    Ok(count > 0)
}

/// Changes a draft range.
pub open spec fn update_draft_spec(
    st: RunView,
    desired: NewCardRange,
    actor: String,
) -> (Result<(), HaltView>, RunView) {
    match script::execute_count_spec(
        st,
        UPDATE_DRAFT_RANGE_SQL@,
        seq![
            Bind::Text(desired.numbers.start),
            Bind::Text(desired.numbers.end),
            Bind::Label(desired.funding_mode.code()),
            Bind::Label(desired.withdrawal_limit_authority.code()),
            card_range::calendar_bind_spec(desired.limit_calendar),
            Bind::Flag(desired.issuance_enabled),
            Bind::Text(desired.cms_operation_mode),
            Bind::JsonText(desired.metadata_json),
            Bind::Text(actor),
            Bind::Id(desired.card_range_id),
        ],
        "failed to update draft card range"@,
        "failed to inspect draft card range update"@,
    ) { (Err(h), st) => (Err(h), st), (Ok(touched), st) =>
    if touched != 1 {
        (script::conflict_fault("draft card range changed during update"@), st)
    } else {
    (Ok(()), st)
    }}
}

/// Changes a draft range.
pub fn update_draft(
    s: &mut Session,
    desired: &NewCardRange,
    actor: &String,
) -> (r: Result<(), Halt>)
    ensures
        (script::seen(r), final(s)@) == update_draft_spec(old(s)@, *desired, *actor),
{
    let touched = script::execute_count(
        s,
        UPDATE_DRAFT_RANGE_SQL,
        binds::binds10(
            Bind::Text(desired.numbers.start.clone()),
            Bind::Text(desired.numbers.end.clone()),
            Bind::Label(desired.funding_mode.as_db_value()),
            Bind::Label(desired.withdrawal_limit_authority.as_db_value()),
            card_range::calendar_bind(&desired.limit_calendar),
            Bind::Flag(desired.issuance_enabled),
            Bind::Text(desired.cms_operation_mode.clone()),
            Bind::JsonText(desired.metadata_json.clone()),
            Bind::Text(actor.clone()),
            Bind::Id(desired.card_range_id),
        ),
        "failed to update draft card range",
        "failed to inspect draft card range update",
    )?;
    if touched != 1 {
        return Err(script::fail_conflict("draft card range changed during update"));
    }
    Ok(())
}

/// Whether a range can be activated.
#[derive(Clone, Copy, Debug, PartialEq, Eq, Structural)]
pub enum ActivationReadiness {
    Ready,
    CorePrerequisitesMissing,
    FeeProfilesMissing,
}

/// The number of active providers that a range needs before it can be activated.
pub open spec fn provider_shape_is_ready(mode: FundingMode, providers: i64) -> bool {
    match mode {
        FundingMode::SingleProvider => providers == 1,
        FundingMode::MultiProvider => providers >= 1,
    }
}

fn provider_shape_ready(mode: FundingMode, providers: i64) -> (r: bool)
    ensures
        r == provider_shape_is_ready(mode, providers),
{
    match mode {
        FundingMode::SingleProvider => providers == 1,
        FundingMode::MultiProvider => providers >= 1,
    }
}

/// Whether a range has one active policy, the providers that its funding mode asks for, and a fee
/// profile for each of them.
pub open spec fn activation_ready_spec(
    st: RunView,
    range: CardRange,
) -> (Result<ActivationReadiness, HaltView>, RunView) {
    match script::one_int_spec(
        st,
        ACTIVE_PROVIDERS_SQL@,
        seq![Bind::Id(range.card_range_id)],
        "failed to count eligible providers"@,
    ) { (Err(h), st) => (Err(h), st), (Ok(providers), st) =>
    match script::one_int_spec(
        st,
        ACTIVE_POLICIES_SQL@,
        seq![Bind::Id(range.card_range_id)],
        "failed to check active policy"@,
    ) { (Err(h), st) => (Err(h), st), (Ok(policies), st) =>
    if policies != 1 || !provider_shape_is_ready(range.funding_mode, providers) {
        (Ok(ActivationReadiness::CorePrerequisitesMissing), st)
    } else {
    match script::one_int_spec(
        st,
        MISSING_FEE_PROFILES_SQL@,
        seq![Bind::Id(range.card_range_id)],
        "failed to check active provider fee profiles"@,
    ) { (Err(h), st) => (Err(h), st), (Ok(missing), st) =>
    if missing == 0 {
        (Ok(ActivationReadiness::Ready), st)
    } else {
    (Ok(ActivationReadiness::FeeProfilesMissing), st)
    }}}}}
}

/// Whether a range has one active policy, the providers that its funding mode asks for, and a fee
/// profile for each of them.
pub fn activation_ready(
    s: &mut Session,
    range: &CardRange,
) -> (r: Result<ActivationReadiness, Halt>)
    ensures
        (script::seen(r), final(s)@) == activation_ready_spec(old(s)@, *range),
{
    let providers = script::one_int(
        s,
        ACTIVE_PROVIDERS_SQL,
        binds::binds1(Bind::Id(range.card_range_id)),
        "failed to count eligible providers",
    )?;
    let policies = script::one_int(
        s,
        ACTIVE_POLICIES_SQL,
        binds::binds1(Bind::Id(range.card_range_id)),
        "failed to check active policy",
    )?;
    if policies != 1 || !provider_shape_ready(range.funding_mode, providers) {
        return Ok(ActivationReadiness::CorePrerequisitesMissing);
    }
    let missing = script::one_int(
        s,
        MISSING_FEE_PROFILES_SQL,
        binds::binds1(Bind::Id(range.card_range_id)),
        "failed to check active provider fee profiles",
    )?;
    if missing == 0 {
        return Ok(ActivationReadiness::Ready);
    }
    Ok(ActivationReadiness::FeeProfilesMissing)
}

/// Changes the runtime state of a range that has no publication pending.
pub open spec fn update_runtime_state_spec(
    st: RunView,
    card_range_id: Uuid,
    status: CardRangeStatus,
    issuance_enabled: bool,
    cms_operation_mode: String,
    operation_id: Uuid,
    actor: String,
) -> (Result<(), HaltView>, RunView) {
    match script::execute_count_spec(
        st,
        UPDATE_RUNTIME_SQL@,
        seq![
            Bind::Label(status.code()),
            Bind::Flag(issuance_enabled),
            Bind::Text(cms_operation_mode),
            Bind::Id(operation_id),
            Bind::Text(actor),
            Bind::Id(card_range_id),
        ],
        "failed to update range runtime state"@,
        "failed to inspect range runtime update"@,
    ) { (Err(h), st) => (Err(h), st), (Ok(touched), st) =>
    if touched != 1 {
        (script::conflict_fault("card range runtime state changed during update"@), st)
    } else {
    (Ok(()), st)
    }}
}

/// Changes the runtime state of a range that has no publication pending.
pub fn update_runtime_state(
    s: &mut Session,
    card_range_id: Uuid,
    status: CardRangeStatus,
    issuance_enabled: bool,
    cms_operation_mode: &String,
    operation_id: Uuid,
    actor: &String,
) -> (r: Result<(), Halt>)
    ensures
        (script::seen(r), final(s)@) == update_runtime_state_spec(
            old(s)@,
            card_range_id,
            status,
            issuance_enabled,
            *cms_operation_mode,
            operation_id,
            *actor,
        ),
{
    let touched = script::execute_count(
        s,
        UPDATE_RUNTIME_SQL,
        binds::binds6(
            Bind::Label(status.as_db_value()),
            Bind::Flag(issuance_enabled),
            Bind::Text(cms_operation_mode.clone()),
            Bind::Id(operation_id),
            Bind::Text(actor.clone()),
            Bind::Id(card_range_id),
        ),
        "failed to update range runtime state",
        "failed to inspect range runtime update",
    )?;
    if touched != 1 {
        return Err(script::fail_conflict("card range runtime state changed during update"));
    }
    Ok(())
}

/// The controls of a card range as they are published. The status and the mode are JSON texts.
#[derive(Debug)]
pub struct CardRangeControls {
    pub card_range_id: Uuid,
    pub range_status: String,
    pub issuance_enabled: bool,
    pub cms_operation_mode: String,
    pub operational_version: i64,
}

impl CardRangeControls {
    /// What their publication says, with the providers of the range.
    pub open spec fn members(self, providers: Seq<Uuid>) -> Seq<JsonMemberView> {
        document::range_control_members(
            self.card_range_id,
            JsonValueView::Document(self.range_status@),
            self.issuance_enabled,
            JsonValueView::Document(self.cms_operation_mode@),
            self.operational_version,
            providers,
        )
    }
}

/// What the publication of the controls of a card range says.
pub fn controls_text(controls: &CardRangeControls, providers: &Vec<Uuid>) -> (r: String)
    ensures
        r@ == json::json_object_text(controls.members(providers@)),
{
    document::range_control_text(
        controls.card_range_id,
        JsonValue::Document(controls.range_status.clone()),
        controls.issuance_enabled,
        JsonValue::Document(controls.cms_operation_mode.clone()),
        controls.operational_version,
        providers,
    )
}

/// The provider that a row names.
pub open spec fn map_provider_id_spec(row: Row) -> Result<Uuid, HaltView> {
    match row.raw_at(0, "failed to map eligible provider"@) { Err(h) => Err(h), Ok(provider_raw) =>
    script::id_of(provider_raw@)
    }
}

/// The provider that a row names.
pub fn map_provider_id(row: &Row) -> (r: Result<Uuid, Halt>)
    ensures
        script::seen(r) == map_provider_id_spec(*row),
{
    let provider_raw = row.raw(0, "failed to map eligible provider")?;
    script::to_id(provider_raw)
}

/// The providers that rows name, in order.
pub open spec fn map_provider_ids_spec(
    rows: Seq<Row>,
    i: nat,
    done: Seq<Uuid>,
) -> Result<Seq<Uuid>, HaltView>
    decreases rows.len() - i,
{
    if i >= rows.len() {
        Ok(done)
    } else {
        match map_provider_id_spec(rows[i as int]) {
            Err(h) => Err(h), Ok(item) => map_provider_ids_spec(rows, i + 1, done.push(item))
        }
    }
}

/// The providers that rows name, in order.
pub fn map_provider_ids(rows: &Vec<Row>) -> (r: Result<Vec<Uuid>, Halt>)
    ensures
        script::seen_view(r) == map_provider_ids_spec(rows@, 0, Seq::empty()),
{
    let mut done: Vec<Uuid> = Vec::new();
    let mut i: usize = 0;
    assert(done@ =~= Seq::empty());
    while i < rows.len()
        invariant
            i <= rows@.len(),
            map_provider_ids_spec(rows@, 0, Seq::empty()) == map_provider_ids_spec(
                rows@,
                i as nat,
                done@,
            ),
        decreases rows@.len() - i,
    {
        let item = map_provider_id(&rows[i])?;
        done.push(item);
        i = i + 1;
    }
    Ok(done)
}

/// Each is that of its own row, and they come in the order of the rows.
pub proof fn map_provider_ids_go_in_turn(rows: Seq<Row>, i: nat, done: Seq<Uuid>)
    requires
        i <= rows.len(),
    ensures
        map_provider_ids_spec(rows, i, done) matches Ok(all) ==> {
            &&& all.len() == done.len() + (rows.len() - i)
            &&& all.take(done.len() as int) == done
            &&& forall|k: int| i <= k < rows.len() ==> (#[trigger] rows[k], map_provider_id_spec(rows[k])) == (
                rows[k],
                Ok::<Uuid, HaltView>(all[done.len() + k - i]),
            )
        },
    decreases rows.len() - i,
{
    if i < rows.len() {
        if let Ok(item) = map_provider_id_spec(rows[i as int]) {
            map_provider_ids_go_in_turn(rows, i + 1, done.push(item));
            if let Ok(all) = map_provider_ids_spec(rows, i, done) {
                assert(
                    all.take(done.len() as int) =~= all.take(
                        done.len() as int + 1,
                    ).take(done.len() as int)
                );
                assert(done.push(item).take(done.len() as int) =~= done);
                assert(
                    all[done.len() as int] == all.take(done.len() as int + 1)[done.len() as int]
                );
            }
        }
    } else {
        assert(done.take(done.len() as int) =~= done);
    }
}

/// Stores the event that publishes the controls of a range, with its operation.
pub open spec fn insert_control_outbox_spec(
    st: RunView,
    range: CardRange,
    operation_id: Uuid,
    headers_of: HeaderSource,
) -> (Result<(), HaltView>, RunView) {
    match outbox::insert_integration_operation_spec(
        st,
        operation_id,
        "CARD_RANGE_CONTROL_PUBLISH",
        "CARD_RANGE",
        range.card_range_id,
        1,
    ) { (Err(h), st) => (Err(h), st), (Ok(_), st) =>
    match script::rows_spec(
        st,
        ELIGIBLE_PROVIDERS_SQL@,
        seq![Bind::Id(range.card_range_id)],
        "r",
        "failed to list eligible providers"@,
    ) { (Err(h), st) => (Err(h), st), (Ok(found), st) =>
    match map_provider_ids_spec(
        found.rows@,
        0,
        Seq::empty(),
    ) { Err(h) => (Err(h), st), Ok(providers) =>
    if let Some(cause) = found.failure {
        (script::failed("failed to read eligible provider"@, cause@), st)
    } else {
    match script::fresh_id_spec(st) { (Err(h), st) => (Err(h), st), (Ok(event_id), st) =>
    match script::consult_text_spec(
        st,
        Rule::CardRangeStatusDocument(range.status),
    ) { (Err(h), st) => (Err(h), st), (Ok(range_status), st) =>
    match script::consult_text_spec(
        st,
        Rule::CmsModeDocument(range.cms_operation_mode),
    ) { (Err(h), st) => (Err(h), st), (Ok(mode), st) =>
    { let keys = EventKeys {
        event_id,
        event_type: "CARD_RANGE_CONTROL_PUBLISH_REQUESTED",
        aggregate_type: "CARD_RANGE",
        aggregate_id: range.card_range_id,
        operation_id,
    };
    { let controls = CardRangeControls {
        card_range_id: range.card_range_id,
        range_status,
        issuance_enabled: range.issuance_enabled,
        cms_operation_mode: mode,
        operational_version: range.operational_version,
    };
    match script::encode_with_spec(
        st,
        Rule::RangeControlEvent(keys, controls),
        AttachmentView::Providers(providers),
        "failed to serialize range control event"@,
    ) { (Err(h), st) => (Err(h), st), (Ok(payload), st) =>
    match script::encode_spec(
        st,
        Rule::EventHeaders(headers_of),
        "failed to serialize range control headers"@,
    ) { (Err(h), st) => (Err(h), st), (Ok(headers), st) =>
    match script::execute_spec(
        st,
        CONTROL_OUTBOX_SQL@,
        seq![
            Bind::Id(event_id),
            Bind::Id(operation_id),
            Bind::Label("CARD_RANGE_CONTROL_PUBLISH_REQUESTED"),
            Bind::Label("CARD_RANGE"),
            Bind::Id(range.card_range_id),
            Bind::IdText(range.card_range_id),
            Bind::Text(payload),
            Bind::Text(headers),
        ],
        "failed to insert range control outbox event"@,
    ) { (Err(h), st) => (Err(h), st), (Ok(_), st) =>
    (Ok(()), st)
    }}}}}}}}}}}}
}

/// Stores the event that publishes the controls of a range, with its operation.
pub fn insert_control_outbox(
    s: &mut Session,
    range: &CardRange,
    operation_id: Uuid,
    headers_of: &HeaderSource,
) -> (r: Result<(), Halt>)
    ensures
        (script::seen(r), final(s)@) == insert_control_outbox_spec(
            old(s)@,
            *range,
            operation_id,
            *headers_of,
        ),
{
    outbox::insert_integration_operation(
        s,
        operation_id,
        "CARD_RANGE_CONTROL_PUBLISH",
        "CARD_RANGE",
        range.card_range_id,
        1,
    )?;
    let found = script::rows(
        s,
        ELIGIBLE_PROVIDERS_SQL,
        binds::binds1(Bind::Id(range.card_range_id)),
        "r",
        "failed to list eligible providers",
    )?;
    let providers = map_provider_ids(&found.rows)?;
    if let Some(cause) = &found.failure {
        return Err(script::fail_because("failed to read eligible provider", cause.as_str()));
    }
    let event_id = script::fresh_id(s)?;
    let range_status = script::consult_text(s, Rule::CardRangeStatusDocument(range.status))?;
    let mode = script::consult_text(s, Rule::CmsModeDocument(range.cms_operation_mode.clone()))?;
    let keys = EventKeys {
        event_id,
        event_type: "CARD_RANGE_CONTROL_PUBLISH_REQUESTED",
        aggregate_type: "CARD_RANGE",
        aggregate_id: range.card_range_id,
        operation_id,
    };
    let controls = CardRangeControls {
        card_range_id: range.card_range_id,
        range_status: range_status.clone(),
        issuance_enabled: range.issuance_enabled,
        cms_operation_mode: mode.clone(),
        operational_version: range.operational_version,
    };
    let payload = script::encode_with(
        s,
        Rule::RangeControlEvent(keys, controls),
        Attachment::Providers(providers),
        "failed to serialize range control event",
    )?;
    let headers = script::encode(
        s,
        Rule::EventHeaders(headers_of.clone()),
        "failed to serialize range control headers",
    )?;
    script::execute(
        s,
        CONTROL_OUTBOX_SQL,
        binds::binds8(
            Bind::Id(event_id),
            Bind::Id(operation_id),
            Bind::Label("CARD_RANGE_CONTROL_PUBLISH_REQUESTED"),
            Bind::Label("CARD_RANGE"),
            Bind::Id(range.card_range_id),
            Bind::IdText(range.card_range_id),
            Bind::Text(payload.clone()),
            Bind::Text(headers.clone()),
        ),
        "failed to insert range control outbox event",
    )?;
    Ok(())
}

/// How a change went on: it was refused, or it was made and is published by an operation.
pub enum MutationStep {
    Refused(CardRangeMutationPersistenceOutcome),
    Made(Option<Uuid>),
}

/// Changes the values of a draft.
pub open spec fn change_draft_spec(
    st: RunView,
    context: MutationCommandContext,
    current: CardRange,
    values: String,
    reason: String,
) -> (Result<MutationStep, HaltView>, RunView) {
    if current.status != CardRangeStatus::Draft {
        (Ok(MutationStep::Refused(CardRangeMutationPersistenceOutcome::Immutable)), st)
    } else {
    match script::consult_spec(
        st,
        Rule::DraftUpdate(current, values, reason),
    ) { (Err(h), st) => (Err(h), st), (Ok(answer), st) =>
    match answer {
        Answer::Draft(Ok(desired)) => {
            if draft_is_unchanged(current, desired) {
                (
                    Ok(MutationStep::Refused(CardRangeMutationPersistenceOutcome::ContractInvalid(Objection::Rule(
                        "requested draft values do not change the card range",
                    )))),
                    st,
                )
            } else {
            match overlaps_other_spec(
                st,
                current.card_range_id,
                desired.numbers,
            ) { (Err(h), st) => (Err(h), st), (Ok(overlaps), st) =>
            if overlaps {
                (Ok(MutationStep::Refused(CardRangeMutationPersistenceOutcome::Overlap)), st)
            } else {
            match idempotency::insert_idempotency_record_spec(
                st,
                context.record,
            ) { (Err(h), st) => (Err(h), st), (Ok(_), st) =>
            match update_draft_spec(
                st,
                desired,
                context.actor.subject,
            ) { (Err(h), st) => (Err(h), st), (Ok(_), st) =>
            (Ok(MutationStep::Made(None)), st)
            }}}}}
        },
        Answer::Draft(Err(objection)) => {
            (
                Ok(MutationStep::Refused(
                    CardRangeMutationPersistenceOutcome::ContractInvalid(
                        Objection::Reported(objection),
                    ),
                )),
                st,
            )
        },
        _ => {
            (script::query_fault(UNEXPECTED_REPLY@), st)
        },
    }
    }}
}

/// Changes the values of a draft.
pub fn change_draft(
    s: &mut Session,
    context: &MutationCommandContext,
    current: &CardRange,
    values: &String,
    reason: &String,
) -> (r: Result<MutationStep, Halt>)
    ensures
        (script::seen(r), final(s)@) == change_draft_spec(
            old(s)@,
            *context,
            *current,
            *values,
            *reason,
        ),
{
    if current.status != CardRangeStatus::Draft {
        return Ok(MutationStep::Refused(CardRangeMutationPersistenceOutcome::Immutable));
    }
    let answer = script::consult(
        s,
        Rule::DraftUpdate(current.clone(), values.clone(), reason.clone()),
    )?;
    match answer {
        Answer::Draft(Ok(desired)) => {
            if draft_values_equal(current, desired) {
                return Ok(MutationStep::Refused(CardRangeMutationPersistenceOutcome::ContractInvalid(Objection::Rule(
                    "requested draft values do not change the card range",
                ))));
            }
            let overlaps = overlaps_other(s, current.card_range_id, &desired.numbers)?;
            if overlaps {
                return Ok(MutationStep::Refused(CardRangeMutationPersistenceOutcome::Overlap));
            }
            idempotency::insert_idempotency_record(s, &context.record)?;
            update_draft(s, desired, &context.actor.subject)?;
            return Ok(MutationStep::Made(None));
        },
        Answer::Draft(Err(objection)) => {
            return Ok(MutationStep::Refused(
                CardRangeMutationPersistenceOutcome::ContractInvalid(
                    Objection::Reported(objection.clone()),
                ),
            ));
        },
        _ => {
            return Err(script::fail_query(UNEXPECTED_REPLY));
        },
    }
}

/// Activates a range that is not active, has no publication pending and has what it needs.
pub open spec fn activate_spec(
    st: RunView,
    context: MutationCommandContext,
    current: CardRange,
    reason: String,
) -> (Result<MutationStep, HaltView>, RunView) {
    if !reason_is_valid(reason@) {
        (
            Ok(MutationStep::Refused(CardRangeMutationPersistenceOutcome::ContractInvalid(Objection::Rule(
                "change reason must contain 1 through 1000 characters",
            )))),
            st,
        )
    } else {
    if current.status == CardRangeStatus::Active {
        (Ok(MutationStep::Refused(CardRangeMutationPersistenceOutcome::InvalidTransition)), st)
    } else {
    if current.range_control_operation_id is Some {
        (Ok(MutationStep::Refused(CardRangeMutationPersistenceOutcome::PublicationPending)), st)
    } else {
    match activation_ready_spec(st, current) { (Err(h), st) => (Err(h), st), (Ok(readiness), st) =>
    if readiness == ActivationReadiness::CorePrerequisitesMissing {
        (Ok(MutationStep::Refused(CardRangeMutationPersistenceOutcome::PrerequisitesMissing)), st)
    } else {
    if readiness == ActivationReadiness::FeeProfilesMissing {
        (Ok(MutationStep::Refused(CardRangeMutationPersistenceOutcome::FeeProfilesMissing)), st)
    } else {
    match idempotency::insert_idempotency_record_spec(
        st,
        context.record,
    ) { (Err(h), st) => (Err(h), st), (Ok(_), st) =>
    match script::fresh_id_spec(st) { (Err(h), st) => (Err(h), st), (Ok(operation_id), st) =>
    match update_runtime_state_spec(
        st,
        current.card_range_id,
        CardRangeStatus::Active,
        current.issuance_enabled,
        current.cms_operation_mode,
        operation_id,
        context.actor.subject,
    ) { (Err(h), st) => (Err(h), st), (Ok(_), st) =>
    (Ok(MutationStep::Made(Some(operation_id))), st)
    }}}}}}}}}
}

/// Activates a range that is not active, has no publication pending and has what it needs.
pub fn activate(
    s: &mut Session,
    context: &MutationCommandContext,
    current: &CardRange,
    reason: &String,
) -> (r: Result<MutationStep, Halt>)
    ensures
        (script::seen(r), final(s)@) == activate_spec(old(s)@, *context, *current, *reason),
{
    if !valid_reason(reason.as_str()) {
        return Ok(MutationStep::Refused(CardRangeMutationPersistenceOutcome::ContractInvalid(Objection::Rule(
            "change reason must contain 1 through 1000 characters",
        ))));
    }
    if current.status == CardRangeStatus::Active {
        return Ok(MutationStep::Refused(CardRangeMutationPersistenceOutcome::InvalidTransition));
    }
    if current.range_control_operation_id.is_some() {
        return Ok(MutationStep::Refused(CardRangeMutationPersistenceOutcome::PublicationPending));
    }
    let readiness = activation_ready(s, current)?;
    if readiness == ActivationReadiness::CorePrerequisitesMissing {
        return Ok(MutationStep::Refused(CardRangeMutationPersistenceOutcome::PrerequisitesMissing));
    }
    if readiness == ActivationReadiness::FeeProfilesMissing {
        return Ok(MutationStep::Refused(CardRangeMutationPersistenceOutcome::FeeProfilesMissing));
    }
    idempotency::insert_idempotency_record(s, &context.record)?;
    let operation_id = script::fresh_id(s)?;
    update_runtime_state(
        s,
        current.card_range_id,
        CardRangeStatus::Active,
        current.issuance_enabled,
        &current.cms_operation_mode,
        operation_id,
        &context.actor.subject,
    )?;
    Ok(MutationStep::Made(Some(operation_id)))
}

/// Suspends a range that is active and has no publication pending.
pub open spec fn suspend_spec(
    st: RunView,
    context: MutationCommandContext,
    current: CardRange,
    reason: String,
) -> (Result<MutationStep, HaltView>, RunView) {
    if !reason_is_valid(reason@) {
        (
            Ok(MutationStep::Refused(CardRangeMutationPersistenceOutcome::ContractInvalid(Objection::Rule(
                "change reason must contain 1 through 1000 characters",
            )))),
            st,
        )
    } else {
    if current.range_control_operation_id is Some {
        (Ok(MutationStep::Refused(CardRangeMutationPersistenceOutcome::PublicationPending)), st)
    } else {
    if current.status != CardRangeStatus::Active {
        (Ok(MutationStep::Refused(CardRangeMutationPersistenceOutcome::InvalidTransition)), st)
    } else {
    match idempotency::insert_idempotency_record_spec(
        st,
        context.record,
    ) { (Err(h), st) => (Err(h), st), (Ok(_), st) =>
    match script::fresh_id_spec(st) { (Err(h), st) => (Err(h), st), (Ok(operation_id), st) =>
    match update_runtime_state_spec(
        st,
        current.card_range_id,
        CardRangeStatus::Suspended,
        current.issuance_enabled,
        current.cms_operation_mode,
        operation_id,
        context.actor.subject,
    ) { (Err(h), st) => (Err(h), st), (Ok(_), st) =>
    (Ok(MutationStep::Made(Some(operation_id))), st)
    }}}}}}
}

/// Suspends a range that is active and has no publication pending.
pub fn suspend(
    s: &mut Session,
    context: &MutationCommandContext,
    current: &CardRange,
    reason: &String,
) -> (r: Result<MutationStep, Halt>)
    ensures
        (script::seen(r), final(s)@) == suspend_spec(old(s)@, *context, *current, *reason),
{
    if !valid_reason(reason.as_str()) {
        return Ok(MutationStep::Refused(CardRangeMutationPersistenceOutcome::ContractInvalid(Objection::Rule(
            "change reason must contain 1 through 1000 characters",
        ))));
    }
    if current.range_control_operation_id.is_some() {
        return Ok(MutationStep::Refused(CardRangeMutationPersistenceOutcome::PublicationPending));
    }
    if current.status != CardRangeStatus::Active {
        return Ok(MutationStep::Refused(CardRangeMutationPersistenceOutcome::InvalidTransition));
    }
    idempotency::insert_idempotency_record(s, &context.record)?;
    let operation_id = script::fresh_id(s)?;
    update_runtime_state(
        s,
        current.card_range_id,
        CardRangeStatus::Suspended,
        current.issuance_enabled,
        &current.cms_operation_mode,
        operation_id,
        &context.actor.subject,
    )?;
    Ok(MutationStep::Made(Some(operation_id)))
}

/// Changes the operational controls of a range that has left its draft.
pub open spec fn change_controls_spec(
    st: RunView,
    context: MutationCommandContext,
    current: CardRange,
    issuance_enabled: bool,
    cms_operation_mode: String,
    reason: String,
) -> (Result<MutationStep, HaltView>, RunView) {
    match script::verdict_spec(
        st,
        Rule::ControlChange(issuance_enabled, cms_operation_mode, reason),
    ) { (Err(h), st) => (Err(h), st), (Ok(objection), st) =>
    if let Some(found) = objection {
        (
            Ok(MutationStep::Refused(
                CardRangeMutationPersistenceOutcome::ContractInvalid(Objection::Reported(found)),
            )),
            st,
        )
    } else {
    if current.status == CardRangeStatus::Draft {
        (Ok(MutationStep::Refused(CardRangeMutationPersistenceOutcome::InvalidTransition)), st)
    } else {
    if current.range_control_operation_id is Some {
        (Ok(MutationStep::Refused(CardRangeMutationPersistenceOutcome::PublicationPending)), st)
    } else {
    if current.issuance_enabled == issuance_enabled
        && current.cms_operation_mode@ == cms_operation_mode@ {
        (
            Ok(MutationStep::Refused(CardRangeMutationPersistenceOutcome::ContractInvalid(Objection::Rule(
                "requested operational controls do not change the card range",
            )))),
            st,
        )
    } else {
    match idempotency::insert_idempotency_record_spec(
        st,
        context.record,
    ) { (Err(h), st) => (Err(h), st), (Ok(_), st) =>
    match script::fresh_id_spec(st) { (Err(h), st) => (Err(h), st), (Ok(operation_id), st) =>
    match update_runtime_state_spec(
        st,
        current.card_range_id,
        current.status,
        issuance_enabled,
        cms_operation_mode,
        operation_id,
        context.actor.subject,
    ) { (Err(h), st) => (Err(h), st), (Ok(_), st) =>
    (Ok(MutationStep::Made(Some(operation_id))), st)
    }}}}}}}}
}

/// Changes the operational controls of a range that has left its draft.
pub fn change_controls(
    s: &mut Session,
    context: &MutationCommandContext,
    current: &CardRange,
    issuance_enabled: bool,
    cms_operation_mode: &String,
    reason: &String,
) -> (r: Result<MutationStep, Halt>)
    ensures
        (script::seen(r), final(s)@) == change_controls_spec(
            old(s)@,
            *context,
            *current,
            issuance_enabled,
            *cms_operation_mode,
            *reason,
        ),
{
    let objection = script::verdict(
        s,
        Rule::ControlChange(issuance_enabled, cms_operation_mode.clone(), reason.clone()),
    )?;
    if let Some(found) = objection {
        return Ok(MutationStep::Refused(
            CardRangeMutationPersistenceOutcome::ContractInvalid(Objection::Reported(found)),
        ));
    }
    if current.status == CardRangeStatus::Draft {
        return Ok(MutationStep::Refused(CardRangeMutationPersistenceOutcome::InvalidTransition));
    }
    if current.range_control_operation_id.is_some() {
        return Ok(MutationStep::Refused(CardRangeMutationPersistenceOutcome::PublicationPending));
    }
    if current.issuance_enabled == issuance_enabled
        && text::same_text(current.cms_operation_mode.as_str(), cms_operation_mode.as_str()) {
        return Ok(MutationStep::Refused(CardRangeMutationPersistenceOutcome::ContractInvalid(Objection::Rule(
            "requested operational controls do not change the card range",
        ))));
    }
    idempotency::insert_idempotency_record(s, &context.record)?;
    let operation_id = script::fresh_id(s)?;
    update_runtime_state(
        s,
        current.card_range_id,
        current.status,
        issuance_enabled,
        cms_operation_mode,
        operation_id,
        &context.actor.subject,
    )?;
    Ok(MutationStep::Made(Some(operation_id)))
}

/// Makes a change to a locked range, or refuses it.
pub open spec fn make_change_spec(
    st: RunView,
    context: MutationCommandContext,
    current: CardRange,
    mutation: CardRangeMutation,
) -> (Result<MutationStep, HaltView>, RunView) {
    match mutation {
        CardRangeMutation::UpdateDraft { values, reason } => {
            change_draft_spec(st, context, current, values, reason)
        },
        CardRangeMutation::Activate { reason } => {
            activate_spec(st, context, current, reason)
        },
        CardRangeMutation::Suspend { reason } => {
            suspend_spec(st, context, current, reason)
        },
        CardRangeMutation::UpdateControls { issuance_enabled, cms_operation_mode, reason } => {
            change_controls_spec(st, context, current, issuance_enabled, cms_operation_mode, reason)
        },
    }
}

/// Makes a change to a locked range, or refuses it.
pub fn make_change(
    s: &mut Session,
    context: &MutationCommandContext,
    current: &CardRange,
    mutation: &CardRangeMutation,
) -> (r: Result<MutationStep, Halt>)
    ensures
        (script::seen(r), final(s)@) == make_change_spec(old(s)@, *context, *current, *mutation),
{
    match mutation {
        CardRangeMutation::UpdateDraft { values, reason } => {
            return change_draft(s, context, current, values, reason);
        },
        CardRangeMutation::Activate { reason } => {
            return activate(s, context, current, reason);
        },
        CardRangeMutation::Suspend { reason } => {
            return suspend(s, context, current, reason);
        },
        CardRangeMutation::UpdateControls { issuance_enabled, cms_operation_mode, reason } => {
            return change_controls(
                s,
                context,
                current,
                *issuance_enabled,
                cms_operation_mode,
                reason,
            );
        },
    }
}

/// Stores the event that publishes the controls of a range, where an operation asks for it.
pub open spec fn publish_controls_spec(
    st: RunView,
    range: CardRange,
    operation_id: Option<Uuid>,
    headers_of: HeaderSource,
) -> (Result<(), HaltView>, RunView) {
    match operation_id {
    None => {
        (Ok(()), st)
    },
    Some(id) =>
    insert_control_outbox_spec(st, range, id, headers_of)
    }
}

/// Stores the event that publishes the controls of a range, where an operation asks for it.
pub fn publish_controls(
    s: &mut Session,
    range: &CardRange,
    operation_id: Option<Uuid>,
    headers_of: &HeaderSource,
) -> (r: Result<(), Halt>)
    ensures
        (script::seen(r), final(s)@) == publish_controls_spec(
            old(s)@,
            *range,
            operation_id,
            *headers_of,
        ),
{
    let id = match operation_id {
        Some(v) => v,
        None => {
            return Ok(());
        },
    };
    insert_control_outbox(s, range, id, headers_of)
}

/// Publishes, audits and completes a change that was made.
#[verifier::opaque]
pub open spec fn record_change_spec(
    st: RunView,
    context: MutationCommandContext,
    before: CardRange,
    mutation: CardRangeMutation,
    operation_id: Option<Uuid>,
) -> (Result<CardRangeMutationPersistenceOutcome, HaltView>, RunView) {
    match card_range::fetch_card_range_spec(
        st,
        before.card_range_id,
    ) { (Err(h), st) => (Err(h), st), (Ok(updated), st) =>
    match publish_controls_spec(
        st,
        updated,
        operation_id,
        context.headers(),
    ) { (Err(h), st) => (Err(h), st), (Ok(_), st) =>
    match script::consult_text_spec(
        st,
        Rule::CardRangeSnapshot(before),
    ) { (Err(h), st) => (Err(h), st), (Ok(old_snapshot), st) =>
    match script::consult_text_spec(
        st,
        Rule::CardRangeSnapshot(updated),
    ) { (Err(h), st) => (Err(h), st), (Ok(new_snapshot), st) =>
    match audit::insert_audit_log_spec(
        st,
        "CARD_RANGE",
        before.card_range_id,
        mutation.spec_action(),
        Bind::Text(mutation.spec_reason()),
        Some(Snapshot::Text(old_snapshot)),
        Some(Snapshot::Text(new_snapshot)),
        audit::trusted_origin_spec(context.audit),
    ) { (Err(h), st) => (Err(h), st), (Ok(_), st) =>
    match script::encode_spec(
        st,
        Rule::CardRangeDocument(updated),
        "failed to serialize range mutation result"@,
    ) { (Err(h), st) => (Err(h), st), (Ok(written), st) =>
    { let response = Document::RangeChange(written, operation_id);
    match idempotency::complete_idempotency_record_spec(
        st,
        context.operation_type,
        context.idempotency_key,
        "card_range",
        before.card_range_id,
        Snapshot::Document(response),
    ) { (Err(h), st) => (Err(h), st), (Ok(_), st) =>
    (
        Ok(CardRangeMutationPersistenceOutcome::Applied(Box::new(
            CardRangeMutationResult { card_range: updated, operation_id },
        ))),
        st,
    )
    }}}}}}}}
}

/// Publishes, audits and completes a change that was made.
pub fn record_change(
    s: &mut Session,
    context: &MutationCommandContext,
    before: &CardRange,
    mutation: &CardRangeMutation,
    operation_id: Option<Uuid>,
) -> (r: Result<CardRangeMutationPersistenceOutcome, Halt>)
    ensures
        (script::seen(r), final(s)@) == record_change_spec(
            old(s)@,
            *context,
            *before,
            *mutation,
            operation_id,
        ),
{
    proof {
        reveal(record_change_spec);
    }
    let updated = card_range::fetch_card_range(s, before.card_range_id)?;
    publish_controls(s, &updated, operation_id, &context.event_headers())?;
    let old_snapshot = script::consult_text(s, Rule::CardRangeSnapshot(before.clone()))?;
    let new_snapshot = script::consult_text(s, Rule::CardRangeSnapshot(updated.clone()))?;
    audit::insert_audit_log(
        s,
        "CARD_RANGE",
        before.card_range_id,
        mutation.action(),
        Bind::Text(mutation.reason().clone()),
        Some(Snapshot::Text(old_snapshot)),
        Some(Snapshot::Text(new_snapshot)),
        audit::trusted_origin(&context.audit),
    )?;
    let written = script::encode(
        s,
        Rule::CardRangeDocument(updated.clone()),
        "failed to serialize range mutation result",
    )?;
    let response = Document::RangeChange(written.clone(), operation_id);
    idempotency::complete_idempotency_record(
        s,
        &context.operation_type,
        &context.idempotency_key,
        "card_range",
        before.card_range_id,
        Snapshot::Document(response),
    )?;
    Ok(CardRangeMutationPersistenceOutcome::Applied(Box::new(
        CardRangeMutationResult { card_range: updated, operation_id },
    )))
}

/// Changes a card range, or tells why not. Under one idempotency key it is changed once.
pub open spec fn mutate_card_range_atomic_spec(
    st: RunView,
    context: MutationCommandContext,
    card_range_id: Uuid,
    mutation: CardRangeMutation,
) -> (Result<CardRangeMutationPersistenceOutcome, HaltView>, RunView) {
    match idempotency::fetch_idempotency_record_spec(
        st,
        context.operation_type,
        context.idempotency_key,
    ) { (Err(h), st) => (Err(h), st), (Ok(existing), st) =>
    if let Some(record) = existing {
        (Ok(mutation_verdict(idempotency::idempotency_verdict(record, context.request_hash))), st)
    } else {
    match card_range::lock_card_range_structure_spec(st) { (
        Err(h),
        st,
    ) => (Err(h), st), (Ok(_), st) =>
    match fetch_range_for_update_spec(
        st,
        card_range_id,
    ) { (Err(h), st) => (Err(h), st), (Ok(found), st) =>
    match found {
    None => {
        (Ok(CardRangeMutationPersistenceOutcome::NotFound), st)
    },
    Some(current) =>
    match idempotency::fetch_idempotency_record_spec(
        st,
        context.operation_type,
        context.idempotency_key,
    ) { (Err(h), st) => (Err(h), st), (Ok(recheck), st) =>
    if let Some(record) = recheck {
        (Ok(mutation_verdict(idempotency::idempotency_verdict(record, context.request_hash))), st)
    } else {
    match make_change_spec(
        st,
        context,
        current,
        mutation,
    ) { (Err(h), st) => (Err(h), st), (Ok(step), st) =>
    match step {
        MutationStep::Refused(outcome) => {
            (Ok(outcome), st)
        },
        MutationStep::Made(operation_id) => {
            record_change_spec(st, context, current, mutation, operation_id)
        },
    }
    }}}}}}}}
}

impl OracleRepository {
    /// Changes a card range, or tells why not. Under one idempotency key it is changed once.
    pub fn mutate_card_range_atomic(
        s: &mut Session,
        context: &MutationCommandContext,
        card_range_id: Uuid,
        mutation: &CardRangeMutation,
    ) -> (r: Result<CardRangeMutationPersistenceOutcome, Halt>)
        ensures
            (script::seen(r), final(s)@) == mutate_card_range_atomic_spec(
                old(s)@,
                *context,
                card_range_id,
                *mutation,
            ),
    {
        let existing = idempotency::fetch_idempotency_record(
            s,
            &context.operation_type,
            &context.idempotency_key,
        )?;
        if let Some(record) = &existing {
            return Ok(classify_idempotency(record, &context.request_hash));
        }
        card_range::lock_card_range_structure(s)?;
        let found = fetch_range_for_update(s, card_range_id)?;
        let current = match found {
            Some(v) => v,
            None => {
                return Ok(CardRangeMutationPersistenceOutcome::NotFound);
            },
        };
        let recheck = idempotency::fetch_idempotency_record(
            s,
            &context.operation_type,
            &context.idempotency_key,
        )?;
        if let Some(record) = &recheck {
            return Ok(classify_idempotency(record, &context.request_hash));
        }
        let step = make_change(s, context, &current, mutation)?;
        match step {
            MutationStep::Refused(outcome) => {
                return Ok(outcome);
            },
            MutationStep::Made(operation_id) => {
                return record_change(s, context, &current, mutation, operation_id);
            },
        }
    }
}

/// Under one idempotency key a change of a card range is asked for once: where a record is stored,
/// the command is answered from it, and looking it up is all that is done.
pub proof fn range_change_is_done_once(
    st: RunView,
    context: MutationCommandContext,
    card_range_id: Uuid,
    mutation: CardRangeMutation,
    record: IdempotencyRecord,
)
    requires
        idempotency::fetch_idempotency_record_spec(
            st,
            context.operation_type,
            context.idempotency_key,
        ).0 == Ok::<Option<IdempotencyRecord>, HaltView>(Some(record)),
    ensures
        mutate_card_range_atomic_spec(st, context, card_range_id, mutation) == (
            Ok::<_, HaltView>(
                mutation_verdict(idempotency::idempotency_verdict(record, context.request_hash)),
            ),
            idempotency::fetch_idempotency_record_spec(
                st,
                context.operation_type,
                context.idempotency_key,
            ).1,
        ),
        script::writes(
            mutate_card_range_atomic_spec(st, context, card_range_id, mutation).1.log,
        ) == script::writes(st.log),
{
    broadcast use script::writes_with_another;

}

/// What is carried out of a change of a card range stores audit evidence and completes the
/// command's record last.
#[verifier::rlimit(60)]
pub broadcast proof fn record_change_leaves_evidence(
    st: RunView,
    context: MutationCommandContext,
    before: CardRange,
    mutation: CardRangeMutation,
    operation_id: Option<Uuid>,
)
    ensures
        (
            #[trigger] record_change_spec(st, context, before, mutation, operation_id)
        ).0 matches Ok(outcome) ==> {
            let log = record_change_spec(st, context, before, mutation, operation_id).1.log;
            &&& outcome is Applied
            &&& script::runs(log, audit::AUDIT_INSERT_SQL@) > 0
            &&& script::is_run_of(log.last(), idempotency::IDEMPOTENCY_COMPLETE_SQL@)
        },
{
    broadcast use script::runs_with_another;

    reveal(record_change_spec);
}

/// Where a change of a card range is refused, or answered from a record, nothing is changed.
#[verifier::rlimit(40)]
pub proof fn refused_range_change_changes_nothing(
    st: RunView,
    context: MutationCommandContext,
    card_range_id: Uuid,
    mutation: CardRangeMutation,
)
    ensures
        ({
            let (result, after) = mutate_card_range_atomic_spec(
                st,
                context,
                card_range_id,
                mutation,
            );
            result matches Ok(outcome) ==> outcome is Applied || script::writes(after.log)
                == script::writes(st.log)
        }),
{
    broadcast use {
        script::writes_with_another,
        card_range::map_card_range_row_changes_nothing,
        record_change_leaves_evidence,
    };

}

/// Where a change of a card range is carried out in a run of its own, audit evidence is stored
/// within it, and the command's record is completed last.
#[verifier::rlimit(40)]
pub proof fn range_change_leaves_evidence(
    st: RunView,
    context: MutationCommandContext,
    card_range_id: Uuid,
    mutation: CardRangeMutation,
)
    requires
        st.log.len() == 0,
    ensures
        ({
            let (result, after) = mutate_card_range_atomic_spec(
                st,
                context,
                card_range_id,
                mutation,
            );
            result matches Ok(outcome) ==> outcome is Applied ==> script::runs(
                after.log,
                audit::AUDIT_INSERT_SQL@,
            ) > 0 && script::is_run_of(after.log.last(), idempotency::IDEMPOTENCY_COMPLETE_SQL@)
        }),
{
    broadcast use record_change_leaves_evidence;

}

/// A command that is recorded is answered by its record: under another request it conflicts; under
/// the same one it gets the answer that is stored, or is told that it is under way, or that the
/// record is not in order.
pub proof fn mutation_verdict_goes_by_the_record(
    record: crate::domain::idempotency::IdempotencyRecord,
    request_hash: String,
)
    ensures
        ({
            let answered = mutation_verdict(idempotency::idempotency_verdict(record, request_hash));
            let same = record.request_hash@ == request_hash@;
            &&& answered is IdempotencyConflict <==> !same
            &&& answered is IdempotencyInProgress <==> same && record.status is InProgress
            &&& answered matches CardRangeMutationPersistenceOutcome::Replayed(
                answer,
            ) ==> record.response_snapshot == Some(answer)
            &&& answered is Replayed <==> same && record.status is Completed
                && record.response_snapshot is Some
            &&& answered is IdempotencyInvalidState <==> same && !(record.status is InProgress)
                && !(
            record.status is Completed && record.response_snapshot is Some)
        }),
{
}


/// What is carried out of a change of a card range stores the event that publishes its controls,
/// where an operation does so.
#[verifier::rlimit(60)]
pub broadcast proof fn record_change_publishes(
    st: RunView,
    context: MutationCommandContext,
    before: CardRange,
    mutation: CardRangeMutation,
    operation_id: Option<Uuid>,
)
    ensures
        (
            #[trigger] record_change_spec(st, context, before, mutation, operation_id)
        ).0 matches Ok(outcome) ==> {
            let log = record_change_spec(st, context, before, mutation, operation_id).1.log;
            (
                outcome matches CardRangeMutationPersistenceOutcome::Applied(applied) ==> (
                    applied.operation_id matches Some(id) ==> script::stored_under(
                        log,
                        CONTROL_OUTBOX_SQL@,
                        id,
                    ) > 0
                )
            )
        },
{
    broadcast use {
        script::runs_with_another,
        script::stored_under_with_another,
        card_range::map_card_range_row_changes_nothing,
    };

    reveal(record_change_spec);
}

/// Where a card range is changed and an operation publishes its controls, the event is stored under
/// that operation.
#[verifier::rlimit(40)]
pub proof fn changed_range_is_published(
    st: RunView,
    context: MutationCommandContext,
    card_range_id: Uuid,
    mutation: CardRangeMutation,
)
    ensures
        ({
            let (result, after) = mutate_card_range_atomic_spec(
                st,
                context,
                card_range_id,
                mutation,
            );
            let log = after.log;
            result matches Ok(outcome) ==> (
                outcome matches CardRangeMutationPersistenceOutcome::Applied(applied) ==> (
                    applied.operation_id matches Some(id) ==> script::stored_under(
                        log,
                        CONTROL_OUTBOX_SQL@,
                        id,
                    ) > 0
                )
            )
        }),
{
    broadcast use record_change_publishes;

}

/// A range is ready to be activated where exactly one policy is in force, where it has one active
/// provider, or at least one if several may fund its cards, and where none of them lacks fees.
pub proof fn ready_range_has_policy_providers_and_fees(st: RunView, range: CardRange)
    ensures
        activation_ready_spec(st, range).0 matches Ok(readiness) ==> {
            let (providers, counted) = script::one_int_spec(
                st,
                ACTIVE_PROVIDERS_SQL@,
                seq![Bind::Id(range.card_range_id)],
                "failed to count eligible providers"@,
            );
            let (policies, checked) = script::one_int_spec(
                counted,
                ACTIVE_POLICIES_SQL@,
                seq![Bind::Id(range.card_range_id)],
                "failed to check active policy"@,
            );
            let missing = script::one_int_spec(
                checked,
                MISSING_FEE_PROFILES_SQL@,
                seq![Bind::Id(range.card_range_id)],
                "failed to check active provider fee profiles"@,
            ).0;
            let core = policies->Ok_0 == 1 && (range.funding_mode is SingleProvider
                ==> providers->Ok_0 == 1) && (range.funding_mode is MultiProvider
                ==> providers->Ok_0 >= 1);
            &&& readiness is CorePrerequisitesMissing <==> !core
            &&& readiness is Ready <==> core && missing->Ok_0 == 0
            &&& readiness is FeeProfilesMissing <==> core && missing->Ok_0 != 0
        },
{
}

/// What a range is told to be after a change: its status, whether it issues cards and the mode in
/// which they are operated, under the operation that is answered, where exactly this range is
/// touched.
pub open spec fn told_state(
    log: Seq<script::CallView>,
    card_range_id: Uuid,
    status: &'static str,
    issuance_enabled: bool,
    cms_operation_mode: String,
    operation_id: Uuid,
    subject: String,
) -> bool {
    log.last() == script::change(
        UPDATE_RUNTIME_SQL@,
        seq![
            Bind::Label(status),
            Bind::Flag(issuance_enabled),
            Bind::Text(cms_operation_mode),
            Bind::Id(operation_id),
            Bind::Text(subject),
            Bind::Id(card_range_id),
        ],
    )
}

/// A range is activated where the reason may be stored, where it is not active, where its controls
/// are not being published and where it is ready. Each refusal has its one reason. What is
/// activated keeps its controls.
#[verifier::rlimit(60)]
pub proof fn range_is_activated_when_ready(
    st: RunView,
    context: MutationCommandContext,
    current: CardRange,
    reason: String,
)
    ensures
        ({
            let (result, after) = activate_spec(st, context, current, reason);
            let readiness = activation_ready_spec(st, current).0;
            let sound = reason_is_valid(reason@);
            let idle = !(current.status is Active);
            let free = current.range_control_operation_id is None;
            &&& sound && !idle <==> result == Ok::<_, HaltView>(
                MutationStep::Refused(CardRangeMutationPersistenceOutcome::InvalidTransition),
            )
            &&& sound && idle && !free <==> result == Ok::<_, HaltView>(
                MutationStep::Refused(CardRangeMutationPersistenceOutcome::PublicationPending),
            )
            &&& sound && idle && free && (readiness matches Ok(r) && r is CorePrerequisitesMissing)
                <==> result == Ok::<_, HaltView>(
                MutationStep::Refused(CardRangeMutationPersistenceOutcome::PrerequisitesMissing),
            )
            &&& sound && idle && free && (readiness matches Ok(r) && r is FeeProfilesMissing)
                <==> result == Ok::<_, HaltView>(
                MutationStep::Refused(CardRangeMutationPersistenceOutcome::FeeProfilesMissing),
            )
            &&& !sound ==> (result matches Ok(MutationStep::Refused(outcome)) && outcome
                is ContractInvalid)
            &&& result matches Ok(MutationStep::Made(operation)) ==> {
                &&& sound && idle && free && (readiness matches Ok(r) && r is Ready)
                &&& operation is Some
                &&& told_state(
                    after.log,
                    current.card_range_id,
                    "ACTIVE",
                    current.issuance_enabled,
                    current.cms_operation_mode,
                    operation->Some_0,
                    context.actor.subject,
                )
            }
        }),
{
}

/// A range is suspended where the reason may be stored, where its controls are not being published
/// and where it is active. Each refusal has its one reason. What is suspended keeps its controls.
#[verifier::rlimit(60)]
pub proof fn active_range_is_suspended(
    st: RunView,
    context: MutationCommandContext,
    current: CardRange,
    reason: String,
)
    ensures
        ({
            let (result, after) = suspend_spec(st, context, current, reason);
            let sound = reason_is_valid(reason@);
            let free = current.range_control_operation_id is None;
            let active = current.status is Active;
            &&& sound && !free <==> result == Ok::<_, HaltView>(
                MutationStep::Refused(CardRangeMutationPersistenceOutcome::PublicationPending),
            )
            &&& sound && free && !active <==> result == Ok::<_, HaltView>(
                MutationStep::Refused(CardRangeMutationPersistenceOutcome::InvalidTransition),
            )
            &&& !sound ==> (result matches Ok(MutationStep::Refused(outcome)) && outcome
                is ContractInvalid)
            &&& result matches Ok(MutationStep::Made(operation)) ==> {
                &&& sound && free && active
                &&& operation is Some
                &&& told_state(
                    after.log,
                    current.card_range_id,
                    "SUSPENDED",
                    current.issuance_enabled,
                    current.cms_operation_mode,
                    operation->Some_0,
                    context.actor.subject,
                )
            }
        }),
{
}

/// The controls of a range are changed where the rules do not object, where it is no draft, where
/// its controls are not being published and where they change. Its status stays.
#[verifier::rlimit(60)]
pub proof fn controls_are_changed_to_those_asked_for(
    st: RunView,
    context: MutationCommandContext,
    current: CardRange,
    issuance_enabled: bool,
    cms_operation_mode: String,
    reason: String,
)
    ensures
        ({
            let (result, after) = change_controls_spec(
                st,
                context,
                current,
                issuance_enabled,
                cms_operation_mode,
                reason,
            );
            let verdict = script::verdict_spec(
                st,
                Rule::ControlChange(issuance_enabled, cms_operation_mode, reason),
            ).0;
            let sound = verdict == Ok::<Option<String>, HaltView>(None);
            let free = current.range_control_operation_id is None;
            let draft = current.status is Draft;
            let same = current.issuance_enabled == issuance_enabled && current.cms_operation_mode@
                == cms_operation_mode@;
            &&& verdict matches Ok(Some(objection)) ==> result == Ok::<_, HaltView>(
                MutationStep::Refused(
                    CardRangeMutationPersistenceOutcome::ContractInvalid(
                        Objection::Reported(objection),
                    ),
                ),
            )
            &&& sound && draft <==> result == Ok::<_, HaltView>(
                MutationStep::Refused(CardRangeMutationPersistenceOutcome::InvalidTransition),
            )
            &&& sound && !draft && !free <==> result == Ok::<_, HaltView>(
                MutationStep::Refused(CardRangeMutationPersistenceOutcome::PublicationPending),
            )
            &&& sound && !draft && free
                && same ==> (result matches Ok(MutationStep::Refused(outcome))
                && outcome is ContractInvalid)
            &&& result matches Ok(MutationStep::Made(operation)) ==> {
                &&& sound && !draft && free && !same
                &&& operation is Some
                &&& told_state(
                    after.log,
                    current.card_range_id,
                    current.status.code(),
                    issuance_enabled,
                    cms_operation_mode,
                    operation->Some_0,
                    context.actor.subject,
                )
            }
        }),
{
}

/// Only a draft has its values changed, to values that the rules allow, that differ from those it
/// has and that overlap no other range. No operation publishes them.
#[verifier::rlimit(60)]
pub proof fn draft_is_changed_under_its_rules(
    st: RunView,
    context: MutationCommandContext,
    current: CardRange,
    values: String,
    reason: String,
)
    ensures
        ({
            let result = change_draft_spec(st, context, current, values, reason).0;
            let (asked, at) = script::consult_spec(st, Rule::DraftUpdate(current, values, reason));
            &&& !(current.status is Draft) <==> result == Ok::<_, HaltView>(
                MutationStep::Refused(CardRangeMutationPersistenceOutcome::Immutable),
            )
            &&& current.status is Draft ==> {
                &&& asked matches Ok(Answer::Draft(Err(objection))) ==> result == Ok::<_, HaltView>(
                    MutationStep::Refused(
                        CardRangeMutationPersistenceOutcome::ContractInvalid(
                            Objection::Reported(objection),
                        ),
                    ),
                )
                &&& asked matches Ok(Answer::Draft(Ok(desired))) ==> {
                    let overlaps = script::one_int_spec(
                        at,
                        OVERLAPS_OTHER_SQL@,
                        seq![
                            Bind::Id(current.card_range_id),
                            Bind::Text(desired.numbers.end),
                            Bind::Text(desired.numbers.start),
                        ],
                        "failed to check updated range overlap"@,
                    ).0;
                    &&& draft_is_unchanged(current, desired) ==> (result matches Ok(
                        MutationStep::Refused(outcome),
                    ) && outcome is ContractInvalid)
                    &&& !draft_is_unchanged(current, desired) && (overlaps matches Ok(n) && n > 0)
                        <==> result == Ok::<_, HaltView>(
                        MutationStep::Refused(CardRangeMutationPersistenceOutcome::Overlap),
                    )
                    &&& result matches Ok(MutationStep::Made(operation)) ==> operation is None
                        && !draft_is_unchanged(current, desired)
                        && (overlaps matches Ok(n) && n <= 0)
                }
                &&& (result matches Ok(MutationStep::Made(_))) ==> (asked matches Ok(
                    Answer::Draft(Ok(_)),
                ))
            }
        }),
{
}

/// Each kind of change is made in its own way: what activates a range does not suspend it.
pub proof fn change_is_the_one_asked_for(
    st: RunView,
    context: MutationCommandContext,
    current: CardRange,
    mutation: CardRangeMutation,
)
    ensures
        mutation matches CardRangeMutation::Activate { reason } ==> make_change_spec(
            st,
            context,
            current,
            mutation,
        ) == activate_spec(
            st,
            context,
            current,
            reason,
        ),
        mutation matches CardRangeMutation::Suspend { reason } ==> make_change_spec(
            st,
            context,
            current,
            mutation,
        ) == suspend_spec(
            st,
            context,
            current,
            reason,
        ),
        mutation matches CardRangeMutation::UpdateDraft { values, reason } ==> make_change_spec(
            st,
            context,
            current,
            mutation,
        )
            == change_draft_spec(st, context, current, values, reason),
        mutation matches CardRangeMutation::UpdateControls {
            issuance_enabled,
            cms_operation_mode,
            reason,
        } ==> make_change_spec(st, context, current, mutation) == change_controls_spec(
            st,
            context,
            current,
            issuance_enabled,
            cms_operation_mode,
            reason,
        ),
{
}

/// A change of a range without a record is refused for a range that is missing, and is otherwise
/// answered as the change came out: refused as it was refused, and applied where it was made, with
/// its operation.
#[verifier::rlimit(60)]
pub proof fn range_change_is_answered_as_it_came_out(
    st: RunView,
    context: MutationCommandContext,
    card_range_id: Uuid,
    mutation: CardRangeMutation,
)
    requires
        idempotency::fetch_idempotency_record_spec(
            st,
            context.operation_type,
            context.idempotency_key,
        ).0 == Ok::<Option<IdempotencyRecord>, HaltView>(None),
    ensures
        ({
            let result = mutate_card_range_atomic_spec(st, context, card_range_id, mutation).0;
            let looked = idempotency::fetch_idempotency_record_spec(
                st,
                context.operation_type,
                context.idempotency_key,
            ).1;
            let (held, locked) = card_range::lock_card_range_structure_spec(looked);
            let (found, read) = fetch_range_for_update_spec(locked, card_range_id);
            let (recheck, again) = idempotency::fetch_idempotency_record_spec(
                read,
                context.operation_type,
                context.idempotency_key,
            );
            &&& held is Ok && found == Ok::<Option<CardRange>, HaltView>(None) ==> result == Ok::<
                _,
                HaltView,
            >(CardRangeMutationPersistenceOutcome::NotFound)
            &&& held is Ok && recheck == Ok::<Option<IdempotencyRecord>, HaltView>(None) ==> (found
                matches Ok(Some(current)) ==> match make_change_spec(
                again,
                context,
                current,
                mutation,
            ).0 {
                Ok(MutationStep::Refused(outcome)) => result == Ok::<_, HaltView>(outcome),
                Ok(MutationStep::Made(operation)) => result matches Ok(outcome) ==> (outcome matches
                    CardRangeMutationPersistenceOutcome::Applied(applied) && applied.operation_id
                    == operation),
                Err(h) => result == Err::<CardRangeMutationPersistenceOutcome, HaltView>(h),
            })
        }),
{
    reveal(record_change_spec);
}

/// What evidence calls a change: an update where values change, and a transition where the status
/// does.
pub proof fn change_is_called_by_its_kind(change: CardRangeMutation)
    ensures
        change.spec_action() is Update <==> change is UpdateDraft || change is UpdateControls,
        change.spec_action() is StateTransition <==> !(
            change is UpdateDraft || change is UpdateControls
        ),
{
}

/// What is asked first, and with which values, in a run that does this:
/// reads and locks a card range, where there is one.
pub proof fn fetch_range_for_update_asks_first(
    st: RunView,
    card_range_id: Uuid,
)
    requires
        st.rest.len() == 0,
    ensures
        fetch_range_for_update_spec(st, card_range_id).0 matches Err(HaltView::Ask(asked))
            && (
                asked matches script::CallView::Sql { sql, binds, .. }
                    && sql == RANGE_FOR_UPDATE_SQL@ && binds == seq![Bind::Id(card_range_id)]
            ),
{
}

/// What is asked first, and with which values, in a run that does this:
/// whether another range shares a card number with these.
pub proof fn overlaps_other_asks_first(
    st: RunView,
    card_range_id: Uuid,
    numbers: CardNumberRange,
)
    requires
        st.rest.len() == 0,
    ensures
        overlaps_other_spec(st, card_range_id, numbers).0 matches Err(HaltView::Ask(asked))
            && (
                asked matches script::CallView::Sql { sql, binds, .. } && sql == OVERLAPS_OTHER_SQL@
                    && binds == seq![
                        Bind::Id(card_range_id),
                        Bind::Text(numbers.end),
                        Bind::Text(numbers.start),
                    ]
            ),
{
}

/// What is asked first, and with which values, in a run that does this:
/// changes a draft range.
pub proof fn update_draft_asks_first(
    st: RunView,
    desired: NewCardRange,
    actor: String,
)
    requires
        st.rest.len() == 0,
    ensures
        update_draft_spec(st, desired, actor).0 matches Err(HaltView::Ask(asked))
            && (
                asked matches script::CallView::Sql { sql, binds, .. }
                    && sql == UPDATE_DRAFT_RANGE_SQL@
                    && binds == seq![
                        Bind::Text(desired.numbers.start),
                        Bind::Text(desired.numbers.end),
                        Bind::Label(desired.funding_mode.code()),
                        Bind::Label(desired.withdrawal_limit_authority.code()),
                        card_range::calendar_bind_spec(desired.limit_calendar),
                        Bind::Flag(desired.issuance_enabled),
                        Bind::Text(desired.cms_operation_mode),
                        Bind::JsonText(desired.metadata_json),
                        Bind::Text(actor),
                        Bind::Id(desired.card_range_id),
                    ]
            ),
{
}

/// Exactly one row is touched where a run succeeds that does this:
/// changes a draft range.
pub proof fn update_draft_touches_one_row(
    st: RunView,
    desired: NewCardRange,
    actor: String,
)
    requires
        update_draft_spec(st, desired, actor).0 is Ok,
    ensures
        st.rest[0] == script::Reply::Executed(Ok(1)),
{
}

/// What the database is told, and with which values, where a run succeeds that does this:
/// changes a draft range.
#[verifier::rlimit(60)]
pub proof fn update_draft_is_told(
    st: RunView,
    desired: NewCardRange,
    actor: String,
)
    ensures
        ({
            let (ended, after) = update_draft_spec(st, desired, actor);
            let log = after.log;
            ended is Ok ==> {
                &&& script::ran(
                    log,
                    UPDATE_DRAFT_RANGE_SQL@,
                    seq![
                        Bind::Text(desired.numbers.start),
                        Bind::Text(desired.numbers.end),
                        Bind::Label(desired.funding_mode.code()),
                        Bind::Label(desired.withdrawal_limit_authority.code()),
                        card_range::calendar_bind_spec(desired.limit_calendar),
                        Bind::Flag(desired.issuance_enabled),
                        Bind::Text(desired.cms_operation_mode),
                        Bind::JsonText(desired.metadata_json),
                        Bind::Text(actor),
                        Bind::Id(desired.card_range_id),
                    ],
                )
            }
        }),
{
    broadcast use {
        script::runs_on_with_another,
        script::told_where_with_another,
        card_range::map_card_range_row_changes_nothing,
    };

}

/// What is asked first, and with which values, in a run that does this:
/// whether a range has one active policy, the providers that its funding mode asks for, and a fee
/// profile for each of them.
pub proof fn activation_ready_asks_first(
    st: RunView,
    range: CardRange,
)
    requires
        st.rest.len() == 0,
    ensures
        activation_ready_spec(st, range).0 matches Err(HaltView::Ask(asked))
            && (
                asked matches script::CallView::Sql { sql, binds, .. }
                    && sql == ACTIVE_PROVIDERS_SQL@ && binds == seq![Bind::Id(range.card_range_id)]
            ),
{
}

/// What is asked first, and with which values, in a run that does this:
/// changes the runtime state of a range that has no publication pending.
pub proof fn update_runtime_state_asks_first(
    st: RunView,
    card_range_id: Uuid,
    status: CardRangeStatus,
    issuance_enabled: bool,
    cms_operation_mode: String,
    operation_id: Uuid,
    actor: String,
)
    requires
        st.rest.len() == 0,
    ensures
        update_runtime_state_spec(
            st,
            card_range_id,
            status,
            issuance_enabled,
            cms_operation_mode,
            operation_id,
            actor,
        ).0 matches Err(HaltView::Ask(asked))
            && (
                asked matches script::CallView::Sql { sql, binds, .. } && sql == UPDATE_RUNTIME_SQL@
                    && binds == seq![
                        Bind::Label(status.code()),
                        Bind::Flag(issuance_enabled),
                        Bind::Text(cms_operation_mode),
                        Bind::Id(operation_id),
                        Bind::Text(actor),
                        Bind::Id(card_range_id),
                    ]
            ),
{
}

/// Exactly one row is touched where a run succeeds that does this:
/// changes the runtime state of a range that has no publication pending.
pub proof fn update_runtime_state_touches_one_row(
    st: RunView,
    card_range_id: Uuid,
    status: CardRangeStatus,
    issuance_enabled: bool,
    cms_operation_mode: String,
    operation_id: Uuid,
    actor: String,
)
    requires
        update_runtime_state_spec(
            st,
            card_range_id,
            status,
            issuance_enabled,
            cms_operation_mode,
            operation_id,
            actor,
        ).0 is Ok,
    ensures
        st.rest[0] == script::Reply::Executed(Ok(1)),
{
}

/// What the database is told, and with which values, where a run succeeds that does this:
/// changes the runtime state of a range that has no publication pending.
#[verifier::rlimit(60)]
pub proof fn update_runtime_state_is_told(
    st: RunView,
    card_range_id: Uuid,
    status: CardRangeStatus,
    issuance_enabled: bool,
    cms_operation_mode: String,
    operation_id: Uuid,
    actor: String,
)
    ensures
        ({
            let (ended, after) = update_runtime_state_spec(
                st,
                card_range_id,
                status,
                issuance_enabled,
                cms_operation_mode,
                operation_id,
                actor,
            );
            let log = after.log;
            ended is Ok ==> {
                &&& script::ran(
                    log,
                    UPDATE_RUNTIME_SQL@,
                    seq![
                        Bind::Label(status.code()),
                        Bind::Flag(issuance_enabled),
                        Bind::Text(cms_operation_mode),
                        Bind::Id(operation_id),
                        Bind::Text(actor),
                        Bind::Id(card_range_id),
                    ],
                )
            }
        }),
{
    broadcast use {
        script::runs_on_with_another,
        script::told_where_with_another,
        card_range::map_card_range_row_changes_nothing,
    };

}

/// What the database is told, and with which values, where a run succeeds that does this:
/// stores the event that publishes the controls of a range, with its operation.
#[verifier::rlimit(60)]
pub proof fn insert_control_outbox_is_told(
    st: RunView,
    range: CardRange,
    operation_id: Uuid,
    headers_of: HeaderSource,
)
    ensures
        ({
            let (ended, after) = insert_control_outbox_spec(st, range, operation_id, headers_of);
            let log = after.log;
            ended is Ok ==> {
                &&& script::told_where(
                    log,
                    CONTROL_OUTBOX_SQL@,
                    |b: Seq<Bind>| b.len() == 8 && b[1] == Bind::Id(operation_id)
                        && b[2] == Bind::Label("CARD_RANGE_CONTROL_PUBLISH_REQUESTED")
                        && b[3] == Bind::Label("CARD_RANGE")
                        && b[4] == Bind::Id(range.card_range_id)
                        && b[5] == Bind::IdText(range.card_range_id),
                ) > 0
            }
        }),
{
    broadcast use {
        script::runs_on_with_another,
        script::told_where_with_another,
        card_range::map_card_range_row_changes_nothing,
    };

}

} // verus!
