//! The life cycle of providers.
use vstd::prelude::*;
use crate::db::error::DbError;
use crate::db::oracle::audit;
use crate::db::oracle::binds;
use crate::db::oracle::consult::Rule;
use crate::db::oracle::document::{Document, Snapshot};
use crate::db::oracle::idempotency;
use crate::db::oracle::idempotency::IdempotencyVerdict;
use crate::db::oracle::provider;
use crate::db::oracle::provider_operational_profile;
use crate::db::oracle::provider_range;
use crate::db::oracle::provider_range::{RangeControlProjection, RangeStatusText};
use crate::db::oracle::repository::OracleRepository;
use crate::db::oracle::script;
use crate::db::oracle::script::{Bind, Halt, HaltView, RunView, Session};
use crate::domain::audit::AuditAction;
use crate::domain::command::MutationCommandContext;
use crate::domain::idempotency::IdempotencyRecord;
use crate::domain::provider::{Provider, ProviderStatus};
use crate::text;
use crate::uuid::Uuid;

verus! {

/// The context of a column that cannot be read.
pub const READ_ROW: &'static str = "failed to read Oracle provider lifecycle row";

/// The conflict of a range whose controls are being published.
pub const RANGE_PENDING: &'static str = "provider range publication pending";

/// Locks a provider and reads its status.
pub const PROVIDER_STATUS_SQL: &'static str = "SELECT status FROM providers WHERE provider_id=:1 FOR UPDATE";

/// Counts the active ledger accounts of a provider.
pub const ACTIVE_ACCOUNTS_SQL: &'static str = "SELECT COUNT(*) FROM provider_ledger_accounts WHERE provider_id=:1 AND status='ACTIVE'";

/// Counts the operational profiles of a provider that are in force.
pub const ACTIVE_PROFILES_SQL: &'static str = "SELECT COUNT(*) FROM provider_operational_profiles WHERE provider_id=:1 AND status='ACTIVE' AND effective_at<=SYSTIMESTAMP";

/// Locks the active assignment of a provider and reads its range.
pub const ACTIVE_RANGE_SQL: &'static str = "SELECT card_range_id FROM card_range_providers WHERE provider_id=:1 AND status='ACTIVE' FOR UPDATE";

/// Sets the status of a provider.
pub const SET_STATUS_SQL: &'static str = "UPDATE providers SET status=:1,updated_by_subject=:2,updated_at=SYSTIMESTAMP WHERE provider_id=:3";

/// Locks a range and reads its controls.
pub const RANGE_SQL: &'static str = "SELECT status,issuance_enabled,cms_operation_mode,operational_version,materialized_operational_version FROM card_ranges WHERE card_range_id=:1 FOR UPDATE";

/// Suspends an assignment.
pub const SUSPEND_ASSIGNMENT_SQL: &'static str = "UPDATE card_range_providers SET status='SUSPENDED',updated_by_subject=:1,updated_at=SYSTIMESTAMP WHERE provider_id=:2 AND card_range_id=:3 AND status='ACTIVE'";

/// Counts the active providers of a range.
pub const REMAINING_SQL: &'static str = "SELECT COUNT(*) FROM card_range_providers WHERE card_range_id=:1 AND status='ACTIVE'";

/// Gives the controls of a range a status and a new version.
pub const ADVANCE_RANGE_SQL: &'static str = "UPDATE card_ranges SET status=:1,operational_version=:2,range_control_operation_id=:3,updated_by_subject=:4,updated_at=SYSTIMESTAMP WHERE card_range_id=:5";

/// What became of a transition of a provider. A replayed answer is a JSON document.
#[derive(Debug)]
pub enum ProviderLifecycleOutcome {
    Applied(Box<Provider>),
    Replayed(String),
    NotFound,
    InvalidTransition,
    PrerequisitesMissing,
    PublicationPending,
    IdempotencyConflict,
    IdempotencyInProgress,
    IdempotencyInvalidState,
}

/// What a stored record means for a transition.
pub open spec fn transition_verdict(verdict: IdempotencyVerdict) -> ProviderLifecycleOutcome {
    match verdict {
        IdempotencyVerdict::Conflict => ProviderLifecycleOutcome::IdempotencyConflict,
        IdempotencyVerdict::Replay(snapshot) => ProviderLifecycleOutcome::Replayed(snapshot),
        IdempotencyVerdict::InProgress => ProviderLifecycleOutcome::IdempotencyInProgress,
        IdempotencyVerdict::InvalidState => ProviderLifecycleOutcome::IdempotencyInvalidState,
    }
}

/// What a stored record means for a transition with this request hash.
pub fn classify_idempotency(
    existing: &IdempotencyRecord,
    request_hash: &String,
) -> (r: ProviderLifecycleOutcome)
    ensures
        r == transition_verdict(idempotency::idempotency_verdict(*existing, *request_hash)),
{
    match idempotency::judge_idempotency(existing, request_hash) {
        IdempotencyVerdict::Conflict => ProviderLifecycleOutcome::IdempotencyConflict,
        IdempotencyVerdict::Replay(snapshot) => ProviderLifecycleOutcome::Replayed(snapshot),
        IdempotencyVerdict::InProgress => ProviderLifecycleOutcome::IdempotencyInProgress,
        IdempotencyVerdict::InvalidState => ProviderLifecycleOutcome::IdempotencyInvalidState,
    }
}

/// Whether a provider has what its new status needs: an active one has its four ledger accounts and
/// one operational profile in force.
pub open spec fn prerequisites_met_spec(
    st: RunView,
    provider_id: Uuid,
    target: ProviderStatus,
) -> (Result<bool, HaltView>, RunView) {
    if target != ProviderStatus::Active {
        (Ok(true), st)
    } else {
    match script::one_int_spec(
        st,
        ACTIVE_ACCOUNTS_SQL@,
        seq![Bind::Id(provider_id)],
        "failed to verify provider accounts"@,
    ) { (Err(h), st) => (Err(h), st), (Ok(accounts), st) =>
    match script::one_int_spec(
        st,
        ACTIVE_PROFILES_SQL@,
        seq![Bind::Id(provider_id)],
        "failed to verify provider profile"@,
    ) { (Err(h), st) => (Err(h), st), (Ok(profiles), st) =>
    (Ok(accounts == 4 && profiles == 1), st)
    }}}
}

/// Whether a provider has what its new status needs: an active one has its four ledger accounts and
/// one operational profile in force.
pub fn prerequisites_met(
    s: &mut Session,
    provider_id: Uuid,
    target: ProviderStatus,
) -> (r: Result<bool, Halt>)
    ensures
        (script::seen(r), final(s)@) == prerequisites_met_spec(old(s)@, provider_id, target),
{
    if target != ProviderStatus::Active {
        return Ok(true);
    }
    let accounts = script::one_int(
        s,
        ACTIVE_ACCOUNTS_SQL,
        binds::binds1(Bind::Id(provider_id)),
        "failed to verify provider accounts",
    )?;
    let profiles = script::one_int(
        s,
        ACTIVE_PROFILES_SQL,
        binds::binds1(Bind::Id(provider_id)),
        "failed to verify provider profile",
    )?;
    Ok(accounts == 4 && profiles == 1)
}

/// The range that a provider leaves with its new status, where there is one.
pub open spec fn affected_range_spec(
    st: RunView,
    provider_id: Uuid,
    target: ProviderStatus,
) -> (Result<Option<Uuid>, HaltView>, RunView) {
    if target != ProviderStatus::Suspended && target != ProviderStatus::Inactive {
        (Ok(None), st)
    } else {
    match script::first_row_spec(
        st,
        ACTIVE_RANGE_SQL@,
        seq![Bind::Id(provider_id)],
        "r",
        "failed to lock provider range lifecycle"@,
        "failed to read provider range lifecycle"@,
    ) { (Err(h), st) => (Err(h), st), (Ok(found), st) =>
    match found {
    None => {
        (Ok(None), st)
    },
    Some(row) =>
    match row.raw_at(0, READ_ROW@) { Err(h) => (Err(h), st), Ok(range_raw) =>
    match script::id_of(range_raw@) { Err(h) => (Err(h), st), Ok(range_id) =>
    (Ok(Some(range_id)), st)
    }}}}}
}

/// The range that a provider leaves with its new status, where there is one.
pub fn affected_range(
    s: &mut Session,
    provider_id: Uuid,
    target: ProviderStatus,
) -> (r: Result<Option<Uuid>, Halt>)
    ensures
        (script::seen(r), final(s)@) == affected_range_spec(old(s)@, provider_id, target),
{
    if target != ProviderStatus::Suspended && target != ProviderStatus::Inactive {
        return Ok(None);
    }
    let found = script::first_row(
        s,
        ACTIVE_RANGE_SQL,
        binds::binds1(Bind::Id(provider_id)),
        "r",
        "failed to lock provider range lifecycle",
        "failed to read provider range lifecycle",
    )?;
    let row = match found {
        Some(v) => v,
        None => {
            return Ok(None);
        },
    };
    let range_raw = row.raw(0, READ_ROW)?;
    let range_id = script::to_id(range_raw)?;
    Ok(Some(range_id))
}

/// The status of a range that a provider leaves: it is suspended where no provider remains.
pub open spec fn status_without(stored: String, remaining: i64) -> RangeStatusText {
    if remaining == 0 {
        RangeStatusText::Suspended
    } else {
        RangeStatusText::Stored(stored)
    }
}

fn status_after(stored: String, remaining: i64) -> (r: RangeStatusText)
    ensures
        r == status_without(stored, remaining),
{
    if remaining == 0 {
        RangeStatusText::Suspended
    } else {
        RangeStatusText::Stored(stored)
    }
}

/// Takes a provider out of a range, and publishes the controls of the range.
pub open spec fn leave_range_spec(
    st: RunView,
    context: MutationCommandContext,
    provider_id: Uuid,
    card_range_id: Uuid,
) -> (Result<(), HaltView>, RunView) {
    match script::first_row_spec(
        st,
        RANGE_SQL@,
        seq![Bind::Id(card_range_id)],
        "tntii",
        "failed to lock affected provider range"@,
        "failed to read affected provider range"@,
    ) { (Err(h), st) => (Err(h), st), (Ok(found), st) =>
    match found {
    None => {
        (script::query_fault("provider range relationship points to missing range"@), st)
    },
    Some(row) =>
    match row.text_at(0, READ_ROW@) { Err(h) => (Err(h), st), Ok(stored) =>
    match row.small_at(1, READ_ROW@) { Err(h) => (Err(h), st), Ok(issuance) =>
    match row.text_at(2, READ_ROW@) { Err(h) => (Err(h), st), Ok(cms_operation_mode) =>
    match row.int_at(3, READ_ROW@) { Err(h) => (Err(h), st), Ok(version) =>
    match row.int_at(4, READ_ROW@) { Err(h) => (Err(h), st), Ok(materialized) =>
    if version != materialized {
        (script::conflict_fault(RANGE_PENDING@), st)
    } else {
    match script::execute_spec(
        st,
        SUSPEND_ASSIGNMENT_SQL@,
        seq![Bind::Text(context.actor.subject), Bind::Id(provider_id), Bind::Id(card_range_id)],
        "failed to suspend provider range eligibility"@,
    ) { (Err(h), st) => (Err(h), st), (Ok(_), st) =>
    match script::one_int_spec(
        st,
        REMAINING_SQL@,
        seq![Bind::Id(card_range_id)],
        "failed to count remaining providers"@,
    ) { (Err(h), st) => (Err(h), st), (Ok(remaining), st) =>
    { let range_status = status_without(stored, remaining);
    { let next = provider_range::version_after(version);
    match script::fresh_id_spec(st) { (Err(h), st) => (Err(h), st), (Ok(control_id), st) =>
    match script::execute_spec(
        st,
        ADVANCE_RANGE_SQL@,
        seq![
            range_status.as_bind(),
            Bind::Int(next),
            Bind::Id(control_id),
            Bind::Text(context.actor.subject),
            Bind::Id(card_range_id),
        ],
        "failed to update affected range control"@,
    ) { (Err(h), st) => (Err(h), st), (Ok(_), st) =>
    provider_range::insert_range_control_outbox_spec(
        st,
        RangeControlProjection {
            card_range_id,
            operation_id: control_id,
            version: next,
            range_status,
            issuance_enabled: issuance != 0,
            cms_operation_mode,
        },
        context.headers(),
    )
    }}}}}}}}}}}}}}
}

/// Takes a provider out of a range, and publishes the controls of the range.
pub fn leave_range(
    s: &mut Session,
    context: &MutationCommandContext,
    provider_id: Uuid,
    card_range_id: Uuid,
) -> (r: Result<(), Halt>)
    ensures
        (script::seen(r), final(s)@) == leave_range_spec(
            old(s)@,
            *context,
            provider_id,
            card_range_id,
        ),
{
    let found = script::first_row(
        s,
        RANGE_SQL,
        binds::binds1(Bind::Id(card_range_id)),
        "tntii",
        "failed to lock affected provider range",
        "failed to read affected provider range",
    )?;
    let row = match found {
        Some(v) => v,
        None => {
            return Err(script::fail_query("provider range relationship points to missing range"));
        },
    };
    let stored = row.text(0, READ_ROW)?;
    let issuance: i64 = row.small(1, READ_ROW)?;
    let cms_operation_mode = row.text(2, READ_ROW)?;
    let version: i64 = row.number(3, READ_ROW)?;
    let materialized: i64 = row.number(4, READ_ROW)?;
    if version != materialized {
        return Err(script::fail_conflict(RANGE_PENDING));
    }
    script::execute(
        s,
        SUSPEND_ASSIGNMENT_SQL,
        binds::binds3(
            Bind::Text(context.actor.subject.clone()),
            Bind::Id(provider_id),
            Bind::Id(card_range_id),
        ),
        "failed to suspend provider range eligibility",
    )?;
    let remaining: i64 = script::one_int(
        s,
        REMAINING_SQL,
        binds::binds1(Bind::Id(card_range_id)),
        "failed to count remaining providers",
    )?;
    let range_status = status_after(stored, remaining);
    let next: i64 = provider_range::next_version(version);
    let control_id = script::fresh_id(s)?;
    script::execute(
        s,
        ADVANCE_RANGE_SQL,
        binds::binds5(
            range_status.bind(),
            Bind::Int(next),
            Bind::Id(control_id),
            Bind::Text(context.actor.subject.clone()),
            Bind::Id(card_range_id),
        ),
        "failed to update affected range control",
    )?;
    provider_range::insert_range_control_outbox(
        s,
        &RangeControlProjection {
            card_range_id,
            operation_id: control_id,
            version: next,
            range_status,
            issuance_enabled: issuance != 0,
            cms_operation_mode,
        },
        &context.event_headers(),
    )
}

/// Takes a provider out of the range that it leaves, where there is one.
pub open spec fn leave_affected_spec(
    st: RunView,
    context: MutationCommandContext,
    provider_id: Uuid,
    range: Option<Uuid>,
) -> (Result<(), HaltView>, RunView) {
    match range {
    None => {
        (Ok(()), st)
    },
    Some(card_range_id) =>
    leave_range_spec(st, context, provider_id, card_range_id)
    }
}

/// Takes a provider out of the range that it leaves, where there is one.
pub fn leave_affected(
    s: &mut Session,
    context: &MutationCommandContext,
    provider_id: Uuid,
    range: Option<Uuid>,
) -> (r: Result<(), Halt>)
    ensures
        (script::seen(r), final(s)@) == leave_affected_spec(old(s)@, *context, provider_id, range),
{
    let card_range_id = match range {
        Some(v) => v,
        None => {
            return Ok(());
        },
    };
    leave_range(s, context, provider_id, card_range_id)
}

/// Gives a locked provider its new status.
#[verifier::opaque]
pub open spec fn transition_spec(
    st: RunView,
    context: MutationCommandContext,
    provider_id: Uuid,
    current: ProviderStatus,
    target: ProviderStatus,
    reason: String,
) -> (Result<ProviderLifecycleOutcome, HaltView>, RunView) {
    match affected_range_spec(
        st,
        provider_id,
        target,
    ) { (Err(h), st) => (Err(h), st), (Ok(range), st) =>
    match idempotency::insert_idempotency_record_spec(
        st,
        context.record,
    ) { (Err(h), st) => (Err(h), st), (Ok(_), st) =>
    match script::execute_spec(
        st,
        SET_STATUS_SQL@,
        seq![Bind::Label(target.code()), Bind::Text(context.actor.subject), Bind::Id(provider_id)],
        "failed to transition provider lifecycle"@,
    ) { (Err(h), st) => (Err(h), st), (Ok(_), st) =>
    match leave_affected_spec(
        st,
        context,
        provider_id,
        range,
    ) { (Err(h), st) => (Err(h), st), (Ok(_), st) =>
    match provider::fetch_provider_for_command_spec(
        st,
        provider_id,
    ) { (Err(h), st) => (Err(h), st), (Ok(updated), st) =>
    match script::consult_text_spec(
        st,
        Rule::ProviderSnapshot(updated),
    ) { (Err(h), st) => (Err(h), st), (Ok(snapshot), st) =>
    match script::consult_text_spec(
        st,
        Rule::ProviderStatusDocument(current),
    ) { (Err(h), st) => (Err(h), st), (Ok(left), st) =>
    match audit::insert_audit_log_spec(
        st,
        "PROVIDER",
        provider_id,
        AuditAction::StateTransition,
        Bind::Text(reason),
        Some(Snapshot::Document(Document::StatusDocument(left))),
        Some(Snapshot::Text(snapshot)),
        audit::trusted_origin_spec(context.audit),
    ) { (Err(h), st) => (Err(h), st), (Ok(_), st) =>
    match idempotency::complete_idempotency_record_spec(
        st,
        context.operation_type,
        context.idempotency_key,
        "provider",
        provider_id,
        Snapshot::Text(snapshot),
    ) { (Err(h), st) => (Err(h), st), (Ok(_), st) =>
    (Ok(ProviderLifecycleOutcome::Applied(Box::new(updated))), st)
    }}}}}}}}}
}

/// Gives a locked provider its new status.
pub fn transition(
    s: &mut Session,
    context: &MutationCommandContext,
    provider_id: Uuid,
    current: ProviderStatus,
    target: ProviderStatus,
    reason: &String,
) -> (r: Result<ProviderLifecycleOutcome, Halt>)
    ensures
        (script::seen(r), final(s)@) == transition_spec(
            old(s)@,
            *context,
            provider_id,
            current,
            target,
            *reason,
        ),
{
    proof {
        reveal(transition_spec);
    }
    let range = affected_range(s, provider_id, target)?;
    idempotency::insert_idempotency_record(s, &context.record)?;
    script::execute(
        s,
        SET_STATUS_SQL,
        binds::binds3(
            Bind::Label(target.as_db_value()),
            Bind::Text(context.actor.subject.clone()),
            Bind::Id(provider_id),
        ),
        "failed to transition provider lifecycle",
    )?;
    leave_affected(s, context, provider_id, range)?;
    let updated = provider::fetch_provider_for_command(s, provider_id)?;
    let snapshot = script::consult_text(s, Rule::ProviderSnapshot(updated.clone()))?;
    let left = script::consult_text(s, Rule::ProviderStatusDocument(current))?;
    audit::insert_audit_log(
        s,
        "PROVIDER",
        provider_id,
        AuditAction::StateTransition,
        Bind::Text(reason.clone()),
        Some(Snapshot::Document(Document::StatusDocument(left))),
        Some(Snapshot::Text(snapshot.clone())),
        audit::trusted_origin(&context.audit),
    )?;
    idempotency::complete_idempotency_record(
        s,
        &context.operation_type,
        &context.idempotency_key,
        "provider",
        provider_id,
        Snapshot::Text(snapshot),
    )?;
    Ok(ProviderLifecycleOutcome::Applied(Box::new(updated)))
}

/// Gives a provider a new status, where the old one allows it. A provider that is suspended or
/// inactive leaves its range. Under one idempotency key this happens once.
pub open spec fn transition_provider_atomic_spec(
    st: RunView,
    context: MutationCommandContext,
    provider_id: Uuid,
    target: ProviderStatus,
    reason: String,
) -> (Result<ProviderLifecycleOutcome, HaltView>, RunView) {
    match idempotency::fetch_idempotency_record_spec(
        st,
        context.operation_type,
        context.idempotency_key,
    ) { (Err(h), st) => (Err(h), st), (Ok(existing), st) =>
    if let Some(record) = existing {
        (Ok(transition_verdict(idempotency::idempotency_verdict(record, context.request_hash))), st)
    } else {
    match script::first_row_spec(
        st,
        PROVIDER_STATUS_SQL@,
        seq![Bind::Id(provider_id)],
        "t",
        "failed to lock provider lifecycle"@,
        "failed to read provider lifecycle"@,
    ) { (Err(h), st) => (Err(h), st), (Ok(found), st) =>
    match found {
    None => {
        (Ok(ProviderLifecycleOutcome::NotFound), st)
    },
    Some(row) =>
    match row.text_at(0, READ_ROW@) { Err(h) => (Err(h), st), Ok(status_text) =>
    match ProviderStatus::of_code(status_text@) {
    None => {
        (script::query_fault("unknown provider lifecycle status"@), st)
    },
    Some(current) =>
    match provider_operational_profile::promote_due_for_provider_spec(
        st,
        provider_id,
    ) { (Err(h), st) => (Err(h), st), (Ok(_), st) =>
    match script::flag_spec(
        st,
        Rule::ProviderTransition(current, target),
    ) { (Err(h), st) => (Err(h), st), (Ok(allowed), st) =>
    if !allowed {
        (Ok(ProviderLifecycleOutcome::InvalidTransition), st)
    } else {
    match prerequisites_met_spec(
        st,
        provider_id,
        target,
    ) { (Err(h), st) => (Err(h), st), (Ok(met), st) =>
    if !met {
        (Ok(ProviderLifecycleOutcome::PrerequisitesMissing), st)
    } else {
    transition_spec(st, context, provider_id, current, target, reason)
    }}}}}}}}}}}
}

impl OracleRepository {
    /// Gives a provider a new status, where the old one allows it. A provider that is suspended or
    /// inactive leaves its range. Under one idempotency key this happens once.
    pub fn transition_provider_atomic(
        s: &mut Session,
        context: &MutationCommandContext,
        provider_id: Uuid,
        target: ProviderStatus,
        reason: &String,
    ) -> (r: Result<ProviderLifecycleOutcome, Halt>)
        ensures
            (script::seen(r), final(s)@) == transition_provider_atomic_spec(
                old(s)@,
                *context,
                provider_id,
                target,
                *reason,
            ),
    {
        let existing = idempotency::fetch_idempotency_record(
            s,
            &context.operation_type,
            &context.idempotency_key,
        )?;
        if let Some(record) = &existing {
            return Ok(classify_idempotency(record, &context.request_hash));
        }
        let found = script::first_row(
            s,
            PROVIDER_STATUS_SQL,
            binds::binds1(Bind::Id(provider_id)),
            "t",
            "failed to lock provider lifecycle",
            "failed to read provider lifecycle",
        )?;
        let row = match found {
            Some(v) => v,
            None => {
                return Ok(ProviderLifecycleOutcome::NotFound);
            },
        };
        let status_text = row.text(0, READ_ROW)?;
        let current = match ProviderStatus::from_db_value(status_text.as_str()) {
            Some(v) => v,
            None => {
                return Err(script::fail_query("unknown provider lifecycle status"));
            },
        };
        provider_operational_profile::promote_due_for_provider(s, provider_id)?;
        let allowed = script::flag(s, Rule::ProviderTransition(current, target))?;
        if !allowed {
            return Ok(ProviderLifecycleOutcome::InvalidTransition);
        }
        let met = prerequisites_met(s, provider_id, target)?;
        if !met {
            return Ok(ProviderLifecycleOutcome::PrerequisitesMissing);
        }
        transition(s, context, provider_id, current, target, reason)
    }
}

/// The outcome of a transition whose transaction ended: a range whose controls are being published
/// keeps the provider from leaving it.
pub open spec fn settle_transition_result(
    result: Result<ProviderLifecycleOutcome, DbError>,
) -> Result<ProviderLifecycleOutcome, DbError> {
    match result {
        Err(DbError::Conflict(message)) => if message@ == RANGE_PENDING@ {
            Ok(ProviderLifecycleOutcome::PublicationPending)
        } else {
            Err(DbError::Conflict(message))
        },
        other => other,
    }
}

/// The outcome of a transition whose transaction ended: a range whose controls are being published
/// keeps the provider from leaving it.
pub fn settle_transition(
    result: Result<ProviderLifecycleOutcome, DbError>,
) -> (r: Result<ProviderLifecycleOutcome, DbError>)
    ensures
        r == settle_transition_result(result),
{
    match result {
        Err(DbError::Conflict(message)) => if text::same_text(message.as_str(), RANGE_PENDING) {
            Ok(ProviderLifecycleOutcome::PublicationPending)
        } else {
            Err(DbError::Conflict(message))
        },
        other => other,
    }
}

/// Under one idempotency key a change of the status of a provider is asked for once: where a record
/// is stored, the command is answered from it, and looking it up is all that is done.
pub proof fn status_change_is_done_once(
    st: RunView,
    context: MutationCommandContext,
    provider_id: Uuid,
    target: ProviderStatus,
    reason: String,
    record: IdempotencyRecord,
)
    requires
        idempotency::fetch_idempotency_record_spec(
            st,
            context.operation_type,
            context.idempotency_key,
        ).0 == Ok::<Option<IdempotencyRecord>, HaltView>(Some(record)),
    ensures
        transition_provider_atomic_spec(st, context, provider_id, target, reason) == (
            Ok::<_, HaltView>(
                transition_verdict(idempotency::idempotency_verdict(record, context.request_hash)),
            ),
            idempotency::fetch_idempotency_record_spec(
                st,
                context.operation_type,
                context.idempotency_key,
            ).1,
        ),
        script::writes(
            transition_provider_atomic_spec(st, context, provider_id, target, reason).1.log,
        ) == script::writes(st.log),
{
    broadcast use script::writes_with_another;

}

/// What is carried out of a change of the status of a provider stores audit evidence and completes
/// the command's record last.
#[verifier::rlimit(60)]
pub broadcast proof fn transition_leaves_evidence(
    st: RunView,
    context: MutationCommandContext,
    provider_id: Uuid,
    current: ProviderStatus,
    target: ProviderStatus,
    reason: String,
)
    ensures
        (
            #[trigger] transition_spec(st, context, provider_id, current, target, reason)
        ).0 matches Ok(outcome) ==> {
            let log = transition_spec(st, context, provider_id, current, target, reason).1.log;
            &&& outcome is Applied
            &&& script::runs(log, audit::AUDIT_INSERT_SQL@) > 0
            &&& script::is_run_of(log.last(), idempotency::IDEMPOTENCY_COMPLETE_SQL@)
        },
{
    broadcast use script::runs_with_another;

    reveal(transition_spec);
}

/// Where a change of the status of a provider is carried out in a run of its own, audit evidence is
/// stored within it, and the command's record is completed last.
#[verifier::rlimit(40)]
pub proof fn status_change_leaves_evidence(
    st: RunView,
    context: MutationCommandContext,
    provider_id: Uuid,
    target: ProviderStatus,
    reason: String,
)
    requires
        st.log.len() == 0,
    ensures
        ({
            let (result, after) = transition_provider_atomic_spec(
                st,
                context,
                provider_id,
                target,
                reason,
            );
            result matches Ok(outcome) ==> outcome is Applied ==> script::runs(
                after.log,
                audit::AUDIT_INSERT_SQL@,
            ) > 0 && script::is_run_of(after.log.last(), idempotency::IDEMPOTENCY_COMPLETE_SQL@)
        }),
{
    broadcast use transition_leaves_evidence;

}

/// A command that is recorded is answered by its record: under another request it conflicts; under
/// the same one it gets the answer that is stored, or is told that it is under way, or that the
/// record is not in order.
pub proof fn transition_verdict_goes_by_the_record(
    record: crate::domain::idempotency::IdempotencyRecord,
    request_hash: String,
)
    ensures
        ({
            let answered = transition_verdict(
                idempotency::idempotency_verdict(record, request_hash),
            );
            let same = record.request_hash@ == request_hash@;
            &&& answered is IdempotencyConflict <==> !same
            &&& answered is IdempotencyInProgress <==> same && record.status is InProgress
            &&& answered matches ProviderLifecycleOutcome::Replayed(
                answer,
            ) ==> record.response_snapshot == Some(answer)
            &&& answered is Replayed <==> same && record.status is Completed
                && record.response_snapshot is Some
            &&& answered is IdempotencyInvalidState <==> same && !(record.status is InProgress)
                && !(
            record.status is Completed && record.response_snapshot is Some)
        }),
{
}

/// Where a change of the status of a provider is refused, or answered from a record, and no
/// operational profile of the provider is due meanwhile, nothing is changed.
#[verifier::rlimit(60)]
pub proof fn refused_status_change_changes_nothing(
    st: RunView,
    context: MutationCommandContext,
    provider_id: Uuid,
    target: ProviderStatus,
    reason: String,
)
    requires
        ({
            let looked = idempotency::fetch_idempotency_record_spec(
                st,
                context.operation_type,
                context.idempotency_key,
            ).1;
            let locked = script::first_row_spec(
                looked,
                PROVIDER_STATUS_SQL@,
                seq![Bind::Id(provider_id)],
                "t",
                "failed to lock provider lifecycle"@,
                "failed to read provider lifecycle"@,
            ).1;
            provider_operational_profile::fetch_due_scheduled_spec(locked, provider_id).0
                matches Ok(None)
        }),
    ensures
        ({
            let (result, after) = transition_provider_atomic_spec(
                st,
                context,
                provider_id,
                target,
                reason,
            );
            result matches Ok(outcome) ==> outcome is Applied || script::writes(after.log)
                == script::writes(st.log)
        }),
{
    broadcast use {script::writes_with_another, transition_leaves_evidence};

}


/// Where a provider that leaves its range gets its new status, the event that publishes the
/// controls of the range is stored.
#[verifier::rlimit(60)]
pub broadcast proof fn transition_publishes(
    st: RunView,
    context: MutationCommandContext,
    provider_id: Uuid,
    current: ProviderStatus,
    target: ProviderStatus,
    reason: String,
)
    ensures
        (#[trigger] transition_spec(st, context, provider_id, current, target, reason)).0 is Ok
            && affected_range_spec(
            st,
            provider_id,
            target,
        ).0->Ok_0 is Some ==> script::runs(
            transition_spec(st, context, provider_id, current, target, reason).1.log,
            provider_range::CONTROL_OUTBOX_SQL@,
        ) > 0,
{
    broadcast use script::runs_with_another;

    reveal(transition_spec);
}

/// Where a run that gives a provider a new status stands when all is checked.
pub open spec fn about_to_change(
    st: RunView,
    context: MutationCommandContext,
    provider_id: Uuid,
    target: ProviderStatus,
    reason: String,
) -> RunView {
    let looked_up = idempotency::fetch_idempotency_record_spec(
        st,
        context.operation_type,
        context.idempotency_key,
    ).1;
    let (found, locked) = script::first_row_spec(
        looked_up,
        PROVIDER_STATUS_SQL@,
        seq![Bind::Id(provider_id)],
        "t",
        "failed to lock provider lifecycle"@,
        "failed to read provider lifecycle"@,
    );
    let status = ProviderStatus::of_code(
        found->Ok_0->Some_0.text_at(0, READ_ROW@)->Ok_0@,
    )->Some_0;
    let promoted = provider_operational_profile::promote_due_for_provider_spec(
        locked,
        provider_id,
    ).1;
    let allowed = script::flag_spec(promoted, Rule::ProviderTransition(status, target)).1;
    prerequisites_met_spec(allowed, provider_id, target).1
}

/// Where a provider gets a new status and leaves its range for it, the event that publishes the
/// controls of the range is stored.
#[verifier::rlimit(60)]
pub proof fn left_range_is_published(
    st: RunView,
    context: MutationCommandContext,
    provider_id: Uuid,
    target: ProviderStatus,
    reason: String,
)
    requires
        transition_provider_atomic_spec(
            st,
            context,
            provider_id,
            target,
            reason,
        ).0 matches Ok(outcome)
            && outcome is Applied,
        affected_range_spec(
            about_to_change(st, context, provider_id, target, reason),
            provider_id,
            target,
        ).0->Ok_0 is Some,
    ensures
        script::runs(
            transition_provider_atomic_spec(st, context, provider_id, target, reason).1.log,
            provider_range::CONTROL_OUTBOX_SQL@,
        ) > 0,
{
    broadcast use transition_publishes;

}

/// Only a provider that is to become active has prerequisites: its four accounts and one
/// operational profile are active.
pub proof fn active_provider_has_its_accounts_and_profile(
    st: RunView,
    provider_id: Uuid,
    target: ProviderStatus,
)
    ensures
        target != ProviderStatus::Active ==> prerequisites_met_spec(st, provider_id, target) == (
            Ok::<bool, HaltView>(true),
            st,
        ),
        target == ProviderStatus::Active ==> (prerequisites_met_spec(
            st,
            provider_id,
            target,
        ).0 matches Ok(met) ==> {
            let (accounts, counted) = script::one_int_spec(
                st,
                ACTIVE_ACCOUNTS_SQL@,
                seq![Bind::Id(provider_id)],
                "failed to verify provider accounts"@,
            );
            let profiles = script::one_int_spec(
                counted,
                ACTIVE_PROFILES_SQL@,
                seq![Bind::Id(provider_id)],
                "failed to verify provider profile"@,
            ).0;
            met <==> accounts == Ok::<i64, HaltView>(4) && profiles == Ok::<i64, HaltView>(1)
        }),
{
}

/// A provider that is suspended or made inactive leaves the range that it is active in. Any other
/// change leaves ranges alone.
pub proof fn leaving_provider_has_its_range_looked_up(
    st: RunView,
    provider_id: Uuid,
    target: ProviderStatus,
)
    ensures
        !(
            target is Suspended || target is Inactive
        ) ==> affected_range_spec(st, provider_id, target)
            == (Ok::<Option<Uuid>, HaltView>(None), st),
        (target is Suspended || target is Inactive) ==> (affected_range_spec(
            st,
            provider_id,
            target,
        ).0 matches Ok(range) ==> {
            &&& st.rest[0] matches script::Reply::Rows(found)
            &&& range is Some <==> found.rows@.len() > 0
            &&& range matches Some(id) ==> found.rows@[0].id_at(
                0,
                READ_ROW@,
            ) == Ok::<Uuid, HaltView>(
                id,
            )
            &&& affected_range_spec(st, provider_id, target).1.log == st.log.push(
                script::sql_call(
                    script::Mode::Query,
                    ACTIVE_RANGE_SQL@,
                    seq![Bind::Id(provider_id)],
                    "r",
                ),
            )
        }),
{
}

/// A range that a provider leaves is suspended exactly where no other provider remains in it; else
/// it keeps its status. Its controls must be materialized, and get the version after theirs.
#[verifier::rlimit(100)]
pub proof fn left_range_is_suspended_when_empty(
    st: RunView,
    context: MutationCommandContext,
    provider_id: Uuid,
    card_range_id: Uuid,
)
    requires
        leave_range_spec(st, context, provider_id, card_range_id).0 is Ok,
    ensures
        ({
            let log = leave_range_spec(st, context, provider_id, card_range_id).1.log;
            let first = st.log.len() as int;
            &&& st.rest[0] matches script::Reply::Rows(found)
            &&& found.rows@.len() > 0
            &&& found.rows@[0].int_at(3, READ_ROW@) == found.rows@[0].int_at(4, READ_ROW@)
            &&& log[first + 1] == script::change(
                SUSPEND_ASSIGNMENT_SQL@,
                seq![
                    Bind::Text(context.actor.subject),
                    Bind::Id(provider_id),
                    Bind::Id(card_range_id),
                ],
            )
            &&& st.rest[2] matches script::Reply::Rows(counted)
            &&& counted.rows@[0].int_at(0, "failed to count remaining providers"@) matches Ok(
                remaining,
            )
            &&& script::is_run_of(log[first + 4], ADVANCE_RANGE_SQL@)
            &&& log[first + 4]->binds[0] == if remaining == 0 {
                Bind::Label("SUSPENDED")
            } else {
                Bind::Text(found.rows@[0].text_at(0, READ_ROW@)->Ok_0)
            }
            &&& found.rows@[0].int_at(3, READ_ROW@)->Ok_0 < i64::MAX ==> log[first + 4]->binds[1]
                == Bind::Int((found.rows@[0].int_at(3, READ_ROW@)->Ok_0 + 1) as i64)
            &&& log[first + 4]->binds[3] == Bind::Text(context.actor.subject)
            &&& log[first + 4]->binds[4] == Bind::Id(card_range_id)
        }),
{
}

/// A change of status without a record is refused where the provider is missing, where the change
/// is not allowed, and where its prerequisites are not met. Each has its own answer, in this order.
#[verifier::rlimit(80)]
pub proof fn status_change_is_refused_for_one_reason(
    st: RunView,
    context: MutationCommandContext,
    provider_id: Uuid,
    target: ProviderStatus,
    reason: String,
    found: Option<script::Row>,
)
    requires
        ({
            let (looked, at) = idempotency::fetch_idempotency_record_spec(
                st,
                context.operation_type,
                context.idempotency_key,
            );
            &&& looked == Ok::<Option<IdempotencyRecord>, HaltView>(None)
            &&& script::first_row_spec(
                at,
                PROVIDER_STATUS_SQL@,
                seq![Bind::Id(provider_id)],
                "t",
                "failed to lock provider lifecycle"@,
                "failed to read provider lifecycle"@,
            ).0 == Ok::<Option<script::Row>, HaltView>(found)
        }),
    ensures
        ({
            let result = transition_provider_atomic_spec(
                st,
                context,
                provider_id,
                target,
                reason,
            ).0;
            let looked = idempotency::fetch_idempotency_record_spec(
                st,
                context.operation_type,
                context.idempotency_key,
            ).1;
            let locked = script::first_row_spec(
                looked,
                PROVIDER_STATUS_SQL@,
                seq![Bind::Id(provider_id)],
                "t",
                "failed to lock provider lifecycle"@,
                "failed to read provider lifecycle"@,
            ).1;
            let (promoted, at) = provider_operational_profile::promote_due_for_provider_spec(
                locked,
                provider_id,
            );
            &&& found is None <==> result == Ok::<_, HaltView>(ProviderLifecycleOutcome::NotFound)
            &&& found matches Some(row) ==> (row.text_at(0, READ_ROW@) matches Ok(text) ==> (
            ProviderStatus::of_code(text@) matches Some(current) ==> {
                let (allowed, ruled) = script::flag_spec(
                    at,
                    Rule::ProviderTransition(current, target),
                );
                let met = prerequisites_met_spec(ruled, provider_id, target).0;
                &&& promoted is Ok && allowed == Ok::<bool, HaltView>(false) <==> result == Ok::<
                    _,
                    HaltView,
                >(ProviderLifecycleOutcome::InvalidTransition)
                &&& promoted is Ok && allowed == Ok::<bool, HaltView>(true) && met == Ok::<
                    bool,
                    HaltView,
                >(false) <==> result == Ok::<_, HaltView>(
                    ProviderLifecycleOutcome::PrerequisitesMissing,
                )
            }))
        }),
{
    broadcast use transition_leaves_evidence;

}

/// Where a status is changed, the database is told the status asked for, for this provider.
#[verifier::rlimit(80)]
pub proof fn changed_status_is_the_one_asked_for(
    st: RunView,
    context: MutationCommandContext,
    provider_id: Uuid,
    current: ProviderStatus,
    target: ProviderStatus,
    reason: String,
)
    requires
        transition_spec(st, context, provider_id, current, target, reason).0 is Ok,
        affected_range_spec(st, provider_id, target).0 == Ok::<Option<Uuid>, HaltView>(None),
    ensures
        script::ran(
            transition_spec(st, context, provider_id, current, target, reason).1.log,
            SET_STATUS_SQL@,
            seq![
                Bind::Label(target.code()),
                Bind::Text(context.actor.subject),
                Bind::Id(provider_id),
            ],
        ),
{
    broadcast use script::runs_on_with_another;

    reveal(transition_spec);
    reveal(provider::map_provider_row_spec);
}

/// A range whose controls are being published makes a change of status wait; any other conflict
/// stays one.
pub proof fn pending_range_makes_a_change_wait(message: String)
    ensures
        settle_transition_result(Err(DbError::Conflict(message))) == if message@ == RANGE_PENDING@ {
            Ok::<ProviderLifecycleOutcome, DbError>(ProviderLifecycleOutcome::PublicationPending)
        } else {
            Err(DbError::Conflict(message))
        },
{
}

/// A range whose last active provider leaves is suspended; one that others still use keeps its
/// status.
pub proof fn range_without_providers_is_suspended(stored: String, remaining: i64)
    ensures
        remaining == 0 ==> status_without(stored, remaining) is Suspended,
        remaining != 0 ==> status_without(stored, remaining) == RangeStatusText::Stored(stored),
{
}

/// What is asked first, and with which values, in a run that does this:
/// takes a provider out of a range, and publishes the controls of the range.
pub proof fn leave_range_asks_first(
    st: RunView,
    context: MutationCommandContext,
    provider_id: Uuid,
    card_range_id: Uuid,
)
    requires
        st.rest.len() == 0,
    ensures
        leave_range_spec(
            st,
            context,
            provider_id,
            card_range_id,
        ).0 matches Err(HaltView::Ask(asked))
            && (
                asked matches script::CallView::Sql { sql, binds, .. } && sql == RANGE_SQL@
                    && binds == seq![Bind::Id(card_range_id)]
            ),
{
}

/// What the database is told, and with which values, where a run succeeds that does this:
/// takes a provider out of a range, and publishes the controls of the range.
#[verifier::rlimit(60)]
pub proof fn leave_range_is_told(
    st: RunView,
    context: MutationCommandContext,
    provider_id: Uuid,
    card_range_id: Uuid,
)
    ensures
        ({
            let (ended, after) = leave_range_spec(st, context, provider_id, card_range_id);
            let log = after.log;
            ended is Ok ==> {
                &&& script::ran(
                    log,
                    SUSPEND_ASSIGNMENT_SQL@,
                    seq![
                        Bind::Text(context.actor.subject),
                        Bind::Id(provider_id),
                        Bind::Id(card_range_id),
                    ],
                )
                &&& script::told_where(
                    log,
                    ADVANCE_RANGE_SQL@,
                    |b: Seq<Bind>| b.len() == 5
                        && b[1] == Bind::Int(
                            (provider_range::version_after(
                                st.rest[0]->Rows_0.rows@[0].int_at(3, READ_ROW@)->Ok_0,
                            )),
                        )
                        && b[3] == Bind::Text(context.actor.subject)
                        && b[4] == Bind::Id(card_range_id),
                ) > 0
            }
        }),
{
    broadcast use {script::runs_on_with_another, script::told_where_with_another};

}

/// What the database is told, and with which values, where a run succeeds that does this:
/// gives a locked provider its new status.
#[verifier::rlimit(60)]
pub proof fn transition_is_told(
    st: RunView,
    context: MutationCommandContext,
    provider_id: Uuid,
    current: ProviderStatus,
    target: ProviderStatus,
    reason: String,
)
    ensures
        ({
            let (ended, after) = transition_spec(st, context, provider_id, current, target, reason);
            let log = after.log;
            ended is Ok ==> {
                &&& script::ran(
                    log,
                    SET_STATUS_SQL@,
                    seq![
                        Bind::Label(target.code()),
                        Bind::Text(context.actor.subject),
                        Bind::Id(provider_id),
                    ],
                )
            }
        }),
{
    broadcast use {script::runs_on_with_another, script::told_where_with_another};

    reveal(transition_spec);
}

} // verus!
