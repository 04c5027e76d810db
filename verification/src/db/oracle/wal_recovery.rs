//! Recovery of interrupted work.
use vstd::prelude::*;
use crate::db::oracle::binds;
use crate::db::oracle::card_issuance;
use crate::db::oracle::card_issuance_result;
use crate::db::oracle::card_issuance_result::{
    IssuedCardFinalizationSnapshot, IssuedCardProvisioningIntent, IssuedIntentView,
};
use crate::db::oracle::consult::{Answer, Rule};
use crate::db::oracle::document::{Document, Snapshot};
use crate::db::oracle::idempotency;
use crate::db::oracle::provider_credit;
use crate::db::oracle::provider_user;
use crate::db::oracle::provider_user::ExistingCardProvisioningIntent;
use crate::db::oracle::repository::OracleRepository;
use crate::db::oracle::script;
use crate::db::oracle::script::{Bind, Halt, HaltView, Row, RunView, Session};
use crate::domain::command::DurableMutationContext;
use crate::domain::provider_credit::CreditMovementIntent;
use crate::text;
use crate::uuid::Uuid;

verus! {

/// Locks and reads the batches whose issuances all have an outcome, with their commands.
pub const READY_BATCHES_SQL: &'static str = "SELECT b.card_issuance_batch_id,JSON_SERIALIZE(b.result_command_context_json RETURNING CLOB) FROM card_issuance_batches b WHERE b.status='PROCESSING_RESULT' AND b.result_command_context_json IS NOT NULL AND NOT EXISTS (SELECT 1 FROM card_issuance_batch_rows r WHERE r.card_issuance_batch_id=b.card_issuance_batch_id AND (r.result_status IS NULL OR r.result_status='RECOVERY_REQUIRED')) ORDER BY b.updated_at FOR UPDATE SKIP LOCKED";

/// Reads the number of the issuances of a batch.
pub const BATCH_COUNT_SQL: &'static str = "SELECT request_count FROM card_issuance_batches WHERE card_issuance_batch_id=:1";

/// Completes a batch with its counts.
pub const RECOVER_BATCH_SQL: &'static str = "UPDATE card_issuance_batches SET status=:1,issued_count=:2,rejected_count=:3,failed_count=:4,updated_by_subject=:5,updated_at=SYSTIMESTAMP,completed_at=SYSTIMESTAMP WHERE card_issuance_batch_id=:6 AND status='PROCESSING_RESULT'";

/// Releases the intents whose lease ran out.
pub const RELEASE_SQL: &'static str = "UPDATE operation_wal SET locked_by=NULL,locked_until=NULL,updated_at=SYSTIMESTAMP WHERE locked_until<SYSTIMESTAMP AND status<>'COMPLETED'";

/// Locks and reads the intents that wait for recovery, oldest first.
pub const RECOVERABLE_SQL: &'static str = "SELECT operation_id,operation_type,aggregate_id,attempt_count FROM operation_wal WHERE ((operation_type IN ('PROVIDER_USER_ACCOUNT_PROVISION','CARD_ISSUANCE_ACCOUNT_PROVISION') AND status IN ('PENDING','EXTERNAL_IN_FLIGHT','EXTERNAL_VERIFIED','FAILED')) OR (operation_type='PROVIDER_CREDIT_MOVEMENT' AND status IN ('PENDING','EXTERNAL_IN_FLIGHT','FAILED'))) AND locked_by IS NULL AND (next_attempt_at IS NULL OR next_attempt_at<=SYSTIMESTAMP) AND (status='FAILED' OR updated_at<=SYSTIMESTAMP-NUMTODSINTERVAL(:1/1000,'SECOND')) ORDER BY created_at FOR UPDATE SKIP LOCKED";

/// Leases an intent to a worker.
pub const LEASE_SQL: &'static str = "UPDATE operation_wal SET status='EXTERNAL_IN_FLIGHT',attempt_count=attempt_count+1,locked_by=:1,locked_until=SYSTIMESTAMP+NUMTODSINTERVAL(:2/1000,'SECOND'),updated_at=SYSTIMESTAMP WHERE operation_id=:3 AND locked_by IS NULL AND status IN ('PENDING','EXTERNAL_IN_FLIGHT','EXTERNAL_VERIFIED','FAILED')";

/// Reads a leased intent.
pub const PAYLOAD_SQL: &'static str = "SELECT JSON_SERIALIZE(request_json RETURNING CLOB) FROM operation_wal WHERE operation_id=:1 AND status='EXTERNAL_IN_FLIGHT'";

/// Reads the card of a movement of credit.
pub const CREDIT_CARD_SQL: &'static str = "SELECT c.card_number FROM provider_credit_movements m JOIN cards c ON c.card_id=m.card_id WHERE m.operation_id=:1";

/// Gives a leased intent up, or puts it off.
pub const RESCHEDULE_SQL: &'static str = "UPDATE operation_wal SET status=:1,error_json=:2,next_attempt_at=CASE WHEN :3 IS NULL THEN NULL ELSE SYSTIMESTAMP+NUMTODSINTERVAL(:4/1000,'SECOND') END,locked_by=NULL,locked_until=NULL,updated_at=SYSTIMESTAMP WHERE operation_id=:5 AND locked_by=:6 AND status='EXTERNAL_IN_FLIGHT'";

/// The context of a column that cannot be read.
pub const READ_ROW: &'static str = "failed to map operation WAL recovery row";

/// An intent that was leased to a worker.
#[derive(Debug)]
pub struct ClaimedWalRecovery {
    pub operation_id: Uuid,
    pub operation_type: String,
    pub aggregate_id: Uuid,
    pub attempt_count: u32,
}

/// The command behind an issued card, what was kept of the bank's report, and the batch.
#[derive(Debug)]
pub struct IssuanceWalPayload {
    pub command_context: DurableMutationContext,
    pub finalization: IssuedCardFinalizationSnapshot,
    pub batch_id: Uuid,
}

impl Clone for IssuanceWalPayload {
    fn clone(&self) -> (r: Self)
        ensures
            r == *self,
    {
        IssuanceWalPayload {
            command_context: self.command_context.clone(),
            finalization: self.finalization.clone(),
            batch_id: self.batch_id,
        }
    }
}

/// A batch whose issuances all have an outcome, and its command as a JSON document.
#[derive(Debug)]
pub struct ReadyBatch {
    pub batch_id: Uuid,
    pub command: String,
}

/// What there is to do for an intent that was interrupted.
#[derive(Debug)]
pub enum WalRecoveryWork {
    ProviderUser { context: DurableMutationContext, intent: ExistingCardProvisioningIntent },
    CardIssuance {
        context: DurableMutationContext,
        intent: IssuedCardProvisioningIntent,
        finalization: IssuedCardFinalizationSnapshot,
    },
    ProviderCredit {
        context: DurableMutationContext,
        intent: CreditMovementIntent,
        card_number: String,
    },
}

/// What there is to do for an intent that was interrupted, as plain values.
pub enum WalRecoveryView {
    ProviderUser { context: DurableMutationContext, intent: ExistingCardProvisioningIntent },
    CardIssuance {
        context: DurableMutationContext,
        intent: IssuedIntentView,
        finalization: IssuedCardFinalizationSnapshot,
    },
    ProviderCredit {
        context: DurableMutationContext,
        intent: CreditMovementIntent,
        card_number: String,
    },
}

impl View for WalRecoveryWork {
    type V = WalRecoveryView;

    open spec fn view(&self) -> WalRecoveryView {
        match self {
            WalRecoveryWork::ProviderUser { context, intent } => WalRecoveryView::ProviderUser {
                context: *context,
                intent: *intent,
            },
            WalRecoveryWork::CardIssuance {
                context,
                intent,
                finalization,
            } => WalRecoveryView::CardIssuance {
                context: *context,
                intent: intent@,
                finalization: *finalization,
            },
            WalRecoveryWork::ProviderCredit {
                context,
                intent,
                card_number,
            } => WalRecoveryView::ProviderCredit {
                context: *context,
                intent: *intent,
                card_number: *card_number,
            },
        }
    }
}

/// The batch that a row holds.
pub open spec fn map_ready_batch_spec(row: Row) -> Result<ReadyBatch, HaltView> {
    match row.raw_at(0, READ_ROW@) { Err(h) => Err(h), Ok(batch_id_raw) =>
    match script::id_of(batch_id_raw@) { Err(h) => Err(h), Ok(batch_id) =>
    match row.text_at(1, READ_ROW@) { Err(h) => Err(h), Ok(command) =>
    Ok(ReadyBatch { batch_id, command })
    }}}
}

/// The batch that a row holds.
pub fn map_ready_batch(row: &Row) -> (r: Result<ReadyBatch, Halt>)
    ensures
        script::seen(r) == map_ready_batch_spec(*row),
{
    let batch_id_raw = row.raw(0, READ_ROW)?;
    let batch_id = script::to_id(batch_id_raw)?;
    let command = row.text(1, READ_ROW)?;
    Ok(ReadyBatch { batch_id, command })
}

/// The batches that rows hold, in order, at most a number of them.
pub open spec fn map_ready_batches_spec(
    rows: Seq<Row>,
    i: nat,
    count: usize,
    done: Seq<ReadyBatch>,
) -> Result<Seq<ReadyBatch>, HaltView>
    decreases rows.len() - i,
{
    if i >= rows.len() || i >= count {
        Ok(done)
    } else {
        match map_ready_batch_spec(rows[i as int]) {
            Err(h) => Err(h), Ok(item) => map_ready_batches_spec(
                rows,
                i + 1,
                count,
                done.push(item),
            )
        }
    }
}

/// The batches that rows hold, in order, at most a number of them.
pub fn map_ready_batches(rows: &Vec<Row>, count: usize) -> (r: Result<Vec<ReadyBatch>, Halt>)
    ensures
        script::seen_view(r) == map_ready_batches_spec(rows@, 0, count, Seq::empty()),
{
    let mut done: Vec<ReadyBatch> = Vec::new();
    let mut i: usize = 0;
    assert(done@ =~= Seq::empty());
    while i < rows.len() && i < count
        invariant
            i <= rows@.len(),
            map_ready_batches_spec(rows@, 0, count, Seq::empty()) == map_ready_batches_spec(
                rows@,
                i as nat,
                count,
                done@,
            ),
        decreases rows@.len() - i,
    {
        let item = map_ready_batch(&rows[i])?;
        done.push(item);
        i = i + 1;
    }
    Ok(done)
}

/// The command that a rule reads in a JSON document.
pub open spec fn read_command_spec(
    st: RunView,
    rule: Rule,
    failure: Seq<char>,
) -> (Result<DurableMutationContext, HaltView>, RunView) {
    match script::consult_spec(st, rule) { (Err(h), st) => (Err(h), st), (Ok(answer), st) =>
    match answer {
        Answer::DurableCommand(Ok(context)) => {
            (Ok(context), st)
        },
        Answer::DurableCommand(Err(cause)) => {
            (script::failed(failure, cause@), st)
        },
        _ => {
            (script::query_fault(script::UNEXPECTED_REPLY@), st)
        },
    }
    }
}

/// The command that a rule reads in a JSON document.
pub fn read_command(
    s: &mut Session,
    rule: Rule,
    failure: &str,
) -> (r: Result<DurableMutationContext, Halt>)
    ensures
        (script::seen(r), final(s)@) == read_command_spec(old(s)@, rule, failure@),
{
    let answer = script::consult(s, rule)?;
    match answer {
        Answer::DurableCommand(Ok(context)) => {
            return Ok(context.clone());
        },
        Answer::DurableCommand(Err(cause)) => {
            return Err(script::fail_because(failure, cause.as_str()));
        },
        _ => {
            return Err(script::fail_query(script::UNEXPECTED_REPLY));
        },
    }
}

/// Completes a batch whose issuances are all accounted for. Another is left as it is.
pub open spec fn recover_batch_spec(
    st: RunView,
    ready: ReadyBatch,
) -> (Result<(), HaltView>, RunView) {
    match read_command_spec(
        st,
        Rule::ReadDurableCommand(ready.command),
        "invalid issuance batch recovery context"@,
    ) { (Err(h), st) => (Err(h), st), (Ok(context), st) =>
    match card_issuance_result::outcome_count_spec(
        st,
        ready.batch_id,
        "ISSUED",
        "failed to count recoverable issuance outcomes"@,
    ) { (Err(h), st) => (Err(h), st), (Ok(issued), st) =>
    match card_issuance_result::outcome_count_spec(
        st,
        ready.batch_id,
        "REJECTED",
        "failed to count recoverable issuance outcomes"@,
    ) { (Err(h), st) => (Err(h), st), (Ok(rejected), st) =>
    match card_issuance_result::outcome_count_spec(
        st,
        ready.batch_id,
        "FAILED",
        "failed to count recoverable issuance outcomes"@,
    ) { (Err(h), st) => (Err(h), st), (Ok(failed), st) =>
    match script::one_int_spec(
        st,
        BATCH_COUNT_SQL@,
        seq![Bind::Id(ready.batch_id)],
        "failed to count recoverable issuance batch"@,
    ) { (Err(h), st) => (Err(h), st), (Ok(request_count), st) =>
    if !card_issuance_result::accounted_for(issued, rejected, failed, request_count) {
        (Ok(()), st)
    } else {
    match script::execute_spec(
        st,
        RECOVER_BATCH_SQL@,
        seq![
            Bind::Label(card_issuance_result::batch_outcome(failed)),
            Bind::Int(issued),
            Bind::Int(rejected),
            Bind::Int(failed),
            Bind::Text(context.audit.actor_subject),
            Bind::Id(ready.batch_id),
        ],
        "failed to recover issuance batch completion"@,
    ) { (Err(h), st) => (Err(h), st), (Ok(_), st) =>
    match card_issuance::fetch_batch_spec(
        st,
        ready.batch_id,
    ) { (Err(h), st) => (Err(h), st), (Ok(found), st) =>
    match found {
    None => {
        (script::query_fault("recovered issuance batch disappeared"@), st)
    },
    Some(batch) =>
    match script::encode_spec(
        st,
        Rule::IssuanceBatchResponse(batch),
        "failed to serialize recovered issuance batch"@,
    ) { (Err(h), st) => (Err(h), st), (Ok(response), st) =>
    match idempotency::complete_idempotency_record_spec(
        st,
        context.operation_type,
        context.idempotency_key,
        "card_issuance_batch",
        ready.batch_id,
        Snapshot::Text(response),
    ) { (Err(h), st) => (Err(h), st), (Ok(_), st) =>
    (Ok(()), st)
    }}}}}}}}}}}
}

/// Completes a batch whose issuances are all accounted for. Another is left as it is.
pub fn recover_batch(s: &mut Session, ready: &ReadyBatch) -> (r: Result<(), Halt>)
    ensures
        (script::seen(r), final(s)@) == recover_batch_spec(old(s)@, *ready),
{
    let context = read_command(
        s,
        Rule::ReadDurableCommand(ready.command.clone()),
        "invalid issuance batch recovery context",
    )?;
    let issued: i64 = card_issuance_result::outcome_count(
        s,
        ready.batch_id,
        "ISSUED",
        "failed to count recoverable issuance outcomes",
    )?;
    let rejected: i64 = card_issuance_result::outcome_count(
        s,
        ready.batch_id,
        "REJECTED",
        "failed to count recoverable issuance outcomes",
    )?;
    let failed: i64 = card_issuance_result::outcome_count(
        s,
        ready.batch_id,
        "FAILED",
        "failed to count recoverable issuance outcomes",
    )?;
    let request_count = script::one_int(
        s,
        BATCH_COUNT_SQL,
        binds::binds1(Bind::Id(ready.batch_id)),
        "failed to count recoverable issuance batch",
    )?;
    if !card_issuance_result::is_accounted_for(issued, rejected, failed, request_count) {
        return Ok(());
    }
    script::execute(
        s,
        RECOVER_BATCH_SQL,
        binds::binds6(
            Bind::Label(card_issuance_result::to_batch_outcome(failed)),
            Bind::Int(issued),
            Bind::Int(rejected),
            Bind::Int(failed),
            Bind::Text(context.audit.actor_subject.clone()),
            Bind::Id(ready.batch_id),
        ),
        "failed to recover issuance batch completion",
    )?;
    let found = card_issuance::fetch_batch(s, ready.batch_id)?;
    let batch = match found {
        Some(v) => v,
        None => {
            return Err(script::fail_query("recovered issuance batch disappeared"));
        },
    };
    let response = script::encode(
        s,
        Rule::IssuanceBatchResponse(batch),
        "failed to serialize recovered issuance batch",
    )?;
    idempotency::complete_idempotency_record(
        s,
        &context.operation_type,
        &context.idempotency_key,
        "card_issuance_batch",
        ready.batch_id,
        Snapshot::Text(response),
    )?;
    Ok(())
}

/// Completes batches in turn.
pub open spec fn recover_batches_spec(
    st: RunView,
    batches: Seq<ReadyBatch>,
    i: nat,
) -> (Result<(), HaltView>, RunView)
    decreases batches.len() - i,
{
    if i >= batches.len() {
        (Ok(()), st)
    } else {
        match recover_batch_spec(st, batches[i as int]) {
            (Err(h), st) => (Err(h), st), (Ok(_), st) => recover_batches_spec(st, batches, i + 1)
        }
    }
}

/// Completes batches in turn.
pub fn recover_batches(s: &mut Session, batches: &Vec<ReadyBatch>) -> (r: Result<(), Halt>)
    ensures
        (script::seen(r), final(s)@) == recover_batches_spec(old(s)@, batches@, 0),
{
    let mut i: usize = 0;
    while i < batches.len()
        invariant
            i <= batches@.len(),
            recover_batches_spec(old(s)@, batches@, 0) == recover_batches_spec(
                s@,
                batches@,
                i as nat,
            ),
        decreases batches@.len() - i,
    {
        recover_batch(s, &batches[i])?;
        i = i + 1;
    }
    Ok(())
}

/// Each is taken in its turn, after those before it, and the first that fails ends the run.
pub proof fn recover_batches_go_in_turn(st: RunView, batches: Seq<ReadyBatch>, i: nat)
    ensures
        ({
            let whole = recover_batches_spec(st, batches, i);
            let (next, at) = recover_batch_spec(st, batches[i as int]);
            &&& i >= batches.len() ==> whole == (Ok::<_, HaltView>(()), st)
            &&& i < batches.len() ==> match next {
                Ok(_) => whole == recover_batches_spec(at, batches, i + 1),
                Err(halt) => whole.0 == Err::<(), _>(halt) && whole.1 == at,
            }
        }),
{
}

/// Completes batches whose issuances all have an outcome, at most a number of them, and counts the
/// batches it looked at.
pub open spec fn recover_ready_issuance_batches_spec(
    st: RunView,
    limit: u16,
) -> (Result<u16, HaltView>, RunView) {
    match script::limited_rows_spec(
        st,
        READY_BATCHES_SQL@,
        Seq::<Bind>::empty(),
        "rt",
        (limit + 1) as u64,
        "failed to select recoverable issuance batches"@,
    ) { (Err(h), st) => (Err(h), st), (Ok(found), st) =>
    match map_ready_batches_spec(
        found.rows@,
        0,
        limit as usize,
        Seq::empty(),
    ) { Err(h) => (Err(h), st), Ok(ready) =>
    if ready.len() < limit {
        if let Some(cause) = found.failure {
            (script::failed("failed to read recoverable issuance batch"@, cause@), st)
        } else {
            match recover_batches_spec(st, ready, 0) { (Err(h), st) => (Err(h), st), (Ok(_), st) =>
            if ready.len() > u16::MAX {
                (script::query_fault("issuance recovery count overflow"@), st)
            } else {
            (Ok(ready.len() as u16), st)
            }}
        }
    } else {
        match recover_batches_spec(st, ready, 0) { (Err(h), st) => (Err(h), st), (Ok(_), st) =>
        if ready.len() > u16::MAX {
            (script::query_fault("issuance recovery count overflow"@), st)
        } else {
        (Ok(ready.len() as u16), st)
        }}
    }
    }}
}

impl OracleRepository {
    /// Completes batches whose issuances all have an outcome, at most a number of them, and counts
    /// the batches it looked at.
    pub fn recover_ready_issuance_batches(s: &mut Session, limit: u16) -> (r: Result<u16, Halt>)
        ensures
            (script::seen(r), final(s)@) == recover_ready_issuance_batches_spec(old(s)@, limit),
    {
        let found = script::limited_rows(
            s,
            READY_BATCHES_SQL,
            binds::binds0(),
            "rt",
            limit as u64 + 1,
            "failed to select recoverable issuance batches",
        )?;
        let ready = map_ready_batches(&found.rows, limit as usize)?;
        if ready.len() < limit as usize {
            if let Some(cause) = &found.failure {
                return Err(script::fail_because(
                    "failed to read recoverable issuance batch",
                    cause.as_str(),
                ));
            } else {
                recover_batches(s, &ready)?;
                if ready.len() > u16::MAX as usize {
                    return Err(script::fail_query("issuance recovery count overflow"));
                }
                return Ok(ready.len() as u16);
            }
        } else {
            recover_batches(s, &ready)?;
            if ready.len() > u16::MAX as usize {
                return Err(script::fail_query("issuance recovery count overflow"));
            }
            return Ok(ready.len() as u16);
        }
    }
}

/// The intent that a row holds.
#[verifier::opaque]
pub open spec fn map_claim_spec(row: Row) -> Result<ClaimedWalRecovery, HaltView> {
    match row.raw_at(0, READ_ROW@) { Err(h) => Err(h), Ok(operation_id_raw) =>
    match script::id_of(operation_id_raw@) { Err(h) => Err(h), Ok(operation_id) =>
    match row.int_at(3, READ_ROW@) { Err(h) => Err(h), Ok(attempts) =>
    match row.text_at(1, READ_ROW@) { Err(h) => Err(h), Ok(operation_type) =>
    match row.raw_at(2, READ_ROW@) { Err(h) => Err(h), Ok(aggregate_id_raw) =>
    match script::id_of(aggregate_id_raw@) { Err(h) => Err(h), Ok(aggregate_id) =>
    match card_issuance::count_of(
        attempts,
        "invalid WAL attempt count"@,
    ) { Err(h) => Err(h), Ok(attempt_count) =>
    Ok(ClaimedWalRecovery { operation_id, operation_type, aggregate_id, attempt_count })
    }}}}}}}
}

/// The intent that a row holds.
pub fn map_claim(row: &Row) -> (r: Result<ClaimedWalRecovery, Halt>)
    ensures
        script::seen(r) == map_claim_spec(*row),
{
    proof {
        reveal(map_claim_spec);
    }
    let operation_id_raw = row.raw(0, READ_ROW)?;
    let operation_id = script::to_id(operation_id_raw)?;
    let attempts: i64 = row.number(3, READ_ROW)?;
    let operation_type = row.text(1, READ_ROW)?;
    let aggregate_id_raw = row.raw(2, READ_ROW)?;
    let aggregate_id = script::to_id(aggregate_id_raw)?;
    let attempt_count: u32 = card_issuance::to_count(attempts, "invalid WAL attempt count")?;
    Ok(ClaimedWalRecovery { operation_id, operation_type, aggregate_id, attempt_count })
}

/// The intents that rows hold, in order, at most a number of them.
pub open spec fn map_claims_spec(
    rows: Seq<Row>,
    i: nat,
    count: usize,
    done: Seq<ClaimedWalRecovery>,
) -> Result<Seq<ClaimedWalRecovery>, HaltView>
    decreases rows.len() - i,
{
    if i >= rows.len() || i >= count {
        Ok(done)
    } else {
        match map_claim_spec(rows[i as int]) {
            Err(h) => Err(h), Ok(item) => map_claims_spec(rows, i + 1, count, done.push(item))
        }
    }
}

/// The intents that rows hold, in order, at most a number of them.
pub fn map_claims(rows: &Vec<Row>, count: usize) -> (r: Result<Vec<ClaimedWalRecovery>, Halt>)
    ensures
        script::seen_view(r) == map_claims_spec(rows@, 0, count, Seq::empty()),
{
    let mut done: Vec<ClaimedWalRecovery> = Vec::new();
    let mut i: usize = 0;
    assert(done@ =~= Seq::empty());
    while i < rows.len() && i < count
        invariant
            i <= rows@.len(),
            map_claims_spec(rows@, 0, count, Seq::empty()) == map_claims_spec(
                rows@,
                i as nat,
                count,
                done@,
            ),
        decreases rows@.len() - i,
    {
        let item = map_claim(&rows[i])?;
        done.push(item);
        i = i + 1;
    }
    Ok(done)
}

/// Leases an intent to a worker.
pub open spec fn lease_claim_spec(
    st: RunView,
    job: ClaimedWalRecovery,
    worker_id: String,
    lease_duration_ms: u64,
) -> (Result<(), HaltView>, RunView) {
    match script::execute_spec(
        st,
        LEASE_SQL@,
        seq![
            Bind::Text(worker_id),
            Bind::Int(lease_duration_ms as i64),
            Bind::Id(job.operation_id),
        ],
        "failed to lease recoverable WAL"@,
    ) { (Err(h), st) => (Err(h), st), (Ok(_), st) =>
    (Ok(()), st)
    }
}

/// Leases an intent to a worker.
pub fn lease_claim(
    s: &mut Session,
    job: &ClaimedWalRecovery,
    worker_id: &String,
    lease_duration_ms: u64,
) -> (r: Result<(), Halt>)
    ensures
        (script::seen(r), final(s)@) == lease_claim_spec(
            old(s)@,
            *job,
            *worker_id,
            lease_duration_ms,
        ),
{
    script::execute(
        s,
        LEASE_SQL,
        binds::binds3(
            Bind::Text(worker_id.clone()),
            Bind::Int(lease_duration_ms as i64),
            Bind::Id(job.operation_id),
        ),
        "failed to lease recoverable WAL",
    )?;
    Ok(())
}

/// Leases intents to a worker in turn.
pub open spec fn lease_claims_spec(
    st: RunView,
    jobs: Seq<ClaimedWalRecovery>,
    i: nat,
    worker_id: String,
    lease_duration_ms: u64,
) -> (Result<(), HaltView>, RunView)
    decreases jobs.len() - i,
{
    if i >= jobs.len() {
        (Ok(()), st)
    } else {
        match lease_claim_spec(st, jobs[i as int], worker_id, lease_duration_ms) {
            (Err(h), st) => (Err(h), st), (Ok(_), st) => lease_claims_spec(
                st,
                jobs,
                i + 1,
                worker_id,
                lease_duration_ms,
            )
        }
    }
}

/// Leases intents to a worker in turn.
pub fn lease_claims(
    s: &mut Session,
    jobs: &Vec<ClaimedWalRecovery>,
    worker_id: &String,
    lease_duration_ms: u64,
) -> (r: Result<(), Halt>)
    ensures
        (script::seen(r), final(s)@) == lease_claims_spec(
            old(s)@,
            jobs@,
            0,
            *worker_id,
            lease_duration_ms,
        ),
{
    let mut i: usize = 0;
    while i < jobs.len()
        invariant
            i <= jobs@.len(),
            lease_claims_spec(old(s)@, jobs@, 0, *worker_id, lease_duration_ms) == lease_claims_spec(
                s@,
                jobs@,
                i as nat,
                *worker_id,
                lease_duration_ms,
            ),
        decreases jobs@.len() - i,
    {
        lease_claim(s, &jobs[i], worker_id, lease_duration_ms)?;
        i = i + 1;
    }
    Ok(())
}

/// Each is taken in its turn, after those before it, and the first that fails ends the run.
pub proof fn lease_claims_go_in_turn(
    st: RunView,
    jobs: Seq<ClaimedWalRecovery>,
    i: nat,
    worker_id: String,
    lease_duration_ms: u64,
)
    ensures
        ({
            let whole = lease_claims_spec(st, jobs, i, worker_id, lease_duration_ms);
            let (next, at) = lease_claim_spec(st, jobs[i as int], worker_id, lease_duration_ms);
            &&& i >= jobs.len() ==> whole == (Ok::<_, HaltView>(()), st)
            &&& i < jobs.len() ==> match next {
                Ok(_) => whole == lease_claims_spec(at, jobs, i + 1, worker_id, lease_duration_ms),
                Err(halt) => whole.0 == Err::<(), _>(halt) && whole.1 == at,
            }
        }),
{
}

/// Leases intents that wait for recovery to a worker, at most a batch of them, after the leases
/// that ran out are released.
pub open spec fn claim_recoverable_wal_spec(
    st: RunView,
    worker_id: String,
    batch_size: u16,
    lease_duration_ms: u64,
    stale_after_ms: u64,
) -> (Result<Seq<ClaimedWalRecovery>, HaltView>, RunView) {
    match script::execute_spec(
        st,
        RELEASE_SQL@,
        Seq::<Bind>::empty(),
        "failed to release stale WAL leases"@,
    ) { (Err(h), st) => (Err(h), st), (Ok(_), st) =>
    match script::limited_rows_spec(
        st,
        RECOVERABLE_SQL@,
        seq![Bind::Int(stale_after_ms as i64)],
        "rtri",
        (batch_size + 1) as u64,
        "failed to select recoverable WAL"@,
    ) { (Err(h), st) => (Err(h), st), (Ok(found), st) =>
    match map_claims_spec(
        found.rows@,
        0,
        batch_size as usize,
        Seq::empty(),
    ) { Err(h) => (Err(h), st), Ok(claimed) =>
    if claimed.len() < batch_size {
        if let Some(cause) = found.failure {
            (script::failed("failed to read recoverable WAL"@, cause@), st)
        } else {
            match lease_claims_spec(
                st,
                claimed,
                0,
                worker_id,
                lease_duration_ms,
            ) { (Err(h), st) => (Err(h), st), (Ok(_), st) =>
            (Ok(claimed), st)
            }
        }
    } else {
        match lease_claims_spec(
            st,
            claimed,
            0,
            worker_id,
            lease_duration_ms,
        ) { (Err(h), st) => (Err(h), st), (Ok(_), st) =>
        (Ok(claimed), st)
        }
    }
    }}}
}

impl OracleRepository {
    /// Leases intents that wait for recovery to a worker, at most a batch of them, after the leases
    /// that ran out are released.
    pub fn claim_recoverable_wal(
        s: &mut Session,
        worker_id: &String,
        batch_size: u16,
        lease_duration_ms: u64,
        stale_after_ms: u64,
    ) -> (r: Result<Vec<ClaimedWalRecovery>, Halt>)
        ensures
            (script::seen_view(r), final(s)@) == claim_recoverable_wal_spec(
                old(s)@,
                *worker_id,
                batch_size,
                lease_duration_ms,
                stale_after_ms,
            ),
    {
        script::execute(s, RELEASE_SQL, binds::binds0(), "failed to release stale WAL leases")?;
        let found = script::limited_rows(
            s,
            RECOVERABLE_SQL,
            binds::binds1(Bind::Int(stale_after_ms as i64)),
            "rtri",
            batch_size as u64 + 1,
            "failed to select recoverable WAL",
        )?;
        let claimed = map_claims(&found.rows, batch_size as usize)?;
        if claimed.len() < batch_size as usize {
            if let Some(cause) = &found.failure {
                return Err(script::fail_because("failed to read recoverable WAL", cause.as_str()));
            } else {
                lease_claims(s, &claimed, worker_id, lease_duration_ms)?;
                return Ok(claimed);
            }
        } else {
            lease_claims(s, &claimed, worker_id, lease_duration_ms)?;
            return Ok(claimed);
        }
    }
}

/// The command, the report and the batch that a JSON document holds.
pub open spec fn read_issuance_wal_spec(
    st: RunView,
    stored: String,
) -> (Result<IssuanceWalPayload, HaltView>, RunView) {
    match script::consult_spec(
        st,
        Rule::ReadIssuanceWal(stored),
    ) { (Err(h), st) => (Err(h), st), (Ok(answer), st) =>
    match answer {
        Answer::IssuanceWal(Ok(payload)) => {
            (Ok(payload), st)
        },
        Answer::IssuanceWal(Err(cause)) => {
            (script::failed("invalid issuance WAL payload"@, cause@), st)
        },
        _ => {
            (script::query_fault(script::UNEXPECTED_REPLY@), st)
        },
    }
    }
}

/// The command, the report and the batch that a JSON document holds.
pub fn read_issuance_wal(s: &mut Session, stored: String) -> (r: Result<IssuanceWalPayload, Halt>)
    ensures
        (script::seen(r), final(s)@) == read_issuance_wal_spec(old(s)@, stored),
{
    let answer = script::consult(s, Rule::ReadIssuanceWal(stored))?;
    match answer {
        Answer::IssuanceWal(Ok(payload)) => {
            return Ok(payload.clone());
        },
        Answer::IssuanceWal(Err(cause)) => {
            return Err(script::fail_because("invalid issuance WAL payload", cause.as_str()));
        },
        _ => {
            return Err(script::fail_query(script::UNEXPECTED_REPLY));
        },
    }
}

/// What there is to do for a leased intent, where its type is known and the intent is still open.
pub open spec fn load_wal_recovery_work_spec(
    st: RunView,
    job: ClaimedWalRecovery,
) -> (Result<Option<WalRecoveryView>, HaltView>, RunView) {
    match script::one_text_spec(
        st,
        PAYLOAD_SQL@,
        seq![Bind::Id(job.operation_id)],
        "failed to load WAL recovery payload"@,
    ) { (Err(h), st) => (Err(h), st), (Ok(stored), st) =>
    if job.operation_type@ == "PROVIDER_USER_ACCOUNT_PROVISION"@ {
        match read_command_spec(
            st,
            Rule::ReadProviderUserWal(stored),
            "invalid provider-user WAL payload"@,
        ) { (Err(h), st) => (Err(h), st), (Ok(context), st) =>
        match provider_user::resume_provider_user_intent_spec(
            st,
            job.aggregate_id,
        ) { (Err(h), st) => (Err(h), st), (Ok(resumed), st) =>
        match resumed {
        None => {
            (Ok(None), st)
        },
        Some(intent) =>
        (Ok(Some(WalRecoveryView::ProviderUser { context, intent })), st)
        }}}
    } else {
    if job.operation_type@ == "CARD_ISSUANCE_ACCOUNT_PROVISION"@ {
        match read_issuance_wal_spec(
            st,
            stored,
        ) { (Err(h), st) => (Err(h), st), (Ok(payload), st) =>
        match card_issuance_result::load_issued_card_intent_spec(
            st,
            payload.batch_id,
            job.aggregate_id,
        ) { (Err(h), st) => (Err(h), st), (Ok(loaded), st) =>
        match loaded {
        None => {
            (Ok(None), st)
        },
        Some(intent) =>
        (
            Ok(Some(WalRecoveryView::CardIssuance {
                context: payload.command_context,
                intent,
                finalization: payload.finalization,
            })),
            st,
        )
        }}}
    } else {
    if job.operation_type@ == "PROVIDER_CREDIT_MOVEMENT"@ {
        match provider_credit::read_movement_wal_spec(
            st,
            stored,
            "invalid provider-credit WAL payload"@,
        ) { (Err(h), st) => (Err(h), st), (Ok(payload), st) =>
        match script::one_text_spec(
            st,
            CREDIT_CARD_SQL@,
            seq![Bind::Id(job.operation_id)],
            "failed to load provider-credit recovery card"@,
        ) { (Err(h), st) => (Err(h), st), (Ok(card_number), st) =>
        (
            Ok(Some(WalRecoveryView::ProviderCredit {
                context: payload.command_context,
                intent: payload.intent,
                card_number,
            })),
            st,
        )
        }}
    } else {
    (Ok(None), st)
    }}}}
}

impl OracleRepository {
    /// What there is to do for a leased intent, where its type is known and the intent is still
    /// open.
    pub fn load_wal_recovery_work(
        s: &mut Session,
        job: &ClaimedWalRecovery,
    ) -> (r: Result<Option<WalRecoveryWork>, Halt>)
        ensures
            (script::seen_opt_view(r), final(s)@) == load_wal_recovery_work_spec(old(s)@, *job),
    {
        let stored = script::one_text(
            s,
            PAYLOAD_SQL,
            binds::binds1(Bind::Id(job.operation_id)),
            "failed to load WAL recovery payload",
        )?;
        if text::same_text(job.operation_type.as_str(), "PROVIDER_USER_ACCOUNT_PROVISION") {
            let context = read_command(
                s,
                Rule::ReadProviderUserWal(stored),
                "invalid provider-user WAL payload",
            )?;
            let resumed = provider_user::resume_provider_user_intent(s, job.aggregate_id)?;
            let intent = match resumed {
                Some(v) => v,
                None => {
                    return Ok(None);
                },
            };
            return Ok(Some(WalRecoveryWork::ProviderUser { context, intent }));
        }
        if text::same_text(job.operation_type.as_str(), "CARD_ISSUANCE_ACCOUNT_PROVISION") {
            let payload = read_issuance_wal(s, stored)?;
            let loaded = card_issuance_result::load_issued_card_intent(
                s,
                payload.batch_id,
                job.aggregate_id,
            )?;
            let intent = match loaded {
                Some(v) => v,
                None => {
                    return Ok(None);
                },
            };
            return Ok(Some(WalRecoveryWork::CardIssuance {
                context: payload.command_context,
                intent,
                finalization: payload.finalization,
            }));
        }
        if text::same_text(job.operation_type.as_str(), "PROVIDER_CREDIT_MOVEMENT") {
            let payload = provider_credit::read_movement_wal(
                s,
                stored,
                "invalid provider-credit WAL payload",
            )?;
            let card_number = script::one_text(
                s,
                CREDIT_CARD_SQL,
                binds::binds1(Bind::Id(job.operation_id)),
                "failed to load provider-credit recovery card",
            )?;
            return Ok(Some(WalRecoveryWork::ProviderCredit {
                context: payload.command_context,
                intent: payload.intent,
                card_number,
            }));
        }
        Ok(None)
    }
}

/// The status of an intent whose recovery failed, and the time until the next attempt: one whose
/// attempts are used up is given up.
pub open spec fn retry_terms(exhausted: bool, backoff_ms: u64) -> (&'static str, Option<i64>) {
    if exhausted {
        ("DEAD_LETTER", None)
    } else {
        ("FAILED", Some(backoff_ms as i64))
    }
}

/// The status of an intent whose recovery failed, and the time until the next attempt: one whose
/// attempts are used up is given up.
pub fn to_retry_terms(exhausted: bool, backoff_ms: u64) -> (r: (&'static str, Option<i64>))
    ensures
        r == retry_terms(exhausted, backoff_ms),
{
    if exhausted {
        ("DEAD_LETTER", None)
    } else {
        ("FAILED", Some(backoff_ms as i64))
    }
}

/// Gives an intent up or puts it off, where it is leased to the worker.
pub open spec fn reschedule_wal_recovery_spec(
    st: RunView,
    operation_id: Uuid,
    worker_id: String,
    backoff_ms: u64,
    exhausted: bool,
    safe_error_code: &'static str,
) -> (Result<(), HaltView>, RunView) {
    { let terms = retry_terms(exhausted, backoff_ms);
    match script::execute_count_spec(
        st,
        RESCHEDULE_SQL@,
        seq![
            Bind::Label(terms.0),
            Bind::Json(Document::ErrorCode(safe_error_code)),
            Bind::OptInt(terms.1),
            Bind::OptInt(terms.1),
            Bind::Id(operation_id),
            Bind::Text(worker_id),
        ],
        "failed to reschedule operation WAL"@,
        READ_ROW@,
    ) { (Err(h), st) => (Err(h), st), (Ok(touched), st) =>
    if touched != 1 {
        (script::conflict_fault("operation WAL lease is no longer owned"@), st)
    } else {
    (Ok(()), st)
    }}}
}

impl OracleRepository {
    /// Gives an intent up or puts it off, where it is leased to the worker.
    pub fn reschedule_wal_recovery(
        s: &mut Session,
        operation_id: Uuid,
        worker_id: &String,
        backoff_ms: u64,
        exhausted: bool,
        safe_error_code: &'static str,
    ) -> (r: Result<(), Halt>)
        ensures
            (script::seen(r), final(s)@) == reschedule_wal_recovery_spec(
                old(s)@,
                operation_id,
                *worker_id,
                backoff_ms,
                exhausted,
                safe_error_code,
            ),
    {
        let terms = to_retry_terms(exhausted, backoff_ms);
        let touched = script::execute_count(
            s,
            RESCHEDULE_SQL,
            binds::binds6(
                Bind::Label(terms.0),
                Bind::Json(Document::ErrorCode(safe_error_code)),
                Bind::OptInt(terms.1),
                Bind::OptInt(terms.1),
                Bind::Id(operation_id),
                Bind::Text(worker_id.clone()),
            ),
            "failed to reschedule operation WAL",
            READ_ROW,
        )?;
        if touched != 1 {
            return Err(script::fail_conflict("operation WAL lease is no longer owned"));
        }
        Ok(())
    }
}

/// Of the rows that follow, no more are read than there is room for.
pub broadcast proof fn read_claims_fit(
    rows: Seq<Row>,
    i: nat,
    count: usize,
    done: Seq<ClaimedWalRecovery>,
)
    requires
        i <= count,
        done.len() == i,
    ensures
        (
            #[trigger] map_claims_spec(rows, i, count, done)
        ) matches Ok(claims) ==> claims.len() <= count,
    decreases rows.len() - i,
{
    if i < rows.len() && i < count {
        if let Ok(item) = map_claim_spec(rows[i as int]) {
            read_claims_fit(rows, i + 1, count, done.push(item));
        }
    }
}

/// However many intents are due, a worker gets no more of them than a batch holds.
pub proof fn claimed_claims_fit(
    st: RunView,
    worker_id: String,
    batch_size: u16,
    lease_duration_ms: u64,
    stale_after_ms: u64,
)
    ensures
        claim_recoverable_wal_spec(
            st,
            worker_id,
            batch_size,
            lease_duration_ms,
            stale_after_ms,
        ).0 matches Ok(claims)
            ==> claims.len() <= batch_size,
{
    broadcast use read_claims_fit;

}

/// An intent is put off or given up by the worker that holds its lease alone: only where the
/// statement that asks for the lease touched exactly this intent.
pub proof fn rescheduled_intent_was_leased(
    st: RunView,
    operation_id: Uuid,
    worker_id: String,
    backoff_ms: u64,
    exhausted: bool,
    safe_error_code: &'static str,
)
    ensures
        ({
            let terms = retry_terms(exhausted, backoff_ms);
            reschedule_wal_recovery_spec(
                st,
                operation_id,
                worker_id,
                backoff_ms,
                exhausted,
                safe_error_code,
            ).0 is Ok ==> script::execute_count_spec(
                st,
                RESCHEDULE_SQL@,
                seq![
                    Bind::Label(terms.0),
                    Bind::Json(Document::ErrorCode(safe_error_code)),
                    Bind::OptInt(terms.1),
                    Bind::OptInt(terms.1),
                    Bind::Id(operation_id),
                    Bind::Text(worker_id),
                ],
                "failed to reschedule operation WAL"@,
                READ_ROW@,
            ).0 == Ok::<u64, HaltView>(1)
        }),
{
}

/// An intent that is exhausted is told as dead and does not come back; one that is not is told as
/// failed and comes back after the time asked for. Both go by the worker that holds the lease, and
/// leave the cause.
pub proof fn intent_is_given_up_or_put_off(
    st: RunView,
    operation_id: Uuid,
    worker_id: String,
    backoff_ms: u64,
    exhausted: bool,
    safe_error_code: &'static str,
)
    requires
        reschedule_wal_recovery_spec(
            st,
            operation_id,
            worker_id,
            backoff_ms,
            exhausted,
            safe_error_code,
        ).0 is Ok,
    ensures
        ({
            let later = if exhausted {
                None
            } else {
                Some(backoff_ms as i64)
            };
            reschedule_wal_recovery_spec(
                st,
                operation_id,
                worker_id,
                backoff_ms,
                exhausted,
                safe_error_code,
            ).1.log == st.log.push(
                script::change(
                    RESCHEDULE_SQL@,
                    seq![
                        Bind::Label(
                            if exhausted {
                                "DEAD_LETTER"
                            } else {
                                "FAILED"
                            },
                        ),
                        Bind::Json(Document::ErrorCode(safe_error_code)),
                        Bind::OptInt(later),
                        Bind::OptInt(later),
                        Bind::Id(operation_id),
                        Bind::Text(worker_id),
                    ],
                ),
            )
        }),
        st.rest[0] == script::Reply::Executed(Ok(1)),
{
}

/// What there is to do for an intent goes by its kind: a customer's, a card's or a movement's. An
/// intent of another kind is left alone.
#[verifier::rlimit(60)]
pub proof fn work_goes_by_the_kind_of_the_intent(st: RunView, job: ClaimedWalRecovery)
    ensures
        load_wal_recovery_work_spec(st, job).0 matches Ok(Some(work)) ==> match work {
            WalRecoveryView::ProviderUser { .. } => job.operation_type@
                == "PROVIDER_USER_ACCOUNT_PROVISION"@,
            WalRecoveryView::CardIssuance { .. } => job.operation_type@
                == "CARD_ISSUANCE_ACCOUNT_PROVISION"@,
            WalRecoveryView::ProviderCredit { .. } => job.operation_type@
                == "PROVIDER_CREDIT_MOVEMENT"@,
        },
        (job.operation_type@ != "PROVIDER_USER_ACCOUNT_PROVISION"@ && job.operation_type@
            != "CARD_ISSUANCE_ACCOUNT_PROVISION"@ && job.operation_type@
            != "PROVIDER_CREDIT_MOVEMENT"@) ==> (load_wal_recovery_work_spec(st, job).0 matches Ok(
            work,
        ) ==> work is None),
{
}

/// A batch is told to be completed only where each of its requests is issued, rejected or failed,
/// with these counts: completed where none failed, and partially completed otherwise.
#[verifier::rlimit(80)]
pub proof fn recovered_batch_is_accounted_for(st: RunView, ready: ReadyBatch)
    ensures
        ({
            let (result, after) = recover_batch_spec(st, ready);
            let at = read_command_spec(
                st,
                Rule::ReadDurableCommand(ready.command),
                "invalid issuance batch recovery context"@,
            );
            let failure = "failed to count recoverable issuance outcomes"@;
            let (issued, a) = card_issuance_result::outcome_count_spec(
                at.1,
                ready.batch_id,
                "ISSUED",
                failure,
            );
            let (rejected, b) = card_issuance_result::outcome_count_spec(
                a,
                ready.batch_id,
                "REJECTED",
                failure,
            );
            let (failed, c) = card_issuance_result::outcome_count_spec(
                b,
                ready.batch_id,
                "FAILED",
                failure,
            );
            let (count, d) = script::one_int_spec(
                c,
                BATCH_COUNT_SQL@,
                seq![Bind::Id(ready.batch_id)],
                "failed to count recoverable issuance batch"@,
            );
            let whole = issued->Ok_0 + rejected->Ok_0 + failed->Ok_0 == count->Ok_0;
            result is Ok ==> {
                &&& !whole ==> after == d
                &&& whole ==> script::ran(
                    after.log,
                    RECOVER_BATCH_SQL@,
                    seq![
                        Bind::Label(
                            if failed->Ok_0 == 0 {
                                "COMPLETED"
                            } else {
                                "PARTIALLY_COMPLETED"
                            },
                        ),
                        Bind::Int(issued->Ok_0),
                        Bind::Int(rejected->Ok_0),
                        Bind::Int(failed->Ok_0),
                        Bind::Text(at.0->Ok_0.audit.actor_subject),
                        Bind::Id(ready.batch_id),
                    ],
                )
            }
        }),
{
    broadcast use script::runs_on_with_another;

    reveal(card_issuance::map_batch_spec);
}

/// Each value is read from its own column: the batch that a row holds.
#[verifier::rlimit(60)]
pub proof fn map_ready_batch_is_read_by_column(
    row: Row,
)
    ensures
        map_ready_batch_spec(row) matches Ok(read) ==> {
            &&& read.batch_id == row.id_at(0, READ_ROW@)->Ok_0
            &&& read.command == row.text_at(1, READ_ROW@)->Ok_0
        },
{
}

/// What is asked first, and with which values, in a run that does this:
/// completes batches whose issuances all have an outcome, at most a number of them, and counts the
/// batches it looked at.
pub proof fn recover_ready_issuance_batches_asks_first(
    st: RunView,
    limit: u16,
)
    requires
        st.rest.len() == 0,
    ensures
        recover_ready_issuance_batches_spec(st, limit).0 matches Err(HaltView::Ask(asked))
            && (
                asked matches script::CallView::Sql { sql, binds, .. } && sql == READY_BATCHES_SQL@
                    && binds == Seq::<Bind>::empty()
            ),
{
}

/// Each value is read from its own column: the intent that a row holds.
#[verifier::rlimit(60)]
pub proof fn map_claim_is_read_by_column(
    row: Row,
)
    ensures
        map_claim_spec(row) matches Ok(read) ==> {
            &&& read.operation_id == row.id_at(0, READ_ROW@)->Ok_0
            &&& read.operation_type == row.text_at(1, READ_ROW@)->Ok_0
            &&& read.aggregate_id == row.id_at(2, READ_ROW@)->Ok_0
            &&& read.attempt_count == card_issuance::count_of(
                row.int_at(3, READ_ROW@)->Ok_0,
                "invalid WAL attempt count"@,
            )->Ok_0
        },
{
    reveal(map_claim_spec);
}

/// What is asked first, and with which values, in a run that does this:
/// leases an intent to a worker.
pub proof fn lease_claim_asks_first(
    st: RunView,
    job: ClaimedWalRecovery,
    worker_id: String,
    lease_duration_ms: u64,
)
    requires
        st.rest.len() == 0,
    ensures
        lease_claim_spec(st, job, worker_id, lease_duration_ms).0 matches Err(HaltView::Ask(asked))
            && (
                asked matches script::CallView::Sql { sql, binds, .. } && sql == LEASE_SQL@
                    && binds == seq![
                        Bind::Text(worker_id),
                        Bind::Int(lease_duration_ms as i64),
                        Bind::Id(job.operation_id),
                    ]
            ),
{
}

/// What the database is told, and with which values, where a run succeeds that does this:
/// leases an intent to a worker.
#[verifier::rlimit(60)]
pub proof fn lease_claim_is_told(
    st: RunView,
    job: ClaimedWalRecovery,
    worker_id: String,
    lease_duration_ms: u64,
)
    ensures
        ({
            let (ended, after) = lease_claim_spec(st, job, worker_id, lease_duration_ms);
            let log = after.log;
            ended is Ok ==> {
                &&& script::ran(
                    log,
                    LEASE_SQL@,
                    seq![
                        Bind::Text(worker_id),
                        Bind::Int(lease_duration_ms as i64),
                        Bind::Id(job.operation_id),
                    ],
                )
            }
        }),
{
    broadcast use {script::runs_on_with_another, script::told_where_with_another};

}

/// What is asked first, and with which values, in a run that does this:
/// leases intents that wait for recovery to a worker, at most a batch of them, after the leases
/// that ran out are released.
pub proof fn claim_recoverable_wal_asks_first(
    st: RunView,
    worker_id: String,
    batch_size: u16,
    lease_duration_ms: u64,
    stale_after_ms: u64,
)
    requires
        st.rest.len() == 0,
    ensures
        claim_recoverable_wal_spec(
            st,
            worker_id,
            batch_size,
            lease_duration_ms,
            stale_after_ms,
        ).0 matches Err(HaltView::Ask(asked))
            && (
                asked matches script::CallView::Sql { sql, binds, .. } && sql == RELEASE_SQL@
                    && binds == Seq::<Bind>::empty()
            ),
{
}

/// What is asked first, and with which values, in a run that does this:
/// what there is to do for a leased intent, where its type is known and the intent is still open.
pub proof fn load_wal_recovery_work_asks_first(
    st: RunView,
    job: ClaimedWalRecovery,
)
    requires
        st.rest.len() == 0,
    ensures
        load_wal_recovery_work_spec(st, job).0 matches Err(HaltView::Ask(asked))
            && (
                asked matches script::CallView::Sql { sql, binds, .. } && sql == PAYLOAD_SQL@
                    && binds == seq![Bind::Id(job.operation_id)]
            ),
{
}

/// What is asked first, and with which values, in a run that does this:
/// gives an intent up or puts it off, where it is leased to the worker.
pub proof fn reschedule_wal_recovery_asks_first(
    st: RunView,
    operation_id: Uuid,
    worker_id: String,
    backoff_ms: u64,
    exhausted: bool,
    safe_error_code: &'static str,
)
    requires
        st.rest.len() == 0,
    ensures
        reschedule_wal_recovery_spec(
            st,
            operation_id,
            worker_id,
            backoff_ms,
            exhausted,
            safe_error_code,
        ).0 matches Err(HaltView::Ask(asked))
            && (
                asked matches script::CallView::Sql { sql, binds, .. } && sql == RESCHEDULE_SQL@
                    && binds == seq![
                        Bind::Label((retry_terms(exhausted, backoff_ms)).0),
                        Bind::Json(Document::ErrorCode(safe_error_code)),
                        Bind::OptInt((retry_terms(exhausted, backoff_ms)).1),
                        Bind::OptInt((retry_terms(exhausted, backoff_ms)).1),
                        Bind::Id(operation_id),
                        Bind::Text(worker_id),
                    ]
            ),
{
}

/// Exactly one row is touched where a run succeeds that does this:
/// gives an intent up or puts it off, where it is leased to the worker.
pub proof fn reschedule_wal_recovery_touches_one_row(
    st: RunView,
    operation_id: Uuid,
    worker_id: String,
    backoff_ms: u64,
    exhausted: bool,
    safe_error_code: &'static str,
)
    requires
        reschedule_wal_recovery_spec(
            st,
            operation_id,
            worker_id,
            backoff_ms,
            exhausted,
            safe_error_code,
        ).0 is Ok,
    ensures
        st.rest[0] == script::Reply::Executed(Ok(1)),
{
}

/// What the database is told, and with which values, where a run succeeds that does this:
/// gives an intent up or puts it off, where it is leased to the worker.
#[verifier::rlimit(60)]
pub proof fn reschedule_wal_recovery_is_told(
    st: RunView,
    operation_id: Uuid,
    worker_id: String,
    backoff_ms: u64,
    exhausted: bool,
    safe_error_code: &'static str,
)
    ensures
        ({
            let (ended, after) = reschedule_wal_recovery_spec(
                st,
                operation_id,
                worker_id,
                backoff_ms,
                exhausted,
                safe_error_code,
            );
            let log = after.log;
            ended is Ok ==> {
                &&& script::ran(
                    log,
                    RESCHEDULE_SQL@,
                    seq![
                        Bind::Label((retry_terms(exhausted, backoff_ms)).0),
                        Bind::Json(Document::ErrorCode(safe_error_code)),
                        Bind::OptInt((retry_terms(exhausted, backoff_ms)).1),
                        Bind::OptInt((retry_terms(exhausted, backoff_ms)).1),
                        Bind::Id(operation_id),
                        Bind::Text(worker_id),
                    ],
                )
            }
        }),
{
    broadcast use {script::runs_on_with_another, script::told_where_with_another};

}

} // verus!
