//! Provisioning jobs of providers.
use vstd::prelude::*;
use crate::db::oracle::audit;
use crate::db::oracle::binds;
use crate::db::oracle::consult::Rule;
use crate::db::oracle::document::Snapshot;
use crate::db::oracle::provider;
use crate::db::oracle::repository::OracleRepository;
use crate::db::oracle::script;
use crate::db::oracle::script::{Bind, Halt, HaltView, Row, RunView, Session};
use crate::domain::audit::AuditAction;
use crate::uuid::Uuid;

verus! {

/// The context of a column that cannot be read.
pub const READ_ROW: &'static str = "failed to read Oracle provider provisioning row";

/// Releases the jobs whose lease ran out.
pub const RELEASE_SQL: &'static str = "UPDATE provider_provisioning_jobs SET status='PENDING',locked_by=NULL,locked_until=NULL,updated_at=SYSTIMESTAMP WHERE job_type='TIGERBEETLE_PROVISION' AND status='RUNNING' AND locked_until<SYSTIMESTAMP";

/// Locks and reads the jobs that are due.
pub const CLAIMABLE_SQL: &'static str = "SELECT provider_provisioning_job_id,provider_id,attempt_count FROM provider_provisioning_jobs WHERE job_type='TIGERBEETLE_PROVISION' AND status='PENDING' AND (next_attempt_at IS NULL OR next_attempt_at<=SYSTIMESTAMP) ORDER BY created_at FOR UPDATE SKIP LOCKED";

/// Leases a job to a worker.
pub const LEASE_SQL: &'static str = "UPDATE provider_provisioning_jobs SET status='RUNNING',attempt_count=attempt_count+1,locked_by=:1,locked_until=SYSTIMESTAMP+NUMTODSINTERVAL(:2/1000,'SECOND'),updated_at=SYSTIMESTAMP WHERE provider_provisioning_job_id=:3 AND status='PENDING'";

/// Gives a job up.
pub const FAIL_JOB_SQL: &'static str = "UPDATE provider_provisioning_jobs SET status='FAILED',next_attempt_at=NULL,locked_by=NULL,locked_until=NULL,error_code=:1,error_message=NULL,updated_at=SYSTIMESTAMP WHERE provider_provisioning_job_id=:2 AND status='RUNNING' AND locked_by=:3";

/// Gives the ledger accounts of a provider up.
pub const FAIL_ACCOUNTS_SQL: &'static str = "UPDATE provider_ledger_accounts SET status='FAILED_PROVISIONING',updated_at=SYSTIMESTAMP WHERE provider_id=:1 AND status='PROVISIONING'";

/// Marks a provider as failed.
pub const FAIL_PROVIDER_SQL: &'static str = "UPDATE providers SET status='FAILED',updated_at=SYSTIMESTAMP WHERE provider_id=:1 AND status='PENDING_PROVISIONING'";

/// Refreshes the answer that the creation of a provider is replayed with.
pub const REFRESH_SNAPSHOT_SQL: &'static str = "UPDATE idempotency_records SET response_snapshot=:1,updated_at=SYSTIMESTAMP WHERE resource_type='provider' AND resource_id=:2 AND status='COMPLETED'";

/// Puts a job off.
pub const RETRY_JOB_SQL: &'static str = "UPDATE provider_provisioning_jobs SET status='PENDING',next_attempt_at=SYSTIMESTAMP+NUMTODSINTERVAL(:1/1000,'SECOND'),locked_by=NULL,locked_until=NULL,error_code=:2,error_message=NULL,updated_at=SYSTIMESTAMP WHERE provider_provisioning_job_id=:3 AND status='RUNNING' AND locked_by=:4";

/// The conflict of a job that another worker leased.
pub const LEASE_LOST: &'static str = "provider provisioning lease is no longer owned by this worker";

/// A job that was leased to a worker.
#[derive(Clone, Copy, Debug, PartialEq, Eq, Structural)]
pub struct ClaimedProviderProvisioningJob {
    pub job_id: Uuid,
    pub provider_id: Uuid,
    pub attempt_count: u32,
}

/// The job that a row holds.
#[verifier::opaque]
pub open spec fn map_job_spec(row: Row) -> Result<ClaimedProviderProvisioningJob, HaltView> {
    match row.raw_at(0, READ_ROW@) { Err(h) => Err(h), Ok(job_raw) =>
    match row.raw_at(1, READ_ROW@) { Err(h) => Err(h), Ok(provider_raw) =>
    match row.int_at(2, READ_ROW@) { Err(h) => Err(h), Ok(attempts) =>
    match script::id_of(job_raw@) { Err(h) => Err(h), Ok(job_id) =>
    match script::id_of(provider_raw@) { Err(h) => Err(h), Ok(provider_id) =>
    if attempts < 0 || attempts > 4294967295 {
        script::query_fault("invalid provisioning attempt count"@)
    } else {
    Ok(ClaimedProviderProvisioningJob { job_id, provider_id, attempt_count: attempts as u32 })
    }}}}}}
}

/// The job that a row holds.
pub fn map_job(row: &Row) -> (r: Result<ClaimedProviderProvisioningJob, Halt>)
    ensures
        script::seen(r) == map_job_spec(*row),
{
    proof {
        reveal(map_job_spec);
    }
    let job_raw = row.raw(0, READ_ROW)?;
    let provider_raw = row.raw(1, READ_ROW)?;
    let attempts: i64 = row.number(2, READ_ROW)?;
    let job_id = script::to_id(job_raw)?;
    let provider_id = script::to_id(provider_raw)?;
    if attempts < 0 || attempts > 4294967295 {
        return Err(script::fail_query("invalid provisioning attempt count"));
    }
    Ok(ClaimedProviderProvisioningJob { job_id, provider_id, attempt_count: attempts as u32 })
}

/// The jobs that the first rows hold, in order.
pub open spec fn map_jobs_spec(
    rows: Seq<Row>,
    i: nat,
    count: usize,
    done: Seq<ClaimedProviderProvisioningJob>,
) -> Result<Seq<ClaimedProviderProvisioningJob>, HaltView>
    decreases rows.len() - i,
{
    if i >= rows.len() || i >= count {
        Ok(done)
    } else {
        match map_job_spec(rows[i as int]) {
            Err(h) => Err(h), Ok(item) => map_jobs_spec(rows, i + 1, count, done.push(item))
        }
    }
}

/// The jobs that the first rows hold, in order.
pub fn map_jobs(
    rows: &Vec<Row>,
    count: usize,
) -> (r: Result<Vec<ClaimedProviderProvisioningJob>, Halt>)
    ensures
        script::seen_view(r) == map_jobs_spec(rows@, 0, count, Seq::empty()),
{
    let mut done: Vec<ClaimedProviderProvisioningJob> = Vec::new();
    let mut i: usize = 0;
    assert(done@ =~= Seq::empty());
    while i < rows.len() && i < count
        invariant
            i <= rows@.len(),
            map_jobs_spec(rows@, 0, count, Seq::empty()) == map_jobs_spec(
                rows@,
                i as nat,
                count,
                done@,
            ),
        decreases rows@.len() - i,
    {
        let item = map_job(&rows[i])?;
        done.push(item);
        i = i + 1;
    }
    Ok(done)
}

/// Leases a job to a worker.
pub open spec fn lease_job_spec(
    st: RunView,
    job: ClaimedProviderProvisioningJob,
    worker_id: String,
    lease_duration_ms: u64,
) -> (Result<(), HaltView>, RunView) {
    match script::execute_spec(
        st,
        LEASE_SQL@,
        seq![Bind::Text(worker_id), Bind::Int(lease_duration_ms as i64), Bind::Id(job.job_id)],
        "failed to lease provider provisioning job"@,
    ) { (Err(h), st) => (Err(h), st), (Ok(_), st) =>
    (Ok(()), st)
    }
}

/// Leases a job to a worker.
pub fn lease_job(
    s: &mut Session,
    job: &ClaimedProviderProvisioningJob,
    worker_id: &String,
    lease_duration_ms: u64,
) -> (r: Result<(), Halt>)
    ensures
        (script::seen(r), final(s)@) == lease_job_spec(
            old(s)@,
            *job,
            *worker_id,
            lease_duration_ms,
        ),
{
    script::execute(
        s,
        LEASE_SQL,
        binds::binds3(
            Bind::Text(worker_id.clone()),
            Bind::Int(lease_duration_ms as i64),
            Bind::Id(job.job_id),
        ),
        "failed to lease provider provisioning job",
    )?;
    Ok(())
}

/// Leases jobs to a worker in turn.
pub open spec fn lease_jobs_spec(
    st: RunView,
    jobs: Seq<ClaimedProviderProvisioningJob>,
    i: nat,
    worker_id: String,
    lease_duration_ms: u64,
) -> (Result<(), HaltView>, RunView)
    decreases jobs.len() - i,
{
    if i >= jobs.len() {
        (Ok(()), st)
    } else {
        match lease_job_spec(st, jobs[i as int], worker_id, lease_duration_ms) {
            (Err(h), st) => (Err(h), st), (Ok(_), st) => lease_jobs_spec(
                st,
                jobs,
                i + 1,
                worker_id,
                lease_duration_ms,
            )
        }
    }
}

/// Leases jobs to a worker in turn.
pub fn lease_jobs(
    s: &mut Session,
    jobs: &Vec<ClaimedProviderProvisioningJob>,
    worker_id: &String,
    lease_duration_ms: u64,
) -> (r: Result<(), Halt>)
    ensures
        (script::seen(r), final(s)@) == lease_jobs_spec(
            old(s)@,
            jobs@,
            0,
            *worker_id,
            lease_duration_ms,
        ),
{
    let mut i: usize = 0;
    while i < jobs.len()
        invariant
            i <= jobs@.len(),
            lease_jobs_spec(old(s)@, jobs@, 0, *worker_id, lease_duration_ms) == lease_jobs_spec(
                s@,
                jobs@,
                i as nat,
                *worker_id,
                lease_duration_ms,
            ),
        decreases jobs@.len() - i,
    {
        lease_job(s, &jobs[i], worker_id, lease_duration_ms)?;
        i = i + 1;
    }
    Ok(())
}

/// Each is taken in its turn, after those before it, and the first that fails ends the run.
pub proof fn lease_jobs_go_in_turn(
    st: RunView,
    jobs: Seq<ClaimedProviderProvisioningJob>,
    i: nat,
    worker_id: String,
    lease_duration_ms: u64,
)
    ensures
        ({
            let whole = lease_jobs_spec(st, jobs, i, worker_id, lease_duration_ms);
            let (next, at) = lease_job_spec(st, jobs[i as int], worker_id, lease_duration_ms);
            &&& i >= jobs.len() ==> whole == (Ok::<_, HaltView>(()), st)
            &&& i < jobs.len() ==> match next {
                Ok(_) => whole == lease_jobs_spec(at, jobs, i + 1, worker_id, lease_duration_ms),
                Err(halt) => whole.0 == Err::<(), _>(halt) && whole.1 == at,
            }
        }),
{
}

/// Leases due jobs to a worker, at most a batch of them, after the leases that ran out are
/// released.
pub open spec fn claim_provider_core_jobs_spec(
    st: RunView,
    worker_id: String,
    batch_size: u16,
    lease_duration_ms: u64,
) -> (Result<Seq<ClaimedProviderProvisioningJob>, HaltView>, RunView) {
    match script::execute_spec(
        st,
        RELEASE_SQL@,
        Seq::<Bind>::empty(),
        "failed to release stale provider provisioning leases"@,
    ) { (Err(h), st) => (Err(h), st), (Ok(_), st) =>
    match script::limited_rows_spec(
        st,
        CLAIMABLE_SQL@,
        Seq::<Bind>::empty(),
        "rri",
        (batch_size + 1) as u64,
        "failed to select provider provisioning jobs"@,
    ) { (Err(h), st) => (Err(h), st), (Ok(found), st) =>
    match map_jobs_spec(
        found.rows@,
        0,
        batch_size as usize,
        Seq::empty(),
    ) { Err(h) => (Err(h), st), Ok(jobs) =>
    if jobs.len() < batch_size {
        if let Some(cause) = found.failure {
            (script::failed("failed to read provider provisioning job"@, cause@), st)
        } else {
            match lease_jobs_spec(
                st,
                jobs,
                0,
                worker_id,
                lease_duration_ms,
            ) { (Err(h), st) => (Err(h), st), (Ok(_), st) =>
            (Ok(jobs), st)
            }
        }
    } else {
        match lease_jobs_spec(
            st,
            jobs,
            0,
            worker_id,
            lease_duration_ms,
        ) { (Err(h), st) => (Err(h), st), (Ok(_), st) =>
        (Ok(jobs), st)
        }
    }
    }}}
}

impl OracleRepository {
    /// Leases due jobs to a worker, at most a batch of them, after the leases that ran out are
    /// released.
    pub fn claim_provider_core_jobs(
        s: &mut Session,
        worker_id: &String,
        batch_size: u16,
        lease_duration_ms: u64,
    ) -> (r: Result<Vec<ClaimedProviderProvisioningJob>, Halt>)
        ensures
            (script::seen_view(r), final(s)@) == claim_provider_core_jobs_spec(
                old(s)@,
                *worker_id,
                batch_size,
                lease_duration_ms,
            ),
    {
        script::execute(
            s,
            RELEASE_SQL,
            binds::binds0(),
            "failed to release stale provider provisioning leases",
        )?;
        let found = script::limited_rows(
            s,
            CLAIMABLE_SQL,
            binds::binds0(),
            "rri",
            batch_size as u64 + 1,
            "failed to select provider provisioning jobs",
        )?;
        let jobs = map_jobs(&found.rows, batch_size as usize)?;
        if jobs.len() < batch_size as usize {
            if let Some(cause) = &found.failure {
                return Err(script::fail_because(
                    "failed to read provider provisioning job",
                    cause.as_str(),
                ));
            } else {
                lease_jobs(s, &jobs, worker_id, lease_duration_ms)?;
                return Ok(jobs);
            }
        } else {
            lease_jobs(s, &jobs, worker_id, lease_duration_ms)?;
            return Ok(jobs);
        }
    }
}

/// Gives a leased job up, with the provider that it was for.
pub open spec fn fail_provisioning_spec(
    st: RunView,
    job_id: Uuid,
    provider_id: Uuid,
    worker_id: String,
    error_code: &'static str,
) -> (Result<(), HaltView>, RunView) {
    match provider::fetch_provider_for_command_spec(
        st,
        provider_id,
    ) { (Err(h), st) => (Err(h), st), (Ok(previous), st) =>
    match script::execute_count_spec(
        st,
        FAIL_JOB_SQL@,
        seq![Bind::Label(error_code), Bind::Id(job_id), Bind::Text(worker_id)],
        "failed to fail provider provisioning job"@,
        READ_ROW@,
    ) { (Err(h), st) => (Err(h), st), (Ok(touched), st) =>
    if touched != 1 {
        (script::conflict_fault(LEASE_LOST@), st)
    } else {
    match script::execute_spec(
        st,
        FAIL_ACCOUNTS_SQL@,
        seq![Bind::Id(provider_id)],
        "failed to mark provider account provisioning failed"@,
    ) { (Err(h), st) => (Err(h), st), (Ok(_), st) =>
    match script::execute_spec(
        st,
        FAIL_PROVIDER_SQL@,
        seq![Bind::Id(provider_id)],
        "failed to mark provider provisioning failed"@,
    ) { (Err(h), st) => (Err(h), st), (Ok(_), st) =>
    match provider::fetch_provider_for_command_spec(
        st,
        provider_id,
    ) { (Err(h), st) => (Err(h), st), (Ok(failed), st) =>
    match script::consult_text_spec(
        st,
        Rule::ProviderSnapshot(failed),
    ) { (Err(h), st) => (Err(h), st), (Ok(failed_snapshot), st) =>
    match script::execute_spec(
        st,
        REFRESH_SNAPSHOT_SQL@,
        seq![Bind::JsonText(failed_snapshot), Bind::Id(provider_id)],
        "failed to refresh failed provider idempotency snapshot"@,
    ) { (Err(h), st) => (Err(h), st), (Ok(_), st) =>
    match script::consult_text_spec(
        st,
        Rule::ProviderSnapshot(previous),
    ) { (Err(h), st) => (Err(h), st), (Ok(previous_snapshot), st) =>
    match script::fresh_id_spec(st) { (Err(h), st) => (Err(h), st), (Ok(request_id), st) =>
    audit::insert_audit_log_spec(
        st,
        "PROVIDER",
        provider_id,
        AuditAction::StateTransition,
        Bind::Label("provider core provisioning exhausted recovery attempts"),
        Some(Snapshot::Text(previous_snapshot)),
        Some(Snapshot::Text(failed_snapshot)),
        audit::provisioning_origin_spec(provider_id, "-failed", request_id),
    )
    }}}}}}}}}}
}

/// Gives a leased job up, with the provider that it was for.
pub fn fail_provisioning(
    s: &mut Session,
    job_id: Uuid,
    provider_id: Uuid,
    worker_id: &String,
    error_code: &'static str,
) -> (r: Result<(), Halt>)
    ensures
        (script::seen(r), final(s)@) == fail_provisioning_spec(
            old(s)@,
            job_id,
            provider_id,
            *worker_id,
            error_code,
        ),
{
    let previous = provider::fetch_provider_for_command(s, provider_id)?;
    let touched = script::execute_count(
        s,
        FAIL_JOB_SQL,
        binds::binds3(Bind::Label(error_code), Bind::Id(job_id), Bind::Text(worker_id.clone())),
        "failed to fail provider provisioning job",
        READ_ROW,
    )?;
    if touched != 1 {
        return Err(script::fail_conflict(LEASE_LOST));
    }
    script::execute(
        s,
        FAIL_ACCOUNTS_SQL,
        binds::binds1(Bind::Id(provider_id)),
        "failed to mark provider account provisioning failed",
    )?;
    script::execute(
        s,
        FAIL_PROVIDER_SQL,
        binds::binds1(Bind::Id(provider_id)),
        "failed to mark provider provisioning failed",
    )?;
    let failed = provider::fetch_provider_for_command(s, provider_id)?;
    let failed_snapshot = script::consult_text(s, Rule::ProviderSnapshot(failed.clone()))?;
    script::execute(
        s,
        REFRESH_SNAPSHOT_SQL,
        binds::binds2(Bind::JsonText(failed_snapshot.clone()), Bind::Id(provider_id)),
        "failed to refresh failed provider idempotency snapshot",
    )?;
    let previous_snapshot = script::consult_text(s, Rule::ProviderSnapshot(previous.clone()))?;
    let request_id = script::fresh_id(s)?;
    audit::insert_audit_log(
        s,
        "PROVIDER",
        provider_id,
        AuditAction::StateTransition,
        Bind::Label("provider core provisioning exhausted recovery attempts"),
        Some(Snapshot::Text(previous_snapshot)),
        Some(Snapshot::Text(failed_snapshot)),
        audit::provisioning_origin(provider_id, "-failed", request_id),
    )
}

/// Puts a job that failed off, or gives it up with the provider that it was for.
pub open spec fn retry_or_fail_provider_core_job_spec(
    st: RunView,
    job_id: Uuid,
    provider_id: Uuid,
    worker_id: String,
    next_backoff_ms: u64,
    exhausted: bool,
    error_code: &'static str,
) -> (Result<(), HaltView>, RunView) {
    if exhausted {
        fail_provisioning_spec(st, job_id, provider_id, worker_id, error_code)
    } else {
    match script::execute_count_spec(
        st,
        RETRY_JOB_SQL@,
        seq![
            Bind::Int(next_backoff_ms as i64),
            Bind::Label(error_code),
            Bind::Id(job_id),
            Bind::Text(worker_id),
        ],
        "failed to reschedule provider provisioning job"@,
        READ_ROW@,
    ) { (Err(h), st) => (Err(h), st), (Ok(touched), st) =>
    if touched != 1 {
        (script::conflict_fault(LEASE_LOST@), st)
    } else {
    (Ok(()), st)
    }}}
}

impl OracleRepository {
    /// Puts a job that failed off, or gives it up with the provider that it was for.
    pub fn retry_or_fail_provider_core_job(
        s: &mut Session,
        job_id: Uuid,
        provider_id: Uuid,
        worker_id: &String,
        next_backoff_ms: u64,
        exhausted: bool,
        error_code: &'static str,
    ) -> (r: Result<(), Halt>)
        ensures
            (script::seen(r), final(s)@) == retry_or_fail_provider_core_job_spec(
                old(s)@,
                job_id,
                provider_id,
                *worker_id,
                next_backoff_ms,
                exhausted,
                error_code,
            ),
    {
        if exhausted {
            return fail_provisioning(s, job_id, provider_id, worker_id, error_code);
        }
        let touched = script::execute_count(
            s,
            RETRY_JOB_SQL,
            binds::binds4(
                Bind::Int(next_backoff_ms as i64),
                Bind::Label(error_code),
                Bind::Id(job_id),
                Bind::Text(worker_id.clone()),
            ),
            "failed to reschedule provider provisioning job",
            READ_ROW,
        )?;
        if touched != 1 {
            return Err(script::fail_conflict(LEASE_LOST));
        }
        Ok(())
    }
}

/// Of the rows that follow, no more are read than there is room for.
pub broadcast proof fn read_jobs_fit(
    rows: Seq<Row>,
    i: nat,
    count: usize,
    done: Seq<ClaimedProviderProvisioningJob>,
)
    requires
        i <= count,
        done.len() == i,
    ensures
        (#[trigger] map_jobs_spec(rows, i, count, done)) matches Ok(jobs) ==> jobs.len() <= count,
    decreases rows.len() - i,
{
    if i < rows.len() && i < count {
        if let Ok(item) = map_job_spec(rows[i as int]) {
            read_jobs_fit(rows, i + 1, count, done.push(item));
        }
    }
}

/// However many jobs are due, a worker gets no more of them than a batch holds.
pub proof fn claimed_jobs_fit(
    st: RunView,
    worker_id: String,
    batch_size: u16,
    lease_duration_ms: u64,
)
    ensures
        claim_provider_core_jobs_spec(
            st,
            worker_id,
            batch_size,
            lease_duration_ms,
        ).0 matches Ok(jobs)
            ==> jobs.len() <= batch_size,
{
    broadcast use read_jobs_fit;

}

/// A job is put off or given up by the worker that holds its lease alone: only where the statement
/// that asks for the lease touched exactly this job.
pub proof fn settled_job_was_leased(
    st: RunView,
    job_id: Uuid,
    provider_id: Uuid,
    worker_id: String,
    next_backoff_ms: u64,
    error_code: &'static str,
)
    ensures
        retry_or_fail_provider_core_job_spec(
            st,
            job_id,
            provider_id,
            worker_id,
            next_backoff_ms,
            false,
            error_code,
        ).0 is Ok ==> script::execute_count_spec(
            st,
            RETRY_JOB_SQL@,
            seq![
                Bind::Int(next_backoff_ms as i64),
                Bind::Label(error_code),
                Bind::Id(job_id),
                Bind::Text(worker_id),
            ],
            "failed to reschedule provider provisioning job"@,
            READ_ROW@,
        ).0 == Ok::<u64, HaltView>(1),
        retry_or_fail_provider_core_job_spec(
            st,
            job_id,
            provider_id,
            worker_id,
            next_backoff_ms,
            true,
            error_code,
        ).0 is Ok ==> script::execute_count_spec(
            provider::fetch_provider_for_command_spec(st, provider_id).1,
            FAIL_JOB_SQL@,
            seq![Bind::Label(error_code), Bind::Id(job_id), Bind::Text(worker_id)],
            "failed to fail provider provisioning job"@,
            READ_ROW@,
        ).0 == Ok::<u64, HaltView>(1),
{
}

/// A job that is not exhausted is put off for the time asked for, by the worker that holds its
/// lease, with the cause, and nothing else is changed. One that is exhausted is given up with its
/// provider.
pub proof fn core_job_is_given_up_or_put_off(
    st: RunView,
    job_id: Uuid,
    provider_id: Uuid,
    worker_id: String,
    next_backoff_ms: u64,
    exhausted: bool,
    error_code: &'static str,
)
    ensures
        !exhausted
            && retry_or_fail_provider_core_job_spec(
                st,
                job_id,
                provider_id,
                worker_id,
                next_backoff_ms,
                exhausted,
                error_code,
            ).0 is Ok
            ==> retry_or_fail_provider_core_job_spec(
                st,
                job_id,
                provider_id,
                worker_id,
                next_backoff_ms,
                exhausted,
                error_code,
            ).1.log == st.log.push(
            script::change(
                RETRY_JOB_SQL@,
                seq![
                    Bind::Int(next_backoff_ms as i64),
                    Bind::Label(error_code),
                    Bind::Id(job_id),
                    Bind::Text(worker_id),
                ],
            ),
        ) && st.rest[0] == script::Reply::Executed(Ok(1)),
        exhausted ==> retry_or_fail_provider_core_job_spec(
            st,
            job_id,
            provider_id,
            worker_id,
            next_backoff_ms,
            exhausted,
            error_code,
        ) == fail_provisioning_spec(
            st,
            job_id,
            provider_id,
            worker_id,
            error_code,
        ),
{
}

/// Each value is read from its own column: the job that a row holds.
#[verifier::rlimit(60)]
pub proof fn map_job_is_read_by_column(
    row: Row,
)
    ensures
        map_job_spec(row) matches Ok(read) ==> {
            &&& read.job_id == row.id_at(0, READ_ROW@)->Ok_0
            &&& read.provider_id == row.id_at(1, READ_ROW@)->Ok_0
        },
{
    reveal(map_job_spec);
}

/// What is asked first, and with which values, in a run that does this:
/// leases a job to a worker.
pub proof fn lease_job_asks_first(
    st: RunView,
    job: ClaimedProviderProvisioningJob,
    worker_id: String,
    lease_duration_ms: u64,
)
    requires
        st.rest.len() == 0,
    ensures
        lease_job_spec(st, job, worker_id, lease_duration_ms).0 matches Err(HaltView::Ask(asked))
            && (
                asked matches script::CallView::Sql { sql, binds, .. } && sql == LEASE_SQL@
                    && binds == seq![
                        Bind::Text(worker_id),
                        Bind::Int(lease_duration_ms as i64),
                        Bind::Id(job.job_id),
                    ]
            ),
{
}

/// What the database is told, and with which values, where a run succeeds that does this:
/// leases a job to a worker.
#[verifier::rlimit(60)]
pub proof fn lease_job_is_told(
    st: RunView,
    job: ClaimedProviderProvisioningJob,
    worker_id: String,
    lease_duration_ms: u64,
)
    ensures
        ({
            let (ended, after) = lease_job_spec(st, job, worker_id, lease_duration_ms);
            let log = after.log;
            ended is Ok ==> {
                &&& script::ran(
                    log,
                    LEASE_SQL@,
                    seq![
                        Bind::Text(worker_id),
                        Bind::Int(lease_duration_ms as i64),
                        Bind::Id(job.job_id),
                    ],
                )
            }
        }),
{
    broadcast use {script::runs_on_with_another, script::told_where_with_another};

}

/// What is asked first, and with which values, in a run that does this:
/// leases due jobs to a worker, at most a batch of them, after the leases that ran out are
/// released.
pub proof fn claim_provider_core_jobs_asks_first(
    st: RunView,
    worker_id: String,
    batch_size: u16,
    lease_duration_ms: u64,
)
    requires
        st.rest.len() == 0,
    ensures
        claim_provider_core_jobs_spec(
            st,
            worker_id,
            batch_size,
            lease_duration_ms,
        ).0 matches Err(HaltView::Ask(asked))
            && (
                asked matches script::CallView::Sql { sql, binds, .. } && sql == RELEASE_SQL@
                    && binds == Seq::<Bind>::empty()
            ),
{
}

/// What the database is told, and with which values, where a run succeeds that does this:
/// gives a leased job up, with the provider that it was for.
#[verifier::rlimit(60)]
pub proof fn fail_provisioning_is_told(
    st: RunView,
    job_id: Uuid,
    provider_id: Uuid,
    worker_id: String,
    error_code: &'static str,
)
    ensures
        ({
            let (ended, after) = fail_provisioning_spec(
                st,
                job_id,
                provider_id,
                worker_id,
                error_code,
            );
            let log = after.log;
            ended is Ok ==> {
                &&& script::ran(
                    log,
                    FAIL_JOB_SQL@,
                    seq![Bind::Label(error_code), Bind::Id(job_id), Bind::Text(worker_id)],
                )
                &&& script::ran(log, FAIL_ACCOUNTS_SQL@, seq![Bind::Id(provider_id)])
                &&& script::ran(log, FAIL_PROVIDER_SQL@, seq![Bind::Id(provider_id)])
                &&& script::told_where(
                    log,
                    REFRESH_SNAPSHOT_SQL@,
                    |b: Seq<Bind>| b.len() == 2 && b[1] == Bind::Id(provider_id),
                ) > 0
            }
        }),
{
    broadcast use {script::runs_on_with_another, script::told_where_with_another};

}

} // verus!
