//! Access of providers to the message broker.
use vstd::prelude::*;
use crate::db::oracle::audit;
use crate::db::oracle::binds;
use crate::db::oracle::document::{Document, Snapshot};
use crate::db::oracle::idempotency;
use crate::db::oracle::idempotency::IdempotencyVerdict;
use crate::db::oracle::repository::OracleRepository;
use crate::db::oracle::script;
use crate::db::oracle::script::{Bind, Halt, HaltView, Row, RunView, Session};
use crate::domain::audit::{AuditAction, TrustedAuditContext};
use crate::domain::command::MutationCommandContext;
use crate::domain::idempotency::IdempotencyRecord;
use crate::domain::provider::NewProviderKafkaCredential;
use crate::json;
use crate::text;
use crate::text::same_text;
use crate::uuid::Uuid;

verus! {

/// The context of a column that cannot be read.
pub const READ_ROW: &'static str = "failed to read Provider Kafka Oracle row";

/// The context of a statement that fails.
pub const QUERY: &'static str = "Provider Kafka Oracle operation failed";

/// Reads the status of the access of a provider.
pub const ACCESS_STATUS_SQL: &'static str = "SELECT credential_status FROM provider_kafka_access WHERE provider_id=:1";

/// Reads the latest job of a provider.
pub const LATEST_JOB_SQL: &'static str = "SELECT provider_provisioning_job_id,job_type,status,attempt_count,error_code FROM provider_provisioning_jobs WHERE provider_id=:1 AND job_type IN ('KAFKA_PROVISION','KAFKA_ROTATE','KAFKA_SUSPEND','KAFKA_RESUME') ORDER BY created_at DESC FETCH FIRST 1 ROWS ONLY";

/// The next version of the credentials of a provider.
pub const NEXT_VERSION_SQL: &'static str = "SELECT NVL(MAX(credential_version),0)+1 FROM provider_kafka_credentials WHERE provider_id=:1";

/// Locks the access of a provider.
pub const LOCK_ACCESS_SQL: &'static str = "SELECT provider_kafka_access_id FROM provider_kafka_access WHERE provider_id=:1 FOR UPDATE";

/// Stores a candidate credential.
pub const INSERT_CREDENTIAL_SQL: &'static str = "INSERT INTO provider_kafka_credentials (provider_kafka_credential_id,provider_kafka_access_id,provider_id,credential_version,password_ciphertext,encryption_key_version,status) VALUES (:1,:2,:3,:4,:5,:6,'CANDIDATE')";

/// Sets the status of the access of a provider.
pub const SET_STATUS_SQL: &'static str = "UPDATE provider_kafka_access SET credential_status=:1,updated_at=SYSTIMESTAMP WHERE provider_id=:2";

/// Stores a job.
pub const INSERT_JOB_SQL: &'static str = "INSERT INTO provider_provisioning_jobs (provider_provisioning_job_id,provider_id,job_type,status,request_json,result_json) VALUES (:1,:2,:3,'PENDING','{}','{}')";

/// Releases the jobs whose lease ran out.
pub const RELEASE_SQL: &'static str = "UPDATE provider_provisioning_jobs SET status='PENDING',locked_by=NULL,locked_until=NULL,updated_at=SYSTIMESTAMP WHERE job_type IN ('KAFKA_PROVISION','KAFKA_ROTATE','KAFKA_SUSPEND','KAFKA_RESUME') AND status='RUNNING' AND locked_until<SYSTIMESTAMP";

/// Locks and reads the jobs that are due.
pub const CLAIMABLE_SQL: &'static str = "SELECT provider_provisioning_job_id,provider_id,job_type,attempt_count FROM provider_provisioning_jobs WHERE job_type IN ('KAFKA_PROVISION','KAFKA_ROTATE','KAFKA_SUSPEND','KAFKA_RESUME') AND status='PENDING' AND (next_attempt_at IS NULL OR next_attempt_at<=SYSTIMESTAMP) ORDER BY created_at FOR UPDATE SKIP LOCKED";

/// Leases a job to a worker.
pub const LEASE_SQL: &'static str = "UPDATE provider_provisioning_jobs SET status='RUNNING',attempt_count=attempt_count+1,locked_by=:1,locked_until=SYSTIMESTAMP+NUMTODSINTERVAL(:2/1000,'SECOND'),updated_at=SYSTIMESTAMP WHERE provider_provisioning_job_id=:3 AND status='PENDING'";

/// Supersedes the active credential of a provider.
pub const SUPERSEDE_SQL: &'static str = "UPDATE provider_kafka_credentials SET status='SUPERSEDED',superseded_at=SYSTIMESTAMP,updated_at=SYSTIMESTAMP WHERE provider_id=:1 AND status='ACTIVE'";

/// Activates a candidate credential.
pub const ACTIVATE_SQL: &'static str = "UPDATE provider_kafka_credentials SET status='ACTIVE',activated_at=SYSTIMESTAMP,updated_at=SYSTIMESTAMP WHERE provider_kafka_credential_id=:1 AND status='CANDIDATE'";

/// Marks the access of a provider as active.
pub const ACCESS_ACTIVE_SQL: &'static str = "UPDATE provider_kafka_access SET credential_status='ACTIVE',rotated_at=CASE WHEN :1='KAFKA_ROTATE' THEN SYSTIMESTAMP ELSE rotated_at END,updated_at=SYSTIMESTAMP WHERE provider_id=:2";

/// Marks the access of a provider as suspended.
pub const SUSPENDED_SQL: &'static str = "UPDATE provider_kafka_access SET credential_status='SUSPENDED',updated_at=SYSTIMESTAMP WHERE provider_id=:1 AND credential_status='SUSPENDING'";

/// Marks the access of a provider as resumed.
pub const RESUMED_SQL: &'static str = "UPDATE provider_kafka_access SET credential_status='ACTIVE',updated_at=SYSTIMESTAMP WHERE provider_id=:1 AND credential_status='RESUMING'";

/// Gives a job up.
pub const FAIL_JOB_SQL: &'static str = "UPDATE provider_provisioning_jobs SET status='FAILED',next_attempt_at=NULL,locked_by=NULL,locked_until=NULL,error_code=:1,error_message=NULL,updated_at=SYSTIMESTAMP WHERE provider_provisioning_job_id=:2 AND status='RUNNING' AND locked_by=:3";

/// Puts a job off.
pub const RETRY_JOB_SQL: &'static str = "UPDATE provider_provisioning_jobs SET status='PENDING',next_attempt_at=SYSTIMESTAMP+NUMTODSINTERVAL(:1/1000,'SECOND'),locked_by=NULL,locked_until=NULL,error_code=:2,error_message=NULL,updated_at=SYSTIMESTAMP WHERE provider_provisioning_job_id=:3 AND status='RUNNING' AND locked_by=:4";

/// Gives a candidate credential up.
pub const FAIL_CANDIDATE_SQL: &'static str = "UPDATE provider_kafka_credentials SET status='FAILED',updated_at=SYSTIMESTAMP WHERE provider_id=:1 AND status='CANDIDATE'";

/// Reads the access of a provider.
pub const ACCESS_SQL: &'static str = "SELECT provider_kafka_access_id,provider_id,topic_name,username,consumer_group,security_protocol,sasl_mechanism,JSON_SERIALIZE(bootstrap_servers_json RETURNING CLOB),credential_status FROM provider_kafka_access WHERE provider_id=:1";

/// Reads the credential of a provider that has a status.
pub const CREDENTIAL_BY_STATUS_SQL: &'static str = "SELECT provider_kafka_credential_id,password_ciphertext,encryption_key_version,credential_version FROM provider_kafka_credentials WHERE provider_id=:1 AND status=:2";

/// Reads the active credential of a provider, or else the candidate.
pub const CREDENTIAL_SQL: &'static str = "SELECT provider_kafka_credential_id,password_ciphertext,encryption_key_version,credential_version FROM provider_kafka_credentials WHERE provider_id=:1 AND status IN ('ACTIVE','CANDIDATE') ORDER BY CASE status WHEN 'ACTIVE' THEN 1 ELSE 2 END FETCH FIRST 1 ROWS ONLY";

/// Reads the version of the credential of a provider that has a status.
pub const CREDENTIAL_VERSION_SQL: &'static str = "SELECT credential_version FROM provider_kafka_credentials WHERE provider_id=:1 AND status=:2";

/// Completes a leased job.
pub const COMPLETE_JOB_SQL: &'static str = "UPDATE provider_provisioning_jobs SET status='SUCCEEDED',completed_at=SYSTIMESTAMP,locked_by=NULL,locked_until=NULL,error_code=NULL,error_message=NULL,updated_at=SYSTIMESTAMP WHERE provider_provisioning_job_id=:1 AND status='RUNNING' AND locked_by=:2";

/// What a job does to the access of a provider.
#[derive(Clone, Copy, Debug, PartialEq, Eq, Structural)]
pub enum ProviderKafkaJobType {
    Provision,
    Rotate,
    Suspend,
    Resume,
}

impl ProviderKafkaJobType {
    /// The value that stands for it in the database.
    pub open spec fn code(self) -> &'static str {
        match self {
            ProviderKafkaJobType::Provision => "KAFKA_PROVISION",
            ProviderKafkaJobType::Rotate => "KAFKA_ROTATE",
            ProviderKafkaJobType::Suspend => "KAFKA_SUSPEND",
            ProviderKafkaJobType::Resume => "KAFKA_RESUME",
        }
    }

    /// The value that stands for it in the database.
    pub fn as_db_value(self) -> (r: &'static str)
        ensures
            r == self.code(),
    {
        match self {
            ProviderKafkaJobType::Provision => "KAFKA_PROVISION",
            ProviderKafkaJobType::Rotate => "KAFKA_ROTATE",
            ProviderKafkaJobType::Suspend => "KAFKA_SUSPEND",
            ProviderKafkaJobType::Resume => "KAFKA_RESUME",
        }
    }

    /// What a database value stands for, where it is one of those in use.
    pub open spec fn of_code(value: Seq<char>) -> Option<ProviderKafkaJobType> {
        if value == "KAFKA_PROVISION"@ {
            Some(ProviderKafkaJobType::Provision)
        } else if value == "KAFKA_ROTATE"@ {
            Some(ProviderKafkaJobType::Rotate)
        } else if value == "KAFKA_SUSPEND"@ {
            Some(ProviderKafkaJobType::Suspend)
        } else if value == "KAFKA_RESUME"@ {
            Some(ProviderKafkaJobType::Resume)
        } else {
            None
        }
    }

    /// What a database value stands for, where it is one of those in use.
    pub fn from_db_value(value: &str) -> (r: Option<ProviderKafkaJobType>)
        ensures
            r == ProviderKafkaJobType::of_code(value@),
    {
        if same_text(value, "KAFKA_PROVISION") {
            Some(ProviderKafkaJobType::Provision)
        } else if same_text(value, "KAFKA_ROTATE") {
            Some(ProviderKafkaJobType::Rotate)
        } else if same_text(value, "KAFKA_SUSPEND") {
            Some(ProviderKafkaJobType::Suspend)
        } else if same_text(value, "KAFKA_RESUME") {
            Some(ProviderKafkaJobType::Resume)
        } else {
            None
        }
    }
}

/// A database value that stands for a ProviderKafkaJobType is the one value that stands for it.
pub proof fn provider_kafka_job_type_has_one_code(value: Seq<char>)
    ensures
        ProviderKafkaJobType::of_code(value) == Some(
            ProviderKafkaJobType::Provision,
        ) <==> value == "KAFKA_PROVISION"@,
        ProviderKafkaJobType::of_code(value) == Some(
            ProviderKafkaJobType::Rotate,
        ) <==> value == "KAFKA_ROTATE"@,
        ProviderKafkaJobType::of_code(value) == Some(
            ProviderKafkaJobType::Suspend,
        ) <==> value == "KAFKA_SUSPEND"@,
        ProviderKafkaJobType::of_code(value) == Some(
            ProviderKafkaJobType::Resume,
        ) <==> value == "KAFKA_RESUME"@,
{
    reveal_strlit("KAFKA_PROVISION");
    reveal_strlit("KAFKA_ROTATE");
    reveal_strlit("KAFKA_SUSPEND");
    reveal_strlit("KAFKA_RESUME");
    assert("KAFKA_PROVISION"@.len() == 15);
    assert("KAFKA_ROTATE"@.len() == 12);
    assert("KAFKA_SUSPEND"@.len() == 13);
    assert("KAFKA_RESUME"@.len() == 12);
    assert("KAFKA_ROTATE"@[7] != "KAFKA_RESUME"@[7]);
}

/// Reading the value that stands for a ProviderKafkaJobType gives the ProviderKafkaJobType back.
pub proof fn provider_kafka_job_type_code_round_trip(x: ProviderKafkaJobType)
    ensures
        ProviderKafkaJobType::of_code(x.code()@) == Some(x),
{
    reveal_strlit("KAFKA_PROVISION");
    reveal_strlit("KAFKA_ROTATE");
    reveal_strlit("KAFKA_SUSPEND");
    reveal_strlit("KAFKA_RESUME");
    assert("KAFKA_PROVISION"@.len() == 15);
    assert("KAFKA_ROTATE"@.len() == 12);
    assert("KAFKA_SUSPEND"@.len() == 13);
    assert("KAFKA_RESUME"@.len() == 12);
    assert("KAFKA_ROTATE"@[7] != "KAFKA_RESUME"@[7]);
}

/// The value that stands for a job in the database.
pub fn job_type_db_value(job_type: ProviderKafkaJobType) -> (r: &'static str)
    ensures
        r == job_type.code(),
{
    job_type.as_db_value()
}

/// A command on the access of a provider.
#[derive(Clone, Copy, Debug, PartialEq, Eq, Structural)]
pub enum ProviderKafkaCommandAction {
    Provision,
    Rotate,
    Suspend,
    Resume,
}

/// Which credential of a provider to read.
#[derive(Clone, Copy, Debug, PartialEq, Eq, Structural)]
pub enum CredentialSelection {
    Active,
    Candidate,
    Any,
}

/// The message broker access of a provider. `bootstrap_servers` is a JSON list, the status a
/// database value.
#[derive(Debug)]
pub struct ProviderKafkaAccessRecord {
    pub provider_kafka_access_id: Uuid,
    pub provider_id: Uuid,
    pub topic_name: String,
    pub username: String,
    pub consumer_group: String,
    pub credential_id: Option<Uuid>,
    pub password_ciphertext: Option<String>,
    pub encryption_key_version: Option<String>,
    pub credential_version: Option<u64>,
    pub security_protocol: String,
    pub sasl_mechanism: String,
    pub bootstrap_servers: String,
    pub credential_status: String,
}

/// The access of a provider without its secret.
#[derive(Debug)]
pub struct KafkaAccessSummary {
    pub provider_id: Uuid,
    pub topic_name: String,
    pub username: String,
    pub consumer_group: String,
    pub credential_version: Option<u64>,
    pub security_protocol: String,
    pub sasl_mechanism: String,
    pub credential_status: String,
}

impl Clone for KafkaAccessSummary {
    fn clone(&self) -> (r: Self)
        ensures
            r == *self,
    {
        KafkaAccessSummary {
            provider_id: self.provider_id,
            topic_name: self.topic_name.clone(),
            username: self.username.clone(),
            consumer_group: self.consumer_group.clone(),
            credential_version: self.credential_version,
            security_protocol: self.security_protocol.clone(),
            sasl_mechanism: self.sasl_mechanism.clone(),
            credential_status: self.credential_status.clone(),
        }
    }
}

impl ProviderKafkaAccessRecord {
    /// The access without its secret.
    pub open spec fn summary(self) -> KafkaAccessSummary {
        KafkaAccessSummary {
            provider_id: self.provider_id,
            topic_name: self.topic_name,
            username: self.username,
            consumer_group: self.consumer_group,
            credential_version: self.credential_version,
            security_protocol: self.security_protocol,
            sasl_mechanism: self.sasl_mechanism,
            credential_status: self.credential_status,
        }
    }

    /// The access without its secret, as a document.
    pub fn safe_snapshot(&self) -> (r: Document)
        ensures
            r == Document::KafkaAccess(self.summary()),
    {
        Document::KafkaAccess(
            KafkaAccessSummary {
                provider_id: self.provider_id,
                topic_name: self.topic_name.clone(),
                username: self.username.clone(),
                consumer_group: self.consumer_group.clone(),
                credential_version: self.credential_version,
                security_protocol: self.security_protocol.clone(),
                sasl_mechanism: self.sasl_mechanism.clone(),
                credential_status: self.credential_status.clone(),
            },
        )
    }

    /// The servers of the message broker. A list that cannot be read names none.
    pub fn brokers(&self) -> (r: Vec<String>)
        ensures
            text::texts(r@) == (match json::json_texts_reading(self.bootstrap_servers@) {
                Ok(names) => names,
                Err(_) => Seq::empty(),
            }),
    {
        match json::read_texts(self.bootstrap_servers.as_str()) {
            Ok(names) => names,
            Err(_) => {
                let none: Vec<String> = Vec::new();
                assert(text::texts(none@) =~= Seq::<Seq<char>>::empty());
                none
            },
        }
    }
}

/// A credential of a provider.
#[derive(Debug)]
pub struct StoredCredential {
    pub credential_id: Uuid,
    pub password_ciphertext: String,
    pub encryption_key_version: String,
    pub credential_version: u64,
}

/// A job that was leased to a worker.
#[derive(Clone, Copy, Debug, PartialEq, Eq, Structural)]
pub struct ClaimedProviderKafkaJob {
    pub job_id: Uuid,
    pub provider_id: Uuid,
    pub job_type: ProviderKafkaJobType,
    pub attempt_count: u32,
}

/// How far a job is. The type and the status are database values.
#[derive(Debug)]
pub struct ProviderKafkaJobStatusRecord {
    pub operation_id: Uuid,
    pub operation_type: String,
    pub status: String,
    pub attempt_count: u32,
    pub error_code: Option<String>,
}

/// How far the access of a provider is. Its status is a database value.
#[derive(Debug)]
pub struct ProviderKafkaStatusRecord {
    pub provider_id: Uuid,
    pub access_status: String,
    pub active_credential_version: Option<u64>,
    pub candidate_credential_version: Option<u64>,
    pub latest_operation: Option<ProviderKafkaJobStatusRecord>,
}

/// What became of reading the credential of a provider.
#[derive(Debug)]
pub enum ProviderKafkaCredentialReadOutcome {
    NotConfigured,
    NotReady,
    Available(Box<ProviderKafkaAccessRecord>),
}

/// What to do about a job that failed.
#[derive(Clone, Copy, Debug)]
pub struct ProviderKafkaRetryDecision {
    pub backoff_ms: u64,
    pub exhausted: bool,
    pub error_code: &'static str,
}

/// What became of a command on the access of a provider. A replayed answer is a JSON document.
#[derive(Debug)]
pub enum ProviderKafkaCommandOutcome {
    Applied(Document),
    Replayed(String),
    NotConfigured,
    InvalidState,
    VersionConflict,
    IdempotencyConflict,
    IdempotencyInProgress,
    IdempotencyInvalidState,
}

/// The status that a command asks of the access.
pub open spec fn required_status(action: ProviderKafkaCommandAction) -> &'static str {
    match action {
        ProviderKafkaCommandAction::Provision => "FAILED",
        ProviderKafkaCommandAction::Rotate => "ACTIVE",
        ProviderKafkaCommandAction::Suspend => "ACTIVE",
        ProviderKafkaCommandAction::Resume => "SUSPENDED",
    }
}

/// Whether a command may be given to an access with this status.
pub fn command_state_is_valid(action: ProviderKafkaCommandAction, status: &str) -> (r: bool)
    ensures
        r == (status@ == required_status(action)@),
{
    match action {
        ProviderKafkaCommandAction::Provision => text::same_text(status, "FAILED"),
        ProviderKafkaCommandAction::Rotate => text::same_text(status, "ACTIVE"),
        ProviderKafkaCommandAction::Suspend => text::same_text(status, "ACTIVE"),
        ProviderKafkaCommandAction::Resume => text::same_text(status, "SUSPENDED"),
    }
}

/// The job that a command starts.
pub open spec fn job_of(action: ProviderKafkaCommandAction) -> ProviderKafkaJobType {
    match action {
        ProviderKafkaCommandAction::Provision => ProviderKafkaJobType::Provision,
        ProviderKafkaCommandAction::Rotate => ProviderKafkaJobType::Rotate,
        ProviderKafkaCommandAction::Suspend => ProviderKafkaJobType::Suspend,
        ProviderKafkaCommandAction::Resume => ProviderKafkaJobType::Resume,
    }
}

/// The status of the access while the job of a command runs.
pub open spec fn working_status(action: ProviderKafkaCommandAction) -> &'static str {
    match action {
        ProviderKafkaCommandAction::Provision => "PROVISIONING",
        ProviderKafkaCommandAction::Rotate => "ROTATING",
        ProviderKafkaCommandAction::Suspend => "SUSPENDING",
        ProviderKafkaCommandAction::Resume => "RESUMING",
    }
}

/// The job that a command starts, and the status of the access while it runs.
pub fn command_job_and_status(
    action: ProviderKafkaCommandAction,
) -> (r: (&'static str, &'static str))
    ensures
        r == (job_of(action).code(), working_status(action)),
{
    match action {
        ProviderKafkaCommandAction::Provision => ("KAFKA_PROVISION", "PROVISIONING"),
        ProviderKafkaCommandAction::Rotate => ("KAFKA_ROTATE", "ROTATING"),
        ProviderKafkaCommandAction::Suspend => ("KAFKA_SUSPEND", "SUSPENDING"),
        ProviderKafkaCommandAction::Resume => ("KAFKA_RESUME", "RESUMING"),
    }
}

/// The status that the access falls back to when a job is given up.
pub open spec fn restored_status(job_type: ProviderKafkaJobType) -> &'static str {
    match job_type {
        ProviderKafkaJobType::Provision => "FAILED",
        ProviderKafkaJobType::Rotate => "ACTIVE",
        ProviderKafkaJobType::Suspend => "ACTIVE",
        ProviderKafkaJobType::Resume => "SUSPENDED",
    }
}

fn status_after_failure(job_type: ProviderKafkaJobType) -> (r: &'static str)
    ensures
        r == restored_status(job_type),
{
    match job_type {
        ProviderKafkaJobType::Provision => "FAILED",
        ProviderKafkaJobType::Rotate => "ACTIVE",
        ProviderKafkaJobType::Suspend => "ACTIVE",
        ProviderKafkaJobType::Resume => "SUSPENDED",
    }
}

/// A job that is given up leaves the access as its command found it.
pub proof fn given_up_job_restores_status(action: ProviderKafkaCommandAction)
    ensures
        restored_status(job_of(action)) == required_status(action),
{
}

/// The audit reason of a completed job.
pub open spec fn completion_reason(job_type: ProviderKafkaJobType) -> &'static str {
    match job_type {
        ProviderKafkaJobType::Provision => {
            "Provider Kafka KAFKA_PROVISION completed and broker state verified"
        },
        ProviderKafkaJobType::Rotate => {
            "Provider Kafka KAFKA_ROTATE completed and broker state verified"
        },
        ProviderKafkaJobType::Suspend => {
            "Provider Kafka KAFKA_SUSPEND completed and broker state verified"
        },
        ProviderKafkaJobType::Resume => {
            "Provider Kafka KAFKA_RESUME completed and broker state verified"
        },
    }
}

fn reason_of_completion(job_type: ProviderKafkaJobType) -> (r: &'static str)
    ensures
        r == completion_reason(job_type),
{
    match job_type {
        ProviderKafkaJobType::Provision => {
            "Provider Kafka KAFKA_PROVISION completed and broker state verified"
        },
        ProviderKafkaJobType::Rotate => {
            "Provider Kafka KAFKA_ROTATE completed and broker state verified"
        },
        ProviderKafkaJobType::Suspend => {
            "Provider Kafka KAFKA_SUSPEND completed and broker state verified"
        },
        ProviderKafkaJobType::Resume => {
            "Provider Kafka KAFKA_RESUME completed and broker state verified"
        },
    }
}

/// What a stored record means for a command on the access of a provider.
pub open spec fn command_verdict(verdict: IdempotencyVerdict) -> ProviderKafkaCommandOutcome {
    match verdict {
        IdempotencyVerdict::Conflict => ProviderKafkaCommandOutcome::IdempotencyConflict,
        IdempotencyVerdict::Replay(snapshot) => ProviderKafkaCommandOutcome::Replayed(snapshot),
        IdempotencyVerdict::InProgress => ProviderKafkaCommandOutcome::IdempotencyInProgress,
        IdempotencyVerdict::InvalidState => ProviderKafkaCommandOutcome::IdempotencyInvalidState,
    }
}

/// What a stored record means for a command on the access of a provider with this request hash.
pub fn classify_command_idempotency(
    existing: &IdempotencyRecord,
    request_hash: &String,
) -> (r: ProviderKafkaCommandOutcome)
    ensures
        r == command_verdict(idempotency::idempotency_verdict(*existing, *request_hash)),
{
    match idempotency::judge_idempotency(existing, request_hash) {
        IdempotencyVerdict::Conflict => ProviderKafkaCommandOutcome::IdempotencyConflict,
        IdempotencyVerdict::Replay(snapshot) => ProviderKafkaCommandOutcome::Replayed(snapshot),
        IdempotencyVerdict::InProgress => ProviderKafkaCommandOutcome::IdempotencyInProgress,
        IdempotencyVerdict::InvalidState => ProviderKafkaCommandOutcome::IdempotencyInvalidState,
    }
}

/// The credential that a row holds.
#[verifier::opaque]
pub open spec fn map_credential_spec(row: Row) -> Result<StoredCredential, HaltView> {
    match row.raw_at(0, READ_ROW@) { Err(h) => Err(h), Ok(credential_raw) =>
    match row.int_at(3, READ_ROW@) { Err(h) => Err(h), Ok(version) =>
    match script::id_of(credential_raw@) { Err(h) => Err(h), Ok(credential_id) =>
    match row.text_at(1, READ_ROW@) { Err(h) => Err(h), Ok(password_ciphertext) =>
    match row.text_at(2, READ_ROW@) { Err(h) => Err(h), Ok(encryption_key_version) =>
    if version < 0 {
        script::query_fault("invalid Provider Kafka credential version"@)
    } else {
    { let credential_version = version as u64;
    Ok(StoredCredential {
        credential_id,
        password_ciphertext,
        encryption_key_version,
        credential_version,
    })
    }}}}}}}
}

/// The credential that a row holds.
pub fn map_credential(row: &Row) -> (r: Result<StoredCredential, Halt>)
    ensures
        script::seen(r) == map_credential_spec(*row),
{
    proof {
        reveal(map_credential_spec);
    }
    let credential_raw = row.raw(0, READ_ROW)?;
    let version: i64 = row.number(3, READ_ROW)?;
    let credential_id = script::to_id(credential_raw)?;
    let password_ciphertext = row.text(1, READ_ROW)?;
    let encryption_key_version = row.text(2, READ_ROW)?;
    if version < 0 {
        return Err(script::fail_query("invalid Provider Kafka credential version"));
    }
    let credential_version: u64 = version as u64;
    Ok(StoredCredential {
        credential_id,
        password_ciphertext,
        encryption_key_version,
        credential_version,
    })
}

/// The row of a credential of a provider, where there is one.
pub open spec fn query_credential_spec(
    st: RunView,
    provider_id: Uuid,
    selection: CredentialSelection,
) -> (Result<Option<Row>, HaltView>, RunView) {
    match selection {
        CredentialSelection::Active => {
            script::maybe_row_spec(
                st,
                CREDENTIAL_BY_STATUS_SQL@,
                seq![Bind::Id(provider_id), Bind::Label("ACTIVE")],
                "rtti",
                QUERY@,
            )
        },
        CredentialSelection::Candidate => {
            script::maybe_row_spec(
                st,
                CREDENTIAL_BY_STATUS_SQL@,
                seq![Bind::Id(provider_id), Bind::Label("CANDIDATE")],
                "rtti",
                QUERY@,
            )
        },
        CredentialSelection::Any => {
            script::maybe_row_spec(st, CREDENTIAL_SQL@, seq![Bind::Id(provider_id)], "rtti", QUERY@)
        },
    }
}

/// The row of a credential of a provider, where there is one.
pub fn query_credential<'a>(
    s: &mut Session<'a>,
    provider_id: Uuid,
    selection: CredentialSelection,
) -> (r: Result<Option<&'a Row>, Halt>)
    ensures
        (script::seen_opt_ref(r), final(s)@) == query_credential_spec(
            old(s)@,
            provider_id,
            selection,
        ),
{
    match selection {
        CredentialSelection::Active => {
            return script::maybe_row(
                s,
                CREDENTIAL_BY_STATUS_SQL,
                binds::binds2(Bind::Id(provider_id), Bind::Label("ACTIVE")),
                "rtti",
                QUERY,
            );
        },
        CredentialSelection::Candidate => {
            return script::maybe_row(
                s,
                CREDENTIAL_BY_STATUS_SQL,
                binds::binds2(Bind::Id(provider_id), Bind::Label("CANDIDATE")),
                "rtti",
                QUERY,
            );
        },
        CredentialSelection::Any => {
            return script::maybe_row(
                s,
                CREDENTIAL_SQL,
                binds::binds1(Bind::Id(provider_id)),
                "rtti",
                QUERY,
            );
        },
    }
}

/// A credential of a provider, where there is one.
pub open spec fn fetch_credential_spec(
    st: RunView,
    provider_id: Uuid,
    selection: CredentialSelection,
) -> (Result<Option<StoredCredential>, HaltView>, RunView) {
    match query_credential_spec(
        st,
        provider_id,
        selection,
    ) { (Err(h), st) => (Err(h), st), (Ok(found), st) =>
    match found {
    None => {
        (Ok(None), st)
    },
    Some(row) =>
    match map_credential_spec(row) { Err(h) => (Err(h), st), Ok(credential) =>
    (Ok(Some(credential)), st)
    }}}
}

/// A credential of a provider, where there is one.
pub fn fetch_credential(
    s: &mut Session,
    provider_id: Uuid,
    selection: CredentialSelection,
) -> (r: Result<Option<StoredCredential>, Halt>)
    ensures
        (script::seen(r), final(s)@) == fetch_credential_spec(old(s)@, provider_id, selection),
{
    let found = query_credential(s, provider_id, selection)?;
    let row = match found {
        Some(v) => v,
        None => {
            return Ok(None);
        },
    };
    let credential = map_credential(row)?;
    Ok(Some(credential))
}

/// The parts of a credential, where there is one.
pub open spec fn credential_parts(credential: Option<StoredCredential>) -> (
    Option<Uuid>,
    Option<String>,
    Option<String>,
    Option<u64>,
) {
    match credential {
        Some(c) => (
            Some(c.credential_id),
            Some(c.password_ciphertext),
            Some(c.encryption_key_version),
            Some(c.credential_version),
        ),
        None => (None, None, None, None),
    }
}

fn parts_of(credential: Option<StoredCredential>) -> (r: (
    Option<Uuid>,
    Option<String>,
    Option<String>,
    Option<u64>,
))
    ensures
        r == credential_parts(credential),
{
    match credential {
        Some(c) => (
            Some(c.credential_id),
            Some(c.password_ciphertext),
            Some(c.encryption_key_version),
            Some(c.credential_version),
        ),
        None => (None, None, None, None),
    }
}

/// The access of a provider with one of its credentials, where there is such an access.
pub open spec fn fetch_access_spec(
    st: RunView,
    provider_id: Uuid,
    selection: CredentialSelection,
) -> (Result<Option<ProviderKafkaAccessRecord>, HaltView>, RunView) {
    match script::maybe_row_spec(
        st,
        ACCESS_SQL@,
        seq![Bind::Id(provider_id)],
        "rrttttttt",
        QUERY@,
    ) { (Err(h), st) => (Err(h), st), (Ok(found), st) =>
    match found {
    None => {
        (Ok(None), st)
    },
    Some(row) =>
    match row.raw_at(0, READ_ROW@) { Err(h) => (Err(h), st), Ok(access_raw) =>
    match row.raw_at(1, READ_ROW@) { Err(h) => (Err(h), st), Ok(provider_raw) =>
    match row.text_at(7, READ_ROW@) { Err(h) => (Err(h), st), Ok(bootstrap_servers) =>
    match fetch_credential_spec(
        st,
        provider_id,
        selection,
    ) { (Err(h), st) => (Err(h), st), (Ok(credential), st) =>
    match script::id_of(access_raw@) { Err(h) => (Err(h), st), Ok(provider_kafka_access_id) =>
    match script::id_of(provider_raw@) { Err(h) => (Err(h), st), Ok(owner_id) =>
    match row.text_at(2, READ_ROW@) { Err(h) => (Err(h), st), Ok(topic_name) =>
    match row.text_at(3, READ_ROW@) { Err(h) => (Err(h), st), Ok(username) =>
    match row.text_at(4, READ_ROW@) { Err(h) => (Err(h), st), Ok(consumer_group) =>
    { let (
        credential_id,
        password_ciphertext,
        encryption_key_version,
        credential_version,
    ) = credential_parts(credential);
    match row.text_at(5, READ_ROW@) { Err(h) => (Err(h), st), Ok(security_protocol) =>
    match row.text_at(6, READ_ROW@) { Err(h) => (Err(h), st), Ok(sasl_mechanism) =>
    if json::json_texts_reading(bootstrap_servers@) is Err {
        (script::query_fault("invalid Provider Kafka broker configuration"@), st)
    } else {
    match row.text_at(8, READ_ROW@) { Err(h) => (Err(h), st), Ok(credential_status) =>
    (
        Ok(Some(ProviderKafkaAccessRecord {
            provider_kafka_access_id,
            provider_id: owner_id,
            topic_name,
            username,
            consumer_group,
            credential_id,
            password_ciphertext,
            encryption_key_version,
            credential_version,
            security_protocol,
            sasl_mechanism,
            bootstrap_servers,
            credential_status,
        })),
        st,
    )
    }}}}}}}}}}}}}}}}
}

/// The access of a provider with one of its credentials, where there is such an access.
pub fn fetch_access(
    s: &mut Session,
    provider_id: Uuid,
    selection: CredentialSelection,
) -> (r: Result<Option<ProviderKafkaAccessRecord>, Halt>)
    ensures
        (script::seen(r), final(s)@) == fetch_access_spec(old(s)@, provider_id, selection),
{
    let found = script::maybe_row(
        s,
        ACCESS_SQL,
        binds::binds1(Bind::Id(provider_id)),
        "rrttttttt",
        QUERY,
    )?;
    let row = match found {
        Some(v) => v,
        None => {
            return Ok(None);
        },
    };
    let access_raw = row.raw(0, READ_ROW)?;
    let provider_raw = row.raw(1, READ_ROW)?;
    let bootstrap_servers = row.text(7, READ_ROW)?;
    let credential = fetch_credential(s, provider_id, selection)?;
    let provider_kafka_access_id = script::to_id(access_raw)?;
    let owner_id = script::to_id(provider_raw)?;
    let topic_name = row.text(2, READ_ROW)?;
    let username = row.text(3, READ_ROW)?;
    let consumer_group = row.text(4, READ_ROW)?;
    let (
        credential_id,
        password_ciphertext,
        encryption_key_version,
        credential_version,
    ) = parts_of(credential);
    let security_protocol = row.text(5, READ_ROW)?;
    let sasl_mechanism = row.text(6, READ_ROW)?;
    if json::read_texts(bootstrap_servers.as_str()).is_err() {
        return Err(script::fail_query("invalid Provider Kafka broker configuration"));
    }
    let credential_status = row.text(8, READ_ROW)?;
    Ok(Some(ProviderKafkaAccessRecord {
        provider_kafka_access_id,
        provider_id: owner_id,
        topic_name,
        username,
        consumer_group,
        credential_id,
        password_ciphertext,
        encryption_key_version,
        credential_version,
        security_protocol,
        sasl_mechanism,
        bootstrap_servers,
        credential_status,
    }))
}

/// The version of the credential of a provider that has a status, where there is one.
pub open spec fn fetch_credential_version_spec(
    st: RunView,
    provider_id: Uuid,
    status: &'static str,
) -> (Result<Option<u64>, HaltView>, RunView) {
    match script::maybe_row_spec(
        st,
        CREDENTIAL_VERSION_SQL@,
        seq![Bind::Id(provider_id), Bind::Label(status)],
        "i",
        QUERY@,
    ) { (Err(h), st) => (Err(h), st), (Ok(found), st) =>
    match found {
    None => {
        (Ok(None), st)
    },
    Some(row) =>
    match row.int_at(0, QUERY@) { Err(h) => (Err(h), st), Ok(version) =>
    if version < 0 {
        (script::query_fault("invalid Provider Kafka credential version"@), st)
    } else {
    { let known = version as u64;
    (Ok(Some(known)), st)
    }}}}}
}

/// The version of the credential of a provider that has a status, where there is one.
pub fn fetch_credential_version(
    s: &mut Session,
    provider_id: Uuid,
    status: &'static str,
) -> (r: Result<Option<u64>, Halt>)
    ensures
        (script::seen(r), final(s)@) == fetch_credential_version_spec(old(s)@, provider_id, status),
{
    let found = script::maybe_row(
        s,
        CREDENTIAL_VERSION_SQL,
        binds::binds2(Bind::Id(provider_id), Bind::Label(status)),
        "i",
        QUERY,
    )?;
    let row = match found {
        Some(v) => v,
        None => {
            return Ok(None);
        },
    };
    let version: i64 = row.number(0, QUERY)?;
    if version < 0 {
        return Err(script::fail_query("invalid Provider Kafka credential version"));
    }
    let known: u64 = version as u64;
    Ok(Some(known))
}

/// The latest job of a provider, where there is one.
pub open spec fn fetch_latest_job_spec(
    st: RunView,
    provider_id: Uuid,
) -> (Result<Option<ProviderKafkaJobStatusRecord>, HaltView>, RunView) {
    match script::maybe_row_spec(
        st,
        LATEST_JOB_SQL@,
        seq![Bind::Id(provider_id)],
        "rttiT",
        QUERY@,
    ) { (Err(h), st) => (Err(h), st), (Ok(found), st) =>
    match found {
    None => {
        (Ok(None), st)
    },
    Some(row) =>
    match row.raw_at(0, READ_ROW@) { Err(h) => (Err(h), st), Ok(operation_raw) =>
    match row.int_at(3, READ_ROW@) { Err(h) => (Err(h), st), Ok(attempts) =>
    match script::id_of(operation_raw@) { Err(h) => (Err(h), st), Ok(operation_id) =>
    match row.text_at(1, READ_ROW@) { Err(h) => (Err(h), st), Ok(operation_type) =>
    match row.text_at(2, READ_ROW@) { Err(h) => (Err(h), st), Ok(status) =>
    if attempts < 0 || attempts > 4294967295 {
        (script::query_fault("invalid Provider Kafka attempt count"@), st)
    } else {
    match row.opt_text_at(4, READ_ROW@) { Err(h) => (Err(h), st), Ok(error_code) =>
    (
        Ok(Some(ProviderKafkaJobStatusRecord {
            operation_id,
            operation_type,
            status,
            attempt_count: attempts as u32,
            error_code,
        })),
        st,
    )
    }}}}}}}}}
}

/// The latest job of a provider, where there is one.
pub fn fetch_latest_job(
    s: &mut Session,
    provider_id: Uuid,
) -> (r: Result<Option<ProviderKafkaJobStatusRecord>, Halt>)
    ensures
        (script::seen(r), final(s)@) == fetch_latest_job_spec(old(s)@, provider_id),
{
    let found = script::maybe_row(
        s,
        LATEST_JOB_SQL,
        binds::binds1(Bind::Id(provider_id)),
        "rttiT",
        QUERY,
    )?;
    let row = match found {
        Some(v) => v,
        None => {
            return Ok(None);
        },
    };
    let operation_raw = row.raw(0, READ_ROW)?;
    let attempts: i64 = row.number(3, READ_ROW)?;
    let operation_id = script::to_id(operation_raw)?;
    let operation_type = row.text(1, READ_ROW)?;
    let status = row.text(2, READ_ROW)?;
    if attempts < 0 || attempts > 4294967295 {
        return Err(script::fail_query("invalid Provider Kafka attempt count"));
    }
    let error_code = row.opt_text(4, READ_ROW)?;
    Ok(Some(ProviderKafkaJobStatusRecord {
        operation_id,
        operation_type,
        status,
        attempt_count: attempts as u32,
        error_code,
    }))
}

/// How far the access of a provider is, where it has one.
pub open spec fn get_provider_kafka_status_spec(
    st: RunView,
    provider_id: Uuid,
) -> (Result<Option<ProviderKafkaStatusRecord>, HaltView>, RunView) {
    match script::maybe_text_spec(
        st,
        ACCESS_STATUS_SQL@,
        seq![Bind::Id(provider_id)],
        QUERY@,
    ) { (Err(h), st) => (Err(h), st), (Ok(found), st) =>
    match found {
    None => {
        (Ok(None), st)
    },
    Some(access_status) =>
    match fetch_credential_version_spec(
        st,
        provider_id,
        "ACTIVE",
    ) { (Err(h), st) => (Err(h), st), (Ok(active_credential_version), st) =>
    match fetch_credential_version_spec(
        st,
        provider_id,
        "CANDIDATE",
    ) { (Err(h), st) => (Err(h), st), (Ok(candidate_credential_version), st) =>
    match fetch_latest_job_spec(
        st,
        provider_id,
    ) { (Err(h), st) => (Err(h), st), (Ok(latest_operation), st) =>
    (
        Ok(Some(ProviderKafkaStatusRecord {
            provider_id,
            access_status,
            active_credential_version,
            candidate_credential_version,
            latest_operation,
        })),
        st,
    )
    }}}}}
}

impl OracleRepository {
    /// How far the access of a provider is, where it has one.
    pub fn get_provider_kafka_status(
        s: &mut Session,
        provider_id: Uuid,
    ) -> (r: Result<Option<ProviderKafkaStatusRecord>, Halt>)
        ensures
            (script::seen(r), final(s)@) == get_provider_kafka_status_spec(old(s)@, provider_id),
    {
        let found = script::maybe_text(
            s,
            ACCESS_STATUS_SQL,
            binds::binds1(Bind::Id(provider_id)),
            QUERY,
        )?;
        let access_status = match found {
            Some(v) => v,
            None => {
                return Ok(None);
            },
        };
        let active_credential_version = fetch_credential_version(s, provider_id, "ACTIVE")?;
        let candidate_credential_version = fetch_credential_version(s, provider_id, "CANDIDATE")?;
        let latest_operation = fetch_latest_job(s, provider_id)?;
        Ok(Some(ProviderKafkaStatusRecord {
            provider_id,
            access_status,
            active_credential_version,
            candidate_credential_version,
            latest_operation,
        }))
    }
}

/// The version that the next credential of a provider gets.
pub open spec fn next_provider_kafka_credential_version_spec(
    st: RunView,
    provider_id: Uuid,
) -> (Result<u64, HaltView>, RunView) {
    match script::one_int_spec(
        st,
        NEXT_VERSION_SQL@,
        seq![Bind::Id(provider_id)],
        QUERY@,
    ) { (Err(h), st) => (Err(h), st), (Ok(version), st) =>
    if version < 0 {
        (script::query_fault("invalid next Provider Kafka credential version"@), st)
    } else {
    { let next = version as u64;
    (Ok(next), st)
    }}}
}

impl OracleRepository {
    /// The version that the next credential of a provider gets.
    pub fn next_provider_kafka_credential_version(
        s: &mut Session,
        provider_id: Uuid,
    ) -> (r: Result<u64, Halt>)
        ensures
            (script::seen(r), final(s)@) == next_provider_kafka_credential_version_spec(
                old(s)@,
                provider_id,
            ),
    {
        let version = script::one_int(
            s,
            NEXT_VERSION_SQL,
            binds::binds1(Bind::Id(provider_id)),
            QUERY,
        )?;
        if version < 0 {
            return Err(script::fail_query("invalid next Provider Kafka credential version"));
        }
        let next: u64 = version as u64;
        Ok(next)
    }
}

/// Whether a credential, where there is one, has the version that comes next.
pub open spec fn expects_version_spec(
    st: RunView,
    provider_id: Uuid,
    credential: Option<NewProviderKafkaCredential>,
) -> (Result<bool, HaltView>, RunView) {
    match credential {
    None => {
        (Ok(true), st)
    },
    Some(offered) =>
    match script::one_int_spec(
        st,
        NEXT_VERSION_SQL@,
        seq![Bind::Id(provider_id)],
        QUERY@,
    ) { (Err(h), st) => (Err(h), st), (Ok(expected), st) =>
    (Ok(expected >= 0 && expected as u64 == offered.credential_version), st)
    }}
}

/// Whether a credential, where there is one, has the version that comes next.
pub fn expects_version(
    s: &mut Session,
    provider_id: Uuid,
    credential: &Option<NewProviderKafkaCredential>,
) -> (r: Result<bool, Halt>)
    ensures
        (script::seen(r), final(s)@) == expects_version_spec(old(s)@, provider_id, *credential),
{
    let offered = match credential {
        Some(v) => v,
        None => {
            return Ok(true);
        },
    };
    let expected = script::one_int(
        s,
        NEXT_VERSION_SQL,
        binds::binds1(Bind::Id(provider_id)),
        QUERY,
    )?;
    Ok(expected >= 0 && expected as u64 == offered.credential_version)
}

/// Stores a candidate credential, where there is one.
pub open spec fn store_candidate_spec(
    st: RunView,
    provider_id: Uuid,
    access_id: Uuid,
    credential: Option<NewProviderKafkaCredential>,
) -> (Result<(), HaltView>, RunView) {
    match credential {
    None => {
        (Ok(()), st)
    },
    Some(offered) =>
    if offered.credential_version > i64::MAX {
        (script::query_fault("Provider Kafka credential version exceeds Oracle NUMBER"@), st)
    } else {
    match script::execute_spec(
        st,
        INSERT_CREDENTIAL_SQL@,
        seq![
            Bind::Id(offered.provider_kafka_credential_id),
            Bind::Id(access_id),
            Bind::Id(provider_id),
            Bind::Int(offered.credential_version as i64),
            Bind::Text(offered.password_ciphertext),
            Bind::Text(offered.encryption_key_version),
        ],
        QUERY@,
    ) { (Err(h), st) => (Err(h), st), (Ok(_), st) =>
    (Ok(()), st)
    }}}
}

/// Stores a candidate credential, where there is one.
pub fn store_candidate(
    s: &mut Session,
    provider_id: Uuid,
    access_id: Uuid,
    credential: &Option<NewProviderKafkaCredential>,
) -> (r: Result<(), Halt>)
    ensures
        (script::seen(r), final(s)@) == store_candidate_spec(
            old(s)@,
            provider_id,
            access_id,
            *credential,
        ),
{
    let offered = match credential {
        Some(v) => v,
        None => {
            return Ok(());
        },
    };
    if offered.credential_version > i64::MAX as u64 {
        return Err(script::fail_query("Provider Kafka credential version exceeds Oracle NUMBER"));
    }
    script::execute(
        s,
        INSERT_CREDENTIAL_SQL,
        binds::binds6(
            Bind::Id(offered.provider_kafka_credential_id),
            Bind::Id(access_id),
            Bind::Id(provider_id),
            Bind::Int(offered.credential_version as i64),
            Bind::Text(offered.password_ciphertext.clone()),
            Bind::Text(offered.encryption_key_version.clone()),
        ),
        QUERY,
    )?;
    Ok(())
}

/// The access of a provider, which there is.
pub open spec fn fetch_any_access_spec(
    st: RunView,
    provider_id: Uuid,
) -> (Result<ProviderKafkaAccessRecord, HaltView>, RunView) {
    match fetch_access_spec(
        st,
        provider_id,
        CredentialSelection::Any,
    ) { (Err(h), st) => (Err(h), st), (Ok(found), st) =>
    match found {
    None => {
        (script::query_fault("Provider Kafka access was not found"@), st)
    },
    Some(access) =>
    (Ok(access), st)
    }}
}

/// The access of a provider, which there is.
pub fn fetch_any_access(
    s: &mut Session,
    provider_id: Uuid,
) -> (r: Result<ProviderKafkaAccessRecord, Halt>)
    ensures
        (script::seen(r), final(s)@) == fetch_any_access_spec(old(s)@, provider_id),
{
    let found = fetch_access(s, provider_id, CredentialSelection::Any)?;
    let access = match found {
        Some(v) => v,
        None => {
            return Err(script::fail_query("Provider Kafka access was not found"));
        },
    };
    Ok(access)
}

/// What audit evidence calls a command: a new secret, or another state.
pub open spec fn audited_action(action: ProviderKafkaCommandAction) -> AuditAction {
    match action {
        ProviderKafkaCommandAction::Rotate => AuditAction::SecretRotate,
        ProviderKafkaCommandAction::Provision => AuditAction::SecretRotate,
        _ => AuditAction::StateTransition,
    }
}

fn audit_action(action: ProviderKafkaCommandAction) -> (r: AuditAction)
    ensures
        r == audited_action(action),
{
    match action {
        ProviderKafkaCommandAction::Rotate => AuditAction::SecretRotate,
        ProviderKafkaCommandAction::Provision => AuditAction::SecretRotate,
        _ => AuditAction::StateTransition,
    }
}

/// Starts the job of a command on a locked access.
#[verifier::opaque]
pub open spec fn start_command_spec(
    st: RunView,
    context: MutationCommandContext,
    provider_id: Uuid,
    action: ProviderKafkaCommandAction,
    credential: Option<NewProviderKafkaCredential>,
    reason: String,
    access_id: Uuid,
    previous: ProviderKafkaAccessRecord,
) -> (Result<ProviderKafkaCommandOutcome, HaltView>, RunView) {
    match idempotency::insert_idempotency_record_spec(
        st,
        context.record,
    ) { (Err(h), st) => (Err(h), st), (Ok(_), st) =>
    match script::fresh_id_spec(st) { (Err(h), st) => (Err(h), st), (Ok(job_id), st) =>
    match store_candidate_spec(
        st,
        provider_id,
        access_id,
        credential,
    ) { (Err(h), st) => (Err(h), st), (Ok(_), st) =>
    match script::execute_spec(
        st,
        SET_STATUS_SQL@,
        seq![Bind::Label(working_status(action)), Bind::Id(provider_id)],
        QUERY@,
    ) { (Err(h), st) => (Err(h), st), (Ok(_), st) =>
    match script::execute_spec(
        st,
        INSERT_JOB_SQL@,
        seq![Bind::Id(job_id), Bind::Id(provider_id), Bind::Label(job_of(action).code())],
        QUERY@,
    ) { (Err(h), st) => (Err(h), st), (Ok(_), st) =>
    match fetch_any_access_spec(
        st,
        provider_id,
    ) { (Err(h), st) => (Err(h), st), (Ok(current), st) =>
    match audit::insert_audit_log_spec(
        st,
        "PROVIDER_KAFKA_ACCESS",
        provider_id,
        audited_action(action),
        Bind::Text(reason),
        Some(Snapshot::Document(Document::KafkaAccess(previous.summary()))),
        Some(Snapshot::Document(Document::KafkaAccess(current.summary()))),
        audit::trusted_origin_spec(context.audit),
    ) { (Err(h), st) => (Err(h), st), (Ok(_), st) =>
    match idempotency::complete_idempotency_record_spec(
        st,
        context.operation_type,
        context.idempotency_key,
        "provider_kafka_access",
        provider_id,
        Snapshot::Document(Document::KafkaCommand(
            provider_id,
            job_id,
            working_status(action),
            current.credential_version,
        )),
    ) { (Err(h), st) => (Err(h), st), (Ok(_), st) =>
    (
        Ok(ProviderKafkaCommandOutcome::Applied(Document::KafkaCommand(
            provider_id,
            job_id,
            working_status(action),
            current.credential_version,
        ))),
        st,
    )
    }}}}}}}}
}

/// Starts the job of a command on a locked access.
pub fn start_command(
    s: &mut Session,
    context: &MutationCommandContext,
    provider_id: Uuid,
    action: ProviderKafkaCommandAction,
    credential: &Option<NewProviderKafkaCredential>,
    reason: &String,
    access_id: Uuid,
    previous: &ProviderKafkaAccessRecord,
) -> (r: Result<ProviderKafkaCommandOutcome, Halt>)
    ensures
        (script::seen(r), final(s)@) == start_command_spec(
            old(s)@,
            *context,
            provider_id,
            action,
            *credential,
            *reason,
            access_id,
            *previous,
        ),
{
    proof {
        reveal(start_command_spec);
    }
    idempotency::insert_idempotency_record(s, &context.record)?;
    let job_id = script::fresh_id(s)?;
    store_candidate(s, provider_id, access_id, credential)?;
    script::execute(
        s,
        SET_STATUS_SQL,
        binds::binds2(Bind::Label(command_job_and_status(action).1), Bind::Id(provider_id)),
        QUERY,
    )?;
    script::execute(
        s,
        INSERT_JOB_SQL,
        binds::binds3(
            Bind::Id(job_id),
            Bind::Id(provider_id),
            Bind::Label(command_job_and_status(action).0),
        ),
        QUERY,
    )?;
    let current = fetch_any_access(s, provider_id)?;
    audit::insert_audit_log(
        s,
        "PROVIDER_KAFKA_ACCESS",
        provider_id,
        audit_action(action),
        Bind::Text(reason.clone()),
        Some(Snapshot::Document(previous.safe_snapshot())),
        Some(Snapshot::Document(current.safe_snapshot())),
        audit::trusted_origin(&context.audit),
    )?;
    idempotency::complete_idempotency_record(
        s,
        &context.operation_type,
        &context.idempotency_key,
        "provider_kafka_access",
        provider_id,
        Snapshot::Document(Document::KafkaCommand(
            provider_id,
            job_id,
            command_job_and_status(action).1,
            current.credential_version,
        )),
    )?;
    Ok(ProviderKafkaCommandOutcome::Applied(Document::KafkaCommand(
        provider_id,
        job_id,
        command_job_and_status(action).1,
        current.credential_version,
    )))
}

/// Gives a command on the access of a provider, where its status allows it. Under one idempotency
/// key this happens once.
pub open spec fn command_provider_kafka_access_atomic_spec(
    st: RunView,
    context: MutationCommandContext,
    provider_id: Uuid,
    action: ProviderKafkaCommandAction,
    credential: Option<NewProviderKafkaCredential>,
    reason: String,
) -> (Result<ProviderKafkaCommandOutcome, HaltView>, RunView) {
    match idempotency::fetch_idempotency_record_spec(
        st,
        context.operation_type,
        context.idempotency_key,
    ) { (Err(h), st) => (Err(h), st), (Ok(existing), st) =>
    if let Some(record) = existing {
        (Ok(command_verdict(idempotency::idempotency_verdict(record, context.request_hash))), st)
    } else {
    match script::maybe_id_spec(
        st,
        LOCK_ACCESS_SQL@,
        seq![Bind::Id(provider_id)],
        QUERY@,
    ) { (Err(h), st) => (Err(h), st), (Ok(locked), st) =>
    match locked {
    None => {
        (Ok(ProviderKafkaCommandOutcome::NotConfigured), st)
    },
    Some(access_id) =>
    match fetch_any_access_spec(
        st,
        provider_id,
    ) { (Err(h), st) => (Err(h), st), (Ok(previous), st) =>
    if previous.credential_status@ != required_status(action)@ {
        (Ok(ProviderKafkaCommandOutcome::InvalidState), st)
    } else {
    match expects_version_spec(
        st,
        provider_id,
        credential,
    ) { (Err(h), st) => (Err(h), st), (Ok(expected), st) =>
    if !expected {
        (Ok(ProviderKafkaCommandOutcome::VersionConflict), st)
    } else {
    start_command_spec(st, context, provider_id, action, credential, reason, access_id, previous)
    }}}}}}}}
}

impl OracleRepository {
    /// Gives a command on the access of a provider, where its status allows it. Under one
    /// idempotency key this happens once.
    pub fn command_provider_kafka_access_atomic(
        s: &mut Session,
        context: &MutationCommandContext,
        provider_id: Uuid,
        action: ProviderKafkaCommandAction,
        credential: &Option<NewProviderKafkaCredential>,
        reason: &String,
    ) -> (r: Result<ProviderKafkaCommandOutcome, Halt>)
        ensures
            (script::seen(r), final(s)@) == command_provider_kafka_access_atomic_spec(
                old(s)@,
                *context,
                provider_id,
                action,
                *credential,
                *reason,
            ),
    {
        let existing = idempotency::fetch_idempotency_record(
            s,
            &context.operation_type,
            &context.idempotency_key,
        )?;
        if let Some(record) = &existing {
            return Ok(classify_command_idempotency(record, &context.request_hash));
        }
        let locked = script::maybe_id(
            s,
            LOCK_ACCESS_SQL,
            binds::binds1(Bind::Id(provider_id)),
            QUERY,
        )?;
        let access_id = match locked {
            Some(v) => v,
            None => {
                return Ok(ProviderKafkaCommandOutcome::NotConfigured);
            },
        };
        let previous = fetch_any_access(s, provider_id)?;
        if !command_state_is_valid(action, previous.credential_status.as_str()) {
            return Ok(ProviderKafkaCommandOutcome::InvalidState);
        }
        let expected = expects_version(s, provider_id, credential)?;
        if !expected {
            return Ok(ProviderKafkaCommandOutcome::VersionConflict);
        }
        start_command(s, context, provider_id, action, credential, reason, access_id, &previous)
    }
}

/// Reads the active credential of a provider, and stores the audit evidence of it.
pub open spec fn read_active_provider_kafka_credential_spec(
    st: RunView,
    provider_id: Uuid,
    audit_context: TrustedAuditContext,
) -> (Result<ProviderKafkaCredentialReadOutcome, HaltView>, RunView) {
    match fetch_access_spec(
        st,
        provider_id,
        CredentialSelection::Any,
    ) { (Err(h), st) => (Err(h), st), (Ok(found), st) =>
    match found {
    None => {
        (Ok(ProviderKafkaCredentialReadOutcome::NotConfigured), st)
    },
    Some(access) =>
    if access.credential_status@ != "ACTIVE"@ && access.credential_status@ != "ROTATING"@ {
        (Ok(ProviderKafkaCredentialReadOutcome::NotReady), st)
    } else {
    match fetch_access_spec(
        st,
        provider_id,
        CredentialSelection::Active,
    ) { (Err(h), st) => (Err(h), st), (Ok(current), st) =>
    match current {
    None => {
        (Ok(ProviderKafkaCredentialReadOutcome::NotReady), st)
    },
    Some(active) =>
    match active.credential_id {
    None => {
        (script::query_fault("active Provider Kafka credential ID is missing"@), st)
    },
    Some(credential_id) =>
    match audit::insert_audit_log_spec(
        st,
        "PROVIDER_KAFKA_CREDENTIAL",
        credential_id,
        AuditAction::SecretRead,
        Bind::Label("authorized Provider Kafka credential retrieval"),
        None,
        Some(Snapshot::Document(Document::KafkaAccess(access.summary()))),
        audit::trusted_origin_spec(audit_context),
    ) { (Err(h), st) => (Err(h), st), (Ok(_), st) =>
    (Ok(ProviderKafkaCredentialReadOutcome::Available(Box::new(active))), st)
    }}}}}}}
}

impl OracleRepository {
    /// Reads the active credential of a provider, and stores the audit evidence of it.
    pub fn read_active_provider_kafka_credential(
        s: &mut Session,
        provider_id: Uuid,
        audit_context: &TrustedAuditContext,
    ) -> (r: Result<ProviderKafkaCredentialReadOutcome, Halt>)
        ensures
            (script::seen(r), final(s)@) == read_active_provider_kafka_credential_spec(
                old(s)@,
                provider_id,
                *audit_context,
            ),
    {
        let found = fetch_access(s, provider_id, CredentialSelection::Any)?;
        let access = match &found {
            Some(v) => v,
            None => {
                return Ok(ProviderKafkaCredentialReadOutcome::NotConfigured);
            },
        };
        if !text::same_text(access.credential_status.as_str(), "ACTIVE")
            && !text::same_text(access.credential_status.as_str(), "ROTATING") {
            return Ok(ProviderKafkaCredentialReadOutcome::NotReady);
        }
        let current = fetch_access(s, provider_id, CredentialSelection::Active)?;
        let active = match current {
            Some(v) => v,
            None => {
                return Ok(ProviderKafkaCredentialReadOutcome::NotReady);
            },
        };
        let credential_id = match active.credential_id {
            Some(v) => v,
            None => {
                return Err(script::fail_query("active Provider Kafka credential ID is missing"));
            },
        };
        audit::insert_audit_log(
            s,
            "PROVIDER_KAFKA_CREDENTIAL",
            credential_id,
            AuditAction::SecretRead,
            Bind::Label("authorized Provider Kafka credential retrieval"),
            None,
            Some(Snapshot::Document(access.safe_snapshot())),
            audit::trusted_origin(audit_context),
        )?;
        Ok(ProviderKafkaCredentialReadOutcome::Available(Box::new(active)))
    }
}

/// The access of a provider with its candidate credential.
pub open spec fn get_provider_kafka_candidate_spec(
    st: RunView,
    provider_id: Uuid,
) -> (Result<Option<ProviderKafkaAccessRecord>, HaltView>, RunView) {
    fetch_access_spec(st, provider_id, CredentialSelection::Candidate)
}

impl OracleRepository {
    /// The access of a provider with its candidate credential.
    pub fn get_provider_kafka_candidate(
        s: &mut Session,
        provider_id: Uuid,
    ) -> (r: Result<Option<ProviderKafkaAccessRecord>, Halt>)
        ensures
            (script::seen(r), final(s)@) == get_provider_kafka_candidate_spec(old(s)@, provider_id),
    {
        fetch_access(s, provider_id, CredentialSelection::Candidate)
    }
}

/// The access of a provider with its active credential.
pub open spec fn get_active_provider_kafka_access_spec(
    st: RunView,
    provider_id: Uuid,
) -> (Result<Option<ProviderKafkaAccessRecord>, HaltView>, RunView) {
    fetch_access_spec(st, provider_id, CredentialSelection::Active)
}

impl OracleRepository {
    /// The access of a provider with its active credential.
    pub fn get_active_provider_kafka_access(
        s: &mut Session,
        provider_id: Uuid,
    ) -> (r: Result<Option<ProviderKafkaAccessRecord>, Halt>)
        ensures
            (script::seen(r), final(s)@) == get_active_provider_kafka_access_spec(
                old(s)@,
                provider_id,
            ),
    {
        fetch_access(s, provider_id, CredentialSelection::Active)
    }
}

/// The job that a row holds.
#[verifier::opaque]
pub open spec fn map_job_spec(row: Row) -> Result<ClaimedProviderKafkaJob, HaltView> {
    match row.raw_at(0, READ_ROW@) { Err(h) => Err(h), Ok(job_raw) =>
    match row.raw_at(1, READ_ROW@) { Err(h) => Err(h), Ok(provider_raw) =>
    match row.text_at(2, READ_ROW@) { Err(h) => Err(h), Ok(type_text) =>
    match row.int_at(3, READ_ROW@) { Err(h) => Err(h), Ok(attempts) =>
    match script::id_of(job_raw@) { Err(h) => Err(h), Ok(job_id) =>
    match script::id_of(provider_raw@) { Err(h) => Err(h), Ok(provider_id) =>
    match ProviderKafkaJobType::of_code(type_text@) {
    None => {
        script::query_fault("unknown Provider Kafka provisioning job type"@)
    },
    Some(job_type) =>
    if attempts < 0 || attempts > 4294967295 {
        script::query_fault("invalid Provider Kafka provisioning attempt count"@)
    } else {
    Ok(ClaimedProviderKafkaJob { job_id, provider_id, job_type, attempt_count: attempts as u32 })
    }}}}}}}}
}

/// The job that a row holds.
pub fn map_job(row: &Row) -> (r: Result<ClaimedProviderKafkaJob, Halt>)
    ensures
        script::seen(r) == map_job_spec(*row),
{
    proof {
        reveal(map_job_spec);
    }
    let job_raw = row.raw(0, READ_ROW)?;
    let provider_raw = row.raw(1, READ_ROW)?;
    let type_text = row.text(2, READ_ROW)?;
    let attempts: i64 = row.number(3, READ_ROW)?;
    let job_id = script::to_id(job_raw)?;
    let provider_id = script::to_id(provider_raw)?;
    let job_type = match ProviderKafkaJobType::from_db_value(type_text.as_str()) {
        Some(v) => v,
        None => {
            return Err(script::fail_query("unknown Provider Kafka provisioning job type"));
        },
    };
    if attempts < 0 || attempts > 4294967295 {
        return Err(script::fail_query("invalid Provider Kafka provisioning attempt count"));
    }
    Ok(ClaimedProviderKafkaJob { job_id, provider_id, job_type, attempt_count: attempts as u32 })
}

/// The jobs that the first rows hold, in order.
pub open spec fn map_jobs_spec(
    rows: Seq<Row>,
    i: nat,
    count: usize,
    done: Seq<ClaimedProviderKafkaJob>,
) -> Result<Seq<ClaimedProviderKafkaJob>, HaltView>
    decreases rows.len() - i,
{
    if i >= rows.len() || i >= count {
        Ok(done)
    } else {
        match map_job_spec(rows[i as int]) {
            Err(h) => Err(h), Ok(item) => map_jobs_spec(rows, i + 1, count, done.push(item))
        }
    }
}

/// The jobs that the first rows hold, in order.
pub fn map_jobs(rows: &Vec<Row>, count: usize) -> (r: Result<Vec<ClaimedProviderKafkaJob>, Halt>)
    ensures
        script::seen_view(r) == map_jobs_spec(rows@, 0, count, Seq::empty()),
{
    let mut done: Vec<ClaimedProviderKafkaJob> = Vec::new();
    let mut i: usize = 0;
    assert(done@ =~= Seq::empty());
    while i < rows.len() && i < count
        invariant
            i <= rows@.len(),
            map_jobs_spec(rows@, 0, count, Seq::empty()) == map_jobs_spec(
                rows@,
                i as nat,
                count,
                done@,
            ),
        decreases rows@.len() - i,
    {
        let item = map_job(&rows[i])?;
        done.push(item);
        i = i + 1;
    }
    Ok(done)
}

/// Leases a job to a worker.
pub open spec fn lease_job_spec(
    st: RunView,
    job: ClaimedProviderKafkaJob,
    worker_id: String,
    lease_duration_ms: u64,
) -> (Result<(), HaltView>, RunView) {
    match script::execute_count_spec(
        st,
        LEASE_SQL@,
        seq![Bind::Text(worker_id), Bind::Int(lease_duration_ms as i64), Bind::Id(job.job_id)],
        QUERY@,
        READ_ROW@,
    ) { (Err(h), st) => (Err(h), st), (Ok(touched), st) =>
    if touched != 1 {
        (script::conflict_fault("Provider Kafka job lease was not acquired"@), st)
    } else {
    (Ok(()), st)
    }}
}

/// Leases a job to a worker.
pub fn lease_job(
    s: &mut Session,
    job: &ClaimedProviderKafkaJob,
    worker_id: &String,
    lease_duration_ms: u64,
) -> (r: Result<(), Halt>)
    ensures
        (script::seen(r), final(s)@) == lease_job_spec(
            old(s)@,
            *job,
            *worker_id,
            lease_duration_ms,
        ),
{
    let touched = script::execute_count(
        s,
        LEASE_SQL,
        binds::binds3(
            Bind::Text(worker_id.clone()),
            Bind::Int(lease_duration_ms as i64),
            Bind::Id(job.job_id),
        ),
        QUERY,
        READ_ROW,
    )?;
    if touched != 1 {
        return Err(script::fail_conflict("Provider Kafka job lease was not acquired"));
    }
    Ok(())
}

/// Leases jobs to a worker in turn.
pub open spec fn lease_jobs_spec(
    st: RunView,
    jobs: Seq<ClaimedProviderKafkaJob>,
    i: nat,
    worker_id: String,
    lease_duration_ms: u64,
) -> (Result<(), HaltView>, RunView)
    decreases jobs.len() - i,
{
    if i >= jobs.len() {
        (Ok(()), st)
    } else {
        match lease_job_spec(st, jobs[i as int], worker_id, lease_duration_ms) {
            (Err(h), st) => (Err(h), st), (Ok(_), st) => lease_jobs_spec(
                st,
                jobs,
                i + 1,
                worker_id,
                lease_duration_ms,
            )
        }
    }
}

/// Leases jobs to a worker in turn.
pub fn lease_jobs(
    s: &mut Session,
    jobs: &Vec<ClaimedProviderKafkaJob>,
    worker_id: &String,
    lease_duration_ms: u64,
) -> (r: Result<(), Halt>)
    ensures
        (script::seen(r), final(s)@) == lease_jobs_spec(
            old(s)@,
            jobs@,
            0,
            *worker_id,
            lease_duration_ms,
        ),
{
    let mut i: usize = 0;
    while i < jobs.len()
        invariant
            i <= jobs@.len(),
            lease_jobs_spec(old(s)@, jobs@, 0, *worker_id, lease_duration_ms) == lease_jobs_spec(
                s@,
                jobs@,
                i as nat,
                *worker_id,
                lease_duration_ms,
            ),
        decreases jobs@.len() - i,
    {
        lease_job(s, &jobs[i], worker_id, lease_duration_ms)?;
        i = i + 1;
    }
    Ok(())
}

/// Each is taken in its turn, after those before it, and the first that fails ends the run.
pub proof fn lease_jobs_go_in_turn(
    st: RunView,
    jobs: Seq<ClaimedProviderKafkaJob>,
    i: nat,
    worker_id: String,
    lease_duration_ms: u64,
)
    ensures
        ({
            let whole = lease_jobs_spec(st, jobs, i, worker_id, lease_duration_ms);
            let (next, at) = lease_job_spec(st, jobs[i as int], worker_id, lease_duration_ms);
            &&& i >= jobs.len() ==> whole == (Ok::<_, HaltView>(()), st)
            &&& i < jobs.len() ==> match next {
                Ok(_) => whole == lease_jobs_spec(at, jobs, i + 1, worker_id, lease_duration_ms),
                Err(halt) => whole.0 == Err::<(), _>(halt) && whole.1 == at,
            }
        }),
{
}

/// Leases due jobs to a worker, at most a batch of them, after the leases that ran out are
/// released.
pub open spec fn claim_provider_kafka_jobs_spec(
    st: RunView,
    worker_id: String,
    batch_size: u16,
    lease_duration_ms: u64,
) -> (Result<Seq<ClaimedProviderKafkaJob>, HaltView>, RunView) {
    match script::execute_spec(
        st,
        RELEASE_SQL@,
        Seq::<Bind>::empty(),
        QUERY@,
    ) { (Err(h), st) => (Err(h), st), (Ok(_), st) =>
    match script::limited_rows_spec(
        st,
        CLAIMABLE_SQL@,
        Seq::<Bind>::empty(),
        "rrti",
        (batch_size + 1) as u64,
        QUERY@,
    ) { (Err(h), st) => (Err(h), st), (Ok(found), st) =>
    match map_jobs_spec(
        found.rows@,
        0,
        batch_size as usize,
        Seq::empty(),
    ) { Err(h) => (Err(h), st), Ok(jobs) =>
    if jobs.len() < batch_size {
        if let Some(cause) = found.failure {
            (script::failed(QUERY@, cause@), st)
        } else {
            match lease_jobs_spec(
                st,
                jobs,
                0,
                worker_id,
                lease_duration_ms,
            ) { (Err(h), st) => (Err(h), st), (Ok(_), st) =>
            (Ok(jobs), st)
            }
        }
    } else {
        match lease_jobs_spec(
            st,
            jobs,
            0,
            worker_id,
            lease_duration_ms,
        ) { (Err(h), st) => (Err(h), st), (Ok(_), st) =>
        (Ok(jobs), st)
        }
    }
    }}}
}

impl OracleRepository {
    /// Leases due jobs to a worker, at most a batch of them, after the leases that ran out are
    /// released.
    pub fn claim_provider_kafka_jobs(
        s: &mut Session,
        worker_id: &String,
        batch_size: u16,
        lease_duration_ms: u64,
    ) -> (r: Result<Vec<ClaimedProviderKafkaJob>, Halt>)
        ensures
            (script::seen_view(r), final(s)@) == claim_provider_kafka_jobs_spec(
                old(s)@,
                *worker_id,
                batch_size,
                lease_duration_ms,
            ),
    {
        script::execute(s, RELEASE_SQL, binds::binds0(), QUERY)?;
        let found = script::limited_rows(
            s,
            CLAIMABLE_SQL,
            binds::binds0(),
            "rrti",
            batch_size as u64 + 1,
            QUERY,
        )?;
        let jobs = map_jobs(&found.rows, batch_size as usize)?;
        if jobs.len() < batch_size as usize {
            if let Some(cause) = &found.failure {
                return Err(script::fail_because(QUERY, cause.as_str()));
            } else {
                lease_jobs(s, &jobs, worker_id, lease_duration_ms)?;
                return Ok(jobs);
            }
        } else {
            lease_jobs(s, &jobs, worker_id, lease_duration_ms)?;
            return Ok(jobs);
        }
    }
}

/// Completes a job that is leased to a worker.
pub open spec fn complete_owned_job_spec(
    st: RunView,
    job_id: Uuid,
    worker_id: String,
) -> (Result<(), HaltView>, RunView) {
    match script::execute_count_spec(
        st,
        COMPLETE_JOB_SQL@,
        seq![Bind::Id(job_id), Bind::Text(worker_id)],
        QUERY@,
        READ_ROW@,
    ) { (Err(h), st) => (Err(h), st), (Ok(touched), st) =>
    if touched != 1 {
        (script::conflict_fault("Provider Kafka provisioning lease is no longer owned"@), st)
    } else {
    (Ok(()), st)
    }}
}

/// Completes a job that is leased to a worker.
pub fn complete_owned_job(
    s: &mut Session,
    job_id: Uuid,
    worker_id: &String,
) -> (r: Result<(), Halt>)
    ensures
        (script::seen(r), final(s)@) == complete_owned_job_spec(old(s)@, job_id, *worker_id),
{
    let touched = script::execute_count(
        s,
        COMPLETE_JOB_SQL,
        binds::binds2(Bind::Id(job_id), Bind::Text(worker_id.clone())),
        QUERY,
        READ_ROW,
    )?;
    if touched != 1 {
        return Err(script::fail_conflict("Provider Kafka provisioning lease is no longer owned"));
    }
    Ok(())
}

/// Makes the candidate credential of a provider the active one.
pub open spec fn switch_credential_spec(
    st: RunView,
    provider_id: Uuid,
    job_type: ProviderKafkaJobType,
) -> (Result<(), HaltView>, RunView) {
    match fetch_access_spec(
        st,
        provider_id,
        CredentialSelection::Candidate,
    ) { (Err(h), st) => (Err(h), st), (Ok(found), st) =>
    match found {
    None => {
        (script::conflict_fault("Provider Kafka candidate credential was not found"@), st)
    },
    Some(candidate) =>
    match candidate.credential_id {
    None => {
        (script::query_fault("Provider Kafka candidate credential ID is missing"@), st)
    },
    Some(credential_id) =>
    match script::execute_spec(
        st,
        SUPERSEDE_SQL@,
        seq![Bind::Id(provider_id)],
        QUERY@,
    ) { (Err(h), st) => (Err(h), st), (Ok(_), st) =>
    match script::execute_count_spec(
        st,
        ACTIVATE_SQL@,
        seq![Bind::Id(credential_id)],
        QUERY@,
        READ_ROW@,
    ) { (Err(h), st) => (Err(h), st), (Ok(touched), st) =>
    if touched != 1 {
        (script::conflict_fault("Provider Kafka candidate credential is no longer available"@), st)
    } else {
    match script::execute_spec(
        st,
        ACCESS_ACTIVE_SQL@,
        seq![Bind::Label(job_type.code()), Bind::Id(provider_id)],
        QUERY@,
    ) { (Err(h), st) => (Err(h), st), (Ok(_), st) =>
    (Ok(()), st)
    }}}}}}}
}

/// Makes the candidate credential of a provider the active one.
pub fn switch_credential(
    s: &mut Session,
    provider_id: Uuid,
    job_type: ProviderKafkaJobType,
) -> (r: Result<(), Halt>)
    ensures
        (script::seen(r), final(s)@) == switch_credential_spec(old(s)@, provider_id, job_type),
{
    let found = fetch_access(s, provider_id, CredentialSelection::Candidate)?;
    let candidate = match found {
        Some(v) => v,
        None => {
            return Err(script::fail_conflict("Provider Kafka candidate credential was not found"));
        },
    };
    let credential_id = match candidate.credential_id {
        Some(v) => v,
        None => {
            return Err(script::fail_query("Provider Kafka candidate credential ID is missing"));
        },
    };
    script::execute(s, SUPERSEDE_SQL, binds::binds1(Bind::Id(provider_id)), QUERY)?;
    let touched = script::execute_count(
        s,
        ACTIVATE_SQL,
        binds::binds1(Bind::Id(credential_id)),
        QUERY,
        READ_ROW,
    )?;
    if touched != 1 {
        return Err(script::fail_conflict(
            "Provider Kafka candidate credential is no longer available",
        ));
    }
    script::execute(
        s,
        ACCESS_ACTIVE_SQL,
        binds::binds2(Bind::Label(job_type.as_db_value()), Bind::Id(provider_id)),
        QUERY,
    )?;
    Ok(())
}

/// Makes the change that a job was for.
pub open spec fn apply_job_spec(
    st: RunView,
    provider_id: Uuid,
    job_type: ProviderKafkaJobType,
) -> (Result<(), HaltView>, RunView) {
    match job_type {
        ProviderKafkaJobType::Suspend => {
            match script::execute_spec(
                st,
                SUSPENDED_SQL@,
                seq![Bind::Id(provider_id)],
                QUERY@,
            ) { (Err(h), st) => (Err(h), st), (Ok(_), st) =>
            (Ok(()), st)
            }
        },
        ProviderKafkaJobType::Resume => {
            match script::execute_spec(
                st,
                RESUMED_SQL@,
                seq![Bind::Id(provider_id)],
                QUERY@,
            ) { (Err(h), st) => (Err(h), st), (Ok(_), st) =>
            (Ok(()), st)
            }
        },
        _ => {
            switch_credential_spec(st, provider_id, job_type)
        },
    }
}

/// Makes the change that a job was for.
pub fn apply_job(
    s: &mut Session,
    provider_id: Uuid,
    job_type: ProviderKafkaJobType,
) -> (r: Result<(), Halt>)
    ensures
        (script::seen(r), final(s)@) == apply_job_spec(old(s)@, provider_id, job_type),
{
    match job_type {
        ProviderKafkaJobType::Suspend => {
            script::execute(s, SUSPENDED_SQL, binds::binds1(Bind::Id(provider_id)), QUERY)?;
            return Ok(());
        },
        ProviderKafkaJobType::Resume => {
            script::execute(s, RESUMED_SQL, binds::binds1(Bind::Id(provider_id)), QUERY)?;
            return Ok(());
        },
        _ => {
            return switch_credential(s, provider_id, job_type);
        },
    }
}

/// Completes a job that a worker did, and makes the change that it was for.
pub open spec fn complete_provider_kafka_job_spec(
    st: RunView,
    job_id: Uuid,
    provider_id: Uuid,
    job_type: ProviderKafkaJobType,
    worker_id: String,
) -> (Result<(), HaltView>, RunView) {
    match fetch_any_access_spec(
        st,
        provider_id,
    ) { (Err(h), st) => (Err(h), st), (Ok(previous), st) =>
    match complete_owned_job_spec(
        st,
        job_id,
        worker_id,
    ) { (Err(h), st) => (Err(h), st), (Ok(_), st) =>
    match apply_job_spec(st, provider_id, job_type) { (Err(h), st) => (Err(h), st), (Ok(_), st) =>
    match fetch_any_access_spec(
        st,
        provider_id,
    ) { (Err(h), st) => (Err(h), st), (Ok(current), st) =>
    match script::fresh_id_spec(st) { (Err(h), st) => (Err(h), st), (Ok(request_id), st) =>
    audit::insert_audit_log_spec(
        st,
        "PROVIDER_KAFKA_ACCESS",
        provider_id,
        AuditAction::StateTransition,
        Bind::Label(completion_reason(job_type)),
        Some(Snapshot::Document(Document::KafkaAccess(previous.summary()))),
        Some(Snapshot::Document(Document::KafkaAccess(current.summary()))),
        audit::provisioning_origin_spec(provider_id, "-kafka-complete", request_id),
    )
    }}}}}
}

impl OracleRepository {
    /// Completes a job that a worker did, and makes the change that it was for.
    pub fn complete_provider_kafka_job(
        s: &mut Session,
        job_id: Uuid,
        provider_id: Uuid,
        job_type: ProviderKafkaJobType,
        worker_id: &String,
    ) -> (r: Result<(), Halt>)
        ensures
            (script::seen(r), final(s)@) == complete_provider_kafka_job_spec(
                old(s)@,
                job_id,
                provider_id,
                job_type,
                *worker_id,
            ),
    {
        let previous = fetch_any_access(s, provider_id)?;
        complete_owned_job(s, job_id, worker_id)?;
        apply_job(s, provider_id, job_type)?;
        let current = fetch_any_access(s, provider_id)?;
        let request_id = script::fresh_id(s)?;
        audit::insert_audit_log(
            s,
            "PROVIDER_KAFKA_ACCESS",
            provider_id,
            AuditAction::StateTransition,
            Bind::Label(reason_of_completion(job_type)),
            Some(Snapshot::Document(previous.safe_snapshot())),
            Some(Snapshot::Document(current.safe_snapshot())),
            audit::provisioning_origin(provider_id, "-kafka-complete", request_id),
        )
    }
}

/// Gives a leased job up, or puts it off.
pub open spec fn put_off_spec(
    st: RunView,
    job_id: Uuid,
    worker_id: String,
    decision: ProviderKafkaRetryDecision,
) -> (Result<u64, HaltView>, RunView) {
    if decision.exhausted {
        script::execute_count_spec(
            st,
            FAIL_JOB_SQL@,
            seq![Bind::Label(decision.error_code), Bind::Id(job_id), Bind::Text(worker_id)],
            QUERY@,
            READ_ROW@,
        )
    } else {
    script::execute_count_spec(
        st,
        RETRY_JOB_SQL@,
        seq![
            Bind::Int(decision.backoff_ms as i64),
            Bind::Label(decision.error_code),
            Bind::Id(job_id),
            Bind::Text(worker_id),
        ],
        QUERY@,
        READ_ROW@,
    )
    }
}

/// Gives a leased job up, or puts it off.
pub fn put_off(
    s: &mut Session,
    job_id: Uuid,
    worker_id: &String,
    decision: ProviderKafkaRetryDecision,
) -> (r: Result<u64, Halt>)
    ensures
        (script::seen(r), final(s)@) == put_off_spec(old(s)@, job_id, *worker_id, decision),
{
    if decision.exhausted {
        return script::execute_count(
            s,
            FAIL_JOB_SQL,
            binds::binds3(
                Bind::Label(decision.error_code),
                Bind::Id(job_id),
                Bind::Text(worker_id.clone()),
            ),
            QUERY,
            READ_ROW,
        );
    }
    script::execute_count(
        s,
        RETRY_JOB_SQL,
        binds::binds4(
            Bind::Int(decision.backoff_ms as i64),
            Bind::Label(decision.error_code),
            Bind::Id(job_id),
            Bind::Text(worker_id.clone()),
        ),
        QUERY,
        READ_ROW,
    )
}

/// Gives the candidate credential of a provider up, where the job was for one.
pub open spec fn fail_candidate_spec(
    st: RunView,
    provider_id: Uuid,
    job_type: ProviderKafkaJobType,
) -> (Result<(), HaltView>, RunView) {
    if job_type == ProviderKafkaJobType::Suspend || job_type == ProviderKafkaJobType::Resume {
        (Ok(()), st)
    } else {
    match script::execute_spec(
        st,
        FAIL_CANDIDATE_SQL@,
        seq![Bind::Id(provider_id)],
        QUERY@,
    ) { (Err(h), st) => (Err(h), st), (Ok(_), st) =>
    (Ok(()), st)
    }}
}

/// Gives the candidate credential of a provider up, where the job was for one.
pub fn fail_candidate(
    s: &mut Session,
    provider_id: Uuid,
    job_type: ProviderKafkaJobType,
) -> (r: Result<(), Halt>)
    ensures
        (script::seen(r), final(s)@) == fail_candidate_spec(old(s)@, provider_id, job_type),
{
    if job_type == ProviderKafkaJobType::Suspend || job_type == ProviderKafkaJobType::Resume {
        return Ok(());
    }
    script::execute(s, FAIL_CANDIDATE_SQL, binds::binds1(Bind::Id(provider_id)), QUERY)?;
    Ok(())
}

/// Puts a job that failed off, or gives it up: then the access is as the command found it.
pub open spec fn retry_or_fail_provider_kafka_job_spec(
    st: RunView,
    job_id: Uuid,
    provider_id: Uuid,
    job_type: ProviderKafkaJobType,
    worker_id: String,
    decision: ProviderKafkaRetryDecision,
) -> (Result<(), HaltView>, RunView) {
    match put_off_spec(
        st,
        job_id,
        worker_id,
        decision,
    ) { (Err(h), st) => (Err(h), st), (Ok(touched), st) =>
    if touched != 1 {
        (script::conflict_fault("Provider Kafka provisioning lease is no longer owned"@), st)
    } else {
    if !decision.exhausted {
        (Ok(()), st)
    } else {
    match fail_candidate_spec(
        st,
        provider_id,
        job_type,
    ) { (Err(h), st) => (Err(h), st), (Ok(_), st) =>
    match script::execute_spec(
        st,
        SET_STATUS_SQL@,
        seq![Bind::Label(restored_status(job_type)), Bind::Id(provider_id)],
        QUERY@,
    ) { (Err(h), st) => (Err(h), st), (Ok(_), st) =>
    (Ok(()), st)
    }}}}}
}

impl OracleRepository {
    /// Puts a job that failed off, or gives it up: then the access is as the command found it.
    pub fn retry_or_fail_provider_kafka_job(
        s: &mut Session,
        job_id: Uuid,
        provider_id: Uuid,
        job_type: ProviderKafkaJobType,
        worker_id: &String,
        decision: ProviderKafkaRetryDecision,
    ) -> (r: Result<(), Halt>)
        ensures
            (script::seen(r), final(s)@) == retry_or_fail_provider_kafka_job_spec(
                old(s)@,
                job_id,
                provider_id,
                job_type,
                *worker_id,
                decision,
            ),
    {
        let touched = put_off(s, job_id, worker_id, decision)?;
        if touched != 1 {
            return Err(script::fail_conflict(
                "Provider Kafka provisioning lease is no longer owned",
            ));
        }
        if !decision.exhausted {
            return Ok(());
        }
        fail_candidate(s, provider_id, job_type)?;
        script::execute(
            s,
            SET_STATUS_SQL,
            binds::binds2(Bind::Label(status_after_failure(job_type)), Bind::Id(provider_id)),
            QUERY,
        )?;
        Ok(())
    }
}

/// Under one idempotency key a command on the access to events is asked for once: where a record is
/// stored, the command is answered from it, and looking it up is all that is done.
pub proof fn access_command_is_done_once(
    st: RunView,
    context: MutationCommandContext,
    provider_id: Uuid,
    action: ProviderKafkaCommandAction,
    credential: Option<NewProviderKafkaCredential>,
    reason: String,
    record: IdempotencyRecord,
)
    requires
        idempotency::fetch_idempotency_record_spec(
            st,
            context.operation_type,
            context.idempotency_key,
        ).0 == Ok::<Option<IdempotencyRecord>, HaltView>(Some(record)),
    ensures
        command_provider_kafka_access_atomic_spec(
            st,
            context,
            provider_id,
            action,
            credential,
            reason,
        ) == (
            Ok::<_, HaltView>(
                command_verdict(idempotency::idempotency_verdict(record, context.request_hash)),
            ),
            idempotency::fetch_idempotency_record_spec(
                st,
                context.operation_type,
                context.idempotency_key,
            ).1,
        ),
        script::writes(
            command_provider_kafka_access_atomic_spec(
                st,
                context,
                provider_id,
                action,
                credential,
                reason,
            ).1.log,
        ) == script::writes(st.log),
{
    broadcast use script::writes_with_another;

}

/// What is carried out of a command on the access to events stores audit evidence and completes the
/// command's record last.
#[verifier::rlimit(60)]
pub broadcast proof fn start_command_leaves_evidence(
    st: RunView,
    context: MutationCommandContext,
    provider_id: Uuid,
    action: ProviderKafkaCommandAction,
    credential: Option<NewProviderKafkaCredential>,
    reason: String,
    access_id: Uuid,
    previous: ProviderKafkaAccessRecord,
)
    ensures
        (
            #[trigger] start_command_spec(st, context, provider_id, action, credential, reason, access_id, previous)
        ).0 matches Ok(outcome) ==> {
            let log = start_command_spec(
                st,
                context,
                provider_id,
                action,
                credential,
                reason,
                access_id,
                previous,
            ).1.log;
            &&& outcome is Applied
            &&& script::runs(log, audit::AUDIT_INSERT_SQL@) > 0
            &&& script::is_run_of(log.last(), idempotency::IDEMPOTENCY_COMPLETE_SQL@)
        },
{
    broadcast use script::runs_with_another;

    reveal(start_command_spec);
}

/// Where a command on the access to events is refused, or answered from a record, nothing is
/// changed.
#[verifier::rlimit(40)]
pub proof fn refused_access_command_changes_nothing(
    st: RunView,
    context: MutationCommandContext,
    provider_id: Uuid,
    action: ProviderKafkaCommandAction,
    credential: Option<NewProviderKafkaCredential>,
    reason: String,
)
    ensures
        ({
            let (result, after) = command_provider_kafka_access_atomic_spec(
                st,
                context,
                provider_id,
                action,
                credential,
                reason,
            );
            result matches Ok(outcome) ==> outcome is Applied || script::writes(after.log)
                == script::writes(st.log)
        }),
{
    broadcast use {script::writes_with_another, start_command_leaves_evidence};

}

/// Where a command on the access to events is carried out in a run of its own, audit evidence is
/// stored within it, and the command's record is completed last.
#[verifier::rlimit(40)]
pub proof fn access_command_leaves_evidence(
    st: RunView,
    context: MutationCommandContext,
    provider_id: Uuid,
    action: ProviderKafkaCommandAction,
    credential: Option<NewProviderKafkaCredential>,
    reason: String,
)
    requires
        st.log.len() == 0,
    ensures
        ({
            let (result, after) = command_provider_kafka_access_atomic_spec(
                st,
                context,
                provider_id,
                action,
                credential,
                reason,
            );
            result matches Ok(outcome) ==> outcome is Applied ==> script::runs(
                after.log,
                audit::AUDIT_INSERT_SQL@,
            ) > 0 && script::is_run_of(after.log.last(), idempotency::IDEMPOTENCY_COMPLETE_SQL@)
        }),
{
    broadcast use start_command_leaves_evidence;

}

/// A command that is recorded is answered by its record: under another request it conflicts; under
/// the same one it gets the answer that is stored, or is told that it is under way, or that the
/// record is not in order.
pub proof fn command_verdict_goes_by_the_record(
    record: crate::domain::idempotency::IdempotencyRecord,
    request_hash: String,
)
    ensures
        ({
            let answered = command_verdict(idempotency::idempotency_verdict(record, request_hash));
            let same = record.request_hash@ == request_hash@;
            &&& answered is IdempotencyConflict <==> !same
            &&& answered is IdempotencyInProgress <==> same && record.status is InProgress
            &&& answered matches ProviderKafkaCommandOutcome::Replayed(
                answer,
            ) ==> record.response_snapshot == Some(answer)
            &&& answered is Replayed <==> same && record.status is Completed
                && record.response_snapshot is Some
            &&& answered is IdempotencyInvalidState <==> same && !(record.status is InProgress)
                && !(
            record.status is Completed && record.response_snapshot is Some)
        }),
{
}

/// Of the rows that follow, no more are read than there is room for.
pub broadcast proof fn read_jobs_fit(
    rows: Seq<Row>,
    i: nat,
    count: usize,
    done: Seq<ClaimedProviderKafkaJob>,
)
    requires
        i <= count,
        done.len() == i,
    ensures
        (#[trigger] map_jobs_spec(rows, i, count, done)) matches Ok(jobs) ==> jobs.len() <= count,
    decreases rows.len() - i,
{
    if i < rows.len() && i < count {
        if let Ok(item) = map_job_spec(rows[i as int]) {
            read_jobs_fit(rows, i + 1, count, done.push(item));
        }
    }
}

/// However many jobs are due, a worker gets no more of them than a batch holds.
pub proof fn claimed_jobs_fit(
    st: RunView,
    worker_id: String,
    batch_size: u16,
    lease_duration_ms: u64,
)
    ensures
        claim_provider_kafka_jobs_spec(
            st,
            worker_id,
            batch_size,
            lease_duration_ms,
        ).0 matches Ok(jobs)
            ==> jobs.len() <= batch_size,
{
    broadcast use read_jobs_fit;

}

/// A command on the access of a provider starts from one status: a failed access is provisioned
/// again, an active one is rotated or suspended, and a suspended one is resumed. While it runs, the
/// access is told to be on its way, and the job that carries it out is of its kind.
pub proof fn command_starts_from_its_status(action: ProviderKafkaCommandAction)
    ensures
        action is Provision ==> required_status(action)@ == "FAILED"@ && working_status(action)@
            == "PROVISIONING"@ && job_of(action) is Provision,
        action is Rotate ==> required_status(action)@ == "ACTIVE"@ && working_status(action)@
            == "ROTATING"@ && job_of(action) is Rotate,
        action is Suspend ==> required_status(action)@ == "ACTIVE"@ && working_status(action)@
            == "SUSPENDING"@ && job_of(action) is Suspend,
        action is Resume ==> required_status(action)@ == "SUSPENDED"@ && working_status(action)@
            == "RESUMING"@ && job_of(action) is Resume,
{
}

/// A job that is given up leaves the access as it was before: failed where it was to be
/// provisioned, active where it was to be rotated or suspended, and suspended where it was to be
/// resumed.
pub proof fn failed_job_restores_the_access(job_type: ProviderKafkaJobType)
    ensures
        job_type is Provision ==> restored_status(job_type)@ == "FAILED"@,
        job_type is Rotate ==> restored_status(job_type)@ == "ACTIVE"@,
        job_type is Suspend ==> restored_status(job_type)@ == "ACTIVE"@,
        job_type is Resume ==> restored_status(job_type)@ == "SUSPENDED"@,
{
}

/// A command on the access of a provider without a record is refused where the access is not
/// configured, where its status is not the one that the command starts from, and where a credential
/// comes with another version than the next one.
#[verifier::rlimit(80)]
pub proof fn access_command_is_refused_for_one_reason(
    st: RunView,
    context: MutationCommandContext,
    provider_id: Uuid,
    action: ProviderKafkaCommandAction,
    credential: Option<NewProviderKafkaCredential>,
    reason: String,
)
    requires
        idempotency::fetch_idempotency_record_spec(
            st,
            context.operation_type,
            context.idempotency_key,
        ).0 == Ok::<Option<IdempotencyRecord>, HaltView>(None),
    ensures
        ({
            let result = command_provider_kafka_access_atomic_spec(
                st,
                context,
                provider_id,
                action,
                credential,
                reason,
            ).0;
            let looked = idempotency::fetch_idempotency_record_spec(
                st,
                context.operation_type,
                context.idempotency_key,
            ).1;
            let (locked, held) = script::maybe_id_spec(
                looked,
                LOCK_ACCESS_SQL@,
                seq![Bind::Id(provider_id)],
                QUERY@,
            );
            let (previous, read) = fetch_any_access_spec(held, provider_id);
            let expected = expects_version_spec(read, provider_id, credential).0;
            let there = (locked matches Ok(Some(_))) && previous is Ok;
            let ready = previous->Ok_0.credential_status@ == (match action {
                ProviderKafkaCommandAction::Provision => "FAILED"@,
                ProviderKafkaCommandAction::Rotate => "ACTIVE"@,
                ProviderKafkaCommandAction::Suspend => "ACTIVE"@,
                ProviderKafkaCommandAction::Resume => "SUSPENDED"@,
            });
            &&& (locked matches Ok(None)) <==> result == Ok::<_, HaltView>(
                ProviderKafkaCommandOutcome::NotConfigured,
            )
            &&& there && !ready <==> result == Ok::<_, HaltView>(
                ProviderKafkaCommandOutcome::InvalidState,
            )
            &&& there && ready && expected == Ok::<bool, HaltView>(false) <==> result == Ok::<
                _,
                HaltView,
            >(ProviderKafkaCommandOutcome::VersionConflict)
        }),
{
    broadcast use start_command_leaves_evidence;

}

/// A credential is offered under the next version of the provider's credentials. A command without
/// one expects none.
pub proof fn offered_credential_has_the_next_version(
    st: RunView,
    provider_id: Uuid,
    credential: Option<NewProviderKafkaCredential>,
)
    ensures
        credential is None ==> expects_version_spec(st, provider_id, credential) == (
            Ok::<bool, HaltView>(true),
            st,
        ),
        credential matches Some(offered) ==> (script::one_int_spec(
            st,
            NEXT_VERSION_SQL@,
            seq![Bind::Id(provider_id)],
            QUERY@,
        ).0 matches Ok(next) ==> expects_version_spec(
            st,
            provider_id,
            credential,
        ).0 == Ok::<bool, HaltView>(
            next == offered.credential_version,
        )),
{
}

/// A command that starts tells the access its new status and stores one job of its kind for the
/// provider.
#[verifier::rlimit(80)]
pub proof fn started_command_is_told(
    st: RunView,
    context: MutationCommandContext,
    provider_id: Uuid,
    action: ProviderKafkaCommandAction,
    credential: Option<NewProviderKafkaCredential>,
    reason: String,
    access_id: Uuid,
    previous: ProviderKafkaAccessRecord,
)
    ensures
        ({
            let (result, after) = start_command_spec(
                st,
                context,
                provider_id,
                action,
                credential,
                reason,
                access_id,
                previous,
            );
            result matches Ok(outcome) ==> {
                &&& outcome matches ProviderKafkaCommandOutcome::Applied(Document::KafkaCommand(
                    id,
                    job_id,
                    status,
                    _,
                )) && id == provider_id && status@ == (match action {
                    ProviderKafkaCommandAction::Provision => "PROVISIONING"@,
                    ProviderKafkaCommandAction::Rotate => "ROTATING"@,
                    ProviderKafkaCommandAction::Suspend => "SUSPENDING"@,
                    ProviderKafkaCommandAction::Resume => "RESUMING"@,
                }) && script::ran(
                    after.log,
                    SET_STATUS_SQL@,
                    seq![Bind::Label(status), Bind::Id(provider_id)],
                ) && script::ran(
                    after.log,
                    INSERT_JOB_SQL@,
                    seq![
                        Bind::Id(job_id),
                        Bind::Id(provider_id),
                        Bind::Label(
                            match action {
                                ProviderKafkaCommandAction::Provision => "KAFKA_PROVISION",
                                ProviderKafkaCommandAction::Rotate => "KAFKA_ROTATE",
                                ProviderKafkaCommandAction::Suspend => "KAFKA_SUSPEND",
                                ProviderKafkaCommandAction::Resume => "KAFKA_RESUME",
                            },
                        ),
                    ],
                )
            }
        }),
{
    broadcast use script::runs_on_with_another;

    reveal(start_command_spec);
    reveal(map_credential_spec);
}

/// A job that is exhausted is told as failed and not put off; one that is not is put off for the
/// time asked for and not told as failed. Both go by the worker that holds the lease, and leave the
/// cause. The access of one that failed goes back to what it was, and its candidate credential is
/// given up where it had one.
#[verifier::rlimit(60)]
pub proof fn job_is_given_up_or_put_off(
    st: RunView,
    job_id: Uuid,
    provider_id: Uuid,
    job_type: ProviderKafkaJobType,
    worker_id: String,
    decision: ProviderKafkaRetryDecision,
)
    requires
        retry_or_fail_provider_kafka_job_spec(
            st,
            job_id,
            provider_id,
            job_type,
            worker_id,
            decision,
        ).0 is Ok,
    ensures
        ({
            let log = retry_or_fail_provider_kafka_job_spec(
                st,
                job_id,
                provider_id,
                job_type,
                worker_id,
                decision,
            ).1.log;
            let owned = st.log.push(
                if decision.exhausted {
                    script::change(
                        FAIL_JOB_SQL@,
                        seq![
                            Bind::Label(decision.error_code),
                            Bind::Id(job_id),
                            Bind::Text(worker_id),
                        ],
                    )
                } else {
                    script::change(
                        RETRY_JOB_SQL@,
                        seq![
                            Bind::Int(decision.backoff_ms as i64),
                            Bind::Label(decision.error_code),
                            Bind::Id(job_id),
                            Bind::Text(worker_id),
                        ],
                    )
                },
            );
            let restored = script::change(
                SET_STATUS_SQL@,
                seq![
                    Bind::Label(
                        match job_type {
                            ProviderKafkaJobType::Provision => "FAILED",
                            ProviderKafkaJobType::Rotate => "ACTIVE",
                            ProviderKafkaJobType::Suspend => "ACTIVE",
                            ProviderKafkaJobType::Resume => "SUSPENDED",
                        },
                    ),
                    Bind::Id(provider_id),
                ],
            );
            &&& !decision.exhausted ==> log == owned
            &&& decision.exhausted && (job_type is Suspend || job_type is Resume) ==> log
                == owned.push(restored)
            &&& decision.exhausted && (job_type is Provision || job_type is Rotate) ==> log
                == owned.push(
                script::change(FAIL_CANDIDATE_SQL@, seq![Bind::Id(provider_id)]),
            ).push(restored)
        }),
{
}

/// A job that is done is told so by the worker that holds its lease alone.
pub proof fn job_is_completed_by_its_worker(
    st: RunView,
    job_id: Uuid,
    worker_id: String,
)
    requires
        st.rest.len() > 0,
    ensures
        complete_owned_job_spec(
            st,
            job_id,
            worker_id,
        ).0 is Ok <==> st.rest[0] == script::Reply::Executed(Ok(1)),
        complete_owned_job_spec(st, job_id, worker_id).1.log == st.log.push(
            script::change(COMPLETE_JOB_SQL@, seq![Bind::Id(job_id), Bind::Text(worker_id)]),
        ),
{
}

/// A job that is done tells the access what it did: suspended, resumed, or with its candidate
/// credential in force in place of the one before.
#[verifier::rlimit(60)]
pub proof fn done_job_is_told(
    st: RunView,
    provider_id: Uuid,
    job_type: ProviderKafkaJobType,
)
    requires
        apply_job_spec(st, provider_id, job_type).0 is Ok,
    ensures
        ({
            let log = apply_job_spec(st, provider_id, job_type).1.log;
            &&& job_type is Suspend ==> log == st.log.push(
                script::change(SUSPENDED_SQL@, seq![Bind::Id(provider_id)]),
            )
            &&& job_type is Resume ==> log == st.log.push(
                script::change(RESUMED_SQL@, seq![Bind::Id(provider_id)]),
            )
            &&& (job_type is Provision || job_type is Rotate) ==> {
                &&& fetch_access_spec(
                    st,
                    provider_id,
                    CredentialSelection::Candidate,
                ).0 matches Ok(Some(candidate)) && candidate.credential_id is Some && script::ran(
                    log,
                    ACTIVATE_SQL@,
                    seq![Bind::Id(candidate.credential_id->Some_0)],
                )
                &&& script::ran(log, SUPERSEDE_SQL@, seq![Bind::Id(provider_id)])
            }
        }),
{
    broadcast use script::runs_on_with_another;

    reveal(map_credential_spec);
}

/// A credential is handed out only where the access is active or being rotated and where a
/// credential is in force, and each time it is handed out the reading is audited.
#[verifier::rlimit(60)]
pub proof fn credential_is_handed_out_with_evidence(
    st: RunView,
    provider_id: Uuid,
    audit_context: TrustedAuditContext,
)
    ensures
        ({
            let (result, after) = read_active_provider_kafka_credential_spec(
                st,
                provider_id,
                audit_context,
            );
            let (found, read) = fetch_access_spec(st, provider_id, CredentialSelection::Any);
            let current = fetch_access_spec(read, provider_id, CredentialSelection::Active).0;
            &&& (found matches Ok(None)) <==> result == Ok::<_, HaltView>(
                ProviderKafkaCredentialReadOutcome::NotConfigured,
            )
            &&& result matches Ok(ProviderKafkaCredentialReadOutcome::Available(active)) ==> {
                &&& found matches Ok(Some(access)) && (access.credential_status@ == "ACTIVE"@
                    || access.credential_status@ == "ROTATING"@)
                &&& current == Ok::<Option<ProviderKafkaAccessRecord>, HaltView>(Some(*active))
                &&& script::is_run_of(after.log.last(), audit::AUDIT_INSERT_SQL@)
            }
            &&& (found matches Ok(Some(access)) && access.credential_status@ != "ACTIVE"@
                && access.credential_status@ != "ROTATING"@) ==> result == Ok::<_, HaltView>(
                ProviderKafkaCredentialReadOutcome::NotReady,
            )
        }),
{
}

/// The version of a credential is the one that its row holds, where there is a row.
pub proof fn version_is_the_one_of_its_row(
    st: RunView,
    provider_id: Uuid,
    status: &'static str,
)
    ensures
        ({
            let found = script::maybe_row_spec(
                st,
                CREDENTIAL_VERSION_SQL@,
                seq![Bind::Id(provider_id), Bind::Label(status)],
                "i",
                QUERY@,
            ).0;
            let ended = fetch_credential_version_spec(st, provider_id, status).0;
            &&& (ended matches Ok(None)) <==> (found matches Ok(None))
            &&& ended matches Ok(
                Some(version),
            ) ==> (found matches Ok(Some(row)) && row.int_at(0, QUERY@)
                == Ok::<i64, HaltView>(version as i64) && version <= i64::MAX)
        }),
{
}

/// The next version is the one that the database counts.
pub proof fn next_version_is_the_counted_one(
    st: RunView,
    provider_id: Uuid,
)
    ensures
        ({
            let counted = script::one_int_spec(
                st,
                NEXT_VERSION_SQL@,
                seq![Bind::Id(provider_id)],
                QUERY@,
            ).0;
            let ended = next_provider_kafka_credential_version_spec(st, provider_id).0;
            &&& counted matches Ok(version) ==> (version >= 0 <==> ended is Ok)
            &&& ended matches Ok(next) ==> counted == Ok::<i64, HaltView>(next as i64)
                && next <= i64::MAX
        }),
{
}

/// A candidate that is offered is stored as it is, and without one nothing is stored.
pub proof fn offered_candidate_is_stored(
    st: RunView,
    provider_id: Uuid,
    access_id: Uuid,
    credential: Option<NewProviderKafkaCredential>,
)
    ensures
        ({
            let (ended, after) = store_candidate_spec(st, provider_id, access_id, credential);
            &&& credential is None ==> ended is Ok && after == st
            &&& credential matches Some(offered) ==> {
                &&& offered.credential_version > i64::MAX ==> ended is Err && after == st
                &&& ended is Ok ==> offered.credential_version <= i64::MAX
                    && after.log == st.log.push(
                    script::sql_call(
                        script::Mode::Execute,
                        INSERT_CREDENTIAL_SQL@,
                        seq![
                            Bind::Id(offered.provider_kafka_credential_id),
                            Bind::Id(access_id),
                            Bind::Id(provider_id),
                            Bind::Int(offered.credential_version as i64),
                            Bind::Text(offered.password_ciphertext),
                            Bind::Text(offered.encryption_key_version),
                        ],
                        "",
                    ),
                )
            }
        }),
{
}

/// A candidate is given up where the job was for one; a job that suspends or resumes has none.
pub proof fn candidate_is_given_up_with_its_job(
    st: RunView,
    provider_id: Uuid,
    job_type: ProviderKafkaJobType,
)
    ensures
        ({
            let (ended, after) = fail_candidate_spec(st, provider_id, job_type);
            &&& job_type is Suspend || job_type is Resume ==> ended is Ok && after == st
            &&& !(job_type is Suspend || job_type is Resume) && ended is Ok ==> after.log
                == st.log.push(
                script::sql_call(
                    script::Mode::Execute,
                    FAIL_CANDIDATE_SQL@,
                    seq![Bind::Id(provider_id)],
                    "",
                ),
            )
        }),
{
}

/// A candidate becomes the active credential only where exactly one is there to become so.
pub proof fn one_candidate_becomes_active(
    st: RunView,
    provider_id: Uuid,
    job_type: ProviderKafkaJobType,
)
    requires
        switch_credential_spec(st, provider_id, job_type).0 is Ok,
    ensures
        ({
            let (found, at) = fetch_access_spec(st, provider_id, CredentialSelection::Candidate);
            &&& found matches Ok(Some(access))
            &&& access.credential_id is Some
            &&& at.rest[1] == script::Reply::Executed(Ok(1))
        }),
{
}

/// A job is given up or put off only by the worker that holds it.
pub proof fn held_job_is_given_up_or_put_off(
    st: RunView,
    job_id: Uuid,
    provider_id: Uuid,
    job_type: ProviderKafkaJobType,
    worker_id: String,
    decision: ProviderKafkaRetryDecision,
)
    requires
        retry_or_fail_provider_kafka_job_spec(
            st,
            job_id,
            provider_id,
            job_type,
            worker_id,
            decision,
        ).0 is Ok,
    ensures
        st.rest[0] == script::Reply::Executed(Ok(1)),
{
}

/// Each value is read from its own column: the credential that a row holds.
#[verifier::rlimit(60)]
pub proof fn map_credential_is_read_by_column(
    row: Row,
)
    ensures
        map_credential_spec(row) matches Ok(read) ==> {
            &&& read.credential_id == row.id_at(0, READ_ROW@)->Ok_0
            &&& read.password_ciphertext == row.text_at(1, READ_ROW@)->Ok_0
            &&& read.encryption_key_version == row.text_at(2, READ_ROW@)->Ok_0
            &&& read.credential_version == (row.int_at(3, READ_ROW@)->Ok_0 as u64)
        },
{
    reveal(map_credential_spec);
}

/// What is asked first, and with which values, in a run that does this:
/// the version of the credential of a provider that has a status, where there is one.
pub proof fn fetch_credential_version_asks_first(
    st: RunView,
    provider_id: Uuid,
    status: &'static str,
)
    requires
        st.rest.len() == 0,
    ensures
        fetch_credential_version_spec(st, provider_id, status).0 matches Err(HaltView::Ask(asked))
            && (
                asked matches script::CallView::Sql { sql, binds, .. }
                    && sql == CREDENTIAL_VERSION_SQL@
                    && binds == seq![Bind::Id(provider_id), Bind::Label(status)]
            ),
{
}

/// What is asked first, and with which values, in a run that does this:
/// the latest job of a provider, where there is one.
pub proof fn fetch_latest_job_asks_first(
    st: RunView,
    provider_id: Uuid,
)
    requires
        st.rest.len() == 0,
    ensures
        fetch_latest_job_spec(st, provider_id).0 matches Err(HaltView::Ask(asked))
            && (
                asked matches script::CallView::Sql { sql, binds, .. } && sql == LATEST_JOB_SQL@
                    && binds == seq![Bind::Id(provider_id)]
            ),
{
}

/// Each value is read from its own column: the latest job of a provider, where there is one.
#[verifier::rlimit(60)]
pub proof fn fetch_latest_job_is_read_by_column(
    st: RunView,
    provider_id: Uuid,
)
    ensures
        fetch_latest_job_spec(st, provider_id).0 matches Ok(Some(read)) ==> {
            &&& read.operation_id == st.rest[0]->Rows_0.rows@[0].id_at(0, READ_ROW@)->Ok_0
            &&& read.operation_type == st.rest[0]->Rows_0.rows@[0].text_at(1, READ_ROW@)->Ok_0
            &&& read.status == st.rest[0]->Rows_0.rows@[0].text_at(2, READ_ROW@)->Ok_0
            &&& read.error_code == st.rest[0]->Rows_0.rows@[0].opt_text_at(4, READ_ROW@)->Ok_0
        },
{
}

/// What is asked first, and with which values, in a run that does this:
/// how far the access of a provider is, where it has one.
pub proof fn get_provider_kafka_status_asks_first(
    st: RunView,
    provider_id: Uuid,
)
    requires
        st.rest.len() == 0,
    ensures
        get_provider_kafka_status_spec(st, provider_id).0 matches Err(HaltView::Ask(asked))
            && (
                asked matches script::CallView::Sql { sql, binds, .. } && sql == ACCESS_STATUS_SQL@
                    && binds == seq![Bind::Id(provider_id)]
            ),
{
}

/// What is asked first, and with which values, in a run that does this:
/// the version that the next credential of a provider gets.
pub proof fn next_provider_kafka_credential_version_asks_first(
    st: RunView,
    provider_id: Uuid,
)
    requires
        st.rest.len() == 0,
    ensures
        next_provider_kafka_credential_version_spec(st, provider_id).0 matches Err(
            HaltView::Ask(asked),
        )
            && (
                asked matches script::CallView::Sql { sql, binds, .. } && sql == NEXT_VERSION_SQL@
                    && binds == seq![Bind::Id(provider_id)]
            ),
{
}

/// What the database is told, and with which values, where a run succeeds that does this:
/// starts the job of a command on a locked access.
#[verifier::rlimit(60)]
pub proof fn start_command_is_told(
    st: RunView,
    context: MutationCommandContext,
    provider_id: Uuid,
    action: ProviderKafkaCommandAction,
    credential: Option<NewProviderKafkaCredential>,
    reason: String,
    access_id: Uuid,
    previous: ProviderKafkaAccessRecord,
)
    ensures
        ({
            let (ended, after) = start_command_spec(
                st,
                context,
                provider_id,
                action,
                credential,
                reason,
                access_id,
                previous,
            );
            let log = after.log;
            ended is Ok ==> {
                &&& script::ran(
                    log,
                    SET_STATUS_SQL@,
                    seq![Bind::Label(working_status(action)), Bind::Id(provider_id)],
                )
                &&& script::told_where(
                    log,
                    INSERT_JOB_SQL@,
                    |b: Seq<Bind>| b.len() == 3 && b[1] == Bind::Id(provider_id)
                        && b[2] == Bind::Label(job_of(action).code()),
                ) > 0
            }
        }),
{
    broadcast use {script::runs_on_with_another, script::told_where_with_another};

    reveal(start_command_spec);
}

/// Each value is read from its own column: the job that a row holds.
#[verifier::rlimit(60)]
pub proof fn map_job_is_read_by_column(
    row: Row,
)
    ensures
        map_job_spec(row) matches Ok(read) ==> {
            &&& read.job_id == row.id_at(0, READ_ROW@)->Ok_0
            &&& read.provider_id == row.id_at(1, READ_ROW@)->Ok_0
            &&& read.job_type == (
                ProviderKafkaJobType::of_code(row.text_at(2, READ_ROW@)->Ok_0@)
            )->Some_0
        },
{
    reveal(map_job_spec);
}

/// What is asked first, and with which values, in a run that does this:
/// leases a job to a worker.
pub proof fn lease_job_asks_first(
    st: RunView,
    job: ClaimedProviderKafkaJob,
    worker_id: String,
    lease_duration_ms: u64,
)
    requires
        st.rest.len() == 0,
    ensures
        lease_job_spec(st, job, worker_id, lease_duration_ms).0 matches Err(HaltView::Ask(asked))
            && (
                asked matches script::CallView::Sql { sql, binds, .. } && sql == LEASE_SQL@
                    && binds == seq![
                        Bind::Text(worker_id),
                        Bind::Int(lease_duration_ms as i64),
                        Bind::Id(job.job_id),
                    ]
            ),
{
}

/// Exactly one row is touched where a run succeeds that does this:
/// leases a job to a worker.
pub proof fn lease_job_touches_one_row(
    st: RunView,
    job: ClaimedProviderKafkaJob,
    worker_id: String,
    lease_duration_ms: u64,
)
    requires
        lease_job_spec(st, job, worker_id, lease_duration_ms).0 is Ok,
    ensures
        st.rest[0] == script::Reply::Executed(Ok(1)),
{
}

/// What the database is told, and with which values, where a run succeeds that does this:
/// leases a job to a worker.
#[verifier::rlimit(60)]
pub proof fn lease_job_is_told(
    st: RunView,
    job: ClaimedProviderKafkaJob,
    worker_id: String,
    lease_duration_ms: u64,
)
    ensures
        ({
            let (ended, after) = lease_job_spec(st, job, worker_id, lease_duration_ms);
            let log = after.log;
            ended is Ok ==> {
                &&& script::ran(
                    log,
                    LEASE_SQL@,
                    seq![
                        Bind::Text(worker_id),
                        Bind::Int(lease_duration_ms as i64),
                        Bind::Id(job.job_id),
                    ],
                )
            }
        }),
{
    broadcast use {script::runs_on_with_another, script::told_where_with_another};

}

/// What is asked first, and with which values, in a run that does this:
/// leases due jobs to a worker, at most a batch of them, after the leases that ran out are
/// released.
pub proof fn claim_provider_kafka_jobs_asks_first(
    st: RunView,
    worker_id: String,
    batch_size: u16,
    lease_duration_ms: u64,
)
    requires
        st.rest.len() == 0,
    ensures
        claim_provider_kafka_jobs_spec(
            st,
            worker_id,
            batch_size,
            lease_duration_ms,
        ).0 matches Err(HaltView::Ask(asked))
            && (
                asked matches script::CallView::Sql { sql, binds, .. } && sql == RELEASE_SQL@
                    && binds == Seq::<Bind>::empty()
            ),
{
}

/// What is asked first, and with which values, in a run that does this:
/// completes a job that is leased to a worker.
pub proof fn complete_owned_job_asks_first(
    st: RunView,
    job_id: Uuid,
    worker_id: String,
)
    requires
        st.rest.len() == 0,
    ensures
        complete_owned_job_spec(st, job_id, worker_id).0 matches Err(HaltView::Ask(asked))
            && (
                asked matches script::CallView::Sql { sql, binds, .. } && sql == COMPLETE_JOB_SQL@
                    && binds == seq![Bind::Id(job_id), Bind::Text(worker_id)]
            ),
{
}

/// Exactly one row is touched where a run succeeds that does this:
/// completes a job that is leased to a worker.
pub proof fn complete_owned_job_touches_one_row(
    st: RunView,
    job_id: Uuid,
    worker_id: String,
)
    requires
        complete_owned_job_spec(st, job_id, worker_id).0 is Ok,
    ensures
        st.rest[0] == script::Reply::Executed(Ok(1)),
{
}

/// What the database is told, and with which values, where a run succeeds that does this:
/// completes a job that is leased to a worker.
#[verifier::rlimit(60)]
pub proof fn complete_owned_job_is_told(
    st: RunView,
    job_id: Uuid,
    worker_id: String,
)
    ensures
        ({
            let (ended, after) = complete_owned_job_spec(st, job_id, worker_id);
            let log = after.log;
            ended is Ok ==> {
                &&& script::ran(
                    log,
                    COMPLETE_JOB_SQL@,
                    seq![Bind::Id(job_id), Bind::Text(worker_id)],
                )
            }
        }),
{
    broadcast use {script::runs_on_with_another, script::told_where_with_another};

}

/// What the database is told, and with which values, where a run succeeds that does this:
/// makes the candidate credential of a provider the active one.
#[verifier::rlimit(60)]
pub proof fn switch_credential_is_told(
    st: RunView,
    provider_id: Uuid,
    job_type: ProviderKafkaJobType,
)
    ensures
        ({
            let (ended, after) = switch_credential_spec(st, provider_id, job_type);
            let log = after.log;
            ended is Ok ==> {
                &&& script::ran(log, SUPERSEDE_SQL@, seq![Bind::Id(provider_id)])
                &&& script::ran(
                    log,
                    ACCESS_ACTIVE_SQL@,
                    seq![Bind::Label(job_type.code()), Bind::Id(provider_id)],
                )
            }
        }),
{
    broadcast use {script::runs_on_with_another, script::told_where_with_another};

}

} // verus!
