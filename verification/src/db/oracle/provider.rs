//! Providers.
use vstd::prelude::*;
use crate::db::oracle::audit;
use crate::db::oracle::binds;
use crate::db::oracle::consult::Rule;
use crate::db::oracle::document::{Document, Snapshot};
use crate::db::oracle::idempotency;
use crate::db::oracle::idempotency::IdempotencyVerdict;
use crate::db::oracle::repository::OracleRepository;
use crate::db::oracle::script;
use crate::db::oracle::script::{Bind, Halt, HaltView, Row, RunView, Session};
use crate::domain::audit::AuditAction;
use crate::domain::command::MutationCommandContext;
use crate::domain::copied;
use crate::domain::idempotency::IdempotencyRecord;
use crate::domain::page;
use crate::domain::page::Page;
use crate::domain::provider::{
    NewProvider, Provider, ProviderAccountCategory, ProviderContact,
    ProviderKafkaProvisioningStatus, ProviderListCursor, ProviderListItem, ProviderListPage,
    ProviderListQuery, ProviderStatus,
};
use crate::domain::provider_event::ProviderEventCatalog;
use crate::json;
use crate::text;
use crate::time::UtcTime;
use crate::uuid::Uuid;

verus! {

/// The context of a column that cannot be read.
pub const READ_ROW: &'static str = "failed to read Oracle provider row";

/// Lists the ledger accounts of a provider.
pub const LEDGER_MAPPINGS_SQL: &'static str = "SELECT account_category,tigerbeetle_account_id,status FROM provider_ledger_accounts WHERE provider_id=:1 ORDER BY account_category";

/// Activates the ledger accounts of a provider.
pub const ACTIVATE_MAPPINGS_SQL: &'static str = "UPDATE provider_ledger_accounts SET status='ACTIVE',updated_at=SYSTIMESTAMP WHERE provider_id=:1 AND status='PROVISIONING'";

/// Completes the core provisioning of a provider.
pub const COMPLETE_JOB_SQL: &'static str = "UPDATE provider_provisioning_jobs SET status='SUCCEEDED',completed_at=SYSTIMESTAMP,updated_at=SYSTIMESTAMP,error_code=NULL,error_message=NULL WHERE provider_id=:1 AND job_type='TIGERBEETLE_PROVISION'";

/// Marks a provider as ready.
pub const MARK_READY_SQL: &'static str = "UPDATE providers SET status='READY',updated_at=SYSTIMESTAMP WHERE provider_id=:1 AND status='PENDING_PROVISIONING'";

/// Refreshes the answer that the creation of a provider is replayed with.
pub const REFRESH_SNAPSHOT_SQL: &'static str = "UPDATE idempotency_records SET response_snapshot=:1,updated_at=SYSTIMESTAMP WHERE resource_type='provider' AND resource_id=:2 AND status='COMPLETED'";

/// Stores a provider.
pub const INSERT_PROVIDER_SQL: &'static str = "INSERT INTO providers (provider_id,legal_name,trade_name,tax_id,registration_number,email_address,website_url,mailing_address,status,metadata_json,created_by_subject,updated_by_subject) VALUES (:1,:2,:3,:4,:5,:6,:7,:8,'PENDING_PROVISIONING',:9,:10,:10)";

/// Stores a contact of a provider.
pub const INSERT_CONTACT_SQL: &'static str = "INSERT INTO provider_contacts (provider_contact_id,provider_id,contact_type,contact_name,email,phone,mobile,sms_enabled,metadata_json,status,created_by_subject,updated_by_subject) VALUES (:1,:2,:3,:4,:5,:6,:7,:8,:9,'ACTIVE',:10,:10)";

/// Stores the operational profile that a provider begins with.
pub const OPERATIONAL_PROFILE_INSERT_SQL: &'static str = r#"INSERT INTO provider_operational_profiles (provider_operational_profile_id,provider_id,status,version,effective_at,profile_json,created_by_subject,updated_by_subject,change_reason,activated_at) VALUES (:1,:2,CASE WHEN TO_TIMESTAMP_TZ(:3,'YYYY-MM-DD"T"HH24:MI:SS.FFTZH:TZM')<=SYSTIMESTAMP THEN 'ACTIVE' ELSE 'SCHEDULED' END,1,TO_TIMESTAMP_TZ(:4,'YYYY-MM-DD"T"HH24:MI:SS.FFTZH:TZM'),:5,:6,:7,:8,CASE WHEN TO_TIMESTAMP_TZ(:9,'YYYY-MM-DD"T"HH24:MI:SS.FFTZH:TZM')<=SYSTIMESTAMP THEN SYSTIMESTAMP ELSE NULL END)"#;

/// Stores a ledger account of a provider.
pub const INSERT_MAPPING_SQL: &'static str = "INSERT INTO provider_ledger_accounts (provider_ledger_account_id,provider_id,account_category,tigerbeetle_account_id,status) VALUES (:1,:2,:3,:4,'PROVISIONING')";

/// Stores the message broker access of a provider.
pub const INSERT_KAFKA_ACCESS_SQL: &'static str = "INSERT INTO provider_kafka_access (provider_kafka_access_id,provider_id,topic_name,username,consumer_group,security_protocol,sasl_mechanism,bootstrap_servers_json,credential_status) VALUES (:1,:2,:3,:4,:5,:6,:7,:8,'PROVISIONING')";

/// Stores a credential for the message broker.
pub const INSERT_KAFKA_CREDENTIAL_SQL: &'static str = "INSERT INTO provider_kafka_credentials (provider_kafka_credential_id,provider_kafka_access_id,provider_id,credential_version,password_ciphertext,encryption_key_version,status) VALUES (:1,:2,:3,:4,:5,:6,'CANDIDATE')";

/// Stores an event subscription of a provider.
pub const SEED_SUBSCRIPTION_SQL: &'static str = "INSERT INTO provider_event_subscriptions (provider_event_subscription_id,provider_id,event_type,enabled,version,updated_by_subject,reason) VALUES (:1,:2,:3,0,1,:4,'disabled by default during provider onboarding')";

/// Stores a provisioning job.
pub const INSERT_JOB_SQL: &'static str = "INSERT INTO provider_provisioning_jobs (provider_provisioning_job_id,provider_id,job_type,status,request_json,result_json) VALUES (:1,:2,:3,'PENDING',:4,'{}')";

/// Reads a provider.
pub const PROVIDER_SELECT_SQL: &'static str = r#"SELECT provider_id,legal_name,trade_name,tax_id,registration_number,email_address,website_url,mailing_address,status,JSON_SERIALIZE(metadata_json RETURNING CLOB),TO_CHAR(SYS_EXTRACT_UTC(created_at),'YYYY-MM-DD"T"HH24:MI:SS.FF3"Z"'),TO_CHAR(SYS_EXTRACT_UTC(updated_at),'YYYY-MM-DD"T"HH24:MI:SS.FF3"Z"') FROM providers WHERE provider_id=:1"#;

/// Lists providers, newest first.
pub const PROVIDER_LIST_SQL: &'static str = r#"
    SELECT provider_id, legal_name, trade_name, tax_id, status,
           TO_CHAR(SYS_EXTRACT_UTC(created_at),'YYYY-MM-DD"T"HH24:MI:SS.FF3"Z"'),
           TO_CHAR(SYS_EXTRACT_UTC(updated_at),'YYYY-MM-DD"T"HH24:MI:SS.FF3"Z"')
    FROM providers
    WHERE (:status IS NULL OR status = :status)
      AND (:tax_id IS NULL OR tax_id = :tax_id)
      AND (
          :cursor_created_at IS NULL
          OR SYS_EXTRACT_UTC(created_at) < TO_TIMESTAMP(:cursor_created_at, 'YYYY-MM-DD"T"HH24:MI:SS.FF3"Z"')
          OR (
              SYS_EXTRACT_UTC(created_at) = TO_TIMESTAMP(:cursor_created_at, 'YYYY-MM-DD"T"HH24:MI:SS.FF3"Z"')
              AND provider_id < :cursor_id
          )
      )
    ORDER BY created_at DESC, provider_id DESC
    FETCH FIRST :fetch_limit ROWS ONLY
    "#;

/// Counts the message broker jobs of a provider that are not done.
pub const PENDING_KAFKA_SQL: &'static str = "SELECT COUNT(*) FROM provider_provisioning_jobs WHERE provider_id=:1 AND job_type IN ('KAFKA_PROVISION','KAFKA_ROTATE','KAFKA_SUSPEND','KAFKA_RESUME') AND status IN ('PENDING','RUNNING')";

/// Reads the status of the message broker access of a provider.
pub const KAFKA_STATUS_SQL: &'static str = "SELECT credential_status FROM provider_kafka_access WHERE provider_id=:1";

/// Reads a provider.
pub fn provider_select_sql() -> (r: &'static str)
    ensures
        r == PROVIDER_SELECT_SQL,
{
    PROVIDER_SELECT_SQL
}

/// Lists providers, newest first.
pub fn provider_list_sql() -> (r: &'static str)
    ensures
        r == PROVIDER_LIST_SQL,
{
    PROVIDER_LIST_SQL
}

/// Stores the operational profile that a provider begins with.
pub fn operational_profile_insert_sql() -> (r: &'static str)
    ensures
        r == OPERATIONAL_PROFILE_INSERT_SQL,
{
    OPERATIONAL_PROFILE_INSERT_SQL
}

/// The names of the values that select providers.
pub const PROVIDER_LIST_BINDS: &'static str = "status,tax_id,cursor_created_at,cursor_id,fetch_limit";

/// What the columns of a provider hold.
pub const PROVIDER_COLUMNS: &'static str = "rttTTTTTtttt";

/// What became of a provider that was to be created. A replayed answer is a JSON document.
#[derive(Debug)]
pub enum CreateProviderPersistenceOutcome {
    Created(Box<Provider>),
    Replayed(String),
    IdempotencyConflict,
    IdempotencyInProgress,
    IdempotencyInvalidState,
}

/// A ledger account of a provider. `status` is a database value.
#[derive(Debug)]
pub struct ProviderLedgerAccountMapping {
    pub category: ProviderAccountCategory,
    pub tigerbeetle_account_id: Uuid,
    pub status: String,
}

/// What a stored record means for the creation of a provider.
pub open spec fn creation_verdict(verdict: IdempotencyVerdict) -> CreateProviderPersistenceOutcome {
    match verdict {
        IdempotencyVerdict::Conflict => CreateProviderPersistenceOutcome::IdempotencyConflict,
        IdempotencyVerdict::Replay(snapshot) => {
            CreateProviderPersistenceOutcome::Replayed(snapshot)
        },
        IdempotencyVerdict::InProgress => CreateProviderPersistenceOutcome::IdempotencyInProgress,
        IdempotencyVerdict::InvalidState => {
            CreateProviderPersistenceOutcome::IdempotencyInvalidState
        },
    }
}

/// What a stored record means for the creation of a provider with this request hash.
pub fn classify_idempotency(
    existing: &IdempotencyRecord,
    request_hash: &String,
) -> (r: CreateProviderPersistenceOutcome)
    ensures
        r == creation_verdict(idempotency::idempotency_verdict(*existing, *request_hash)),
{
    match idempotency::judge_idempotency(existing, request_hash) {
        IdempotencyVerdict::Conflict => CreateProviderPersistenceOutcome::IdempotencyConflict,
        IdempotencyVerdict::Replay(snapshot) => {
            CreateProviderPersistenceOutcome::Replayed(snapshot)
        },
        IdempotencyVerdict::InProgress => CreateProviderPersistenceOutcome::IdempotencyInProgress,
        IdempotencyVerdict::InvalidState => {
            CreateProviderPersistenceOutcome::IdempotencyInvalidState
        },
    }
}

/// How far the message broker access of a provider is: pending while a job is open, and otherwise
/// by its credentials, where it has any.
pub open spec fn provider_kafka_status_spec(
    st: RunView,
    provider_id: Uuid,
) -> (Result<ProviderKafkaProvisioningStatus, HaltView>, RunView) {
    match script::one_int_spec(
        st,
        PENDING_KAFKA_SQL@,
        seq![Bind::Id(provider_id)],
        "failed to count pending Provider Kafka jobs"@,
    ) { (Err(h), st) => (Err(h), st), (Ok(pending), st) =>
    if pending > 0 {
        (Ok(ProviderKafkaProvisioningStatus::Pending), st)
    } else {
    match script::maybe_text_spec(
        st,
        KAFKA_STATUS_SQL@,
        seq![Bind::Id(provider_id)],
        "failed to read Provider Kafka provisioning status"@,
    ) { (Err(h), st) => (Err(h), st), (Ok(status), st) =>
    match status {
    None => {
        (Ok(ProviderKafkaProvisioningStatus::Disabled), st)
    },
    Some(credential) =>
    if credential@ == "FAILED"@ {
        (Ok(ProviderKafkaProvisioningStatus::Failed), st)
    } else {
    (Ok(ProviderKafkaProvisioningStatus::Succeeded), st)
    }}}}}
}

/// How far the message broker access of a provider is: pending while a job is open, and otherwise
/// by its credentials, where it has any.
pub fn provider_kafka_status(
    s: &mut Session,
    provider_id: Uuid,
) -> (r: Result<ProviderKafkaProvisioningStatus, Halt>)
    ensures
        (script::seen(r), final(s)@) == provider_kafka_status_spec(old(s)@, provider_id),
{
    let pending = script::one_int(
        s,
        PENDING_KAFKA_SQL,
        binds::binds1(Bind::Id(provider_id)),
        "failed to count pending Provider Kafka jobs",
    )?;
    if pending > 0 {
        return Ok(ProviderKafkaProvisioningStatus::Pending);
    }
    let status = script::maybe_text(
        s,
        KAFKA_STATUS_SQL,
        binds::binds1(Bind::Id(provider_id)),
        "failed to read Provider Kafka provisioning status",
    )?;
    let credential = match &status {
        Some(v) => v,
        None => {
            return Ok(ProviderKafkaProvisioningStatus::Disabled);
        },
    };
    if text::same_text(credential.as_str(), "FAILED") {
        return Ok(ProviderKafkaProvisioningStatus::Failed);
    }
    Ok(ProviderKafkaProvisioningStatus::Succeeded)
}

/// The provider that a row holds.
#[verifier::opaque]
pub open spec fn map_provider_row_spec(
    row: Row,
    kafka_provisioning_status: ProviderKafkaProvisioningStatus,
) -> Result<Provider, HaltView> {
    match row.raw_at(0, READ_ROW@) { Err(h) => Err(h), Ok(provider_raw) =>
    match row.text_at(8, READ_ROW@) { Err(h) => Err(h), Ok(status_text) =>
    match row.text_at(9, READ_ROW@) { Err(h) => Err(h), Ok(metadata) =>
    match row.text_at(10, READ_ROW@) { Err(h) => Err(h), Ok(created_text) =>
    match row.text_at(11, READ_ROW@) { Err(h) => Err(h), Ok(updated_text) =>
    match script::id_of(provider_raw@) { Err(h) => Err(h), Ok(provider_id) =>
    match row.text_at(1, READ_ROW@) { Err(h) => Err(h), Ok(legal_name) =>
    match row.text_at(2, READ_ROW@) { Err(h) => Err(h), Ok(trade_name) =>
    match row.opt_text_at(3, READ_ROW@) { Err(h) => Err(h), Ok(tax_id) =>
    match row.opt_text_at(4, READ_ROW@) { Err(h) => Err(h), Ok(registration_number) =>
    match row.opt_text_at(5, READ_ROW@) { Err(h) => Err(h), Ok(email_address) =>
    match row.opt_text_at(6, READ_ROW@) { Err(h) => Err(h), Ok(website_url) =>
    match row.opt_text_at(7, READ_ROW@) { Err(h) => Err(h), Ok(mailing_address) =>
    match ProviderStatus::of_code(status_text@) {
    None => {
        script::query_fault("unknown provider status"@)
    },
    Some(status) =>
    match json::json_reading_fault(
        metadata@,
    ) { Some(e) => script::failed("invalid provider metadata"@, e), None =>
    match script::time_of(
        created_text@,
        "invalid provider timestamp"@,
    ) { Err(h) => Err(h), Ok(created_at) =>
    match script::time_of(
        updated_text@,
        "invalid provider timestamp"@,
    ) { Err(h) => Err(h), Ok(updated_at) =>
    Ok(Provider {
        provider_id,
        legal_name,
        trade_name,
        tax_id,
        registration_number,
        email_address,
        website_url,
        mailing_address,
        status,
        metadata,
        created_at,
        updated_at,
        kafka_provisioning_status,
    })
    }}}}}}}}}}}}}}}}}
}

/// The provider that a row holds.
pub fn map_provider_row(
    row: &Row,
    kafka_provisioning_status: ProviderKafkaProvisioningStatus,
) -> (r: Result<Provider, Halt>)
    ensures
        script::seen(r) == map_provider_row_spec(*row, kafka_provisioning_status),
{
    proof {
        reveal(map_provider_row_spec);
    }
    let provider_raw = row.raw(0, READ_ROW)?;
    let status_text = row.text(8, READ_ROW)?;
    let metadata = row.text(9, READ_ROW)?;
    let created_text = row.text(10, READ_ROW)?;
    let updated_text = row.text(11, READ_ROW)?;
    let provider_id = script::to_id(provider_raw)?;
    let legal_name = row.text(1, READ_ROW)?;
    let trade_name = row.text(2, READ_ROW)?;
    let tax_id = row.opt_text(3, READ_ROW)?;
    let registration_number = row.opt_text(4, READ_ROW)?;
    let email_address = row.opt_text(5, READ_ROW)?;
    let website_url = row.opt_text(6, READ_ROW)?;
    let mailing_address = row.opt_text(7, READ_ROW)?;
    let status = match ProviderStatus::from_db_value(status_text.as_str()) {
        Some(v) => v,
        None => {
            return Err(script::fail_query("unknown provider status"));
        },
    };
    match json::reading_fault(metadata.as_str()) {
        Some(e) => {
            return Err(script::fail_because("invalid provider metadata", e.as_str()));
        },
        None => {},
    }
    let created_at = script::to_time(created_text.as_str(), "invalid provider timestamp")?;
    let updated_at = script::to_time(updated_text.as_str(), "invalid provider timestamp")?;
    Ok(Provider {
        provider_id,
        legal_name,
        trade_name,
        tax_id,
        registration_number,
        email_address,
        website_url,
        mailing_address,
        status,
        metadata,
        created_at,
        updated_at,
        kafka_provisioning_status,
    })
}

/// Reads a provider that is stored.
pub open spec fn fetch_provider_spec(
    st: RunView,
    provider_id: Uuid,
) -> (Result<Provider, HaltView>, RunView) {
    match script::one_row_spec(
        st,
        PROVIDER_SELECT_SQL@,
        seq![Bind::Id(provider_id)],
        PROVIDER_COLUMNS,
        "failed to fetch provider"@,
    ) { (Err(h), st) => (Err(h), st), (Ok(row), st) =>
    match provider_kafka_status_spec(
        st,
        provider_id,
    ) { (Err(h), st) => (Err(h), st), (Ok(kafka_status), st) =>
    (map_provider_row_spec(row, kafka_status), st)
    }}
}

/// Reads a provider that is stored.
pub fn fetch_provider(s: &mut Session, provider_id: Uuid) -> (r: Result<Provider, Halt>)
    ensures
        (script::seen(r), final(s)@) == fetch_provider_spec(old(s)@, provider_id),
{
    let row = script::one_row(
        s,
        PROVIDER_SELECT_SQL,
        binds::binds1(Bind::Id(provider_id)),
        PROVIDER_COLUMNS,
        "failed to fetch provider",
    )?;
    let kafka_status = provider_kafka_status(s, provider_id)?;
    map_provider_row(row, kafka_status)
}

/// Reads the provider that a command works on.
pub open spec fn fetch_provider_for_command_spec(
    st: RunView,
    provider_id: Uuid,
) -> (Result<Provider, HaltView>, RunView) {
    fetch_provider_spec(st, provider_id)
}

/// Reads the provider that a command works on.
pub fn fetch_provider_for_command(s: &mut Session, provider_id: Uuid) -> (r: Result<Provider, Halt>)
    ensures
        (script::seen(r), final(s)@) == fetch_provider_for_command_spec(old(s)@, provider_id),
{
    fetch_provider(s, provider_id)
}

/// Stores a provider.
pub open spec fn insert_provider_spec(
    st: RunView,
    provider: NewProvider,
    actor_subject: String,
) -> (Result<(), HaltView>, RunView) {
    match script::execute_spec(
        st,
        INSERT_PROVIDER_SQL@,
        seq![
            Bind::Id(provider.provider_id),
            Bind::Text(provider.legal_name),
            Bind::Text(provider.trade_name),
            Bind::OptText(provider.tax_id),
            Bind::OptText(provider.registration_number),
            Bind::OptText(provider.email_address),
            Bind::OptText(provider.website_url),
            Bind::OptText(provider.mailing_address),
            Bind::JsonText(provider.metadata),
            Bind::Text(actor_subject),
        ],
        "failed to insert provider"@,
    ) { (Err(h), st) => (Err(h), st), (Ok(_), st) =>
    (Ok(()), st)
    }
}

/// Stores a provider.
pub fn insert_provider(
    s: &mut Session,
    provider: &NewProvider,
    actor_subject: &String,
) -> (r: Result<(), Halt>)
    ensures
        (script::seen(r), final(s)@) == insert_provider_spec(old(s)@, *provider, *actor_subject),
{
    script::execute(
        s,
        INSERT_PROVIDER_SQL,
        binds::binds10(
            Bind::Id(provider.provider_id),
            Bind::Text(provider.legal_name.clone()),
            Bind::Text(provider.trade_name.clone()),
            Bind::OptText(copied(&provider.tax_id)),
            Bind::OptText(copied(&provider.registration_number)),
            Bind::OptText(copied(&provider.email_address)),
            Bind::OptText(copied(&provider.website_url)),
            Bind::OptText(copied(&provider.mailing_address)),
            Bind::JsonText(provider.metadata.clone()),
            Bind::Text(actor_subject.clone()),
        ),
        "failed to insert provider",
    )?;
    Ok(())
}

/// Stores a contact of a provider.
pub open spec fn insert_contact_spec(
    st: RunView,
    contact: ProviderContact,
    provider_id: Uuid,
    actor_subject: String,
) -> (Result<(), HaltView>, RunView) {
    match script::execute_spec(
        st,
        INSERT_CONTACT_SQL@,
        seq![
            Bind::Id(contact.provider_contact_id),
            Bind::Id(provider_id),
            Bind::Text(contact.contact_type),
            Bind::OptText(contact.name),
            Bind::OptText(contact.email),
            Bind::OptText(contact.phone),
            Bind::OptText(contact.mobile),
            Bind::Flag(contact.sms_enabled),
            Bind::JsonText(contact.metadata),
            Bind::Text(actor_subject),
        ],
        "failed to insert provider contact"@,
    ) { (Err(h), st) => (Err(h), st), (Ok(_), st) =>
    (Ok(()), st)
    }
}

/// Stores a contact of a provider.
pub fn insert_contact(
    s: &mut Session,
    contact: &ProviderContact,
    provider_id: Uuid,
    actor_subject: &String,
) -> (r: Result<(), Halt>)
    ensures
        (script::seen(r), final(s)@) == insert_contact_spec(
            old(s)@,
            *contact,
            provider_id,
            *actor_subject,
        ),
{
    script::execute(
        s,
        INSERT_CONTACT_SQL,
        binds::binds10(
            Bind::Id(contact.provider_contact_id),
            Bind::Id(provider_id),
            Bind::Text(contact.contact_type.clone()),
            Bind::OptText(copied(&contact.name)),
            Bind::OptText(copied(&contact.email)),
            Bind::OptText(copied(&contact.phone)),
            Bind::OptText(copied(&contact.mobile)),
            Bind::Flag(contact.sms_enabled),
            Bind::JsonText(contact.metadata.clone()),
            Bind::Text(actor_subject.clone()),
        ),
        "failed to insert provider contact",
    )?;
    Ok(())
}

/// Stores the contacts of a provider in turn.
pub open spec fn insert_contacts_spec(
    st: RunView,
    contacts: Seq<ProviderContact>,
    i: nat,
    provider_id: Uuid,
    actor_subject: String,
) -> (Result<(), HaltView>, RunView)
    decreases contacts.len() - i,
{
    if i >= contacts.len() {
        (Ok(()), st)
    } else {
        match insert_contact_spec(st, contacts[i as int], provider_id, actor_subject) {
            (Err(h), st) => (Err(h), st), (Ok(_), st) => insert_contacts_spec(
                st,
                contacts,
                i + 1,
                provider_id,
                actor_subject,
            )
        }
    }
}

/// Stores the contacts of a provider in turn.
pub fn insert_contacts(
    s: &mut Session,
    contacts: &Vec<ProviderContact>,
    provider_id: Uuid,
    actor_subject: &String,
) -> (r: Result<(), Halt>)
    ensures
        (script::seen(r), final(s)@) == insert_contacts_spec(
            old(s)@,
            contacts@,
            0,
            provider_id,
            *actor_subject,
        ),
{
    let mut i: usize = 0;
    while i < contacts.len()
        invariant
            i <= contacts@.len(),
            insert_contacts_spec(old(s)@, contacts@, 0, provider_id, *actor_subject) == insert_contacts_spec(
                s@,
                contacts@,
                i as nat,
                provider_id,
                *actor_subject,
            ),
        decreases contacts@.len() - i,
    {
        insert_contact(s, &contacts[i], provider_id, actor_subject)?;
        i = i + 1;
    }
    Ok(())
}

/// Each is taken in its turn, after those before it, and the first that fails ends the run.
pub proof fn insert_contacts_go_in_turn(
    st: RunView,
    contacts: Seq<ProviderContact>,
    i: nat,
    provider_id: Uuid,
    actor_subject: String,
)
    ensures
        ({
            let whole = insert_contacts_spec(st, contacts, i, provider_id, actor_subject);
            let (next, at) = insert_contact_spec(
                st,
                contacts[i as int],
                provider_id,
                actor_subject,
            );
            &&& i >= contacts.len() ==> whole == (Ok::<_, HaltView>(()), st)
            &&& i < contacts.len() ==> match next {
                Ok(_) => {
                    whole == insert_contacts_spec(at, contacts, i + 1, provider_id, actor_subject)
                },
                Err(halt) => whole.0 == Err::<(), _>(halt) && whole.1 == at,
            }
        }),
{
}

/// Stores the operational profile that a provider begins with.
pub open spec fn insert_operational_profile_spec(
    st: RunView,
    provider: NewProvider,
    actor_subject: String,
) -> (Result<(), HaltView>, RunView) {
    match script::fresh_id_spec(st) { (Err(h), st) => (Err(h), st), (Ok(profile_id), st) =>
    match script::execute_spec(
        st,
        OPERATIONAL_PROFILE_INSERT_SQL@,
        seq![
            Bind::Id(profile_id),
            Bind::Id(provider.provider_id),
            Bind::Rfc3339Time(provider.operational_profile.effective_at),
            Bind::Rfc3339Time(provider.operational_profile.effective_at),
            Bind::Text(provider.operational_profile.controls),
            Bind::Text(actor_subject),
            Bind::Text(actor_subject),
            Bind::Label("initial provider operational profile"),
            Bind::Rfc3339Time(provider.operational_profile.effective_at),
        ],
        "failed to insert provider operational profile"@,
    ) { (Err(h), st) => (Err(h), st), (Ok(_), st) =>
    (Ok(()), st)
    }}
}

/// Stores the operational profile that a provider begins with.
pub fn insert_operational_profile(
    s: &mut Session,
    provider: &NewProvider,
    actor_subject: &String,
) -> (r: Result<(), Halt>)
    ensures
        (script::seen(r), final(s)@) == insert_operational_profile_spec(
            old(s)@,
            *provider,
            *actor_subject,
        ),
{
    let profile_id = script::fresh_id(s)?;
    script::execute(
        s,
        OPERATIONAL_PROFILE_INSERT_SQL,
        binds::binds9(
            Bind::Id(profile_id),
            Bind::Id(provider.provider_id),
            Bind::Rfc3339Time(provider.operational_profile.effective_at),
            Bind::Rfc3339Time(provider.operational_profile.effective_at),
            Bind::Text(provider.operational_profile.controls.clone()),
            Bind::Text(actor_subject.clone()),
            Bind::Text(actor_subject.clone()),
            Bind::Label("initial provider operational profile"),
            Bind::Rfc3339Time(provider.operational_profile.effective_at),
        ),
        "failed to insert provider operational profile",
    )?;
    Ok(())
}

/// Stores a ledger account of a provider.
pub open spec fn insert_ledger_mapping_spec(
    st: RunView,
    category: ProviderAccountCategory,
    provider_id: Uuid,
) -> (Result<(), HaltView>, RunView) {
    match script::consult_id_spec(
        st,
        Rule::LedgerAccount(category, provider_id),
    ) { (Err(h), st) => (Err(h), st), (Ok(account_id), st) =>
    match script::fresh_id_spec(st) { (Err(h), st) => (Err(h), st), (Ok(mapping_id), st) =>
    match script::execute_spec(
        st,
        INSERT_MAPPING_SQL@,
        seq![
            Bind::Id(mapping_id),
            Bind::Id(provider_id),
            Bind::Label(category.code()),
            Bind::Id(account_id),
        ],
        "failed to insert provider ledger mapping"@,
    ) { (Err(h), st) => (Err(h), st), (Ok(_), st) =>
    (Ok(()), st)
    }}}
}

/// Stores a ledger account of a provider.
pub fn insert_ledger_mapping(
    s: &mut Session,
    category: ProviderAccountCategory,
    provider_id: Uuid,
) -> (r: Result<(), Halt>)
    ensures
        (script::seen(r), final(s)@) == insert_ledger_mapping_spec(old(s)@, category, provider_id),
{
    let account_id = script::consult_id(s, Rule::LedgerAccount(category, provider_id))?;
    let mapping_id = script::fresh_id(s)?;
    script::execute(
        s,
        INSERT_MAPPING_SQL,
        binds::binds4(
            Bind::Id(mapping_id),
            Bind::Id(provider_id),
            Bind::Label(category.as_db_value()),
            Bind::Id(account_id),
        ),
        "failed to insert provider ledger mapping",
    )?;
    Ok(())
}

/// Stores the ledger accounts of a provider, one for each purpose.
pub open spec fn insert_ledger_mappings_spec(
    st: RunView,
    provider_id: Uuid,
) -> (Result<(), HaltView>, RunView) {
    match insert_ledger_mapping_spec(
        st,
        ProviderAccountCategory::ProviderOwned,
        provider_id,
    ) { (Err(h), st) => (Err(h), st), (Ok(_), st) =>
    match insert_ledger_mapping_spec(
        st,
        ProviderAccountCategory::ProviderFee,
        provider_id,
    ) { (Err(h), st) => (Err(h), st), (Ok(_), st) =>
    match insert_ledger_mapping_spec(
        st,
        ProviderAccountCategory::CmsSettlement,
        provider_id,
    ) { (Err(h), st) => (Err(h), st), (Ok(_), st) =>
    insert_ledger_mapping_spec(st, ProviderAccountCategory::PlatformFee, provider_id)
    }}}
}

/// Stores the ledger accounts of a provider, one for each purpose.
pub fn insert_ledger_mappings(s: &mut Session, provider_id: Uuid) -> (r: Result<(), Halt>)
    ensures
        (script::seen(r), final(s)@) == insert_ledger_mappings_spec(old(s)@, provider_id),
{
    insert_ledger_mapping(s, ProviderAccountCategory::ProviderOwned, provider_id)?;
    insert_ledger_mapping(s, ProviderAccountCategory::ProviderFee, provider_id)?;
    insert_ledger_mapping(s, ProviderAccountCategory::CmsSettlement, provider_id)?;
    insert_ledger_mapping(s, ProviderAccountCategory::PlatformFee, provider_id)
}

/// Stores the message broker access of a provider, where it has one, with its first credential.
pub open spec fn insert_kafka_access_spec(
    st: RunView,
    provider: NewProvider,
) -> (Result<(), HaltView>, RunView) {
    match provider.kafka_access {
    None => {
        (Ok(()), st)
    },
    Some(access) =>
    if access.credential_version > i64::MAX {
        (script::query_fault("Kafka credential version exceeds Oracle NUMBER"@), st)
    } else {
    match script::execute_spec(
        st,
        INSERT_KAFKA_ACCESS_SQL@,
        seq![
            Bind::Id(access.provider_kafka_access_id),
            Bind::Id(provider.provider_id),
            Bind::Text(access.topic_name),
            Bind::Text(access.username),
            Bind::Text(access.consumer_group),
            Bind::Text(access.security_protocol),
            Bind::Text(access.sasl_mechanism),
            Bind::Text(access.bootstrap_servers),
        ],
        "failed to insert provider Kafka access"@,
    ) { (Err(h), st) => (Err(h), st), (Ok(_), st) =>
    match script::execute_spec(
        st,
        INSERT_KAFKA_CREDENTIAL_SQL@,
        seq![
            Bind::Id(access.provider_kafka_credential_id),
            Bind::Id(access.provider_kafka_access_id),
            Bind::Id(provider.provider_id),
            Bind::Int(access.credential_version as i64),
            Bind::Text(access.password_ciphertext),
            Bind::Text(access.encryption_key_version),
        ],
        "failed to insert Provider Kafka credential"@,
    ) { (Err(h), st) => (Err(h), st), (Ok(_), st) =>
    (Ok(()), st)
    }}}}
}

/// Stores the message broker access of a provider, where it has one, with its first credential.
pub fn insert_kafka_access(s: &mut Session, provider: &NewProvider) -> (r: Result<(), Halt>)
    ensures
        (script::seen(r), final(s)@) == insert_kafka_access_spec(old(s)@, *provider),
{
    let access = match &provider.kafka_access {
        Some(v) => v,
        None => {
            return Ok(());
        },
    };
    if access.credential_version > i64::MAX as u64 {
        return Err(script::fail_query("Kafka credential version exceeds Oracle NUMBER"));
    }
    script::execute(
        s,
        INSERT_KAFKA_ACCESS_SQL,
        binds::binds8(
            Bind::Id(access.provider_kafka_access_id),
            Bind::Id(provider.provider_id),
            Bind::Text(access.topic_name.clone()),
            Bind::Text(access.username.clone()),
            Bind::Text(access.consumer_group.clone()),
            Bind::Text(access.security_protocol.clone()),
            Bind::Text(access.sasl_mechanism.clone()),
            Bind::Text(access.bootstrap_servers.clone()),
        ),
        "failed to insert provider Kafka access",
    )?;
    script::execute(
        s,
        INSERT_KAFKA_CREDENTIAL_SQL,
        binds::binds6(
            Bind::Id(access.provider_kafka_credential_id),
            Bind::Id(access.provider_kafka_access_id),
            Bind::Id(provider.provider_id),
            Bind::Int(access.credential_version as i64),
            Bind::Text(access.password_ciphertext.clone()),
            Bind::Text(access.encryption_key_version.clone()),
        ),
        "failed to insert Provider Kafka credential",
    )?;
    Ok(())
}

/// Stores an event subscription of a provider, disabled.
pub open spec fn seed_subscription_spec(
    st: RunView,
    event_type: String,
    provider_id: Uuid,
    actor_subject: String,
) -> (Result<(), HaltView>, RunView) {
    match script::fresh_id_spec(st) { (Err(h), st) => (Err(h), st), (Ok(subscription_id), st) =>
    match script::execute_spec(
        st,
        SEED_SUBSCRIPTION_SQL@,
        seq![
            Bind::Id(subscription_id),
            Bind::Id(provider_id),
            Bind::Text(event_type),
            Bind::Text(actor_subject),
        ],
        "failed to seed Provider event subscriptions"@,
    ) { (Err(h), st) => (Err(h), st), (Ok(_), st) =>
    (Ok(()), st)
    }}
}

/// Stores an event subscription of a provider, disabled.
pub fn seed_subscription(
    s: &mut Session,
    event_type: &String,
    provider_id: Uuid,
    actor_subject: &String,
) -> (r: Result<(), Halt>)
    ensures
        (script::seen(r), final(s)@) == seed_subscription_spec(
            old(s)@,
            *event_type,
            provider_id,
            *actor_subject,
        ),
{
    let subscription_id = script::fresh_id(s)?;
    script::execute(
        s,
        SEED_SUBSCRIPTION_SQL,
        binds::binds4(
            Bind::Id(subscription_id),
            Bind::Id(provider_id),
            Bind::Text(event_type.clone()),
            Bind::Text(actor_subject.clone()),
        ),
        "failed to seed Provider event subscriptions",
    )?;
    Ok(())
}

/// Stores the event subscriptions of a provider in turn, disabled.
pub open spec fn insert_provider_event_subscriptions_spec(
    st: RunView,
    names: Seq<String>,
    i: nat,
    provider_id: Uuid,
    actor_subject: String,
) -> (Result<(), HaltView>, RunView)
    decreases names.len() - i,
{
    if i >= names.len() {
        (Ok(()), st)
    } else {
        match seed_subscription_spec(st, names[i as int], provider_id, actor_subject) {
            (Err(h), st) => (Err(h), st), (Ok(_), st) => insert_provider_event_subscriptions_spec(
                st,
                names,
                i + 1,
                provider_id,
                actor_subject,
            )
        }
    }
}

/// Stores the event subscriptions of a provider in turn, disabled.
pub fn insert_provider_event_subscriptions(
    s: &mut Session,
    names: &Vec<String>,
    provider_id: Uuid,
    actor_subject: &String,
) -> (r: Result<(), Halt>)
    ensures
        (script::seen(r), final(s)@) == insert_provider_event_subscriptions_spec(
            old(s)@,
            names@,
            0,
            provider_id,
            *actor_subject,
        ),
{
    let mut i: usize = 0;
    while i < names.len()
        invariant
            i <= names@.len(),
            insert_provider_event_subscriptions_spec(old(s)@, names@, 0, provider_id, *actor_subject) == insert_provider_event_subscriptions_spec(
                s@,
                names@,
                i as nat,
                provider_id,
                *actor_subject,
            ),
        decreases names@.len() - i,
    {
        seed_subscription(s, &names[i], provider_id, actor_subject)?;
        i = i + 1;
    }
    Ok(())
}

/// Each is taken in its turn, after those before it, and the first that fails ends the run.
pub proof fn insert_provider_event_subscriptions_go_in_turn(
    st: RunView,
    names: Seq<String>,
    i: nat,
    provider_id: Uuid,
    actor_subject: String,
)
    ensures
        ({
            let whole = insert_provider_event_subscriptions_spec(
                st,
                names,
                i,
                provider_id,
                actor_subject,
            );
            let (next, at) = seed_subscription_spec(
                st,
                names[i as int],
                provider_id,
                actor_subject,
            );
            &&& i >= names.len() ==> whole == (Ok::<_, HaltView>(()), st)
            &&& i < names.len() ==> match next {
                Ok(_) => {
                    whole == insert_provider_event_subscriptions_spec(
                        at,
                        names,
                        i + 1,
                        provider_id,
                        actor_subject,
                    )
                },
                Err(halt) => whole.0 == Err::<(), _>(halt) && whole.1 == at,
            }
        }),
{
}

/// Stores a provisioning job.
pub open spec fn insert_provisioning_job_spec(
    st: RunView,
    provider_id: Uuid,
    job_type: &'static str,
    request: Document,
) -> (Result<(), HaltView>, RunView) {
    match script::fresh_id_spec(st) { (Err(h), st) => (Err(h), st), (Ok(job_id), st) =>
    match script::execute_spec(
        st,
        INSERT_JOB_SQL@,
        seq![Bind::Id(job_id), Bind::Id(provider_id), Bind::Label(job_type), Bind::Json(request)],
        "failed to insert provider provisioning job"@,
    ) { (Err(h), st) => (Err(h), st), (Ok(_), st) =>
    (Ok(()), st)
    }}
}

/// Stores a provisioning job.
pub fn insert_provisioning_job(
    s: &mut Session,
    provider_id: Uuid,
    job_type: &'static str,
    request: Document,
) -> (r: Result<(), Halt>)
    ensures
        (script::seen(r), final(s)@) == insert_provisioning_job_spec(
            old(s)@,
            provider_id,
            job_type,
            request,
        ),
{
    let job_id = script::fresh_id(s)?;
    script::execute(
        s,
        INSERT_JOB_SQL,
        binds::binds4(
            Bind::Id(job_id),
            Bind::Id(provider_id),
            Bind::Label(job_type),
            Bind::Json(request),
        ),
        "failed to insert provider provisioning job",
    )?;
    Ok(())
}

/// Stores the provisioning jobs of a provider: for the ledger, and for the message broker where it
/// has access.
pub open spec fn insert_provisioning_jobs_spec(
    st: RunView,
    provider_id: Uuid,
    kafka_enabled: bool,
) -> (Result<(), HaltView>, RunView) {
    match insert_provisioning_job_spec(
        st,
        provider_id,
        "TIGERBEETLE_PROVISION",
        Document::Empty,
    ) { (Err(h), st) => (Err(h), st), (Ok(_), st) =>
    if !kafka_enabled {
        (Ok(()), st)
    } else {
    insert_provisioning_job_spec(
        st,
        provider_id,
        "KAFKA_PROVISION",
        Document::KafkaNames(provider_id),
    )
    }}
}

/// Stores the provisioning jobs of a provider: for the ledger, and for the message broker where it
/// has access.
pub fn insert_provisioning_jobs(
    s: &mut Session,
    provider_id: Uuid,
    kafka_enabled: bool,
) -> (r: Result<(), Halt>)
    ensures
        (script::seen(r), final(s)@) == insert_provisioning_jobs_spec(
            old(s)@,
            provider_id,
            kafka_enabled,
        ),
{
    insert_provisioning_job(s, provider_id, "TIGERBEETLE_PROVISION", Document::Empty)?;
    if !kafka_enabled {
        return Ok(());
    }
    insert_provisioning_job(s, provider_id, "KAFKA_PROVISION", Document::KafkaNames(provider_id))
}

/// Creates a provider with everything that belongs to it. Under one idempotency key this happens
/// once.
pub open spec fn create_provider_atomic_spec(
    st: RunView,
    context: MutationCommandContext,
    catalog: ProviderEventCatalog,
    provider: NewProvider,
) -> (Result<CreateProviderPersistenceOutcome, HaltView>, RunView) {
    match idempotency::fetch_idempotency_record_spec(
        st,
        context.operation_type,
        context.idempotency_key,
    ) { (Err(h), st) => (Err(h), st), (Ok(existing), st) =>
    if let Some(record) = existing {
        (Ok(creation_verdict(idempotency::idempotency_verdict(record, context.request_hash))), st)
    } else {
    match idempotency::insert_idempotency_record_spec(
        st,
        context.record,
    ) { (Err(h), st) => (Err(h), st), (Ok(_), st) =>
    match insert_provider_spec(
        st,
        provider,
        context.actor.subject,
    ) { (Err(h), st) => (Err(h), st), (Ok(_), st) =>
    match insert_contacts_spec(
        st,
        provider.contacts@,
        0,
        provider.provider_id,
        context.actor.subject,
    ) { (Err(h), st) => (Err(h), st), (Ok(_), st) =>
    match insert_operational_profile_spec(
        st,
        provider,
        context.actor.subject,
    ) { (Err(h), st) => (Err(h), st), (Ok(_), st) =>
    match insert_ledger_mappings_spec(
        st,
        provider.provider_id,
    ) { (Err(h), st) => (Err(h), st), (Ok(_), st) =>
    match insert_kafka_access_spec(st, provider) { (Err(h), st) => (Err(h), st), (Ok(_), st) =>
    match insert_provider_event_subscriptions_spec(
        st,
        catalog.names@,
        0,
        provider.provider_id,
        context.actor.subject,
    ) { (Err(h), st) => (Err(h), st), (Ok(_), st) =>
    match insert_provisioning_jobs_spec(
        st,
        provider.provider_id,
        provider.kafka_access is Some,
    ) { (Err(h), st) => (Err(h), st), (Ok(_), st) =>
    match fetch_provider_spec(
        st,
        provider.provider_id,
    ) { (Err(h), st) => (Err(h), st), (Ok(created), st) =>
    match script::consult_text_spec(
        st,
        Rule::ProviderSnapshot(created),
    ) { (Err(h), st) => (Err(h), st), (Ok(snapshot), st) =>
    match audit::insert_audit_log_spec(
        st,
        "PROVIDER",
        provider.provider_id,
        AuditAction::Insert,
        Bind::Label("provider created and core provisioning requested"),
        None,
        Some(Snapshot::Text(snapshot)),
        audit::trusted_origin_spec(context.audit),
    ) { (Err(h), st) => (Err(h), st), (Ok(_), st) =>
    match idempotency::complete_idempotency_record_spec(
        st,
        context.operation_type,
        context.idempotency_key,
        "provider",
        provider.provider_id,
        Snapshot::Text(snapshot),
    ) { (Err(h), st) => (Err(h), st), (Ok(_), st) =>
    (Ok(CreateProviderPersistenceOutcome::Created(Box::new(created))), st)
    }}}}}}}}}}}}}}
}

impl OracleRepository {
    /// Creates a provider with everything that belongs to it. Under one idempotency key this
    /// happens once.
    pub fn create_provider_atomic(
        s: &mut Session,
        context: &MutationCommandContext,
        catalog: &ProviderEventCatalog,
        provider: &NewProvider,
    ) -> (r: Result<CreateProviderPersistenceOutcome, Halt>)
        ensures
            (script::seen(r), final(s)@) == create_provider_atomic_spec(
                old(s)@,
                *context,
                *catalog,
                *provider,
            ),
    {
        let existing = idempotency::fetch_idempotency_record(
            s,
            &context.operation_type,
            &context.idempotency_key,
        )?;
        if let Some(record) = &existing {
            return Ok(classify_idempotency(record, &context.request_hash));
        }
        idempotency::insert_idempotency_record(s, &context.record)?;
        insert_provider(s, provider, &context.actor.subject)?;
        insert_contacts(s, &provider.contacts, provider.provider_id, &context.actor.subject)?;
        insert_operational_profile(s, provider, &context.actor.subject)?;
        insert_ledger_mappings(s, provider.provider_id)?;
        insert_kafka_access(s, provider)?;
        insert_provider_event_subscriptions(
            s,
            &catalog.names,
            provider.provider_id,
            &context.actor.subject,
        )?;
        insert_provisioning_jobs(s, provider.provider_id, provider.kafka_access.is_some())?;
        let created = fetch_provider(s, provider.provider_id)?;
        let snapshot = script::consult_text(s, Rule::ProviderSnapshot(created.clone()))?;
        audit::insert_audit_log(
            s,
            "PROVIDER",
            provider.provider_id,
            AuditAction::Insert,
            Bind::Label("provider created and core provisioning requested"),
            None,
            Some(Snapshot::Text(snapshot.clone())),
            audit::trusted_origin(&context.audit),
        )?;
        idempotency::complete_idempotency_record(
            s,
            &context.operation_type,
            &context.idempotency_key,
            "provider",
            provider.provider_id,
            Snapshot::Text(snapshot),
        )?;
        Ok(CreateProviderPersistenceOutcome::Created(Box::new(created)))
    }
}

/// A provider.
pub open spec fn get_provider_spec(
    st: RunView,
    provider_id: Uuid,
) -> (Result<Option<Provider>, HaltView>, RunView) {
    match script::first_row_spec(
        st,
        PROVIDER_SELECT_SQL@,
        seq![Bind::Id(provider_id)],
        PROVIDER_COLUMNS,
        "failed to get provider"@,
        "failed to read provider row"@,
    ) { (Err(h), st) => (Err(h), st), (Ok(found), st) =>
    match found {
    None => {
        (Ok(None), st)
    },
    Some(row) =>
    match provider_kafka_status_spec(
        st,
        provider_id,
    ) { (Err(h), st) => (Err(h), st), (Ok(kafka_status), st) =>
    match map_provider_row_spec(row, kafka_status) { Err(h) => (Err(h), st), Ok(provider) =>
    (Ok(Some(provider)), st)
    }}}}
}

impl OracleRepository {
    /// A provider.
    pub fn get_provider(s: &mut Session, provider_id: Uuid) -> (r: Result<Option<Provider>, Halt>)
        ensures
            (script::seen(r), final(s)@) == get_provider_spec(old(s)@, provider_id),
    {
        let found = script::first_row(
            s,
            PROVIDER_SELECT_SQL,
            binds::binds1(Bind::Id(provider_id)),
            PROVIDER_COLUMNS,
            "failed to get provider",
            "failed to read provider row",
        )?;
        let row = match found {
            Some(v) => v,
            None => {
                return Ok(None);
            },
        };
        let kafka_status = provider_kafka_status(s, provider_id)?;
        let provider = map_provider_row(row, kafka_status)?;
        Ok(Some(provider))
    }
}

/// The listed provider that a row holds.
#[verifier::opaque]
pub open spec fn map_provider_list_row_spec(row: Row) -> Result<ProviderListItem, HaltView> {
    match row.raw_at(0, READ_ROW@) { Err(h) => Err(h), Ok(provider_raw) =>
    match row.text_at(4, READ_ROW@) { Err(h) => Err(h), Ok(status_text) =>
    match row.text_at(5, READ_ROW@) { Err(h) => Err(h), Ok(created_text) =>
    match row.text_at(6, READ_ROW@) { Err(h) => Err(h), Ok(updated_text) =>
    match script::id_of(provider_raw@) { Err(h) => Err(h), Ok(provider_id) =>
    match row.text_at(1, READ_ROW@) { Err(h) => Err(h), Ok(legal_name) =>
    match row.text_at(2, READ_ROW@) { Err(h) => Err(h), Ok(trade_name) =>
    match row.opt_text_at(3, READ_ROW@) { Err(h) => Err(h), Ok(tax_id) =>
    match ProviderStatus::of_code(status_text@) {
    None => {
        script::query_fault("unknown provider status"@)
    },
    Some(status) =>
    match script::time_of(
        created_text@,
        "invalid provider timestamp"@,
    ) { Err(h) => Err(h), Ok(created_at) =>
    match script::time_of(
        updated_text@,
        "invalid provider timestamp"@,
    ) { Err(h) => Err(h), Ok(updated_at) =>
    Ok(ProviderListItem {
        provider_id,
        legal_name,
        trade_name,
        tax_id,
        status,
        created_at,
        updated_at,
    })
    }}}}}}}}}}}
}

/// The listed provider that a row holds.
pub fn map_provider_list_row(row: &Row) -> (r: Result<ProviderListItem, Halt>)
    ensures
        script::seen(r) == map_provider_list_row_spec(*row),
{
    proof {
        reveal(map_provider_list_row_spec);
    }
    let provider_raw = row.raw(0, READ_ROW)?;
    let status_text = row.text(4, READ_ROW)?;
    let created_text = row.text(5, READ_ROW)?;
    let updated_text = row.text(6, READ_ROW)?;
    let provider_id = script::to_id(provider_raw)?;
    let legal_name = row.text(1, READ_ROW)?;
    let trade_name = row.text(2, READ_ROW)?;
    let tax_id = row.opt_text(3, READ_ROW)?;
    let status = match ProviderStatus::from_db_value(status_text.as_str()) {
        Some(v) => v,
        None => {
            return Err(script::fail_query("unknown provider status"));
        },
    };
    let created_at = script::to_time(created_text.as_str(), "invalid provider timestamp")?;
    let updated_at = script::to_time(updated_text.as_str(), "invalid provider timestamp")?;
    Ok(ProviderListItem {
        provider_id,
        legal_name,
        trade_name,
        tax_id,
        status,
        created_at,
        updated_at,
    })
}

/// The listed providers that rows hold, in order.
pub open spec fn map_provider_list_rows_spec(
    rows: Seq<Row>,
    i: nat,
    done: Seq<ProviderListItem>,
) -> Result<Seq<ProviderListItem>, HaltView>
    decreases rows.len() - i,
{
    if i >= rows.len() {
        Ok(done)
    } else {
        match map_provider_list_row_spec(rows[i as int]) {
            Err(h) => Err(h), Ok(item) => map_provider_list_rows_spec(rows, i + 1, done.push(item))
        }
    }
}

/// The listed providers that rows hold, in order.
pub fn map_provider_list_rows(rows: &Vec<Row>) -> (r: Result<Vec<ProviderListItem>, Halt>)
    ensures
        script::seen_view(r) == map_provider_list_rows_spec(rows@, 0, Seq::empty()),
{
    let mut done: Vec<ProviderListItem> = Vec::new();
    let mut i: usize = 0;
    assert(done@ =~= Seq::empty());
    while i < rows.len()
        invariant
            i <= rows@.len(),
            map_provider_list_rows_spec(rows@, 0, Seq::empty()) == map_provider_list_rows_spec(
                rows@,
                i as nat,
                done@,
            ),
        decreases rows@.len() - i,
    {
        let item = map_provider_list_row(&rows[i])?;
        done.push(item);
        i = i + 1;
    }
    Ok(done)
}

/// Each is that of its own row, and they come in the order of the rows.
pub proof fn map_provider_list_rows_go_in_turn(rows: Seq<Row>, i: nat, done: Seq<ProviderListItem>)
    requires
        i <= rows.len(),
    ensures
        map_provider_list_rows_spec(rows, i, done) matches Ok(all) ==> {
            &&& all.len() == done.len() + (rows.len() - i)
            &&& all.take(done.len() as int) == done
            &&& forall|k: int| i <= k < rows.len() ==> (#[trigger] rows[k], map_provider_list_row_spec(rows[k])) == (
                rows[k],
                Ok::<ProviderListItem, HaltView>(all[done.len() + k - i]),
            )
        },
    decreases rows.len() - i,
{
    if i < rows.len() {
        if let Ok(item) = map_provider_list_row_spec(rows[i as int]) {
            map_provider_list_rows_go_in_turn(rows, i + 1, done.push(item));
            if let Ok(all) = map_provider_list_rows_spec(rows, i, done) {
                assert(
                    all.take(done.len() as int) =~= all.take(
                        done.len() as int + 1,
                    ).take(done.len() as int)
                );
                assert(done.push(item).take(done.len() as int) =~= done);
                assert(
                    all[done.len() as int] == all.take(done.len() as int + 1)[done.len() as int]
                );
            }
        }
    } else {
        assert(done.take(done.len() as int) =~= done);
    }
}

/// The instant after which a page begins, where there is a cursor.
pub open spec fn cursor_time_spec(cursor: Option<ProviderListCursor>) -> Option<UtcTime> {
    match cursor {
        Some(c) => Some(c.created_at),
        None => None,
    }
}

fn cursor_time(cursor: &Option<ProviderListCursor>) -> (r: Option<UtcTime>)
    ensures
        r == cursor_time_spec(*cursor),
{
    match cursor {
        Some(c) => Some(c.created_at),
        None => None,
    }
}

/// The identifier after which a page begins, where there is a cursor.
pub open spec fn cursor_id_spec(cursor: Option<ProviderListCursor>) -> Option<Uuid> {
    match cursor {
        Some(c) => Some(c.provider_id),
        None => None,
    }
}

fn cursor_id(cursor: &Option<ProviderListCursor>) -> (r: Option<Uuid>)
    ensures
        r == cursor_id_spec(*cursor),
{
    match cursor {
        Some(c) => Some(c.provider_id),
        None => None,
    }
}

/// A page of providers: its last one is the cursor, where another page follows.
pub open spec fn provider_page(
    found: Seq<ProviderListItem>,
    limit: nat,
) -> (Seq<ProviderListItem>, Option<ProviderListCursor>) {
    let items = page::page_items(found, limit);
    (
        items,
        if page::has_next(found, limit) && items.len() > 0 {
            Some(ProviderListCursor {
                created_at: items.last().created_at,
                provider_id: items.last().provider_id,
            })
        } else {
            None
        },
    )
}

fn to_provider_page(found: Vec<ProviderListItem>, limit: usize) -> (r: ProviderListPage)
    ensures
        r@ == provider_page(found@, limit as nat),
{
    let (items, more) = page::cut_page(found, limit);
    let next_cursor = if more && items.len() > 0 {
        let last = &items[items.len() - 1];
        Some(ProviderListCursor { created_at: last.created_at, provider_id: last.provider_id })
    } else {
        None
    };
    Page { items, next_cursor }
}

/// A page holds no more than its limit and goes on after its last item exactly where more was
/// found.
pub proof fn provider_page_goes_on_after_its_last(found: Seq<ProviderListItem>, limit: nat)
    requires
        limit > 0,
    ensures
        ({
            let (shown, next) = provider_page(found, limit);
            &&& found.len() <= limit ==> shown == found && next is None
            &&& found.len() > limit ==> {
                &&& shown == found.take(limit as int)
                &&& next matches Some(cursor)
                &&& cursor.created_at == found[limit - 1].created_at
                &&& cursor.provider_id == found[limit - 1].provider_id
            }
        }),
{
    page::page_is_bounded_prefix(found, limit);
}

/// The database value of an optional filter.
pub open spec fn status_filter_spec(value: Option<ProviderStatus>) -> Option<&'static str> {
    match value {
        Some(v) => Some(v.code()),
        None => None,
    }
}

fn status_filter(value: Option<ProviderStatus>) -> (r: Option<&'static str>)
    ensures
        r == status_filter_spec(value),
{
    match value {
        Some(v) => Some(v.as_db_value()),
        None => None,
    }
}

/// A page of the providers that a query selects, newest first.
pub open spec fn list_providers_spec(
    st: RunView,
    query: ProviderListQuery,
) -> (Result<(Seq<ProviderListItem>, Option<ProviderListCursor>), HaltView>, RunView) {
    match script::named_rows_spec(
        st,
        PROVIDER_LIST_SQL@,
        PROVIDER_LIST_BINDS,
        seq![
            Bind::OptLabel(status_filter_spec(query.status)),
            Bind::OptText(query.tax_id),
            Bind::OptTime(cursor_time_spec(query.cursor)),
            Bind::OptId(cursor_id_spec(query.cursor)),
            Bind::Int(page::fetch_limit_spec(query.limit)),
        ],
        "rttTttt",
        "failed to list providers"@,
    ) { (Err(h), st) => (Err(h), st), (Ok(found), st) =>
    match map_provider_list_rows_spec(
        found.rows@,
        0,
        Seq::empty(),
    ) { Err(h) => (Err(h), st), Ok(items) =>
    if let Some(cause) = found.failure {
        (script::failed("failed to read listed provider row"@, cause@), st)
    } else {
    (Ok(provider_page(items, query.limit as nat)), st)
    }}}
}

impl OracleRepository {
    /// A page of the providers that a query selects, newest first.
    pub fn list_providers(
        s: &mut Session,
        query: &ProviderListQuery,
    ) -> (r: Result<ProviderListPage, Halt>)
        ensures
            (script::seen_view(r), final(s)@) == list_providers_spec(old(s)@, *query),
    {
        let found = script::named_rows(
            s,
            PROVIDER_LIST_SQL,
            PROVIDER_LIST_BINDS,
            binds::binds5(
                Bind::OptLabel(status_filter(query.status)),
                Bind::OptText(copied(&query.tax_id)),
                Bind::OptTime(cursor_time(&query.cursor)),
                Bind::OptId(cursor_id(&query.cursor)),
                Bind::Int(page::fetch_limit(query.limit)),
            ),
            "rttTttt",
            "failed to list providers",
        )?;
        let items = map_provider_list_rows(&found.rows)?;
        if let Some(cause) = &found.failure {
            return Err(script::fail_because("failed to read listed provider row", cause.as_str()));
        }
        Ok(to_provider_page(items, query.limit as usize))
    }
}

/// The ledger account that a row holds.
pub open spec fn map_ledger_mapping_spec(
    row: Row,
) -> Result<ProviderLedgerAccountMapping, HaltView> {
    match row.text_at(0, READ_ROW@) { Err(h) => Err(h), Ok(category_text) =>
    match row.raw_at(1, READ_ROW@) { Err(h) => Err(h), Ok(account_raw) =>
    match ProviderAccountCategory::of_code(category_text@) {
    None => {
        script::query_fault("unknown provider account category"@)
    },
    Some(category) =>
    match script::id_of(account_raw@) { Err(h) => Err(h), Ok(tigerbeetle_account_id) =>
    match row.text_at(2, READ_ROW@) { Err(h) => Err(h), Ok(status) =>
    Ok(ProviderLedgerAccountMapping { category, tigerbeetle_account_id, status })
    }}}}}
}

/// The ledger account that a row holds.
pub fn map_ledger_mapping(row: &Row) -> (r: Result<ProviderLedgerAccountMapping, Halt>)
    ensures
        script::seen(r) == map_ledger_mapping_spec(*row),
{
    let category_text = row.text(0, READ_ROW)?;
    let account_raw = row.raw(1, READ_ROW)?;
    let category = match ProviderAccountCategory::from_db_value(category_text.as_str()) {
        Some(v) => v,
        None => {
            return Err(script::fail_query("unknown provider account category"));
        },
    };
    let tigerbeetle_account_id = script::to_id(account_raw)?;
    let status = row.text(2, READ_ROW)?;
    Ok(ProviderLedgerAccountMapping { category, tigerbeetle_account_id, status })
}

/// The ledger accounts that rows hold, in order.
pub open spec fn map_ledger_mappings_spec(
    rows: Seq<Row>,
    i: nat,
    done: Seq<ProviderLedgerAccountMapping>,
) -> Result<Seq<ProviderLedgerAccountMapping>, HaltView>
    decreases rows.len() - i,
{
    if i >= rows.len() {
        Ok(done)
    } else {
        match map_ledger_mapping_spec(rows[i as int]) {
            Err(h) => Err(h), Ok(item) => map_ledger_mappings_spec(rows, i + 1, done.push(item))
        }
    }
}

/// The ledger accounts that rows hold, in order.
pub fn map_ledger_mappings(rows: &Vec<Row>) -> (r: Result<Vec<ProviderLedgerAccountMapping>, Halt>)
    ensures
        script::seen_view(r) == map_ledger_mappings_spec(rows@, 0, Seq::empty()),
{
    let mut done: Vec<ProviderLedgerAccountMapping> = Vec::new();
    let mut i: usize = 0;
    assert(done@ =~= Seq::empty());
    while i < rows.len()
        invariant
            i <= rows@.len(),
            map_ledger_mappings_spec(rows@, 0, Seq::empty()) == map_ledger_mappings_spec(
                rows@,
                i as nat,
                done@,
            ),
        decreases rows@.len() - i,
    {
        let item = map_ledger_mapping(&rows[i])?;
        done.push(item);
        i = i + 1;
    }
    Ok(done)
}

/// Each is that of its own row, and they come in the order of the rows.
pub proof fn map_ledger_mappings_go_in_turn(
    rows: Seq<Row>,
    i: nat,
    done: Seq<ProviderLedgerAccountMapping>,
)
    requires
        i <= rows.len(),
    ensures
        map_ledger_mappings_spec(rows, i, done) matches Ok(all) ==> {
            &&& all.len() == done.len() + (rows.len() - i)
            &&& all.take(done.len() as int) == done
            &&& forall|k: int| i <= k < rows.len() ==> (#[trigger] rows[k], map_ledger_mapping_spec(rows[k])) == (
                rows[k],
                Ok::<ProviderLedgerAccountMapping, HaltView>(all[done.len() + k - i]),
            )
        },
    decreases rows.len() - i,
{
    if i < rows.len() {
        if let Ok(item) = map_ledger_mapping_spec(rows[i as int]) {
            map_ledger_mappings_go_in_turn(rows, i + 1, done.push(item));
            if let Ok(all) = map_ledger_mappings_spec(rows, i, done) {
                assert(
                    all.take(done.len() as int) =~= all.take(
                        done.len() as int + 1,
                    ).take(done.len() as int)
                );
                assert(done.push(item).take(done.len() as int) =~= done);
                assert(
                    all[done.len() as int] == all.take(done.len() as int + 1)[done.len() as int]
                );
            }
        }
    } else {
        assert(done.take(done.len() as int) =~= done);
    }
}

/// The ledger accounts of a provider.
pub open spec fn get_provider_ledger_mappings_spec(
    st: RunView,
    provider_id: Uuid,
) -> (Result<Seq<ProviderLedgerAccountMapping>, HaltView>, RunView) {
    match script::rows_spec(
        st,
        LEDGER_MAPPINGS_SQL@,
        seq![Bind::Id(provider_id)],
        "trt",
        "failed to list provider ledger mappings"@,
    ) { (Err(h), st) => (Err(h), st), (Ok(found), st) =>
    match map_ledger_mappings_spec(
        found.rows@,
        0,
        Seq::empty(),
    ) { Err(h) => (Err(h), st), Ok(items) =>
    if let Some(cause) = found.failure {
        (script::failed("failed to read provider ledger mapping"@, cause@), st)
    } else {
    (Ok(items), st)
    }}}
}

impl OracleRepository {
    /// The ledger accounts of a provider.
    pub fn get_provider_ledger_mappings(
        s: &mut Session,
        provider_id: Uuid,
    ) -> (r: Result<Vec<ProviderLedgerAccountMapping>, Halt>)
        ensures
            (script::seen_view(r), final(s)@) == get_provider_ledger_mappings_spec(
                old(s)@,
                provider_id,
            ),
    {
        let found = script::rows(
            s,
            LEDGER_MAPPINGS_SQL,
            binds::binds1(Bind::Id(provider_id)),
            "trt",
            "failed to list provider ledger mappings",
        )?;
        let items = map_ledger_mappings(&found.rows)?;
        if let Some(cause) = &found.failure {
            return Err(script::fail_because(
                "failed to read provider ledger mapping",
                cause.as_str(),
            ));
        }
        Ok(items)
    }
}

/// Stores the audit evidence that a provider became ready, where it was not before.
pub open spec fn audit_ready_spec(
    st: RunView,
    provider_id: Uuid,
    previous: Provider,
    provider: Provider,
) -> (Result<(), HaltView>, RunView) {
    if previous.status == ProviderStatus::Ready {
        (Ok(()), st)
    } else {
    match script::consult_text_spec(
        st,
        Rule::ProviderSnapshot(previous),
    ) { (Err(h), st) => (Err(h), st), (Ok(old_snapshot), st) =>
    match script::consult_text_spec(
        st,
        Rule::ProviderSnapshot(provider),
    ) { (Err(h), st) => (Err(h), st), (Ok(new_snapshot), st) =>
    match script::fresh_id_spec(st) { (Err(h), st) => (Err(h), st), (Ok(request_id), st) =>
    audit::insert_audit_log_spec(
        st,
        "PROVIDER",
        provider_id,
        AuditAction::StateTransition,
        Bind::Label("provider core provisioning completed"),
        Some(Snapshot::Text(old_snapshot)),
        Some(Snapshot::Text(new_snapshot)),
        audit::provisioning_origin_spec(provider_id, "-ready", request_id),
    )
    }}}}
}

/// Stores the audit evidence that a provider became ready, where it was not before.
pub fn audit_ready(
    s: &mut Session,
    provider_id: Uuid,
    previous: &Provider,
    provider: &Provider,
) -> (r: Result<(), Halt>)
    ensures
        (script::seen(r), final(s)@) == audit_ready_spec(
            old(s)@,
            provider_id,
            *previous,
            *provider,
        ),
{
    if previous.status == ProviderStatus::Ready {
        return Ok(());
    }
    let old_snapshot = script::consult_text(s, Rule::ProviderSnapshot(previous.clone()))?;
    let new_snapshot = script::consult_text(s, Rule::ProviderSnapshot(provider.clone()))?;
    let request_id = script::fresh_id(s)?;
    audit::insert_audit_log(
        s,
        "PROVIDER",
        provider_id,
        AuditAction::StateTransition,
        Bind::Label("provider core provisioning completed"),
        Some(Snapshot::Text(old_snapshot)),
        Some(Snapshot::Text(new_snapshot)),
        audit::provisioning_origin(provider_id, "-ready", request_id),
    )
}

/// Marks a provider whose ledger accounts are provisioned as ready.
pub open spec fn mark_provider_ready_spec(
    st: RunView,
    provider_id: Uuid,
) -> (Result<Provider, HaltView>, RunView) {
    match fetch_provider_spec(st, provider_id) { (Err(h), st) => (Err(h), st), (Ok(previous), st) =>
    match script::execute_spec(
        st,
        ACTIVATE_MAPPINGS_SQL@,
        seq![Bind::Id(provider_id)],
        "failed to activate provider ledger mappings"@,
    ) { (Err(h), st) => (Err(h), st), (Ok(_), st) =>
    match script::execute_spec(
        st,
        COMPLETE_JOB_SQL@,
        seq![Bind::Id(provider_id)],
        "failed to complete provider provisioning job"@,
    ) { (Err(h), st) => (Err(h), st), (Ok(_), st) =>
    match script::execute_later_spec(
        st,
        MARK_READY_SQL@,
        seq![Bind::Id(provider_id)],
        "failed to mark provider ready"@,
    ) { (Err(h), st) => (Err(h), st), (Ok(updated), st) =>
    match fetch_provider_spec(st, provider_id) { (Err(h), st) => (Err(h), st), (Ok(provider), st) =>
    match updated {
        Err(cause) => {
            (script::failed(READ_ROW@, cause@), st)
        },
        Ok(touched) => {
            if touched != 1 && provider.status != ProviderStatus::Ready {
                (script::conflict_fault("provider is not pending core provisioning"@), st)
            } else {
            match script::consult_text_spec(
                st,
                Rule::ProviderSnapshot(provider),
            ) { (Err(h), st) => (Err(h), st), (Ok(snapshot), st) =>
            match script::execute_spec(
                st,
                REFRESH_SNAPSHOT_SQL@,
                seq![Bind::JsonText(snapshot), Bind::Id(provider_id)],
                "failed to refresh provider idempotency snapshot"@,
            ) { (Err(h), st) => (Err(h), st), (Ok(_), st) =>
            match audit_ready_spec(
                st,
                provider_id,
                previous,
                provider,
            ) { (Err(h), st) => (Err(h), st), (Ok(_), st) =>
            (Ok(provider), st)
            }}}}
        },
    }
    }}}}}
}

impl OracleRepository {
    /// Marks a provider whose ledger accounts are provisioned as ready.
    pub fn mark_provider_ready(s: &mut Session, provider_id: Uuid) -> (r: Result<Provider, Halt>)
        ensures
            (script::seen(r), final(s)@) == mark_provider_ready_spec(old(s)@, provider_id),
    {
        let previous = fetch_provider(s, provider_id)?;
        script::execute(
            s,
            ACTIVATE_MAPPINGS_SQL,
            binds::binds1(Bind::Id(provider_id)),
            "failed to activate provider ledger mappings",
        )?;
        script::execute(
            s,
            COMPLETE_JOB_SQL,
            binds::binds1(Bind::Id(provider_id)),
            "failed to complete provider provisioning job",
        )?;
        let updated = script::execute_later(
            s,
            MARK_READY_SQL,
            binds::binds1(Bind::Id(provider_id)),
            "failed to mark provider ready",
        )?;
        let provider = fetch_provider(s, provider_id)?;
        match updated {
            Err(cause) => {
                return Err(script::fail_because(READ_ROW, cause.as_str()));
            },
            Ok(touched) => {
                if *touched != 1 && provider.status != ProviderStatus::Ready {
                    return Err(script::fail_conflict("provider is not pending core provisioning"));
                }
                let snapshot = script::consult_text(s, Rule::ProviderSnapshot(provider.clone()))?;
                script::execute(
                    s,
                    REFRESH_SNAPSHOT_SQL,
                    binds::binds2(Bind::JsonText(snapshot.clone()), Bind::Id(provider_id)),
                    "failed to refresh provider idempotency snapshot",
                )?;
                audit_ready(s, provider_id, &previous, &provider)?;
                return Ok(provider);
            },
        }
    }
}

/// Under one idempotency key a provider is asked for once: where a record is stored, the command is
/// answered from it, and looking it up is all that is done.
pub proof fn provider_creation_is_done_once(
    st: RunView,
    context: MutationCommandContext,
    catalog: ProviderEventCatalog,
    provider: NewProvider,
    record: IdempotencyRecord,
)
    requires
        idempotency::fetch_idempotency_record_spec(
            st,
            context.operation_type,
            context.idempotency_key,
        ).0 == Ok::<Option<IdempotencyRecord>, HaltView>(Some(record)),
    ensures
        create_provider_atomic_spec(st, context, catalog, provider) == (
            Ok::<_, HaltView>(
                creation_verdict(idempotency::idempotency_verdict(record, context.request_hash)),
            ),
            idempotency::fetch_idempotency_record_spec(
                st,
                context.operation_type,
                context.idempotency_key,
            ).1,
        ),
        script::writes(
            create_provider_atomic_spec(st, context, catalog, provider).1.log,
        ) == script::writes(st.log),
{
    broadcast use script::writes_with_another;

}

/// Where a provider is carried out in a run of its own, audit evidence is stored within it, and the
/// command's record is completed last.
#[verifier::rlimit(40)]
pub proof fn provider_creation_leaves_evidence(
    st: RunView,
    context: MutationCommandContext,
    catalog: ProviderEventCatalog,
    provider: NewProvider,
)
    requires
        st.log.len() == 0,
    ensures
        ({
            let (result, after) = create_provider_atomic_spec(st, context, catalog, provider);
            result matches Ok(outcome) ==> outcome is Created ==> script::runs(
                after.log,
                audit::AUDIT_INSERT_SQL@,
            ) > 0 && script::is_run_of(after.log.last(), idempotency::IDEMPOTENCY_COMPLETE_SQL@)
        }),
{
    broadcast use script::runs_with_another;

}

/// A command that is recorded is answered by its record: under another request it conflicts; under
/// the same one it gets the answer that is stored, or is told that it is under way, or that the
/// record is not in order.
pub proof fn creation_verdict_goes_by_the_record(
    record: crate::domain::idempotency::IdempotencyRecord,
    request_hash: String,
)
    ensures
        ({
            let answered = creation_verdict(idempotency::idempotency_verdict(record, request_hash));
            let same = record.request_hash@ == request_hash@;
            &&& answered is IdempotencyConflict <==> !same
            &&& answered is IdempotencyInProgress <==> same && record.status is InProgress
            &&& answered matches CreateProviderPersistenceOutcome::Replayed(
                answer,
            ) ==> record.response_snapshot == Some(answer)
            &&& answered is Replayed <==> same && record.status is Completed
                && record.response_snapshot is Some
            &&& answered is IdempotencyInvalidState <==> same && !(record.status is InProgress)
                && !(
            record.status is Completed && record.response_snapshot is Some)
        }),
{
}

/// The access of a provider is pending exactly while a job is open. Otherwise it is disabled
/// without a credential, failed where the credential failed, and had in any other case.
pub proof fn access_goes_by_open_jobs_and_credentials(
    st: RunView,
    provider_id: Uuid,
    pending: i64,
)
    requires
        script::one_int_spec(
            st,
            PENDING_KAFKA_SQL@,
            seq![Bind::Id(provider_id)],
            "failed to count pending Provider Kafka jobs"@,
        ).0 == Ok::<i64, HaltView>(pending),
    ensures
        ({
            let status = provider_kafka_status_spec(st, provider_id).0;
            let counted = script::one_int_spec(
                st,
                PENDING_KAFKA_SQL@,
                seq![Bind::Id(provider_id)],
                "failed to count pending Provider Kafka jobs"@,
            ).1;
            let credential = script::maybe_text_spec(
                counted,
                KAFKA_STATUS_SQL@,
                seq![Bind::Id(provider_id)],
                "failed to read Provider Kafka provisioning status"@,
            ).0;
            &&& (status matches Ok(s) && s is Pending) <==> pending > 0
            &&& (status matches Ok(s) && s is Disabled) <==> pending <= 0
                && (credential matches Ok(None))
            &&& (status matches Ok(s) && s is Failed) <==> pending <= 0 && (credential matches Ok(
                Some(text),
            ) && text@ == "FAILED"@)
            &&& (status matches Ok(s) && s is Succeeded) <==> pending <= 0
                && (credential matches Ok(
                Some(text),
            ) && text@ != "FAILED"@)
        }),
{
}

/// The access of a provider is stored with its first credential where the provider is to have one,
/// and nothing is stored where it is not.
#[verifier::rlimit(40)]
pub proof fn wanted_access_is_stored_with_its_credential(
    st: RunView,
    provider: NewProvider,
)
    ensures
        ({
            let (ended, after) = insert_kafka_access_spec(st, provider);
            &&& provider.kafka_access is None ==> ended is Ok && after == st
            &&& provider.kafka_access matches Some(access) ==> {
                &&& access.credential_version > i64::MAX ==> ended is Err && after == st
                &&& ended is Ok ==> access.credential_version <= i64::MAX && script::ran(
                    after.log,
                    INSERT_KAFKA_ACCESS_SQL@,
                    seq![
                        Bind::Id(access.provider_kafka_access_id),
                        Bind::Id(provider.provider_id),
                        Bind::Text(access.topic_name),
                        Bind::Text(access.username),
                        Bind::Text(access.consumer_group),
                        Bind::Text(access.security_protocol),
                        Bind::Text(access.sasl_mechanism),
                        Bind::Text(access.bootstrap_servers),
                    ],
                ) && script::ran(
                    after.log,
                    INSERT_KAFKA_CREDENTIAL_SQL@,
                    seq![
                        Bind::Id(access.provider_kafka_credential_id),
                        Bind::Id(access.provider_kafka_access_id),
                        Bind::Id(provider.provider_id),
                        Bind::Int(access.credential_version as i64),
                        Bind::Text(access.password_ciphertext),
                        Bind::Text(access.encryption_key_version),
                    ],
                )
            }
        }),
{
    broadcast use script::runs_on_with_another;

}

/// Each contact of a new provider is stored in its turn, and nothing else is done.
pub proof fn contacts_are_stored_in_turn(
    st: RunView,
    contacts: Seq<ProviderContact>,
    i: nat,
    provider_id: Uuid,
    actor_subject: String,
)
    requires
        i < contacts.len(),
        insert_contacts_spec(st, contacts, i, provider_id, actor_subject).0 is Ok,
    ensures
        ({
            let stored = insert_contact_spec(st, contacts[i as int], provider_id, actor_subject);
            &&& stored.0 is Ok
            &&& insert_contacts_spec(st, contacts, i, provider_id, actor_subject)
                == insert_contacts_spec(
                stored.1,
                contacts,
                i + 1,
                provider_id,
                actor_subject,
            )
        }),
{
}

/// A new provider waits for its ledger accounts, and for the message broker where it is to have
/// access.
pub proof fn jobs_are_stored_for_what_is_wanted(
    st: RunView,
    provider_id: Uuid,
    kafka_enabled: bool,
)
    ensures
        ({
            let ended = insert_provisioning_jobs_spec(st, provider_id, kafka_enabled);
            let ledger = insert_provisioning_job_spec(
                st,
                provider_id,
                "TIGERBEETLE_PROVISION",
                Document::Empty,
            );
            &&& ended.0 is Ok ==> ledger.0 is Ok
            &&& ledger.0 is Ok && !kafka_enabled ==> ended.0 is Ok && ended.1 == ledger.1
            &&& ledger.0 is Ok && kafka_enabled ==> ended == insert_provisioning_job_spec(
                ledger.1,
                provider_id,
                "KAFKA_PROVISION",
                Document::KafkaNames(provider_id),
            )
        }),
{
}

/// That a provider is ready is evidenced once: not where it was ready before.
pub proof fn readiness_is_evidenced_once(
    st: RunView,
    provider_id: Uuid,
    previous: Provider,
    provider: Provider,
)
    requires
        st.rest.len() == 0,
    ensures
        audit_ready_spec(st, provider_id, previous, provider).0 is Ok <==> previous.status is Ready,
{
}

/// What is asked first, and with which values, in a run that does this:
/// how far the message broker access of a provider is: pending while a job is open, and otherwise
/// by its credentials, where it has any.
pub proof fn provider_kafka_status_asks_first(
    st: RunView,
    provider_id: Uuid,
)
    requires
        st.rest.len() == 0,
    ensures
        provider_kafka_status_spec(st, provider_id).0 matches Err(HaltView::Ask(asked))
            && (
                asked matches script::CallView::Sql { sql, binds, .. } && sql == PENDING_KAFKA_SQL@
                    && binds == seq![Bind::Id(provider_id)]
            ),
{
}

/// What is asked first, and with which values, in a run that does this:
/// reads a provider that is stored.
pub proof fn fetch_provider_asks_first(
    st: RunView,
    provider_id: Uuid,
)
    requires
        st.rest.len() == 0,
    ensures
        fetch_provider_spec(st, provider_id).0 matches Err(HaltView::Ask(asked))
            && (
                asked matches script::CallView::Sql { sql, binds, .. }
                    && sql == PROVIDER_SELECT_SQL@ && binds == seq![Bind::Id(provider_id)]
            ),
{
}

/// What is asked first, and with which values, in a run that does this:
/// stores a provider.
pub proof fn insert_provider_asks_first(
    st: RunView,
    provider: NewProvider,
    actor_subject: String,
)
    requires
        st.rest.len() == 0,
    ensures
        insert_provider_spec(st, provider, actor_subject).0 matches Err(HaltView::Ask(asked))
            && (
                asked matches script::CallView::Sql { sql, binds, .. }
                    && sql == INSERT_PROVIDER_SQL@
                    && binds == seq![
                        Bind::Id(provider.provider_id),
                        Bind::Text(provider.legal_name),
                        Bind::Text(provider.trade_name),
                        Bind::OptText(provider.tax_id),
                        Bind::OptText(provider.registration_number),
                        Bind::OptText(provider.email_address),
                        Bind::OptText(provider.website_url),
                        Bind::OptText(provider.mailing_address),
                        Bind::JsonText(provider.metadata),
                        Bind::Text(actor_subject),
                    ]
            ),
{
}

/// What the database is told, and with which values, where a run succeeds that does this:
/// stores a provider.
#[verifier::rlimit(60)]
pub proof fn insert_provider_is_told(
    st: RunView,
    provider: NewProvider,
    actor_subject: String,
)
    ensures
        ({
            let (ended, after) = insert_provider_spec(st, provider, actor_subject);
            let log = after.log;
            ended is Ok ==> {
                &&& script::ran(
                    log,
                    INSERT_PROVIDER_SQL@,
                    seq![
                        Bind::Id(provider.provider_id),
                        Bind::Text(provider.legal_name),
                        Bind::Text(provider.trade_name),
                        Bind::OptText(provider.tax_id),
                        Bind::OptText(provider.registration_number),
                        Bind::OptText(provider.email_address),
                        Bind::OptText(provider.website_url),
                        Bind::OptText(provider.mailing_address),
                        Bind::JsonText(provider.metadata),
                        Bind::Text(actor_subject),
                    ],
                )
            }
        }),
{
    broadcast use {script::runs_on_with_another, script::told_where_with_another};

}

/// What is asked first, and with which values, in a run that does this:
/// stores a contact of a provider.
pub proof fn insert_contact_asks_first(
    st: RunView,
    contact: ProviderContact,
    provider_id: Uuid,
    actor_subject: String,
)
    requires
        st.rest.len() == 0,
    ensures
        insert_contact_spec(
            st,
            contact,
            provider_id,
            actor_subject,
        ).0 matches Err(HaltView::Ask(asked))
            && (
                asked matches script::CallView::Sql { sql, binds, .. } && sql == INSERT_CONTACT_SQL@
                    && binds == seq![
                        Bind::Id(contact.provider_contact_id),
                        Bind::Id(provider_id),
                        Bind::Text(contact.contact_type),
                        Bind::OptText(contact.name),
                        Bind::OptText(contact.email),
                        Bind::OptText(contact.phone),
                        Bind::OptText(contact.mobile),
                        Bind::Flag(contact.sms_enabled),
                        Bind::JsonText(contact.metadata),
                        Bind::Text(actor_subject),
                    ]
            ),
{
}

/// What the database is told, and with which values, where a run succeeds that does this:
/// stores a contact of a provider.
#[verifier::rlimit(60)]
pub proof fn insert_contact_is_told(
    st: RunView,
    contact: ProviderContact,
    provider_id: Uuid,
    actor_subject: String,
)
    ensures
        ({
            let (ended, after) = insert_contact_spec(st, contact, provider_id, actor_subject);
            let log = after.log;
            ended is Ok ==> {
                &&& script::ran(
                    log,
                    INSERT_CONTACT_SQL@,
                    seq![
                        Bind::Id(contact.provider_contact_id),
                        Bind::Id(provider_id),
                        Bind::Text(contact.contact_type),
                        Bind::OptText(contact.name),
                        Bind::OptText(contact.email),
                        Bind::OptText(contact.phone),
                        Bind::OptText(contact.mobile),
                        Bind::Flag(contact.sms_enabled),
                        Bind::JsonText(contact.metadata),
                        Bind::Text(actor_subject),
                    ],
                )
            }
        }),
{
    broadcast use {script::runs_on_with_another, script::told_where_with_another};

}

/// What the database is told, and with which values, where a run succeeds that does this:
/// stores the operational profile that a provider begins with.
#[verifier::rlimit(60)]
pub proof fn insert_operational_profile_is_told(
    st: RunView,
    provider: NewProvider,
    actor_subject: String,
)
    ensures
        ({
            let (ended, after) = insert_operational_profile_spec(st, provider, actor_subject);
            let log = after.log;
            ended is Ok ==> {
                &&& script::told_where(
                    log,
                    OPERATIONAL_PROFILE_INSERT_SQL@,
                    |b: Seq<Bind>| b.len() == 9 && b[1] == Bind::Id(provider.provider_id)
                        && b[2] == Bind::Rfc3339Time(provider.operational_profile.effective_at)
                        && b[3] == Bind::Rfc3339Time(provider.operational_profile.effective_at)
                        && b[4] == Bind::Text(provider.operational_profile.controls)
                        && b[5] == Bind::Text(actor_subject) && b[6] == Bind::Text(actor_subject)
                        && b[7] == Bind::Label("initial provider operational profile")
                        && b[8] == Bind::Rfc3339Time(provider.operational_profile.effective_at),
                ) > 0
            }
        }),
{
    broadcast use {script::runs_on_with_another, script::told_where_with_another};

}

/// What the database is told, and with which values, where a run succeeds that does this:
/// stores a ledger account of a provider.
#[verifier::rlimit(60)]
pub proof fn insert_ledger_mapping_is_told(
    st: RunView,
    category: ProviderAccountCategory,
    provider_id: Uuid,
)
    ensures
        ({
            let (ended, after) = insert_ledger_mapping_spec(st, category, provider_id);
            let log = after.log;
            ended is Ok ==> {
                &&& script::told_where(
                    log,
                    INSERT_MAPPING_SQL@,
                    |b: Seq<Bind>| b.len() == 4 && b[1] == Bind::Id(provider_id)
                        && b[2] == Bind::Label(category.code()),
                ) > 0
            }
        }),
{
    broadcast use {script::runs_on_with_another, script::told_where_with_another};

}

/// What the database is told, and with which values, where a run succeeds that does this:
/// stores an event subscription of a provider, disabled.
#[verifier::rlimit(60)]
pub proof fn seed_subscription_is_told(
    st: RunView,
    event_type: String,
    provider_id: Uuid,
    actor_subject: String,
)
    ensures
        ({
            let (ended, after) = seed_subscription_spec(st, event_type, provider_id, actor_subject);
            let log = after.log;
            ended is Ok ==> {
                &&& script::told_where(
                    log,
                    SEED_SUBSCRIPTION_SQL@,
                    |b: Seq<Bind>| b.len() == 4 && b[1] == Bind::Id(provider_id)
                        && b[2] == Bind::Text(event_type) && b[3] == Bind::Text(actor_subject),
                ) > 0
            }
        }),
{
    broadcast use {script::runs_on_with_another, script::told_where_with_another};

}

/// What the database is told, and with which values, where a run succeeds that does this:
/// stores a provisioning job.
#[verifier::rlimit(60)]
pub proof fn insert_provisioning_job_is_told(
    st: RunView,
    provider_id: Uuid,
    job_type: &'static str,
    request: Document,
)
    ensures
        ({
            let (ended, after) = insert_provisioning_job_spec(st, provider_id, job_type, request);
            let log = after.log;
            ended is Ok ==> {
                &&& script::told_where(
                    log,
                    INSERT_JOB_SQL@,
                    |b: Seq<Bind>| b.len() == 4 && b[1] == Bind::Id(provider_id)
                        && b[2] == Bind::Label(job_type) && b[3] == Bind::Json(request),
                ) > 0
            }
        }),
{
    broadcast use {script::runs_on_with_another, script::told_where_with_another};

}

/// What is asked first, and with which values, in a run that does this:
/// a provider.
pub proof fn get_provider_asks_first(
    st: RunView,
    provider_id: Uuid,
)
    requires
        st.rest.len() == 0,
    ensures
        get_provider_spec(st, provider_id).0 matches Err(HaltView::Ask(asked))
            && (
                asked matches script::CallView::Sql { sql, binds, .. }
                    && sql == PROVIDER_SELECT_SQL@ && binds == seq![Bind::Id(provider_id)]
            ),
{
}

/// Each value is read from its own column: the listed provider that a row holds.
#[verifier::rlimit(60)]
pub proof fn map_provider_list_row_is_read_by_column(
    row: Row,
)
    ensures
        map_provider_list_row_spec(row) matches Ok(read) ==> {
            &&& read.provider_id == row.id_at(0, READ_ROW@)->Ok_0
            &&& read.legal_name == row.text_at(1, READ_ROW@)->Ok_0
            &&& read.trade_name == row.text_at(2, READ_ROW@)->Ok_0
            &&& read.tax_id == row.opt_text_at(3, READ_ROW@)->Ok_0
            &&& read.status == (ProviderStatus::of_code(row.text_at(4, READ_ROW@)->Ok_0@))->Some_0
            &&& read.created_at == script::time_of(
                row.text_at(5, READ_ROW@)->Ok_0@,
                "invalid provider timestamp"@,
            )->Ok_0
            &&& read.updated_at == script::time_of(
                row.text_at(6, READ_ROW@)->Ok_0@,
                "invalid provider timestamp"@,
            )->Ok_0
        },
{
    reveal(map_provider_list_row_spec);
}

/// What is asked first, and with which values, in a run that does this:
/// a page of the providers that a query selects, newest first.
pub proof fn list_providers_asks_first(
    st: RunView,
    query: ProviderListQuery,
)
    requires
        st.rest.len() == 0,
    ensures
        list_providers_spec(st, query).0 matches Err(HaltView::Ask(asked))
            && (
                asked matches script::CallView::Sql { sql, binds, .. } && sql == PROVIDER_LIST_SQL@
                    && binds == seq![
                        Bind::OptLabel(status_filter_spec(query.status)),
                        Bind::OptText(query.tax_id),
                        Bind::OptTime(cursor_time_spec(query.cursor)),
                        Bind::OptId(cursor_id_spec(query.cursor)),
                        Bind::Int(page::fetch_limit_spec(query.limit)),
                    ]
            ),
{
}

/// Each value is read from its own column: the ledger account that a row holds.
#[verifier::rlimit(60)]
pub proof fn map_ledger_mapping_is_read_by_column(
    row: Row,
)
    ensures
        map_ledger_mapping_spec(row) matches Ok(read) ==> {
            &&& read.category == (
                ProviderAccountCategory::of_code(row.text_at(0, READ_ROW@)->Ok_0@)
            )->Some_0
            &&& read.tigerbeetle_account_id == row.id_at(1, READ_ROW@)->Ok_0
            &&& read.status == row.text_at(2, READ_ROW@)->Ok_0
        },
{
}

/// What is asked first, and with which values, in a run that does this:
/// the ledger accounts of a provider.
pub proof fn get_provider_ledger_mappings_asks_first(
    st: RunView,
    provider_id: Uuid,
)
    requires
        st.rest.len() == 0,
    ensures
        get_provider_ledger_mappings_spec(st, provider_id).0 matches Err(HaltView::Ask(asked))
            && (
                asked matches script::CallView::Sql { sql, binds, .. }
                    && sql == LEDGER_MAPPINGS_SQL@ && binds == seq![Bind::Id(provider_id)]
            ),
{
}

/// What the database is told, and with which values, where a run succeeds that does this:
/// marks a provider whose ledger accounts are provisioned as ready.
#[verifier::rlimit(60)]
pub proof fn mark_provider_ready_is_told(
    st: RunView,
    provider_id: Uuid,
)
    ensures
        ({
            let (ended, after) = mark_provider_ready_spec(st, provider_id);
            let log = after.log;
            ended is Ok ==> {
                &&& script::ran(log, ACTIVATE_MAPPINGS_SQL@, seq![Bind::Id(provider_id)])
                &&& script::ran(log, COMPLETE_JOB_SQL@, seq![Bind::Id(provider_id)])
                &&& script::ran(log, MARK_READY_SQL@, seq![Bind::Id(provider_id)])
            }
        }),
{
    broadcast use {script::runs_on_with_another, script::told_where_with_another};

}

} // verus!
