//! Background work, migrations and health, replayed call by call.
use wurzburg::db::error::DbError;
use wurzburg::db::oracle::consult::Answer;
use wurzburg::db::oracle::health::OracleHealthRepository;
use wurzburg::db::oracle::migrations::{wurzburg_migrations, OracleMigration, OracleMigrator};
use wurzburg::db::oracle::outbox::{ClaimedOutboxDelivery, EnvelopeKeys};
use wurzburg::db::oracle::provider_event_subscription::{
    subscription_snapshot, ProviderEventSubscriptionRecord, SubscriptionHeader,
};
use wurzburg::db::oracle::repository::OracleRepository;
use wurzburg::db::oracle::script::{
    Call, Cell, Failure, Halt, Mode, Reply, Row, Rows, Session, UNEXPECTED_REPLY,
};
use wurzburg::db::oracle::types::uuid_to_raw16;
use wurzburg::db::oracle::values::BindValue;
use wurzburg::db::oracle::wal_recovery::{to_retry_terms, ClaimedWalRecovery};
use wurzburg::uuid::Uuid;

/// Runs a script as a driver does: call by call, each reply appended to the transcript. Yields the
/// calls it made and its result.
fn drive<T>(
    script: impl Fn(&mut Session<'_>) -> Result<T, Halt>,
    replies: Vec<Reply>,
) -> (Vec<Call>, Result<T, DbError>) {
    let mut pending = replies.into_iter();
    let mut transcript = Vec::new();
    let mut calls = Vec::new();
    loop {
        let asked = {
            let mut session = Session::new(&transcript);
            match script(&mut session) {
                Ok(value) => {
                    assert!(session.is_exhausted(), "a reply was not read");
                    return (calls, Ok(value));
                }
                Err(Halt::Fail(error)) => return (calls, Err(error)),
                Err(Halt::Ask(call)) => call,
            }
        };
        match &asked {
            Call::Sql(c) => println!("{:?} {}", c.mode, c.sql),
            Call::Consult(..) => println!("consult"),
        }
        calls.push(asked);
        transcript.push(pending.next().expect("the script asks for another reply"));
    }
}

/// The statements among calls that change something.
fn changes(calls: &[Call]) -> usize {
    calls
        .iter()
        .filter(|call| matches!(call, Call::Sql(c) if c.mode == Mode::Execute))
        .count()
}

fn id(n: u128) -> Uuid {
    Uuid::from_u128(n)
}

fn raw(n: u128) -> Cell {
    Cell::Raw(uuid_to_raw16(id(n)).to_vec())
}

fn text(value: &str) -> Cell {
    Cell::Text(value.to_string())
}

fn rows(list: Vec<Vec<Cell>>) -> Reply {
    let rows = list.into_iter().map(|cells| Row { cells }).collect();
    Reply::Rows(Rows { rows, failure: None })
}

fn touched(count: u64) -> Reply {
    Reply::Executed(Ok(count))
}

fn due_event(n: u128, attempts: i64) -> Vec<Cell> {
    vec![
        raw(n),
        raw(n + 100),
        text("card.created"),
        text("CARD"),
        raw(n + 200),
        text("partition"),
        text("{}"),
        Cell::Null,
        Cell::Int(attempts),
        Cell::Int(1),
        text("INTERNAL"),
        Cell::Null,
        Cell::Null,
    ]
}

fn envelope(n: u128) -> Reply {
    Reply::Answer(Answer::Envelope(Some(EnvelopeKeys {
        event_id: id(n),
        operation_id: id(n + 100),
        event_type: "card.created".to_string(),
        aggregate_type: "CARD".to_string(),
        aggregate_id: id(n + 200),
    })))
}

fn worker() -> String {
    "worker-1".to_string()
}

#[test]
fn worker_gets_no_more_events_than_a_batch_holds() {
    let (calls, result) = drive(
        |s| OracleRepository::claim_outbox_batch(s, &worker(), 1, 5_000),
        vec![
            touched(0),
            rows(vec![due_event(1, 0), due_event(2, 0)]),
            envelope(1),
            touched(1),
            touched(1),
        ],
    );
    let claimed = result.unwrap();
    assert_eq!(claimed.len(), 1);
    assert_eq!(claimed[0].event_id, id(1));
    assert_eq!(claimed[0].attempt_count, 1);
    assert!(matches!(claimed[0].delivery, ClaimedOutboxDelivery::Internal));
    assert_eq!(changes(&calls), 3);
}

#[test]
fn event_that_is_not_what_its_columns_say_is_not_handed_out() {
    let claim = |s: &mut Session<'_>| OracleRepository::claim_outbox_batch(s, &worker(), 2, 5_000);
    let (_, result) = drive(claim, vec![touched(0), rows(vec![due_event(1, 0)]), envelope(2)]);
    assert!(matches!(result, Err(DbError::Query(m)) if m.contains("does not match indexed event columns")));
    let mut unreadable = due_event(1, 0);
    unreadable[6] = text("{");
    let (_, result) = drive(claim, vec![touched(0), rows(vec![unreadable])]);
    assert!(matches!(result, Err(DbError::Query(m)) if m == "stored outbox payload is invalid JSON"));
    let mut stray = due_event(1, 0);
    stray[10] = text("ELSEWHERE");
    let (_, result) = drive(claim, vec![touched(0), rows(vec![stray])]);
    assert!(matches!(result, Err(DbError::Query(m)) if m == "stored outbox delivery channel is invalid"));
    let mut unaddressed = due_event(1, 0);
    unaddressed[10] = text("PROVIDER");
    unaddressed[11] = raw(9);
    let (_, result) = drive(claim, vec![touched(0), rows(vec![unaddressed])]);
    assert!(matches!(result, Err(DbError::Conflict(m)) if m == "provider Kafka access is not active"));
}

#[test]
fn attempts_are_counted_as_far_as_they_fit() {
    let (_, result) = drive(
        |s| OracleRepository::claim_outbox_batch(s, &worker(), 1, 5_000),
        vec![
            touched(0),
            rows(vec![due_event(1, i64::MAX)]),
            envelope(1),
            touched(1),
            touched(1),
        ],
    );
    assert_eq!(result.unwrap()[0].attempt_count, u32::MAX);
}

#[test]
fn lost_lease_settles_no_event() {
    let (calls, result) = drive(
        |s| OracleRepository::mark_outbox_published(s, id(1), &worker()),
        vec![touched(0)],
    );
    assert!(matches!(result, Err(DbError::Conflict(_))));
    assert_eq!(calls.len(), 1);
    let (calls, result) = drive(
        |s| OracleRepository::mark_outbox_published(s, id(1), &worker()),
        vec![touched(1), touched(1)],
    );
    assert!(result.is_ok());
    assert_eq!(calls.len(), 2);
}

#[test]
fn event_given_up_takes_its_operation_along() {
    let reschedule = |dead: bool, replies: Vec<Reply>| {
        drive(
            |s| OracleRepository::reschedule_outbox_event(s, id(1), &worker(), dead, 250),
            replies,
        )
    };
    let (calls, result) = reschedule(true, vec![touched(1), touched(1)]);
    assert!(result.is_ok());
    assert_eq!(calls.len(), 2);
    let (calls, result) = reschedule(false, vec![touched(1)]);
    assert!(result.is_ok());
    match &calls[0] {
        Call::Sql(c) => assert!(matches!(c.binds[0].value(), BindValue::Int(Some(250)))),
        Call::Consult(..) => panic!("a statement is run"),
    }
    let (_, result) = reschedule(false, vec![touched(0)]);
    assert!(matches!(result, Err(DbError::Conflict(_))));
}

#[test]
fn evidence_that_is_stored_already_is_no_failure() {
    let record = |reply: Reply| {
        drive(
            |s| {
                OracleRepository::record_kafka_poison_message(
                    s,
                    &"topic".to_string(),
                    3,
                    42,
                    &None,
                    "INVALID_JSON",
                )
            },
            vec![Reply::Answer(Answer::Id(id(1))), reply],
        )
        .1
    };
    assert!(record(touched(1)).is_ok());
    assert!(record(failure("ORA-00001: unique constraint")).is_ok());
    assert!(matches!(record(failure("ORA-01400")), Err(DbError::Query(_))));
}

fn failure(text: &str) -> Reply {
    Reply::Failed(Failure { text: text.to_string(), no_data: false })
}

#[test]
fn intents_are_leased_up_to_a_batch() {
    let claim = vec![raw(1), text("PROVIDER_CREDIT_MOVEMENT"), raw(2), Cell::Int(4)];
    let other = vec![raw(3), text("PROVIDER_CREDIT_MOVEMENT"), raw(4), Cell::Int(0)];
    let (calls, result) = drive(
        |s| OracleRepository::claim_recoverable_wal(s, &worker(), 1, 5_000, 60_000),
        vec![touched(0), rows(vec![claim, other]), touched(1)],
    );
    let claimed = result.unwrap();
    assert_eq!(claimed.len(), 1);
    assert_eq!(claimed[0].operation_id, id(1));
    assert_eq!(changes(&calls), 2);
}

#[test]
fn exhausted_intent_is_given_up() {
    assert_eq!(to_retry_terms(true, 250), ("DEAD_LETTER", None));
    assert_eq!(to_retry_terms(false, 250), ("FAILED", Some(250)));
    let (_, result) = drive(
        |s| {
            OracleRepository::reschedule_wal_recovery(s, id(1), &worker(), 250, true, "LEDGER_DOWN")
        },
        vec![touched(0)],
    );
    assert!(matches!(result, Err(DbError::Conflict(m)) if m == "operation WAL lease is no longer owned"));
}

#[test]
fn unknown_intent_is_left_alone() {
    let job = ClaimedWalRecovery {
        operation_id: id(1),
        operation_type: "SOMETHING_ELSE".to_string(),
        aggregate_id: id(2),
        attempt_count: 0,
    };
    let (_, result) = drive(
        |s| OracleRepository::load_wal_recovery_work(s, &job),
        vec![rows(vec![vec![text("{}")]])],
    );
    assert!(result.unwrap().is_none());
}

#[test]
fn jobs_are_leased_up_to_a_batch() {
    let job = |n: u128| vec![raw(n), raw(n + 1), Cell::Int(2)];
    let (calls, result) = drive(
        |s| OracleRepository::claim_provider_core_jobs(s, &worker(), 1, 5_000),
        vec![touched(0), rows(vec![job(1), job(5)]), touched(1)],
    );
    assert_eq!(result.unwrap().len(), 1);
    assert_eq!(changes(&calls), 2);
    let (_, result) = drive(
        |s| {
            OracleRepository::retry_or_fail_provider_core_job(
                s,
                id(1),
                id(2),
                &worker(),
                250,
                false,
                "LEDGER_DOWN",
            )
        },
        vec![touched(0)],
    );
    assert!(matches!(result, Err(DbError::Conflict(_))));
}

fn migration() -> OracleMigration {
    wurzburg_migrations("CREATE TABLE a (id NUMBER);\nCREATE TABLE b (id NUMBER);", "SELECT 2", "SELECT 3")
        .swap_remove(0)
}

#[test]
fn migration_is_applied_once() {
    let apply = |s: &mut Session<'_>| OracleMigrator::apply(s, &migration());
    let (calls, result) = drive(
        apply,
        vec![
            failure("ORA-00942: table or view does not exist"),
            touched(0),
            touched(0),
            touched(1),
            touched(0),
        ],
    );
    assert!(result.is_ok());
    let run: Vec<&str> = calls
        .iter()
        .map(|call| match call {
            Call::Sql(c) => c.sql.as_str(),
            Call::Consult(..) => "",
        })
        .collect();
    assert_eq!(run[1..3], ["CREATE TABLE a (id NUMBER)", "CREATE TABLE b (id NUMBER)"]);
    let (calls, result) = drive(apply, vec![rows(vec![vec![text(&migration().checksum)]])]);
    assert!(result.is_ok());
    assert_eq!(calls.len(), 1);
    let (_, result) = drive(apply, vec![rows(vec![vec![text("other")]])]);
    assert!(matches!(result, Err(DbError::Configuration(m)) if m.contains("checksum mismatch")));
    let (_, result) = drive(apply, vec![failure("ORA-12170: timeout")]);
    assert!(matches!(result, Err(DbError::Query(_))));
}

#[test]
fn schema_is_verified_without_a_change() {
    let migrations = vec![migration()];
    let verify = |s: &mut Session<'_>| OracleMigrator::verify(s, &migrations);
    let applied = || rows(vec![vec![text(&migration().checksum)]]);
    let (calls, result) = drive(verify, vec![applied(), rows(vec![vec![Cell::Int(1)]])]);
    assert!(result.is_ok());
    assert_eq!(changes(&calls), 0);
    let (_, result) = drive(verify, vec![applied(), rows(vec![vec![Cell::Int(2)]])]);
    assert!(matches!(result, Err(DbError::Configuration(_))));
    let missing = Reply::Failed(Failure { text: "no data".to_string(), no_data: true });
    let (_, result) = drive(verify, vec![missing]);
    assert!(matches!(result, Err(DbError::Configuration(m)) if m.contains("is not applied")));
}

#[test]
fn reset_drops_tables_that_are_there() {
    let mut replies = vec![touched(0)];
    let (calls, _) = {
        let mut count = 0;
        loop {
            let mut trial: Vec<Reply> = vec![touched(0)];
            for _ in 0..count {
                trial.push(failure("ORA-00942: table or view does not exist"));
            }
            let mut session = Session::new(&trial);
            match OracleMigrator::reset_schema(&mut session) {
                Err(Halt::Ask(Call::Sql(c))) if c.mode == Mode::Commit => break,
                Err(Halt::Ask(_)) => count += 1,
                _ => panic!("the reset goes on to its commit"),
            }
        }
        for _ in 0..count {
            replies.push(failure("ORA-00942: table or view does not exist"));
        }
        replies.push(touched(0));
        drive(OracleMigrator::reset_schema, replies)
    };
    assert!(calls.len() > 10);
    let (_, result) = drive(OracleMigrator::reset_schema, vec![touched(0), failure("ORA-00054")]);
    assert!(matches!(result, Err(DbError::Query(m)) if m.contains("failed to drop Oracle table")));
}

#[test]
fn health_tells_the_time_of_the_database() {
    let (_, result) = drive(
        OracleHealthRepository::check,
        vec![rows(vec![vec![text("2024-05-01T10:00:00.000Z")]])],
    );
    assert_eq!(result.unwrap().database_time_utc, "2024-05-01T10:00:00.000Z");
}

#[test]
fn reply_of_another_kind_is_a_failure() {
    let (_, result) = drive(OracleHealthRepository::check, vec![touched(1)]);
    assert!(matches!(result, Err(DbError::Query(m)) if m.contains(UNEXPECTED_REPLY)));
    let (_, result) = drive(
        OracleHealthRepository::check,
        vec![rows(vec![vec![Cell::Unreadable("bad column".to_string())]])],
    );
    assert!(matches!(result, Err(DbError::Query(m)) if m.contains("bad column")));
}

#[test]
fn open_gate_lets_events_through() {
    let header = |global: bool, provider: bool, status: &str| SubscriptionHeader {
        provider_id: id(1),
        version: 1,
        global_delivery_enabled: global,
        provider_delivery_enabled: provider,
        provider_status: status.to_string(),
        credential_status: Some("ACTIVE".to_string()),
    };
    let list = vec![ProviderEventSubscriptionRecord {
        event_type: "credit.granted".to_string(),
        enabled: true,
    }];
    let read: serde_json::Value =
        serde_json::from_str(&subscription_snapshot(&header(true, true, "ACTIVE"), &list)).unwrap();
    assert_eq!(read["version"], 1);
    assert!(read.is_object());
}
