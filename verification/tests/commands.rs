//! Commands, replayed call by call.
use wurzburg::db::error::DbError;
use wurzburg::db::oracle::answers;
use wurzburg::db::oracle::audit::audit_insert_sql;
use wurzburg::db::oracle::card_funding::{
    collect_sources, previous_order_text, same_providers, FundingOrderCommand,
    FundingOrderPersistenceOutcome,
};
use wurzburg::db::oracle::card_issuance::PrepareCardIssuanceBatchOutcome;
use wurzburg::db::oracle::card_issuance_result::BeginIssuanceResultOutcome;
use wurzburg::db::oracle::card_policy::{
    PolicyReceiptPersistenceOutcome, SetCardPolicyPersistenceOutcome,
};
use wurzburg::db::oracle::card_range::{self, CreateCardRangePersistenceOutcome};
use wurzburg::db::oracle::card_range_command::{
    self, CardRangeMutation, CardRangeMutationPersistenceOutcome,
};
use wurzburg::db::oracle::consult::{Answer, Attachment, Rule};
use wurzburg::db::oracle::idempotency::idempotency_complete_sql;
use wurzburg::db::oracle::provider_credit::{
    enqueue_event, settle_begin, store_movement, BeginCreditMovementOutcome,
};
use wurzburg::db::oracle::provider_event_subscription::ProviderEventSubscriptionUpdateOutcome;
use wurzburg::db::oracle::provider_identity::{
    apply_field, provider_identity_update_sql, ProviderIdentityMutationOutcome,
};
use wurzburg::db::oracle::provider_kafka::{
    ProviderKafkaCommandAction, ProviderKafkaCommandOutcome,
};
use wurzburg::db::oracle::provider_lifecycle::ProviderLifecycleOutcome;
use wurzburg::db::oracle::provider_operational_profile::{
    CancelProviderOperationalProfilePersistenceOutcome,
    SetProviderOperationalProfilePersistenceOutcome,
};
use wurzburg::db::oracle::provider_range::{
    self, attach, ProviderRangeAssignmentOutcome, TargetRange,
};
use wurzburg::db::oracle::provider_user::{
    enroll_again, enroll_first_time, insert_card_projection_outbox, within_limit, EnrollProviderUserPersistenceOutcome,
    ExistingProviderUserRelationship, UserIdentity,
};
use wurzburg::db::oracle::repository::OracleRepository;
use wurzburg::db::oracle::script::{Call, Cell, Failure, Halt, Mode, Reply, Row, Rows, Session};
use wurzburg::db::oracle::types::uuid_to_raw16;
use wurzburg::db::oracle::values::BindValue;
use wurzburg::domain::audit::TrustedAuditContext;
use wurzburg::domain::card_policy::{DesiredCardPolicy, PolicyMaterializationReceipt};
use wurzburg::domain::card_range::{
    CardNumberRange, CardRangeStatus, FundingMode, NewCardRange, WithdrawalLimitAuthority,
};
use wurzburg::domain::command::{
    Actor, DurableMutationContext, HeaderSource, MutationCommandContext, RequestIdentity,
};
use wurzburg::domain::idempotency::NewIdempotencyRecord;
use wurzburg::domain::provider::{
    DesiredProviderOperationalProfile, FieldUpdate, ProviderIdentityUpdate, ProviderStatus,
};
use wurzburg::domain::provider_credit::{CreditMovementIntent, CreditMovementType};
use wurzburg::domain::provider_event::ProviderEventCatalog;
use wurzburg::domain::user_card::{
    CardInstruction, FundingOrderSource, NewProviderUserEnrollment,
};
use wurzburg::time::UtcTime;
use wurzburg::uuid::Uuid;

/// Runs a script as a driver does: call by call, each reply appended to the transcript. Yields the
/// calls it made and its result.
fn drive<T>(
    script: impl Fn(&mut Session<'_>) -> Result<T, Halt>,
    replies: Vec<Reply>,
) -> (Vec<Call>, Result<T, DbError>) {
    let mut pending = replies.into_iter();
    let mut transcript = Vec::new();
    let mut calls = Vec::new();
    loop {
        let asked = {
            let mut session = Session::new(&transcript);
            match script(&mut session) {
                Ok(value) => {
                    assert!(session.is_exhausted(), "a reply was not read");
                    return (calls, Ok(value));
                }
                Err(Halt::Fail(error)) => return (calls, Err(error)),
                Err(Halt::Ask(call)) => call,
            }
        };
        match &asked {
            Call::Sql(c) => println!("{:?} {}", c.mode, c.sql),
            Call::Consult(..) => println!("consult"),
        }
        calls.push(asked);
        transcript.push(pending.next().expect("the script asks for another reply"));
    }
}

/// The statements among calls that change something.
fn changes(calls: &[Call]) -> usize {
    calls
        .iter()
        .filter(|call| matches!(call, Call::Sql(c) if c.mode == Mode::Execute))
        .count()
}

fn id(n: u128) -> Uuid {
    Uuid::from_u128(n)
}

fn raw(n: u128) -> Cell {
    Cell::Raw(uuid_to_raw16(id(n)).to_vec())
}

fn text(value: &str) -> Cell {
    Cell::Text(value.to_string())
}

fn rows(list: Vec<Vec<Cell>>) -> Reply {
    let rows = list.into_iter().map(|cells| Row { cells }).collect();
    Reply::Rows(Rows { rows, failure: None })
}

fn row(cells: Vec<Cell>) -> Reply {
    rows(vec![cells])
}

fn touched(count: u64) -> Reply {
    Reply::Executed(Ok(count))
}

fn nothing() -> Reply {
    rows(Vec::new())
}

fn no_data() -> Reply {
    Reply::Failed(Failure { text: "no data found".to_string(), no_data: true })
}

fn answer(text: &str) -> Reply {
    Reply::Answer(Answer::Text(Ok(text.to_string())))
}

const AT: &str = "2024-05-01T10:00:00.000Z";

fn context() -> MutationCommandContext {
    MutationCommandContext {
        operation_type: "OPERATION".to_string(),
        idempotency_key: "key-1".to_string(),
        request_hash: "hash-1".to_string(),
        actor: Actor { subject: "operator".to_string() },
        request: RequestIdentity { correlation_id: "c".to_string(), request_id: "r".to_string() },
        record: NewIdempotencyRecord {
            idempotency_record_id: id(900),
            operation_type: "OPERATION".to_string(),
            idempotency_key: "key-1".to_string(),
            request_hash: "hash-1".to_string(),
            created_by_subject: "operator".to_string(),
            created_by_client_id: None,
            actor_provider_id: None,
            actor_user_id: None,
            correlation_id: "c".to_string(),
            request_id: "r".to_string(),
        },
        audit: TrustedAuditContext {
            actor_subject: "operator".to_string(),
            actor_client_id: None,
            actor_provider_id: None,
            actor_user_id: None,
            actor_issuer: None,
            source_ip: None,
            correlation_id: "c".to_string(),
            request_id: "r".to_string(),
        },
    }
}

/// A stored record with a status, a request hash and a response.
fn record(status: &str, hash: &str, response: Option<&str>) -> Reply {
    row(vec![
        raw(900),
        text("OPERATION"),
        text("key-1"),
        text(hash),
        text(status),
        Cell::Null,
        Cell::Null,
        response.map_or(Cell::Null, text),
        Cell::Null,
        text("operator"),
        Cell::Null,
        Cell::Null,
        Cell::Null,
        text("c"),
        text("r"),
        text(AT),
        text(AT),
        Cell::Null,
    ])
}

fn completed() -> Vec<Reply> {
    vec![record("COMPLETED", "hash-1", Some(r#"{"stored":true}"#))]
}

const STORED: &str = r#"{"stored":true}"#;

fn new_range() -> NewCardRange {
    NewCardRange {
        card_range_id: id(10),
        numbers: CardNumberRange { start: "5000".to_string(), end: "5999".to_string() },
        funding_mode: FundingMode::MultiProvider,
        withdrawal_limit_authority: WithdrawalLimitAuthority::Platform,
        limit_calendar: None,
        issuance_enabled: true,
        cms_operation_mode: "ONLINE".to_string(),
        metadata_json: "{}".to_string(),
    }
}

fn range_row() -> Reply {
    stored_range("DRAFT", 1)
}

fn stored_range(status: &str, issuance: i64) -> Reply {
    row(vec![
        raw(10),
        text("5000"),
        text("5999"),
        text("MULTI_PROVIDER"),
        text("PLATFORM"),
        Cell::Null,
        text(status),
        Cell::Int(issuance),
        text("ONLINE"),
        Cell::Int(1),
        Cell::Int(0),
        Cell::Null,
        text("{}"),
        text("operator"),
        text("operator"),
        text(AT),
        text(AT),
    ])
}

#[test]
fn range_is_created_with_evidence() {
    let (calls, result) = drive(
        |s| OracleRepository::create_card_range_atomic(s, &context(), &new_range()),
        vec![
            nothing(),
            row(vec![text("CARD_RANGE_STRUCTURE")]),
            nothing(),
            row(vec![Cell::Int(0)]),
            touched(1),
            touched(1),
            range_row(),
            Reply::Answer(Answer::Flag(true)),
            answer(r#"{"card_range_id":"x"}"#),
            Reply::Answer(Answer::Id(id(77))),
            answer(r#"{"card_range_id":"x"}"#),
            touched(1),
            touched(1),
        ],
    );
    match result.unwrap() {
        CreateCardRangePersistenceOutcome::Created(range) => {
            assert_eq!(range.card_range_id, id(10));
            assert_eq!(range.status, CardRangeStatus::Draft);
            assert!(range.issuance_enabled);
        }
        _ => panic!("the range was not created"),
    }
    assert_eq!(changes(&calls), 4);
    assert!(calls.iter().any(|call| matches!(call, Call::Sql(c) if c.sql == audit_insert_sql())));
    match calls.last().unwrap() {
        Call::Sql(c) => assert_eq!(c.sql, idempotency_complete_sql()),
        Call::Consult(..) => panic!("the record is completed last"),
    }
}

#[test]
fn overlapping_range_changes_nothing() {
    let (calls, result) = drive(
        |s| OracleRepository::create_card_range_atomic(s, &context(), &new_range()),
        vec![nothing(), row(vec![text("L")]), nothing(), row(vec![Cell::Int(1)])],
    );
    assert!(matches!(result.unwrap(), CreateCardRangePersistenceOutcome::Overlap));
    assert_eq!(changes(&calls), 0);
}

#[test]
fn flag_beyond_its_column_is_no_flag() {
    let read = |flag: i64| {
        drive(
            |s| card_range::fetch_card_range(s, id(10)),
            vec![stored_range("DRAFT", flag), Reply::Answer(Answer::Flag(true))],
        )
        .1
    };
    assert!(read(1).unwrap().issuance_enabled);
    assert!(!read(0).unwrap().issuance_enabled);
    assert!(!read(i64::from(i32::MAX)).unwrap().issuance_enabled);
    for flag in [i64::from(i32::MAX) + 1, i64::from(i32::MIN) - 1] {
        assert!(matches!(read(flag), Err(DbError::Query(_))));
    }
}

/// The statements of a text among calls.
fn statements<'a>(calls: &'a [Call], sql: &str) -> Vec<&'a Call> {
    calls.iter().filter(|call| matches!(call, Call::Sql(c) if c.sql == sql)).collect()
}

/// Whether a statement binds an identifier at a place.
fn binds_id(call: &Call, place: usize, n: u128) -> bool {
    match call {
        Call::Sql(c) => matches!(
            c.binds[place].value(),
            BindValue::Raw(Some(bytes)) if bytes == uuid_to_raw16(id(n)).to_vec()
        ),
        Call::Consult(..) => false,
    }
}

#[test]
fn changed_controls_are_published() {
    let mutation = CardRangeMutation::UpdateControls {
        issuance_enabled: false,
        cms_operation_mode: "OFFLINE".to_string(),
        reason: "audit".to_string(),
    };
    let known = || Reply::Answer(Answer::Flag(true));
    let (calls, result) = drive(
        |s| OracleRepository::mutate_card_range_atomic(s, &context(), id(10), &mutation),
        vec![
            nothing(),
            row(vec![text("CARD_RANGE_STRUCTURE")]),
            stored_range("ACTIVE", 1),
            known(),
            nothing(),
            Reply::Answer(Answer::Verdict(None)),
            touched(1),
            Reply::Answer(Answer::Id(id(50))),
            touched(1),
            stored_range("ACTIVE", 0),
            known(),
            touched(1),
            row(vec![raw(3)]),
            Reply::Answer(Answer::Id(id(51))),
            answer("\"ACTIVE\""),
            answer("\"OFFLINE\""),
            answer(r#"{"payload":1}"#),
            answer(r#"{"headers":1}"#),
            touched(1),
            answer("{}"),
            answer("{}"),
            Reply::Answer(Answer::Id(id(52))),
            answer("{}"),
            answer("{}"),
            touched(1),
            answer("{}"),
            touched(1),
        ],
    );
    match result.unwrap() {
        CardRangeMutationPersistenceOutcome::Applied(changed) => {
            assert_eq!(changed.operation_id, Some(id(50)));
        }
        _ => panic!("the controls were not changed"),
    }
    assert!(calls.iter().any(|call| matches!(
        call,
        Call::Consult(Rule::ControlChange(false, mode, reason), _)
            if mode == "OFFLINE" && reason == "audit"
    )));
    let stored = statements(&calls, card_range_command::CONTROL_OUTBOX_SQL);
    assert_eq!(stored.len(), 1);
    assert!(binds_id(stored[0], 0, 51));
    assert!(binds_id(stored[0], 1, 50));
    let told = calls.iter().find_map(|call| match call {
        Call::Consult(rule, attachment) => answers::event(rule, attachment),
        _ => None,
    });
    let (keys, payload) = told.unwrap();
    assert_eq!(keys.operation_id, id(50));
    let payload: serde_json::Value = serde_json::from_str(&payload).unwrap();
    assert_eq!(payload["card_range_id"], id(10).to_text());
    assert_eq!(payload["issuance_enabled"], false);
}

#[test]
fn draft_is_changed_as_it_is_asked_for() {
    let mutation = CardRangeMutation::UpdateDraft {
        values: r#"{"start":"7000"}"#.to_string(),
        reason: "audit".to_string(),
    };
    let (calls, result) = drive(
        |s| OracleRepository::mutate_card_range_atomic(s, &context(), id(10), &mutation),
        vec![
            nothing(),
            row(vec![text("CARD_RANGE_STRUCTURE")]),
            range_row(),
            Reply::Answer(Answer::Flag(true)),
            nothing(),
            Reply::Answer(Answer::Draft(Err("no such range".to_string()))),
        ],
    );
    assert!(matches!(
        result.unwrap(),
        CardRangeMutationPersistenceOutcome::ContractInvalid(_)
    ));
    assert_eq!(changes(&calls), 0);
    assert!(matches!(
        calls.last().unwrap(),
        Call::Consult(Rule::DraftUpdate(range, values, reason), _)
            if range.card_range_id == id(10)
                && values == r#"{"start":"7000"}"#
                && reason == "audit"
    ));
}

#[test]
fn provider_leaves_its_range_for_another() {
    let target = TargetRange {
        funding_mode: FundingMode::MultiProvider,
        authority: WithdrawalLimitAuthority::Platform,
        calendar_json: None,
        range_status: "ACTIVE".to_string(),
        issuance_enabled: true,
        cms_operation_mode: "ONLINE".to_string(),
        operational_version: 4,
    };
    let (calls, result) = drive(
        |s| {
            attach(
                s,
                &context(),
                id(3),
                id(10),
                &"r".to_string(),
                &target,
                Some(id(11)),
                None,
                None,
            )
        },
        vec![
            touched(1),
            touched(1),
            touched(1),
            Reply::Answer(Answer::Id(id(50))),
            touched(1),
            row(vec![raw(3)]),
            Reply::Answer(Answer::Id(id(51))),
            answer("{}"),
            answer("{}"),
            touched(1),
            Reply::Answer(Answer::Id(id(52))),
            answer("{}"),
            answer("{}"),
            touched(1),
            touched(1),
        ],
    );
    match result.unwrap() {
        ProviderRangeAssignmentOutcome::Applied(assigned) => {
            assert_eq!(assigned.range_control_operation_id, id(50));
            assert_eq!(assigned.policy_operation_id, None);
        }
        _ => panic!("the provider was not assigned"),
    }
    let left = statements(&calls, provider_range::SUSPEND_ASSIGNMENT_SQL);
    assert_eq!(left.len(), 1);
    assert!(binds_id(left[0], 1, 3) && binds_id(left[0], 2, 11));
    let taken = statements(&calls, provider_range::ASSIGN_SQL);
    assert_eq!(taken.len(), 1);
    assert!(binds_id(taken[0], 0, 10) && binds_id(taken[0], 1, 3));
    let stored = statements(&calls, provider_range::CONTROL_OUTBOX_SQL);
    assert_eq!(stored.len(), 1);
    assert!(binds_id(stored[0], 1, 50));
}

#[test]
fn range_creation_is_answered_from_its_record() {
    let create = |s: &mut Session<'_>| {
        OracleRepository::create_card_range_atomic(s, &context(), &new_range())
    };
    let (calls, result) = drive(create, completed());
    assert_eq!(calls.len(), 1);
    assert!(matches!(result.unwrap(), CreateCardRangePersistenceOutcome::Replayed(t) if t == STORED));
    let (_, result) = drive(create, vec![record("COMPLETED", "other", Some("{}"))]);
    assert!(matches!(result.unwrap(), CreateCardRangePersistenceOutcome::IdempotencyConflict));
    let (_, result) = drive(create, vec![record("IN_PROGRESS", "hash-1", None)]);
    assert!(matches!(result.unwrap(), CreateCardRangePersistenceOutcome::IdempotencyInProgress));
    let (_, result) = drive(create, vec![record("FAILED", "hash-1", None)]);
    assert!(matches!(result.unwrap(), CreateCardRangePersistenceOutcome::IdempotencyInvalidState));
    let (_, result) = drive(create, vec![record("UNHEARD_OF", "hash-1", None)]);
    assert!(matches!(result, Err(DbError::Query(m)) if m.contains("unknown idempotency status")));
    let (_, result) = drive(create, vec![record("COMPLETED", "hash-1", Some("no json"))]);
    assert!(matches!(result, Err(DbError::Query(_))));
}

#[test]
fn loser_of_a_race_is_answered_from_the_winners_record() {
    let (_, result) = drive(
        |s| OracleRepository::create_card_range_after_conflict(s, &context()),
        completed(),
    );
    assert!(matches!(result.unwrap(), CreateCardRangePersistenceOutcome::Replayed(t) if t == STORED));
    let (_, result) = drive(
        |s| OracleRepository::create_card_range_after_conflict(s, &context()),
        vec![nothing()],
    );
    assert!(matches!(result, Err(DbError::Query(_))));
}

#[test]
fn policy_command_is_answered_from_its_record() {
    let desired = DesiredCardPolicy { terms: "{}".to_string(), reason: "r".to_string() };
    let set = |s: &mut Session<'_>| {
        OracleRepository::set_card_policy_atomic(s, &context(), id(10), &desired)
    };
    let (calls, result) = drive(set, completed());
    assert_eq!(calls.len(), 1);
    assert!(matches!(result.unwrap(), SetCardPolicyPersistenceOutcome::Replayed(t) if t == STORED));
    let (calls, result) = drive(set, vec![nothing(), nothing()]);
    assert!(matches!(result.unwrap(), SetCardPolicyPersistenceOutcome::RangeNotFound));
    assert_eq!(changes(&calls), 0);
    let (calls, result) = drive(
        set,
        vec![
            nothing(),
            row(vec![text("SINGLE_PROVIDER"), text("CMS"), Cell::Null, Cell::Int(1)]),
            Reply::Answer(Answer::Verdict(Some("too low".to_string()))),
        ],
    );
    assert!(matches!(
        result.unwrap(),
        SetCardPolicyPersistenceOutcome::ContractInvalid(why) if why == "too low"
    ));
    assert_eq!(changes(&calls), 0);
}

#[test]
fn range_change_is_answered_from_its_record() {
    let mutation = CardRangeMutation::Suspend { reason: "audit".to_string() };
    let (calls, result) = drive(
        |s| OracleRepository::mutate_card_range_atomic(s, &context(), id(10), &mutation),
        completed(),
    );
    assert_eq!(calls.len(), 1);
    assert!(matches!(result.unwrap(), CardRangeMutationPersistenceOutcome::Replayed(t) if t == STORED));
}

#[test]
fn subscription_change_is_answered_from_its_record() {
    let catalog = ProviderEventCatalog {
        names: vec!["a".to_string()],
        credit_granted: "g".to_string(),
        credit_returned: "r".to_string(),
    };
    let (calls, result) = drive(
        |s| {
            OracleRepository::replace_provider_event_subscriptions_atomic(
                s,
                &context(),
                &catalog,
                id(1),
                1,
                &Vec::new(),
                &"r".to_string(),
            )
        },
        completed(),
    );
    assert_eq!(calls.len(), 1);
    assert!(matches!(
        result.unwrap(),
        ProviderEventSubscriptionUpdateOutcome::Replayed(t) if t == STORED
    ));
}

#[test]
fn access_command_is_answered_from_its_record() {
    let (calls, result) = drive(
        |s| {
            OracleRepository::command_provider_kafka_access_atomic(
                s,
                &context(),
                id(1),
                ProviderKafkaCommandAction::Suspend,
                &None,
                &"r".to_string(),
            )
        },
        completed(),
    );
    assert_eq!(calls.len(), 1);
    assert!(matches!(result.unwrap(), ProviderKafkaCommandOutcome::Replayed(t) if t == STORED));
}

#[test]
fn status_change_is_answered_from_its_record() {
    let change = |s: &mut Session<'_>| {
        OracleRepository::transition_provider_atomic(
            s,
            &context(),
            id(1),
            ProviderStatus::Active,
            &"r".to_string(),
        )
    };
    let (calls, result) = drive(change, completed());
    assert_eq!(calls.len(), 1);
    assert!(matches!(result.unwrap(), ProviderLifecycleOutcome::Replayed(t) if t == STORED));
    let (calls, result) = drive(change, vec![nothing(), nothing()]);
    assert!(matches!(result.unwrap(), ProviderLifecycleOutcome::NotFound));
    assert_eq!(changes(&calls), 0);
    let (_, result) = drive(change, vec![nothing(), row(vec![text("ASLEEP")])]);
    assert!(matches!(result, Err(DbError::Query(m)) if m == "unknown provider lifecycle status"));
}

#[test]
fn cancellation_is_answered_from_its_record() {
    let (calls, result) = drive(
        |s| {
            OracleRepository::cancel_provider_operational_profile_atomic(
                s,
                &context(),
                id(1),
                id(2),
                &"r".to_string(),
            )
        },
        completed(),
    );
    assert_eq!(calls.len(), 1);
    assert!(matches!(
        result.unwrap(),
        CancelProviderOperationalProfilePersistenceOutcome::Replayed(t) if t == STORED
    ));
}

#[test]
fn profile_command_is_answered_from_its_record() {
    let desired = DesiredProviderOperationalProfile {
        controls: "{}".to_string(),
        effective_at: UtcTime::from_parts(0, 0).unwrap(),
        reason: "r".to_string(),
    };
    let (calls, result) = drive(
        |s| {
            OracleRepository::set_provider_operational_profile_atomic(s, &context(), id(1), &desired)
        },
        completed(),
    );
    assert_eq!(calls.len(), 1);
    assert!(matches!(
        result.unwrap(),
        SetProviderOperationalProfilePersistenceOutcome::Replayed(t) if t == STORED
    ));
}

#[test]
fn assignment_is_answered_from_its_record() {
    let (calls, result) = drive(
        |s| {
            OracleRepository::assign_provider_range_atomic(
                s,
                &context(),
                id(1),
                id(10),
                &"r".to_string(),
            )
        },
        completed(),
    );
    assert_eq!(calls.len(), 1);
    assert!(matches!(result.unwrap(), ProviderRangeAssignmentOutcome::Replayed(t) if t == STORED));
}

#[test]
fn identity_change_of_no_provider_changes_nothing() {
    let update = ProviderIdentityUpdate {
        legal_name: None,
        trade_name: None,
        tax_id: FieldUpdate::Unchanged,
        registration_number: FieldUpdate::Clear,
        email_address: FieldUpdate::Replace("a@b".to_string()),
        website_url: FieldUpdate::Unchanged,
        mailing_address: FieldUpdate::Unchanged,
        metadata: None,
        reason: "r".to_string(),
    };
    let (calls, result) = drive(
        |s| OracleRepository::update_provider_identity_atomic(s, &context(), id(1), &update),
        vec![no_data()],
    );
    assert_eq!(changes(&calls), 0);
    assert!(matches!(result.unwrap(), ProviderIdentityMutationOutcome::ProviderNotFound));
}

fn provider_row(metadata: &str) -> Reply {
    row(vec![
        raw(1),
        text("Legal"),
        text("Trade"),
        text("tax"),
        Cell::Null,
        Cell::Null,
        Cell::Null,
        Cell::Null,
        text("ACTIVE"),
        text(metadata),
        text(AT),
        text(AT),
    ])
}

fn bound(call: &Call) -> Vec<Option<String>> {
    match call {
        Call::Sql(c) => c
            .binds
            .iter()
            .map(|bind| match bind.value() {
                BindValue::Text(text) => text,
                _ => None,
            })
            .collect(),
        Call::Consult(..) => panic!("not a statement"),
    }
}

#[test]
fn kept_metadata_is_stored_as_it_is_written() {
    let update = ProviderIdentityUpdate {
        legal_name: Some("Other".to_string()),
        trade_name: None,
        tax_id: FieldUpdate::Unchanged,
        registration_number: FieldUpdate::Clear,
        email_address: FieldUpdate::Replace("a@b".to_string()),
        website_url: FieldUpdate::Unchanged,
        mailing_address: FieldUpdate::Unchanged,
        metadata: None,
        reason: "r".to_string(),
    };
    let stored = r#"{"b":1, "a":2}"#;
    let (calls, result) = drive(
        |s| OracleRepository::update_provider_identity_atomic(s, &context(), id(1), &update),
        vec![
            row(vec![text("ACTIVE")]),
            provider_row(stored),
            row(vec![Cell::Int(1)]),
            nothing(),
            touched(1),
            touched(1),
            provider_row(stored),
            row(vec![Cell::Int(1)]),
            answer("{\"after\":1}"),
            answer("{\"before\":1}"),
            Reply::Answer(Answer::Id(id(77))),
            answer("{\"before\": 1}"),
            answer("{\"after\": 1}"),
            touched(1),
            touched(1),
        ],
    );
    assert!(matches!(result.unwrap(), ProviderIdentityMutationOutcome::Applied(_)));
    let update = calls
        .iter()
        .find(|call| matches!(call, Call::Sql(c) if c.sql == provider_identity_update_sql()))
        .unwrap();
    let values = bound(update);
    assert_eq!(values[0].as_deref(), Some("Other"));
    assert_eq!(values[2].as_deref(), Some("tax"));
    assert_eq!(values[3], None);
    assert_eq!(values[7].as_deref(), Some(r#"{"a":2,"b":1}"#));
    let evidence = calls
        .iter()
        .find(|call| matches!(call, Call::Sql(c) if c.sql == audit_insert_sql()))
        .unwrap();
    assert_eq!(bound(evidence)[5].as_deref(), Some(r#"{"before":1}"#));
}

#[test]
fn unchanged_fields_are_kept() {
    let old = Some("old".to_string());
    assert_eq!(apply_field(&old, &FieldUpdate::Unchanged), old);
    assert_eq!(apply_field(&old, &FieldUpdate::Clear), None);
    assert_eq!(
        apply_field(&None, &FieldUpdate::Replace("new".to_string())),
        Some("new".to_string())
    );
}

fn enrollment(instruction: CardInstruction) -> NewProviderUserEnrollment {
    NewProviderUserEnrollment {
        national_id: "0012345678".to_string(),
        first_name: "A".to_string(),
        last_name: "B".to_string(),
        provider_customer_reference: "ref".to_string(),
        selection_reference: None,
        card_instruction: instruction,
        metadata: "{}".to_string(),
    }
}

#[test]
fn inactive_provider_enrolls_no_customer() {
    let wish = enrollment(CardInstruction::UseExisting { card_number: "5000".to_string() });
    let enroll = |s: &mut Session<'_>| {
        OracleRepository::prepare_provider_user_enrollment_atomic(
            s,
            &context(),
            id(1),
            id(2),
            Some(1),
            true,
            &wish,
        )
    };
    let (calls, result) = drive(enroll, completed());
    assert_eq!(calls.len(), 1);
    assert!(matches!(
        result.unwrap(),
        EnrollProviderUserPersistenceOutcome::Replayed(t) if t == STORED
    ));
    let (calls, result) = drive(enroll, vec![nothing(), row(vec![text("SUSPENDED")])]);
    assert!(matches!(result.unwrap(), EnrollProviderUserPersistenceOutcome::ProviderNotActive));
    assert_eq!(changes(&calls), 0);
    let (calls, result) = drive(enroll, vec![nothing(), no_data()]);
    assert!(matches!(result.unwrap(), EnrollProviderUserPersistenceOutcome::ProviderNotFound));
    assert_eq!(changes(&calls), 0);
}

#[test]
fn full_provider_takes_no_customer_in() {
    let user = UserIdentity {
        user_id: id(3),
        first_name: "A".to_string(),
        last_name: "B".to_string(),
    };
    let wish = enrollment(CardInstruction::UseExisting { card_number: "5000".to_string() });
    let (calls, result) = drive(
        |s| enroll_first_time(s, &context(), id(1), Some(2), true, &user, &wish),
        vec![row(vec![Cell::Int(2)])],
    );
    assert!(matches!(result.unwrap(), EnrollProviderUserPersistenceOutcome::UserLimitReached));
    assert_eq!(changes(&calls), 0);
    let existing = ExistingProviderUserRelationship {
        provider_user_id: id(4),
        provider_customer_reference: "ref".to_string(),
        status: "ACTIVE".to_string(),
    };
    let (calls, result) = drive(
        |s| enroll_again(s, &context(), id(1), &user, &wish, &existing),
        Vec::new(),
    );
    assert!(calls.is_empty());
    assert!(matches!(result.unwrap(), EnrollProviderUserPersistenceOutcome::ExistingRelationship));
}

#[test]
fn customer_limit_is_reached_at_the_limit() {
    let within = |limit: Option<u64>, current: i64| {
        let replies = if limit.is_some() { vec![row(vec![Cell::Int(current)])] } else { Vec::new() };
        drive(|s| within_limit(s, id(1), limit), replies).1.unwrap()
    };
    assert!(within(None, 5));
    assert!(within(Some(6), 5));
    assert!(!within(Some(5), 5));
}

#[test]
fn receipt_for_no_pending_policy_is_kept_as_evidence() {
    let receipt = PolicyMaterializationReceipt {
        receipt_event_id: id(1),
        operation_id: id(2),
        card_range_id: id(10),
        card_policy_profile_id: id(3),
        materialized_version: 4,
        runtime_key: "wrong".to_string(),
        materialized_at: UtcTime::from_parts(0, 0).unwrap(),
    };
    let (calls, result) = drive(
        |s| OracleRepository::apply_policy_materialization_receipt(s, &receipt),
        vec![
            nothing(),
            row(vec![Cell::Int(0)]),
            answer("{}"),
            Reply::Answer(Answer::Id(id(5))),
            touched(1),
            nothing(),
            touched(1),
        ],
    );
    assert!(matches!(result.unwrap(), PolicyReceiptPersistenceOutcome::Mismatch));
    assert_eq!(changes(&calls), 2);
}

#[test]
fn stored_receipt_is_answered_as_replayed() {
    let receipt = PolicyMaterializationReceipt {
        receipt_event_id: id(1),
        operation_id: id(2),
        card_range_id: id(10),
        card_policy_profile_id: id(3),
        materialized_version: 4,
        runtime_key: "CPOL:x".to_string(),
        materialized_at: UtcTime::from_parts(0, 0).unwrap(),
    };
    let found = |profile: u128| {
        row(vec![raw(1), raw(2), raw(10), raw(profile), Cell::Int(4), text("CPOL:x")])
    };
    let (calls, result) = drive(
        |s| OracleRepository::apply_policy_materialization_receipt(s, &receipt),
        vec![found(3)],
    );
    assert!(matches!(result.unwrap(), PolicyReceiptPersistenceOutcome::Replayed));
    assert_eq!(changes(&calls), 0);
    let (_, result) = drive(
        |s| OracleRepository::apply_policy_materialization_receipt(s, &receipt),
        vec![found(33)],
    );
    assert!(matches!(result.unwrap(), PolicyReceiptPersistenceOutcome::Mismatch));
}

#[test]
fn order_of_a_card_that_is_not_there_is_refused() {
    let command = FundingOrderCommand {
        card_number: "5000".to_string(),
        expected_state_version: 3,
        expected_owner: Some(id(8)),
        sources: vec![
            FundingOrderSource { provider_id: id(1), max_amount_rials: Some(5) },
            FundingOrderSource { provider_id: id(2), max_amount_rials: None },
        ],
        reason: "r".to_string(),
        operation_id: id(9),
        headers: "{}".to_string(),
    };
    let order = |s: &mut Session<'_>| {
        OracleRepository::update_card_funding_order_atomic(s, &context(), &command)
    };
    let (calls, result) = drive(order, vec![nothing(), nothing()]);
    assert!(matches!(result.unwrap(), FundingOrderPersistenceOutcome::CardNotFound));
    assert_eq!(changes(&calls), 0);
    let card = |owner: u128, status: &str, version: i64| {
        row(vec![raw(7), raw(owner), text(status), Cell::Int(version), Cell::Null])
    };
    let (_, result) = drive(order, vec![nothing(), card(8, "BLOCKED", 3)]);
    assert!(matches!(result.unwrap(), FundingOrderPersistenceOutcome::CardNotActive));
    let (_, result) = drive(order, vec![nothing(), card(88, "ACTIVE", 3)]);
    assert!(matches!(result.unwrap(), FundingOrderPersistenceOutcome::CardOwnerMismatch));
    let (_, result) = drive(order, vec![nothing(), card(8, "ACTIVE", 4)]);
    assert!(matches!(result.unwrap(), FundingOrderPersistenceOutcome::StateVersionConflict));
    let (calls, result) = drive(
        order,
        vec![
            nothing(),
            card(8, "ACTIVE", 3),
            row(vec![raw(1), Cell::Int(1), Cell::Null]),
        ],
    );
    assert!(matches!(result.unwrap(), FundingOrderPersistenceOutcome::SourceSetMismatch));
    assert_eq!(changes(&calls), 0);
}

#[test]
fn cap_that_cannot_be_stored_is_refused_where_it_is_stored() {
    let command = FundingOrderCommand {
        card_number: "5000".to_string(),
        expected_state_version: 3,
        expected_owner: None,
        sources: vec![FundingOrderSource { provider_id: id(1), max_amount_rials: Some(u64::MAX) }],
        reason: "r".to_string(),
        operation_id: id(9),
        headers: "{}".to_string(),
    };
    let order = |s: &mut Session<'_>| {
        OracleRepository::update_card_funding_order_atomic(s, &context(), &command)
    };
    let (_, result) = drive(order, vec![nothing(), nothing()]);
    assert!(matches!(result.unwrap(), FundingOrderPersistenceOutcome::CardNotFound));
    let (_, result) = drive(
        order,
        vec![
            nothing(),
            row(vec![raw(7), raw(8), text("ACTIVE"), Cell::Int(3), Cell::Null]),
            row(vec![raw(1), Cell::Int(1), Cell::Null]),
            touched(1),
            answer("{}"),
            touched(1),
        ],
    );
    assert!(matches!(result, Err(DbError::Query(m)) if m == "funding cap overflow"));
}

#[test]
fn sources_are_collected_by_provider() {
    let listed = vec![
        Row { cells: vec![raw(3), Cell::Int(1), Cell::Null] },
        Row { cells: vec![raw(1), Cell::Int(2), Cell::Int(500)] },
    ];
    let collected = match collect_sources(&listed) {
        Ok(list) => list,
        Err(_) => panic!("the sources are readable"),
    };
    assert_eq!(collected[0].provider_id, id(1));
    assert_eq!(collected[0].priority, 2);
    assert_eq!(collected[0].max_amount_rials, Some(500));
    assert_eq!(collected[1].provider_id, id(3));
    let wanted = vec![
        FundingOrderSource { provider_id: id(3), max_amount_rials: None },
        FundingOrderSource { provider_id: id(1), max_amount_rials: None },
    ];
    assert!(same_providers(&wanted, &collected));
    assert!(!same_providers(&wanted[..1].iter().map(|source| FundingOrderSource {
        provider_id: source.provider_id,
        max_amount_rials: source.max_amount_rials,
    }).collect(), &collected));
    let evidence: serde_json::Value =
        serde_json::from_str(&previous_order_text(3, &collected)).unwrap();
    assert_eq!(evidence["state_version"], 3);
}

#[test]
fn later_row_of_a_provider_replaces_the_earlier() {
    let listed = vec![
        Row { cells: vec![raw(2), Cell::Int(1), Cell::Null] },
        Row { cells: vec![raw(1), Cell::Int(2), Cell::Null] },
        Row { cells: vec![raw(2), Cell::Int(3), Cell::Int(7)] },
    ];
    let collected = match collect_sources(&listed) {
        Ok(list) => list,
        Err(_) => panic!("the sources are readable"),
    };
    assert_eq!(collected.len(), 2);
    assert_eq!(collected[1].provider_id, id(2));
    assert_eq!(collected[1].priority, 3);
    assert_eq!(collected[1].max_amount_rials, Some(7));
}

#[test]
fn texts_of_this_library_are_answered_by_it() {
    let sources = match collect_sources(&vec![Row {
        cells: vec![raw(1), Cell::Int(2), Cell::Int(500)],
    }]) {
        Ok(list) => list,
        Err(_) => panic!("the sources are readable"),
    };
    let expected = previous_order_text(3, &sources);
    let rule = Rule::PreviousFundingOrder(3);
    match answers::answer(&rule, &Attachment::CurrentSources(sources)) {
        Some(Answer::Text(Ok(text))) => assert_eq!(text, expected),
        _ => panic!("the question is answered"),
    }
    assert!(answers::answer(&rule, &Attachment::Nothing).is_none());
    assert!(answers::answer(&Rule::Now, &Attachment::Nothing).is_none());
    assert!(answers::event(&Rule::Now, &Attachment::Nothing).is_none());
}

fn movement() -> CreditMovementIntent {
    CreditMovementIntent {
        movement_id: id(1),
        operation_id: id(2),
        movement_type: CreditMovementType::Grant,
        initiated_by: "PROVIDER".to_string(),
        provider_id: id(3),
        user_id: id(4),
        card_id: id(5),
        provider_user_account_id: id(6),
        provider_owned_account_id: id(7),
        amount_rials: 1000,
        expected_remaining_amount_rials: None,
        provider_reference: Some("ref".to_string()),
        deterministic_transfer_id: id(8),
        operational_profile_id: id(9),
        reason: "r".to_string(),
        metadata: "{}".to_string(),
    }
}

#[test]
fn provider_is_told_of_a_movement() {
    let name = "credit.granted".to_string();
    let catalog = ProviderEventCatalog {
        names: vec![name.clone()],
        credit_granted: name.clone(),
        credit_returned: name.clone(),
    };
    let at = UtcTime::from_parts(1_700_000_000, 0).unwrap();
    let (calls, result) = drive(
        |s| enqueue_event(s, &catalog, &movement(), 250, at),
        vec![
            row(vec![text("5000"), text("customer")]),
            answer("50**"),
            Reply::Answer(Answer::Id(id(20))),
            answer("{}"),
            row(vec![text("ACTIVE")]),
            row(vec![text("ACTIVE")]),
            row(vec![text(r#"{"enabled":true}"#)]),
            row(vec![text(r#"{"event_delivery_enabled":true}"#)]),
            row(vec![text("credit.granted"), Cell::Int(1), Cell::Int(1)]),
            touched(1),
        ],
    );
    assert!(result.is_ok());
    let told = calls.iter().find_map(|call| match call {
        Call::Consult(Rule::CreditEvent(event), _) => Some(event),
        _ => None,
    });
    let event = told.unwrap();
    assert_eq!(event.event_id, id(20));
    assert_eq!(event.event_type, name);
    assert_eq!(event.schema_version, 1);
    assert_eq!(event.provider_id, id(3));
    assert_eq!(event.subject.subject_type, "PROVIDER_USER_ACCOUNT");
    assert_eq!(event.subject.subject_id, id(6));
    assert_eq!(event.subject.user_id, Some(id(4)));
    assert_eq!(event.subject.card_id, Some(id(5)));
    assert_eq!(event.subject.masked_card_number.as_deref(), Some("50**"));
    assert_eq!(event.subject.provider_customer_reference.as_deref(), Some("customer"));
    assert_eq!(event.data.currency, "IRR");
    assert_eq!(event.data.amount_rials.text(), "1000");
    assert_eq!(event.data.observed_remaining_credit_rials.text(), "250");
    assert_eq!(event.data.initiated_by, "PROVIDER");
}

#[test]
fn intent_to_move_credit_is_stored_with_its_command() {
    let (calls, result) = drive(
        |s| store_movement(s, &context(), &movement()),
        vec![touched(1), answer(r#"{"wal":1}"#), touched(1), touched(1)],
    );
    assert!(matches!(result.unwrap(), BeginCreditMovementOutcome::Prepared(_)));
    match &calls[1] {
        Call::Consult(Rule::CreditMovementWal(command, intent), _) => {
            assert_eq!(command.operation_type, "OPERATION");
            assert_eq!(command.idempotency_key, "key-1");
            assert_eq!(command.audit.actor_subject, "operator");
            assert_eq!(intent.movement_id, id(1));
        }
        _ => panic!("the intent is written first"),
    }
    assert_eq!(bound(&calls[2])[3].as_deref(), Some(r#"{"wal":1}"#));
}

#[test]
fn movement_made_before_is_read_back() {
    let catalog = ProviderEventCatalog {
        names: Vec::new(),
        credit_granted: String::new(),
        credit_returned: String::new(),
    };
    let durable = DurableMutationContext {
        operation_type: "OPERATION".to_string(),
        idempotency_key: "key-1".to_string(),
        audit: context().audit,
    };
    let at = UtcTime::from_parts(1_700_000_000, 0).unwrap();
    let (calls, result) = drive(
        |s| {
            OracleRepository::finalize_credit_movement_atomic(
                s,
                &durable,
                &catalog,
                &movement(),
                250,
                at,
            )
        },
        vec![
            row(vec![text("APPLIED")]),
            row(vec![
                raw(2),
                text("GRANT"),
                raw(3),
                raw(4),
                raw(5),
                Cell::Int(1000),
                Cell::Null,
                text(AT),
            ]),
        ],
    );
    let answered = result.unwrap();
    assert_eq!(changes(&calls), 0);
    assert_eq!(answered.movement_id, id(1));
    assert_eq!(answered.amount_rials, 1000);
    assert_eq!(answered.event_publication_status, "PENDING");
}

#[test]
fn card_is_published_under_its_keys() {
    let (calls, result) = drive(
        |s| insert_card_projection_outbox(s, id(5), id(2), None, &context().event_headers()),
        vec![
            Reply::Answer(Answer::Id(id(20))),
            row(vec![
                text("5000"),
                raw(4),
                raw(10),
                text("MULTI_PROVIDER"),
                Cell::Int(3),
                raw(21),
                raw(22),
                raw(23),
                raw(24),
                raw(25),
                raw(26),
                raw(27),
                raw(28),
            ]),
            row(vec![raw(3), Cell::Int(1), Cell::Null, raw(6), raw(31), raw(32), raw(33)]),
            answer("{}"),
            answer("{}"),
            touched(1),
            touched(1),
        ],
    );
    assert!(result.is_ok());
    let published = calls.iter().find_map(|call| match call {
        Call::Consult(Rule::CardProfileEvent(keys, reason, base), _) => {
            Some((keys, reason.is_none(), base.card_id))
        }
        _ => None,
    });
    let (keys, plain, card_id) = published.unwrap();
    assert_eq!(keys.event_id, id(20));
    assert_eq!(keys.event_type, "CARD_PROFILE_PUBLISH_REQUESTED");
    assert_eq!(keys.aggregate_type, "CARD");
    assert_eq!(keys.aggregate_id, id(5));
    assert_eq!(keys.operation_id, id(2));
    assert!(plain);
    assert_eq!(card_id, id(5));
    assert!(calls.iter().any(|call| matches!(
        call,
        Call::Consult(Rule::EventHeaders(HeaderSource::Request(request)), _)
            if request.correlation_id == "c" && request.request_id == "r"
    )));
}

#[test]
fn taken_reference_refuses_a_movement() {
    let (calls, result) = drive(
        |s| {
            OracleRepository::begin_credit_movement_atomic(
                s,
                &context(),
                &movement(),
                &"5000".to_string(),
            )
        },
        vec![nothing(), row(vec![Cell::Int(1)])],
    );
    assert!(matches!(
        result.unwrap(),
        BeginCreditMovementOutcome::ProviderReferenceConflict
    ));
    assert_eq!(changes(&calls), 0);
    let lost = settle_begin(Err(DbError::Conflict("another reason".to_string())));
    assert!(matches!(lost, Err(DbError::Conflict(m)) if m == "another reason"));
}

#[test]
fn nothing_pending_makes_no_batch() {
    let (calls, result) = drive(
        |s| OracleRepository::prepare_card_issuance_batch_atomic(s, &context(), 10, 30),
        vec![nothing(), nothing()],
    );
    assert!(matches!(result.unwrap(), PrepareCardIssuanceBatchOutcome::NoPendingRequests));
    assert_eq!(changes(&calls), 0);
}

#[test]
fn report_must_cover_its_batch() {
    let begin = |s: &mut Session<'_>| {
        OracleRepository::begin_card_issuance_result_atomic(
            s,
            &context(),
            id(1),
            &"results/1.csv".to_string(),
            &"sum".to_string(),
            &Vec::new(),
        )
    };
    let (_, result) = drive(begin, vec![no_data()]);
    assert!(matches!(result.unwrap(), BeginIssuanceResultOutcome::BatchNotFound));
    let (_, result) = drive(begin, vec![row(vec![text("CREATED")]), nothing()]);
    assert!(matches!(result.unwrap(), BeginIssuanceResultOutcome::BatchNotReady));
    let (calls, result) = drive(
        begin,
        vec![row(vec![text("READY")]), nothing(), rows(vec![vec![raw(50)]])],
    );
    assert!(matches!(result.unwrap(), BeginIssuanceResultOutcome::RowSetMismatch));
    assert_eq!(changes(&calls), 0);
    let (calls, result) = drive(
        begin,
        vec![
            row(vec![text("READY")]),
            nothing(),
            nothing(),
            touched(1),
            answer("{}"),
            touched(1),
        ],
    );
    assert!(matches!(result.unwrap(), BeginIssuanceResultOutcome::Started));
    assert_eq!(changes(&calls), 2);
}

#[test]
fn driver_error_is_reported_with_its_context() {
    let (_, result) = drive(
        |s| OracleRepository::create_card_range_atomic(s, &context(), &new_range()),
        vec![Reply::Failed(Failure { text: "ORA-03113".to_string(), no_data: false })],
    );
    match result {
        Err(error) => {
            assert_eq!(
                error.to_string(),
                "database query error: failed to fetch idempotency record: ORA-03113"
            );
            assert_eq!(error.oracle_code(), Some("ORA-03113"));
        }
        Ok(_) => panic!("the lookup failed"),
    }
}
