//! Rules on plain values: movements of credit, issuance results, delivery, calendars and drafts.
use std::collections::BTreeMap;
use wurzburg::db::error::DbError;
use wurzburg::db::oracle::card_funding::in_order;
use wurzburg::db::oracle::card_issuance_result::{
    is_accounted_for, issuance_wal_text, same_requests, to_batch_outcome, to_failed_row_status,
    IssuanceProviderAccountIntent, IssuanceWalFacts, IssuedCardFinalizationSnapshot,
};
use wurzburg::db::oracle::card_range::{limit_calendar_from_json, week_start_to_json};
use wurzburg::db::oracle::card_range_command::{
    controls_text, draft_values_equal, valid_reason, CardRangeControls,
};
use wurzburg::db::oracle::consult::Answer;
use wurzburg::db::oracle::document::Document;
use wurzburg::db::oracle::provider_credit::insert_credit_transaction_fact;
use wurzburg::db::oracle::provider_event_subscription::{DeliveryGate, SubscriptionHeader};
use wurzburg::db::oracle::provider_kafka::{
    command_job_and_status, command_state_is_valid, ProviderKafkaCommandAction,
};
use wurzburg::db::oracle::provider_range::{
    projection_text, RangeControlProjection, RangeStatusText,
};
use wurzburg::db::oracle::script::{Bind, Call, Halt, Reply, Session};
use wurzburg::db::oracle::values::BindValue;
use wurzburg::domain::card_issuance::{CardIssuanceResultRow, CardIssuanceResultStatus};
use wurzburg::domain::card_range::{
    CardNumberRange, CardRange, CardRangeStatus, FundingMode, LimitCalendar, NewCardRange,
    WeekStartDay, WithdrawalLimitAuthority,
};
use wurzburg::domain::provider_credit::{CreditMovementIntent, CreditMovementType};
use wurzburg::domain::user_card::CurrentFundingSource;
use wurzburg::time::UtcTime;
use wurzburg::uuid::Uuid;

fn id(n: u128) -> Uuid {
    Uuid::from_u128(n)
}

fn movement(movement_type: CreditMovementType, amount_rials: u64) -> CreditMovementIntent {
    CreditMovementIntent {
        movement_id: id(1),
        operation_id: id(2),
        movement_type,
        initiated_by: "PROVIDER".to_string(),
        provider_id: id(3),
        user_id: id(4),
        card_id: id(5),
        provider_user_account_id: id(6),
        provider_owned_account_id: id(7),
        amount_rials,
        expected_remaining_amount_rials: None,
        provider_reference: None,
        deterministic_transfer_id: id(8),
        operational_profile_id: id(9),
        reason: "r".to_string(),
        metadata: "{}".to_string(),
    }
}

/// The account, the direction and the amount of each entry that a movement stores.
fn entries(intent: &CreditMovementIntent) -> Vec<(Vec<u8>, String, i64)> {
    let at = UtcTime::from_parts(0, 0).unwrap();
    let mut transcript = Vec::new();
    let mut stored = Vec::new();
    loop {
        let asked = {
            let mut session = Session::new(&transcript);
            match insert_credit_transaction_fact(&mut session, intent, at) {
                Ok(()) => return stored,
                Err(Halt::Ask(call)) => call,
                Err(Halt::Fail(error)) => panic!("{}", error.to_string()),
            }
        };
        match asked {
            Call::Consult(..) => transcript.push(Reply::Answer(Answer::Id(id(99)))),
            Call::Sql(call) => {
                if call.binds.len() == 9 {
                    let account = match call.binds[4].value() {
                        BindValue::Raw(Some(bytes)) => bytes,
                        other => panic!("{other:?}"),
                    };
                    let direction = match call.binds[6].value() {
                        BindValue::Text(Some(text)) => text,
                        other => panic!("{other:?}"),
                    };
                    let amount = match call.binds[7].value() {
                        BindValue::Int(Some(amount)) => amount,
                        other => panic!("{other:?}"),
                    };
                    stored.push((account, direction, amount));
                }
                transcript.push(Reply::Executed(Ok(1)));
            }
        }
    }
}

#[test]
fn entries_of_a_movement_balance() {
    let granted = entries(&movement(CreditMovementType::Grant, 1_000));
    assert_eq!(granted.len(), 2);
    assert_eq!((granted[0].1.as_str(), granted[0].2), ("DEBIT", 1_000));
    assert_eq!((granted[1].1.as_str(), granted[1].2), ("CREDIT", 1_000));
    assert_ne!(granted[0].0, granted[1].0);
    let returned = entries(&movement(CreditMovementType::ReturnFullBalance, 1_000));
    assert_eq!(returned[0].0, granted[1].0);
    assert_eq!(returned[1].0, granted[0].0);
}

#[test]
fn amount_beyond_the_ledger_is_refused() {
    let none = Vec::new();
    let mut session = Session::new(&none);
    let result = insert_credit_transaction_fact(
        &mut session,
        &movement(CreditMovementType::Grant, u64::MAX),
        UtcTime::from_parts(0, 0).unwrap(),
    );
    assert!(matches!(
        result,
        Err(Halt::Fail(DbError::Query(m))) if m == "credit amount exceeds transaction contract"
    ));
}

#[test]
fn sources_are_listed_by_provider() {
    let mut sources = BTreeMap::new();
    for n in [3, 1, 2] {
        let source = CurrentFundingSource {
            provider_id: id(n),
            priority: n as i64,
            max_amount_rials: None,
        };
        sources.insert(n, source);
    }
    let order: Vec<u128> =
        in_order(&sources).iter().map(|source| source.provider_id.as_u128()).collect();
    assert_eq!(order, vec![1, 2, 3]);
}

#[test]
fn report_covers_each_request_once() {
    assert!(same_requests(&vec![id(1), id(2)], &vec![id(2), id(1)]));
    assert!(!same_requests(&vec![id(1), id(1)], &vec![id(1), id(2)]));
    assert!(!same_requests(&vec![id(1)], &vec![id(1), id(2)]));
    assert!(same_requests(&Vec::new(), &Vec::new()));
}

#[test]
fn batch_is_complete_when_all_is_accounted_for() {
    assert!(is_accounted_for(2, 1, 1, 4));
    assert!(!is_accounted_for(2, 1, 0, 4));
    assert!(!is_accounted_for(i64::MAX, i64::MAX, 2, 0));
    assert_eq!(to_batch_outcome(0), "COMPLETED");
    assert_eq!(to_batch_outcome(1), "PARTIALLY_COMPLETED");
    assert_eq!(to_failed_row_status("TIGERBEETLE_PROVISIONING_UNCERTAIN"), "RECOVERY_REQUIRED");
    assert_eq!(to_failed_row_status("CARD_RANGE_MISMATCH"), "FAILED");
}

#[test]
fn kept_report_is_what_was_reported() {
    let reported = CardIssuanceResultRow {
        issuance_request_id: id(1),
        status: CardIssuanceResultStatus::Issued,
        card_number: Some("5000".to_string()),
        issuer_reference: Some("bank".to_string()),
        failure_code: None,
        failure_message: None,
        produced_at: UtcTime::from_parts(5, 0),
        dispatched_at: None,
        tracking_reference: Some("track".to_string()),
    };
    let kept = IssuedCardFinalizationSnapshot::from_result(&reported).into_result();
    assert_eq!(kept.issuance_request_id, reported.issuance_request_id);
    assert_eq!(kept.issuer_reference, reported.issuer_reference);
    assert_eq!(kept.produced_at, reported.produced_at);
    assert_eq!(kept.tracking_reference, reported.tracking_reference);
    assert_eq!(kept.card_number, None);
}

#[test]
fn closed_gate_names_its_reasons() {
    let header = SubscriptionHeader {
        provider_id: id(1),
        version: 7,
        global_delivery_enabled: true,
        provider_delivery_enabled: true,
        provider_status: "ACTIVE".to_string(),
        credential_status: Some("ACTIVE".to_string()),
    };
    assert!(DeliveryGate::for_subscription(&header, true).blocked_by().is_empty());
    let closed = SubscriptionHeader {
        global_delivery_enabled: false,
        credential_status: None,
        ..header
    };
    assert_eq!(
        DeliveryGate::for_subscription(&closed, false).blocked_by(),
        vec![
            "\"GLOBAL_DELIVERY_DISABLED\"",
            "\"KAFKA_CREDENTIAL_NOT_ACTIVE\"",
            "\"EVENT_DISABLED\"",
        ]
    );
}

#[test]
fn commands_on_access_start_from_their_status() {
    let cases = [
        (ProviderKafkaCommandAction::Provision, "FAILED", "KAFKA_PROVISION", "PROVISIONING"),
        (ProviderKafkaCommandAction::Rotate, "ACTIVE", "KAFKA_ROTATE", "ROTATING"),
        (ProviderKafkaCommandAction::Suspend, "ACTIVE", "KAFKA_SUSPEND", "SUSPENDING"),
        (ProviderKafkaCommandAction::Resume, "SUSPENDED", "KAFKA_RESUME", "RESUMING"),
    ];
    for (action, from, job, working) in cases {
        assert!(command_state_is_valid(action, from));
        assert!(!command_state_is_valid(action, working));
        assert_eq!(command_job_and_status(action), (job, working));
    }
}

#[test]
fn calendar_is_written_and_read() {
    let stored = r#"{"timezone":"Asia/Tehran","week_starts_on":"Saturday","window_mode":"Calendar"}"#;
    let calendar = match limit_calendar_from_json(&stored.to_string()) {
        Ok(calendar) => calendar,
        Err(_) => panic!("the calendar is readable"),
    };
    assert_eq!(calendar.week_starts_on, WeekStartDay::Saturday);
    assert_eq!(week_start_to_json(calendar.week_starts_on), "Saturday");
    let written = match Bind::Json(Document::Calendar(calendar)).value() {
        BindValue::Text(Some(text)) => text,
        other => panic!("{other:?}"),
    };
    let read: serde_json::Value = serde_json::from_str(&written).unwrap();
    let expected: serde_json::Value = serde_json::from_str(stored).unwrap();
    assert_eq!(read, expected);
    for broken in ["{", r#"{"timezone":"Asia/Tehran","week_starts_on":"Friday","window_mode":"Calendar"}"#] {
        assert!(limit_calendar_from_json(&broken.to_string()).is_err());
    }
}

#[test]
fn reasons_are_short_and_printable() {
    assert!(valid_reason(" a reason "));
    assert!(!valid_reason("   "));
    assert!(!valid_reason("a\u{0}b"));
    assert!(valid_reason(&"x".repeat(1000)));
    assert!(!valid_reason(&"x".repeat(1001)));
}

#[test]
fn draft_is_unchanged_where_its_documents_are_equal() {
    let at = UtcTime::from_parts(0, 0).unwrap();
    let numbers = || CardNumberRange { start: "5000".to_string(), end: "5999".to_string() };
    let current = CardRange {
        card_range_id: id(1),
        numbers: numbers(),
        funding_mode: FundingMode::MultiProvider,
        withdrawal_limit_authority: WithdrawalLimitAuthority::Cms,
        limit_calendar: None,
        status: CardRangeStatus::Draft,
        issuance_enabled: false,
        cms_operation_mode: "ONLINE".to_string(),
        operational_version: 1,
        materialized_operational_version: 0,
        range_control_operation_id: None,
        metadata_json: r#"{"a":1,"b":2}"#.to_string(),
        created_by_subject: "x".to_string(),
        updated_by_subject: "x".to_string(),
        created_at: at,
        updated_at: at,
    };
    let desired = |metadata: &str, calendar: Option<LimitCalendar>| NewCardRange {
        card_range_id: id(1),
        numbers: numbers(),
        funding_mode: FundingMode::MultiProvider,
        withdrawal_limit_authority: WithdrawalLimitAuthority::Cms,
        limit_calendar: calendar,
        issuance_enabled: false,
        cms_operation_mode: "ONLINE".to_string(),
        metadata_json: metadata.to_string(),
    };
    assert!(draft_values_equal(&current, &desired(r#"{ "b": 2, "a": 1 }"#, None)));
    assert!(!draft_values_equal(&current, &desired(r#"{"a":1}"#, None)));
    let calendar = limit_calendar_from_json(
        &r#"{"timezone":"UTC","week_starts_on":"Monday","window_mode":"Calendar"}"#.to_string(),
    )
    .ok();
    assert!(calendar.is_some());
    assert!(!draft_values_equal(&current, &desired(r#"{"a":1,"b":2}"#, calendar)));
}

#[test]
fn controls_are_published_with_their_providers() {
    let controls = CardRangeControls {
        card_range_id: id(1),
        range_status: "\"ACTIVE\"".to_string(),
        issuance_enabled: true,
        cms_operation_mode: "\"ONLINE\"".to_string(),
        operational_version: 4,
    };
    let providers = vec![id(2), id(3)];
    let read: serde_json::Value =
        serde_json::from_str(&controls_text(&controls, &providers)).unwrap();
    assert_eq!(read["range_status"], "ACTIVE");
    assert_eq!(read["eligible_provider_ids"][1], "00000000-0000-0000-0000-000000000003");
    let projection = RangeControlProjection {
        card_range_id: id(1),
        operation_id: id(9),
        version: 4,
        range_status: RangeStatusText::Stored("ACTIVE".to_string()),
        issuance_enabled: true,
        cms_operation_mode: "ONLINE".to_string(),
    };
    let stored: serde_json::Value =
        serde_json::from_str(&projection_text(&projection, &providers)).unwrap();
    assert_eq!(stored, read);
}

#[test]
fn intent_to_provision_a_card_names_its_accounts() {
    let facts = IssuanceWalFacts {
        finalization: IssuedCardFinalizationSnapshot {
            issuance_request_id: id(1),
            issuer_reference: None,
            produced_at: UtcTime::from_parts(0, 0),
            dispatched_at: None,
            tracking_reference: Some("track".to_string()),
        },
        issuance_request_id: id(1),
        batch_id: id(2),
        card_id: id(3),
        card_range_id: id(4),
        command_context: r#"{"operation_type":"ISSUE"}"#.to_string(),
        policy_usage_account_ids: r#"{"amount_daily":"a"}"#.to_string(),
    };
    let accounts = vec![IssuanceProviderAccountIntent {
        provider_user_id: id(5),
        provider_id: id(6),
        account_id: id(7),
    }];
    let read: serde_json::Value =
        serde_json::from_str(&issuance_wal_text(&facts, &accounts)).unwrap();
    assert_eq!(read["command_context"]["operation_type"], "ISSUE");
    assert_eq!(read["finalization"]["produced_at"], "1970-01-01T00:00:00Z");
    assert!(read["finalization"]["issuer_reference"].is_null());
    assert_eq!(read["provider_accounts"][0]["account_id"], "00000000-0000-0000-0000-000000000007");
    assert_eq!(read["policy_usage_account_ids"]["amount_daily"], "a");
}
