//! Texts, instants, identifiers, documents, bind values, errors, pages and the pool.
use std::time::Duration;
use wurzburg::db::error::DbError;
use wurzburg::db::oracle::document::Document;
use wurzburg::db::oracle::migrations::{schema_plan, split_oracle_statements, SchemaPlan};
use wurzburg::db::oracle::outbox::{provider_payload_matches, IndexedEvent};
use wurzburg::db::oracle::pool::{DatabaseConfig, OracleConnectConfig};
use wurzburg::db::oracle::script::Bind;
use wurzburg::db::oracle::transaction::{
    after_transaction, commit, is_unique_constraint_violation, rollback, AfterTransaction,
};
use wurzburg::db::oracle::types::uuid_to_raw16;
use wurzburg::db::oracle::values::BindValue;
use wurzburg::domain::card_range::{
    same_calendar, CardRangeStatus, LimitCalendar, LimitWindowMode, WeekStartDay, ZoneName,
};
use wurzburg::domain::page::{cut_page, fetch_limit};
use wurzburg::domain::provider_credit::RialsText;
use wurzburg::json;
use wurzburg::text;
use wurzburg::time::UtcTime;
use wurzburg::uuid::Uuid;

const ID: u128 = 0x0123_4567_89ab_cdef_0123_4567_89ab_cdef;

fn text_of(bind: Bind) -> String {
    match bind.value() {
        BindValue::Text(Some(text)) => text,
        other => panic!("not a text: {other:?}"),
    }
}

fn instant() -> UtcTime {
    UtcTime::from_parts(1_700_000_000, 123_456_789).unwrap()
}

#[test]
fn texts_are_searched_from_the_front() {
    assert_eq!(text::find("one two one", "one"), Some(0));
    assert_eq!(text::find("one two one", "two"), Some(4));
    assert_eq!(text::find("one", "three"), None);
    assert_eq!(text::find("anything", ""), Some(0));
    assert!(text::contains("ORA-00001: unique", "ORA-00001"));
    assert!(!text::starts_with("late failed", "failed"));
    assert!(text::contains_in_uppercase("select 1 from dual", "FROM"));
    assert!(text::has_control("a\u{7}b"));
    assert!(!text::has_control("ab"));
}

#[test]
fn trimmed_text_is_what_stands_between_white_space() {
    assert_eq!(text::trim(" \t a b \n"), "a b");
    assert_eq!(text::trim(" \u{3000} "), "");
    assert_eq!(text::trim("plain"), "plain");
}

#[test]
fn split_parts_joined_give_the_text_back() {
    assert_eq!(text::split("a;b;;c", ';'), vec!["a", "b", "", "c"]);
    assert_eq!(text::split("a;b;;c", ';').join(";"), "a;b;;c");
    assert_eq!(text::split("", ';'), vec![""]);
    assert_eq!(text::lines("a\r\nb\n\nc\n"), vec!["a", "b", "", "c"]);
    assert!(text::lines("").is_empty());
}

#[test]
fn decimals_are_read_back() {
    assert_eq!(text::decimal(0), "0");
    assert_eq!(text::decimal(u64::MAX), "18446744073709551615");
    assert_eq!(text::integer(i64::MIN), "-9223372036854775808");
    assert_eq!(text::parse_unsigned("18446744073709551615"), Some(u64::MAX));
    assert_eq!(text::parse_unsigned("18446744073709551616"), None);
    assert_eq!(text::parse_unsigned("+7"), Some(7));
    assert_eq!(text::parse_unsigned(""), None);
    assert_eq!(text::parse_unsigned("1x"), None);
}

#[test]
fn statements_are_trimmed_and_hold_no_terminator() {
    let statements = split_oracle_statements("-- first\nDROP TABLE a;\n\n ; \nDROP TABLE b ;");
    assert_eq!(statements, vec!["DROP TABLE a", "DROP TABLE b"]);
    assert!(split_oracle_statements("-- nothing\n").is_empty());
}

#[test]
fn statements_of_two_texts_follow_each_other() {
    let texts = ["", "a", "a;b\r", "-- c\n a ;;\nb", "a\n\n-- c", " ; "];
    for first in texts {
        for second in texts {
            let mut both = split_oracle_statements(first);
            both.extend(split_oracle_statements(second));
            assert_eq!(split_oracle_statements(&format!("{first}\n;\n{second}")), both);
        }
    }
    assert!(split_oracle_statements("").is_empty());
}

#[test]
fn instants_are_written_and_read() {
    let at = instant();
    assert_eq!(at.millis_zulu(), "2023-11-14T22:13:20.123Z");
    assert_eq!(at.millis_offset(), "2023-11-14T22:13:20.123+00:00");
    assert_eq!(at.to_rfc3339(), "2023-11-14T22:13:20.123456789+00:00");
    assert_eq!(at.to_serialized(), "2023-11-14T22:13:20.123456789Z");
    assert_eq!(UtcTime::from_parts(0, 0).unwrap().to_serialized(), "1970-01-01T00:00:00Z");
    assert_eq!(UtcTime::parse_rfc3339("2023-11-14T23:13:20.123456789+01:00").unwrap(), at);
    assert!(UtcTime::parse_rfc3339("yesterday").is_err());
}

#[test]
fn days_are_added_within_what_chrono_represents() {
    let later = instant().plus_days(30).unwrap();
    assert_eq!(later.secs(), 1_700_000_000 + 30 * 86_400);
    assert_eq!(later.nanos(), 123_456_789);
    assert_eq!(instant().plus_days(0).unwrap(), instant());
    assert!(instant().plus_days(i64::MAX).is_none());
    assert!(UtcTime::from_parts(i64::MAX, 0).is_none());
    let leap = UtcTime::from_parts(59, 1_500_000_000).unwrap();
    let after = leap.plus_days(1).unwrap();
    assert_eq!((after.secs(), after.nanos()), (86_459, 500_000_000));
    assert!(UtcTime::from_parts(60, 1_500_000_000).is_none());
}

#[test]
fn identifiers_have_two_notations() {
    let id = Uuid::from_u128(ID);
    assert_eq!(id.to_text(), "01234567-89ab-cdef-0123-456789abcdef");
    assert_eq!(id.to_simple_text(), "0123456789abcdef0123456789abcdef");
    assert_eq!(id.as_u128(), ID);
    assert_eq!(Uuid::from_bytes(id.into_bytes()), id);
    assert_eq!(uuid_to_raw16(id)[..3], [0x01, 0x23, 0x45]);
}

#[test]
fn bind_values_are_what_the_driver_takes() {
    let id = Uuid::from_u128(ID);
    match Bind::Id(id).value() {
        BindValue::Raw(Some(bytes)) => assert_eq!(bytes, uuid_to_raw16(id).to_vec()),
        other => panic!("not raw: {other:?}"),
    }
    assert!(matches!(Bind::OptId(None).value(), BindValue::Raw(None)));
    assert!(matches!(Bind::OptText(None).value(), BindValue::Text(None)));
    assert!(matches!(Bind::OptInt(None).value(), BindValue::Int(None)));
    assert!(matches!(Bind::Int(-4).value(), BindValue::Int(Some(-4))));
    assert!(matches!(Bind::Flag(true).value(), BindValue::Int(Some(1))));
    assert!(matches!(Bind::Flag(false).value(), BindValue::Int(Some(0))));
    assert!(matches!(Bind::Unsigned(u64::MAX).value(), BindValue::Unsigned(u64::MAX)));
    assert_eq!(text_of(Bind::IdText(id)), "01234567-89ab-cdef-0123-456789abcdef");
    assert_eq!(text_of(Bind::Trimmed("  a  ".to_string())), "a");
    assert_eq!(text_of(Bind::Time(instant())), "2023-11-14T22:13:20.123Z");
    assert_eq!(text_of(Bind::OffsetTime(instant())), "2023-11-14T22:13:20.123+00:00");
    assert_eq!(text_of(Bind::Rfc3339Time(instant())), "2023-11-14T22:13:20.123456789+00:00");
    assert_eq!(
        text_of(Bind::Digest("abc".to_string())),
        "ba7816bf8f01cfea414140de5dae2223b00361a396177a9cb410ff61f20015ad"
    );
    assert_eq!(text_of(Bind::Named("p-", id, ".e")), "p-0123456789abcdef0123456789abcdef.e");
    assert_eq!(
        text_of(Bind::Path("requests/", id, ".csv")),
        "requests/01234567-89ab-cdef-0123-456789abcdef.csv"
    );
    assert_eq!(text_of(Bind::Json(Document::ErrorCode("LEDGER_DOWN"))), r#"{"code":"LEDGER_DOWN"}"#);
}

#[test]
fn json_texts_are_bound_as_they_are_written() {
    let stored = r#"{ "b" : 1, "a" : [2.50, 1e2, "x\u0041"] }"#;
    let document: serde_json::Value = serde_json::from_str(stored).unwrap();
    assert_eq!(text_of(Bind::JsonText(stored.to_string())), document.to_string());
    assert_ne!(document.to_string(), stored);
    assert_eq!(text_of(Bind::OptJsonText(Some("[ ]".to_string()))), "[]");
    assert!(matches!(Bind::OptJsonText(None).value(), BindValue::Text(None)));
    assert_eq!(text_of(Bind::JsonText("no document".to_string())), "no document");
    assert_eq!(json::reading_fault(stored), None);
    assert_eq!(
        json::reading_fault("{"),
        Some(serde_json::from_str::<serde_json::Value>("{").unwrap_err().to_string())
    );
}

#[test]
fn rials_are_told_in_digits() {
    assert_eq!(RialsText(0).text(), "0");
    assert_eq!(RialsText(u64::MAX).text(), "18446744073709551615");
}

#[test]
fn documents_are_json_objects() {
    assert_eq!(Document::Empty.text(), "{}");
    let left = Document::StatusDocument("\"SUSPENDED\"".to_string());
    assert_eq!(left.text(), r#"{"status":"SUSPENDED"}"#);
    let rejection = Document::IssuanceRejection(None).text();
    let read: serde_json::Value = serde_json::from_str(&rejection).unwrap();
    assert_eq!(read["status"], "REJECTED");
    assert!(read["failure_code"].is_null());
    let rejection = Document::IssuanceRejection(Some("BANK-7".to_string())).text();
    let read: serde_json::Value = serde_json::from_str(&rejection).unwrap();
    assert_eq!(read["failure_code"], "BANK-7");
    let publication = Document::FeePublication(
        Uuid::from_u128(1),
        Uuid::from_u128(2),
        7,
        r#"{"rate_bps":25}"#.to_string(),
    );
    let read: serde_json::Value = serde_json::from_str(&publication.text()).unwrap();
    assert_eq!(read["provider_id"], "00000000-0000-0000-0000-000000000001");
    assert_eq!(read["fee_profile_version"], 7);
    assert_eq!(read["fee_policy"]["rate_bps"], 25);
    let activation = Document::PolicyActivation(
        "{\"version\":3}".to_string(),
        None,
        Uuid::from_u128(1),
        Uuid::from_u128(2),
        3,
    );
    let read: serde_json::Value = serde_json::from_str(&activation.text()).unwrap();
    assert_eq!(read["activated_policy"]["version"], 3);
    assert!(read["previous_active_policy_id"].is_null());
    assert_eq!(read["materialized_version"], 3);
    let batch = Document::IssuanceBatch(Uuid::from_u128(1), "\"READY\"".to_string(), 2, None, instant());
    let read: serde_json::Value = serde_json::from_str(&batch.text()).unwrap();
    assert_eq!(read["status"], "READY");
    assert_eq!(read["expires_at"], "2023-11-14T22:13:20.123456789Z");
}

#[test]
fn provider_payload_names_its_event() {
    let event = IndexedEvent {
        event_id: Uuid::from_u128(1),
        operation_id: Uuid::from_u128(2),
        event_type: "credit.granted".to_string(),
        schema_version: 3,
        aggregate_type: "CREDIT".to_string(),
        aggregate_id: Uuid::from_u128(4),
    };
    let provider = Uuid::from_u128(5);
    let payload = format!(
        r#"{{"event_id":"{}","event_type":"credit.granted","schema_version":3,"provider_id":"{}"}}"#,
        event.event_id.to_text(),
        provider.to_text()
    );
    assert!(provider_payload_matches(&payload, &event, provider));
    assert!(!provider_payload_matches(&payload, &event, Uuid::from_u128(6)));
    let other = payload.replace("\"schema_version\":3", "\"schema_version\":\"3\"");
    assert!(!provider_payload_matches(&other, &event, provider));
    assert!(!provider_payload_matches("not json", &event, provider));
}

#[test]
fn calendars_are_the_same_by_their_zones() {
    let calendar = |timezone: ZoneName| LimitCalendar {
        timezone,
        week_starts_on: WeekStartDay::Saturday,
        window_mode: LimitWindowMode::Calendar,
    };
    let stored = ZoneName::stored(&r#"{"timezone":"Asia/Tehran","other":1}"#.to_string()).unwrap();
    assert_eq!(stored.text(), "Asia/Tehran");
    assert!(ZoneName::stored(&r#"{"timezone":1}"#.to_string()).is_none());
    let named = ZoneName::named("Asia/Tehran".to_string());
    assert_eq!(named.text(), "Asia/Tehran");
    let tehran = calendar(stored);
    assert!(same_calendar(&tehran, &calendar(named)));
    assert!(!same_calendar(&tehran, &calendar(ZoneName::named("UTC".to_string()))));
    let written = Document::Calendar(tehran).text();
    let read: serde_json::Value = serde_json::from_str(&written).unwrap();
    assert_eq!(read["timezone"], "Asia/Tehran");
}

#[test]
fn errors_say_what_and_where() {
    let cases = [
        (DbError::Configuration("c".to_string()), "configuration", "database configuration error: c"),
        (DbError::Connection("n".to_string()), "connection", "database connection error: n"),
        (DbError::Conflict("f".to_string()), "conflict", "database conflict: f"),
        (DbError::Query("q".to_string()), "query", "database query error: q"),
        (DbError::BlockingTask("b".to_string()), "blocking_task", "database blocking task error: b"),
    ];
    for (error, kind, sentence) in &cases {
        assert_eq!(error.diagnostic_kind(), *kind);
        assert_eq!(error.to_string(), *sentence);
    }
    assert!(cases[1].0.is_connection_failure());
    assert!(cases[4].0.is_connection_failure());
    assert!(!cases[3].0.is_connection_failure());
    assert_eq!(DbError::query_because("failed to read", "ORA-1").to_string(), "database query error: failed to read: ORA-1");
}

#[test]
fn oracle_codes_have_five_digits() {
    let code = |message: &str| {
        DbError::Query(message.to_string()).oracle_code().map(|code| code.to_string())
    };
    assert_eq!(code("x: ORA-00942: table"), Some("ORA-00942".to_string()));
    assert_eq!(code("ORA-009"), None);
    assert_eq!(code("ORA-0094x and ORA-00001"), None);
    assert_eq!(code("no code"), None);
}

#[test]
fn diagnostics_name_the_operation() {
    let context = |message: &str| DbError::Query(message.to_string()).diagnostic_context();
    assert_eq!(context("failed to fetch provider: x"), "provider.fetch");
    assert_eq!(context("failed to mark provider ready: x"), "provider.mark_ready");
    assert_eq!(context("failed to insert provider Kafka access: x"), "provider_kafka_access.insert");
    assert_eq!(context("failed to insert Provider Kafka credential"), "provider_kafka_credential.insert");
    assert_eq!(context("failed to seed Provider event subscriptions"), "provider_event_subscriptions.seed");
    assert_eq!(context("failed to refresh provider idempotency snapshot"), "provider.idempotency_snapshot.refresh");
    assert_eq!(context("something else"), "unclassified");
}

#[test]
fn transactions_report_how_they_ended() {
    assert!(commit("create provider", &None).is_ok());
    assert_eq!(
        commit("create provider", &Some("ORA-3113".to_string())).unwrap_err().to_string(),
        "database query error: failed to commit create provider: ORA-3113"
    );
    assert_eq!(
        rollback("create provider", &Some("gone".to_string())).unwrap_err().to_string(),
        "database query error: failed to rollback create provider: gone"
    );
    assert!(is_unique_constraint_violation("ORA-00001: unique constraint violated"));
    assert!(!is_unique_constraint_violation("ORA-00002"));
    let lost = after_transaction::<u8>(Err(DbError::Conflict("taken".to_string())));
    assert!(matches!(lost, AfterTransaction::WinnerToRead));
    let done = after_transaction(Ok(5u8));
    assert!(matches!(done, AfterTransaction::Settled(Ok(5))));
    let failed = after_transaction::<u8>(Err(DbError::Query("gone".to_string())));
    assert!(matches!(failed, AfterTransaction::Settled(Err(DbError::Query(m))) if m == "gone"));
}

#[test]
fn page_holds_no_more_than_its_limit() {
    assert_eq!(fetch_limit(50), 51);
    assert_eq!(cut_page(vec![1, 2, 3], 2), (vec![1, 2], true));
    assert_eq!(cut_page(vec![1, 2], 2), (vec![1, 2], false));
    assert_eq!(cut_page(vec![1], 0), (Vec::new(), true));
}

#[test]
fn codes_stand_for_one_value_each() {
    for status in [CardRangeStatus::Draft, CardRangeStatus::Active, CardRangeStatus::Suspended] {
        assert_eq!(CardRangeStatus::from_db_value(status.as_db_value()), Some(status));
    }
    assert_eq!(CardRangeStatus::from_db_value("draft"), None);
}

#[test]
fn pool_bounds_are_put_in_order() {
    let config = DatabaseConfig {
        username: "app".to_string(),
        password: "pass".to_string(),
        connect_string: "db".to_string(),
        min_connections: 0,
        max_connections: 10,
        acquire_timeout: Duration::from_secs(5),
        idle_timeout: Duration::from_secs(60),
        max_lifetime: Duration::from_secs(600),
        statement_cache_capacity: usize::MAX,
    };
    let pool = OracleConnectConfig::from_driver_config(&config).unwrap();
    assert_eq!((pool.min_connections, pool.max_connections), (1, 10));
    assert_eq!(pool.connection_increment, 4);
    assert_eq!(pool.statement_cache_capacity, u32::MAX);
    assert_eq!(pool.acquire_timeout, Duration::from_secs(5));
    let narrow = DatabaseConfig { min_connections: 5, max_connections: 2, ..config };
    let pool = OracleConnectConfig::from_driver_config(&narrow).unwrap();
    assert_eq!((pool.min_connections, pool.max_connections, pool.connection_increment), (5, 5, 0));
}

#[test]
fn schema_is_recreated_only_where_that_is_allowed() {
    assert!(matches!(schema_plan(false, false, false), Ok(SchemaPlan::Nothing)));
    assert!(matches!(schema_plan(true, false, true), Ok(SchemaPlan::Migrate)));
    assert!(matches!(schema_plan(true, true, false), Ok(SchemaPlan::ResetAndMigrate)));
    assert!(matches!(schema_plan(true, true, true), Err(DbError::Configuration(_))));
}
