//! Migrations of the schema, and identifiers in raw columns.
use wurzburg::db::oracle::migrations::{
    split_oracle_statements, sql_checksum, wurzburg_migrations,
};
use wurzburg::db::oracle::types::{raw16_to_uuid, uuid_to_raw16};
use wurzburg::uuid::Uuid;

#[test]
fn split_oracle_statements_ignores_comments_and_blank_lines() {
    let statements = split_oracle_statements(
        r#"
        -- comment

        CREATE TABLE one (id NUMBER);
        CREATE INDEX one_idx ON one(id);
        "#,
    );

    assert_eq!(statements.len(), 2);
    assert!(statements[0].starts_with("CREATE TABLE one"));
    assert!(statements[1].starts_with("CREATE INDEX one_idx"));
}

#[test]
fn sql_checksum_changes_with_content() {
    assert_ne!(sql_checksum("SELECT 1"), sql_checksum("SELECT 2"));
}

#[test]
fn wurzburg_migrations_follow_final_dependency_order() {
    let migrations = wurzburg_migrations("SELECT 1", "SELECT 2", "SELECT 3");

    assert_eq!(migrations[0].version, "V001");
    assert_eq!(migrations[1].version, "V002");
    assert_eq!(migrations[1].description, "provider_foundation");
    assert_eq!(migrations[2].version, "V003");
    assert_eq!(migrations[2].description, "card_range_policy_foundation");
}

#[test]
fn uuid_raw16_round_trip_preserves_identity() {
    let id = Uuid::from_u128(uuid::Uuid::new_v4().as_u128());
    let raw = uuid_to_raw16(id);

    assert_eq!(raw16_to_uuid(&raw).unwrap(), id);
}

#[test]
fn raw16_to_uuid_rejects_wrong_length() {
    let err = raw16_to_uuid(&[1, 2, 3]).unwrap_err();

    assert!(err.to_string().contains("RAW(16)"));
}
