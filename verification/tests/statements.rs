//! The statements that the repository runs.
use wurzburg::db::oracle::audit::{audit_insert_sql, audit_list_sql};
use wurzburg::db::oracle::card_policy::{
    policy_list_sql, policy_outbox_insert_sql, policy_receipt_insert_sql, policy_receipt_replay_sql,
    policy_update_draft_sql,
};
use wurzburg::db::oracle::card_range::{
    card_range_insert_sql, card_range_list_sql, card_range_lock_sql, card_range_overlap_sql,
    card_range_select_sql,
};
use wurzburg::db::oracle::financial_transaction::list_sql;
use wurzburg::db::oracle::idempotency::{
    idempotency_complete_sql, idempotency_insert_sql, idempotency_select_sql,
};
use wurzburg::db::oracle::outbox::outbox_claim_select_sql;
use wurzburg::db::oracle::provider::{operational_profile_insert_sql, provider_list_sql};

#[test]
fn audit_insert_sql_persists_actor_and_network_context() {
    let sql = audit_insert_sql();

    assert!(sql.contains("actor_subject"));
    assert!(sql.contains("actor_client_id"));
    assert!(sql.contains("actor_provider_id"));
    assert!(sql.contains("actor_user_id"));
    assert!(sql.contains("actor_issuer"));
    assert!(sql.contains("source_ip"));
    assert!(sql.contains("correlation_id"));
    assert!(sql.contains("request_id"));
}

#[test]
fn audit_insert_sql_persists_before_after_snapshots() {
    let sql = audit_insert_sql();

    assert!(sql.contains("old_values"));
    assert!(sql.contains("new_values"));
    assert!(sql.contains("reason"));
}

#[test]
fn audit_list_uses_allowlisted_bind_filters_and_keyset_order() {
    let sql = audit_list_sql();
    for bind in [
        ":entity_type",
        ":entity_id",
        ":action_type",
        ":actor_subject",
        ":actor_client_id",
        ":actor_provider_id",
        ":actor_user_id",
        ":source_ip",
        ":correlation_id",
        ":request_id",
        ":created_from",
        ":created_to",
    ] {
        assert!(sql.contains(bind));
    }
    assert!(sql.contains("audit_log_id < :cursor_id"));
    assert!(sql.contains("ORDER BY created_at DESC, audit_log_id DESC"));
    assert!(sql.contains("FETCH FIRST :fetch_limit ROWS ONLY"));
}

#[test]
fn policy_history_uses_distinct_oracle_bind_positions() {
    let sql = policy_list_sql();
    assert!(sql.contains("(:2 IS NULL OR version < :3)"));
    assert!(sql.contains("FETCH NEXT :4 ROWS ONLY"));
}

#[test]
fn draft_update_refuses_a_frozen_publication() {
    let sql = policy_update_draft_sql();
    assert!(sql.contains("status = 'DRAFT'"));
    assert!(sql.contains("publication_operation_id IS NULL"));
}

#[test]
fn policy_outbox_stores_operation_and_retry_state() {
    let sql = policy_outbox_insert_sql();
    assert!(sql.contains("operation_id"));
    assert!(sql.contains("'PENDING'"));
    assert!(sql.contains("SYSTIMESTAMP"));
}

#[test]
fn receipt_sql_supports_replay_and_durable_activation_proof() {
    assert!(policy_receipt_replay_sql().contains("operation_id = :2"));
    assert!(policy_receipt_replay_sql().contains("profile_type = 'CPOL'"));
    assert!(policy_receipt_insert_sql().contains("materialized_version"));
    assert!(policy_receipt_insert_sql().contains("materialized_at"));
}

#[test]
fn insert_sql_persists_range_structure_and_controls() {
    let sql = card_range_insert_sql();

    assert!(sql.contains("start_card_number"));
    assert!(sql.contains("end_card_number"));
    assert!(sql.contains("funding_mode"));
    assert!(sql.contains("withdrawal_limit_authority"));
    assert!(sql.contains("cms_operation_mode"));
}

#[test]
fn overlap_sql_uses_inclusive_boundary_shape() {
    let sql = card_range_overlap_sql();

    assert!(sql.contains("start_card_number <= :1"));
    assert!(sql.contains("end_card_number >= :2"));
}

#[test]
fn structural_lock_serializes_overlap_decisions() {
    let sql = card_range_lock_sql();

    assert!(sql.contains("card_range_allocation_locks"));
    assert!(sql.contains("FOR UPDATE"));
}

#[test]
fn select_sql_serializes_json_columns() {
    let sql = card_range_select_sql();

    assert!(sql.contains("JSON_SERIALIZE(limit_calendar_json"));
    assert!(sql.contains("JSON_SERIALIZE(metadata_json"));
}

#[test]
fn list_sql_uses_allowlisted_filters_and_keyset_cursor() {
    let sql = card_range_list_sql();

    assert!(sql.contains("(:status IS NULL OR status = :status)"));
    assert!(sql.contains("(:funding_mode IS NULL OR funding_mode = :funding_mode)"));
    assert!(sql.contains("(:authority IS NULL OR withdrawal_limit_authority = :authority)"));
    assert!(sql.contains("card_range_id > :cursor_id"));
    assert!(sql.contains("FETCH NEXT :fetch_limit ROWS ONLY"));
}

#[test]
fn query_uses_keyset_pagination_and_entry_level_provider_visibility() {
    let sql = list_sql();
    assert!(sql.contains("t.transaction_id < :cursor_transaction_id"));
    assert!(sql.contains("e.provider_id = :provider_id"));
    assert!(sql.contains("FETCH FIRST :fetch_limit ROWS ONLY"));
    assert!(!sql.contains("OFFSET"));
}

#[test]
fn insert_sql_persists_trusted_request_context() {
    let sql = idempotency_insert_sql();

    assert!(sql.contains("created_by_subject"));
    assert!(sql.contains("created_by_client_id"));
    assert!(sql.contains("actor_provider_id"));
    assert!(sql.contains("actor_user_id"));
    assert!(sql.contains("correlation_id"));
    assert!(sql.contains("request_id"));
}

#[test]
fn completion_sql_only_completes_in_progress_record() {
    let sql = idempotency_complete_sql();

    assert!(sql.contains("status = 'COMPLETED'"));
    assert!(sql.contains("AND status = 'IN_PROGRESS'"));
    assert!(sql.contains("completed_at = SYSTIMESTAMP"));
}

#[test]
fn select_sql_serializes_json_snapshots() {
    let sql = idempotency_select_sql();

    assert!(sql.contains("JSON_SERIALIZE(response_snapshot"));
    assert!(sql.contains("JSON_SERIALIZE(error_snapshot"));
}

#[test]
fn claim_query_serializes_native_oracle_json_for_the_driver() {
    let sql = outbox_claim_select_sql();
    assert!(sql.contains("JSON_SERIALIZE(o.payload_json RETURNING CLOB)"));
    assert!(sql.contains("JSON_SERIALIZE(o.headers_json RETURNING CLOB)"));
    assert!(sql.contains("o.delivery_channel = 'INTERNAL' OR k.topic_name IS NOT NULL"));
    assert!(sql.contains("FOR UPDATE SKIP LOCKED"));
}

#[test]
fn provider_list_uses_bound_filters_and_descending_keyset_order() {
    let sql = provider_list_sql();
    assert!(sql.contains(":status IS NULL"));
    assert!(sql.contains(":tax_id IS NULL"));
    assert!(sql.contains("provider_id < :cursor_id"));
    assert!(sql.contains("ORDER BY created_at DESC, provider_id DESC"));
    assert!(sql.contains("FETCH FIRST :fetch_limit ROWS ONLY"));
}

#[test]
fn initial_operational_profile_uses_distinct_oracle_bind_positions() {
    let sql = operational_profile_insert_sql();
    for position in 1..=9 {
        assert_eq!(sql.matches(&format!(":{position}")).count(), 1);
    }
}
