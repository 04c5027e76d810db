//! The Oracle repository: scripts, statements and rows.
pub mod answers;
pub mod audit;
pub mod binds;
pub mod card_funding;
pub mod card_issuance;
pub mod card_issuance_result;
pub mod card_policy;
pub mod card_profile;
pub mod card_range;
pub mod card_range_command;
pub mod consult;
pub mod document;
pub mod financial_transaction;
pub mod health;
pub mod idempotency;
pub mod kafka_inbox;
pub mod migrations;
pub mod operation;
pub mod outbox;
pub mod pool;
pub mod provider;
pub mod provider_credit;
pub mod provider_event_subscription;
pub mod provider_fee;
pub mod provider_identity;
pub mod provider_kafka;
pub mod provider_lifecycle;
pub mod provider_operational_profile;
pub mod provider_provisioning;
pub mod provider_range;
pub mod provider_user;
pub mod range_control;
pub mod repository;
pub mod script;
pub mod transaction;
pub mod types;
pub mod values;
pub mod wal_recovery;
