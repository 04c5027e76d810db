//! JSON documents that are made of identifiers, numbers and texts.
use vstd::prelude::*;
use crate::db::oracle::card_range;
use crate::db::oracle::provider_event_subscription::DeliveryGate;
use crate::db::oracle::provider_kafka::KafkaAccessSummary;
use crate::db::oracle::script::Bind;
use crate::db::oracle::provider_user::ExistingCardProvisioningIntent;
use crate::domain::card_range::{FundingMode, LimitCalendar, WithdrawalLimitAuthority};
use crate::domain::copied;
use crate::domain::provider_credit::CreditMovementFacts;
use crate::json;
use crate::json::{object_text, JsonMember, JsonMemberView, JsonValue, JsonValueView};
use crate::text;
use crate::text::joined2;
use crate::time::UtcTime;
use crate::uuid;
use crate::uuid::Uuid;

verus! {

/// A document, by what it says.
#[derive(Debug)]
pub enum Document {
    /// An empty object.
    Empty,
    /// An error code.
    ErrorCode(&'static str),
    /// A receipt that is for no pending policy.
    PolicyMismatch(Uuid, Uuid, i64),
    /// A movement of credit.
    CreditMovement(CreditMovementFacts),
    /// Why an event of a provider is delivered or not.
    DeliveryGate(DeliveryGate),
    /// The names that a provider has at the message broker.
    KafkaNames(Uuid),
    /// A status.
    Status(&'static str),
    /// A status that is a JSON text itself.
    StatusDocument(String),
    /// The message broker access of a provider, without its secret.
    KafkaAccess(KafkaAccessSummary),
    /// A command on the message broker access of a provider.
    KafkaCommand(Uuid, Uuid, &'static str, Option<u64>),
    /// A receipt that is for no pending fee profile.
    FeeMismatch(Uuid, Uuid),
    /// A provider that was assigned to a range, and the operations that publish it: of the range's
    /// controls, of its policy and of the provider's fees.
    RangeAssignment(Uuid, Uuid, Uuid, Option<Uuid>, Option<Uuid>),
    /// The range that a provider was assigned to.
    PriorAssignment(Uuid),
    /// A card issuance that the bank rejected, and the code it gave.
    IssuanceRejection(Option<String>),
    /// A card that was issued for a number of providers.
    IssuedCard(Uuid, Uuid, u64),
    /// Whom a card is issued to: the national number, both names and the date of birth.
    IssuanceIdentity(String, String, String, String),
    /// Where a card goes: mobile number, province, city, address and postal code.
    IssuanceDelivery(String, String, String, String, String),
    /// An external effect that was verified.
    Verified,
    /// A policy that came into force, the one that it replaced, and the receipt that said so.
    PolicyActivation(String, Option<Uuid>, Uuid, Uuid, i64),
    /// A fee profile that came into force, the one that it replaced, and the receipt that said so.
    FeeActivation(String, Option<Uuid>, Uuid),
    /// A card range whose controls came into force, and the receipt that said so.
    RangeControls(String, Uuid, Uuid, i64),
    /// What setting an operational profile came to, and the profile.
    OperationalProfileChange(&'static str, String),
    /// A card range that was changed, and the operation that publishes it.
    RangeChange(String, Option<Uuid>),
    /// A batch of card issuances.
    IssuanceBatch(Uuid, String, u32, Option<String>, UtcTime),
    /// The intent to provision an account, and the accounts that count what the card spends.
    ProvisioningRequest(ExistingCardProvisioningIntent, String),
    /// A version of a card policy as it is published: the range, the policy, its version, how the
    /// range is funded, who enforces the limits, the limits and the calendar.
    PolicyPublication(Uuid, Uuid, i64, FundingMode, WithdrawalLimitAuthority, String, String),
    /// A version of a fee profile as it is published: the provider, the profile, its version and
    /// the fees.
    FeePublication(Uuid, Uuid, i64, String),
    /// The calendar by which limits are counted.
    Calendar(LimitCalendar),
}

impl Document {
    /// The members of the document's object.
    pub open spec fn members(self) -> Seq<JsonMemberView> {
        match self {
            Document::Empty => Seq::empty(),
            Document::ErrorCode(code) => seq![
                ("code"@, JsonValueView::Text(code@)),
            ],
            Document::PolicyMismatch(operation_id, profile_id, version) => seq![
                ("code"@, JsonValueView::Text("POLICY_MATERIALIZATION_MISMATCH"@)),
                ("operation_id"@, JsonValueView::Text(uuid::hyphenated_text(operation_id))),
                ("profile_id"@, JsonValueView::Text(uuid::hyphenated_text(profile_id))),
                ("materialized_version"@, JsonValueView::Number(version as int)),
            ],
            Document::CreditMovement(facts) => seq![
                ("movement_id"@, JsonValueView::Text(uuid::hyphenated_text(facts.movement_id))),
                ("operation_id"@, JsonValueView::Text(uuid::hyphenated_text(facts.operation_id))),
                ("movement_type"@, JsonValueView::Document(facts.movement_type@)),
                ("initiated_by"@, JsonValueView::Document(facts.initiated_by@)),
                ("provider_id"@, JsonValueView::Text(uuid::hyphenated_text(facts.provider_id))),
                ("user_id"@, JsonValueView::Text(uuid::hyphenated_text(facts.user_id))),
                ("card_id"@, JsonValueView::Text(uuid::hyphenated_text(facts.card_id))),
                ("amount_rials"@, JsonValueView::Number(facts.amount_rials as int)),
                (
                    "observed_remaining_amount_rials"@,
                    JsonValueView::Number(facts.observed_remaining_amount_rials as int),
                ),
                (
                    "deterministic_transfer_id"@,
                    JsonValueView::Text(uuid::hyphenated_text(facts.deterministic_transfer_id)),
                ),
                ("card_state_version"@, JsonValueView::Number(facts.card_state_version as int)),
            ],
            Document::DeliveryGate(gate) => seq![
                ("global_delivery_enabled"@, JsonValueView::Flag(gate.global_delivery_enabled)),
                ("provider_delivery_enabled"@, JsonValueView::Flag(gate.provider_delivery_enabled)),
                ("provider_active"@, JsonValueView::Flag(gate.provider_active)),
                ("kafka_credential_active"@, JsonValueView::Flag(gate.kafka_credential_active)),
                ("subscription_enabled"@, JsonValueView::Flag(gate.subscription_enabled)),
                ("subscription_version"@, JsonValueView::Number(gate.subscription_version as int)),
                ("blocked_by"@, JsonValueView::Documents(gate.blocked())),
            ],
            Document::KafkaNames(provider_id) => seq![
                (
                    "topic_name"@,
                    JsonValueView::Text("provider.events."@ + uuid::simple_text(provider_id)),
                ),
                (
                    "username"@,
                    JsonValueView::Text("provider_user_"@ + uuid::simple_text(provider_id)),
                ),
                (
                    "consumer_group"@,
                    JsonValueView::Text("provider_group_"@ + uuid::simple_text(provider_id)),
                ),
            ],
            Document::Status(status) => seq![
                ("status"@, JsonValueView::Text(status@)),
            ],
            Document::StatusDocument(status) => seq![
                ("status"@, JsonValueView::Document(status@)),
            ],
            Document::KafkaAccess(access) => seq![
                ("provider_id"@, JsonValueView::Text(uuid::hyphenated_text(access.provider_id))),
                ("topic"@, JsonValueView::Text(access.topic_name@)),
                ("username"@, JsonValueView::Text(access.username@)),
                ("consumer_group"@, JsonValueView::Text(access.consumer_group@)),
                ("credential_version"@, optional_number_value(access.credential_version)),
                ("security_protocol"@, JsonValueView::Text(access.security_protocol@)),
                ("sasl_mechanism"@, JsonValueView::Text(access.sasl_mechanism@)),
                ("credential_status"@, JsonValueView::Text(access.credential_status@)),
            ],
            Document::KafkaCommand(provider_id, operation_id, status, version) => seq![
                ("provider_id"@, JsonValueView::Text(uuid::hyphenated_text(provider_id))),
                ("operation_id"@, JsonValueView::Text(uuid::hyphenated_text(operation_id))),
                ("credential_status"@, JsonValueView::Text(status@)),
                ("credential_version"@, optional_number_value(version)),
            ],
            Document::FeeMismatch(operation_id, profile_id) => seq![
                ("code"@, JsonValueView::Text("PROVIDER_FEE_MATERIALIZATION_MISMATCH"@)),
                ("operation_id"@, JsonValueView::Text(uuid::hyphenated_text(operation_id))),
                ("profile_id"@, JsonValueView::Text(uuid::hyphenated_text(profile_id))),
            ],
            Document::RangeAssignment(provider_id, card_range_id, control, policy, fee) => seq![
                ("provider_id"@, JsonValueView::Text(uuid::hyphenated_text(provider_id))),
                ("card_range_id"@, JsonValueView::Text(uuid::hyphenated_text(card_range_id))),
                ("status"@, JsonValueView::Text("ACTIVE"@)),
                (
                    "range_control_operation_id"@,
                    JsonValueView::Text(uuid::hyphenated_text(control)),
                ),
                ("policy_operation_id"@, optional_identifier_value(policy)),
                ("fee_operation_id"@, optional_identifier_value(fee)),
            ],
            Document::PriorAssignment(card_range_id) => seq![
                ("card_range_id"@, JsonValueView::Text(uuid::hyphenated_text(card_range_id))),
                ("status"@, JsonValueView::Text("ACTIVE"@)),
            ],
            Document::IssuanceRejection(failure_code) => seq![
                ("status"@, JsonValueView::Text("REJECTED"@)),
                ("failure_code"@, optional_text_value(failure_code)),
            ],
            Document::IssuedCard(card_id, card_range_id, provider_count) => seq![
                ("card_id"@, JsonValueView::Text(uuid::hyphenated_text(card_id))),
                ("card_range_id"@, JsonValueView::Text(uuid::hyphenated_text(card_range_id))),
                ("status"@, JsonValueView::Text("ACTIVE"@)),
                ("provider_count"@, JsonValueView::Number(provider_count as int)),
            ],
            Document::IssuanceIdentity(national_id, first_name, last_name, birth_date) => seq![
                ("national_id"@, JsonValueView::Text(national_id@)),
                ("first_name"@, JsonValueView::Text(first_name@)),
                ("last_name"@, JsonValueView::Text(last_name@)),
                ("birth_date"@, JsonValueView::Text(birth_date@)),
            ],
            Document::IssuanceDelivery(mobile, province, city, address, postal_code) => seq![
                ("mobile"@, JsonValueView::Text(mobile@)),
                ("delivery_province"@, JsonValueView::Text(province@)),
                ("delivery_city"@, JsonValueView::Text(city@)),
                ("delivery_address"@, JsonValueView::Text(address@)),
                ("postal_code"@, JsonValueView::Text(postal_code@)),
            ],
            Document::Verified => seq![
                ("verified"@, JsonValueView::Flag(true)),
            ],
            Document::PolicyActivation(
                activated,
                previous,
                receipt_event_id,
                operation_id,
                version,
            ) => seq![
                ("activated_policy"@, JsonValueView::Document(activated@)),
                ("previous_active_policy_id"@, optional_identifier_value(previous)),
                ("receipt_event_id"@, JsonValueView::Text(uuid::hyphenated_text(receipt_event_id))),
                ("operation_id"@, JsonValueView::Text(uuid::hyphenated_text(operation_id))),
                ("materialized_version"@, JsonValueView::Number(version as int)),
            ],
            Document::FeeActivation(activated, previous, receipt_event_id) => seq![
                ("activated_profile"@, JsonValueView::Document(activated@)),
                ("previous_active_profile_id"@, optional_identifier_value(previous)),
                ("receipt_event_id"@, JsonValueView::Text(uuid::hyphenated_text(receipt_event_id))),
            ],
            Document::RangeControls(card_range, receipt_event_id, operation_id, version) => seq![
                ("card_range"@, JsonValueView::Document(card_range@)),
                ("receipt_event_id"@, JsonValueView::Text(uuid::hyphenated_text(receipt_event_id))),
                ("operation_id"@, JsonValueView::Text(uuid::hyphenated_text(operation_id))),
                ("materialized_version"@, JsonValueView::Number(version as int)),
            ],
            Document::OperationalProfileChange(disposition, profile) => seq![
                ("disposition"@, JsonValueView::Text(disposition@)),
                ("profile"@, JsonValueView::Document(profile@)),
            ],
            Document::RangeChange(card_range, operation_id) => seq![
                ("card_range"@, JsonValueView::Document(card_range@)),
                ("operation_id"@, optional_identifier_value(operation_id)),
            ],
            Document::IssuanceBatch(batch_id, status, request_count, checksum, expires_at) => seq![
                ("batch_id"@, JsonValueView::Text(uuid::hyphenated_text(batch_id))),
                ("status"@, JsonValueView::Document(status@)),
                ("request_count"@, JsonValueView::Number(request_count as int)),
                ("request_checksum_sha256"@, optional_text_value(checksum)),
                ("expires_at"@, JsonValueView::Text(expires_at.serialized())),
            ],
            Document::ProvisioningRequest(intent, usage) => seq![
                (
                    "provider_user_id"@,
                    JsonValueView::Text(uuid::hyphenated_text(intent.provider_user_id)),
                ),
                ("provider_id"@, JsonValueView::Text(uuid::hyphenated_text(intent.provider_id))),
                ("user_id"@, JsonValueView::Text(uuid::hyphenated_text(intent.user_id))),
                ("card_id"@, JsonValueView::Text(uuid::hyphenated_text(intent.card_id))),
                (
                    "card_range_id"@,
                    JsonValueView::Text(uuid::hyphenated_text(intent.card_range_id)),
                ),
                (
                    "provider_user_account_id"@,
                    JsonValueView::Text(uuid::hyphenated_text(intent.provider_user_account_id)),
                ),
                ("policy_usage_account_ids"@, JsonValueView::Document(usage@)),
            ],
            Document::PolicyPublication(
                card_range_id,
                policy_id,
                version,
                funding_mode,
                authority,
                limits,
                calendar,
            ) => seq![
                ("card_range_id"@, JsonValueView::Text(uuid::hyphenated_text(card_range_id))),
                ("card_policy_profile_id"@, JsonValueView::Text(uuid::hyphenated_text(policy_id))),
                ("policy_version"@, JsonValueView::Number(version as int)),
                ("funding_mode"@, JsonValueView::Text(funding_mode.code()@)),
                ("withdrawal_limit_authority"@, JsonValueView::Text(authority.code()@)),
                ("withdrawal_limits"@, JsonValueView::Document(limits@)),
                ("calendar"@, JsonValueView::Document(calendar@)),
            ],
            Document::FeePublication(provider_id, profile_id, version, policy) => seq![
                ("provider_id"@, JsonValueView::Text(uuid::hyphenated_text(provider_id))),
                (
                    "provider_fee_profile_id"@,
                    JsonValueView::Text(uuid::hyphenated_text(profile_id)),
                ),
                ("fee_profile_version"@, JsonValueView::Number(version as int)),
                ("fee_policy"@, JsonValueView::Document(policy@)),
            ],
            Document::Calendar(c) => seq![
                ("timezone"@, JsonValueView::Text(c.timezone@)),
                (
                    "week_starts_on"@,
                    JsonValueView::Text(card_range::week_start_name(c.week_starts_on)@),
                ),
                ("window_mode"@, JsonValueView::Text("Calendar"@)),
            ],
        }
    }

    /// The document as a text.
    #[verifier::rlimit(40)]
    pub fn text(&self) -> (r: String)
        ensures
            r@ == json::json_object_text(self.members()),
    {
        let mut members: Vec<JsonMember> = Vec::new();
        match self {
            Document::Empty => {
                assert(json::members_view(members@) =~= self.members());
            },
            Document::ErrorCode(code) => {
                members.push(label("code", code));
                assert(json::members_view(members@) =~= self.members());
            },
            Document::PolicyMismatch(operation_id, profile_id, version) => {
                members.push(label("code", "POLICY_MATERIALIZATION_MISMATCH"));
                members.push(identifier("operation_id", *operation_id));
                members.push(identifier("profile_id", *profile_id));
                members.push(number("materialized_version", *version));
                assert(json::members_view(members@) =~= self.members());
            },
            Document::CreditMovement(facts) => {
                members.push(identifier("movement_id", facts.movement_id));
                members.push(identifier("operation_id", facts.operation_id));
                members.push(nested("movement_type", &facts.movement_type));
                members.push(nested("initiated_by", &facts.initiated_by));
                members.push(identifier("provider_id", facts.provider_id));
                members.push(identifier("user_id", facts.user_id));
                members.push(identifier("card_id", facts.card_id));
                members.push(unsigned("amount_rials", facts.amount_rials));
                members.push(unsigned(
                    "observed_remaining_amount_rials",
                    facts.observed_remaining_amount_rials,
                ));
                members.push(identifier(
                    "deterministic_transfer_id",
                    facts.deterministic_transfer_id,
                ));
                members.push(number("card_state_version", facts.card_state_version));
                assert(json::members_view(members@) =~= self.members());
            },
            Document::DeliveryGate(gate) => {
                members.push(flag("global_delivery_enabled", gate.global_delivery_enabled));
                members.push(flag("provider_delivery_enabled", gate.provider_delivery_enabled));
                members.push(flag("provider_active", gate.provider_active));
                members.push(flag("kafka_credential_active", gate.kafka_credential_active));
                members.push(flag("subscription_enabled", gate.subscription_enabled));
                members.push(unsigned("subscription_version", gate.subscription_version));
                members.push(JsonMember {
                    name: "blocked_by",
                    value: JsonValue::Documents(gate.blocked_by()),
                });
                assert(json::members_view(members@) =~= self.members());
            },
            Document::KafkaNames(provider_id) => {
                members.push(derived("topic_name", "provider.events.", *provider_id));
                members.push(derived("username", "provider_user_", *provider_id));
                members.push(derived("consumer_group", "provider_group_", *provider_id));
                assert(json::members_view(members@) =~= self.members());
            },
            Document::Status(status) => {
                members.push(label("status", status));
                assert(json::members_view(members@) =~= self.members());
            },
            Document::StatusDocument(status) => {
                members.push(nested("status", status));
                assert(json::members_view(members@) =~= self.members());
            },
            Document::KafkaAccess(access) => {
                members.push(identifier("provider_id", access.provider_id));
                members.push(written("topic", &access.topic_name));
                members.push(written("username", &access.username));
                members.push(written("consumer_group", &access.consumer_group));
                members.push(optional_number("credential_version", access.credential_version));
                members.push(written("security_protocol", &access.security_protocol));
                members.push(written("sasl_mechanism", &access.sasl_mechanism));
                members.push(written("credential_status", &access.credential_status));
                assert(json::members_view(members@) =~= self.members());
            },
            Document::KafkaCommand(provider_id, operation_id, status, version) => {
                members.push(identifier("provider_id", *provider_id));
                members.push(identifier("operation_id", *operation_id));
                members.push(label("credential_status", status));
                members.push(optional_number("credential_version", *version));
                assert(json::members_view(members@) =~= self.members());
            },
            Document::FeeMismatch(operation_id, profile_id) => {
                members.push(label("code", "PROVIDER_FEE_MATERIALIZATION_MISMATCH"));
                members.push(identifier("operation_id", *operation_id));
                members.push(identifier("profile_id", *profile_id));
                assert(json::members_view(members@) =~= self.members());
            },
            Document::RangeAssignment(provider_id, card_range_id, control, policy, fee) => {
                members.push(identifier("provider_id", *provider_id));
                members.push(identifier("card_range_id", *card_range_id));
                members.push(label("status", "ACTIVE"));
                members.push(identifier("range_control_operation_id", *control));
                members.push(optional_identifier("policy_operation_id", *policy));
                members.push(optional_identifier("fee_operation_id", *fee));
                assert(json::members_view(members@) =~= self.members());
            },
            Document::PriorAssignment(card_range_id) => {
                members.push(identifier("card_range_id", *card_range_id));
                members.push(label("status", "ACTIVE"));
                assert(json::members_view(members@) =~= self.members());
            },
            Document::IssuanceRejection(failure_code) => {
                members.push(label("status", "REJECTED"));
                members.push(optional_written("failure_code", failure_code));
                assert(json::members_view(members@) =~= self.members());
            },
            Document::IssuedCard(card_id, card_range_id, provider_count) => {
                members.push(identifier("card_id", *card_id));
                members.push(identifier("card_range_id", *card_range_id));
                members.push(label("status", "ACTIVE"));
                members.push(unsigned("provider_count", *provider_count));
                assert(json::members_view(members@) =~= self.members());
            },
            Document::IssuanceIdentity(national_id, first_name, last_name, birth_date) => {
                members.push(written("national_id", national_id));
                members.push(written("first_name", first_name));
                members.push(written("last_name", last_name));
                members.push(written("birth_date", birth_date));
                assert(json::members_view(members@) =~= self.members());
            },
            Document::IssuanceDelivery(mobile, province, city, address, postal_code) => {
                members.push(written("mobile", mobile));
                members.push(written("delivery_province", province));
                members.push(written("delivery_city", city));
                members.push(written("delivery_address", address));
                members.push(written("postal_code", postal_code));
                assert(json::members_view(members@) =~= self.members());
            },
            Document::Verified => {
                members.push(flag("verified", true));
                assert(json::members_view(members@) =~= self.members());
            },
            Document::PolicyActivation(
                activated,
                previous,
                receipt_event_id,
                operation_id,
                version,
            ) => {
                members.push(nested("activated_policy", activated));
                members.push(optional_identifier("previous_active_policy_id", *previous));
                members.push(identifier("receipt_event_id", *receipt_event_id));
                members.push(identifier("operation_id", *operation_id));
                members.push(number("materialized_version", *version));
                assert(json::members_view(members@) =~= self.members());
            },
            Document::FeeActivation(activated, previous, receipt_event_id) => {
                members.push(nested("activated_profile", activated));
                members.push(optional_identifier("previous_active_profile_id", *previous));
                members.push(identifier("receipt_event_id", *receipt_event_id));
                assert(json::members_view(members@) =~= self.members());
            },
            Document::RangeControls(card_range, receipt_event_id, operation_id, version) => {
                members.push(nested("card_range", card_range));
                members.push(identifier("receipt_event_id", *receipt_event_id));
                members.push(identifier("operation_id", *operation_id));
                members.push(number("materialized_version", *version));
                assert(json::members_view(members@) =~= self.members());
            },
            Document::OperationalProfileChange(disposition, profile) => {
                members.push(label("disposition", disposition));
                members.push(nested("profile", profile));
                assert(json::members_view(members@) =~= self.members());
            },
            Document::RangeChange(card_range, operation_id) => {
                members.push(nested("card_range", card_range));
                members.push(optional_identifier("operation_id", *operation_id));
                assert(json::members_view(members@) =~= self.members());
            },
            Document::IssuanceBatch(batch_id, status, request_count, checksum, expires_at) => {
                members.push(identifier("batch_id", *batch_id));
                members.push(nested("status", status));
                members.push(unsigned("request_count", *request_count as u64));
                members.push(optional_written("request_checksum_sha256", checksum));
                members.push(instant("expires_at", *expires_at));
                assert(json::members_view(members@) =~= self.members());
            },
            Document::ProvisioningRequest(intent, usage) => {
                members.push(identifier("provider_user_id", intent.provider_user_id));
                members.push(identifier("provider_id", intent.provider_id));
                members.push(identifier("user_id", intent.user_id));
                members.push(identifier("card_id", intent.card_id));
                members.push(identifier("card_range_id", intent.card_range_id));
                members.push(identifier(
                    "provider_user_account_id",
                    intent.provider_user_account_id,
                ));
                members.push(nested("policy_usage_account_ids", usage));
                assert(json::members_view(members@) =~= self.members());
            },
            Document::PolicyPublication(
                card_range_id,
                policy_id,
                version,
                funding_mode,
                authority,
                limits,
                calendar,
            ) => {
                members.push(identifier("card_range_id", *card_range_id));
                members.push(identifier("card_policy_profile_id", *policy_id));
                members.push(number("policy_version", *version));
                members.push(label("funding_mode", funding_mode.as_db_value()));
                members.push(label("withdrawal_limit_authority", authority.as_db_value()));
                members.push(nested("withdrawal_limits", limits));
                members.push(nested("calendar", calendar));
                assert(json::members_view(members@) =~= self.members());
            },
            Document::FeePublication(provider_id, profile_id, version, policy) => {
                members.push(identifier("provider_id", *provider_id));
                members.push(identifier("provider_fee_profile_id", *profile_id));
                members.push(number("fee_profile_version", *version));
                members.push(nested("fee_policy", policy));
                assert(json::members_view(members@) =~= self.members());
            },
            Document::Calendar(c) => {
                members.push(
                    JsonMember { name: "timezone", value: JsonValue::Text(c.timezone.text()) },
                );
                members.push(
                    label("week_starts_on", card_range::week_start_to_json(c.week_starts_on)),
                );
                members.push(
                    label("window_mode", card_range::limit_window_mode_to_json(c.window_mode)),
                );
                assert(json::members_view(members@) =~= self.members());
            },
        }
        object_text(&members)
    }
}

fn label(name: &'static str, value: &'static str) -> (r: JsonMember)
    ensures
        r@ == (name@, JsonValueView::Text(value@)),
{
    JsonMember { name, value: JsonValue::Text(value.to_owned()) }
}

fn written(name: &'static str, value: &String) -> (r: JsonMember)
    ensures
        r@ == (name@, JsonValueView::Text(value@)),
{
    JsonMember { name, value: JsonValue::Text(value.clone()) }
}

/// The value of a text that may be absent.
pub open spec fn optional_text_value(value: Option<String>) -> JsonValueView {
    match value {
        Some(t) => JsonValueView::Text(t@),
        None => JsonValueView::Null,
    }
}

fn optional_written(name: &'static str, value: &Option<String>) -> (r: JsonMember)
    ensures
        r@ == (name@, optional_text_value(*value)),
{
    match value {
        Some(t) => JsonMember { name, value: JsonValue::Text(t.clone()) },
        None => JsonMember { name, value: JsonValue::Null },
    }
}

fn flag(name: &'static str, value: bool) -> (r: JsonMember)
    ensures
        r@ == (name@, JsonValueView::Flag(value)),
{
    JsonMember { name, value: JsonValue::Flag(value) }
}

fn derived(name: &'static str, prefix: &'static str, id: Uuid) -> (r: JsonMember)
    ensures
        r@ == (name@, JsonValueView::Text(prefix@ + uuid::simple_text(id))),
{
    JsonMember { name, value: JsonValue::Text(joined2(prefix, id.to_simple_text().as_str())) }
}

/// The value of a number that may be absent.
pub open spec fn optional_number_value(value: Option<u64>) -> JsonValueView {
    match value {
        Some(n) => JsonValueView::Number(n as int),
        None => JsonValueView::Null,
    }
}

fn optional_number(name: &'static str, value: Option<u64>) -> (r: JsonMember)
    ensures
        r@ == (name@, optional_number_value(value)),
{
    match value {
        Some(n) => JsonMember { name, value: JsonValue::Unsigned(n) },
        None => JsonMember { name, value: JsonValue::Null },
    }
}

fn unsigned(name: &'static str, value: u64) -> (r: JsonMember)
    ensures
        r@ == (name@, JsonValueView::Number(value as int)),
{
    JsonMember { name, value: JsonValue::Unsigned(value) }
}

fn identifier(name: &'static str, id: Uuid) -> (r: JsonMember)
    ensures
        r@ == (name@, JsonValueView::Text(uuid::hyphenated_text(id))),
{
    JsonMember { name, value: JsonValue::Text(id.to_text()) }
}

fn number(name: &'static str, value: i64) -> (r: JsonMember)
    ensures
        r@ == (name@, JsonValueView::Number(value as int)),
{
    JsonMember { name, value: JsonValue::Int(value) }
}

fn nested(name: &'static str, value: &String) -> (r: JsonMember)
    ensures
        r@ == (name@, JsonValueView::Document(value@)),
{
    JsonMember { name, value: JsonValue::Document(value.clone()) }
}

fn instant(name: &'static str, at: UtcTime) -> (r: JsonMember)
    ensures
        r@ == (name@, JsonValueView::Text(at.serialized())),
{
    JsonMember { name, value: JsonValue::Text(at.to_serialized()) }
}

/// What an internal event is called, and what it is about.
#[derive(Clone, Copy, Debug)]
pub struct EventKeys {
    pub event_id: Uuid,
    pub event_type: &'static str,
    pub aggregate_type: &'static str,
    pub aggregate_id: Uuid,
    pub operation_id: Uuid,
}

/// An identifier as a JSON text.
pub open spec fn quoted_identifier(id: Uuid) -> Seq<char> {
    "\""@ + uuid::hyphenated_text(id) + "\""@
}

/// What the publication of the controls of a card range says: the range, its status, whether it
/// issues cards, how it is operated, the version and the providers.
pub open spec fn range_control_members(
    card_range_id: Uuid,
    range_status: JsonValueView,
    issuance_enabled: bool,
    cms_operation_mode: JsonValueView,
    operational_version: i64,
    providers: Seq<Uuid>,
) -> Seq<JsonMemberView> {
    seq![
        ("card_range_id"@, JsonValueView::Text(uuid::hyphenated_text(card_range_id))),
        ("range_status"@, range_status),
        ("issuance_enabled"@, JsonValueView::Flag(issuance_enabled)),
        ("cms_operation_mode"@, cms_operation_mode),
        ("operational_version"@, JsonValueView::Number(operational_version as int)),
        (
            "eligible_provider_ids"@,
            JsonValueView::Documents(providers.map_values(|id: Uuid| quoted_identifier(id))),
        ),
    ]
}

/// What the publication of the controls of a card range says.
pub fn range_control_text(
    card_range_id: Uuid,
    range_status: JsonValue,
    issuance_enabled: bool,
    cms_operation_mode: JsonValue,
    operational_version: i64,
    providers: &Vec<Uuid>,
) -> (r: String)
    ensures
        r@ == json::json_object_text(
            range_control_members(
                card_range_id,
                range_status@,
                issuance_enabled,
                cms_operation_mode@,
                operational_version,
                providers@,
            ),
        ),
{
    let ghost shown = providers@.map_values(|id: Uuid| quoted_identifier(id));
    let mut items: Vec<String> = Vec::new();
    let mut i: usize = 0;
    while i < providers.len()
        invariant
            i <= providers@.len(),
            shown == providers@.map_values(|id: Uuid| quoted_identifier(id)),
            text::texts(items@) =~= shown.take(i as int),
        decreases providers@.len() - i,
    {
        let ghost before = items@;
        items.push(text::joined3("\"", providers[i].to_text().as_str(), "\""));
        assert(text::texts(items@) =~= text::texts(before).push(shown[i as int]));
        i = i + 1;
    }
    assert(shown.take(i as int) =~= shown);
    let mut members: Vec<JsonMember> = Vec::new();
    members.push(identifier("card_range_id", card_range_id));
    members.push(JsonMember { name: "range_status", value: range_status });
    members.push(flag("issuance_enabled", issuance_enabled));
    members.push(JsonMember { name: "cms_operation_mode", value: cms_operation_mode });
    members.push(number("operational_version", operational_version));
    members.push(JsonMember { name: "eligible_provider_ids", value: JsonValue::Documents(items) });
    assert(json::members_view(members@) =~= range_control_members(
        card_range_id,
        range_status@,
        issuance_enabled,
        cms_operation_mode@,
        operational_version,
        providers@,
    ));
    object_text(&members)
}

/// The value of an identifier that may be absent.
pub open spec fn optional_identifier_value(id: Option<Uuid>) -> JsonValueView {
    match id {
        Some(x) => JsonValueView::Text(uuid::hyphenated_text(x)),
        None => JsonValueView::Null,
    }
}

fn optional_identifier(name: &'static str, id: Option<Uuid>) -> (r: JsonMember)
    ensures
        r@ == (name@, optional_identifier_value(id)),
{
    match id {
        Some(x) => JsonMember { name, value: JsonValue::Text(x.to_text()) },
        None => JsonMember { name, value: JsonValue::Null },
    }
}

impl Clone for Document {
    fn clone(&self) -> (r: Self)
        ensures
            r == *self,
    {
        match self {
            Document::Empty => Document::Empty,
            Document::ErrorCode(code) => Document::ErrorCode(code),
            Document::PolicyMismatch(operation_id, profile_id, version) => {
                Document::PolicyMismatch(*operation_id, *profile_id, *version)
            },
            Document::CreditMovement(facts) => Document::CreditMovement(facts.clone()),
            Document::DeliveryGate(gate) => Document::DeliveryGate(*gate),
            Document::KafkaNames(provider_id) => Document::KafkaNames(*provider_id),
            Document::Status(status) => Document::Status(status),
            Document::StatusDocument(status) => Document::StatusDocument(status.clone()),
            Document::KafkaAccess(access) => Document::KafkaAccess(access.clone()),
            Document::KafkaCommand(provider_id, operation_id, status, version) => {
                Document::KafkaCommand(*provider_id, *operation_id, status, *version)
            },
            Document::FeeMismatch(operation_id, profile_id) => {
                Document::FeeMismatch(*operation_id, *profile_id)
            },
            Document::RangeAssignment(provider_id, card_range_id, control, policy, fee) => {
                Document::RangeAssignment(*provider_id, *card_range_id, *control, *policy, *fee)
            },
            Document::PriorAssignment(card_range_id) => Document::PriorAssignment(*card_range_id),
            Document::IssuanceRejection(failure_code) => {
                Document::IssuanceRejection(copied(failure_code))
            },
            Document::IssuedCard(card_id, card_range_id, provider_count) => {
                Document::IssuedCard(*card_id, *card_range_id, *provider_count)
            },
            Document::IssuanceIdentity(national_id, first_name, last_name, birth_date) => {
                Document::IssuanceIdentity(
                    national_id.clone(),
                    first_name.clone(),
                    last_name.clone(),
                    birth_date.clone(),
                )
            },
            Document::IssuanceDelivery(mobile, province, city, address, postal_code) => {
                Document::IssuanceDelivery(
                    mobile.clone(),
                    province.clone(),
                    city.clone(),
                    address.clone(),
                    postal_code.clone(),
                )
            },
            Document::Verified => Document::Verified,
            Document::PolicyActivation(activated, previous, receipt_event_id, operation_id, version) => Document::PolicyActivation(
                activated.clone(),
                *previous,
                *receipt_event_id,
                *operation_id,
                *version,
            ),
            Document::FeeActivation(activated, previous, receipt_event_id) => {
                Document::FeeActivation(activated.clone(), *previous, *receipt_event_id)
            },
            Document::RangeControls(card_range, receipt_event_id, operation_id, version) => {
                Document::RangeControls(
                    card_range.clone(),
                    *receipt_event_id,
                    *operation_id,
                    *version,
                )
            },
            Document::OperationalProfileChange(disposition, profile) => {
                Document::OperationalProfileChange(disposition, profile.clone())
            },
            Document::RangeChange(card_range, operation_id) => {
                Document::RangeChange(card_range.clone(), *operation_id)
            },
            Document::IssuanceBatch(batch_id, status, request_count, checksum, expires_at) => {
                Document::IssuanceBatch(
                    *batch_id,
                    status.clone(),
                    *request_count,
                    copied(checksum),
                    *expires_at,
                )
            },
            Document::ProvisioningRequest(intent, usage) => {
                Document::ProvisioningRequest(*intent, usage.clone())
            },
            Document::PolicyPublication(card_range_id, policy_id, version, funding_mode, authority, limits, calendar) => Document::PolicyPublication(
                *card_range_id,
                *policy_id,
                *version,
                *funding_mode,
                *authority,
                limits.clone(),
                calendar.clone(),
            ),
            Document::FeePublication(provider_id, profile_id, version, policy) => {
                Document::FeePublication(*provider_id, *profile_id, *version, policy.clone())
            },
            Document::Calendar(calendar) => Document::Calendar(calendar.clone()),
        }
    }
}

/// A JSON document that is kept: one that came as a text, or one that is written here.
pub enum Snapshot {
    Text(String),
    Document(Document),
}

impl Snapshot {
    /// The document as a value for a statement.
    pub open spec fn as_bind(self) -> Bind {
        match self {
            Snapshot::Text(t) => Bind::JsonText(t),
            Snapshot::Document(d) => Bind::Json(d),
        }
    }

    /// The document as a value for a statement.
    pub fn bind(self) -> (r: Bind)
        ensures
            r == self.as_bind(),
    {
        match self {
            Snapshot::Text(t) => Bind::JsonText(t),
            Snapshot::Document(d) => Bind::Json(d),
        }
    }
}

} // verus!
