//! Events that providers are told of.
use vstd::prelude::*;
use crate::db::oracle::answers;
use crate::db::oracle::audit;
use crate::db::oracle::binds;
use crate::db::oracle::consult::{Attachment, AttachmentView, Rule};
use crate::db::oracle::document::Snapshot;
use crate::db::oracle::idempotency;
use crate::db::oracle::idempotency::IdempotencyVerdict;
use crate::db::oracle::provider_operational_profile;
use crate::db::oracle::repository::OracleRepository;
use crate::db::oracle::script;
use crate::db::oracle::script::{Bind, CallView, Halt, HaltView, Row, RunView, Session};
use crate::domain::audit::AuditAction;
use crate::domain::command::MutationCommandContext;
use crate::domain::copied;
use crate::domain::idempotency::IdempotencyRecord;
use crate::domain::provider_event::ProviderEventCatalog;
use crate::json;
use crate::json::{JsonMember, JsonMemberView, JsonValue, JsonValueView};
use crate::text;
use crate::uuid;
use crate::uuid::Uuid;

verus! {

/// The context of a column that cannot be read.
pub const READ_ROW: &'static str = "failed to read Provider event subscription row";

/// The context of a statement that fails.
pub const QUERY: &'static str = "Provider event subscription Oracle operation failed";

/// Locks the subscriptions of a provider.
pub const LOCK_SUBSCRIPTIONS_SQL: &'static str = "SELECT provider_event_subscription_id FROM provider_event_subscriptions WHERE provider_id=:1 FOR UPDATE";

/// Changes a subscription.
pub const UPDATE_SUBSCRIPTION_SQL: &'static str = "UPDATE provider_event_subscriptions SET enabled=:1,version=:2,updated_by_subject=:3,reason=:4,updated_at=SYSTIMESTAMP WHERE provider_id=:5 AND event_type=:6";

/// Reads the status of a provider.
pub const PROVIDER_STATUS_SQL: &'static str = "SELECT status FROM providers WHERE provider_id=:1";

/// Reads the status of the credentials of a provider.
pub const CREDENTIAL_STATUS_SQL: &'static str = "SELECT credential_status FROM provider_kafka_access WHERE provider_id=:1";

/// Reads whether events are delivered at all.
pub const GLOBAL_GATE_SQL: &'static str = "SELECT JSON_SERIALIZE(value_json RETURNING CLOB) FROM business_config WHERE config_key='provider_event_delivery.global_enabled' AND status='ACTIVE' AND (effective_at IS NULL OR effective_at<=SYSTIMESTAMP)";

/// Reads the operational controls of a provider that are in force.
pub const PROVIDER_GATE_SQL: &'static str = "SELECT JSON_SERIALIZE(profile_json RETURNING CLOB) FROM provider_operational_profiles WHERE provider_id=:1 AND status='ACTIVE' AND effective_at<=SYSTIMESTAMP ORDER BY version DESC FETCH FIRST 1 ROWS ONLY";

/// Lists the subscriptions of a provider.
pub const SUBSCRIPTIONS_SQL: &'static str = "SELECT event_type,enabled,version FROM provider_event_subscriptions WHERE provider_id=:1 ORDER BY event_type";

/// Whether a provider is told of an event.
#[derive(Debug)]
pub struct ProviderEventSubscriptionRecord {
    pub event_type: String,
    pub enabled: bool,
}

impl Clone for ProviderEventSubscriptionRecord {
    fn clone(&self) -> (r: Self)
        ensures
            r == *self,
    {
        ProviderEventSubscriptionRecord {
            event_type: self.event_type.clone(),
            enabled: self.enabled,
        }
    }
}

/// What decides, beside the single subscriptions, whether a provider is told of events.
#[derive(Debug)]
pub struct SubscriptionHeader {
    pub provider_id: Uuid,
    pub version: u64,
    pub global_delivery_enabled: bool,
    pub provider_delivery_enabled: bool,
    pub provider_status: String,
    pub credential_status: Option<String>,
}

impl Clone for SubscriptionHeader {
    fn clone(&self) -> (r: Self)
        ensures
            r == *self,
    {
        SubscriptionHeader {
            provider_id: self.provider_id,
            version: self.version,
            global_delivery_enabled: self.global_delivery_enabled,
            provider_delivery_enabled: self.provider_delivery_enabled,
            provider_status: self.provider_status.clone(),
            credential_status: copied(&self.credential_status),
        }
    }
}

/// The subscriptions of a provider. The statuses are database values.
#[derive(Debug)]
pub struct ProviderEventSubscriptionSet {
    pub provider_id: Uuid,
    pub version: u64,
    pub global_delivery_enabled: bool,
    pub provider_delivery_enabled: bool,
    pub provider_status: String,
    pub credential_status: Option<String>,
    pub subscriptions: Vec<ProviderEventSubscriptionRecord>,
}

/// The subscriptions of a provider as plain values.
pub struct SubscriptionSetView {
    pub header: SubscriptionHeader,
    pub subscriptions: Seq<ProviderEventSubscriptionRecord>,
}

impl View for ProviderEventSubscriptionSet {
    type V = SubscriptionSetView;

    open spec fn view(&self) -> SubscriptionSetView {
        SubscriptionSetView {
            header: SubscriptionHeader {
                provider_id: self.provider_id,
                version: self.version,
                global_delivery_enabled: self.global_delivery_enabled,
                provider_delivery_enabled: self.provider_delivery_enabled,
                provider_status: self.provider_status,
                credential_status: self.credential_status,
            },
            subscriptions: self.subscriptions@,
        }
    }
}

impl ProviderEventSubscriptionSet {
    /// What decides beside the single subscriptions.
    pub fn header(&self) -> (r: SubscriptionHeader)
        ensures
            r == self@.header,
    {
        SubscriptionHeader {
            provider_id: self.provider_id,
            version: self.version,
            global_delivery_enabled: self.global_delivery_enabled,
            provider_delivery_enabled: self.provider_delivery_enabled,
            provider_status: self.provider_status.clone(),
            credential_status: copied(&self.credential_status),
        }
    }
}

/// What became of a change of subscriptions. An answer is a JSON document.
#[derive(Debug)]
pub enum ProviderEventSubscriptionUpdateOutcome {
    Applied(String),
    Replayed(String),
    ProviderNotFound,
    VersionConflict,
    IdempotencyConflict,
    IdempotencyInProgress,
    IdempotencyInvalidState,
}

/// The gates that an event passes on its way to a provider.
#[derive(Clone, Copy, Debug, PartialEq, Eq, Structural)]
pub struct DeliveryGate {
    pub global_delivery_enabled: bool,
    pub provider_delivery_enabled: bool,
    pub provider_active: bool,
    pub kafka_credential_active: bool,
    pub subscription_enabled: bool,
    pub subscription_version: u64,
}

impl DeliveryGate {
    /// The gates of a provider for a subscription.
    pub open spec fn of(header: SubscriptionHeader, enabled: bool) -> DeliveryGate {
        DeliveryGate {
            global_delivery_enabled: header.global_delivery_enabled,
            provider_delivery_enabled: header.provider_delivery_enabled,
            provider_active: header.provider_status@ == "ACTIVE"@,
            kafka_credential_active: match header.credential_status {
                Some(status) => status@ == "ACTIVE"@,
                None => false,
            },
            subscription_enabled: enabled,
            subscription_version: header.version,
        }
    }

    /// The gates of a provider for a subscription.
    pub fn for_subscription(header: &SubscriptionHeader, enabled: bool) -> (r: DeliveryGate)
        ensures
            r == DeliveryGate::of(*header, enabled),
    {
        DeliveryGate {
            global_delivery_enabled: header.global_delivery_enabled,
            provider_delivery_enabled: header.provider_delivery_enabled,
            provider_active: text::same_text(header.provider_status.as_str(), "ACTIVE"),
            kafka_credential_active: text::is_some_text(&header.credential_status, "ACTIVE"),
            subscription_enabled: enabled,
            subscription_version: header.version,
        }
    }

    /// Every gate is open.
    pub open spec fn is_open(self) -> bool {
        self.global_delivery_enabled && self.provider_delivery_enabled && self.provider_active
            && self.kafka_credential_active && self.subscription_enabled
    }

    /// The names of the closed gates, as JSON texts.
    pub open spec fn blocked(self) -> Seq<Seq<char>> {
        named(!self.global_delivery_enabled, "\"GLOBAL_DELIVERY_DISABLED\""@) + named(
            !self.provider_delivery_enabled,
            "\"PROVIDER_DELIVERY_DISABLED\""@,
        ) + named(!self.provider_active, "\"PROVIDER_NOT_ACTIVE\""@) + named(
            !self.kafka_credential_active,
            "\"KAFKA_CREDENTIAL_NOT_ACTIVE\""@,
        ) + named(!self.subscription_enabled, "\"EVENT_DISABLED\""@)
    }

    /// The names of the closed gates, as JSON texts.
    pub fn blocked_by(&self) -> (r: Vec<String>)
        ensures
            text::texts(r@) == self.blocked(),
    {
        let mut reasons: Vec<String> = Vec::new();
        assert(text::texts(reasons@) =~= Seq::<Seq<char>>::empty());
        name_if(&mut reasons, !self.global_delivery_enabled, "\"GLOBAL_DELIVERY_DISABLED\"");
        name_if(&mut reasons, !self.provider_delivery_enabled, "\"PROVIDER_DELIVERY_DISABLED\"");
        name_if(&mut reasons, !self.provider_active, "\"PROVIDER_NOT_ACTIVE\"");
        name_if(&mut reasons, !self.kafka_credential_active, "\"KAFKA_CREDENTIAL_NOT_ACTIVE\"");
        name_if(&mut reasons, !self.subscription_enabled, "\"EVENT_DISABLED\"");
        assert(text::texts(reasons@) =~= self.blocked());
        reasons
    }
}

/// A name where it applies.
pub open spec fn named(applies: bool, name: Seq<char>) -> Seq<Seq<char>> {
    if applies {
        seq![name]
    } else {
        Seq::empty()
    }
}

fn name_if(reasons: &mut Vec<String>, applies: bool, name: &str)
    ensures
        text::texts(final(reasons)@) == text::texts(old(reasons)@) + named(applies, name@),
{
    if applies {
        reasons.push(name.to_owned());
    }
    assert(text::texts(reasons@) =~= text::texts(old(reasons)@) + named(applies, name@));
}

/// Nothing blocks an event exactly where every gate is open.
pub proof fn open_gate_blocks_nothing(gate: DeliveryGate)
    ensures
        gate.is_open() <==> gate.blocked().len() == 0,
{
}

/// What a stored record means for a change of subscriptions.
pub open spec fn subscription_verdict(
    verdict: IdempotencyVerdict,
) -> ProviderEventSubscriptionUpdateOutcome {
    match verdict {
        IdempotencyVerdict::Conflict => ProviderEventSubscriptionUpdateOutcome::IdempotencyConflict,
        IdempotencyVerdict::Replay(snapshot) => {
            ProviderEventSubscriptionUpdateOutcome::Replayed(snapshot)
        },
        IdempotencyVerdict::InProgress => {
            ProviderEventSubscriptionUpdateOutcome::IdempotencyInProgress
        },
        IdempotencyVerdict::InvalidState => {
            ProviderEventSubscriptionUpdateOutcome::IdempotencyInvalidState
        },
    }
}

/// What a stored record means for a change of subscriptions with this request hash.
pub fn classify_idempotency(
    existing: &IdempotencyRecord,
    request_hash: &String,
) -> (r: ProviderEventSubscriptionUpdateOutcome)
    ensures
        r == subscription_verdict(idempotency::idempotency_verdict(*existing, *request_hash)),
{
    match idempotency::judge_idempotency(existing, request_hash) {
        IdempotencyVerdict::Conflict => ProviderEventSubscriptionUpdateOutcome::IdempotencyConflict,
        IdempotencyVerdict::Replay(snapshot) => {
            ProviderEventSubscriptionUpdateOutcome::Replayed(snapshot)
        },
        IdempotencyVerdict::InProgress => {
            ProviderEventSubscriptionUpdateOutcome::IdempotencyInProgress
        },
        IdempotencyVerdict::InvalidState => {
            ProviderEventSubscriptionUpdateOutcome::IdempotencyInvalidState
        },
    }
}

/// The version and the subscription that a row holds.
pub open spec fn map_subscription_row_spec(
    row: Row,
    catalog: ProviderEventCatalog,
) -> Result<(u64, ProviderEventSubscriptionRecord), HaltView> {
    match row.text_at(0, READ_ROW@) { Err(h) => Err(h), Ok(event_type) =>
    match row.small_at(1, READ_ROW@) { Err(h) => Err(h), Ok(enabled) =>
    match row.int_at(2, READ_ROW@) { Err(h) => Err(h), Ok(row_version) =>
    if row_version < 0 {
        script::query_fault("invalid Provider event subscription version"@)
    } else {
    if !catalog.has(event_type@) {
        script::query_fault("unknown Provider event subscription type"@)
    } else {
    Ok((row_version as u64, ProviderEventSubscriptionRecord { event_type, enabled: enabled == 1 }))
    }}}}}
}

/// The version and the subscription that a row holds.
pub fn map_subscription_row(
    row: &Row,
    catalog: &ProviderEventCatalog,
) -> (r: Result<(u64, ProviderEventSubscriptionRecord), Halt>)
    ensures
        script::seen(r) == map_subscription_row_spec(*row, *catalog),
{
    let event_type = row.text(0, READ_ROW)?;
    let enabled: i64 = row.small(1, READ_ROW)?;
    let row_version: i64 = row.number(2, READ_ROW)?;
    if row_version < 0 {
        return Err(script::fail_query("invalid Provider event subscription version"));
    }
    if !catalog.contains(event_type.as_str()) {
        return Err(script::fail_query("unknown Provider event subscription type"));
    }
    Ok((row_version as u64, ProviderEventSubscriptionRecord { event_type, enabled: enabled == 1 }))
}

/// The subscriptions that rows hold from `i` on, and the version of the last row.
pub open spec fn subscription_rows_spec(
    rows: Seq<Row>,
    i: nat,
    catalog: ProviderEventCatalog,
    version: u64,
    done: Seq<ProviderEventSubscriptionRecord>,
) -> Result<(u64, Seq<ProviderEventSubscriptionRecord>), HaltView>
    decreases rows.len() - i,
{
    if i >= rows.len() {
        Ok((version, done))
    } else {
        match map_subscription_row_spec(rows[i as int], catalog) {
            Err(h) => Err(h),
            Ok((row_version, record)) => subscription_rows_spec(
                rows,
                i + 1,
                catalog,
                row_version,
                done.push(record),
            ),
        }
    }
}

fn subscription_rows(rows: &Vec<Row>, catalog: &ProviderEventCatalog) -> (r: Result<
    (u64, Vec<ProviderEventSubscriptionRecord>),
    Halt,
>)
    ensures
        match r {
            Ok((version, records)) => subscription_rows_spec(rows@, 0, *catalog, 0, Seq::empty())
                == Ok::<(u64, Seq<ProviderEventSubscriptionRecord>), HaltView>(
                (version, records@),
            ),
            Err(h) => subscription_rows_spec(rows@, 0, *catalog, 0, Seq::empty()) == Err::<
                (u64, Seq<ProviderEventSubscriptionRecord>),
                HaltView,
            >(h@),
        },
{
    let mut version: u64 = 0;
    let mut done: Vec<ProviderEventSubscriptionRecord> = Vec::new();
    let mut i: usize = 0;
    assert(done@ =~= Seq::empty());
    while i < rows.len()
        invariant
            i <= rows@.len(),
            subscription_rows_spec(rows@, 0, *catalog, 0, Seq::empty()) == subscription_rows_spec(
                rows@,
                i as nat,
                *catalog,
                version,
                done@,
            ),
        decreases rows@.len() - i,
    {
        let (row_version, record) = map_subscription_row(&rows[i], catalog)?;
        version = row_version;
        done.push(record);
        i = i + 1;
    }
    Ok((version, done))
}

/// Whether events are delivered at all, as a JSON document says.
pub open spec fn global_gate_spec(document: String) -> Result<bool, HaltView> {
    if json::json_reading_fault(document@) is Some {
        script::query_fault("invalid provider event global gate JSON"@)
    } else {
    match json::json_flag_member(document@, "enabled"@) {
    None => {
        script::query_fault("provider event global gate is invalid"@)
    },
    Some(enabled) =>
    Ok(enabled)
    }}
}

/// Whether events are delivered at all, as a JSON document says.
pub fn global_gate(document: &String) -> (r: Result<bool, Halt>)
    ensures
        script::seen(r) == global_gate_spec(*document),
{
    if json::reading_fault(document.as_str()).is_some() {
        return Err(script::fail_query("invalid provider event global gate JSON"));
    }
    let enabled = match json::flag_member(document.as_str(), "enabled") {
        Some(v) => v,
        None => {
            return Err(script::fail_query("provider event global gate is invalid"));
        },
    };
    Ok(enabled)
}

/// Whether the operational controls of a provider let events through. Without controls, or with
/// ones that do not say so, they do not.
pub open spec fn provider_gate(controls: Option<String>) -> bool {
    match controls {
        Some(document) => {
            json::json_flag_member(document@, "event_delivery_enabled"@) == Some(true)
        },
        None => false,
    }
}

fn provider_gate_open(controls: &Option<String>) -> (r: bool)
    ensures
        r == provider_gate(*controls),
{
    match controls {
        Some(document) => match json::flag_member(document.as_str(), "event_delivery_enabled") {
            Some(enabled) => enabled,
            None => false,
        },
        None => false,
    }
}

/// The subscriptions of a provider, where there is such a provider.
pub open spec fn fetch_subscription_set_spec(
    st: RunView,
    catalog: ProviderEventCatalog,
    provider_id: Uuid,
) -> (Result<Option<SubscriptionSetView>, HaltView>, RunView) {
    match script::maybe_row_spec(
        st,
        PROVIDER_STATUS_SQL@,
        seq![Bind::Id(provider_id)],
        "t",
        QUERY@,
    ) { (Err(h), st) => (Err(h), st), (Ok(found), st) =>
    match found {
    None => {
        (Ok(None), st)
    },
    Some(row) =>
    match row.text_at(0, READ_ROW@) { Err(h) => (Err(h), st), Ok(provider_status) =>
    match script::maybe_text_spec(
        st,
        CREDENTIAL_STATUS_SQL@,
        seq![Bind::Id(provider_id)],
        QUERY@,
    ) { (Err(h), st) => (Err(h), st), (Ok(credential_status), st) =>
    match script::one_text_spec(
        st,
        GLOBAL_GATE_SQL@,
        Seq::<Bind>::empty(),
        QUERY@,
    ) { (Err(h), st) => (Err(h), st), (Ok(gate), st) =>
    match global_gate_spec(gate) { Err(h) => (Err(h), st), Ok(global_delivery_enabled) =>
    match script::maybe_text_spec(
        st,
        PROVIDER_GATE_SQL@,
        seq![Bind::Id(provider_id)],
        QUERY@,
    ) { (Err(h), st) => (Err(h), st), (Ok(controls), st) =>
    match script::rows_spec(
        st,
        SUBSCRIPTIONS_SQL@,
        seq![Bind::Id(provider_id)],
        "tni",
        QUERY@,
    ) { (Err(h), st) => (Err(h), st), (Ok(listed), st) =>
    match subscription_rows_spec(
        listed.rows@,
        0,
        catalog,
        0,
        Seq::empty(),
    ) { Err(h) => (Err(h), st), Ok((version, subscriptions)) =>
    if let Some(cause) = listed.failure {
        (script::failed(QUERY@, cause@), st)
    } else {
    if subscriptions.len() != catalog.names@.len() {
        (script::query_fault("Provider event subscription catalog is incomplete"@), st)
    } else {
    (
        Ok(Some(SubscriptionSetView {
            header: SubscriptionHeader {
                provider_id,
                version,
                global_delivery_enabled,
                provider_delivery_enabled: provider_gate(controls),
                provider_status,
                credential_status,
            },
            subscriptions,
        })),
        st,
    )
    }}}}}}}}}}}
}

/// The subscriptions of a provider, where there is such a provider.
pub fn fetch_subscription_set(
    s: &mut Session,
    catalog: &ProviderEventCatalog,
    provider_id: Uuid,
) -> (r: Result<Option<ProviderEventSubscriptionSet>, Halt>)
    ensures
        (script::seen_opt_view(r), final(s)@) == fetch_subscription_set_spec(
            old(s)@,
            *catalog,
            provider_id,
        ),
{
    let found = script::maybe_row(
        s,
        PROVIDER_STATUS_SQL,
        binds::binds1(Bind::Id(provider_id)),
        "t",
        QUERY,
    )?;
    let row = match found {
        Some(v) => v,
        None => {
            return Ok(None);
        },
    };
    let provider_status = row.text(0, READ_ROW)?;
    let credential_status = script::maybe_text(
        s,
        CREDENTIAL_STATUS_SQL,
        binds::binds1(Bind::Id(provider_id)),
        QUERY,
    )?;
    let gate = script::one_text(s, GLOBAL_GATE_SQL, binds::binds0(), QUERY)?;
    let global_delivery_enabled = global_gate(&gate)?;
    let controls = script::maybe_text(
        s,
        PROVIDER_GATE_SQL,
        binds::binds1(Bind::Id(provider_id)),
        QUERY,
    )?;
    let listed = script::rows(
        s,
        SUBSCRIPTIONS_SQL,
        binds::binds1(Bind::Id(provider_id)),
        "tni",
        QUERY,
    )?;
    let (version, subscriptions) = subscription_rows(&listed.rows, catalog)?;
    if let Some(cause) = &listed.failure {
        return Err(script::fail_because(QUERY, cause.as_str()));
    }
    if subscriptions.len() != catalog.names.len() {
        return Err(script::fail_query("Provider event subscription catalog is incomplete"));
    }
    Ok(Some(ProviderEventSubscriptionSet {
        provider_id,
        version,
        global_delivery_enabled,
        provider_delivery_enabled: provider_gate_open(&controls),
        provider_status,
        credential_status,
        subscriptions,
    }))
}

/// Whether the first subscription to an event from `i` on is enabled, where there is one.
pub open spec fn enabled_from(
    list: Seq<ProviderEventSubscriptionRecord>,
    event_type: Seq<char>,
    i: nat,
) -> Option<bool>
    decreases list.len() - i,
{
    if i >= list.len() {
        None
    } else if list[i as int].event_type@ == event_type {
        Some(list[i as int].enabled)
    } else {
        enabled_from(list, event_type, i + 1)
    }
}

fn subscription_enabled(
    list: &Vec<ProviderEventSubscriptionRecord>,
    event_type: &str,
) -> (r: Option<
    bool,
>)
    ensures
        r == enabled_from(list@, event_type@, 0),
{
    let mut i: usize = 0;
    while i < list.len()
        invariant
            i <= list@.len(),
            enabled_from(list@, event_type@, 0) == enabled_from(list@, event_type@, i as nat),
        decreases list@.len() - i,
    {
        if text::same_text(list[i].event_type.as_str(), event_type) {
            return Some(list[i].enabled);
        }
        i = i + 1;
    }
    None
}

/// The gates of an event for a provider, read within the transaction that stores the event: they
/// tell why the event was published or suppressed.
pub open spec fn provider_event_delivery_gate_spec(
    st: RunView,
    catalog: ProviderEventCatalog,
    provider_id: Uuid,
    event_type: String,
) -> (Result<DeliveryGate, HaltView>, RunView) {
    match fetch_subscription_set_spec(
        st,
        catalog,
        provider_id,
    ) { (Err(h), st) => (Err(h), st), (Ok(found), st) =>
    match found {
    None => {
        (script::query_fault("provider disappeared while resolving event delivery"@), st)
    },
    Some(set) =>
    match enabled_from(set.subscriptions, event_type@, 0) {
    None => {
        (script::query_fault("provider event subscription is missing"@), st)
    },
    Some(enabled) =>
    (Ok(DeliveryGate::of(set.header, enabled)), st)
    }}}
}

/// The gates of an event for a provider, read within the transaction that stores the event: they
/// tell why the event was published or suppressed.
pub fn provider_event_delivery_gate(
    s: &mut Session,
    catalog: &ProviderEventCatalog,
    provider_id: Uuid,
    event_type: &String,
) -> (r: Result<DeliveryGate, Halt>)
    ensures
        (script::seen(r), final(s)@) == provider_event_delivery_gate_spec(
            old(s)@,
            *catalog,
            provider_id,
            *event_type,
        ),
{
    let found = fetch_subscription_set(s, catalog, provider_id)?;
    let set = match &found {
        Some(v) => v,
        None => {
            return Err(script::fail_query("provider disappeared while resolving event delivery"));
        },
    };
    let enabled = match subscription_enabled(&set.subscriptions, event_type.as_str()) {
        Some(v) => v,
        None => {
            return Err(script::fail_query("provider event subscription is missing"));
        },
    };
    Ok(DeliveryGate::for_subscription(&set.header(), enabled))
}

/// The members of the snapshot of a subscription.
pub open spec fn record_members(
    header: SubscriptionHeader,
    item: ProviderEventSubscriptionRecord,
) -> Seq<JsonMemberView> {
    let gate = DeliveryGate::of(header, item.enabled);
    seq![
        ("event_type"@, JsonValueView::Text(item.event_type@)),
        ("schema_versions"@, JsonValueView::Documents(seq!["1"@])),
        ("configured_enabled"@, JsonValueView::Flag(item.enabled)),
        ("effective_enabled"@, JsonValueView::Flag(gate.is_open())),
        ("blocked_by"@, JsonValueView::Documents(gate.blocked())),
    ]
}

/// The snapshot of a subscription.
pub open spec fn record_text(
    header: SubscriptionHeader,
    item: ProviderEventSubscriptionRecord,
) -> Seq<
    char,
> {
    json::json_object_text(record_members(header, item))
}

fn record_snapshot(
    header: &SubscriptionHeader,
    item: &ProviderEventSubscriptionRecord,
) -> (r: String)
    ensures
        r@ == record_text(*header, *item),
{
    let gate = DeliveryGate::for_subscription(header, item.enabled);
    let mut versions: Vec<String> = Vec::new();
    versions.push("1".to_owned());
    assert(text::texts(versions@) =~= seq!["1"@]);
    let open: bool = gate.global_delivery_enabled && gate.provider_delivery_enabled
        && gate.provider_active && gate.kafka_credential_active && gate.subscription_enabled;
    let mut members: Vec<JsonMember> = Vec::new();
    members.push(
        JsonMember { name: "event_type", value: JsonValue::Text(item.event_type.clone()) },
    );
    members.push(JsonMember { name: "schema_versions", value: JsonValue::Documents(versions) });
    members.push(JsonMember { name: "configured_enabled", value: JsonValue::Flag(item.enabled) });
    members.push(JsonMember { name: "effective_enabled", value: JsonValue::Flag(open) });
    members.push(
        JsonMember { name: "blocked_by", value: JsonValue::Documents(gate.blocked_by()) },
    );
    assert(json::members_view(members@) =~= record_members(*header, *item));
    json::object_text(&members)
}

/// The value of a text that may be absent.
pub open spec fn optional_text(value: Option<String>) -> JsonValueView {
    match value {
        Some(t) => JsonValueView::Text(t@),
        None => JsonValueView::Null,
    }
}

/// The members of the snapshot of the subscriptions of a provider.
pub open spec fn snapshot_members(
    header: SubscriptionHeader,
    list: Seq<ProviderEventSubscriptionRecord>,
) -> Seq<JsonMemberView> {
    seq![
        ("provider_id"@, JsonValueView::Text(uuid::hyphenated_text(header.provider_id))),
        ("version"@, JsonValueView::Number(header.version as int)),
        ("global_delivery_enabled"@, JsonValueView::Flag(header.global_delivery_enabled)),
        ("provider_delivery_enabled"@, JsonValueView::Flag(header.provider_delivery_enabled)),
        ("credential_status"@, optional_text(header.credential_status)),
        (
            "subscriptions"@,
            JsonValueView::Documents(
                list.map_values(
                    |item: ProviderEventSubscriptionRecord| record_text(header, item),
                ),
            ),
        ),
    ]
}

/// The snapshot of the subscriptions of a provider: how each is set, and whether it is in effect.
pub fn subscription_snapshot(
    header: &SubscriptionHeader,
    list: &Vec<ProviderEventSubscriptionRecord>,
) -> (r: String)
    ensures
        r@ == json::json_object_text(snapshot_members(*header, list@)),
{
    let mut items: Vec<String> = Vec::new();
    let ghost shown = list@.map_values(
        |item: ProviderEventSubscriptionRecord| record_text(*header, item),
    );
    let mut i: usize = 0;
    while i < list.len()
        invariant
            i <= list@.len(),
            shown == list@.map_values(
                |item: ProviderEventSubscriptionRecord| record_text(*header, item),
            ),
            text::texts(items@) =~= shown.take(i as int),
        decreases list@.len() - i,
    {
        let ghost before = items@;
        items.push(record_snapshot(header, &list[i]));
        assert(text::texts(items@) =~= text::texts(before).push(shown[i as int]));
        i = i + 1;
    }
    assert(shown.take(i as int) =~= shown);
    let credential = match &header.credential_status {
        Some(t) => JsonValue::Text(t.clone()),
        None => JsonValue::Null,
    };
    let mut members: Vec<JsonMember> = Vec::new();
    members.push(
        JsonMember { name: "provider_id", value: JsonValue::Text(header.provider_id.to_text()) },
    );
    members.push(JsonMember { name: "version", value: JsonValue::Unsigned(header.version) });
    members.push(
        JsonMember {
            name: "global_delivery_enabled",
            value: JsonValue::Flag(header.global_delivery_enabled),
        },
    );
    members.push(
        JsonMember {
            name: "provider_delivery_enabled",
            value: JsonValue::Flag(header.provider_delivery_enabled),
        },
    );
    members.push(JsonMember { name: "credential_status", value: credential });
    members.push(JsonMember { name: "subscriptions", value: JsonValue::Documents(items) });
    assert(json::members_view(members@) =~= snapshot_members(*header, list@));
    json::object_text(&members)
}

/// The subscriptions of a provider, after a due operational profile was activated.
pub open spec fn get_provider_event_subscriptions_spec(
    st: RunView,
    catalog: ProviderEventCatalog,
    provider_id: Uuid,
) -> (Result<Option<SubscriptionSetView>, HaltView>, RunView) {
    match provider_operational_profile::lock_provider_spec(
        st,
        provider_id,
    ) { (Err(h), st) => (Err(h), st), (Ok(locked), st) =>
    if locked is None {
        (Ok(None), st)
    } else {
    match provider_operational_profile::promote_due_for_provider_spec(
        st,
        provider_id,
    ) { (Err(h), st) => (Err(h), st), (Ok(_), st) =>
    fetch_subscription_set_spec(st, catalog, provider_id)
    }}}
}

impl OracleRepository {
    /// The subscriptions of a provider, after a due operational profile was activated.
    pub fn get_provider_event_subscriptions(
        s: &mut Session,
        catalog: &ProviderEventCatalog,
        provider_id: Uuid,
    ) -> (r: Result<Option<ProviderEventSubscriptionSet>, Halt>)
        ensures
            (script::seen_opt_view(r), final(s)@) == get_provider_event_subscriptions_spec(
                old(s)@,
                *catalog,
                provider_id,
            ),
    {
        let locked = provider_operational_profile::lock_provider(s, provider_id)?;
        if locked.is_none() {
            return Ok(None);
        }
        provider_operational_profile::promote_due_for_provider(s, provider_id)?;
        fetch_subscription_set(s, catalog, provider_id)
    }
}

/// A locked row names a subscription.
pub open spec fn check_locked_row_spec(row: Row) -> Result<(), HaltView> {
    match row.raw_at(0, READ_ROW@) { Err(h) => Err(h), Ok(locked) =>
    Ok(())
    }
}

/// A locked row names a subscription.
pub fn check_locked_row(row: &Row) -> (r: Result<(), Halt>)
    ensures
        script::seen(r) == check_locked_row_spec(*row),
{
    let locked = row.raw(0, READ_ROW)?;
    Ok(())
}

/// Locked rows name subscriptions.
pub open spec fn check_locked_rows_spec(rows: Seq<Row>, i: nat) -> Result<(), HaltView>
    decreases rows.len() - i,
{
    if i >= rows.len() {
        Ok(())
    } else {
        match check_locked_row_spec(rows[i as int]) {
            Err(h) => Err(h), Ok(_) => check_locked_rows_spec(rows, i + 1)
        }
    }
}

/// Locked rows name subscriptions.
pub fn check_locked_rows(rows: &Vec<Row>) -> (r: Result<(), Halt>)
    ensures
        script::seen(r) == check_locked_rows_spec(rows@, 0),
{
    let mut i: usize = 0;
    while i < rows.len()
        invariant
            i <= rows@.len(),
            check_locked_rows_spec(rows@, 0) == check_locked_rows_spec(rows@, i as nat),
        decreases rows@.len() - i,
    {
        check_locked_row(&rows[i])?;
        i = i + 1;
    }
    Ok(())
}

/// Changes a subscription.
pub open spec fn update_subscription_spec(
    st: RunView,
    item: ProviderEventSubscriptionRecord,
    version: i64,
    subject: String,
    reason: String,
    provider_id: Uuid,
) -> (Result<(), HaltView>, RunView) {
    match script::execute_count_spec(
        st,
        UPDATE_SUBSCRIPTION_SQL@,
        seq![
            Bind::Flag(item.enabled),
            Bind::Int(version),
            Bind::Text(subject),
            Bind::Text(reason),
            Bind::Id(provider_id),
            Bind::Text(item.event_type),
        ],
        QUERY@,
        READ_ROW@,
    ) { (Err(h), st) => (Err(h), st), (Ok(touched), st) =>
    if touched != 1 {
        (script::query_fault("Provider event subscription catalog row is missing"@), st)
    } else {
    (Ok(()), st)
    }}
}

/// Changes a subscription.
pub fn update_subscription(
    s: &mut Session,
    item: &ProviderEventSubscriptionRecord,
    version: i64,
    subject: &String,
    reason: &String,
    provider_id: Uuid,
) -> (r: Result<(), Halt>)
    ensures
        (script::seen(r), final(s)@) == update_subscription_spec(
            old(s)@,
            *item,
            version,
            *subject,
            *reason,
            provider_id,
        ),
{
    let touched = script::execute_count(
        s,
        UPDATE_SUBSCRIPTION_SQL,
        binds::binds6(
            Bind::Flag(item.enabled),
            Bind::Int(version),
            Bind::Text(subject.clone()),
            Bind::Text(reason.clone()),
            Bind::Id(provider_id),
            Bind::Text(item.event_type.clone()),
        ),
        QUERY,
        READ_ROW,
    )?;
    if touched != 1 {
        return Err(script::fail_query("Provider event subscription catalog row is missing"));
    }
    Ok(())
}

/// Changes subscriptions in turn.
pub open spec fn update_subscriptions_spec(
    st: RunView,
    list: Seq<ProviderEventSubscriptionRecord>,
    i: nat,
    version: i64,
    subject: String,
    reason: String,
    provider_id: Uuid,
) -> (Result<(), HaltView>, RunView)
    decreases list.len() - i,
{
    if i >= list.len() {
        (Ok(()), st)
    } else {
        match update_subscription_spec(st, list[i as int], version, subject, reason, provider_id) {
            (Err(h), st) => (Err(h), st), (Ok(_), st) => update_subscriptions_spec(
                st,
                list,
                i + 1,
                version,
                subject,
                reason,
                provider_id,
            )
        }
    }
}

/// Changes subscriptions in turn.
pub fn update_subscriptions(
    s: &mut Session,
    list: &Vec<ProviderEventSubscriptionRecord>,
    version: i64,
    subject: &String,
    reason: &String,
    provider_id: Uuid,
) -> (r: Result<(), Halt>)
    ensures
        (script::seen(r), final(s)@) == update_subscriptions_spec(
            old(s)@,
            list@,
            0,
            version,
            *subject,
            *reason,
            provider_id,
        ),
{
    let mut i: usize = 0;
    while i < list.len()
        invariant
            i <= list@.len(),
            update_subscriptions_spec(old(s)@, list@, 0, version, *subject, *reason, provider_id) == update_subscriptions_spec(
                s@,
                list@,
                i as nat,
                version,
                *subject,
                *reason,
                provider_id,
            ),
        decreases list@.len() - i,
    {
        update_subscription(s, &list[i], version, subject, reason, provider_id)?;
        i = i + 1;
    }
    Ok(())
}

/// Each is taken in its turn, after those before it, and the first that fails ends the run.
pub proof fn update_subscriptions_go_in_turn(
    st: RunView,
    list: Seq<ProviderEventSubscriptionRecord>,
    i: nat,
    version: i64,
    subject: String,
    reason: String,
    provider_id: Uuid,
)
    ensures
        ({
            let whole = update_subscriptions_spec(
                st,
                list,
                i,
                version,
                subject,
                reason,
                provider_id,
            );
            let (next, at) = update_subscription_spec(
                st,
                list[i as int],
                version,
                subject,
                reason,
                provider_id,
            );
            &&& i >= list.len() ==> whole == (Ok::<_, HaltView>(()), st)
            &&& i < list.len() ==> match next {
                Ok(_) => {
                    whole == update_subscriptions_spec(
                        at,
                        list,
                        i + 1,
                        version,
                        subject,
                        reason,
                        provider_id,
                    )
                },
                Err(halt) => whole.0 == Err::<(), _>(halt) && whole.1 == at,
            }
        }),
{
}

/// The version after `version` as a database number, or why there is none.
pub open spec fn next_version_spec(version: u64) -> Result<i64, HaltView> {
    if version == u64::MAX {
        script::query_fault("Provider event subscription version overflow"@)
    } else if version + 1 > i64::MAX {
        script::query_fault("Provider event subscription version exceeds Oracle NUMBER"@)
    } else {
        Ok((version + 1) as i64)
    }
}

fn next_version(version: u64) -> (r: Result<i64, Halt>)
    ensures
        script::seen(r) == next_version_spec(version),
{
    if version == u64::MAX {
        Err(script::fail_query("Provider event subscription version overflow"))
    } else if version + 1 > i64::MAX as u64 {
        Err(script::fail_query("Provider event subscription version exceeds Oracle NUMBER"))
    } else {
        Ok((version + 1) as i64)
    }
}

/// Changes subscriptions that are locked and of the expected version.
#[verifier::opaque]
pub open spec fn replace_subscriptions_spec(
    st: RunView,
    context: MutationCommandContext,
    catalog: ProviderEventCatalog,
    provider_id: Uuid,
    previous: SubscriptionSetView,
    expected_version: u64,
    subscriptions: Seq<ProviderEventSubscriptionRecord>,
    reason: String,
) -> (Result<ProviderEventSubscriptionUpdateOutcome, HaltView>, RunView) {
    match idempotency::insert_idempotency_record_spec(
        st,
        context.record,
    ) { (Err(h), st) => (Err(h), st), (Ok(_), st) =>
    match next_version_spec(expected_version) { Err(h) => (Err(h), st), Ok(version) =>
    match update_subscriptions_spec(
        st,
        subscriptions,
        0,
        version,
        context.actor.subject,
        reason,
        provider_id,
    ) { (Err(h), st) => (Err(h), st), (Ok(_), st) =>
    match fetch_subscription_set_spec(
        st,
        catalog,
        provider_id,
    ) { (Err(h), st) => (Err(h), st), (Ok(found), st) =>
    match found {
    None => {
        (script::query_fault("Provider event subscription set disappeared"@), st)
    },
    Some(current) =>
    match script::consult_text_with_spec(
        st,
        Rule::SubscriptionSnapshot(current.header),
        AttachmentView::Subscriptions(current.subscriptions),
    ) { (Err(h), st) => (Err(h), st), (Ok(snapshot), st) =>
    match script::consult_text_with_spec(
        st,
        Rule::SubscriptionSnapshot(previous.header),
        AttachmentView::Subscriptions(previous.subscriptions),
    ) { (Err(h), st) => (Err(h), st), (Ok(old_snapshot), st) =>
    match audit::insert_audit_log_spec(
        st,
        "PROVIDER_EVENT_SUBSCRIPTIONS",
        provider_id,
        AuditAction::Update,
        Bind::Text(reason),
        Some(Snapshot::Text(old_snapshot)),
        Some(Snapshot::Text(snapshot)),
        audit::trusted_origin_spec(context.audit),
    ) { (Err(h), st) => (Err(h), st), (Ok(_), st) =>
    match idempotency::complete_idempotency_record_spec(
        st,
        context.operation_type,
        context.idempotency_key,
        "provider_event_subscriptions",
        provider_id,
        Snapshot::Text(snapshot),
    ) { (Err(h), st) => (Err(h), st), (Ok(_), st) =>
    (Ok(ProviderEventSubscriptionUpdateOutcome::Applied(snapshot)), st)
    }}}}}}}}}
}

/// Changes subscriptions that are locked and of the expected version.
pub fn replace_subscriptions(
    s: &mut Session,
    context: &MutationCommandContext,
    catalog: &ProviderEventCatalog,
    provider_id: Uuid,
    previous: ProviderEventSubscriptionSet,
    expected_version: u64,
    subscriptions: &Vec<ProviderEventSubscriptionRecord>,
    reason: &String,
) -> (r: Result<ProviderEventSubscriptionUpdateOutcome, Halt>)
    ensures
        (script::seen(r), final(s)@) == replace_subscriptions_spec(
            old(s)@,
            *context,
            *catalog,
            provider_id,
            previous@,
            expected_version,
            subscriptions@,
            *reason,
        ),
{
    proof {
        reveal(replace_subscriptions_spec);
    }
    idempotency::insert_idempotency_record(s, &context.record)?;
    let version: i64 = next_version(expected_version)?;
    update_subscriptions(s, subscriptions, version, &context.actor.subject, reason, provider_id)?;
    let found = fetch_subscription_set(s, catalog, provider_id)?;
    let current = match found {
        Some(v) => v,
        None => {
            return Err(script::fail_query("Provider event subscription set disappeared"));
        },
    };
    let snapshot = script::consult_text_with(
        s,
        Rule::SubscriptionSnapshot(current.header()),
        Attachment::Subscriptions(current.subscriptions),
    )?;
    let old_snapshot = script::consult_text_with(
        s,
        Rule::SubscriptionSnapshot(previous.header()),
        Attachment::Subscriptions(previous.subscriptions),
    )?;
    audit::insert_audit_log(
        s,
        "PROVIDER_EVENT_SUBSCRIPTIONS",
        provider_id,
        AuditAction::Update,
        Bind::Text(reason.clone()),
        Some(Snapshot::Text(old_snapshot)),
        Some(Snapshot::Text(snapshot.clone())),
        audit::trusted_origin(&context.audit),
    )?;
    idempotency::complete_idempotency_record(
        s,
        &context.operation_type,
        &context.idempotency_key,
        "provider_event_subscriptions",
        provider_id,
        Snapshot::Text(snapshot.clone()),
    )?;
    Ok(ProviderEventSubscriptionUpdateOutcome::Applied(snapshot))
}

/// Changes the subscriptions of a provider, where they are of the expected version. Under one
/// idempotency key this happens once.
pub open spec fn replace_provider_event_subscriptions_atomic_spec(
    st: RunView,
    context: MutationCommandContext,
    catalog: ProviderEventCatalog,
    provider_id: Uuid,
    expected_version: u64,
    subscriptions: Seq<ProviderEventSubscriptionRecord>,
    reason: String,
) -> (Result<ProviderEventSubscriptionUpdateOutcome, HaltView>, RunView) {
    match idempotency::fetch_idempotency_record_spec(
        st,
        context.operation_type,
        context.idempotency_key,
    ) { (Err(h), st) => (Err(h), st), (Ok(existing), st) =>
    if let Some(record) = existing {
        (
            Ok(subscription_verdict(
                idempotency::idempotency_verdict(record, context.request_hash),
            )),
            st,
        )
    } else {
    match provider_operational_profile::lock_provider_spec(
        st,
        provider_id,
    ) { (Err(h), st) => (Err(h), st), (Ok(locked), st) =>
    if locked is None {
        (Ok(ProviderEventSubscriptionUpdateOutcome::ProviderNotFound), st)
    } else {
    match provider_operational_profile::promote_due_for_provider_spec(
        st,
        provider_id,
    ) { (Err(h), st) => (Err(h), st), (Ok(_), st) =>
    match fetch_subscription_set_spec(
        st,
        catalog,
        provider_id,
    ) { (Err(h), st) => (Err(h), st), (Ok(found), st) =>
    match found {
    None => {
        (Ok(ProviderEventSubscriptionUpdateOutcome::ProviderNotFound), st)
    },
    Some(previous) =>
    match script::rows_spec(
        st,
        LOCK_SUBSCRIPTIONS_SQL@,
        seq![Bind::Id(provider_id)],
        "r",
        QUERY@,
    ) { (Err(h), st) => (Err(h), st), (Ok(held), st) =>
    match check_locked_rows_spec(held.rows@, 0) { Err(h) => (Err(h), st), Ok(_) =>
    if let Some(cause) = held.failure {
        (script::failed(QUERY@, cause@), st)
    } else {
    if previous.header.version != expected_version {
        (Ok(ProviderEventSubscriptionUpdateOutcome::VersionConflict), st)
    } else {
    replace_subscriptions_spec(
        st,
        context,
        catalog,
        provider_id,
        previous,
        expected_version,
        subscriptions,
        reason,
    )
    }}}}}}}}}}}
}

impl OracleRepository {
    /// Changes the subscriptions of a provider, where they are of the expected version. Under one
    /// idempotency key this happens once.
    pub fn replace_provider_event_subscriptions_atomic(
        s: &mut Session,
        context: &MutationCommandContext,
        catalog: &ProviderEventCatalog,
        provider_id: Uuid,
        expected_version: u64,
        subscriptions: &Vec<ProviderEventSubscriptionRecord>,
        reason: &String,
    ) -> (r: Result<ProviderEventSubscriptionUpdateOutcome, Halt>)
        ensures
            (script::seen(r), final(s)@) == replace_provider_event_subscriptions_atomic_spec(
                old(s)@,
                *context,
                *catalog,
                provider_id,
                expected_version,
                subscriptions@,
                *reason,
            ),
    {
        let existing = idempotency::fetch_idempotency_record(
            s,
            &context.operation_type,
            &context.idempotency_key,
        )?;
        if let Some(record) = &existing {
            return Ok(classify_idempotency(record, &context.request_hash));
        }
        let locked = provider_operational_profile::lock_provider(s, provider_id)?;
        if locked.is_none() {
            return Ok(ProviderEventSubscriptionUpdateOutcome::ProviderNotFound);
        }
        provider_operational_profile::promote_due_for_provider(s, provider_id)?;
        let found = fetch_subscription_set(s, catalog, provider_id)?;
        let previous = match found {
            Some(v) => v,
            None => {
                return Ok(ProviderEventSubscriptionUpdateOutcome::ProviderNotFound);
            },
        };
        let held = script::rows(
            s,
            LOCK_SUBSCRIPTIONS_SQL,
            binds::binds1(Bind::Id(provider_id)),
            "r",
            QUERY,
        )?;
        check_locked_rows(&held.rows)?;
        if let Some(cause) = &held.failure {
            return Err(script::fail_because(QUERY, cause.as_str()));
        }
        if previous.version != expected_version {
            return Ok(ProviderEventSubscriptionUpdateOutcome::VersionConflict);
        }
        replace_subscriptions(
            s,
            context,
            catalog,
            provider_id,
            previous,
            expected_version,
            subscriptions,
            reason,
        )
    }
}

/// Under one idempotency key a change of subscriptions is asked for once: where a record is stored,
/// the command is answered from it, and looking it up is all that is done.
pub proof fn subscription_change_is_done_once(
    st: RunView,
    context: MutationCommandContext,
    catalog: ProviderEventCatalog,
    provider_id: Uuid,
    expected_version: u64,
    subscriptions: Seq<ProviderEventSubscriptionRecord>,
    reason: String,
    record: IdempotencyRecord,
)
    requires
        idempotency::fetch_idempotency_record_spec(
            st,
            context.operation_type,
            context.idempotency_key,
        ).0 == Ok::<Option<IdempotencyRecord>, HaltView>(Some(record)),
    ensures
        replace_provider_event_subscriptions_atomic_spec(
            st,
            context,
            catalog,
            provider_id,
            expected_version,
            subscriptions,
            reason,
        ) == (
            Ok::<_, HaltView>(
                subscription_verdict(
                    idempotency::idempotency_verdict(record, context.request_hash),
                ),
            ),
            idempotency::fetch_idempotency_record_spec(
                st,
                context.operation_type,
                context.idempotency_key,
            ).1,
        ),
        script::writes(
            replace_provider_event_subscriptions_atomic_spec(
                st,
                context,
                catalog,
                provider_id,
                expected_version,
                subscriptions,
                reason,
            ).1.log,
        ) == script::writes(st.log),
{
    broadcast use script::writes_with_another;

}

/// What is carried out of a change of subscriptions stores audit evidence and completes the
/// command's record last.
#[verifier::rlimit(60)]
pub broadcast proof fn replace_subscriptions_leaves_evidence(
    st: RunView,
    context: MutationCommandContext,
    catalog: ProviderEventCatalog,
    provider_id: Uuid,
    previous: SubscriptionSetView,
    expected_version: u64,
    subscriptions: Seq<ProviderEventSubscriptionRecord>,
    reason: String,
)
    ensures
        (
            #[trigger] replace_subscriptions_spec(st, context, catalog, provider_id, previous, expected_version, subscriptions, reason)
        ).0 matches Ok(outcome) ==> {
            let log = replace_subscriptions_spec(
                st,
                context,
                catalog,
                provider_id,
                previous,
                expected_version,
                subscriptions,
                reason,
            ).1.log;
            &&& outcome is Applied
            &&& script::runs(log, audit::AUDIT_INSERT_SQL@) > 0
            &&& script::is_run_of(log.last(), idempotency::IDEMPOTENCY_COMPLETE_SQL@)
        },
{
    broadcast use script::runs_with_another;

    reveal(replace_subscriptions_spec);
}

/// Where a change of subscriptions is carried out in a run of its own, audit evidence is stored
/// within it, and the command's record is completed last.
#[verifier::rlimit(40)]
pub proof fn subscription_change_leaves_evidence(
    st: RunView,
    context: MutationCommandContext,
    catalog: ProviderEventCatalog,
    provider_id: Uuid,
    expected_version: u64,
    subscriptions: Seq<ProviderEventSubscriptionRecord>,
    reason: String,
)
    requires
        st.log.len() == 0,
    ensures
        ({
            let (result, after) = replace_provider_event_subscriptions_atomic_spec(
                st,
                context,
                catalog,
                provider_id,
                expected_version,
                subscriptions,
                reason,
            );
            result matches Ok(outcome) ==> outcome is Applied ==> script::runs(
                after.log,
                audit::AUDIT_INSERT_SQL@,
            ) > 0 && script::is_run_of(after.log.last(), idempotency::IDEMPOTENCY_COMPLETE_SQL@)
        }),
{
    broadcast use replace_subscriptions_leaves_evidence;

}

/// A command that is recorded is answered by its record: under another request it conflicts; under
/// the same one it gets the answer that is stored, or is told that it is under way, or that the
/// record is not in order.
pub proof fn subscription_verdict_goes_by_the_record(
    record: crate::domain::idempotency::IdempotencyRecord,
    request_hash: String,
)
    ensures
        ({
            let answered = subscription_verdict(
                idempotency::idempotency_verdict(record, request_hash),
            );
            let same = record.request_hash@ == request_hash@;
            &&& answered is IdempotencyConflict <==> !same
            &&& answered is IdempotencyInProgress <==> same && record.status is InProgress
            &&& answered matches ProviderEventSubscriptionUpdateOutcome::Replayed(
                answer,
            ) ==> record.response_snapshot == Some(answer)
            &&& answered is Replayed <==> same && record.status is Completed
                && record.response_snapshot is Some
            &&& answered is IdempotencyInvalidState <==> same && !(record.status is InProgress)
                && !(
            record.status is Completed && record.response_snapshot is Some)
        }),
{
}

/// Where a change of subscriptions is refused, or answered from a record, and no operational
/// profile of the provider is due meanwhile, nothing is changed.
pub proof fn refused_subscription_change_changes_nothing(
    st: RunView,
    context: MutationCommandContext,
    catalog: ProviderEventCatalog,
    provider_id: Uuid,
    expected_version: u64,
    subscriptions: Seq<ProviderEventSubscriptionRecord>,
    reason: String,
)
    requires
        ({
            let looked = idempotency::fetch_idempotency_record_spec(
                st,
                context.operation_type,
                context.idempotency_key,
            ).1;
            let locked = provider_operational_profile::lock_provider_spec(looked, provider_id).1;
            provider_operational_profile::fetch_due_scheduled_spec(locked, provider_id).0
                matches Ok(None)
        }),
    ensures
        ({
            let (result, after) = replace_provider_event_subscriptions_atomic_spec(
                st,
                context,
                catalog,
                provider_id,
                expected_version,
                subscriptions,
                reason,
            );
            result matches Ok(outcome) ==> outcome is Applied || script::writes(after.log)
                == script::writes(st.log)
        }),
{
    broadcast use {script::writes_with_another, replace_subscriptions_leaves_evidence};

}


/// Where a run that replaces subscriptions stands when it asks for them as they are now, and how
/// they are now.
pub open spec fn asking_for_snapshot(
    st: RunView,
    context: MutationCommandContext,
    catalog: ProviderEventCatalog,
    provider_id: Uuid,
    expected_version: u64,
    subscriptions: Seq<ProviderEventSubscriptionRecord>,
    reason: String,
) -> (RunView, SubscriptionSetView) {
    let looked_up = idempotency::fetch_idempotency_record_spec(
        st,
        context.operation_type,
        context.idempotency_key,
    ).1;
    let locked = provider_operational_profile::lock_provider_spec(looked_up, provider_id).1;
    let promoted = provider_operational_profile::promote_due_for_provider_spec(
        locked,
        provider_id,
    ).1;
    let read = fetch_subscription_set_spec(promoted, catalog, provider_id).1;
    let held = script::rows_spec(
        read,
        LOCK_SUBSCRIPTIONS_SQL@,
        seq![Bind::Id(provider_id)],
        "r",
        QUERY@,
    ).1;
    let recorded = idempotency::insert_idempotency_record_spec(held, context.record).1;
    let updated = update_subscriptions_spec(
        recorded,
        subscriptions,
        0,
        next_version_spec(expected_version)->Ok_0,
        context.actor.subject,
        reason,
        provider_id,
    ).1;
    let (found, at) = fetch_subscription_set_spec(updated, catalog, provider_id);
    (at, found->Ok_0->Some_0)
}

/// Where subscriptions are replaced and the question for them is answered with what is owed to it,
/// the answer to the command is the snapshot as this library writes it, and the command's record is
/// completed with it.
#[verifier::rlimit(60)]
pub proof fn subscription_change_is_answered_with_the_snapshot(
    st: RunView,
    context: MutationCommandContext,
    catalog: ProviderEventCatalog,
    provider_id: Uuid,
    expected_version: u64,
    subscriptions: Seq<ProviderEventSubscriptionRecord>,
    reason: String,
)
    requires
        idempotency::fetch_idempotency_record_spec(
            st,
            context.operation_type,
            context.idempotency_key,
        ).0 == Ok::<Option<IdempotencyRecord>, HaltView>(None),
        replace_provider_event_subscriptions_atomic_spec(
            st,
            context,
            catalog,
            provider_id,
            expected_version,
            subscriptions,
            reason,
        ).0 matches Ok(outcome) && outcome is Applied,
        ({
            let (at, current) = asking_for_snapshot(
                st,
                context,
                catalog,
                provider_id,
                expected_version,
                subscriptions,
                reason,
            );
            answers::is_answered(
                Rule::SubscriptionSnapshot(current.header),
                AttachmentView::Subscriptions(current.subscriptions),
                at.rest[0],
            )
        }),
    ensures
        ({
            let (_, current) = asking_for_snapshot(
                st,
                context,
                catalog,
                provider_id,
                expected_version,
                subscriptions,
                reason,
            );
            let (result, after) = replace_provider_event_subscriptions_atomic_spec(
                st,
                context,
                catalog,
                provider_id,
                expected_version,
                subscriptions,
                reason,
            );
            &&& result matches Ok(ProviderEventSubscriptionUpdateOutcome::Applied(snapshot))
            &&& snapshot@ == json::json_object_text(
                snapshot_members(current.header, current.subscriptions),
            )
            &&& after.log.last() matches CallView::Sql { sql, binds, .. }
            &&& sql == idempotency::IDEMPOTENCY_COMPLETE_SQL@
            &&& binds.contains(Bind::JsonText(snapshot))
        }),
{
    let (at, current) = asking_for_snapshot(
        st,
        context,
        catalog,
        provider_id,
        expected_version,
        subscriptions,
        reason,
    );
    reveal(replace_subscriptions_spec);
    answers::owed_text_is_taken(
        at,
        Rule::SubscriptionSnapshot(current.header),
        AttachmentView::Subscriptions(current.subscriptions),
    );
}

/// Each gate of a provider's event goes by its own switch: the global one, the provider's, whether
/// the provider is active, whether its credential is, and whether it subscribed to the event.
pub proof fn gates_go_by_their_switches(header: SubscriptionHeader, enabled: bool)
    ensures
        ({
            let gate = DeliveryGate::of(header, enabled);
            &&& gate.global_delivery_enabled == header.global_delivery_enabled
            &&& gate.provider_delivery_enabled == header.provider_delivery_enabled
            &&& gate.provider_active <==> header.provider_status@ == "ACTIVE"@
            &&& gate.kafka_credential_active <==> (header.credential_status matches Some(status)
                && status@ == "ACTIVE"@)
            &&& gate.subscription_enabled == enabled
            &&& gate.subscription_version == header.version
            &&& gate.is_open() <==> gate.global_delivery_enabled && gate.provider_delivery_enabled
                && gate.provider_active && gate.kafka_credential_active && gate.subscription_enabled
        }),
{
}

/// A subscription is read from its row: its event, whether it is enabled, which is where the column
/// is one, and its version, which is not negative. Its event is one of the catalog.
pub proof fn subscription_is_read_from_its_columns(row: Row, catalog: ProviderEventCatalog)
    ensures
        map_subscription_row_spec(row, catalog) matches Ok((version, record)) ==> {
            &&& record.event_type == row.text_at(0, READ_ROW@)->Ok_0
            &&& record.enabled <==> row.small_at(1, READ_ROW@)->Ok_0 == 1
            &&& row.int_at(2, READ_ROW@)->Ok_0 == version
        },
{
}

/// The controls of a provider open its gate only where they say so.
pub proof fn provider_gate_goes_by_the_controls(controls: Option<String>)
    ensures
        provider_gate(controls) <==> (controls matches Some(document) && json::json_flag_member(
            document@,
            "event_delivery_enabled"@,
        ) == Some(true)),
{
}

/// A change of subscriptions without a record is refused where the provider is missing, and where
/// the stored version is not the one expected.
#[verifier::rlimit(80)]
pub proof fn subscription_change_expects_the_stored_version(
    st: RunView,
    context: MutationCommandContext,
    catalog: ProviderEventCatalog,
    provider_id: Uuid,
    expected_version: u64,
    subscriptions: Seq<ProviderEventSubscriptionRecord>,
    reason: String,
)
    requires
        idempotency::fetch_idempotency_record_spec(
            st,
            context.operation_type,
            context.idempotency_key,
        ).0 == Ok::<Option<IdempotencyRecord>, HaltView>(None),
    ensures
        ({
            let result = replace_provider_event_subscriptions_atomic_spec(
                st,
                context,
                catalog,
                provider_id,
                expected_version,
                subscriptions,
                reason,
            ).0;
            let looked = idempotency::fetch_idempotency_record_spec(
                st,
                context.operation_type,
                context.idempotency_key,
            ).1;
            let (locked, held) = provider_operational_profile::lock_provider_spec(
                looked,
                provider_id,
            );
            let (promoted, at) = provider_operational_profile::promote_due_for_provider_spec(
                held,
                provider_id,
            );
            let found = fetch_subscription_set_spec(at, catalog, provider_id).0;
            &&& (locked matches Ok(None)) ==> result == Ok::<_, HaltView>(
                ProviderEventSubscriptionUpdateOutcome::ProviderNotFound,
            )
            &&& result == Ok::<_, HaltView>(ProviderEventSubscriptionUpdateOutcome::VersionConflict)
                ==> (
                    found matches Ok(Some(previous)) && previous.header.version != expected_version
                )
            &&& (result matches Ok(outcome) && outcome is Applied) ==> (locked matches Ok(Some(_)))
                && (
            found matches Ok(Some(previous)) && previous.header.version == expected_version)
        }),
{
    broadcast use replace_subscriptions_leaves_evidence;

}

/// The subscriptions that are changed are told in their order, each with its switch, the version
/// after the one expected, the provider and its event, and no other call is made.
pub proof fn changed_subscriptions_are_told_in_order(
    st: RunView,
    list: Seq<ProviderEventSubscriptionRecord>,
    i: nat,
    version: i64,
    subject: String,
    reason: String,
    provider_id: Uuid,
)
    requires
        i <= list.len(),
    ensures
        ({
            let (result, after) = update_subscriptions_spec(
                st,
                list,
                i,
                version,
                subject,
                reason,
                provider_id,
            );
            result is Ok ==> after.log == st.log + Seq::new(
                (list.len() - i) as nat,
                |j: int|
                    script::change(
                        UPDATE_SUBSCRIPTION_SQL@,
                        switch_binds(list[i + j], version, subject, reason, provider_id),
                    ),
            )
        }),
    decreases list.len() - i,
{
    let (result, after) = update_subscriptions_spec(
        st,
        list,
        i,
        version,
        subject,
        reason,
        provider_id,
    );
    if i >= list.len() {
        assert(st.log =~= st.log + Seq::new(
            0,
            |j: int|
                script::change(
                    UPDATE_SUBSCRIPTION_SQL@,
                    switch_binds(list[i + j], version, subject, reason, provider_id),
                ),
        ));
    } else if result is Ok {
        let told = update_subscription_spec(
            st,
            list[i as int],
            version,
            subject,
            reason,
            provider_id,
        ).1;
        changed_subscriptions_are_told_in_order(
            told,
            list,
            i + 1,
            version,
            subject,
            reason,
            provider_id,
        );
        assert(told.log == st.log.push(
            script::change(
                UPDATE_SUBSCRIPTION_SQL@,
                switch_binds(list[i as int], version, subject, reason, provider_id),
            ),
        ));
        assert(after.log =~= st.log + Seq::new(
            (list.len() - i) as nat,
            |j: int|
                script::change(
                    UPDATE_SUBSCRIPTION_SQL@,
                    switch_binds(list[i + j], version, subject, reason, provider_id),
                ),
        ));
    }
}

/// The values that a subscription is switched with.
pub open spec fn switch_binds(
    item: ProviderEventSubscriptionRecord,
    version: i64,
    subject: String,
    reason: String,
    provider_id: Uuid,
) -> Seq<Bind> {
    seq![
        Bind::Flag(item.enabled),
        Bind::Int(version),
        Bind::Text(subject),
        Bind::Text(reason),
        Bind::Id(provider_id),
        Bind::Text(item.event_type),
    ]
}

/// The version of the subscriptions goes up by one.
pub proof fn subscription_version_goes_up_by_one(version: u64)
    ensures
        version < i64::MAX <==> next_version_spec(version) == Ok::<i64, HaltView>(
            (version + 1) as i64,
        ) && version < i64::MAX,
        version >= i64::MAX ==> next_version_spec(version) is Err,
        version < i64::MAX ==> next_version_spec(version) is Ok,
{
}

/// The first record of an event type tells whether the event is wanted; without one nothing is
/// known.
pub proof fn first_record_of_a_type_tells(
    list: Seq<ProviderEventSubscriptionRecord>,
    event_type: Seq<char>,
    i: nat,
)
    ensures
        enabled_from(list, event_type, i) is None ==> forall|k: int|
            i <= k < list.len() ==> (#[trigger] list[k]).event_type@ != event_type,
        enabled_from(list, event_type, i) matches Some(enabled) ==> exists|k: int|
            i <= k < list.len() && (#[trigger] list[k]).event_type@ == event_type && list[k].enabled
                == enabled && (forall|j: int|
                i <= j < k ==> (#[trigger] list[j]).event_type@ != event_type),
    decreases list.len() - i,
{
    if i < list.len() && list[i as int].event_type@ != event_type {
        first_record_of_a_type_tells(list, event_type, i + 1);
        if enabled_from(list, event_type, i) is Some {
            let enabled = enabled_from(list, event_type, i)->Some_0;
            let k = choose|k: int|
                i + 1 <= k < list.len() && (#[trigger] list[k]).event_type@ == event_type
                    && list[k].enabled == enabled && (forall|j: int|
                    i + 1 <= j < k ==> (#[trigger] list[j]).event_type@ != event_type);
            assert(list[k].event_type@ == event_type);
        }
    } else if i < list.len() {
        assert(list[i as int].event_type@ == event_type);
    }
}

/// A reason is named where it applies, and only there.
pub proof fn reason_is_named_where_it_applies(applies: bool, name: Seq<char>)
    ensures
        applies ==> named(applies, name) == seq![name],
        !applies ==> named(applies, name).len() == 0,
{
}

/// Whether events go out at all is what the document's flag says; a document without it is refused.
pub proof fn gate_is_what_its_document_says(document: String)
    requires
        crate::json::json_reading_fault(document@) is None,
    ensures
        global_gate_spec(document) matches Ok(enabled) ==> crate::json::json_flag_member(
            document@,
            "enabled"@,
        ) == Some(enabled),
        global_gate_spec(document) is Ok <==> crate::json::json_flag_member(document@, "enabled"@)
            is Some,
{
}

/// The subscriptions are those of a provider that is there, and nothing is read where there is
/// none.
pub proof fn subscriptions_are_those_of_a_stored_provider(
    st: RunView,
    catalog: ProviderEventCatalog,
    provider_id: Uuid,
)
    requires
        crate::db::oracle::provider_operational_profile::lock_provider_spec(
            st,
            provider_id,
        ).0 is Ok,
    ensures
        ({
            let (locked, at) = crate::db::oracle::provider_operational_profile::lock_provider_spec(
                st,
                provider_id,
            );
            let (promoted, next) =
                crate::db::oracle::provider_operational_profile::promote_due_for_provider_spec(
                at,
                provider_id,
            );
            let ended = get_provider_event_subscriptions_spec(st, catalog, provider_id);
            &&& locked->Ok_0 is None ==> (ended.0 matches Ok(None)) && ended.1 == at
            &&& locked->Ok_0 is Some && promoted is Ok ==> ended == fetch_subscription_set_spec(
                next,
                catalog,
                provider_id,
            )
        }),
{
}

/// What is asked first, and with which values, in a run that does this:
/// changes a subscription.
pub proof fn update_subscription_asks_first(
    st: RunView,
    item: ProviderEventSubscriptionRecord,
    version: i64,
    subject: String,
    reason: String,
    provider_id: Uuid,
)
    requires
        st.rest.len() == 0,
    ensures
        update_subscription_spec(
            st,
            item,
            version,
            subject,
            reason,
            provider_id,
        ).0 matches Err(HaltView::Ask(asked))
            && (
                asked matches script::CallView::Sql { sql, binds, .. }
                    && sql == UPDATE_SUBSCRIPTION_SQL@
                    && binds == seq![
                        Bind::Flag(item.enabled),
                        Bind::Int(version),
                        Bind::Text(subject),
                        Bind::Text(reason),
                        Bind::Id(provider_id),
                        Bind::Text(item.event_type),
                    ]
            ),
{
}

/// Exactly one row is touched where a run succeeds that does this:
/// changes a subscription.
pub proof fn update_subscription_touches_one_row(
    st: RunView,
    item: ProviderEventSubscriptionRecord,
    version: i64,
    subject: String,
    reason: String,
    provider_id: Uuid,
)
    requires
        update_subscription_spec(st, item, version, subject, reason, provider_id).0 is Ok,
    ensures
        st.rest[0] == script::Reply::Executed(Ok(1)),
{
}

/// What the database is told, and with which values, where a run succeeds that does this:
/// changes a subscription.
#[verifier::rlimit(60)]
pub proof fn update_subscription_is_told(
    st: RunView,
    item: ProviderEventSubscriptionRecord,
    version: i64,
    subject: String,
    reason: String,
    provider_id: Uuid,
)
    ensures
        ({
            let (ended, after) = update_subscription_spec(
                st,
                item,
                version,
                subject,
                reason,
                provider_id,
            );
            let log = after.log;
            ended is Ok ==> {
                &&& script::ran(
                    log,
                    UPDATE_SUBSCRIPTION_SQL@,
                    seq![
                        Bind::Flag(item.enabled),
                        Bind::Int(version),
                        Bind::Text(subject),
                        Bind::Text(reason),
                        Bind::Id(provider_id),
                        Bind::Text(item.event_type),
                    ],
                )
            }
        }),
{
    broadcast use {script::runs_on_with_another, script::told_where_with_another};

}

} // verus!
