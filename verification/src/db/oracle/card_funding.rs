//! The order in which providers fund cards.
use vstd::prelude::*;
use std::collections::BTreeMap;
use crate::db::oracle::answers;
use crate::db::oracle::audit;
use crate::db::oracle::binds;
use crate::db::oracle::consult::{Attachment, AttachmentView, DocumentKind, Rule};
use crate::db::oracle::document::Snapshot;
use crate::db::oracle::idempotency;
use crate::db::oracle::provider_range;
use crate::db::oracle::provider_user;
use crate::db::oracle::repository::OracleRepository;
use crate::db::oracle::script;
use crate::db::oracle::script::{Bind, Halt, HaltView, Row, RunView, Session};
use crate::domain::audit::AuditAction;
use crate::domain::command::{HeaderSource, MutationCommandContext};
use crate::domain::copied_list;
use crate::domain::idempotency::{IdempotencyRecord, IdempotencyStatus};
use crate::domain::user_card::{
    CardProfileRefreshReason, CurrentFundingSource, FundingOrderAppliedSource, FundingOrderResult,
    FundingOrderSource, FundingOrderSummary,
};
use crate::json;
use crate::json::{JsonMember, JsonMemberView, JsonValue, JsonValueView};
use crate::text;
use crate::uuid;
use crate::uuid::Uuid;

verus! {

/// Locks and reads a card by its number.
pub const LOCK_CARD_SQL: &'static str = "SELECT card_id,user_id,status,state_version,publication_operation_id FROM cards WHERE card_number=:1 FOR UPDATE";

/// Lists the funding sources of a card, by rank.
pub const CURRENT_SOURCES_SQL: &'static str = "SELECT fs.provider_id,fs.priority,fs.max_amount_rials FROM card_provider_funding_sources fs WHERE fs.card_id=:1 AND fs.status IN ('ACTIVE','SUSPENDED') ORDER BY fs.priority";

/// Moves a funding source out of the way of the ranks to come.
pub const STAGE_PRIORITY_SQL: &'static str = "UPDATE card_provider_funding_sources SET priority=:1,updated_by_subject=:2,updated_at=SYSTIMESTAMP WHERE card_id=:3 AND provider_id=:4 AND status IN ('ACTIVE','SUSPENDED')";

/// Gives a funding source its rank and its cap.
pub const APPLY_PRIORITY_SQL: &'static str = "UPDATE card_provider_funding_sources SET priority=:1,max_amount_rials=:2,updated_by_subject=:3,updated_at=SYSTIMESTAMP WHERE card_id=:4 AND provider_id=:5 AND status IN ('ACTIVE','SUSPENDED')";

/// Gives a card its next version.
pub const ADVANCE_CARD_SQL: &'static str = "UPDATE cards SET state_version=:1,updated_by_subject=:2,updated_at=SYSTIMESTAMP WHERE card_id=:3 AND state_version=:4";

/// The context of a column that cannot be read.
pub const READ_ROW: &'static str = "failed to map card funding order";

/// The rank from which funding sources wait for their ranks to come.
pub const STAGED_PRIORITY: i64 = 60_000;

/// What became of a funding order. A replayed answer is a JSON document.
#[derive(Debug)]
pub enum FundingOrderPersistenceOutcome {
    Applied(FundingOrderResult),
    Replayed(String),
    IdempotencyConflict,
    IdempotencyInProgress,
    CardNotFound,
    CardNotActive,
    CardOwnerMismatch,
    StateVersionConflict,
    PublicationPending,
    CardProfileLocked,
    SourceSetMismatch,
}

/// What became of a funding order, as plain values.
pub enum FundingOrderOutcomeView {
    Applied((FundingOrderSummary, Seq<FundingOrderAppliedSource>)),
    Replayed(String),
    IdempotencyConflict,
    IdempotencyInProgress,
    CardNotFound,
    CardNotActive,
    CardOwnerMismatch,
    StateVersionConflict,
    PublicationPending,
    CardProfileLocked,
    SourceSetMismatch,
}

impl View for FundingOrderPersistenceOutcome {
    type V = FundingOrderOutcomeView;

    open spec fn view(&self) -> FundingOrderOutcomeView {
        match self {
            FundingOrderPersistenceOutcome::Applied(result) => FundingOrderOutcomeView::Applied(
                result@,
            ),
            FundingOrderPersistenceOutcome::Replayed(snapshot) => FundingOrderOutcomeView::Replayed(
                *snapshot,
            ),
            FundingOrderPersistenceOutcome::IdempotencyConflict => {
                FundingOrderOutcomeView::IdempotencyConflict
            },
            FundingOrderPersistenceOutcome::IdempotencyInProgress => {
                FundingOrderOutcomeView::IdempotencyInProgress
            },
            FundingOrderPersistenceOutcome::CardNotFound => FundingOrderOutcomeView::CardNotFound,
            FundingOrderPersistenceOutcome::CardNotActive => FundingOrderOutcomeView::CardNotActive,
            FundingOrderPersistenceOutcome::CardOwnerMismatch => {
                FundingOrderOutcomeView::CardOwnerMismatch
            },
            FundingOrderPersistenceOutcome::StateVersionConflict => {
                FundingOrderOutcomeView::StateVersionConflict
            },
            FundingOrderPersistenceOutcome::PublicationPending => {
                FundingOrderOutcomeView::PublicationPending
            },
            FundingOrderPersistenceOutcome::CardProfileLocked => {
                FundingOrderOutcomeView::CardProfileLocked
            },
            FundingOrderPersistenceOutcome::SourceSetMismatch => {
                FundingOrderOutcomeView::SourceSetMismatch
            },
        }
    }
}

/// The order in which providers are to fund a card. `headers` are those of the event that tells of
/// it, as JSON.
#[derive(Debug)]
pub struct FundingOrderCommand {
    pub card_number: String,
    pub expected_state_version: i64,
    pub expected_owner: Option<Uuid>,
    pub sources: Vec<FundingOrderSource>,
    pub reason: String,
    pub operation_id: Uuid,
    pub headers: String,
}

/// A list of stored funding sources, by provider, with a source put in its place. A source of the
/// same provider gives way.
pub open spec fn placed(list: Seq<CurrentFundingSource>, item: CurrentFundingSource) -> Seq<
    CurrentFundingSource,
>
    decreases list.len(),
{
    if list.len() == 0 {
        seq![item]
    } else if list.last().provider_id.value > item.provider_id.value {
        placed(list.drop_last(), item).push(list.last())
    } else if list.last().provider_id.value == item.provider_id.value {
        list.drop_last().push(item)
    } else {
        list.push(item)
    }
}

/// Each provider of a list comes once, in the order of their identifiers.
pub open spec fn by_provider(list: Seq<CurrentFundingSource>) -> bool {
    forall|i: int, j: int|
        0 <= i < j < list.len() ==> (#[trigger] list[i]).provider_id.value < (
        #[trigger] list[j]).provider_id.value
}

/// A source is one of a list.
pub open spec fn held(list: Seq<CurrentFundingSource>, item: CurrentFundingSource) -> bool {
    exists|i: int| 0 <= i < list.len() && #[trigger] list[i] == item
}

/// A list by provider stays one when a source is put in its place. It then holds that source and,
/// of the others, those of other providers.
pub proof fn placed_keeps_order(list: Seq<CurrentFundingSource>, item: CurrentFundingSource)
    requires
        by_provider(list),
    ensures
        by_provider(placed(list, item)),
        forall|x: CurrentFundingSource| #[trigger]
            held(placed(list, item), x) <==> x == item || (held(list, x) && x.provider_id
                != item.provider_id),
    decreases list.len(),
{
    let out = placed(list, item);
    if list.len() == 0 {
        assert(out[0] == item);
    } else if list.last().provider_id.value > item.provider_id.value {
        let head = list.drop_last();
        let rest = placed(head, item);
        assert(by_provider(head)) by {
            assert forall|i: int, j: int| 0 <= i < j < head.len() implies (
            #[trigger] head[i]).provider_id.value < (#[trigger] head[j]).provider_id.value by {
                assert(head[i] == list[i] && head[j] == list[j]);
            }
        }
        placed_keeps_order(head, item);
        assert forall|i: int| 0 <= i < rest.len() implies (#[trigger] rest[i]).provider_id.value
            < list.last().provider_id.value by {
            assert(held(rest, rest[i]));
            if rest[i] != item {
                let k = choose|k: int| 0 <= k < head.len() && #[trigger] head[k] == rest[i];
                assert(list[k] == rest[i]);
                assert(list[list.len() - 1] == list.last());
            }
        }
        assert forall|x: CurrentFundingSource| #[trigger] held(out, x) <==> x == item || (held(
            list,
            x,
        ) && x.provider_id != item.provider_id) by {
            assert(out[out.len() - 1] == list.last());
            assert(list[list.len() - 1] == list.last());
            if held(out, x) {
                let k = choose|k: int| 0 <= k < out.len() && #[trigger] out[k] == x;
                if k < out.len() - 1 {
                    assert(rest[k] == x);
                    assert(held(rest, x));
                    if x != item {
                        let m = choose|m: int| 0 <= m < head.len() && #[trigger] head[m] == x;
                        assert(list[m] == x);
                    }
                }
            }
            if x == item || (held(list, x) && x.provider_id != item.provider_id) {
                if x == list.last() {
                } else {
                    if x != item {
                        let m = choose|m: int| 0 <= m < list.len() && #[trigger] list[m] == x;
                        assert(head[m] == x);
                    }
                    assert(held(rest, x));
                    let k = choose|k: int| 0 <= k < rest.len() && #[trigger] rest[k] == x;
                    assert(out[k] == x);
                }
            }
        }
    } else if list.last().provider_id.value == item.provider_id.value {
        assert(list[list.len() - 1] == list.last());
        assert(out[out.len() - 1] == item);
        assert forall|x: CurrentFundingSource| #[trigger] held(out, x) <==> x == item || (held(
            list,
            x,
        ) && x.provider_id != item.provider_id) by {
            if held(out, x) && x != item {
                let k = choose|k: int| 0 <= k < out.len() && #[trigger] out[k] == x;
                assert(list[k] == x);
            }
            if held(list, x) && x.provider_id != item.provider_id {
                let m = choose|m: int| 0 <= m < list.len() && #[trigger] list[m] == x;
                assert(out[m] == x);
            }
        }
    } else {
        assert(list[list.len() - 1] == list.last());
        assert(out[out.len() - 1] == item);
        assert forall|x: CurrentFundingSource| #[trigger] held(out, x) <==> x == item || (held(
            list,
            x,
        ) && x.provider_id != item.provider_id) by {
            if held(out, x) && x != item {
                let k = choose|k: int| 0 <= k < out.len() && #[trigger] out[k] == x;
                assert(list[k] == x);
            }
            if held(list, x) {
                let m = choose|m: int| 0 <= m < list.len() && #[trigger] list[m] == x;
                assert(out[m] == x);
            }
        }
    }
}

/// A map holds the sources of a list, each under its provider.
pub open spec fn keeps(
    sources: Map<u128, CurrentFundingSource>,
    list: Seq<CurrentFundingSource>,
) -> bool {
    &&& forall|k: u128| #[trigger]
        sources.contains_key(k) ==> sources[k].provider_id.value == k && held(list, sources[k])
    &&& forall|x: CurrentFundingSource| #[trigger]
        held(list, x) ==> sources.contains_key(x.provider_id.value)
            && sources[x.provider_id.value] == x
}

/// To put a source in its place in a list is to insert it under its provider.
pub proof fn placed_is_inserted(
    sources: Map<u128, CurrentFundingSource>,
    list: Seq<CurrentFundingSource>,
    item: CurrentFundingSource,
)
    requires
        by_provider(list),
        keeps(sources, list),
    ensures
        by_provider(placed(list, item)),
        keeps(sources.insert(item.provider_id.value, item), placed(list, item)),
{
    placed_keeps_order(list, item);
}

/// Two lists by provider that hold the same sources are the same.
pub proof fn order_is_unique(a: Seq<CurrentFundingSource>, b: Seq<CurrentFundingSource>)
    requires
        by_provider(a),
        by_provider(b),
        forall|x: CurrentFundingSource| #[trigger] held(a, x) <==> held(b, x),
    ensures
        a == b,
    decreases a.len(),
{
    if a.len() == 0 {
        if b.len() > 0 {
            assert(b[0] == b[0]);
            assert(held(b, b[0]));
            assert(held(a, b[0]));
        }
        assert(a =~= b);
    } else {
        assert(a[a.len() - 1] == a.last());
        assert(held(a, a.last()));
        assert(held(b, a.last()));
        assert(b[b.len() - 1] == b.last());
        assert(held(b, b.last()));
        assert(held(a, b.last()));
        let k = choose|k: int| 0 <= k < b.len() && #[trigger] b[k] == a.last();
        let m = choose|m: int| 0 <= m < a.len() && #[trigger] a[m] == b.last();
        assert(a.last() == b.last());
        let c = a.drop_last();
        let d = b.drop_last();
        assert forall|x: CurrentFundingSource| #[trigger] held(c, x) <==> held(d, x) by {
            held_before_last(a, x);
            held_before_last(b, x);
        }
        order_is_unique(c, d);
        assert(a =~= c.push(a.last()));
        assert(b =~= d.push(b.last()));
    }
}

/// Of a list by provider, those before the last are the others.
proof fn held_before_last(list: Seq<CurrentFundingSource>, x: CurrentFundingSource)
    requires
        by_provider(list),
        list.len() > 0,
    ensures
        held(list.drop_last(), x) <==> held(list, x) && x != list.last(),
{
    let head = list.drop_last();
    assert(list[list.len() - 1] == list.last());
    if held(head, x) {
        let k = choose|k: int| 0 <= k < head.len() && #[trigger] head[k] == x;
        assert(list[k] == x);
    }
    if held(list, x) && x != list.last() {
        let k = choose|k: int| 0 <= k < list.len() && #[trigger] list[k] == x;
        assert(head[k] == x);
    }
}

/// The sources of a map, by provider.
pub fn in_order(sources: &BTreeMap<u128, CurrentFundingSource>) -> (list: Vec<CurrentFundingSource>)
    requires
        forall|k: u128| #[trigger]
            sources@.contains_key(k) ==> sources@[k].provider_id.value == k,
    ensures
        by_provider(list@),
        keeps(sources@, list@),
{
    let mut list: Vec<CurrentFundingSource> = Vec::new();
    let entries = sources.iter();
    let ghost all = vstd::std_specs::iter::IteratorSpec::remaining(&entries);
    proof {
        assert(vstd::laws_cmp::obeys_cmp::<u128>());
        assert(vstd::std_specs::btree::key_obeys_cmp_spec::<u128>());
        let keys = all.map_values(|kv: (&u128, &CurrentFundingSource)| *kv.0);
        assert(vstd::std_specs::btree::increasing_seq(keys));
        assert forall|i: int, j: int| 0 <= i < j < all.len() implies *(#[trigger] all[i]).0
            < *(#[trigger] all[j]).0 by {
            assert(vstd::std_specs::cmp::OrdSpec::cmp_spec(&keys[i], &keys[j]) is Less);
        }
        assert forall|i: int| 0 <= i < all.len() implies sources@.contains_key(
            *(#[trigger] all[i]).0,
        ) && sources@[*all[i].0] == *all[i].1 by {}
    }
    for entry in it: entries
        invariant
            it.seq() == all,
            list@.len() == it.index(),
            forall|j: int| 0 <= j < list@.len() ==> #[trigger] list@[j] == *all[j].1,
    {
        list.push(*entry.1);
    }
    proof {
        assert forall|k: u128| #[trigger] sources@.contains_key(k) implies held(
            list@,
            sources@[k],
        ) by {
            assert(all.contains((&k, &sources@[k])));
            let j = choose|j: int| 0 <= j < all.len() && all[j] == (&k, &sources@[k]);
            assert(list@[j] == sources@[k]);
        }
    }
    list
}

/// The funding source that a row holds.
pub open spec fn map_current_source_spec(row: Row) -> Result<CurrentFundingSource, HaltView> {
    match row.raw_at(0, READ_ROW@) { Err(h) => Err(h), Ok(provider_id_raw) =>
    match script::id_of(provider_id_raw@) { Err(h) => Err(h), Ok(provider_id) =>
    match row.int_at(1, READ_ROW@) { Err(h) => Err(h), Ok(priority) =>
    match row.opt_int_at(2, READ_ROW@) { Err(h) => Err(h), Ok(max_amount_rials) =>
    Ok(CurrentFundingSource { provider_id, priority, max_amount_rials })
    }}}}
}

/// The funding source that a row holds.
pub fn map_current_source(row: &Row) -> (r: Result<CurrentFundingSource, Halt>)
    ensures
        script::seen(r) == map_current_source_spec(*row),
{
    let provider_id_raw = row.raw(0, READ_ROW)?;
    let provider_id = script::to_id(provider_id_raw)?;
    let priority: i64 = row.number(1, READ_ROW)?;
    let max_amount_rials = row.opt_number(2, READ_ROW)?;
    Ok(CurrentFundingSource { provider_id, priority, max_amount_rials })
}

/// The funding sources that rows hold from `i` on, put into a list by provider.
pub open spec fn collect_sources_spec(
    rows: Seq<Row>,
    i: nat,
    done: Seq<CurrentFundingSource>,
) -> Result<Seq<CurrentFundingSource>, HaltView>
    decreases rows.len() - i,
{
    if i >= rows.len() {
        Ok(done)
    } else {
        match map_current_source_spec(rows[i as int]) {
            Err(h) => Err(h),
            Ok(item) => collect_sources_spec(rows, i + 1, placed(done, item)),
        }
    }
}

/// The funding sources that rows hold, by provider.
pub fn collect_sources(rows: &Vec<Row>) -> (r: Result<Vec<CurrentFundingSource>, Halt>)
    ensures
        script::seen_view(r) == collect_sources_spec(rows@, 0, Seq::empty()),
{
    let mut sources: BTreeMap<u128, CurrentFundingSource> = BTreeMap::new();
    let ghost mut done: Seq<CurrentFundingSource> = Seq::empty();
    let mut i: usize = 0;
    while i < rows.len()
        invariant
            i <= rows@.len(),
            by_provider(done),
            keeps(sources@, done),
            collect_sources_spec(rows@, 0, Seq::empty()) == collect_sources_spec(
                rows@,
                i as nat,
                done,
            ),
        decreases rows@.len() - i,
    {
        let item = map_current_source(&rows[i])?;
        proof {
            placed_is_inserted(sources@, done, item);
            done = placed(done, item);
        }
        sources.insert(item.provider_id.value, item);
        i = i + 1;
    }
    let list = in_order(&sources);
    proof {
        order_is_unique(list@, done);
    }
    Ok(list)
}

/// Whatever rows hold, their sources come out by provider.
pub proof fn collected_sources_are_by_provider(
    rows: Seq<Row>,
    i: nat,
    done: Seq<CurrentFundingSource>,
)
    requires
        by_provider(done),
    ensures
        collect_sources_spec(rows, i, done) matches Ok(list) ==> by_provider(list),
    decreases rows.len() - i,
{
    if i < rows.len() {
        if let Ok(item) = map_current_source_spec(rows[i as int]) {
            placed_keeps_order(done, item);
            collected_sources_are_by_provider(rows, i + 1, placed(done, item));
        }
    }
}

/// A provider is one of those that are to fund a card.
pub open spec fn is_requested(sources: Seq<FundingOrderSource>, id: Uuid) -> bool {
    exists|i: int| 0 <= i < sources.len() && (#[trigger] sources[i]).provider_id == id
}

/// A provider is one of those that fund a card.
pub open spec fn is_current(current: Seq<CurrentFundingSource>, id: Uuid) -> bool {
    exists|i: int| 0 <= i < current.len() && (#[trigger] current[i]).provider_id == id
}

/// No provider is to fund a card twice, and those that are to fund it are those that do.
pub open spec fn same_providers_spec(
    sources: Seq<FundingOrderSource>,
    current: Seq<CurrentFundingSource>,
) -> bool {
    &&& forall|i: int, j: int|
        0 <= i < j < sources.len() ==> (#[trigger] sources[i]).provider_id != (
        #[trigger] sources[j]).provider_id
    &&& forall|i: int|
        0 <= i < sources.len() ==> is_current(current, (#[trigger] sources[i]).provider_id)
    &&& forall|i: int|
        0 <= i < current.len() ==> is_requested(sources, (#[trigger] current[i]).provider_id)
}

fn find_current(current: &Vec<CurrentFundingSource>, id: Uuid) -> (r: bool)
    ensures
        r == is_current(current@, id),
{
    let mut i: usize = 0;
    while i < current.len()
        invariant
            i <= current@.len(),
            forall|k: int| 0 <= k < i ==> (#[trigger] current@[k]).provider_id != id,
        decreases current@.len() - i,
    {
        if current[i].provider_id == id {
            assert(current@[i as int].provider_id == id);
            return true;
        }
        i = i + 1;
    }
    false
}

/// Whether a provider comes among the sources from `start` on.
fn find_requested(sources: &Vec<FundingOrderSource>, start: usize, id: Uuid) -> (r: bool)
    requires
        start <= sources@.len(),
    ensures
        r == exists|k: int| start <= k < sources@.len()
            && (#[trigger] sources@[k]).provider_id == id,
{
    let mut i: usize = start;
    while i < sources.len()
        invariant
            start <= i <= sources@.len(),
            forall|k: int| start <= k < i ==> (#[trigger] sources@[k]).provider_id != id,
        decreases sources@.len() - i,
    {
        if sources[i].provider_id == id {
            assert(sources@[i as int].provider_id == id);
            return true;
        }
        i = i + 1;
    }
    false
}

/// Whether no provider is to fund a card twice, and those that are to fund it are those that do.
pub fn same_providers(
    sources: &Vec<FundingOrderSource>,
    current: &Vec<CurrentFundingSource>,
) -> (r: bool)
    ensures
        r == same_providers_spec(sources@, current@),
{
    let mut i: usize = 0;
    while i < sources.len()
        invariant
            i <= sources@.len(),
            forall|a: int, b: int|
                0 <= a < b < sources@.len() && a < i ==> (#[trigger] sources@[a]).provider_id != (
                #[trigger] sources@[b]).provider_id,
            forall|a: int|
                0 <= a < i ==> is_current(current@, (#[trigger] sources@[a]).provider_id),
        decreases sources@.len() - i,
    {
        let id = sources[i].provider_id;
        if !find_current(current, id) {
            assert(!is_current(current@, sources@[i as int].provider_id));
            return false;
        }
        if find_requested(sources, i + 1, id) {
            let ghost k = choose|k: int|
                i + 1 <= k < sources@.len() && (#[trigger] sources@[k]).provider_id == id;
            assert(sources@[i as int].provider_id == sources@[k].provider_id);
            return false;
        }
        i = i + 1;
    }
    let mut j: usize = 0;
    while j < current.len()
        invariant
            j <= current@.len(),
            forall|a: int|
                0 <= a < j ==> is_requested(sources@, (#[trigger] current@[a]).provider_id),
        decreases current@.len() - j,
    {
        if !find_requested(sources, 0, current[j].provider_id) {
            assert(!is_requested(sources@, current@[j as int].provider_id));
            return false;
        }
        j = j + 1;
    }
    true
}

/// The members of audit evidence of a stored funding source.
pub open spec fn source_members(source: CurrentFundingSource) -> Seq<JsonMemberView> {
    seq![
        ("provider_id"@, JsonValueView::Text(uuid::hyphenated_text(source.provider_id))),
        ("priority"@, JsonValueView::Number(source.priority as int)),
        (
            "max_amount_rials"@,
            match source.max_amount_rials {
                Some(cap) => JsonValueView::Number(cap as int),
                None => JsonValueView::Null,
            },
        ),
    ]
}

/// Audit evidence of a stored funding source.
pub open spec fn source_text(source: CurrentFundingSource) -> Seq<char> {
    json::json_object_text(source_members(source))
}

fn describe_source(source: &CurrentFundingSource) -> (r: String)
    ensures
        r@ == source_text(*source),
{
    let cap = match source.max_amount_rials {
        Some(cap) => JsonValue::Int(cap),
        None => JsonValue::Null,
    };
    let mut members: Vec<JsonMember> = Vec::new();
    members.push(
        JsonMember { name: "provider_id", value: JsonValue::Text(source.provider_id.to_text()) },
    );
    members.push(JsonMember { name: "priority", value: JsonValue::Int(source.priority) });
    members.push(JsonMember { name: "max_amount_rials", value: cap });
    assert(json::members_view(members@) =~= source_members(*source));
    json::object_text(&members)
}

/// The members of audit evidence of the order of the funding sources of a card.
pub open spec fn previous_order_members(
    state_version: i64,
    list: Seq<CurrentFundingSource>,
) -> Seq<JsonMemberView> {
    seq![
        ("state_version"@, JsonValueView::Number(state_version as int)),
        (
            "sources"@,
            JsonValueView::Documents(
                list.map_values(|source: CurrentFundingSource| source_text(source)),
            ),
        ),
    ]
}

/// Audit evidence of the order of the funding sources of a card.
pub fn previous_order_text(state_version: i64, list: &Vec<CurrentFundingSource>) -> (r: String)
    ensures
        r@ == json::json_object_text(previous_order_members(state_version, list@)),
{
    let ghost shown = list@.map_values(|source: CurrentFundingSource| source_text(source));
    let mut items: Vec<String> = Vec::new();
    let mut i: usize = 0;
    while i < list.len()
        invariant
            i <= list@.len(),
            shown == list@.map_values(|source: CurrentFundingSource| source_text(source)),
            text::texts(items@) =~= shown.take(i as int),
        decreases list@.len() - i,
    {
        let ghost before = items@;
        items.push(describe_source(&list[i]));
        assert(text::texts(items@) =~= text::texts(before).push(shown[i as int]));
        i = i + 1;
    }
    assert(shown.take(i as int) =~= shown);
    let mut members: Vec<JsonMember> = Vec::new();
    members.push(JsonMember { name: "state_version", value: JsonValue::Int(state_version) });
    members.push(JsonMember { name: "sources", value: JsonValue::Documents(items) });
    assert(json::members_view(members@) =~= previous_order_members(state_version, list@));
    json::object_text(&members)
}

/// What a stored record means for a funding order that comes again.
pub open spec fn classify_idempotency_spec(
    st: RunView,
    record: IdempotencyRecord,
    request_hash: String,
) -> (Result<FundingOrderOutcomeView, HaltView>, RunView) {
    if record.request_hash@ != request_hash@ {
        (Ok(FundingOrderOutcomeView::IdempotencyConflict), st)
    } else {
    match record.status {
        IdempotencyStatus::Completed => {
            match record.response_snapshot {
            None => {
                (
                    script::query_fault(
                        "completed funding-order idempotency record has no response"@,
                    ),
                    st,
                )
            },
            Some(snapshot) =>
            match script::verdict_spec(
                st,
                Rule::Document(DocumentKind::FundingOrderResult, snapshot),
            ) { (Err(h), st) => (Err(h), st), (Ok(fault), st) =>
            if let Some(cause) = fault {
                (script::failed("invalid funding-order replay snapshot"@, cause@), st)
            } else {
            (Ok(FundingOrderOutcomeView::Replayed(snapshot)), st)
            }}}
        },
        IdempotencyStatus::InProgress => {
            (Ok(FundingOrderOutcomeView::IdempotencyInProgress), st)
        },
        _ => {
            (script::query_fault("funding-order idempotency record has invalid state"@), st)
        },
    }
    }
}

/// What a stored record means for a funding order that comes again.
pub fn classify_idempotency(
    s: &mut Session,
    record: &IdempotencyRecord,
    request_hash: &String,
) -> (r: Result<FundingOrderPersistenceOutcome, Halt>)
    ensures
        (script::seen_view(r), final(s)@) == classify_idempotency_spec(
            old(s)@,
            *record,
            *request_hash,
        ),
{
    if !text::same_text(record.request_hash.as_str(), request_hash.as_str()) {
        return Ok(FundingOrderPersistenceOutcome::IdempotencyConflict);
    }
    match record.status {
        IdempotencyStatus::Completed => {
            let snapshot = match &record.response_snapshot {
                Some(v) => v,
                None => {
                    return Err(script::fail_query(
                        "completed funding-order idempotency record has no response",
                    ));
                },
            };
            let fault = script::verdict(
                s,
                Rule::Document(DocumentKind::FundingOrderResult, snapshot.clone()),
            )?;
            if let Some(cause) = &fault {
                return Err(script::fail_because(
                    "invalid funding-order replay snapshot",
                    cause.as_str(),
                ));
            }
            return Ok(FundingOrderPersistenceOutcome::Replayed(snapshot.clone()));
        },
        IdempotencyStatus::InProgress => {
            return Ok(FundingOrderPersistenceOutcome::IdempotencyInProgress);
        },
        _ => {
            return Err(script::fail_query("funding-order idempotency record has invalid state"));
        },
    }
}

/// What a stored record means for a funding order, where there is one.
pub open spec fn find_funding_order_replay_spec(
    st: RunView,
    context: MutationCommandContext,
) -> (Result<Option<FundingOrderOutcomeView>, HaltView>, RunView) {
    match idempotency::fetch_idempotency_record_spec(
        st,
        context.operation_type,
        context.idempotency_key,
    ) { (Err(h), st) => (Err(h), st), (Ok(existing), st) =>
    match existing {
    None => {
        (Ok(None), st)
    },
    Some(record) =>
    match classify_idempotency_spec(
        st,
        record,
        context.request_hash,
    ) { (Err(h), st) => (Err(h), st), (Ok(outcome), st) =>
    (Ok(Some(outcome)), st)
    }}}
}

impl OracleRepository {
    /// What a stored record means for a funding order, where there is one.
    pub fn find_funding_order_replay(
        s: &mut Session,
        context: &MutationCommandContext,
    ) -> (r: Result<Option<FundingOrderPersistenceOutcome>, Halt>)
        ensures
            (script::seen_opt_view(r), final(s)@) == find_funding_order_replay_spec(
                old(s)@,
                *context,
            ),
    {
        let existing = idempotency::fetch_idempotency_record(
            s,
            &context.operation_type,
            &context.idempotency_key,
        )?;
        let record = match &existing {
            Some(v) => v,
            None => {
                return Ok(None);
            },
        };
        let outcome = classify_idempotency(s, record, &context.request_hash)?;
        Ok(Some(outcome))
    }
}

/// Moves the funding sources of a card from `i` on out of the way, each to a rank of its own.
pub open spec fn stage_priorities_spec(
    st: RunView,
    sources: Seq<FundingOrderSource>,
    i: nat,
    card_id: Uuid,
    subject: String,
) -> (Result<(), HaltView>, RunView)
    decreases sources.len() - i,
{
    if i >= sources.len() {
        (Ok(()), st)
    } else if i > i64::MAX - STAGED_PRIORITY {
        (script::query_fault("funding source index overflow"@), st)
    } else {
        match script::execute_spec(
            st,
            STAGE_PRIORITY_SQL@,
            seq![
                Bind::Int((STAGED_PRIORITY + i) as i64),
                Bind::Text(subject),
                Bind::Id(card_id),
                Bind::Id(sources[i as int].provider_id),
            ],
            "failed to stage funding priority"@,
        ) {
            (Err(h), st) => (Err(h), st),
            (Ok(_), st) => stage_priorities_spec(st, sources, i + 1, card_id, subject),
        }
    }
}

/// Moves the funding sources of a card out of the way, each to a rank of its own.
pub fn stage_priorities(
    s: &mut Session,
    sources: &Vec<FundingOrderSource>,
    card_id: Uuid,
    subject: &String,
) -> (r: Result<(), Halt>)
    ensures
        (script::seen(r), final(s)@) == stage_priorities_spec(
            old(s)@,
            sources@,
            0,
            card_id,
            *subject,
        ),
{
    let mut i: usize = 0;
    while i < sources.len()
        invariant
            i <= sources@.len(),
            stage_priorities_spec(old(s)@, sources@, 0, card_id, *subject)
                == stage_priorities_spec(s@, sources@, i as nat, card_id, *subject),
        decreases sources@.len() - i,
    {
        if i as u64 > (i64::MAX - STAGED_PRIORITY) as u64 {
            return Err(script::fail_query("funding source index overflow"));
        }
        script::execute(
            s,
            STAGE_PRIORITY_SQL,
            binds::binds4(
                Bind::Int(STAGED_PRIORITY + i as i64),
                Bind::Text(subject.clone()),
                Bind::Id(card_id),
                Bind::Id(sources[i].provider_id),
            ),
            "failed to stage funding priority",
        )?;
        i = i + 1;
    }
    Ok(())
}

/// The cap of a funding source as it is stored.
pub open spec fn stored_cap_spec(cap: Option<u64>) -> Result<Option<i64>, HaltView> {
    match cap {
        None => Ok(None),
        Some(value) => if value > i64::MAX {
            script::query_fault("funding cap overflow"@)
        } else {
            Ok(Some(value as i64))
        },
    }
}

fn stored_cap(cap: Option<u64>) -> (r: Result<Option<i64>, Halt>)
    ensures
        script::seen(r) == stored_cap_spec(cap),
{
    match cap {
        None => Ok(None),
        Some(value) => if value > i64::MAX as u64 {
            Err(script::fail_query("funding cap overflow"))
        } else {
            Ok(Some(value as i64))
        },
    }
}

/// The source at a place of a funding order: its rank counts from one.
pub open spec fn applied_source(
    sources: Seq<FundingOrderSource>,
    i: int,
) -> FundingOrderAppliedSource {
    FundingOrderAppliedSource {
        provider_id: sources[i].provider_id,
        priority: (i + 1) as u16,
        max_amount_rials: sources[i].max_amount_rials,
    }
}

/// Gives the funding sources of a card from `i` on their ranks and caps, after those that are done.
pub open spec fn apply_priorities_spec(
    st: RunView,
    sources: Seq<FundingOrderSource>,
    i: nat,
    card_id: Uuid,
    subject: String,
    done: Seq<FundingOrderAppliedSource>,
) -> (Result<Seq<FundingOrderAppliedSource>, HaltView>, RunView)
    decreases sources.len() - i,
{
    if i >= sources.len() {
        (Ok(done), st)
    } else if i + 1 > u16::MAX {
        (script::query_fault("funding priority overflow"@), st)
    } else {
        match stored_cap_spec(sources[i as int].max_amount_rials) {
            Err(h) => (Err(h), st),
            Ok(cap) => match script::execute_spec(
                st,
                APPLY_PRIORITY_SQL@,
                seq![
                    Bind::Int((i + 1) as i64),
                    Bind::OptInt(cap),
                    Bind::Text(subject),
                    Bind::Id(card_id),
                    Bind::Id(sources[i as int].provider_id),
                ],
                "failed to apply funding priority"@,
            ) {
                (Err(h), st) => (Err(h), st),
                (Ok(_), st) => apply_priorities_spec(
                    st,
                    sources,
                    i + 1,
                    card_id,
                    subject,
                    done.push(applied_source(sources, i as int)),
                ),
            },
        }
    }
}

/// Gives the funding sources of a card their ranks and caps.
pub fn apply_priorities(
    s: &mut Session,
    sources: &Vec<FundingOrderSource>,
    card_id: Uuid,
    subject: &String,
) -> (r: Result<Vec<FundingOrderAppliedSource>, Halt>)
    ensures
        (script::seen_view(r), final(s)@) == apply_priorities_spec(
            old(s)@,
            sources@,
            0,
            card_id,
            *subject,
            Seq::empty(),
        ),
{
    let mut done: Vec<FundingOrderAppliedSource> = Vec::new();
    let mut i: usize = 0;
    assert(done@ =~= Seq::empty());
    while i < sources.len()
        invariant
            i <= sources@.len(),
            apply_priorities_spec(old(s)@, sources@, 0, card_id, *subject, Seq::empty())
                == apply_priorities_spec(s@, sources@, i as nat, card_id, *subject, done@),
        decreases sources@.len() - i,
    {
        if i >= u16::MAX as usize {
            return Err(script::fail_query("funding priority overflow"));
        }
        let source = sources[i];
        let priority: u16 = (i + 1) as u16;
        let cap = stored_cap(source.max_amount_rials)?;
        script::execute(
            s,
            APPLY_PRIORITY_SQL,
            binds::binds5(
                Bind::Int(priority as i64),
                Bind::OptInt(cap),
                Bind::Text(subject.clone()),
                Bind::Id(card_id),
                Bind::Id(source.provider_id),
            ),
            "failed to apply funding priority",
        )?;
        done.push(
            FundingOrderAppliedSource {
                provider_id: source.provider_id,
                priority,
                max_amount_rials: source.max_amount_rials,
            },
        );
        i = i + 1;
    }
    Ok(done)
}

/// Where ranks are given to all the sources of a funding order, they are one, two and so on, in the
/// order asked for, and caps are as asked for.
pub proof fn ranks_follow_the_order(
    st: RunView,
    sources: Seq<FundingOrderSource>,
    i: nat,
    card_id: Uuid,
    subject: String,
    done: Seq<FundingOrderAppliedSource>,
)
    requires
        i <= sources.len(),
        i <= u16::MAX,
        done.len() == i,
        forall|k: int| 0 <= k < i ==> #[trigger] done[k] == applied_source(sources, k),
    ensures
        apply_priorities_spec(st, sources, i, card_id, subject, done).0 matches Ok(applied) ==> {
            &&& applied.len() == sources.len()
            &&& forall|k: int|
                0 <= k < applied.len() ==> #[trigger] applied[k] == applied_source(sources, k)
                    && applied[k].priority == k + 1
        },
    decreases sources.len() - i,
{
    if i < sources.len() && i + 1 <= u16::MAX && stored_cap_spec(
        sources[i as int].max_amount_rials,
    ) is Ok {
        let asked = script::execute_spec(
            st,
            APPLY_PRIORITY_SQL@,
            seq![
                Bind::Int((i + 1) as i64),
                Bind::OptInt(stored_cap_spec(sources[i as int].max_amount_rials)->Ok_0),
                Bind::Text(subject),
                Bind::Id(card_id),
                Bind::Id(sources[i as int].provider_id),
            ],
            "failed to apply funding priority"@,
        );
        if asked.0 is Ok {
            ranks_follow_the_order(
                asked.1,
                sources,
                i + 1,
                card_id,
                subject,
                done.push(applied_source(sources, i as int)),
            );
        }
    }
}

/// A card that is locked while its funding sources are put in order. `status` is a database value.
#[derive(Debug)]
pub struct LockedCard {
    pub card_id: Uuid,
    pub user_id: Uuid,
    pub status: String,
    pub state_version: i64,
    pub publishing: bool,
}

/// The card that a row holds.
#[verifier::opaque]
pub open spec fn map_locked_card_spec(row: Row) -> Result<LockedCard, HaltView> {
    match row.raw_at(0, READ_ROW@) { Err(h) => Err(h), Ok(card_id_raw) =>
    match script::id_of(card_id_raw@) { Err(h) => Err(h), Ok(card_id) =>
    match row.raw_at(1, READ_ROW@) { Err(h) => Err(h), Ok(user_id_raw) =>
    match script::id_of(user_id_raw@) { Err(h) => Err(h), Ok(user_id) =>
    match row.text_at(2, READ_ROW@) { Err(h) => Err(h), Ok(status) =>
    match row.int_at(3, READ_ROW@) { Err(h) => Err(h), Ok(state_version) =>
    match row.opt_raw_at(4, READ_ROW@) { Err(h) => Err(h), Ok(pending) =>
    Ok(LockedCard { card_id, user_id, status, state_version, publishing: pending is Some })
    }}}}}}}
}

/// The card that a row holds.
pub fn map_locked_card(row: &Row) -> (r: Result<LockedCard, Halt>)
    ensures
        script::seen(r) == map_locked_card_spec(*row),
{
    proof {
        reveal(map_locked_card_spec);
    }
    let card_id_raw = row.raw(0, READ_ROW)?;
    let card_id = script::to_id(card_id_raw)?;
    let user_id_raw = row.raw(1, READ_ROW)?;
    let user_id = script::to_id(user_id_raw)?;
    let status = row.text(2, READ_ROW)?;
    let state_version: i64 = row.number(3, READ_ROW)?;
    let pending = row.opt_raw(4, READ_ROW)?;
    Ok(LockedCard { card_id, user_id, status, state_version, publishing: pending.is_some() })
}

/// The objection to putting the funding sources of a card in order, where there is one.
pub open spec fn card_objection_spec(
    card: LockedCard,
    expected_owner: Option<Uuid>,
    expected_version: i64,
) -> Option<FundingOrderOutcomeView> {
    if card.status@ != "ACTIVE"@ {
        Some(FundingOrderOutcomeView::CardNotActive)
    } else if expected_owner is Some && expected_owner != Some(card.user_id) {
        Some(FundingOrderOutcomeView::CardOwnerMismatch)
    } else if card.state_version != expected_version {
        Some(FundingOrderOutcomeView::StateVersionConflict)
    } else if card.publishing {
        Some(FundingOrderOutcomeView::PublicationPending)
    } else {
        None
    }
}

/// The objection to putting the funding sources of a card in order, where there is one: the card is
/// not active, is another's, has another version, or is being published.
pub fn card_objection(
    card: &LockedCard,
    expected_owner: Option<Uuid>,
    expected_version: i64,
) -> (r: Option<FundingOrderPersistenceOutcome>)
    ensures
        match r {
            Some(outcome) => card_objection_spec(*card, expected_owner, expected_version) == Some(
                outcome@,
            ),
            None => card_objection_spec(*card, expected_owner, expected_version) is None,
        },
{
    if !text::same_text(card.status.as_str(), "ACTIVE") {
        return Some(FundingOrderPersistenceOutcome::CardNotActive);
    }
    if let Some(owner) = expected_owner {
        if owner != card.user_id {
            return Some(FundingOrderPersistenceOutcome::CardOwnerMismatch);
        }
    }
    if card.state_version != expected_version {
        Some(FundingOrderPersistenceOutcome::StateVersionConflict)
    } else if card.publishing {
        Some(FundingOrderPersistenceOutcome::PublicationPending)
    } else {
        None
    }
}

/// Puts the funding sources of a locked card in order: they get their ranks and caps, the card its
/// next version, and the runtime is told.
#[verifier::opaque]
pub open spec fn reorder_spec(
    st: RunView,
    context: MutationCommandContext,
    command: FundingOrderCommand,
    card_id: Uuid,
    state_version: i64,
    current: Seq<CurrentFundingSource>,
) -> (Result<FundingOrderOutcomeView, HaltView>, RunView) {
    match idempotency::insert_idempotency_record_spec(
        st,
        context.record,
    ) { (Err(h), st) => (Err(h), st), (Ok(_), st) =>
    match script::consult_text_with_spec(
        st,
        Rule::PreviousFundingOrder(state_version),
        AttachmentView::CurrentSources(current),
    ) { (Err(h), st) => (Err(h), st), (Ok(old_values), st) =>
    match stage_priorities_spec(
        st,
        command.sources@,
        0,
        card_id,
        context.actor.subject,
    ) { (Err(h), st) => (Err(h), st), (Ok(_), st) =>
    match apply_priorities_spec(
        st,
        command.sources@,
        0,
        card_id,
        context.actor.subject,
        Seq::empty(),
    ) { (Err(h), st) => (Err(h), st), (Ok(applied), st) =>
    { let next = provider_range::version_after(state_version);
    match script::execute_spec(
        st,
        ADVANCE_CARD_SQL@,
        seq![
            Bind::Int(next),
            Bind::Text(context.actor.subject),
            Bind::Id(card_id),
            Bind::Int(state_version),
        ],
        "failed to advance card state version"@,
    ) { (Err(h), st) => (Err(h), st), (Ok(_), st) =>
    match provider_user::insert_card_projection_outbox_spec(
        st,
        card_id,
        command.operation_id,
        Some(CardProfileRefreshReason::FundingOrderChanged),
        HeaderSource::Given(command.headers),
    ) { (Err(h), st) => (Err(h), st), (Ok(_), st) =>
    match script::consult_text_spec(
        st,
        Rule::MaskedCardNumber(command.card_number),
    ) { (Err(h), st) => (Err(h), st), (Ok(masked_card_number), st) =>
    { let summary = FundingOrderSummary {
        card_id,
        masked_card_number,
        state_version: next,
        operation_id: command.operation_id,
        command_status: "APPLIED",
        event_publication_status: "PENDING",
        profile_materialization_status: "PENDING",
    };
    match script::encode_with_spec(
        st,
        Rule::FundingOrderResponse(summary),
        AttachmentView::AppliedSources(applied),
        "failed to serialize funding order audit"@,
    ) { (Err(h), st) => (Err(h), st), (Ok(evidence), st) =>
    match audit::insert_audit_log_spec(
        st,
        "CARD_FUNDING_ORDER",
        card_id,
        AuditAction::Update,
        Bind::Text(command.reason),
        Some(Snapshot::Text(old_values)),
        Some(Snapshot::Text(evidence)),
        audit::trusted_origin_spec(context.audit),
    ) { (Err(h), st) => (Err(h), st), (Ok(_), st) =>
    match script::encode_with_spec(
        st,
        Rule::FundingOrderResponse(summary),
        AttachmentView::AppliedSources(applied),
        "failed to serialize funding order response"@,
    ) { (Err(h), st) => (Err(h), st), (Ok(response), st) =>
    match idempotency::complete_idempotency_record_spec(
        st,
        context.operation_type,
        context.idempotency_key,
        "card_funding_order",
        card_id,
        Snapshot::Text(response),
    ) { (Err(h), st) => (Err(h), st), (Ok(_), st) =>
    (Ok(FundingOrderOutcomeView::Applied((summary, applied))), st)
    }}}}}}}}}}}}}
}

/// Puts the funding sources of a locked card in order: they get their ranks and caps, the card its
/// next version, and the runtime is told.
pub fn reorder(
    s: &mut Session,
    context: &MutationCommandContext,
    command: &FundingOrderCommand,
    card_id: Uuid,
    state_version: i64,
    current: Vec<CurrentFundingSource>,
) -> (r: Result<FundingOrderPersistenceOutcome, Halt>)
    ensures
        (script::seen_view(r), final(s)@) == reorder_spec(
            old(s)@,
            *context,
            *command,
            card_id,
            state_version,
            current@,
        ),
{
    proof {
        reveal(reorder_spec);
    }
    idempotency::insert_idempotency_record(s, &context.record)?;
    let old_values = script::consult_text_with(
        s,
        Rule::PreviousFundingOrder(state_version),
        Attachment::CurrentSources(current),
    )?;
    stage_priorities(s, &command.sources, card_id, &context.actor.subject)?;
    let applied = apply_priorities(s, &command.sources, card_id, &context.actor.subject)?;
    let next: i64 = provider_range::next_version(state_version);
    script::execute(
        s,
        ADVANCE_CARD_SQL,
        binds::binds4(
            Bind::Int(next),
            Bind::Text(context.actor.subject.clone()),
            Bind::Id(card_id),
            Bind::Int(state_version),
        ),
        "failed to advance card state version",
    )?;
    provider_user::insert_card_projection_outbox(
        s,
        card_id,
        command.operation_id,
        Some(CardProfileRefreshReason::FundingOrderChanged),
        &HeaderSource::Given(command.headers.clone()),
    )?;
    let masked_card_number = script::consult_text(
        s,
        Rule::MaskedCardNumber(command.card_number.clone()),
    )?;
    let summary = FundingOrderSummary {
        card_id,
        masked_card_number,
        state_version: next,
        operation_id: command.operation_id,
        command_status: "APPLIED",
        event_publication_status: "PENDING",
        profile_materialization_status: "PENDING",
    };
    let evidence = script::encode_with(
        s,
        Rule::FundingOrderResponse(summary.clone()),
        Attachment::AppliedSources(copied_list(&applied)),
        "failed to serialize funding order audit",
    )?;
    audit::insert_audit_log(
        s,
        "CARD_FUNDING_ORDER",
        card_id,
        AuditAction::Update,
        Bind::Text(command.reason.clone()),
        Some(Snapshot::Text(old_values)),
        Some(Snapshot::Text(evidence)),
        audit::trusted_origin(&context.audit),
    )?;
    let response = script::encode_with(
        s,
        Rule::FundingOrderResponse(summary.clone()),
        Attachment::AppliedSources(copied_list(&applied)),
        "failed to serialize funding order response",
    )?;
    idempotency::complete_idempotency_record(
        s,
        &context.operation_type,
        &context.idempotency_key,
        "card_funding_order",
        card_id,
        Snapshot::Text(response),
    )?;
    Ok(FundingOrderPersistenceOutcome::Applied(FundingOrderResult { summary, sources: applied }))
}

/// Puts the funding sources of a card in order, where the sources asked for are those that it has.
/// Under one idempotency key this happens once.
pub open spec fn update_card_funding_order_atomic_spec(
    st: RunView,
    context: MutationCommandContext,
    command: FundingOrderCommand,
) -> (Result<FundingOrderOutcomeView, HaltView>, RunView) {
    match idempotency::fetch_idempotency_record_spec(
        st,
        context.operation_type,
        context.idempotency_key,
    ) { (Err(h), st) => (Err(h), st), (Ok(existing), st) =>
    if let Some(record) = existing {
        classify_idempotency_spec(st, record, context.request_hash)
    } else {
    match script::first_row_spec(
        st,
        LOCK_CARD_SQL@,
        seq![Bind::Text(command.card_number)],
        "rrtiR",
        "failed to lock card funding order"@,
        "failed to read locked card"@,
    ) { (Err(h), st) => (Err(h), st), (Ok(found), st) =>
    match found {
    None => {
        (Ok(FundingOrderOutcomeView::CardNotFound), st)
    },
    Some(row) =>
    match map_locked_card_spec(row) { Err(h) => (Err(h), st), Ok(card) =>
    if let Some(objection) = card_objection_spec(
        card,
        command.expected_owner,
        command.expected_state_version,
    ) {
        (Ok(objection), st)
    } else {
    match script::rows_spec(
        st,
        CURRENT_SOURCES_SQL@,
        seq![Bind::Id(card.card_id)],
        "riI",
        "failed to load active funding sources"@,
    ) { (Err(h), st) => (Err(h), st), (Ok(listed), st) =>
    match collect_sources_spec(
        listed.rows@,
        0,
        Seq::empty(),
    ) { Err(h) => (Err(h), st), Ok(current) =>
    if let Some(cause) = listed.failure {
        (script::failed("failed to read active funding source"@, cause@), st)
    } else {
    if !same_providers_spec(command.sources@, current) {
        (Ok(FundingOrderOutcomeView::SourceSetMismatch), st)
    } else {
    reorder_spec(st, context, command, card.card_id, card.state_version, current)
    }}}}}}}}}}
}

impl OracleRepository {
    /// Puts the funding sources of a card in order, where the sources asked for are those that it
    /// has. Under one idempotency key this happens once.
    pub fn update_card_funding_order_atomic(
        s: &mut Session,
        context: &MutationCommandContext,
        command: &FundingOrderCommand,
    ) -> (r: Result<FundingOrderPersistenceOutcome, Halt>)
        ensures
            (script::seen_view(r), final(s)@) == update_card_funding_order_atomic_spec(
                old(s)@,
                *context,
                *command,
            ),
    {
        let existing = idempotency::fetch_idempotency_record(
            s,
            &context.operation_type,
            &context.idempotency_key,
        )?;
        if let Some(record) = &existing {
            return classify_idempotency(s, record, &context.request_hash);
        }
        let found = script::first_row(
            s,
            LOCK_CARD_SQL,
            binds::binds1(Bind::Text(command.card_number.clone())),
            "rrtiR",
            "failed to lock card funding order",
            "failed to read locked card",
        )?;
        let row = match found {
            Some(v) => v,
            None => {
                return Ok(FundingOrderPersistenceOutcome::CardNotFound);
            },
        };
        let card = map_locked_card(row)?;
        if let Some(objection) = card_objection(
            &card,
            command.expected_owner,
            command.expected_state_version,
        ) {
            return Ok(objection);
        }
        let listed = script::rows(
            s,
            CURRENT_SOURCES_SQL,
            binds::binds1(Bind::Id(card.card_id)),
            "riI",
            "failed to load active funding sources",
        )?;
        let current = collect_sources(&listed.rows)?;
        if let Some(cause) = &listed.failure {
            return Err(script::fail_because(
                "failed to read active funding source",
                cause.as_str(),
            ));
        }
        if !same_providers(&command.sources, &current) {
            return Ok(FundingOrderPersistenceOutcome::SourceSetMismatch);
        }
        reorder(s, context, command, card.card_id, card.state_version, current)
    }
}

/// What is carried out of a funding order stores audit evidence and completes the command's record
/// last.
pub broadcast proof fn reorder_leaves_evidence(
    st: RunView,
    context: MutationCommandContext,
    command: FundingOrderCommand,
    card_id: Uuid,
    state_version: i64,
    current: Seq<CurrentFundingSource>,
)
    ensures
        (#[trigger] reorder_spec(st, context, command, card_id, state_version, current)).0
            matches Ok(outcome) ==> {
            let log = reorder_spec(st, context, command, card_id, state_version, current).1.log;
            &&& outcome is Applied
            &&& script::runs(log, audit::AUDIT_INSERT_SQL@) > 0
            &&& script::is_run_of(log.last(), idempotency::IDEMPOTENCY_COMPLETE_SQL@)
        },
{
    broadcast use script::runs_with_another;

    reveal(reorder_spec);
}

/// A funding order that is refused, and one that is answered from its record, changes nothing.
pub proof fn refused_order_changes_nothing(
    st: RunView,
    context: MutationCommandContext,
    command: FundingOrderCommand,
)
    ensures
        ({
            let (result, after) = update_card_funding_order_atomic_spec(st, context, command);
            result matches Ok(outcome) ==> outcome is Applied || script::writes(after.log)
                == script::writes(st.log)
        }),
{
    broadcast use {script::writes_with_another, reorder_leaves_evidence};

}

/// Where a funding order is carried out, the ranks of its sources are one, two and so on, in the
/// order asked for, and their caps are as asked for. The card gets the version after the one that
/// the order expected.
pub proof fn applied_order_is_the_one_asked_for(
    st: RunView,
    context: MutationCommandContext,
    command: FundingOrderCommand,
)
    ensures
        update_card_funding_order_atomic_spec(st, context, command).0 matches Ok(
            FundingOrderOutcomeView::Applied((summary, sources)),
        ) ==> {
            &&& sources.len() == command.sources@.len()
            &&& forall|k: int|
                0 <= k < sources.len() ==> (#[trigger] sources[k]).provider_id
                    == command.sources@[k].provider_id && sources[k].priority == k + 1
                    && sources[k].max_amount_rials == command.sources@[k].max_amount_rials
            &&& summary.state_version == provider_range::version_after(
                command.expected_state_version,
            )
            &&& summary.operation_id == command.operation_id
        },
{
    reveal(reorder_spec);
    assert forall|at: RunView, card_id: Uuid|
        (#[trigger] apply_priorities_spec(
            at,
            command.sources@,
            0,
            card_id,
            context.actor.subject,
            Seq::empty(),
        )).0 matches Ok(applied) ==> {
            &&& applied.len() == command.sources@.len()
            &&& forall|k: int|
                0 <= k < applied.len() ==> #[trigger] applied[k] == applied_source(
                    command.sources@,
                    k,
                ) && applied[k].priority == k + 1
        } by {
        ranks_follow_the_order(
            at,
            command.sources@,
            0,
            card_id,
            context.actor.subject,
            Seq::empty(),
        );
    }
}


/// Where a run that puts the funding sources of a card in order stands when it asks for the order
/// as it was, with the version and the sources that it asks about.
pub open spec fn asking_for_previous_order(
    st: RunView,
    context: MutationCommandContext,
    command: FundingOrderCommand,
) -> (RunView, i64, Seq<CurrentFundingSource>) {
    let looked_up = idempotency::fetch_idempotency_record_spec(
        st,
        context.operation_type,
        context.idempotency_key,
    ).1;
    let (found, locked) = script::first_row_spec(
        looked_up,
        LOCK_CARD_SQL@,
        seq![Bind::Text(command.card_number)],
        "rrtiR",
        "failed to lock card funding order"@,
        "failed to read locked card"@,
    );
    let card = map_locked_card_spec(found->Ok_0->Some_0)->Ok_0;
    let (listed, read) = script::rows_spec(
        locked,
        CURRENT_SOURCES_SQL@,
        seq![Bind::Id(card.card_id)],
        "riI",
        "failed to load active funding sources"@,
    );
    (
        idempotency::insert_idempotency_record_spec(read, context.record).1,
        card.state_version,
        collect_sources_spec(listed->Ok_0.rows@, 0, Seq::empty())->Ok_0,
    )
}

/// Where a funding order is applied and the question for the order as it was is answered with what
/// is owed to it, that order goes into the audit evidence as this library writes it.
#[verifier::rlimit(60)]
pub proof fn previous_order_is_kept_as_evidence(
    st: RunView,
    context: MutationCommandContext,
    command: FundingOrderCommand,
)
    requires
        idempotency::fetch_idempotency_record_spec(
            st,
            context.operation_type,
            context.idempotency_key,
        ).0 == Ok::<Option<IdempotencyRecord>, HaltView>(None),
        update_card_funding_order_atomic_spec(st, context, command).0 matches Ok(outcome) && outcome
            is Applied,
        ({
            let (at, version, sources) = asking_for_previous_order(st, context, command);
            answers::is_answered(
                Rule::PreviousFundingOrder(version),
                AttachmentView::CurrentSources(sources),
                at.rest[0],
            )
        }),
    ensures
        ({
            let (_, version, sources) = asking_for_previous_order(st, context, command);
            let log = update_card_funding_order_atomic_spec(st, context, command).1.log;
            exists|kept: String|
                kept@ == json::json_object_text(previous_order_members(version, sources))
                    && #[trigger] script::asks(
                    log,
                    Rule::Redacted(Snapshot::Text(kept)),
                ) > 0
        }),
{
    broadcast use script::asks_with_another;

    reveal(reorder_spec);
    let (at, version, sources) = asking_for_previous_order(st, context, command);
    let asked = script::consult_text_with_spec(
        at,
        Rule::PreviousFundingOrder(version),
        AttachmentView::CurrentSources(sources),
    );
    answers::owed_text_is_taken(
        at,
        Rule::PreviousFundingOrder(version),
        AttachmentView::CurrentSources(sources),
    );
    assert(script::asks(
        update_card_funding_order_atomic_spec(st, context, command).1.log,
        Rule::Redacted(Snapshot::Text(asked.0->Ok_0)),
    ) > 0);
}

/// What is carried out of a funding order stores the event that tells the runtime of the card.
#[verifier::rlimit(60)]
pub broadcast proof fn reorder_publishes(
    st: RunView,
    context: MutationCommandContext,
    command: FundingOrderCommand,
    card_id: Uuid,
    state_version: i64,
    current: Seq<CurrentFundingSource>,
)
    ensures
        (
            #[trigger] reorder_spec(st, context, command, card_id, state_version, current)
        ).0 matches Ok(outcome) ==> {
            let log = reorder_spec(st, context, command, card_id, state_version, current).1.log;
            (
                outcome matches FundingOrderOutcomeView::Applied(
                    (summary, _),
                ) ==> summary.operation_id == command.operation_id
                    && script::stored_under(
                        log,
                        provider_user::CARD_OUTBOX_SQL@,
                        command.operation_id,
                    ) > 0
            )
        },
{
    broadcast use {script::runs_with_another, script::stored_under_with_another};

    reveal(reorder_spec);
}

/// Where a funding order is applied, the event that tells the runtime of the card is stored under
/// the operation of the order.
#[verifier::rlimit(40)]
pub proof fn applied_order_is_published(
    st: RunView,
    context: MutationCommandContext,
    command: FundingOrderCommand,
)
    ensures
        ({
            let (result, after) = update_card_funding_order_atomic_spec(st, context, command);
            let log = after.log;
            result matches Ok(outcome) ==> (
                outcome matches FundingOrderOutcomeView::Applied(
                    (summary, _),
                ) ==> summary.operation_id == command.operation_id
                    && script::stored_under(
                        log,
                        provider_user::CARD_OUTBOX_SQL@,
                        command.operation_id,
                    ) > 0
            )
        }),
{
    broadcast use reorder_publishes;

}

/// The values that the rank and the cap of a source are told with: the rank counts from one in the
/// order asked for, and the cap is that of the source.
pub open spec fn rank_binds(
    sources: Seq<FundingOrderSource>,
    k: int,
    card_id: Uuid,
    subject: String,
) -> Seq<Bind> {
    seq![
        Bind::Int((k + 1) as i64),
        Bind::OptInt(
            match sources[k].max_amount_rials {
                Some(cap) => Some(cap as i64),
                None => None,
            },
        ),
        Bind::Text(subject),
        Bind::Id(card_id),
        Bind::Id(sources[k].provider_id),
    ]
}

/// The values with which a source is moved out of the way: a rank of its own behind those that are
/// in use.
pub open spec fn waiting_binds(
    sources: Seq<FundingOrderSource>,
    k: int,
    card_id: Uuid,
    subject: String,
) -> Seq<Bind> {
    seq![
        Bind::Int((60_000 + k) as i64),
        Bind::Text(subject),
        Bind::Id(card_id),
        Bind::Id(sources[k].provider_id),
    ]
}

/// The ranks of a card's sources are told in the order asked for, one call for each, and no other
/// call is made.
pub proof fn ranks_are_told_in_order(
    st: RunView,
    sources: Seq<FundingOrderSource>,
    i: nat,
    card_id: Uuid,
    subject: String,
    done: Seq<FundingOrderAppliedSource>,
)
    requires
        i <= sources.len(),
        i <= u16::MAX,
    ensures
        ({
            let (result, after) = apply_priorities_spec(st, sources, i, card_id, subject, done);
            result is Ok ==> after.log == st.log + Seq::new(
                (sources.len() - i) as nat,
                |j: int|
                    script::change(
                        APPLY_PRIORITY_SQL@,
                        rank_binds(sources, i + j, card_id, subject),
                    ),
            ) && sources.len() <= u16::MAX && forall|k: int|
                i <= k < sources.len() ==> ((
                    #[trigger] sources[k]
                ).max_amount_rials matches Some(cap)
                    ==> cap <= i64::MAX)
        }),
    decreases sources.len() - i,
{
    let (result, after) = apply_priorities_spec(st, sources, i, card_id, subject, done);
    if i >= sources.len() {
        assert(st.log =~= st.log + Seq::new(
            0,
            |j: int|
                script::change(APPLY_PRIORITY_SQL@, rank_binds(sources, i + j, card_id, subject)),
        ));
    } else if result is Ok {
        assert(stored_cap_spec(sources[i as int].max_amount_rials) == Ok::<Option<i64>, HaltView>(
            match sources[i as int].max_amount_rials {
                Some(cap) => Some(cap as i64),
                None => None,
            },
        ));
        assert(rank_binds(sources, i as int, card_id, subject) =~= seq![
            Bind::Int((i + 1) as i64),
            Bind::OptInt(stored_cap_spec(sources[i as int].max_amount_rials)->Ok_0),
            Bind::Text(subject),
            Bind::Id(card_id),
            Bind::Id(sources[i as int].provider_id),
        ]);
        let told = script::execute_spec(
            st,
            APPLY_PRIORITY_SQL@,
            rank_binds(sources, i as int, card_id, subject),
            "failed to apply funding priority"@,
        ).1;
        ranks_are_told_in_order(
            told,
            sources,
            i + 1,
            card_id,
            subject,
            done.push(applied_source(sources, i as int)),
        );
        assert(told.log == st.log.push(
            script::change(APPLY_PRIORITY_SQL@, rank_binds(sources, i as int, card_id, subject)),
        ));
        assert(after.log =~= st.log + Seq::new(
            (sources.len() - i) as nat,
            |j: int|
                script::change(APPLY_PRIORITY_SQL@, rank_binds(sources, i + j, card_id, subject)),
        ));
    }
}

/// Before the ranks are told, each source is moved out of the way, in the order asked for, and no
/// other call is made.
pub proof fn sources_are_moved_out_of_the_way(
    st: RunView,
    sources: Seq<FundingOrderSource>,
    i: nat,
    card_id: Uuid,
    subject: String,
)
    requires
        i <= sources.len(),
    ensures
        ({
            let (result, after) = stage_priorities_spec(st, sources, i, card_id, subject);
            result is Ok ==> after.log == st.log + Seq::new(
                (sources.len() - i) as nat,
                |j: int|
                    script::change(
                        STAGE_PRIORITY_SQL@,
                        waiting_binds(sources, i + j, card_id, subject),
                    ),
            )
        }),
    decreases sources.len() - i,
{
    let (result, after) = stage_priorities_spec(st, sources, i, card_id, subject);
    if i >= sources.len() {
        assert(st.log =~= st.log + Seq::new(
            0,
            |j: int|
                script::change(
                    STAGE_PRIORITY_SQL@,
                    waiting_binds(sources, i + j, card_id, subject),
                ),
        ));
    } else if result is Ok {
        let told = script::execute_spec(
            st,
            STAGE_PRIORITY_SQL@,
            waiting_binds(sources, i as int, card_id, subject),
            "failed to stage funding priority"@,
        ).1;
        sources_are_moved_out_of_the_way(told, sources, i + 1, card_id, subject);
        assert(told.log == st.log.push(
            script::change(STAGE_PRIORITY_SQL@, waiting_binds(sources, i as int, card_id, subject)),
        ));
        assert(after.log =~= st.log + Seq::new(
            (sources.len() - i) as nat,
            |j: int|
                script::change(
                    STAGE_PRIORITY_SQL@,
                    waiting_binds(sources, i + j, card_id, subject),
                ),
        ));
    }
}

/// What follows in a log takes nothing away from what was told before.
pub open spec fn continues(log: Seq<script::CallView>, before: Seq<script::CallView>) -> bool {
    before.len() <= log.len() && forall|n: int|
        0 <= n < before.len() ==> #[trigger] log[n] == before[n]
}

/// Where a run that carries a funding order out stands when the sources are moved out of the way.
pub open spec fn about_to_rank(
    st: RunView,
    context: MutationCommandContext,
    command: FundingOrderCommand,
    state_version: i64,
    current: Seq<CurrentFundingSource>,
) -> RunView {
    script::consult_text_with_spec(
        idempotency::insert_idempotency_record_spec(st, context.record).1,
        Rule::PreviousFundingOrder(state_version),
        AttachmentView::CurrentSources(current),
    ).1
}

/// Where a funding order is carried out, the k-th rank that the database is told is k, with the cap
/// and the provider that stand k-th in the order asked for, on the card that is answered. Before
/// that each source was moved out of the way. The card gets its next version, where it still has
/// the one it had.
#[verifier::rlimit(100)]
pub proof fn stored_order_is_the_one_answered(
    st: RunView,
    context: MutationCommandContext,
    command: FundingOrderCommand,
    card_id: Uuid,
    state_version: i64,
    current: Seq<CurrentFundingSource>,
)
    requires
        reorder_spec(st, context, command, card_id, state_version, current).0 is Ok,
    ensures
        ({
            let log = reorder_spec(st, context, command, card_id, state_version, current).1.log;
            let n = command.sources@.len() as int;
            let from = about_to_rank(st, context, command, state_version, current).log.len() as int;
            &&& log.len() >= from + 2 * n + 1
            &&& log.subrange(from, from + n) == Seq::new(
                n as nat,
                |k: int|
                    script::change(
                        STAGE_PRIORITY_SQL@,
                        waiting_binds(command.sources@, k, card_id, context.actor.subject),
                    ),
            )
            &&& log.subrange(from + n, from + 2 * n) == Seq::new(
                n as nat,
                |k: int|
                    script::change(
                        APPLY_PRIORITY_SQL@,
                        rank_binds(command.sources@, k, card_id, context.actor.subject),
                    ),
            )
            &&& log[from + 2 * n] == script::change(
                ADVANCE_CARD_SQL@,
                seq![
                    Bind::Int(provider_range::version_after(state_version)),
                    Bind::Text(context.actor.subject),
                    Bind::Id(card_id),
                    Bind::Int(state_version),
                ],
            )
            &&& reorder_spec(
                st,
                context,
                command,
                card_id,
                state_version,
                current,
            ).0 matches Ok(FundingOrderOutcomeView::Applied((summary, sources)))
                && summary.card_id == card_id && sources.len() == n && forall|k: int|
                0 <= k < n ==> (#[trigger] sources[k]).provider_id
                    == command.sources@[k].provider_id && sources[k].max_amount_rials
                    == command.sources@[k].max_amount_rials && sources[k].priority == k + 1
        }),
{
    reveal(reorder_spec);
    let at = about_to_rank(st, context, command, state_version, current);
    let subject = context.actor.subject;
    let moved = stage_priorities_spec(at, command.sources@, 0, card_id, subject).1;
    sources_are_moved_out_of_the_way(at, command.sources@, 0, card_id, subject);
    let ranked = apply_priorities_spec(
        moved,
        command.sources@,
        0,
        card_id,
        subject,
        Seq::empty(),
    ).1;
    ranks_are_told_in_order(moved, command.sources@, 0, card_id, subject, Seq::empty());
    ranks_follow_the_order(moved, command.sources@, 0, card_id, subject, Seq::empty());
    let advanced = script::execute_spec(
        ranked,
        ADVANCE_CARD_SQL@,
        seq![
            Bind::Int(provider_range::version_after(state_version)),
            Bind::Text(context.actor.subject),
            Bind::Id(card_id),
            Bind::Int(state_version),
        ],
        "failed to advance card state version"@,
    ).1;
    assert(continues(
        reorder_spec(st, context, command, card_id, state_version, current).1.log,
        advanced.log,
    ));
    let log = reorder_spec(st, context, command, card_id, state_version, current).1.log;
    let n = command.sources@.len() as int;
    let from = at.log.len() as int;
    assert forall|k: int| 0 <= k < n implies #[trigger] log.subrange(from, from + n)[k]
        == script::change(
        STAGE_PRIORITY_SQL@,
        waiting_binds(command.sources@, k, card_id, subject),
    ) by {
        assert(advanced.log[from + k] == moved.log[from + k]);
        assert(log[from + k] == advanced.log[from + k]);
    }
    assert forall|k: int| 0 <= k < n implies #[trigger] log.subrange(from + n, from + 2 * n)[k]
        == script::change(
            APPLY_PRIORITY_SQL@,
            rank_binds(command.sources@, k, card_id, subject),
        ) by {
        assert(advanced.log[from + n + k] == ranked.log[from + n + k]);
        assert(log[from + n + k] == advanced.log[from + n + k]);
    }
    assert(log.subrange(from, from + n) =~= Seq::new(
        n as nat,
        |k: int|
            script::change(
                STAGE_PRIORITY_SQL@,
                waiting_binds(command.sources@, k, card_id, context.actor.subject),
            ),
    ));
    assert(log.subrange(from + n, from + 2 * n) =~= Seq::new(
        n as nat,
        |k: int|
            script::change(
                APPLY_PRIORITY_SQL@,
                rank_binds(command.sources@, k, card_id, context.actor.subject),
            ),
    ));
    assert(advanced.log[from + 2 * n] == advanced.log.last());
}

/// A card that is found is put in order only where it is active, the expected owner's where one is
/// expected, of the expected version, not being published, and where the providers asked for are
/// those that fund it, each once. Each refusal has its one reason, in this order. The card that is
/// put in order is the one of the row.
#[verifier::rlimit(60)]
pub proof fn order_is_refused_for_one_reason(
    st: RunView,
    context: MutationCommandContext,
    command: FundingOrderCommand,
    row: Row,
)
    requires
        ({
            let (looked, at) = idempotency::fetch_idempotency_record_spec(
                st,
                context.operation_type,
                context.idempotency_key,
            );
            &&& looked == Ok::<Option<IdempotencyRecord>, HaltView>(None)
            &&& script::first_row_spec(
                at,
                LOCK_CARD_SQL@,
                seq![Bind::Text(command.card_number)],
                "rrtiR",
                "failed to lock card funding order"@,
                "failed to read locked card"@,
            ).0 == Ok::<Option<Row>, HaltView>(Some(row))
        }),
        row.id_at(0, READ_ROW@) is Ok,
        row.id_at(1, READ_ROW@) is Ok,
        row.text_at(2, READ_ROW@) is Ok,
        row.int_at(3, READ_ROW@) is Ok,
        row.opt_raw_at(4, READ_ROW@) is Ok,
    ensures
        ({
            let result = update_card_funding_order_atomic_spec(st, context, command).0;
            let active = row.text_at(2, READ_ROW@)->Ok_0@ == "ACTIVE"@;
            let owned = command.expected_owner matches Some(owner) ==> row.id_at(1, READ_ROW@)->Ok_0
                == owner;
            let current = row.int_at(3, READ_ROW@)->Ok_0 == command.expected_state_version;
            let free = row.opt_raw_at(4, READ_ROW@)->Ok_0 is None;
            &&& !active <==> result == Ok::<_, HaltView>(FundingOrderOutcomeView::CardNotActive)
            &&& active && !owned <==> result == Ok::<_, HaltView>(
                FundingOrderOutcomeView::CardOwnerMismatch,
            )
            &&& active && owned && !current <==> result == Ok::<_, HaltView>(
                FundingOrderOutcomeView::StateVersionConflict,
            )
            &&& active && owned && current && !free <==> result == Ok::<_, HaltView>(
                FundingOrderOutcomeView::PublicationPending,
            )
            &&& result matches Ok(outcome) ==> match outcome {
                FundingOrderOutcomeView::Applied((summary, _)) => active && owned && current && free
                    && summary.card_id == row.id_at(0, READ_ROW@)->Ok_0,
                FundingOrderOutcomeView::SourceSetMismatch => active && owned && current && free,
                FundingOrderOutcomeView::CardNotActive
                | FundingOrderOutcomeView::CardOwnerMismatch
                | FundingOrderOutcomeView::StateVersionConflict
                | FundingOrderOutcomeView::PublicationPending => true,
                _ => false,
            }
        }),
{
    broadcast use reorder_leaves_evidence;

    reveal(map_locked_card_spec);
    reveal(reorder_spec);
}

/// A card that is not there is not put in order.
pub proof fn missing_card_is_not_put_in_order(
    st: RunView,
    context: MutationCommandContext,
    command: FundingOrderCommand,
)
    requires
        ({
            let (looked, at) = idempotency::fetch_idempotency_record_spec(
                st,
                context.operation_type,
                context.idempotency_key,
            );
            &&& looked == Ok::<Option<IdempotencyRecord>, HaltView>(None)
            &&& script::first_row_spec(
                at,
                LOCK_CARD_SQL@,
                seq![Bind::Text(command.card_number)],
                "rrtiR",
                "failed to lock card funding order"@,
                "failed to read locked card"@,
            ).0 == Ok::<Option<Row>, HaltView>(None)
        }),
    ensures
        update_card_funding_order_atomic_spec(st, context, command).0 == Ok::<_, HaltView>(
            FundingOrderOutcomeView::CardNotFound,
        ),
{
}

/// The providers asked for are those that fund a card exactly where no provider is asked for twice,
/// each that is asked for funds the card, and each that funds it is asked for.
pub proof fn same_providers_fund_and_are_asked_for(
    sources: Seq<FundingOrderSource>,
    current: Seq<CurrentFundingSource>,
)
    ensures
        same_providers_spec(sources, current) <==> {
            &&& forall|a: int, b: int|
                0 <= a < b < sources.len() ==> (#[trigger] sources[a]).provider_id != (
                #[trigger] sources[b]).provider_id
            &&& forall|a: int|
                0 <= a < sources.len() ==> exists|b: int|
                    0 <= b < current.len() && (#[trigger] current[b]).provider_id == (
                    #[trigger] sources[a]).provider_id
            &&& forall|b: int|
                0 <= b < current.len() ==> exists|a: int|
                    0 <= a < sources.len() && (#[trigger] sources[a]).provider_id == (
                    #[trigger] current[b]).provider_id
        },
{
    if same_providers_spec(sources, current) {
        assert forall|a: int| 0 <= a < sources.len() implies exists|b: int|
            0 <= b < current.len() && (#[trigger] current[b]).provider_id == (
            #[trigger] sources[a]).provider_id by {
            assert(is_current(current, sources[a].provider_id));
        }
        assert forall|b: int| 0 <= b < current.len() implies exists|a: int|
            0 <= a < sources.len() && (#[trigger] sources[a]).provider_id == (
            #[trigger] current[b]).provider_id by {
            assert(is_requested(sources, current[b].provider_id));
        }
    }
}

/// A funding source is read from its row: the provider, the rank and the cap each from their
/// column.
pub proof fn source_is_read_from_its_columns(row: Row)
    ensures
        map_current_source_spec(row) matches Ok(source) ==> {
            &&& row.id_at(0, READ_ROW@) == Ok::<Uuid, HaltView>(source.provider_id)
            &&& row.int_at(1, READ_ROW@) == Ok::<i64, HaltView>(source.priority)
            &&& row.opt_int_at(2, READ_ROW@) == Ok::<Option<i64>, HaltView>(source.max_amount_rials)
        },
{
}

/// The objection to a new order is the first that applies: the card is not active, is another's,
/// has another version, or is being published.
pub proof fn objection_is_the_first_that_applies(
    card: LockedCard,
    expected_owner: Option<Uuid>,
    expected_version: i64,
)
    ensures
        ({
            let objection = card_objection_spec(card, expected_owner, expected_version);
            let active = card.status@ == "ACTIVE"@;
            let owned = expected_owner matches Some(owner) ==> owner == card.user_id;
            let current = card.state_version == expected_version;
            &&& objection is None <==> active && owned && current && !card.publishing
            &&& (objection matches Some(o) && o is CardNotActive) <==> !active
            &&& (objection matches Some(o) && o is CardOwnerMismatch) <==> active && !owned
            &&& (objection matches Some(o) && o is StateVersionConflict) <==> active && owned
                && !current
            &&& (objection matches Some(o) && o is PublicationPending) <==> active && owned
                && current
                && card.publishing
        }),
{
}

/// Each value is read from its own column: the card that a row holds.
#[verifier::rlimit(60)]
pub proof fn map_locked_card_is_read_by_column(
    row: Row,
)
    ensures
        map_locked_card_spec(row) matches Ok(read) ==> {
            &&& read.card_id == row.id_at(0, READ_ROW@)->Ok_0
            &&& read.user_id == row.id_at(1, READ_ROW@)->Ok_0
            &&& read.status == row.text_at(2, READ_ROW@)->Ok_0
            &&& read.state_version == row.int_at(3, READ_ROW@)->Ok_0
            &&& read.publishing == row.opt_raw_at(4, READ_ROW@)->Ok_0 is Some
        },
{
    reveal(map_locked_card_spec);
}

/// What the database is told, and with which values, where a run succeeds that does this:
/// puts the funding sources of a locked card in order: they get their ranks and caps, the card its
/// next version, and the runtime is told.
#[verifier::rlimit(60)]
pub proof fn reorder_is_told(
    st: RunView,
    context: MutationCommandContext,
    command: FundingOrderCommand,
    card_id: Uuid,
    state_version: i64,
    current: Seq<CurrentFundingSource>,
)
    ensures
        ({
            let (ended, after) = reorder_spec(
                st,
                context,
                command,
                card_id,
                state_version,
                current,
            );
            let log = after.log;
            ended is Ok ==> {
                &&& script::ran(
                    log,
                    ADVANCE_CARD_SQL@,
                    seq![
                        Bind::Int((provider_range::version_after(state_version))),
                        Bind::Text(context.actor.subject),
                        Bind::Id(card_id),
                        Bind::Int(state_version),
                    ],
                )
            }
        }),
{
    broadcast use {script::runs_on_with_another, script::told_where_with_another};

    reveal(reorder_spec);
}

} // verus!
