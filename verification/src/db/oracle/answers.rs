//! Questions that are answered within this library.
//!
//! A script asks for some texts although this library writes them: its bind values are plain, and
//! these texts are made of lists. What is answered to such a question is settled here.
use vstd::prelude::*;
use crate::db::oracle::card_funding;
use crate::db::oracle::card_issuance_result;
use crate::db::oracle::card_range_command;
use crate::db::oracle::consult::{Answer, Attachment, AttachmentView, Rule};
use crate::db::oracle::document::EventKeys;
use crate::db::oracle::provider_event_subscription;
use crate::db::oracle::provider_range;
use crate::db::oracle::script;
use crate::db::oracle::script::{Reply, RunView};
use crate::json;

verus! {

/// The text that is owed to a question, where this library writes it.
pub open spec fn owed_text(rule: Rule, attachment: AttachmentView) -> Option<Seq<char>> {
    match (rule, attachment) {
        (Rule::SubscriptionSnapshot(header), AttachmentView::Subscriptions(list)) => Some(
            json::json_object_text(provider_event_subscription::snapshot_members(header, list)),
        ),
        (Rule::PreviousFundingOrder(version), AttachmentView::CurrentSources(list)) => Some(
            json::json_object_text(card_funding::previous_order_members(version, list)),
        ),
        (Rule::IssuanceWal(facts), AttachmentView::AccountIntents(list)) => Some(
            json::json_object_text(card_issuance_result::issuance_wal_members(facts, list)),
        ),
        _ => None,
    }
}

/// A reply is what is owed to a question, where this library writes it.
pub open spec fn is_answered(rule: Rule, attachment: AttachmentView, reply: Reply) -> bool {
    match owed_text(rule, attachment) {
        Some(owed) => reply matches Reply::Answer(Answer::Text(Ok(said))) && said@ == owed,
        None => true,
    }
}

/// The answer to a question, where this library gives it.
pub fn answer(rule: &Rule, attachment: &Attachment) -> (r: Option<Answer>)
    ensures
        match r {
            Some(given) => owed_text(*rule, attachment@) is Some && is_answered(
                *rule,
                attachment@,
                Reply::Answer(given),
            ),
            None => owed_text(*rule, attachment@) is None,
        },
{
    match (rule, attachment) {
        (Rule::SubscriptionSnapshot(header), Attachment::Subscriptions(list)) => Some(
            Answer::Text(Ok(provider_event_subscription::subscription_snapshot(header, list))),
        ),
        (Rule::PreviousFundingOrder(version), Attachment::CurrentSources(list)) => Some(
            Answer::Text(Ok(card_funding::previous_order_text(*version, list))),
        ),
        (Rule::IssuanceWal(facts), Attachment::AccountIntents(list)) => Some(
            Answer::Text(Ok(card_issuance_result::issuance_wal_text(facts, list))),
        ),
        _ => None,
    }
}

/// The keys and the payload of the internal event that a question asks for, where this library
/// writes the payload.
pub open spec fn owed_event(rule: Rule, attachment: AttachmentView) -> Option<
    (EventKeys, Seq<char>),
> {
    match (rule, attachment) {
        (Rule::EventEnvelope(keys, payload), _) => Some(
            (keys, json::json_object_text(payload.members())),
        ),
        (Rule::RangeControlEvent(keys, controls), AttachmentView::Providers(list)) => Some(
            (keys, json::json_object_text(controls.members(list))),
        ),
        (
            Rule::RangeControlProjectionEvent(keys, projection),
            AttachmentView::Providers(list),
        ) => Some((keys, json::json_object_text(projection.members(list)))),
        _ => None,
    }
}

/// The keys and the payload of the internal event that a question asks for, where this library
/// writes the payload.
pub fn event(rule: &Rule, attachment: &Attachment) -> (r: Option<(EventKeys, String)>)
    ensures
        match r {
            Some((keys, payload)) => owed_event(*rule, attachment@) == Some((keys, payload@)),
            None => owed_event(*rule, attachment@) is None,
        },
{
    match (rule, attachment) {
        (Rule::EventEnvelope(keys, payload), _) => Some((*keys, payload.text())),
        (Rule::RangeControlEvent(keys, controls), Attachment::Providers(list)) => Some(
            (*keys, card_range_command::controls_text(controls, list)),
        ),
        (Rule::RangeControlProjectionEvent(keys, projection), Attachment::Providers(list)) => Some(
            (*keys, provider_range::projection_text(projection, list)),
        ),
        _ => None,
    }
}

/// A script that is told what is owed to its question goes on with the text that this library
/// writes.
pub proof fn owed_text_is_taken(st: RunView, rule: Rule, attachment: AttachmentView)
    requires
        st.rest.len() > 0,
        owed_text(rule, attachment) is Some,
        is_answered(rule, attachment, st.rest[0]),
    ensures
        script::consult_text_with_spec(st, rule, attachment).0 matches Ok(taken) && Some(taken@)
            == owed_text(rule, attachment),
{
}

} // verus!
