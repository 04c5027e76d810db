//! Bind values as the driver takes them.
use vstd::prelude::*;
use crate::db::oracle::script::{Bind, Cell};
use crate::db::oracle::types::uuid_to_raw16;
use crate::digest;
use crate::json;
use crate::text;
use crate::time;
use crate::time::UtcTime;
use crate::uuid;
use crate::uuid::Uuid;

verus! {

/// A bind value as the driver takes it.
#[derive(Debug)]
pub enum BindValue {
    Raw(Option<Vec<u8>>),
    Text(Option<String>),
    Int(Option<i64>),
    Unsigned(u64),
}

/// A bind value as the driver takes it, as plain values.
pub enum BindValueView {
    Raw(Option<Seq<u8>>),
    Text(Option<Seq<char>>),
    Int(Option<i64>),
    Unsigned(u64),
}

impl View for BindValue {
    type V = BindValueView;

    open spec fn view(&self) -> BindValueView {
        match self {
            BindValue::Raw(Some(bytes)) => BindValueView::Raw(Some(bytes@)),
            BindValue::Raw(None) => BindValueView::Raw(None),
            BindValue::Text(Some(t)) => BindValueView::Text(Some(t@)),
            BindValue::Text(None) => BindValueView::Text(None),
            BindValue::Int(n) => BindValueView::Int(*n),
            BindValue::Unsigned(n) => BindValueView::Unsigned(*n),
        }
    }
}

/// A cell gives back a value as it was bound.
pub open spec fn gives_back(cell: Cell, bind: Bind) -> bool {
    match (cell, bind.driver_value()) {
        (Cell::Raw(bytes), BindValueView::Raw(Some(bound))) => bytes@ == bound,
        (Cell::Text(t), BindValueView::Text(Some(bound))) => t@ == bound,
        (Cell::Int(n), BindValueView::Int(Some(bound))) => n == bound,
        (Cell::Null, BindValueView::Raw(None)) => true,
        (Cell::Null, BindValueView::Text(None)) => true,
        (Cell::Null, BindValueView::Int(None)) => true,
        _ => false,
    }
}

/// An instant with milliseconds and `Z`.
pub open spec fn zulu_text(at: UtcTime) -> Seq<char> {
    time::pattern_text(at.spec_secs(), at.spec_nanos(), time::MILLIS_ZULU@)
}

fn raw(id: Uuid) -> (r: BindValue)
    ensures
        r@ == BindValueView::Raw(Some(uuid::raw_bytes(id))),
{
    let bytes = uuid_to_raw16(id);
    let mut held: Vec<u8> = Vec::new();
    let mut i: usize = 0;
    while i < 16
        invariant
            i <= 16,
            bytes@.len() == 16,
            held@ =~= bytes@.take(i as int),
        decreases 16 - i,
    {
        held.push(bytes[i]);
        i = i + 1;
    }
    assert(held@ =~= bytes@);
    BindValue::Raw(Some(held))
}

fn written(t: String) -> (r: BindValue)
    ensures
        r@ == BindValueView::Text(Some(t@)),
{
    BindValue::Text(Some(t))
}

impl Bind {
    /// What the driver is given for the value.
    pub open spec fn driver_value(self) -> BindValueView {
        match self {
            Bind::Id(id) => BindValueView::Raw(Some(uuid::raw_bytes(id))),
            Bind::OptId(Some(id)) => BindValueView::Raw(Some(uuid::raw_bytes(id))),
            Bind::OptId(None) => BindValueView::Raw(None),
            Bind::IdText(id) => BindValueView::Text(Some(uuid::hyphenated_text(id))),
            Bind::Text(t) => BindValueView::Text(Some(t@)),
            Bind::OptText(Some(t)) => BindValueView::Text(Some(t@)),
            Bind::OptText(None) => BindValueView::Text(None),
            Bind::Trimmed(t) => BindValueView::Text(Some(text::trimmed(t@))),
            Bind::Label(t) => BindValueView::Text(Some(t@)),
            Bind::OptLabel(Some(t)) => BindValueView::Text(Some(t@)),
            Bind::OptLabel(None) => BindValueView::Text(None),
            Bind::Int(n) => BindValueView::Int(Some(n)),
            Bind::OptInt(n) => BindValueView::Int(n),
            Bind::Unsigned(n) => BindValueView::Unsigned(n),
            Bind::Flag(b) => BindValueView::Int(
                Some(
                    if b {
                        1i64
                    } else {
                        0i64
                    },
                ),
            ),
            Bind::Time(at) => BindValueView::Text(Some(zulu_text(at))),
            Bind::OptTime(Some(at)) => BindValueView::Text(Some(zulu_text(at))),
            Bind::OptTime(None) => BindValueView::Text(None),
            Bind::OffsetTime(at) => BindValueView::Text(
                Some(time::pattern_text(at.spec_secs(), at.spec_nanos(), time::MILLIS_OFFSET@)),
            ),
            Bind::Rfc3339Time(at) => BindValueView::Text(
                Some(time::rfc3339_writing(at.spec_secs(), at.spec_nanos())),
            ),
            Bind::Digest(t) => BindValueView::Text(
                Some(digest::sha256_hex_of(vstd::utf8::encode_utf8(t@))),
            ),
            Bind::Json(document) => BindValueView::Text(
                Some(json::json_object_text(document.members())),
            ),
            Bind::JsonText(t) => BindValueView::Text(Some(json::json_rewriting(t@))),
            Bind::OptJsonText(Some(t)) => BindValueView::Text(Some(json::json_rewriting(t@))),
            Bind::OptJsonText(None) => BindValueView::Text(None),
            Bind::Named(prefix, id, suffix) => BindValueView::Text(
                Some(prefix@ + uuid::simple_text(id) + suffix@),
            ),
            Bind::Path(prefix, id, suffix) => BindValueView::Text(
                Some(prefix@ + uuid::hyphenated_text(id) + suffix@),
            ),
        }
    }

    /// What the driver is given for the value.
    pub fn value(&self) -> (r: BindValue)
        ensures
            r@ == self.driver_value(),
    {
        match self {
            Bind::Id(id) => raw(*id),
            Bind::OptId(Some(id)) => raw(*id),
            Bind::OptId(None) => BindValue::Raw(None),
            Bind::IdText(id) => written(id.to_text()),
            Bind::Text(t) => written(t.clone()),
            Bind::OptText(Some(t)) => written(t.clone()),
            Bind::OptText(None) => BindValue::Text(None),
            Bind::Trimmed(t) => written(text::trim(t.as_str()).to_owned()),
            Bind::Label(t) => written((*t).to_owned()),
            Bind::OptLabel(Some(t)) => written((*t).to_owned()),
            Bind::OptLabel(None) => BindValue::Text(None),
            Bind::Int(n) => BindValue::Int(Some(*n)),
            Bind::OptInt(n) => BindValue::Int(*n),
            Bind::Unsigned(n) => BindValue::Unsigned(*n),
            Bind::Flag(b) => BindValue::Int(
                Some(
                    if *b {
                        1i64
                    } else {
                        0i64
                    },
                ),
            ),
            Bind::Time(at) => written(at.millis_zulu()),
            Bind::OptTime(Some(at)) => written(at.millis_zulu()),
            Bind::OptTime(None) => BindValue::Text(None),
            Bind::OffsetTime(at) => written(at.millis_offset()),
            Bind::Rfc3339Time(at) => written(at.to_rfc3339()),
            Bind::Digest(t) => written(digest::sha256_hex(t.as_str())),
            Bind::Json(document) => written(document.text()),
            Bind::JsonText(t) => written(json::rewritten(t.as_str())),
            Bind::OptJsonText(Some(t)) => written(json::rewritten(t.as_str())),
            Bind::OptJsonText(None) => BindValue::Text(None),
            Bind::Named(prefix, id, suffix) => written(
                text::joined3(prefix, id.to_simple_text().as_str(), suffix),
            ),
            Bind::Path(prefix, id, suffix) => written(
                text::joined3(prefix, id.to_text().as_str(), suffix),
            ),
        }
    }
}

/// A flag is one where it is set and zero where it is not, a value that may be missing is NULL
/// where it is, and a text is handed over as it is.
pub proof fn value_is_handed_over_as_it_is(flag: bool, given: String, number: i64, id: Uuid)
    ensures
        Bind::Flag(flag).driver_value() == BindValueView::Int(
            Some(
                if flag {
                    1
                } else {
                    0
                },
            ),
        ),
        Bind::Text(given).driver_value() == BindValueView::Text(Some(given@)),
        Bind::OptText(Some(given)).driver_value() == BindValueView::Text(Some(given@)),
        Bind::OptText(None).driver_value() == BindValueView::Text(None),
        Bind::Int(number).driver_value() == BindValueView::Int(Some(number)),
        Bind::OptInt(None).driver_value() == BindValueView::Int(None),
        Bind::Id(id).driver_value() == BindValueView::Raw(Some(uuid::raw_bytes(id))),
        Bind::OptId(None).driver_value() == BindValueView::Raw(None),
        Bind::OptTime(None).driver_value() == BindValueView::Text(None),
{
}

} // verus!
