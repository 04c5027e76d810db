//! The records and commands that persistence works on.
use vstd::prelude::*;

pub mod audit;
pub mod card_issuance;
pub mod card_policy;
pub mod card_range;
pub mod command;
pub mod financial_transaction;
pub mod idempotency;
pub mod page;
pub mod provider;
pub mod provider_credit;
pub mod provider_event;
pub mod provider_fee;
pub mod receipt;
pub mod user_card;

verus! {

/// A copy of an optional text.
pub fn copied(text: &Option<String>) -> (r: Option<String>)
    ensures
        r == *text,
{
    match text {
        Some(t) => Some(t.clone()),
        None => None,
    }
}

/// A copy of a list of plain values.
pub fn copied_list<T: Copy>(list: &Vec<T>) -> (r: Vec<T>)
    ensures
        r@ == list@,
{
    let mut copy: Vec<T> = Vec::new();
    let mut i: usize = 0;
    while i < list.len()
        invariant
            i <= list@.len(),
            copy@ =~= list@.take(i as int),
        decreases list@.len() - i,
    {
        copy.push(list[i]);
        i = i + 1;
    }
    copy
}

} // verus!
