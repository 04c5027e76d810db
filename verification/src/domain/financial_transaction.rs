//! Financial transactions.
use vstd::prelude::*;
use crate::time::UtcTime;
use crate::uuid::Uuid;

verus! {

/// A financial transaction, beside its entries. `transaction_type` and `status` are database values
/// and `amount_rials` is a decimal number.
#[derive(Debug)]
pub struct FinancialTransactionFacts {
    pub transaction_id: Uuid,
    pub transaction_type: String,
    pub source_system: String,
    pub status: String,
    pub user_id: Uuid,
    pub card_id: Uuid,
    pub masked_card_number: String,
    pub amount_rials: String,
    pub currency: String,
    pub reference: Option<String>,
    pub original_transaction_id: Option<Uuid>,
    pub occurred_at: UtcTime,
    pub recorded_at: UtcTime,
}

/// One side of a financial transaction. `account_category` and `direction` are database values and
/// `amount_rials` is a decimal number.
#[derive(Debug)]
pub struct FinancialTransactionEntry {
    pub provider_id: Uuid,
    pub account_category: String,
    pub direction: String,
    pub entry_role: String,
    pub amount_rials: String,
}

/// The last financial transaction of a page.
#[derive(Clone, Copy, Debug, PartialEq, Eq, Structural)]
pub struct FinancialTransactionCursor {
    pub occurred_at: UtcTime,
    pub transaction_id: Uuid,
}

/// A financial transaction and its entries.
#[derive(Debug)]
pub struct FinancialTransaction {
    pub facts: FinancialTransactionFacts,
    pub entries: Vec<FinancialTransactionEntry>,
}

/// A financial transaction and its entries, as plain values.
pub struct FinancialTransactionView {
    pub facts: FinancialTransactionFacts,
    pub entries: Seq<FinancialTransactionEntry>,
}

impl View for FinancialTransaction {
    type V = FinancialTransactionView;

    open spec fn view(&self) -> FinancialTransactionView {
        FinancialTransactionView { facts: self.facts, entries: self.entries@ }
    }
}

/// Financial transactions as plain values.
pub open spec fn transaction_views(items: Seq<FinancialTransaction>) -> Seq<
    FinancialTransactionView,
> {
    items.map_values(|item: FinancialTransaction| item@)
}

/// A page of financial transactions.
#[derive(Debug)]
pub struct FinancialTransactionPage {
    pub items: Vec<FinancialTransaction>,
    pub next_cursor: Option<FinancialTransactionCursor>,
}

impl View for FinancialTransactionPage {
    type V = (Seq<FinancialTransactionView>, Option<FinancialTransactionCursor>);

    open spec fn view(
        &self,
    ) -> (Seq<FinancialTransactionView>, Option<FinancialTransactionCursor>) {
        (transaction_views(self.items@), self.next_cursor)
    }
}

/// Who looks at financial transactions, and at which. A category of accounts is a database value.
#[derive(Debug)]
pub enum TransactionVisibility {
    Provider {
        provider_id: Uuid,
        user_id: Option<Uuid>,
        card_number: Option<String>,
        account_category: Option<String>,
    },
    Cardholder { user_id: Uuid, card_number: Option<String> },
    Platform {
        provider_id: Option<Uuid>,
        user_id: Option<Uuid>,
        card_number: Option<String>,
    },
}

/// Which financial transactions to list. `transaction_type` is a database value.
#[derive(Debug)]
pub struct FinancialTransactionQuery {
    pub visibility: TransactionVisibility,
    pub transaction_type: Option<String>,
    pub occurred_from: Option<UtcTime>,
    pub occurred_to: Option<UtcTime>,
    pub cursor: Option<FinancialTransactionCursor>,
    pub limit: u16,
}

} // verus!
