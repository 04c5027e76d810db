//! Listings of financial transactions.
use vstd::prelude::*;
use crate::db::oracle::binds;
use crate::db::oracle::consult::{CodeKind, Rule};
use crate::db::oracle::repository::OracleRepository;
use crate::db::oracle::script;
use crate::db::oracle::script::{Bind, Halt, HaltView, Row, RunView, Session};
use crate::domain::copied;
use crate::domain::financial_transaction;
use crate::domain::financial_transaction::{
    FinancialTransaction, FinancialTransactionCursor, FinancialTransactionEntry,
    FinancialTransactionFacts, FinancialTransactionPage, FinancialTransactionQuery,
    FinancialTransactionView, TransactionVisibility,
};
use crate::domain::page;
use crate::time::UtcTime;
use crate::uuid::Uuid;

verus! {

/// Lists financial transactions with their entries, newest first.
pub const LIST_SQL: &'static str = r#"
    WITH selected_transactions AS (
        SELECT t.transaction_id, t.transaction_type, t.source_system, t.status,
               t.user_id, t.card_id, c.card_number,
               TO_CHAR(t.amount_rials, 'TM9', 'NLS_NUMERIC_CHARACTERS=''.,''') amount_rials,
               t.currency,
               CASE WHEN :visibility_mode = 'CARDHOLDER' THEN NULL ELSE t.external_reference END external_reference,
               t.original_transaction_id, t.occurred_at, t.recorded_at
          FROM financial_transactions t
          JOIN cards c ON c.card_id = t.card_id
         WHERE (
             (:visibility_mode = 'PROVIDER' AND EXISTS (
                 SELECT 1 FROM financial_transaction_entries ve
                  WHERE ve.transaction_id = t.transaction_id
                    AND ve.provider_id = :provider_id
                    AND (:account_category IS NULL OR ve.account_category = :account_category)
             ))
             OR (:visibility_mode = 'CARDHOLDER' AND t.user_id = :user_id)
             OR (:visibility_mode = 'PLATFORM' AND (
                 :provider_id IS NULL OR EXISTS (
                     SELECT 1 FROM financial_transaction_entries ve
                      WHERE ve.transaction_id = t.transaction_id AND ve.provider_id = :provider_id
                 )
             ))
         )
           AND (:user_id IS NULL OR t.user_id = :user_id)
           AND (:card_number IS NULL OR c.card_number = :card_number)
           AND (:transaction_type IS NULL OR t.transaction_type = :transaction_type)
           AND (:occurred_from IS NULL OR SYS_EXTRACT_UTC(t.occurred_at) >= TO_TIMESTAMP(:occurred_from, 'YYYY-MM-DD"T"HH24:MI:SS.FF3"Z"'))
           AND (:occurred_to IS NULL OR SYS_EXTRACT_UTC(t.occurred_at) < TO_TIMESTAMP(:occurred_to, 'YYYY-MM-DD"T"HH24:MI:SS.FF3"Z"'))
           AND (
               :cursor_occurred_at IS NULL
               OR SYS_EXTRACT_UTC(t.occurred_at) < TO_TIMESTAMP(:cursor_occurred_at, 'YYYY-MM-DD"T"HH24:MI:SS.FF3"Z"')
               OR (
                   SYS_EXTRACT_UTC(t.occurred_at) = TO_TIMESTAMP(:cursor_occurred_at, 'YYYY-MM-DD"T"HH24:MI:SS.FF3"Z"')
                   AND t.transaction_id < :cursor_transaction_id
               )
           )
         ORDER BY t.occurred_at DESC, t.transaction_id DESC
         FETCH FIRST :fetch_limit ROWS ONLY
    )
    SELECT st.transaction_id, st.transaction_type, st.source_system, st.status,
           st.user_id, st.card_id, st.card_number, st.amount_rials, st.currency,
           st.external_reference, st.original_transaction_id,
           TO_CHAR(SYS_EXTRACT_UTC(st.occurred_at), 'YYYY-MM-DD"T"HH24:MI:SS.FF3"Z"'),
           TO_CHAR(SYS_EXTRACT_UTC(st.recorded_at), 'YYYY-MM-DD"T"HH24:MI:SS.FF3"Z"'),
           e.provider_id, e.account_category, e.direction, e.entry_role,
           TO_CHAR(e.amount_rials, 'TM9', 'NLS_NUMERIC_CHARACTERS=''.,''') entry_amount_rials
      FROM selected_transactions st
      JOIN financial_transaction_entries e ON e.transaction_id = st.transaction_id
     WHERE :visibility_mode <> 'PROVIDER'
        OR (e.provider_id = :provider_id
            AND (:account_category IS NULL OR e.account_category = :account_category))
     ORDER BY st.occurred_at DESC, st.transaction_id DESC, e.entry_sequence ASC
    "#;

/// The statement that lists financial transactions.
pub fn list_sql() -> (r: &'static str)
    ensures
        r == LIST_SQL,
{
    LIST_SQL
}

/// The names of the values that the listing is bound to.
pub const BIND_NAMES: &'static str = "visibility_mode,provider_id,user_id,card_number,account_category,transaction_type,occurred_from,occurred_to,cursor_occurred_at,cursor_transaction_id,fetch_limit";

/// The context of a column that cannot be read.
pub const READ_ROW: &'static str = "failed to map financial transaction row";

/// The values by which a listing is restricted.
#[derive(Debug)]
pub struct VisibilityBinds {
    pub mode: &'static str,
    pub provider_id: Option<Uuid>,
    pub user_id: Option<Uuid>,
    pub card_number: Option<String>,
    pub account_category: Option<String>,
}

impl VisibilityBinds {
    /// The values by which a listing is restricted for whom looks at it.
    pub open spec fn of_visibility(visibility: TransactionVisibility) -> VisibilityBinds {
        match visibility {
            TransactionVisibility::Provider {
                provider_id,
                user_id,
                card_number,
                account_category,
            } => VisibilityBinds {
                mode: "PROVIDER",
                provider_id: Some(provider_id),
                user_id: user_id,
                card_number: card_number,
                account_category: account_category,
            },
            TransactionVisibility::Cardholder { user_id, card_number } => VisibilityBinds {
                mode: "CARDHOLDER",
                provider_id: None,
                user_id: Some(user_id),
                card_number: card_number,
                account_category: None,
            },
            TransactionVisibility::Platform {
                provider_id,
                user_id,
                card_number,
            } => VisibilityBinds {
                mode: "PLATFORM",
                provider_id: provider_id,
                user_id: user_id,
                card_number: card_number,
                account_category: None,
            },
        }
    }

    /// The values by which a listing is restricted for whom looks at it.
    pub fn from_visibility(visibility: &TransactionVisibility) -> (r: VisibilityBinds)
        ensures
            r == VisibilityBinds::of_visibility(*visibility),
    {
        match visibility {
            TransactionVisibility::Provider {
                provider_id,
                user_id,
                card_number,
                account_category,
            } => VisibilityBinds {
                mode: "PROVIDER",
                provider_id: Some(*provider_id),
                user_id: *user_id,
                card_number: copied(card_number),
                account_category: copied(account_category),
            },
            TransactionVisibility::Cardholder { user_id, card_number } => VisibilityBinds {
                mode: "CARDHOLDER",
                provider_id: None,
                user_id: Some(*user_id),
                card_number: copied(card_number),
                account_category: None,
            },
            TransactionVisibility::Platform {
                provider_id,
                user_id,
                card_number,
            } => VisibilityBinds {
                mode: "PLATFORM",
                provider_id: *provider_id,
                user_id: *user_id,
                card_number: copied(card_number),
                account_category: None,
            },
        }
    }
}

/// The transaction that a row holds.
pub open spec fn map_transaction_spec(
    st: RunView,
    row: Row,
    transaction_id: Uuid,
) -> (Result<FinancialTransactionFacts, HaltView>, RunView) {
    match row.text_at(1, READ_ROW@) { Err(h) => (Err(h), st), Ok(transaction_type) =>
    match row.opt_raw_at(10, READ_ROW@) { Err(h) => (Err(h), st), Ok(original_raw) =>
    match row.text_at(6, READ_ROW@) { Err(h) => (Err(h), st), Ok(card_number) =>
    match script::flag_spec(
        st,
        Rule::KnownCode(CodeKind::FinancialTransactionType, transaction_type),
    ) { (Err(h), st) => (Err(h), st), (Ok(transaction_type_known), st) =>
    if !transaction_type_known {
        (script::query_fault("unknown financial transaction type"@), st)
    } else {
    match row.text_at(2, READ_ROW@) { Err(h) => (Err(h), st), Ok(source_system) =>
    match row.text_at(3, READ_ROW@) { Err(h) => (Err(h), st), Ok(status) =>
    match row.raw_at(4, READ_ROW@) { Err(h) => (Err(h), st), Ok(user_id_raw) =>
    match script::id_of(user_id_raw@) { Err(h) => (Err(h), st), Ok(user_id) =>
    match row.raw_at(5, READ_ROW@) { Err(h) => (Err(h), st), Ok(card_id_raw) =>
    match script::id_of(card_id_raw@) { Err(h) => (Err(h), st), Ok(card_id) =>
    match script::consult_text_spec(
        st,
        Rule::MaskedCardNumber(card_number),
    ) { (Err(h), st) => (Err(h), st), (Ok(masked_card_number), st) =>
    match row.text_at(7, READ_ROW@) { Err(h) => (Err(h), st), Ok(amount_rials) =>
    match row.text_at(8, READ_ROW@) { Err(h) => (Err(h), st), Ok(currency) =>
    match row.opt_text_at(9, READ_ROW@) { Err(h) => (Err(h), st), Ok(reference) =>
    match script::opt_id_of(original_raw) { Err(h) => (Err(h), st), Ok(original_transaction_id) =>
    match row.text_at(11, READ_ROW@) { Err(h) => (Err(h), st), Ok(occurred) =>
    match script::time_of(
        occurred@,
        "invalid financial transaction timestamp"@,
    ) { Err(h) => (Err(h), st), Ok(occurred_at) =>
    match row.text_at(12, READ_ROW@) { Err(h) => (Err(h), st), Ok(recorded) =>
    match script::time_of(
        recorded@,
        "invalid financial transaction timestamp"@,
    ) { Err(h) => (Err(h), st), Ok(recorded_at) =>
    (
        Ok(FinancialTransactionFacts {
            transaction_id,
            transaction_type,
            source_system,
            status,
            user_id,
            card_id,
            masked_card_number,
            amount_rials,
            currency,
            reference,
            original_transaction_id,
            occurred_at,
            recorded_at,
        }),
        st,
    )
    }}}}}}}}}}}}}}}}}}}}
}

/// The transaction that a row holds.
pub fn map_transaction(
    s: &mut Session,
    row: &Row,
    transaction_id: Uuid,
) -> (r: Result<FinancialTransactionFacts, Halt>)
    ensures
        (script::seen(r), final(s)@) == map_transaction_spec(old(s)@, *row, transaction_id),
{
    let transaction_type = row.text(1, READ_ROW)?;
    let original_raw = row.opt_raw(10, READ_ROW)?;
    let card_number = row.text(6, READ_ROW)?;
    let transaction_type_known = script::flag(
        s,
        Rule::KnownCode(CodeKind::FinancialTransactionType, transaction_type.clone()),
    )?;
    if !transaction_type_known {
        return Err(script::fail_query("unknown financial transaction type"));
    }
    let source_system = row.text(2, READ_ROW)?;
    let status = row.text(3, READ_ROW)?;
    let user_id_raw = row.raw(4, READ_ROW)?;
    let user_id = script::to_id(user_id_raw)?;
    let card_id_raw = row.raw(5, READ_ROW)?;
    let card_id = script::to_id(card_id_raw)?;
    let masked_card_number = script::consult_text(s, Rule::MaskedCardNumber(card_number))?;
    let amount_rials = row.text(7, READ_ROW)?;
    let currency = row.text(8, READ_ROW)?;
    let reference = row.opt_text(9, READ_ROW)?;
    let original_transaction_id = script::to_opt_id(original_raw)?;
    let occurred = row.text(11, READ_ROW)?;
    let occurred_at = script::to_time(
        occurred.as_str(),
        "invalid financial transaction timestamp",
    )?;
    let recorded = row.text(12, READ_ROW)?;
    let recorded_at = script::to_time(
        recorded.as_str(),
        "invalid financial transaction timestamp",
    )?;
    Ok(FinancialTransactionFacts {
        transaction_id,
        transaction_type,
        source_system,
        status,
        user_id,
        card_id,
        masked_card_number,
        amount_rials,
        currency,
        reference,
        original_transaction_id,
        occurred_at,
        recorded_at,
    })
}

/// The entry that a row holds.
pub open spec fn map_entry_spec(
    st: RunView,
    row: Row,
) -> (Result<FinancialTransactionEntry, HaltView>, RunView) {
    match row.text_at(14, READ_ROW@) { Err(h) => (Err(h), st), Ok(account_category) =>
    match row.text_at(15, READ_ROW@) { Err(h) => (Err(h), st), Ok(direction) =>
    match row.raw_at(13, READ_ROW@) { Err(h) => (Err(h), st), Ok(provider_id_raw) =>
    match script::id_of(provider_id_raw@) { Err(h) => (Err(h), st), Ok(provider_id) =>
    match script::flag_spec(
        st,
        Rule::KnownCode(CodeKind::FinancialAccountCategory, account_category),
    ) { (Err(h), st) => (Err(h), st), (Ok(account_category_known), st) =>
    if !account_category_known {
        (script::query_fault("unknown financial account category"@), st)
    } else {
    match script::flag_spec(
        st,
        Rule::KnownCode(CodeKind::FinancialEntryDirection, direction),
    ) { (Err(h), st) => (Err(h), st), (Ok(direction_known), st) =>
    if !direction_known {
        (script::query_fault("unknown financial entry direction"@), st)
    } else {
    match row.text_at(16, READ_ROW@) { Err(h) => (Err(h), st), Ok(entry_role) =>
    match row.text_at(17, READ_ROW@) { Err(h) => (Err(h), st), Ok(amount_rials) =>
    (
        Ok(FinancialTransactionEntry {
            provider_id,
            account_category,
            direction,
            entry_role,
            amount_rials,
        }),
        st,
    )
    }}}}}}}}}}
}

/// The entry that a row holds.
pub fn map_entry(s: &mut Session, row: &Row) -> (r: Result<FinancialTransactionEntry, Halt>)
    ensures
        (script::seen(r), final(s)@) == map_entry_spec(old(s)@, *row),
{
    let account_category = row.text(14, READ_ROW)?;
    let direction = row.text(15, READ_ROW)?;
    let provider_id_raw = row.raw(13, READ_ROW)?;
    let provider_id = script::to_id(provider_id_raw)?;
    let account_category_known = script::flag(
        s,
        Rule::KnownCode(CodeKind::FinancialAccountCategory, account_category.clone()),
    )?;
    if !account_category_known {
        return Err(script::fail_query("unknown financial account category"));
    }
    let direction_known = script::flag(
        s,
        Rule::KnownCode(CodeKind::FinancialEntryDirection, direction.clone()),
    )?;
    if !direction_known {
        return Err(script::fail_query("unknown financial entry direction"));
    }
    let entry_role = row.text(16, READ_ROW)?;
    let amount_rials = row.text(17, READ_ROW)?;
    Ok(FinancialTransactionEntry {
        provider_id,
        account_category,
        direction,
        entry_role,
        amount_rials,
    })
}

/// The transaction that a row belongs to.
pub open spec fn map_transaction_id_spec(row: Row) -> Result<Uuid, HaltView> {
    match row.raw_at(0, READ_ROW@) { Err(h) => Err(h), Ok(transaction_id_raw) =>
    match script::id_of(transaction_id_raw@) { Err(h) => Err(h), Ok(transaction_id) =>
    Ok(transaction_id)
    }}
}

/// The transaction that a row belongs to.
pub fn map_transaction_id(row: &Row) -> (r: Result<Uuid, Halt>)
    ensures
        script::seen(r) == map_transaction_id_spec(*row),
{
    let transaction_id_raw = row.raw(0, READ_ROW)?;
    let transaction_id = script::to_id(transaction_id_raw)?;
    Ok(transaction_id)
}

/// A list of transactions with an entry added to the last of them.
pub open spec fn with_entry(
    items: Seq<FinancialTransactionView>,
    entry: FinancialTransactionEntry,
) -> Seq<FinancialTransactionView> {
    let last = items.last();
    items.drop_last().push(
        FinancialTransactionView { facts: last.facts, entries: last.entries.push(entry) },
    )
}

/// The last of a list of transactions is this one.
pub open spec fn continues(items: Seq<FinancialTransactionView>, transaction_id: Uuid) -> bool {
    items.len() > 0 && items.last().facts.transaction_id == transaction_id
}

/// The list to which the entry of a row belongs: the row begins another transaction, unless it goes
/// on with the last.
pub open spec fn opened_spec(
    st: RunView,
    row: Row,
    transaction_id: Uuid,
    items: Seq<FinancialTransactionView>,
) -> (Result<Seq<FinancialTransactionView>, HaltView>, RunView) {
    if continues(items, transaction_id) {
        (Ok(items), st)
    } else {
        match map_transaction_spec(st, row, transaction_id) {
            (Err(h), st) => (Err(h), st),
            (Ok(facts), st) => (
                Ok(items.push(FinancialTransactionView { facts, entries: Seq::empty() })),
                st,
            ),
        }
    }
}

/// The transactions that rows hold from `i` on, after those that are done, and whether another
/// follows. Rows that follow each other and belong to one transaction are its entries. A row that
/// would begin a transaction beyond the limit ends the list.
pub open spec fn collect_transactions_spec(
    st: RunView,
    rows: Seq<Row>,
    i: nat,
    limit: nat,
    items: Seq<FinancialTransactionView>,
) -> (Result<(Seq<FinancialTransactionView>, bool), HaltView>, RunView)
    decreases rows.len() - i,
{
    if i >= rows.len() {
        (Ok((items, false)), st)
    } else {
        match map_transaction_id_spec(rows[i as int]) {
            Err(h) => (Err(h), st),
            Ok(transaction_id) => if !continues(items, transaction_id) && items.len() == limit {
                (Ok((items, true)), st)
            } else {
                match opened_spec(st, rows[i as int], transaction_id, items) {
                    (Err(h), st) => (Err(h), st),
                    (Ok(opened), st) => match map_entry_spec(st, rows[i as int]) {
                        (Err(h), st) => (Err(h), st),
                        (Ok(entry), st) => collect_transactions_spec(
                            st,
                            rows,
                            i + 1,
                            limit,
                            with_entry(opened, entry),
                        ),
                    },
                }
            },
        }
    }
}

/// A list of transactions and whether another follows, with its halt as plain values.
pub open spec fn seen_transactions(r: Result<(Vec<FinancialTransaction>, bool), Halt>) -> Result<
    (Seq<FinancialTransactionView>, bool),
    HaltView,
> {
    match r {
        Ok((items, more)) => Ok((financial_transaction::transaction_views(items@), more)),
        Err(h) => Err(h@),
    }
}

/// The transactions that rows hold, at most a number of them, and whether another follows.
pub fn collect_transactions(s: &mut Session, rows: &Vec<Row>, limit: usize) -> (r: Result<
    (Vec<FinancialTransaction>, bool),
    Halt,
>)
    ensures
        (seen_transactions(r), final(s)@) == collect_transactions_spec(
            old(s)@,
            rows@,
            0,
            limit as nat,
            Seq::empty(),
        ),
{
    let mut items: Vec<FinancialTransaction> = Vec::new();
    let mut i: usize = 0;
    assert(financial_transaction::transaction_views(items@) =~= Seq::empty());
    while i < rows.len()
        invariant
            i <= rows@.len(),
            collect_transactions_spec(old(s)@, rows@, 0, limit as nat, Seq::empty())
                == collect_transactions_spec(
                s@,
                rows@,
                i as nat,
                limit as nat,
                financial_transaction::transaction_views(items@),
            ),
        decreases rows@.len() - i,
    {
        let ghost before = items@;
        let transaction_id = map_transaction_id(&rows[i])?;
        let goes_on: bool = items.len() > 0 && items[items.len() - 1].facts.transaction_id
            == transaction_id;
        assert(
            goes_on == continues(financial_transaction::transaction_views(before), transaction_id)
        );
        if !goes_on {
            if items.len() == limit {
                return Ok((items, true));
            }
            let facts = map_transaction(s, &rows[i], transaction_id)?;
            let item = FinancialTransaction { facts, entries: Vec::new() };
            let ghost shown = item@;
            assert(shown.entries =~= Seq::empty());
            items.push(item);
            assert(
                financial_transaction::transaction_views(
                    items@,
                ) =~= financial_transaction::transaction_views(before).push(shown)
            );
        }
        let ghost opened = financial_transaction::transaction_views(items@);
        assert(opened.len() > 0);
        let entry = map_entry(s, &rows[i])?;
        if let Some(mut last) = items.pop() {
            last.entries.push(entry);
            items.push(last);
            assert(financial_transaction::transaction_views(items@) =~= with_entry(opened, entry));
        }
        i = i + 1;
    }
    Ok((items, false))
}

/// A page of transactions: its last one is the cursor, where another follows.
pub open spec fn transaction_page(items: Seq<FinancialTransactionView>, more: bool) -> (
    Seq<FinancialTransactionView>,
    Option<FinancialTransactionCursor>,
) {
    (
        items,
        if more && items.len() > 0 {
            Some(
                FinancialTransactionCursor {
                    occurred_at: items.last().facts.occurred_at,
                    transaction_id: items.last().facts.transaction_id,
                },
            )
        } else {
            None
        },
    )
}

fn to_transaction_page(
    items: Vec<FinancialTransaction>,
    more: bool,
) -> (r: FinancialTransactionPage)
    ensures
        r@ == transaction_page(financial_transaction::transaction_views(items@), more),
{
    let next_cursor = if more && items.len() > 0 {
        let last = &items[items.len() - 1];
        Some(
            FinancialTransactionCursor {
                occurred_at: last.facts.occurred_at,
                transaction_id: last.facts.transaction_id,
            },
        )
    } else {
        None
    };
    FinancialTransactionPage { items, next_cursor }
}

/// A list that is collected from nothing holds no more transactions than the limit, none of them
/// without an entry, and a transaction follows only a full list.
pub proof fn collected_transactions_fit(
    st: RunView,
    rows: Seq<Row>,
    i: nat,
    limit: nat,
    items: Seq<FinancialTransactionView>,
)
    requires
        items.len() <= limit,
        forall|k: int| 0 <= k < items.len() ==> (#[trigger] items[k]).entries.len() > 0,
    ensures
        collect_transactions_spec(st, rows, i, limit, items).0 matches Ok((found, more)) ==> {
            &&& found.len() <= limit
            &&& more ==> found.len() == limit
            &&& forall|k: int| 0 <= k < found.len() ==> (#[trigger] found[k]).entries.len() > 0
        },
    decreases rows.len() - i,
{
    if i < rows.len() {
        let row = rows[i as int];
        if let Ok(transaction_id) = map_transaction_id_spec(row) {
            if continues(items, transaction_id) || items.len() != limit {
                let opened = opened_spec(st, row, transaction_id, items);
                if let Ok(list) = opened.0 {
                    let read = map_entry_spec(opened.1, row);
                    if let Ok(entry) = read.0 {
                        let next = with_entry(list, entry);
                        assert forall|k: int| 0 <= k < next.len() implies (
                        #[trigger] next[k]).entries.len() > 0 by {
                            if k < next.len() - 1 {
                                assert(next[k] == list[k]);
                                assert(list[k] == items[k]);
                            }
                        }
                        collected_transactions_fit(read.1, rows, i + 1, limit, next);
                    }
                }
            }
        }
    }
}

/// The instant after which a page begins, where there is a cursor.
pub open spec fn cursor_time_spec(cursor: Option<FinancialTransactionCursor>) -> Option<UtcTime> {
    match cursor {
        Some(c) => Some(c.occurred_at),
        None => None,
    }
}

fn cursor_time(cursor: &Option<FinancialTransactionCursor>) -> (r: Option<UtcTime>)
    ensures
        r == cursor_time_spec(*cursor),
{
    match cursor {
        Some(c) => Some(c.occurred_at),
        None => None,
    }
}

/// The identifier after which a page begins, where there is a cursor.
pub open spec fn cursor_id_spec(cursor: Option<FinancialTransactionCursor>) -> Option<Uuid> {
    match cursor {
        Some(c) => Some(c.transaction_id),
        None => None,
    }
}

fn cursor_id(cursor: &Option<FinancialTransactionCursor>) -> (r: Option<Uuid>)
    ensures
        r == cursor_id_spec(*cursor),
{
    match cursor {
        Some(c) => Some(c.transaction_id),
        None => None,
    }
}

/// A page of financial transactions with their entries, newest first, as far as whoever asks may
/// see them.
pub open spec fn list_financial_transactions_spec(
    st: RunView,
    query: FinancialTransactionQuery,
) -> (
    Result<(Seq<FinancialTransactionView>, Option<FinancialTransactionCursor>), HaltView>,
    RunView,
) {
    { let visibility = VisibilityBinds::of_visibility(query.visibility);
    match script::named_rows_spec(
        st,
        LIST_SQL@,
        BIND_NAMES,
        seq![
            Bind::Label(visibility.mode),
            Bind::OptId(visibility.provider_id),
            Bind::OptId(visibility.user_id),
            Bind::OptText(visibility.card_number),
            Bind::OptText(visibility.account_category),
            Bind::OptText(query.transaction_type),
            Bind::OptTime(query.occurred_from),
            Bind::OptTime(query.occurred_to),
            Bind::OptTime(cursor_time_spec(query.cursor)),
            Bind::OptId(cursor_id_spec(query.cursor)),
            Bind::Int(page::fetch_limit_spec(query.limit)),
        ],
        "rtttrrtttTRttrtttt",
        "failed to list financial transactions"@,
    ) { (Err(h), st) => (Err(h), st), (Ok(listed), st) =>
    match collect_transactions_spec(
        st,
        listed.rows@,
        0,
        query.limit as nat,
        Seq::empty(),
    ) { (Err(h), st) => (Err(h), st), (Ok((items, more)), st) =>
    if !more {
        if let Some(cause) = listed.failure {
            (script::failed(READ_ROW@, cause@), st)
        } else {
            (Ok(transaction_page(items, more)), st)
        }
    } else {
        (Ok(transaction_page(items, more)), st)
    }
    }}}
}

impl OracleRepository {
    /// A page of financial transactions with their entries, newest first, as far as whoever asks
    /// may see them.
    pub fn list_financial_transactions(
        s: &mut Session,
        query: &FinancialTransactionQuery,
    ) -> (r: Result<FinancialTransactionPage, Halt>)
        ensures
            (script::seen_view(r), final(s)@) == list_financial_transactions_spec(old(s)@, *query),
    {
        let visibility = VisibilityBinds::from_visibility(&query.visibility);
        let listed = script::named_rows(
            s,
            LIST_SQL,
            BIND_NAMES,
            binds::binds11(
                Bind::Label(visibility.mode),
                Bind::OptId(visibility.provider_id),
                Bind::OptId(visibility.user_id),
                Bind::OptText(copied(&visibility.card_number)),
                Bind::OptText(copied(&visibility.account_category)),
                Bind::OptText(copied(&query.transaction_type)),
                Bind::OptTime(query.occurred_from),
                Bind::OptTime(query.occurred_to),
                Bind::OptTime(cursor_time(&query.cursor)),
                Bind::OptId(cursor_id(&query.cursor)),
                Bind::Int(page::fetch_limit(query.limit)),
            ),
            "rtttrrtttTRttrtttt",
            "failed to list financial transactions",
        )?;
        let (items, more) = collect_transactions(s, &listed.rows, query.limit as usize)?;
        if !more {
            if let Some(cause) = &listed.failure {
                return Err(script::fail_because(READ_ROW, cause.as_str()));
            } else {
                return Ok(to_transaction_page(items, more));
            }
        } else {
            return Ok(to_transaction_page(items, more));
        }
    }
}

/// Whoever looks is bound to what is theirs: a provider to its own transactions, a cardholder to
/// their own, and the platform to whatever it names.
pub proof fn whoever_looks_sees_their_own(visibility: TransactionVisibility)
    ensures
        ({
            let binds = VisibilityBinds::of_visibility(visibility);
            match visibility {
                TransactionVisibility::Provider {
                    provider_id,
                    user_id,
                    card_number,
                    account_category,
                } => {
                    &&& binds.mode@ == "PROVIDER"@
                    &&& binds.provider_id == Some(provider_id)
                    &&& binds.user_id == user_id
                    &&& binds.card_number == card_number
                    &&& binds.account_category == account_category
                },
                TransactionVisibility::Cardholder { user_id, card_number } => {
                    &&& binds.mode@ == "CARDHOLDER"@
                    &&& binds.provider_id is None
                    &&& binds.user_id == Some(user_id)
                    &&& binds.card_number == card_number
                    &&& binds.account_category is None
                },
                TransactionVisibility::Platform { provider_id, user_id, card_number } => {
                    &&& binds.mode@ == "PLATFORM"@
                    &&& binds.provider_id == provider_id
                    &&& binds.user_id == user_id
                    &&& binds.card_number == card_number
                    &&& binds.account_category is None
                },
            }
        }),
{
}

/// A listing asks for what the query names, from its cursor on, and for one row more than its
/// limit.
pub proof fn listing_asks_for_what_the_query_names(st: RunView, query: FinancialTransactionQuery)
    requires
        st.rest.len() > 0,
        st.rest[0] matches script::Reply::Rows(found) && found.rows@.len() == 0,
    ensures
        ({
            let asked = list_financial_transactions_spec(st, query).1.log[st.log.len() as int];
            &&& asked matches script::CallView::Sql { sql, binds, .. }
            &&& sql == LIST_SQL@
            &&& binds.len() == 11
            &&& binds[5] == Bind::OptText(query.transaction_type)
            &&& binds[6] == Bind::OptTime(query.occurred_from)
            &&& binds[7] == Bind::OptTime(query.occurred_to)
            &&& query.cursor matches Some(cursor) ==> binds[8] == Bind::OptTime(
                Some(cursor.occurred_at),
            ) && binds[9] == Bind::OptId(Some(cursor.transaction_id))
            &&& query.cursor is None ==> binds[8] == Bind::OptTime(None) && binds[9] == Bind::OptId(
                None,
            )
            &&& binds[10] == Bind::Int((query.limit + 1) as i64)
        }),
{
}

/// The rows of a page begin a transaction each time its identifier changes: each entry goes to the
/// transaction of its row, and the entries keep their order.
pub proof fn row_goes_to_its_transaction(
    st: RunView,
    row: Row,
    transaction_id: Uuid,
    items: Seq<FinancialTransactionView>,
)
    ensures
        opened_spec(st, row, transaction_id, items).0 matches Ok(opened) ==> {
            &&& opened.len() > 0
            &&& items.len() > 0 && items.last().facts.transaction_id == transaction_id ==> opened
                == items
            &&& items.len() == 0 || items.last().facts.transaction_id != transaction_id ==> {
                &&& opened.drop_last() == items
                &&& opened.last().entries.len() == 0
            }
        },
{
    if let Ok(opened) = opened_spec(st, row, transaction_id, items).0 {
        if !continues(items, transaction_id) {
            assert(opened.drop_last() =~= items);
        }
    }
}

/// A page goes on after its last transaction exactly where another follows.
pub proof fn page_goes_on_after_its_last_transaction(
    items: Seq<FinancialTransactionView>,
    more: bool,
)
    ensures
        ({
            let (shown, next) = transaction_page(items, more);
            &&& shown == items
            &&& next is Some <==> more && items.len() > 0
            &&& next matches Some(cursor) ==> cursor.occurred_at == items.last().facts.occurred_at
                && cursor.transaction_id == items.last().facts.transaction_id
        }),
{
}

/// Each value is read from its own column: the transaction that a row holds.
#[verifier::rlimit(60)]
pub proof fn map_transaction_is_read_by_column(
    st: RunView,
    row: Row,
    transaction_id: Uuid,
)
    ensures
        map_transaction_spec(st, row, transaction_id).0 matches Ok(read) ==> {
            &&& read.transaction_id == transaction_id
            &&& read.transaction_type == row.text_at(1, READ_ROW@)->Ok_0
            &&& read.source_system == row.text_at(2, READ_ROW@)->Ok_0
            &&& read.status == row.text_at(3, READ_ROW@)->Ok_0
            &&& read.user_id == row.id_at(4, READ_ROW@)->Ok_0
            &&& read.card_id == row.id_at(5, READ_ROW@)->Ok_0
            &&& read.amount_rials == row.text_at(7, READ_ROW@)->Ok_0
            &&& read.currency == row.text_at(8, READ_ROW@)->Ok_0
            &&& read.reference == row.opt_text_at(9, READ_ROW@)->Ok_0
            &&& read.original_transaction_id == script::opt_id_of(
                row.opt_raw_at(10, READ_ROW@)->Ok_0,
            )->Ok_0
            &&& read.occurred_at == script::time_of(
                row.text_at(11, READ_ROW@)->Ok_0@,
                "invalid financial transaction timestamp"@,
            )->Ok_0
            &&& read.recorded_at == script::time_of(
                row.text_at(12, READ_ROW@)->Ok_0@,
                "invalid financial transaction timestamp"@,
            )->Ok_0
        },
{
}

/// Each value is read from its own column: the entry that a row holds.
#[verifier::rlimit(60)]
pub proof fn map_entry_is_read_by_column(
    st: RunView,
    row: Row,
)
    ensures
        map_entry_spec(st, row).0 matches Ok(read) ==> {
            &&& read.provider_id == row.id_at(13, READ_ROW@)->Ok_0
            &&& read.account_category == row.text_at(14, READ_ROW@)->Ok_0
            &&& read.direction == row.text_at(15, READ_ROW@)->Ok_0
            &&& read.entry_role == row.text_at(16, READ_ROW@)->Ok_0
            &&& read.amount_rials == row.text_at(17, READ_ROW@)->Ok_0
        },
{
}

} // verus!
