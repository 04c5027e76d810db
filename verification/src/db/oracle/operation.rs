//! Integration operations.
use vstd::prelude::*;
use crate::db::oracle::binds;
use crate::db::oracle::repository::OracleRepository;
use crate::db::oracle::script;
use crate::db::oracle::script::{Bind, Halt, HaltView, Row, RunView, Session};
use crate::text::same_text;
use crate::time::UtcTime;
use crate::uuid::Uuid;

verus! {

/// Reads an integration operation with its first event.
pub const OPERATION_SQL: &'static str = r#"SELECT e.outbox_event_id,e.event_type,o.aggregate_type,o.aggregate_id,o.status,(SELECT NVL(SUM(attempt_count),0) FROM integration_outbox WHERE operation_id=o.operation_id),TO_CHAR(SYS_EXTRACT_UTC(o.created_at),'YYYY-MM-DD"T"HH24:MI:SS.FF3"Z"'),TO_CHAR(SYS_EXTRACT_UTC(MAX(e.published_at)),'YYYY-MM-DD"T"HH24:MI:SS.FF3"Z"'),TO_CHAR(SYS_EXTRACT_UTC(o.materialized_at),'YYYY-MM-DD"T"HH24:MI:SS.FF3"Z"') FROM integration_operations o JOIN integration_outbox e ON e.operation_id=o.operation_id AND e.event_sequence=1 WHERE o.operation_id=:1 GROUP BY e.outbox_event_id,e.event_type,o.aggregate_type,o.aggregate_id,o.status,o.operation_id,o.created_at,o.materialized_at"#;

/// The context of a column that cannot be read.
pub const READ_ROW: &'static str = "failed to map integration operation";

/// How far an integration operation has come.
#[derive(Clone, Copy, Debug, PartialEq, Eq, Structural)]
pub enum IntegrationOperationStatus {
    Pending,
    Publishing,
    Published,
    Materialized,
    DeadLetter,
}

impl IntegrationOperationStatus {
    /// The value that stands for it in the database.
    pub open spec fn code(self) -> &'static str {
        match self {
            IntegrationOperationStatus::Pending => "PENDING",
            IntegrationOperationStatus::Publishing => "PUBLISHING",
            IntegrationOperationStatus::Published => "PUBLISHED",
            IntegrationOperationStatus::Materialized => "MATERIALIZED",
            IntegrationOperationStatus::DeadLetter => "DEAD_LETTER",
        }
    }

    /// The value that stands for it in the database.
    pub fn as_db_value(self) -> (r: &'static str)
        ensures
            r == self.code(),
    {
        match self {
            IntegrationOperationStatus::Pending => "PENDING",
            IntegrationOperationStatus::Publishing => "PUBLISHING",
            IntegrationOperationStatus::Published => "PUBLISHED",
            IntegrationOperationStatus::Materialized => "MATERIALIZED",
            IntegrationOperationStatus::DeadLetter => "DEAD_LETTER",
        }
    }

    /// What a database value stands for, where it is one of those in use.
    pub open spec fn of_code(value: Seq<char>) -> Option<IntegrationOperationStatus> {
        if value == "PENDING"@ {
            Some(IntegrationOperationStatus::Pending)
        } else if value == "PUBLISHING"@ {
            Some(IntegrationOperationStatus::Publishing)
        } else if value == "PUBLISHED"@ {
            Some(IntegrationOperationStatus::Published)
        } else if value == "MATERIALIZED"@ {
            Some(IntegrationOperationStatus::Materialized)
        } else if value == "DEAD_LETTER"@ {
            Some(IntegrationOperationStatus::DeadLetter)
        } else {
            None
        }
    }

    /// What a database value stands for, where it is one of those in use.
    pub fn from_db_value(value: &str) -> (r: Option<IntegrationOperationStatus>)
        ensures
            r == IntegrationOperationStatus::of_code(value@),
    {
        if same_text(value, "PENDING") {
            Some(IntegrationOperationStatus::Pending)
        } else if same_text(value, "PUBLISHING") {
            Some(IntegrationOperationStatus::Publishing)
        } else if same_text(value, "PUBLISHED") {
            Some(IntegrationOperationStatus::Published)
        } else if same_text(value, "MATERIALIZED") {
            Some(IntegrationOperationStatus::Materialized)
        } else if same_text(value, "DEAD_LETTER") {
            Some(IntegrationOperationStatus::DeadLetter)
        } else {
            None
        }
    }
}

/// A database value that stands for a IntegrationOperationStatus is the one value that stands for
/// it.
pub proof fn integration_operation_status_has_one_code(value: Seq<char>)
    ensures
        IntegrationOperationStatus::of_code(value) == Some(
            IntegrationOperationStatus::Pending,
        ) <==> value == "PENDING"@,
        IntegrationOperationStatus::of_code(value) == Some(
            IntegrationOperationStatus::Publishing,
        ) <==> value == "PUBLISHING"@,
        IntegrationOperationStatus::of_code(value) == Some(
            IntegrationOperationStatus::Published,
        ) <==> value == "PUBLISHED"@,
        IntegrationOperationStatus::of_code(value) == Some(
            IntegrationOperationStatus::Materialized,
        ) <==> value == "MATERIALIZED"@,
        IntegrationOperationStatus::of_code(value) == Some(
            IntegrationOperationStatus::DeadLetter,
        ) <==> value == "DEAD_LETTER"@,
{
    reveal_strlit("PENDING");
    reveal_strlit("PUBLISHING");
    reveal_strlit("PUBLISHED");
    reveal_strlit("MATERIALIZED");
    reveal_strlit("DEAD_LETTER");
    assert("PENDING"@.len() == 7);
    assert("PUBLISHING"@.len() == 10);
    assert("PUBLISHED"@.len() == 9);
    assert("MATERIALIZED"@.len() == 12);
    assert("DEAD_LETTER"@.len() == 11);
}

/// Reading the value that stands for a IntegrationOperationStatus gives the
/// IntegrationOperationStatus back.
pub proof fn integration_operation_status_code_round_trip(x: IntegrationOperationStatus)
    ensures
        IntegrationOperationStatus::of_code(x.code()@) == Some(x),
{
    reveal_strlit("PENDING");
    reveal_strlit("PUBLISHING");
    reveal_strlit("PUBLISHED");
    reveal_strlit("MATERIALIZED");
    reveal_strlit("DEAD_LETTER");
    assert("PENDING"@.len() == 7);
    assert("PUBLISHING"@.len() == 10);
    assert("PUBLISHED"@.len() == 9);
    assert("MATERIALIZED"@.len() == 12);
    assert("DEAD_LETTER"@.len() == 11);
}

/// An integration operation with its first event.
#[derive(Debug)]
pub struct IntegrationOperationView {
    pub operation_id: Uuid,
    pub event_id: Uuid,
    pub event_type: String,
    pub aggregate_type: String,
    pub aggregate_id: Uuid,
    pub status: IntegrationOperationStatus,
    pub attempt_count: i64,
    pub created_at: UtcTime,
    pub published_at: Option<UtcTime>,
    pub materialized_at: Option<UtcTime>,
}

/// The operation that a row holds.
#[verifier::opaque]
pub open spec fn map_operation_spec(
    row: Row,
    operation_id: Uuid,
) -> Result<IntegrationOperationView, HaltView> {
    match row.raw_at(0, READ_ROW@) { Err(h) => Err(h), Ok(event_raw) =>
    match row.raw_at(3, READ_ROW@) { Err(h) => Err(h), Ok(aggregate_raw) =>
    match row.text_at(4, READ_ROW@) { Err(h) => Err(h), Ok(status_text) =>
    match row.opt_text_at(8, READ_ROW@) { Err(h) => Err(h), Ok(materialized) =>
    match IntegrationOperationStatus::of_code(status_text@) {
    None => {
        script::query_fault("unknown integration operation status"@)
    },
    Some(status) =>
    match script::id_of(event_raw@) { Err(h) => Err(h), Ok(event_id) =>
    match row.text_at(1, READ_ROW@) { Err(h) => Err(h), Ok(event_type) =>
    match row.text_at(2, READ_ROW@) { Err(h) => Err(h), Ok(aggregate_type) =>
    match script::id_of(aggregate_raw@) { Err(h) => Err(h), Ok(aggregate_id) =>
    match row.int_at(5, READ_ROW@) { Err(h) => Err(h), Ok(attempt_count) =>
    match row.text_at(6, READ_ROW@) { Err(h) => Err(h), Ok(created) =>
    match script::time_of(
        created@,
        "invalid operation timestamp"@,
    ) { Err(h) => Err(h), Ok(created_at) =>
    match row.opt_text_at(7, READ_ROW@) { Err(h) => Err(h), Ok(published) =>
    match script::opt_time_of(
        published,
        "invalid operation timestamp"@,
    ) { Err(h) => Err(h), Ok(published_at) =>
    match script::opt_time_of(
        materialized,
        "invalid operation timestamp"@,
    ) { Err(h) => Err(h), Ok(materialized_at) =>
    Ok(IntegrationOperationView {
        operation_id,
        event_id,
        event_type,
        aggregate_type,
        aggregate_id,
        status,
        attempt_count,
        created_at,
        published_at,
        materialized_at,
    })
    }}}}}}}}}}}}}}}
}

/// The operation that a row holds.
pub fn map_operation(row: &Row, operation_id: Uuid) -> (r: Result<IntegrationOperationView, Halt>)
    ensures
        script::seen(r) == map_operation_spec(*row, operation_id),
{
    proof {
        reveal(map_operation_spec);
    }
    let event_raw = row.raw(0, READ_ROW)?;
    let aggregate_raw = row.raw(3, READ_ROW)?;
    let status_text = row.text(4, READ_ROW)?;
    let materialized = row.opt_text(8, READ_ROW)?;
    let status = match IntegrationOperationStatus::from_db_value(status_text.as_str()) {
        Some(v) => v,
        None => {
            return Err(script::fail_query("unknown integration operation status"));
        },
    };
    let event_id = script::to_id(event_raw)?;
    let event_type = row.text(1, READ_ROW)?;
    let aggregate_type = row.text(2, READ_ROW)?;
    let aggregate_id = script::to_id(aggregate_raw)?;
    let attempt_count: i64 = row.number(5, READ_ROW)?;
    let created = row.text(6, READ_ROW)?;
    let created_at = script::to_time(created.as_str(), "invalid operation timestamp")?;
    let published = row.opt_text(7, READ_ROW)?;
    let published_at = script::to_opt_time(&published, "invalid operation timestamp")?;
    let materialized_at = script::to_opt_time(&materialized, "invalid operation timestamp")?;
    Ok(IntegrationOperationView {
        operation_id,
        event_id,
        event_type,
        aggregate_type,
        aggregate_id,
        status,
        attempt_count,
        created_at,
        published_at,
        materialized_at,
    })
}

/// An integration operation with its first event, where there is one.
pub open spec fn get_integration_operation_spec(
    st: RunView,
    operation_id: Uuid,
) -> (Result<Option<IntegrationOperationView>, HaltView>, RunView) {
    match script::first_row_spec(
        st,
        OPERATION_SQL@,
        seq![Bind::Id(operation_id)],
        "rttrtitTT",
        "failed to fetch integration operation"@,
        "failed to read integration operation"@,
    ) { (Err(h), st) => (Err(h), st), (Ok(found), st) =>
    match found {
    None => {
        (Ok(None), st)
    },
    Some(row) =>
    match map_operation_spec(row, operation_id) { Err(h) => (Err(h), st), Ok(operation) =>
    (Ok(Some(operation)), st)
    }}}
}

impl OracleRepository {
    /// An integration operation with its first event, where there is one.
    pub fn get_integration_operation(
        s: &mut Session,
        operation_id: Uuid,
    ) -> (r: Result<Option<IntegrationOperationView>, Halt>)
        ensures
            (script::seen(r), final(s)@) == get_integration_operation_spec(old(s)@, operation_id),
    {
        let found = script::first_row(
            s,
            OPERATION_SQL,
            binds::binds1(Bind::Id(operation_id)),
            "rttrtitTT",
            "failed to fetch integration operation",
            "failed to read integration operation",
        )?;
        let row = match found {
            Some(v) => v,
            None => {
                return Ok(None);
            },
        };
        let operation = map_operation(row, operation_id)?;
        Ok(Some(operation))
    }
}

/// An operation is looked for by its identifier, and none is answered exactly where there is no
/// row.
pub proof fn operation_is_looked_for_by_its_identifier(st: RunView, operation_id: Uuid)
    requires
        st.rest.len() > 0,
        st.rest[0] matches script::Reply::Rows(found) && found.failure is None,
    ensures
        ({
            let (found, after) = get_integration_operation_spec(st, operation_id);
            &&& st.rest[0] matches script::Reply::Rows(rows)
            &&& (found matches Ok(None)) <==> rows.rows@.len() == 0
            &&& after.log == st.log.push(
                script::sql_call(
                    script::Mode::Query,
                    OPERATION_SQL@,
                    seq![Bind::Id(operation_id)],
                    "rttrtitTT",
                ),
            )
        }),
{
}

/// Each value is read from its own column: the operation that a row holds.
#[verifier::rlimit(60)]
pub proof fn map_operation_is_read_by_column(
    row: Row,
    operation_id: Uuid,
)
    ensures
        map_operation_spec(row, operation_id) matches Ok(read) ==> {
            &&& read.operation_id == operation_id
            &&& read.event_id == row.id_at(0, READ_ROW@)->Ok_0
            &&& read.event_type == row.text_at(1, READ_ROW@)->Ok_0
            &&& read.aggregate_type == row.text_at(2, READ_ROW@)->Ok_0
            &&& read.aggregate_id == row.id_at(3, READ_ROW@)->Ok_0
            &&& read.status == (
                IntegrationOperationStatus::of_code(row.text_at(4, READ_ROW@)->Ok_0@)
            )->Some_0
            &&& read.attempt_count == row.int_at(5, READ_ROW@)->Ok_0
            &&& read.created_at == script::time_of(
                row.text_at(6, READ_ROW@)->Ok_0@,
                "invalid operation timestamp"@,
            )->Ok_0
            &&& read.published_at == script::opt_time_of(
                row.opt_text_at(7, READ_ROW@)->Ok_0,
                "invalid operation timestamp"@,
            )->Ok_0
            &&& read.materialized_at == script::opt_time_of(
                row.opt_text_at(8, READ_ROW@)->Ok_0,
                "invalid operation timestamp"@,
            )->Ok_0
        },
{
    reveal(map_operation_spec);
}

/// What is asked first, and with which values, in a run that does this:
/// an integration operation with its first event, where there is one.
pub proof fn get_integration_operation_asks_first(
    st: RunView,
    operation_id: Uuid,
)
    requires
        st.rest.len() == 0,
    ensures
        get_integration_operation_spec(st, operation_id).0 matches Err(HaltView::Ask(asked))
            && (
                asked matches script::CallView::Sql { sql, binds, .. } && sql == OPERATION_SQL@
                    && binds == seq![Bind::Id(operation_id)]
            ),
{
}

} // verus!
