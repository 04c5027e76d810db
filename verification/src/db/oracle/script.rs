//! Database work as scripts.
//!
//! A script is a function of a command and of a transcript: the replies that its calls have
//! received so far. It returns its result, an error, or the next call to make. Whoever runs it
//! makes that call, appends the reply and runs it again, so every decision, every statement and
//! every bind value is settled here, and nothing here reaches a database.
//!
//! Each script `op` has a twin `op_spec`, a function of the run so far that gives the result and
//! the run afterwards; the contract of `op` is that the two agree. A twin makes its steps by
//! nested `match` expressions. They are written one below the other, like the statements of the
//! script, and close together at the end.
use vstd::prelude::*;
use crate::db::error;
use crate::db::error::{DbError, DbErrorView};
use crate::db::oracle::consult::{Answer, Attachment, AttachmentView, Rule};
use crate::db::oracle::document::Document;
use crate::db::oracle::types;
use crate::db::oracle::types::raw16_to_uuid;
use crate::domain::user_card::PolicyUsageAccountIds;
use crate::time::UtcTime;
use crate::uuid::Uuid;

verus! {

/// How a statement is run: for all its rows, for exactly one row, or for its row count. A commit
/// has no statement.
#[derive(Clone, Copy, Debug, PartialEq, Eq, Structural)]
pub enum Mode {
    Query,
    QueryRow,
    Execute,
    Commit,
}

/// A value bound to a statement, described by what it stands for.
pub enum Bind {
    /// An identifier as sixteen raw bytes.
    Id(Uuid),
    /// An identifier as sixteen raw bytes, or NULL.
    OptId(Option<Uuid>),
    /// An identifier in its hyphenated notation.
    IdText(Uuid),
    /// A text.
    Text(String),
    /// A text, or NULL.
    OptText(Option<String>),
    /// A text without the white space around it.
    Trimmed(String),
    /// A fixed text.
    Label(&'static str),
    /// A fixed text, or NULL.
    OptLabel(Option<&'static str>),
    /// A number.
    Int(i64),
    /// A number, or NULL.
    OptInt(Option<i64>),
    /// A number that is not negative.
    Unsigned(u64),
    /// One for true, zero for false.
    Flag(bool),
    /// An instant with milliseconds and `Z`.
    Time(UtcTime),
    /// An instant with milliseconds and `Z`, or NULL.
    OptTime(Option<UtcTime>),
    /// An instant with milliseconds and a zero offset.
    OffsetTime(UtcTime),
    /// An instant in RFC 3339 notation.
    Rfc3339Time(UtcTime),
    /// The SHA-256 digest of a text in hexadecimal.
    Digest(String),
    /// A JSON document.
    Json(Document),
    /// A JSON document that is held as a text.
    JsonText(String),
    /// A JSON document that is held as a text, or NULL.
    OptJsonText(Option<String>),
    /// A fixed prefix, an identifier's digits and a fixed suffix.
    Named(&'static str, Uuid, &'static str),
    /// A fixed prefix, an identifier in its hyphenated notation and a fixed suffix.
    Path(&'static str, Uuid, &'static str),
}

/// A statement, its bind values and the shape of the rows it yields.
///
/// `names` lists the bind names in order, separated by commas, and is empty where binds go by
/// position. `columns` holds one letter per column: `r` raw bytes, `t` text, `i` a number, `n` a
/// number of 32 bits, in upper case where the column may be NULL. `limit` is the number of rows
/// after which reading stops.
pub struct SqlCall {
    pub mode: Mode,
    pub sql: String,
    pub names: &'static str,
    pub binds: Vec<Bind>,
    pub columns: &'static str,
    pub limit: Option<u64>,
}

/// A call that a script waits for.
pub enum Call {
    /// A statement to run.
    Sql(SqlCall),
    /// A rule or an encoding that is held outside this library, with the list it works on.
    Consult(Rule, Attachment),
}

/// A call as plain values.
pub enum CallView {
    Sql {
        mode: Mode,
        sql: Seq<char>,
        names: &'static str,
        binds: Seq<Bind>,
        columns: &'static str,
        limit: Option<u64>,
    },
    Consult(Rule, AttachmentView),
}

impl View for Call {
    type V = CallView;

    open spec fn view(&self) -> CallView {
        match self {
            Call::Sql(c) => CallView::Sql {
                mode: c.mode,
                sql: c.sql@,
                names: c.names,
                binds: c.binds@,
                columns: c.columns,
                limit: c.limit,
            },
            Call::Consult(rule, attachment) => CallView::Consult(*rule, attachment@),
        }
    }
}

/// One value of a row.
pub enum Cell {
    Null,
    Raw(Vec<u8>),
    Text(String),
    Int(i64),
    /// The driver's error where the value could not be read as its column's type.
    Unreadable(String),
}

/// A row of a result.
pub struct Row {
    pub cells: Vec<Cell>,
}

/// The rows of a result in order, and the driver's error where reading stopped on one.
pub struct Rows {
    pub rows: Vec<Row>,
    pub failure: Option<String>,
}

/// The driver's error for a call that failed, and whether it says that there was no row.
pub struct Failure {
    pub text: String,
    pub no_data: bool,
}

/// What came back of a call.
pub enum Reply {
    Rows(Rows),
    /// The statement ran; its row count, or the driver's error when asked for it.
    Executed(Result<u64, String>),
    Failed(Failure),
    Answer(Answer),
}

/// Why a script stopped short of its result: it waits for a call, or it failed.
pub enum Halt {
    Ask(Call),
    Fail(DbError),
}

/// A halt as plain values.
pub enum HaltView {
    Ask(CallView),
    Fail(DbErrorView),
}

impl View for Halt {
    type V = HaltView;

    open spec fn view(&self) -> HaltView {
        match self {
            Halt::Ask(c) => HaltView::Ask(c@),
            Halt::Fail(e) => HaltView::Fail(e@),
        }
    }
}

/// The message where a reply is not of the kind that its call asks for.
pub const UNEXPECTED_REPLY: &'static str = "reply does not answer the call";

/// The message where a row holds no value of the expected type.
pub const UNEXPECTED_CELL: &'static str = "column does not hold the expected type";

/// A result with its halt as plain values.
pub open spec fn seen<T>(r: Result<T, Halt>) -> Result<T, HaltView> {
    match r {
        Ok(v) => Ok(v),
        Err(h) => Err(h@),
    }
}

/// A result held by reference, with its halt as plain values.
pub open spec fn seen_ref<T>(r: Result<&T, Halt>) -> Result<T, HaltView> {
    match r {
        Ok(v) => Ok(*v),
        Err(h) => Err(h@),
    }
}

/// An optional result held by reference, with its halt as plain values.
pub open spec fn seen_opt_ref<T>(r: Result<Option<&T>, Halt>) -> Result<Option<T>, HaltView> {
    match r {
        Ok(Some(v)) => Ok(Some(*v)),
        Ok(None) => Ok(None),
        Err(h) => Err(h@),
    }
}

/// A result by its view, with its halt as plain values.
pub open spec fn seen_view<T: View>(r: Result<T, Halt>) -> Result<T::V, HaltView> {
    match r {
        Ok(v) => Ok(v@),
        Err(h) => Err(h@),
    }
}

/// An optional result by its view, with its halt as plain values.
pub open spec fn seen_opt_view<T: View>(r: Result<Option<T>, Halt>) -> Result<
    Option<T::V>,
    HaltView,
> {
    match r {
        Ok(Some(v)) => Ok(Some(v@)),
        Ok(None) => Ok(None),
        Err(h) => Err(h@),
    }
}

/// A failure to do what `context` says, for the reason `cause`.
pub open spec fn failed<T>(context: Seq<char>, cause: Seq<char>) -> Result<T, HaltView> {
    Err(HaltView::Fail(error::query_failure(context, cause)))
}

/// A query error with a fixed message.
pub open spec fn query_fault<T>(message: Seq<char>) -> Result<T, HaltView> {
    Err(HaltView::Fail(DbErrorView::Query(message)))
}

/// A conflict with a fixed message.
pub open spec fn conflict_fault<T>(message: Seq<char>) -> Result<T, HaltView> {
    Err(HaltView::Fail(DbErrorView::Conflict(message)))
}

/// A failure to do what `context` says, for the reason `cause`.
pub fn fail_because(context: &str, cause: &str) -> (r: Halt)
    ensures
        r@ == HaltView::Fail(error::query_failure(context@, cause@)),
{
    Halt::Fail(DbError::query_because(context, cause))
}

/// A query error with a fixed message.
pub fn fail_query(message: &str) -> (r: Halt)
    ensures
        r@ == HaltView::Fail(DbErrorView::Query(message@)),
{
    Halt::Fail(DbError::query(message))
}

/// A conflict with a fixed message.
pub fn fail_conflict(message: &str) -> (r: Halt)
    ensures
        r@ == HaltView::Fail(DbErrorView::Conflict(message@)),
{
    Halt::Fail(DbError::conflict(message))
}

/// A run of a script: the replies it has yet to read and the calls it has made.
pub struct RunView {
    pub rest: Seq<Reply>,
    pub log: Seq<CallView>,
}

/// A transcript being replayed.
pub struct Session<'a> {
    replies: &'a Vec<Reply>,
    at: usize,
    log: Ghost<Seq<CallView>>,
}

impl<'a> View for Session<'a> {
    type V = RunView;

    closed spec fn view(&self) -> RunView {
        RunView {
            rest: if self.at <= self.replies@.len() {
                self.replies@.skip(self.at as int)
            } else {
                Seq::empty()
            },
            log: self.log@,
        }
    }
}

/// A call is answered by the next reply, and is waited for where there is none.
pub open spec fn asked(st: RunView, call: CallView) -> (Result<Reply, HaltView>, RunView) {
    if st.rest.len() == 0 {
        (Err(HaltView::Ask(call)), st)
    } else {
        (Ok(st.rest[0]), RunView { rest: st.rest.skip(1), log: st.log.push(call) })
    }
}

impl<'a> Session<'a> {
    /// A replay of `replies` from the beginning.
    pub fn new(replies: &'a Vec<Reply>) -> (r: Session<'a>)
        ensures
            r@ == (RunView { rest: replies@, log: Seq::<CallView>::empty() }),
    {
        let r = Session { replies, at: 0, log: Ghost(Seq::empty()) };
        assert(r@.rest =~= replies@);
        r
    }

    /// Whether every reply has been read.
    pub fn is_exhausted(&self) -> (r: bool)
        ensures
            r == (self@.rest.len() == 0),
    {
        self.at >= self.replies.len()
    }

    fn ask(&mut self, call: Call) -> (r: Result<&'a Reply, Halt>)
        ensures
            (seen_ref(r), final(self)@) == asked(old(self)@, call@),
    {
        if self.at >= self.replies.len() {
            return Err(Halt::Ask(call));
        }
        let reply: &'a Reply = &self.replies[self.at];
        proof {
            self.log@ = self.log@.push(call@);
        }
        self.at = self.at + 1;
        assert(self@.rest =~= old(self)@.rest.skip(1));
        Ok(reply)
    }
}

/// A call may change what the database holds.
pub open spec fn is_write(call: CallView) -> bool {
    match call {
        CallView::Sql { mode, .. } => mode == Mode::Execute || mode == Mode::Commit,
        CallView::Consult(_, _) => false,
    }
}

/// How many of the calls may change what the database holds.
pub open spec fn writes(log: Seq<CallView>) -> nat
    decreases log.len(),
{
    if log.len() == 0 {
        0
    } else if is_write(log.last()) {
        writes(log.drop_last()) + 1
    } else {
        writes(log.drop_last())
    }
}

/// Another call counts where it may change what the database holds.
pub broadcast proof fn writes_with_another(log: Seq<CallView>, call: CallView)
    ensures
        #[trigger] writes(log.push(call)) == writes(log) + if is_write(call) {
            1nat
        } else {
            0nat
        },
{
    assert(log.push(call).drop_last() =~= log);
}

/// How many of the calls may change what the database holds, beside runs of the spared statements.
pub open spec fn writes_beside(log: Seq<CallView>, spared: Set<Seq<char>>) -> nat
    decreases log.len(),
{
    if log.len() == 0 {
        0
    } else if is_write_beside(log.last(), spared) {
        writes_beside(log.drop_last(), spared) + 1
    } else {
        writes_beside(log.drop_last(), spared)
    }
}

/// A call may change what the database holds and does not run a spared statement.
pub open spec fn is_write_beside(call: CallView, spared: Set<Seq<char>>) -> bool {
    match call {
        CallView::Sql { mode, sql, .. } => mode == Mode::Commit || (mode == Mode::Execute
            && !spared.contains(sql)),
        CallView::Consult(_, _) => false,
    }
}

/// Another call counts where it may change what the database holds and does not run a spared
/// statement.
pub broadcast proof fn writes_beside_with_another(
    log: Seq<CallView>,
    call: CallView,
    spared: Set<Seq<char>>,
)
    ensures
        #[trigger] writes_beside(log.push(call), spared) == writes_beside(log, spared)
            + if is_write_beside(call, spared) {
            1nat
        } else {
            0nat
        },
{
    assert(log.push(call).drop_last() =~= log);
}

/// How many of the calls run a statement to change what the database holds.
pub open spec fn runs(log: Seq<CallView>, sql: Seq<char>) -> nat
    decreases log.len(),
{
    if log.len() == 0 {
        0
    } else if is_run_of(log.last(), sql) {
        runs(log.drop_last(), sql) + 1
    } else {
        runs(log.drop_last(), sql)
    }
}

/// A call runs a statement to change what the database holds.
pub open spec fn is_run_of(call: CallView, statement: Seq<char>) -> bool {
    match call {
        CallView::Sql { mode, sql, .. } => mode == Mode::Execute && sql == statement,
        CallView::Consult(_, _) => false,
    }
}

/// Another call counts where it runs the statement.
pub broadcast proof fn runs_with_another(log: Seq<CallView>, call: CallView, sql: Seq<char>)
    ensures
        #[trigger] runs(log.push(call), sql) == runs(log, sql) + if is_run_of(call, sql) {
            1nat
        } else {
            0nat
        },
{
    assert(log.push(call).drop_last() =~= log);
}

/// How many of the calls ask this, with nothing that comes along.
pub open spec fn asks(log: Seq<CallView>, rule: Rule) -> nat
    decreases log.len(),
{
    if log.len() == 0 {
        0
    } else if log.last() == CallView::Consult(rule, AttachmentView::Nothing) {
        asks(log.drop_last(), rule) + 1
    } else {
        asks(log.drop_last(), rule)
    }
}

/// Another call counts where it asks this.
pub broadcast proof fn asks_with_another(log: Seq<CallView>, call: CallView, rule: Rule)
    ensures
        #[trigger] asks(log.push(call), rule) == asks(log, rule) + if call == CallView::Consult(
            rule,
            AttachmentView::Nothing,
        ) {
            1nat
        } else {
            0nat
        },
{
    assert(log.push(call).drop_last() =~= log);
}

/// How many of the calls run a statement with these binds to change what the database holds.
pub open spec fn runs_on(log: Seq<CallView>, sql: Seq<char>, binds: Seq<Bind>) -> nat
    decreases log.len(),
{
    if log.len() == 0 {
        0
    } else if log.last() == sql_call(Mode::Execute, sql, binds, "") {
        runs_on(log.drop_last(), sql, binds) + 1
    } else {
        runs_on(log.drop_last(), sql, binds)
    }
}

/// Another call counts where it runs the statement with these binds.
pub broadcast proof fn runs_on_with_another(
    log: Seq<CallView>,
    call: CallView,
    sql: Seq<char>,
    binds: Seq<Bind>,
)
    ensures
        #[trigger] runs_on(log.push(call), sql, binds) == runs_on(log, sql, binds) + if call
            == sql_call(Mode::Execute, sql, binds, "") {
            1nat
        } else {
            0nat
        },
{
    assert(log.push(call).drop_last() =~= log);
}

/// A run of a statement with these binds to change what the database holds.
pub open spec fn change(sql: Seq<char>, binds: Seq<Bind>) -> CallView {
    sql_call(Mode::Execute, sql, binds, "")
}

/// A statement was run with these binds to change what the database holds.
pub open spec fn ran(log: Seq<CallView>, sql: Seq<char>, binds: Seq<Bind>) -> bool {
    runs_on(log, sql, binds) > 0
}

/// With which binds a statement was run to change what the database holds, in order.
pub open spec fn told(log: Seq<CallView>, sql: Seq<char>) -> Seq<Seq<Bind>>
    decreases log.len(),
{
    if log.len() == 0 {
        Seq::empty()
    } else if is_run_of(log.last(), sql) {
        told(log.drop_last(), sql).push(log.last()->binds)
    } else {
        told(log.drop_last(), sql)
    }
}

/// Another call is told of where it runs the statement.
pub broadcast proof fn told_with_another(log: Seq<CallView>, call: CallView, sql: Seq<char>)
    ensures
        #[trigger] told(log.push(call), sql) == if is_run_of(call, sql) {
            told(log, sql).push(call->binds)
        } else {
            told(log, sql)
        },
{
    assert(log.push(call).drop_last() =~= log);
}

/// How many of the calls run a statement with such binds to change what the database holds.
pub open spec fn told_where(
    log: Seq<CallView>,
    sql: Seq<char>,
    such: spec_fn(Seq<Bind>) -> bool,
) -> nat
    decreases log.len(),
{
    if log.len() == 0 {
        0
    } else if is_run_of(log.last(), sql) && such(log.last()->binds) {
        told_where(log.drop_last(), sql, such) + 1
    } else {
        told_where(log.drop_last(), sql, such)
    }
}

/// Another call counts where it runs the statement with such binds.
pub broadcast proof fn told_where_with_another(
    log: Seq<CallView>,
    call: CallView,
    sql: Seq<char>,
    such: spec_fn(Seq<Bind>) -> bool,
)
    ensures
        #[trigger] told_where(log.push(call), sql, such) == told_where(log, sql, such) + if is_run_of(
            call,
            sql,
        ) && such(call->binds) {
            1nat
        } else {
            0nat
        },
{
    assert(log.push(call).drop_last() =~= log);
}

/// How many of the calls run a statement that stores an event under an operation.
pub open spec fn stored_under(log: Seq<CallView>, sql: Seq<char>, operation_id: Uuid) -> nat
    decreases log.len(),
{
    if log.len() == 0 {
        0
    } else if stores_under(log.last(), sql, operation_id) {
        stored_under(log.drop_last(), sql, operation_id) + 1
    } else {
        stored_under(log.drop_last(), sql, operation_id)
    }
}

/// A call runs a statement that stores an event under an operation. Such a statement takes the
/// operation second, behind the event.
pub open spec fn stores_under(call: CallView, statement: Seq<char>, operation_id: Uuid) -> bool {
    match call {
        CallView::Sql { mode, sql, binds, .. } => mode == Mode::Execute && sql == statement
            && binds.len() > 1 && binds[1] == Bind::Id(operation_id),
        CallView::Consult(_, _) => false,
    }
}

/// Another call counts where it stores an event under the operation.
pub broadcast proof fn stored_under_with_another(
    log: Seq<CallView>,
    call: CallView,
    sql: Seq<char>,
    operation_id: Uuid,
)
    ensures
        #[trigger] stored_under(log.push(call), sql, operation_id) == stored_under(
            log,
            sql,
            operation_id,
        ) + if stores_under(call, sql, operation_id) {
            1nat
        } else {
            0nat
        },
{
    assert(log.push(call).drop_last() =~= log);
}

/// A statement as a call, with binds by position and no limit on rows.
pub open spec fn sql_call(
    mode: Mode,
    sql: Seq<char>,
    binds: Seq<Bind>,
    columns: &'static str,
) -> CallView {
    CallView::Sql { mode, sql, names: "", binds, columns, limit: None }
}

fn statement(mode: Mode, text: &str, binds: Vec<Bind>, columns: &'static str) -> (r: Call)
    ensures
        r@ == sql_call(mode, text@, binds@, columns),
{
    Call::Sql(SqlCall { mode, sql: text.to_owned(), names: "", binds, columns, limit: None })
}

/// The rows that a call yields.
pub open spec fn rows_of(
    st: RunView,
    call: CallView,
    context: Seq<char>,
) -> (Result<Rows, HaltView>, RunView) {
    match asked(st, call) {
        (Err(h), st) => (Err(h), st),
        (Ok(Reply::Rows(rows)), st) => (Ok(rows), st),
        (Ok(Reply::Failed(f)), st) => (failed(context, f.text@), st),
        (Ok(_), st) => (failed(context, UNEXPECTED_REPLY@), st),
    }
}

fn ask_rows<'a>(s: &mut Session<'a>, call: Call, context: &str) -> (r: Result<&'a Rows, Halt>)
    ensures
        (seen_ref(r), final(s)@) == rows_of(old(s)@, call@, context@),
{
    match s.ask(call)? {
        Reply::Rows(rows) => Ok(rows),
        Reply::Failed(f) => Err(fail_because(context, f.text.as_str())),
        _ => Err(fail_because(context, UNEXPECTED_REPLY)),
    }
}

/// Runs a query and yields its rows.
pub open spec fn rows_spec(
    st: RunView,
    text: Seq<char>,
    binds: Seq<Bind>,
    columns: &'static str,
    context: Seq<char>,
) -> (Result<Rows, HaltView>, RunView) {
    rows_of(st, sql_call(Mode::Query, text, binds, columns), context)
}

/// Runs a query and yields its rows.
pub fn rows<'a>(
    s: &mut Session<'a>,
    text: &str,
    binds: Vec<Bind>,
    columns: &'static str,
    context: &str,
) -> (r: Result<&'a Rows, Halt>)
    ensures
        (seen_ref(r), final(s)@) == rows_spec(old(s)@, text@, binds@, columns, context@),
{
    ask_rows(s, statement(Mode::Query, text, binds, columns), context)
}

/// Runs a query with named binds and yields its rows.
pub open spec fn named_rows_spec(
    st: RunView,
    text: Seq<char>,
    names: &'static str,
    binds: Seq<Bind>,
    columns: &'static str,
    context: Seq<char>,
) -> (Result<Rows, HaltView>, RunView) {
    rows_of(
        st,
        CallView::Sql { mode: Mode::Query, sql: text, names, binds, columns, limit: None },
        context,
    )
}

/// Runs a query with named binds and yields its rows.
pub fn named_rows<'a>(
    s: &mut Session<'a>,
    text: &str,
    names: &'static str,
    binds: Vec<Bind>,
    columns: &'static str,
    context: &str,
) -> (r: Result<&'a Rows, Halt>)
    ensures
        (seen_ref(r), final(s)@) == named_rows_spec(
            old(s)@,
            text@,
            names,
            binds@,
            columns,
            context@,
        ),
{
    let call = Call::Sql(
        SqlCall { mode: Mode::Query, sql: text.to_owned(), names, binds, columns, limit: None },
    );
    ask_rows(s, call, context)
}

/// Runs a query and yields its first rows, at most `limit` of them.
pub open spec fn limited_rows_spec(
    st: RunView,
    text: Seq<char>,
    binds: Seq<Bind>,
    columns: &'static str,
    limit: u64,
    context: Seq<char>,
) -> (Result<Rows, HaltView>, RunView) {
    rows_of(
        st,
        CallView::Sql {
            mode: Mode::Query,
            sql: text,
            names: "",
            binds,
            columns,
            limit: Some(limit),
        },
        context,
    )
}

/// Runs a query and yields its first rows, at most `limit` of them.
pub fn limited_rows<'a>(
    s: &mut Session<'a>,
    text: &str,
    binds: Vec<Bind>,
    columns: &'static str,
    limit: u64,
    context: &str,
) -> (r: Result<&'a Rows, Halt>)
    ensures
        (seen_ref(r), final(s)@) == limited_rows_spec(
            old(s)@,
            text@,
            binds@,
            columns,
            limit,
            context@,
        ),
{
    let call = Call::Sql(
        SqlCall {
            mode: Mode::Query,
            sql: text.to_owned(),
            names: "",
            binds,
            columns,
            limit: Some(limit),
        },
    );
    ask_rows(s, call, context)
}

/// Runs a query and yields its first row, where there is one.
pub open spec fn first_row_spec(
    st: RunView,
    text: Seq<char>,
    binds: Seq<Bind>,
    columns: &'static str,
    context: Seq<char>,
    read_context: Seq<char>,
) -> (Result<Option<Row>, HaltView>, RunView) {
    match rows_spec(st, text, binds, columns, context) {
        (Err(h), st) => (Err(h), st),
        (Ok(found), st) => (
            if found.rows@.len() > 0 {
                Ok(Some(found.rows@[0]))
            } else if found.failure is Some {
                failed(read_context, found.failure->Some_0@)
            } else {
                Ok(None)
            },
            st,
        ),
    }
}

/// Runs a query and yields its first row, where there is one.
pub fn first_row<'a>(
    s: &mut Session<'a>,
    text: &str,
    binds: Vec<Bind>,
    columns: &'static str,
    context: &str,
    read_context: &str,
) -> (r: Result<Option<&'a Row>, Halt>)
    ensures
        (seen_opt_ref(r), final(s)@) == first_row_spec(
            old(s)@,
            text@,
            binds@,
            columns,
            context@,
            read_context@,
        ),
{
    let found = rows(s, text, binds, columns, context)?;
    if found.rows.len() > 0 {
        return Ok(Some(&found.rows[0]));
    }
    match &found.failure {
        Some(cause) => Err(fail_because(read_context, cause.as_str())),
        None => Ok(None),
    }
}

/// Runs a query for exactly one row. No row is reported as `None`.
pub open spec fn maybe_row_spec(
    st: RunView,
    text: Seq<char>,
    binds: Seq<Bind>,
    columns: &'static str,
    context: Seq<char>,
) -> (Result<Option<Row>, HaltView>, RunView) {
    match asked(st, sql_call(Mode::QueryRow, text, binds, columns)) {
        (Err(h), st) => (Err(h), st),
        (Ok(Reply::Rows(found)), st) => (
            if found.rows@.len() > 0 {
                Ok(Some(found.rows@[0]))
            } else {
                failed(context, UNEXPECTED_REPLY@)
            },
            st,
        ),
        (Ok(Reply::Failed(f)), st) => (
            if f.no_data {
                Ok(None)
            } else {
                failed(context, f.text@)
            },
            st,
        ),
        (Ok(_), st) => (failed(context, UNEXPECTED_REPLY@), st),
    }
}

/// Runs a query for exactly one row. No row is reported as `None`.
pub fn maybe_row<'a>(
    s: &mut Session<'a>,
    text: &str,
    binds: Vec<Bind>,
    columns: &'static str,
    context: &str,
) -> (r: Result<Option<&'a Row>, Halt>)
    ensures
        (seen_opt_ref(r), final(s)@) == maybe_row_spec(old(s)@, text@, binds@, columns, context@),
{
    match s.ask(statement(Mode::QueryRow, text, binds, columns))? {
        Reply::Rows(found) => if found.rows.len() > 0 {
            Ok(Some(&found.rows[0]))
        } else {
            Err(fail_because(context, UNEXPECTED_REPLY))
        },
        Reply::Failed(f) => if f.no_data {
            Ok(None)
        } else {
            Err(fail_because(context, f.text.as_str()))
        },
        _ => Err(fail_because(context, UNEXPECTED_REPLY)),
    }
}

/// Runs a query for exactly one row. No row is a failure.
pub open spec fn one_row_spec(
    st: RunView,
    text: Seq<char>,
    binds: Seq<Bind>,
    columns: &'static str,
    context: Seq<char>,
) -> (Result<Row, HaltView>, RunView) {
    match asked(st, sql_call(Mode::QueryRow, text, binds, columns)) {
        (Err(h), st) => (Err(h), st),
        (Ok(Reply::Rows(found)), st) => (
            if found.rows@.len() > 0 {
                Ok(found.rows@[0])
            } else {
                failed(context, UNEXPECTED_REPLY@)
            },
            st,
        ),
        (Ok(Reply::Failed(f)), st) => (failed(context, f.text@), st),
        (Ok(_), st) => (failed(context, UNEXPECTED_REPLY@), st),
    }
}

/// Runs a query for exactly one row. No row is a failure.
pub fn one_row<'a>(
    s: &mut Session<'a>,
    text: &str,
    binds: Vec<Bind>,
    columns: &'static str,
    context: &str,
) -> (r: Result<&'a Row, Halt>)
    ensures
        (seen_ref(r), final(s)@) == one_row_spec(old(s)@, text@, binds@, columns, context@),
{
    match s.ask(statement(Mode::QueryRow, text, binds, columns))? {
        Reply::Rows(found) => if found.rows.len() > 0 {
            Ok(&found.rows[0])
        } else {
            Err(fail_because(context, UNEXPECTED_REPLY))
        },
        Reply::Failed(f) => Err(fail_because(context, f.text.as_str())),
        _ => Err(fail_because(context, UNEXPECTED_REPLY)),
    }
}

/// Runs a query for exactly one number.
pub open spec fn one_int_spec(
    st: RunView,
    text: Seq<char>,
    binds: Seq<Bind>,
    context: Seq<char>,
) -> (Result<i64, HaltView>, RunView) {
    match one_row_spec(st, text, binds, "i", context) {
        (Err(h), st) => (Err(h), st),
        (Ok(row), st) => (row.int_at(0, context), st),
    }
}

/// Runs a query for exactly one number.
pub fn one_int(s: &mut Session, text: &str, binds: Vec<Bind>, context: &str) -> (r: Result<
    i64,
    Halt,
>)
    ensures
        (seen(r), final(s)@) == one_int_spec(old(s)@, text@, binds@, context@),
{
    let row = one_row(s, text, binds, "i", context)?;
    row.number(0, context)
}

/// Runs a query for exactly one number of 32 bits.
pub open spec fn one_small_spec(
    st: RunView,
    text: Seq<char>,
    binds: Seq<Bind>,
    context: Seq<char>,
) -> (Result<i64, HaltView>, RunView) {
    match one_row_spec(st, text, binds, "n", context) {
        (Err(h), st) => (Err(h), st),
        (Ok(row), st) => (row.small_at(0, context), st),
    }
}

/// Runs a query for exactly one number of 32 bits.
pub fn one_small(s: &mut Session, text: &str, binds: Vec<Bind>, context: &str) -> (r: Result<
    i64,
    Halt,
>)
    ensures
        (seen(r), final(s)@) == one_small_spec(old(s)@, text@, binds@, context@),
{
    let row = one_row(s, text, binds, "n", context)?;
    row.small(0, context)
}

/// Runs a query for exactly one text.
pub open spec fn one_text_spec(
    st: RunView,
    text: Seq<char>,
    binds: Seq<Bind>,
    context: Seq<char>,
) -> (Result<String, HaltView>, RunView) {
    match one_row_spec(st, text, binds, "t", context) {
        (Err(h), st) => (Err(h), st),
        (Ok(row), st) => (row.text_at(0, context), st),
    }
}

/// Runs a query for exactly one text.
pub fn one_text(s: &mut Session, text: &str, binds: Vec<Bind>, context: &str) -> (r: Result<
    String,
    Halt,
>)
    ensures
        (seen(r), final(s)@) == one_text_spec(old(s)@, text@, binds@, context@),
{
    let row = one_row(s, text, binds, "t", context)?;
    row.text(0, context)
}

/// Runs a query for one text. No row is reported as `None`.
pub open spec fn maybe_text_spec(
    st: RunView,
    text: Seq<char>,
    binds: Seq<Bind>,
    context: Seq<char>,
) -> (Result<Option<String>, HaltView>, RunView) {
    match maybe_row_spec(st, text, binds, "t", context) {
        (Err(h), st) => (Err(h), st),
        (Ok(None), st) => (Ok(None), st),
        (Ok(Some(row)), st) => (
            match row.text_at(0, context) {
                Ok(t) => Ok(Some(t)),
                Err(h) => Err(h),
            },
            st,
        ),
    }
}

/// Runs a query for one text. No row is reported as `None`.
pub fn maybe_text(s: &mut Session, text: &str, binds: Vec<Bind>, context: &str) -> (r: Result<
    Option<String>,
    Halt,
>)
    ensures
        (seen(r), final(s)@) == maybe_text_spec(old(s)@, text@, binds@, context@),
{
    match maybe_row(s, text, binds, "t", context)? {
        None => Ok(None),
        Some(row) => Ok(Some(row.text(0, context)?)),
    }
}

/// Runs a query for one identifier. No row is reported as `None`.
pub open spec fn maybe_id_spec(
    st: RunView,
    text: Seq<char>,
    binds: Seq<Bind>,
    context: Seq<char>,
) -> (Result<Option<Uuid>, HaltView>, RunView) {
    match maybe_row_spec(st, text, binds, "r", context) {
        (Err(h), st) => (Err(h), st),
        (Ok(None), st) => (Ok(None), st),
        (Ok(Some(row)), st) => (
            match row.id_at(0, context) {
                Ok(id) => Ok(Some(id)),
                Err(h) => Err(h),
            },
            st,
        ),
    }
}

/// Runs a query for one identifier. No row is reported as `None`.
pub fn maybe_id(s: &mut Session, text: &str, binds: Vec<Bind>, context: &str) -> (r: Result<
    Option<Uuid>,
    Halt,
>)
    ensures
        (seen(r), final(s)@) == maybe_id_spec(old(s)@, text@, binds@, context@),
{
    match maybe_row(s, text, binds, "r", context)? {
        None => Ok(None),
        Some(row) => Ok(Some(row.id(0, context)?)),
    }
}

/// Runs a statement for its effect.
pub open spec fn execute_spec(
    st: RunView,
    text: Seq<char>,
    binds: Seq<Bind>,
    context: Seq<char>,
) -> (Result<(), HaltView>, RunView) {
    match asked(st, sql_call(Mode::Execute, text, binds, "")) {
        (Err(h), st) => (Err(h), st),
        (Ok(Reply::Executed(_)), st) => (Ok(()), st),
        (Ok(Reply::Failed(f)), st) => (failed(context, f.text@), st),
        (Ok(_), st) => (failed(context, UNEXPECTED_REPLY@), st),
    }
}

/// Runs a statement for its effect.
pub fn execute(s: &mut Session, text: &str, binds: Vec<Bind>, context: &str) -> (r: Result<
    (),
    Halt,
>)
    ensures
        (seen(r), final(s)@) == execute_spec(old(s)@, text@, binds@, context@),
{
    match s.ask(statement(Mode::Execute, text, binds, ""))? {
        Reply::Executed(_) => Ok(()),
        Reply::Failed(f) => Err(fail_because(context, f.text.as_str())),
        _ => Err(fail_because(context, UNEXPECTED_REPLY)),
    }
}

/// Runs a statement and tells how many rows it touched.
pub open spec fn execute_count_spec(
    st: RunView,
    text: Seq<char>,
    binds: Seq<Bind>,
    context: Seq<char>,
    count_context: Seq<char>,
) -> (Result<u64, HaltView>, RunView) {
    match asked(st, sql_call(Mode::Execute, text, binds, "")) {
        (Err(h), st) => (Err(h), st),
        (Ok(Reply::Executed(Ok(n))), st) => (Ok(n), st),
        (Ok(Reply::Executed(Err(e))), st) => (failed(count_context, e@), st),
        (Ok(Reply::Failed(f)), st) => (failed(context, f.text@), st),
        (Ok(_), st) => (failed(context, UNEXPECTED_REPLY@), st),
    }
}

/// Runs a statement and tells how many rows it touched.
pub fn execute_count(
    s: &mut Session,
    text: &str,
    binds: Vec<Bind>,
    context: &str,
    count_context: &str,
) -> (r: Result<u64, Halt>)
    ensures
        (seen(r), final(s)@) == execute_count_spec(
            old(s)@,
            text@,
            binds@,
            context@,
            count_context@,
        ),
{
    match s.ask(statement(Mode::Execute, text, binds, ""))? {
        Reply::Executed(Ok(n)) => Ok(*n),
        Reply::Executed(Err(e)) => Err(fail_because(count_context, e.as_str())),
        Reply::Failed(f) => Err(fail_because(context, f.text.as_str())),
        _ => Err(fail_because(context, UNEXPECTED_REPLY)),
    }
}

/// Runs a statement whose row count is looked at later.
pub open spec fn execute_later_spec(
    st: RunView,
    text: Seq<char>,
    binds: Seq<Bind>,
    context: Seq<char>,
) -> (Result<Result<u64, String>, HaltView>, RunView) {
    match asked(st, sql_call(Mode::Execute, text, binds, "")) {
        (Err(h), st) => (Err(h), st),
        (Ok(Reply::Executed(count)), st) => (Ok(count), st),
        (Ok(Reply::Failed(f)), st) => (failed(context, f.text@), st),
        (Ok(_), st) => (failed(context, UNEXPECTED_REPLY@), st),
    }
}

/// Runs a statement whose row count is looked at later.
pub fn execute_later<'a>(
    s: &mut Session<'a>,
    text: &str,
    binds: Vec<Bind>,
    context: &str,
) -> (r: Result<
    &'a Result<u64, String>,
    Halt,
>)
    ensures
        (seen_ref(r), final(s)@) == execute_later_spec(old(s)@, text@, binds@, context@),
{
    match s.ask(statement(Mode::Execute, text, binds, ""))? {
        Reply::Executed(count) => Ok(count),
        Reply::Failed(f) => Err(fail_because(context, f.text.as_str())),
        _ => Err(fail_because(context, UNEXPECTED_REPLY)),
    }
}

/// Commits what was done so far.
pub open spec fn commit_spec(st: RunView, context: Seq<char>) -> (Result<(), HaltView>, RunView) {
    match asked(st, sql_call(Mode::Commit, ""@, Seq::empty(), "")) {
        (Err(h), st) => (Err(h), st),
        (Ok(Reply::Executed(_)), st) => (Ok(()), st),
        (Ok(Reply::Failed(f)), st) => (failed(context, f.text@), st),
        (Ok(_), st) => (failed(context, UNEXPECTED_REPLY@), st),
    }
}

/// Commits what was done so far.
pub fn commit(s: &mut Session, context: &str) -> (r: Result<(), Halt>)
    ensures
        (seen(r), final(s)@) == commit_spec(old(s)@, context@),
{
    let none: Vec<Bind> = Vec::new();
    assert(none@ =~= Seq::empty());
    match s.ask(statement(Mode::Commit, "", none, ""))? {
        Reply::Executed(_) => Ok(()),
        Reply::Failed(f) => Err(fail_because(context, f.text.as_str())),
        _ => Err(fail_because(context, UNEXPECTED_REPLY)),
    }
}

/// Runs a statement and hands over what came back of it, for callers that tell errors apart.
pub open spec fn attempt_spec(st: RunView, text: Seq<char>, binds: Seq<Bind>) -> (
    Result<Reply, HaltView>,
    RunView,
) {
    asked(st, sql_call(Mode::Execute, text, binds, ""))
}

/// Runs a statement and hands over what came back of it, for callers that tell errors apart.
pub fn attempt<'a>(s: &mut Session<'a>, text: &str, binds: Vec<Bind>) -> (r: Result<
    &'a Reply,
    Halt,
>)
    ensures
        (seen_ref(r), final(s)@) == attempt_spec(old(s)@, text@, binds@),
{
    s.ask(statement(Mode::Execute, text, binds, ""))
}

/// Runs a query for exactly one row and hands over what came back of it.
pub open spec fn attempt_row_spec(
    st: RunView,
    text: Seq<char>,
    binds: Seq<Bind>,
    columns: &'static str,
) -> (Result<Reply, HaltView>, RunView) {
    asked(st, sql_call(Mode::QueryRow, text, binds, columns))
}

/// Runs a query for exactly one row and hands over what came back of it.
pub fn attempt_row<'a>(
    s: &mut Session<'a>,
    text: &str,
    binds: Vec<Bind>,
    columns: &'static str,
) -> (r: Result<&'a Reply, Halt>)
    ensures
        (seen_ref(r), final(s)@) == attempt_row_spec(old(s)@, text@, binds@, columns),
{
    s.ask(statement(Mode::QueryRow, text, binds, columns))
}

/// Asks for the answer of a rule that is held outside, with the list it works on.
pub open spec fn consult_with_spec(
    st: RunView,
    rule: Rule,
    attachment: AttachmentView,
) -> (Result<Answer, HaltView>, RunView) {
    match asked(st, CallView::Consult(rule, attachment)) {
        (Err(h), st) => (Err(h), st),
        (Ok(Reply::Answer(answer)), st) => (Ok(answer), st),
        (Ok(_), st) => (query_fault(UNEXPECTED_REPLY@), st),
    }
}

/// Asks for the answer of a rule that is held outside, with the list it works on.
pub fn consult_with<'a>(
    s: &mut Session<'a>,
    rule: Rule,
    attachment: Attachment,
) -> (r: Result<&'a Answer, Halt>)
    ensures
        (seen_ref(r), final(s)@) == consult_with_spec(old(s)@, rule, attachment@),
{
    match s.ask(Call::Consult(rule, attachment))? {
        Reply::Answer(answer) => Ok(answer),
        _ => Err(fail_query(UNEXPECTED_REPLY)),
    }
}

/// Asks for the answer of a rule that is held outside.
pub open spec fn consult_spec(st: RunView, rule: Rule) -> (Result<Answer, HaltView>, RunView) {
    consult_with_spec(st, rule, AttachmentView::Nothing)
}

/// Asks for the answer of a rule that is held outside.
pub fn consult<'a>(s: &mut Session<'a>, rule: Rule) -> (r: Result<&'a Answer, Halt>)
    ensures
        (seen_ref(r), final(s)@) == consult_spec(old(s)@, rule),
{
    consult_with(s, rule, Attachment::Nothing)
}

/// Asks for a text that a rule held outside always gives, with the list it works on.
pub open spec fn consult_text_with_spec(st: RunView, rule: Rule, attachment: AttachmentView) -> (
    Result<String, HaltView>,
    RunView,
) {
    match consult_with_spec(st, rule, attachment) {
        (Err(h), st) => (Err(h), st),
        (Ok(Answer::Text(Ok(t))), st) => (Ok(t), st),
        (Ok(_), st) => (query_fault(UNEXPECTED_REPLY@), st),
    }
}

/// Asks for a text that a rule held outside always gives, with the list it works on.
pub fn consult_text_with(s: &mut Session, rule: Rule, attachment: Attachment) -> (r: Result<
    String,
    Halt,
>)
    ensures
        (seen(r), final(s)@) == consult_text_with_spec(old(s)@, rule, attachment@),
{
    match consult_with(s, rule, attachment)? {
        Answer::Text(Ok(t)) => Ok(t.clone()),
        _ => Err(fail_query(UNEXPECTED_REPLY)),
    }
}

/// Asks for a text that a rule held outside always gives.
pub open spec fn consult_text_spec(st: RunView, rule: Rule) -> (Result<String, HaltView>, RunView) {
    consult_text_with_spec(st, rule, AttachmentView::Nothing)
}

/// Asks for a text that a rule held outside always gives.
pub fn consult_text(s: &mut Session, rule: Rule) -> (r: Result<String, Halt>)
    ensures
        (seen(r), final(s)@) == consult_text_spec(old(s)@, rule),
{
    consult_text_with(s, rule, Attachment::Nothing)
}

/// Asks for the ledger accounts that count what a card spends.
pub open spec fn usage_accounts_spec(st: RunView, card_id: Uuid) -> (
    Result<PolicyUsageAccountIds, HaltView>,
    RunView,
) {
    match consult_spec(st, Rule::UsageAccounts(card_id)) {
        (Err(h), st) => (Err(h), st),
        (Ok(Answer::UsageAccounts(ids)), st) => (Ok(ids), st),
        (Ok(_), st) => (query_fault(UNEXPECTED_REPLY@), st),
    }
}

/// Asks for the ledger accounts that count what a card spends.
pub fn usage_accounts(s: &mut Session, card_id: Uuid) -> (r: Result<PolicyUsageAccountIds, Halt>)
    ensures
        (seen(r), final(s)@) == usage_accounts_spec(old(s)@, card_id),
{
    match consult(s, Rule::UsageAccounts(card_id))? {
        Answer::UsageAccounts(ids) => Ok(*ids),
        _ => Err(fail_query(UNEXPECTED_REPLY)),
    }
}

/// Asks for a text that a rule held outside may fail to give.
pub open spec fn encode_with_spec(
    st: RunView,
    rule: Rule,
    attachment: AttachmentView,
    context: Seq<char>,
) -> (Result<String, HaltView>, RunView) {
    match consult_with_spec(st, rule, attachment) {
        (Err(h), st) => (Err(h), st),
        (Ok(Answer::Text(Ok(t))), st) => (Ok(t), st),
        (Ok(Answer::Text(Err(e))), st) => (failed(context, e@), st),
        (Ok(_), st) => (query_fault(UNEXPECTED_REPLY@), st),
    }
}

/// Asks for a text that a rule held outside may fail to give.
pub fn encode_with(
    s: &mut Session,
    rule: Rule,
    attachment: Attachment,
    context: &str,
) -> (r: Result<String, Halt>)
    ensures
        (seen(r), final(s)@) == encode_with_spec(old(s)@, rule, attachment@, context@),
{
    match consult_with(s, rule, attachment)? {
        Answer::Text(Ok(t)) => Ok(t.clone()),
        Answer::Text(Err(e)) => Err(fail_because(context, e.as_str())),
        _ => Err(fail_query(UNEXPECTED_REPLY)),
    }
}

/// Asks for a text that a rule held outside may fail to give.
pub open spec fn encode_spec(st: RunView, rule: Rule, context: Seq<char>) -> (
    Result<String, HaltView>,
    RunView,
) {
    encode_with_spec(st, rule, AttachmentView::Nothing, context)
}

/// Asks for a text that a rule held outside may fail to give.
pub fn encode(s: &mut Session, rule: Rule, context: &str) -> (r: Result<String, Halt>)
    ensures
        (seen(r), final(s)@) == encode_spec(old(s)@, rule, context@),
{
    encode_with(s, rule, Attachment::Nothing, context)
}

/// Asks for the objection that a rule held outside raises, if any.
pub open spec fn verdict_spec(st: RunView, rule: Rule) -> (
    Result<Option<String>, HaltView>,
    RunView,
) {
    match consult_spec(st, rule) {
        (Err(h), st) => (Err(h), st),
        (Ok(Answer::Verdict(objection)), st) => (Ok(objection), st),
        (Ok(_), st) => (query_fault(UNEXPECTED_REPLY@), st),
    }
}

/// Asks for the objection that a rule held outside raises, if any.
pub fn verdict(s: &mut Session, rule: Rule) -> (r: Result<Option<String>, Halt>)
    ensures
        (seen(r), final(s)@) == verdict_spec(old(s)@, rule),
{
    match consult(s, rule)? {
        Answer::Verdict(Some(t)) => Ok(Some(t.clone())),
        Answer::Verdict(None) => Ok(None),
        _ => Err(fail_query(UNEXPECTED_REPLY)),
    }
}

/// Asks for an identifier.
pub open spec fn consult_id_spec(st: RunView, rule: Rule) -> (Result<Uuid, HaltView>, RunView) {
    match consult_spec(st, rule) {
        (Err(h), st) => (Err(h), st),
        (Ok(Answer::Id(id)), st) => (Ok(id), st),
        (Ok(_), st) => (query_fault(UNEXPECTED_REPLY@), st),
    }
}

/// Asks for an identifier.
pub fn consult_id(s: &mut Session, rule: Rule) -> (r: Result<Uuid, Halt>)
    ensures
        (seen(r), final(s)@) == consult_id_spec(old(s)@, rule),
{
    match consult(s, rule)? {
        Answer::Id(id) => Ok(*id),
        _ => Err(fail_query(UNEXPECTED_REPLY)),
    }
}

/// Asks for a new random identifier.
pub open spec fn fresh_id_spec(st: RunView) -> (Result<Uuid, HaltView>, RunView) {
    consult_id_spec(st, Rule::FreshId)
}

/// Asks for a new random identifier.
pub fn fresh_id(s: &mut Session) -> (r: Result<Uuid, Halt>)
    ensures
        (seen(r), final(s)@) == fresh_id_spec(old(s)@),
{
    consult_id(s, Rule::FreshId)
}

/// Asks for the present instant.
pub open spec fn now_spec(st: RunView) -> (Result<UtcTime, HaltView>, RunView) {
    match consult_spec(st, Rule::Now) {
        (Err(h), st) => (Err(h), st),
        (Ok(Answer::Time(t)), st) => (Ok(t), st),
        (Ok(_), st) => (query_fault(UNEXPECTED_REPLY@), st),
    }
}

/// Asks for the present instant.
pub fn now(s: &mut Session) -> (r: Result<UtcTime, Halt>)
    ensures
        (seen(r), final(s)@) == now_spec(old(s)@),
{
    match consult(s, Rule::Now)? {
        Answer::Time(t) => Ok(*t),
        _ => Err(fail_query(UNEXPECTED_REPLY)),
    }
}

/// Asks whether a value is one of those that a domain has.
pub open spec fn flag_spec(st: RunView, rule: Rule) -> (Result<bool, HaltView>, RunView) {
    match consult_spec(st, rule) {
        (Err(h), st) => (Err(h), st),
        (Ok(Answer::Flag(b)), st) => (Ok(b), st),
        (Ok(_), st) => (query_fault(UNEXPECTED_REPLY@), st),
    }
}

/// Asks whether a value is one of those that a domain has.
pub fn flag(s: &mut Session, rule: Rule) -> (r: Result<bool, Halt>)
    ensures
        (seen(r), final(s)@) == flag_spec(old(s)@, rule),
{
    match consult(s, rule)? {
        Answer::Flag(b) => Ok(*b),
        _ => Err(fail_query(UNEXPECTED_REPLY)),
    }
}

impl Row {
    /// The cell in column `i`; a missing column reads as an unexpected one.
    pub open spec fn raw_cell(self, i: int) -> Result<Vec<u8>, Seq<char>> {
        if 0 <= i < self.cells@.len() {
            match self.cells@[i] {
                Cell::Raw(b) => Ok(b),
                Cell::Unreadable(e) => Err(e@),
                _ => Err(UNEXPECTED_CELL@),
            }
        } else {
            Err(UNEXPECTED_CELL@)
        }
    }

    /// Raw bytes in column `i`.
    pub open spec fn raw_at(self, i: int, context: Seq<char>) -> Result<Vec<u8>, HaltView> {
        match self.raw_cell(i) {
            Ok(b) => Ok(b),
            Err(e) => failed(context, e),
        }
    }

    /// Raw bytes in column `i`, where it is not NULL.
    pub open spec fn opt_raw_at(self, i: int, context: Seq<char>) -> Result<
        Option<Vec<u8>>,
        HaltView,
    > {
        if 0 <= i < self.cells@.len() && self.cells@[i] is Null {
            Ok(None)
        } else {
            match self.raw_cell(i) {
                Ok(b) => Ok(Some(b)),
                Err(e) => failed(context, e),
            }
        }
    }

    /// A text in column `i`.
    pub open spec fn text_at(self, i: int, context: Seq<char>) -> Result<String, HaltView> {
        if 0 <= i < self.cells@.len() {
            match self.cells@[i] {
                Cell::Text(t) => Ok(t),
                Cell::Unreadable(e) => failed(context, e@),
                _ => failed(context, UNEXPECTED_CELL@),
            }
        } else {
            failed(context, UNEXPECTED_CELL@)
        }
    }

    /// A text in column `i`, where it is not NULL.
    pub open spec fn opt_text_at(self, i: int, context: Seq<char>) -> Result<
        Option<String>,
        HaltView,
    > {
        if 0 <= i < self.cells@.len() && self.cells@[i] is Null {
            Ok(None)
        } else {
            match self.text_at(i, context) {
                Ok(t) => Ok(Some(t)),
                Err(h) => Err(h),
            }
        }
    }

    /// A number in column `i`.
    pub open spec fn int_at(self, i: int, context: Seq<char>) -> Result<i64, HaltView> {
        if 0 <= i < self.cells@.len() {
            match self.cells@[i] {
                Cell::Int(n) => Ok(n),
                Cell::Unreadable(e) => failed(context, e@),
                _ => failed(context, UNEXPECTED_CELL@),
            }
        } else {
            failed(context, UNEXPECTED_CELL@)
        }
    }

    /// A number of 32 bits in column `i`.
    pub open spec fn small_at(self, i: int, context: Seq<char>) -> Result<i64, HaltView> {
        match self.int_at(i, context) {
            Err(h) => Err(h),
            Ok(n) => if i32::MIN <= n <= i32::MAX {
                Ok(n)
            } else {
                failed(context, UNEXPECTED_CELL@)
            },
        }
    }

    /// A number in column `i`, where it is not NULL.
    pub open spec fn opt_int_at(self, i: int, context: Seq<char>) -> Result<
        Option<i64>,
        HaltView,
    > {
        if 0 <= i < self.cells@.len() && self.cells@[i] is Null {
            Ok(None)
        } else {
            match self.int_at(i, context) {
                Ok(n) => Ok(Some(n)),
                Err(h) => Err(h),
            }
        }
    }

    /// An identifier in column `i`.
    pub open spec fn id_at(self, i: int, context: Seq<char>) -> Result<Uuid, HaltView> {
        match self.raw_at(i, context) {
            Ok(b) => id_of(b@),
            Err(h) => Err(h),
        }
    }

    /// Raw bytes in column `i`.
    pub fn raw(&self, i: usize, context: &str) -> (r: Result<&Vec<u8>, Halt>)
        ensures
            seen_ref(r) == self.raw_at(i as int, context@),
    {
        if i < self.cells.len() {
            match &self.cells[i] {
                Cell::Raw(b) => Ok(b),
                Cell::Unreadable(e) => Err(fail_because(context, e.as_str())),
                _ => Err(fail_because(context, UNEXPECTED_CELL)),
            }
        } else {
            Err(fail_because(context, UNEXPECTED_CELL))
        }
    }

    /// Raw bytes in column `i`, where it is not NULL.
    pub fn opt_raw(&self, i: usize, context: &str) -> (r: Result<Option<&Vec<u8>>, Halt>)
        ensures
            seen_opt_ref(r) == self.opt_raw_at(i as int, context@),
    {
        if i < self.cells.len() {
            if let Cell::Null = &self.cells[i] {
                return Ok(None);
            }
        }
        match self.raw(i, context) {
            Ok(b) => Ok(Some(b)),
            Err(h) => Err(h),
        }
    }

    /// A text in column `i`.
    pub fn text(&self, i: usize, context: &str) -> (r: Result<String, Halt>)
        ensures
            seen(r) == self.text_at(i as int, context@),
    {
        if i < self.cells.len() {
            match &self.cells[i] {
                Cell::Text(t) => Ok(t.clone()),
                Cell::Unreadable(e) => Err(fail_because(context, e.as_str())),
                _ => Err(fail_because(context, UNEXPECTED_CELL)),
            }
        } else {
            Err(fail_because(context, UNEXPECTED_CELL))
        }
    }

    /// A text in column `i`, where it is not NULL.
    pub fn opt_text(&self, i: usize, context: &str) -> (r: Result<Option<String>, Halt>)
        ensures
            seen(r) == self.opt_text_at(i as int, context@),
    {
        if i < self.cells.len() {
            if let Cell::Null = &self.cells[i] {
                return Ok(None);
            }
        }
        match self.text(i, context) {
            Ok(t) => Ok(Some(t)),
            Err(h) => Err(h),
        }
    }

    /// A number in column `i`.
    pub fn number(&self, i: usize, context: &str) -> (r: Result<i64, Halt>)
        ensures
            seen(r) == self.int_at(i as int, context@),
    {
        if i < self.cells.len() {
            match &self.cells[i] {
                Cell::Int(n) => Ok(*n),
                Cell::Unreadable(e) => Err(fail_because(context, e.as_str())),
                _ => Err(fail_because(context, UNEXPECTED_CELL)),
            }
        } else {
            Err(fail_because(context, UNEXPECTED_CELL))
        }
    }

    /// A number of 32 bits in column `i`.
    pub fn small(&self, i: usize, context: &str) -> (r: Result<i64, Halt>)
        ensures
            seen(r) == self.small_at(i as int, context@),
    {
        let n: i64 = self.number(i, context)?;
        if n < i32::MIN as i64 || n > i32::MAX as i64 {
            return Err(fail_because(context, UNEXPECTED_CELL));
        }
        Ok(n)
    }

    /// A number in column `i`, where it is not NULL.
    pub fn opt_number(&self, i: usize, context: &str) -> (r: Result<Option<i64>, Halt>)
        ensures
            seen(r) == self.opt_int_at(i as int, context@),
    {
        if i < self.cells.len() {
            if let Cell::Null = &self.cells[i] {
                return Ok(None);
            }
        }
        match self.number(i, context) {
            Ok(n) => Ok(Some(n)),
            Err(h) => Err(h),
        }
    }

    /// An identifier in column `i`.
    pub fn id(&self, i: usize, context: &str) -> (r: Result<Uuid, Halt>)
        ensures
            seen(r) == self.id_at(i as int, context@),
    {
        let raw = self.raw(i, context)?;
        to_id(raw)
    }
}

/// The identifier that sixteen raw bytes hold.
pub open spec fn id_of(raw: Seq<u8>) -> Result<Uuid, HaltView> {
    match types::raw16_uuid(raw) {
        Ok(id) => Ok(id),
        Err(e) => Err(HaltView::Fail(e)),
    }
}

/// The identifier that sixteen raw bytes hold.
pub fn to_id(raw: &Vec<u8>) -> (r: Result<Uuid, Halt>)
    ensures
        seen(r) == id_of(raw@),
{
    match raw16_to_uuid(raw.as_slice()) {
        Ok(id) => Ok(id),
        Err(e) => Err(Halt::Fail(e)),
    }
}

/// The identifier that raw bytes hold, where there are any.
pub open spec fn opt_id_of(raw: Option<Vec<u8>>) -> Result<Option<Uuid>, HaltView> {
    match raw {
        None => Ok(None),
        Some(b) => match id_of(b@) {
            Ok(id) => Ok(Some(id)),
            Err(h) => Err(h),
        },
    }
}

/// The identifier that raw bytes hold, where there are any.
pub fn to_opt_id(raw: Option<&Vec<u8>>) -> (r: Result<Option<Uuid>, Halt>)
    ensures
        seen(r) == opt_id_of(match raw {
            Some(b) => Some(*b),
            None => None,
        }),
{
    match raw {
        None => Ok(None),
        Some(b) => Ok(Some(to_id(b)?)),
    }
}

/// The instant that an RFC 3339 text names.
pub open spec fn time_of(text: Seq<char>, context: Seq<char>) -> Result<UtcTime, HaltView> {
    match crate::time::rfc3339_time(text) {
        Ok(t) => Ok(t),
        Err(e) => failed(context, e),
    }
}

/// The instant that an RFC 3339 text names.
pub fn to_time(text: &str, context: &str) -> (r: Result<UtcTime, Halt>)
    ensures
        seen(r) == time_of(text@, context@),
{
    match UtcTime::parse_rfc3339(text) {
        Ok(t) => Ok(t),
        Err(e) => Err(fail_because(context, e.as_str())),
    }
}

/// The instant that an RFC 3339 text names, where there is a text.
pub open spec fn opt_time_of(text: Option<String>, context: Seq<char>) -> Result<
    Option<UtcTime>,
    HaltView,
> {
    match text {
        None => Ok(None),
        Some(t) => match time_of(t@, context) {
            Ok(t) => Ok(Some(t)),
            Err(h) => Err(h),
        },
    }
}

/// The instant that an RFC 3339 text names, where there is a text.
pub fn to_opt_time(text: &Option<String>, context: &str) -> (r: Result<Option<UtcTime>, Halt>)
    ensures
        seen(r) == opt_time_of(*text, context@),
{
    match text {
        None => Ok(None),
        Some(t) => Ok(Some(to_time(t.as_str(), context)?)),
    }
}

/// A column is read as it stands: as a text, a number or raw bytes where it holds one, and as
/// nothing where it is NULL and may be. Nothing else is read from it.
pub proof fn column_is_read_as_it_stands(row: Row, i: int, context: Seq<char>)
    requires
        0 <= i < row.cells@.len(),
    ensures
        ({
            let cell = row.cells@[i];
            &&& row.text_at(i, context) is Ok <==> cell is Text
            &&& row.int_at(i, context) is Ok <==> cell is Int
            &&& row.raw_at(i, context) is Ok <==> cell is Raw
            &&& row.opt_text_at(i, context) is Ok <==> cell is Text || cell is Null
            &&& row.opt_int_at(i, context) is Ok <==> cell is Int || cell is Null
            &&& row.opt_raw_at(i, context) is Ok <==> cell is Raw || cell is Null
            &&& cell matches Cell::Text(t) ==> row.text_at(i, context)->Ok_0 == t
                && row.opt_text_at(i, context)->Ok_0 == Some(t)
            &&& cell matches Cell::Int(n) ==> row.int_at(i, context)->Ok_0 == n
                && row.opt_int_at(i, context)->Ok_0 == Some(n)
            &&& cell matches Cell::Raw(b) ==> row.raw_at(i, context)->Ok_0 == b
                && row.opt_raw_at(i, context)->Ok_0 == Some(b)
            &&& cell is Null ==> row.opt_text_at(i, context)->Ok_0 is None && row.opt_int_at(
                i,
                context,
            )->Ok_0 is None && row.opt_raw_at(i, context)->Ok_0 is None
            &&& row.small_at(i, context) is Ok <==> (cell matches Cell::Int(n) && i32::MIN <= n
                <= i32::MAX)
            &&& row.small_at(
                i,
                context,
            ) is Ok ==> row.small_at(i, context) == row.int_at(i, context)
        }),
{
}

/// Each reply answers one call: the run goes on with the replies after it, and the call is
/// remembered. Without a reply the call is what the run waits for.
pub proof fn reply_answers_one_call(st: RunView, call: CallView)
    ensures
        ({
            let (reply, after) = asked(st, call);
            &&& st.rest.len() == 0 ==> reply == Err::<Reply, HaltView>(HaltView::Ask(call)) && after
                == st
            &&& st.rest.len() > 0 ==> {
                &&& reply == Ok::<Reply, HaltView>(st.rest[0])
                &&& after.rest.len() == st.rest.len() - 1
                &&& after.log == st.log.push(call)
            }
        }),
{
}

} // verus!
