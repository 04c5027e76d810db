//! Database errors and their diagnostics.
use vstd::prelude::*;
use vstd::string::*;
use crate::text;

verus! {

/// Why a database operation failed.
#[derive(Debug)]
pub enum DbError {
    Configuration(String),
    Connection(String),
    Conflict(String),
    Query(String),
    BlockingTask(String),
}

/// The result of a database operation.
pub type DbResult<T> = Result<T, DbError>;

/// A database error as its kind and its message.
pub enum DbErrorView {
    Configuration(Seq<char>),
    Connection(Seq<char>),
    Conflict(Seq<char>),
    Query(Seq<char>),
    BlockingTask(Seq<char>),
}

impl View for DbError {
    type V = DbErrorView;

    open spec fn view(&self) -> DbErrorView {
        match self {
            DbError::Configuration(m) => DbErrorView::Configuration(m@),
            DbError::Connection(m) => DbErrorView::Connection(m@),
            DbError::Conflict(m) => DbErrorView::Conflict(m@),
            DbError::Query(m) => DbErrorView::Query(m@),
            DbError::BlockingTask(m) => DbErrorView::BlockingTask(m@),
        }
    }
}

/// A query error that names what was attempted and what came back.
pub open spec fn query_failure(context: Seq<char>, cause: Seq<char>) -> DbErrorView {
    DbErrorView::Query(context + ": "@ + cause)
}

/// The five characters after `ORA-` at position `i` are decimal digits.
pub open spec fn oracle_code_at(message: Seq<char>, i: int) -> bool {
    &&& i + 9 <= message.len()
    &&& forall|k: int| i + 4 <= k < i + 9 ==> '0' <= #[trigger] message[k] <= '9'
}

impl DbError {
    /// The message, whatever the kind.
    pub open spec fn spec_message(self) -> Seq<char> {
        match self {
            DbError::Configuration(m) => m@,
            DbError::Connection(m) => m@,
            DbError::Conflict(m) => m@,
            DbError::Query(m) => m@,
            DbError::BlockingTask(m) => m@,
        }
    }

    /// The message, whatever the kind.
    pub fn message(&self) -> (r: &str)
        ensures
            r@ == self.spec_message(),
    {
        match self {
            DbError::Configuration(m) => m.as_str(),
            DbError::Connection(m) => m.as_str(),
            DbError::Conflict(m) => m.as_str(),
            DbError::Query(m) => m.as_str(),
            DbError::BlockingTask(m) => m.as_str(),
        }
    }

    /// A query error with a fixed message.
    pub fn query(message: &str) -> (r: DbError)
        ensures
            r@ == DbErrorView::Query(message@),
    {
        DbError::Query(message.to_owned())
    }

    /// A conflict with a fixed message.
    pub fn conflict(message: &str) -> (r: DbError)
        ensures
            r@ == DbErrorView::Conflict(message@),
    {
        DbError::Conflict(message.to_owned())
    }

    /// A query error that names what was attempted and what came back.
    pub fn query_because(context: &str, cause: &str) -> (r: DbError)
        ensures
            r@ == query_failure(context@, cause@),
    {
        DbError::Query(text::joined3(context, ": ", cause))
    }

    /// The error as a sentence: a prefix for the kind, then the message.
    pub fn to_string(&self) -> (r: String)
        ensures
            r@ == (match self {
                DbError::Configuration(m) => "database configuration error: "@ + m@,
                DbError::Connection(m) => "database connection error: "@ + m@,
                DbError::Conflict(m) => "database conflict: "@ + m@,
                DbError::Query(m) => "database query error: "@ + m@,
                DbError::BlockingTask(m) => "database blocking task error: "@ + m@,
            }),
    {
        match self {
            DbError::Configuration(m) => {
                text::joined2("database configuration error: ", m.as_str())
            },
            DbError::Connection(m) => text::joined2("database connection error: ", m.as_str()),
            DbError::Conflict(m) => text::joined2("database conflict: ", m.as_str()),
            DbError::Query(m) => text::joined2("database query error: ", m.as_str()),
            DbError::BlockingTask(m) => text::joined2("database blocking task error: ", m.as_str()),
        }
    }

    /// A short name for the kind of error.
    pub fn diagnostic_kind(&self) -> (r: &'static str)
        ensures
            r@ == (match self {
                DbError::Configuration(_) => "configuration"@,
                DbError::Connection(_) => "connection"@,
                DbError::Conflict(_) => "conflict"@,
                DbError::Query(_) => "query"@,
                DbError::BlockingTask(_) => "blocking_task"@,
            }),
    {
        match self {
            DbError::Configuration(_) => "configuration",
            DbError::Connection(_) => "connection",
            DbError::Conflict(_) => "conflict",
            DbError::Query(_) => "query",
            DbError::BlockingTask(_) => "blocking_task",
        }
    }

    /// Whether the connection, and not the statement, is at fault.
    pub fn is_connection_failure(&self) -> (r: bool)
        ensures
            r == (self is Connection || self is BlockingTask),
    {
        matches!(self, DbError::Connection(_) | DbError::BlockingTask(_))
    }

    /// The first Oracle code in the message, where `ORA-` is followed by five digits.
    pub fn oracle_code(&self) -> (r: Option<&str>)
        ensures
            r matches Some(code) ==> exists|i: int| #[trigger]
                text::first_at(self.spec_message(), "ORA-"@, i) && oracle_code_at(
                    self.spec_message(),
                    i,
                ) && code@ == self.spec_message().subrange(i, i + 9),
            r is None ==> forall|i: int| #[trigger]
                text::first_at(self.spec_message(), "ORA-"@, i) ==> !oracle_code_at(
                    self.spec_message(),
                    i,
                ),
    {
        let message: &str = self.message();
        match text::find(message, "ORA-") {
            None => None,
            Some(start) => {
                let chars = text::chars_of(message);
                assert(text::first_at(self.spec_message(), "ORA-"@, start as int));
                if chars.len() < 9 || start > chars.len() - 9 {
                    return None;
                }
                let end: usize = start + 9;
                let mut k: usize = start + 4;
                while k < end
                    invariant
                        end == start + 9,
                        start + 4 <= k <= end <= chars@.len(),
                        text::first_at(self.spec_message(), "ORA-"@, start as int),
                        chars@ == self.spec_message(),
                        forall|j: int|
                            start + 4 <= j < k ==> '0' <= #[trigger] self.spec_message()[j] <= '9',
                    decreases end - k,
                {
                    if chars[k] < '0' || '9' < chars[k] {
                        assert(!oracle_code_at(self.spec_message(), start as int));
                        return None;
                    }
                    k = k + 1;
                }
                assert(oracle_code_at(self.spec_message(), start as int));
                Some(message.substring_char(start, start + 9))
            },
        }
    }

    /// The operation that the message reports on, where it is one of those that are told apart.
    pub fn diagnostic_context(&self) -> (r: &'static str)
        ensures
            ({
                let m = self.spec_message();
                r@ == (if text::begins_with(m, "failed to insert provider Kafka access"@) {
                    "provider_kafka_access.insert"@
                } else if text::begins_with(m, "failed to insert Provider Kafka credential"@) {
                    "provider_kafka_credential.insert"@
                } else if text::begins_with(m, "failed to seed Provider event subscriptions"@) {
                    "provider_event_subscriptions.seed"@
                } else if text::begins_with(m, "failed to fetch provider"@) {
                    "provider.fetch"@
                } else if text::begins_with(m, "failed to mark provider ready"@) {
                    "provider.mark_ready"@
                } else if text::begins_with(m, "failed to refresh provider idempotency snapshot"@) {
                    "provider.idempotency_snapshot.refresh"@
                } else {
                    "unclassified"@
                })
            }),
    {
        let message: &str = self.message();
        if text::starts_with(message, "failed to insert provider Kafka access") {
            "provider_kafka_access.insert"
        } else if text::starts_with(message, "failed to insert Provider Kafka credential") {
            "provider_kafka_credential.insert"
        } else if text::starts_with(message, "failed to seed Provider event subscriptions") {
            "provider_event_subscriptions.seed"
        } else if text::starts_with(message, "failed to fetch provider") {
            "provider.fetch"
        } else if text::starts_with(message, "failed to mark provider ready") {
            "provider.mark_ready"
        } else if text::starts_with(message, "failed to refresh provider idempotency snapshot") {
            "provider.idempotency_snapshot.refresh"
        } else {
            "unclassified"
        }
    }
}

} // verus!
