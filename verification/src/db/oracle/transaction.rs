//! The ends of transactions.
use vstd::prelude::*;
use crate::db::error;
use crate::db::error::{DbError, DbErrorView};
use crate::text;

verus! {

/// The driver's error says that a unique constraint is violated.
pub open spec fn is_unique_violation(error: Seq<char>) -> bool {
    text::contains_text(error, "ORA-00001"@)
}

/// Whether the driver's error says that a unique constraint is violated.
pub fn is_unique_constraint_violation(error: &str) -> (r: bool)
    ensures
        r == is_unique_violation(error@),
{
    text::contains(error, "ORA-00001")
}

/// How a transaction ended at the driver: well, or with the driver's error.
pub open spec fn ended(verb: Seq<char>, context: Seq<char>, failure: Option<String>) -> Result<
    (),
    DbErrorView,
> {
    match failure {
        Some(cause) => Err(error::query_failure(verb + context, cause@)),
        None => Ok(()),
    }
}

/// A result with its error as plain values.
pub open spec fn seen_end(r: Result<(), DbError>) -> Result<(), DbErrorView> {
    match r {
        Ok(()) => Ok(()),
        Err(e) => Err(e@),
    }
}

/// What a commit came to. `context` says what was to be committed.
pub fn commit(context: &str, failure: &Option<String>) -> (r: Result<(), DbError>)
    ensures
        seen_end(r) == ended("failed to commit "@, context@, *failure),
{
    match failure {
        Some(cause) => Err(
            DbError::query_because(
                text::joined2("failed to commit ", context).as_str(),
                cause.as_str(),
            ),
        ),
        None => Ok(()),
    }
}

/// What a rollback came to. `context` says what was to be rolled back.
pub fn rollback(context: &str, failure: &Option<String>) -> (r: Result<(), DbError>)
    ensures
        seen_end(r) == ended("failed to rollback "@, context@, *failure),
{
    match failure {
        Some(cause) => Err(
            DbError::query_because(
                text::joined2("failed to rollback ", context).as_str(),
                cause.as_str(),
            ),
        ),
        None => Ok(()),
    }
}

/// What is left to do after the transaction of a command that happens once.
pub enum AfterTransaction<T> {
    /// Nothing: the transaction's result stands.
    Settled(Result<T, DbError>),
    /// Another command with the same key won; what it stored is to be read.
    WinnerToRead,
}

/// What is left to do after a transaction. A conflict says that the command's key was taken
/// meanwhile.
pub open spec fn rest_of<T>(result: Result<T, DbError>) -> AfterTransaction<T> {
    match result {
        Err(DbError::Conflict(_)) => AfterTransaction::WinnerToRead,
        _ => AfterTransaction::Settled(result),
    }
}

/// What is left to do after a transaction.
pub fn after_transaction<T>(result: Result<T, DbError>) -> (r: AfterTransaction<T>)
    ensures
        r == rest_of(result),
{
    match result {
        Err(DbError::Conflict(_)) => AfterTransaction::WinnerToRead,
        other => AfterTransaction::Settled(other),
    }
}

/// Only a conflict leaves something to do after a transaction: whoever won is to be read. Every
/// other result stands.
pub proof fn only_a_conflict_has_a_winner<T>(result: Result<T, DbError>)
    ensures
        rest_of(result) is WinnerToRead <==> (result matches Err(e) && e is Conflict),
        rest_of(result) matches AfterTransaction::Settled(stands) ==> stands == result,
{
}

} // verus!
