//! Messages that cannot be read.
use vstd::prelude::*;
use crate::db::oracle::binds;
use crate::db::oracle::repository::OracleRepository;
use crate::db::oracle::script;
use crate::db::oracle::script::{Bind, Halt, HaltView, Reply, RunView, Session};
use crate::db::oracle::transaction;
use crate::domain::copied;

verus! {

/// Stores evidence of a message that cannot be read.
pub const POISON_INSERT_SQL: &'static str = "INSERT INTO kafka_poison_messages (kafka_poison_message_id, topic_name, partition_id, message_offset, payload_sha256, error_code) VALUES (:1, :2, :3, :4, :5, :6)";

/// What the attempt to store evidence of a message came to: evidence that is stored already is no
/// failure.
pub open spec fn stored_evidence(reply: Reply) -> Result<(), HaltView> {
    match reply {
        Reply::Executed(_) => Ok(()),
        Reply::Failed(f) => if transaction::is_unique_violation(f.text@) {
            Ok(())
        } else {
            script::failed("failed to persist Kafka poison evidence"@, f.text@)
        },
        _ => script::query_fault(script::UNEXPECTED_REPLY@),
    }
}

/// What the attempt to store evidence of a message came to: evidence that is stored already is no
/// failure.
pub fn judge_evidence(reply: &Reply) -> (r: Result<(), Halt>)
    ensures
        script::seen(r) == stored_evidence(*reply),
{
    match reply {
        Reply::Executed(_) => Ok(()),
        Reply::Failed(f) => if transaction::is_unique_constraint_violation(f.text.as_str()) {
            Ok(())
        } else {
            Err(
                script::fail_because("failed to persist Kafka poison evidence", f.text.as_str()),
            )
        },
        _ => Err(script::fail_query(script::UNEXPECTED_REPLY)),
    }
}

/// Stores evidence of a message that cannot be read, without its body. Evidence of one place in a
/// topic is stored once.
pub open spec fn record_kafka_poison_message_spec(
    st: RunView,
    topic: String,
    partition: i32,
    offset: i64,
    payload_sha256: Option<String>,
    error_code: &'static str,
) -> (Result<(), HaltView>, RunView) {
    match script::fresh_id_spec(st) { (Err(h), st) => (Err(h), st), (Ok(id), st) =>
    match script::attempt_spec(
        st,
        POISON_INSERT_SQL@,
        seq![
            Bind::Id(id),
            Bind::Text(topic),
            Bind::Int(partition as i64),
            Bind::Int(offset),
            Bind::OptText(payload_sha256),
            Bind::Label(error_code),
        ],
    ) { (Err(h), st) => (Err(h), st), (Ok(reply), st) =>
    (stored_evidence(reply), st)
    }}
}

impl OracleRepository {
    /// Stores evidence of a message that cannot be read, without its body. Evidence of one place in
    /// a topic is stored once.
    pub fn record_kafka_poison_message(
        s: &mut Session,
        topic: &String,
        partition: i32,
        offset: i64,
        payload_sha256: &Option<String>,
        error_code: &'static str,
    ) -> (r: Result<(), Halt>)
        ensures
            (script::seen(r), final(s)@) == record_kafka_poison_message_spec(
                old(s)@,
                *topic,
                partition,
                offset,
                *payload_sha256,
                error_code,
            ),
    {
        let id = script::fresh_id(s)?;
        let reply = script::attempt(
            s,
            POISON_INSERT_SQL,
            binds::binds6(
                Bind::Id(id),
                Bind::Text(topic.clone()),
                Bind::Int(partition as i64),
                Bind::Int(offset),
                Bind::OptText(copied(payload_sha256)),
                Bind::Label(error_code),
            ),
        )?;
        judge_evidence(reply)
    }
}

/// Evidence of one place in a topic is stored once: where it is stored already, recording it again
/// succeeds.
pub proof fn evidence_is_recorded_once(
    st: RunView,
    topic: String,
    partition: i32,
    offset: i64,
    payload_sha256: Option<String>,
    error_code: &'static str,
    id: crate::uuid::Uuid,
    failure: script::Failure,
)
    requires
        ({
            let named = script::fresh_id_spec(st);
            &&& named.0 == Ok::<crate::uuid::Uuid, HaltView>(id)
            &&& script::attempt_spec(
                named.1,
                POISON_INSERT_SQL@,
                seq![
                    Bind::Id(id),
                    Bind::Text(topic),
                    Bind::Int(partition as i64),
                    Bind::Int(offset),
                    Bind::OptText(payload_sha256),
                    Bind::Label(error_code),
                ],
            ).0 == Ok::<Reply, HaltView>(Reply::Failed(failure))
        }),
        transaction::is_unique_violation(failure.text@),
    ensures
        record_kafka_poison_message_spec(st, topic, partition, offset, payload_sha256, error_code).0
            == Ok::<(), HaltView>(()),
{
}

/// Evidence of a message that cannot be read is stored once: a second is no failure, and nothing
/// else is forgiven.
pub proof fn second_evidence_is_no_failure(reply: Reply)
    ensures
        stored_evidence(reply) is Ok <==> (reply is Executed || (reply matches Reply::Failed(f)
            && transaction::is_unique_violation(f.text@))),
{
}

/// What the database is told, and with which values, where a run succeeds that does this:
/// stores evidence of a message that cannot be read, without its body.
#[verifier::rlimit(60)]
pub proof fn record_kafka_poison_message_is_told(
    st: RunView,
    topic: String,
    partition: i32,
    offset: i64,
    payload_sha256: Option<String>,
    error_code: &'static str,
)
    ensures
        ({
            let (ended, after) = record_kafka_poison_message_spec(
                st,
                topic,
                partition,
                offset,
                payload_sha256,
                error_code,
            );
            let log = after.log;
            ended is Ok ==> {
                &&& script::told_where(
                    log,
                    POISON_INSERT_SQL@,
                    |b: Seq<Bind>| b.len() == 6 && b[1] == Bind::Text(topic)
                        && b[2] == Bind::Int(partition as i64) && b[3] == Bind::Int(offset)
                        && b[4] == Bind::OptText(payload_sha256) && b[5] == Bind::Label(error_code),
                ) > 0
            }
        }),
{
    broadcast use {script::runs_on_with_another, script::told_where_with_another};

}

} // verus!
