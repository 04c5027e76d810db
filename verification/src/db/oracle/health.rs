//! The health of the database.
use vstd::prelude::*;
use crate::db::oracle::binds;
use crate::db::oracle::script;
use crate::db::oracle::script::{Bind, Halt, HaltView, RunView, Session};

verus! {

/// Reads the present instant of the database.
pub const HEALTH_SQL: &'static str = r#"SELECT TO_CHAR(SYSTIMESTAMP AT TIME ZONE 'UTC', 'YYYY-MM-DD"T"HH24:MI:SS.FF3"Z"') FROM dual"#;

/// A sign of life of the database: its present instant.
#[derive(Debug)]
pub struct OracleHealth {
    pub database_time_utc: String,
}

/// The scripts that look after the health of the database.
pub struct OracleHealthRepository;

/// A sign of life of the database.
pub open spec fn check_spec(st: RunView) -> (Result<OracleHealth, HaltView>, RunView) {
    match script::one_text_spec(
        st,
        HEALTH_SQL@,
        Seq::<Bind>::empty(),
        "Oracle health check query failed"@,
    ) { (Err(h), st) => (Err(h), st), (Ok(database_time_utc), st) =>
    (Ok(OracleHealth { database_time_utc }), st)
    }
}

impl OracleHealthRepository {
    /// A sign of life of the database.
    pub fn check(s: &mut Session) -> (r: Result<OracleHealth, Halt>)
        ensures
            (script::seen(r), final(s)@) == check_spec(old(s)@),
    {
        let database_time_utc = script::one_text(
            s,
            HEALTH_SQL,
            binds::binds0(),
            "Oracle health check query failed",
        )?;
        Ok(OracleHealth { database_time_utc })
    }
}

/// What is asked first, and with which values, in a run that does this:
/// a sign of life of the database.
pub proof fn check_asks_first(
    st: RunView,
)
    requires
        st.rest.len() == 0,
    ensures
        check_spec(st).0 matches Err(HaltView::Ask(asked))
            && (
                asked matches script::CallView::Sql { sql, binds, .. } && sql == HEALTH_SQL@
                    && binds == Seq::<Bind>::empty()
            ),
{
}

} // verus!
