//! Changes of the schema.
use vstd::prelude::*;
use vstd::string::*;
use crate::db::error::{DbError, DbErrorView};
use crate::db::oracle::binds;
use crate::db::oracle::script;
use crate::db::oracle::script::{Bind, Halt, HaltView, Reply, RunView, Session};
use crate::digest;
use crate::text;

verus! {

/// Lets changes of the schema wait for locks.
pub const LOCK_TIMEOUT_SQL: &'static str = "ALTER SESSION SET DDL_LOCK_TIMEOUT = 30";

/// Stores the checksum of an applied migration anew.
pub const UPGRADE_CHECKSUM_SQL: &'static str = "UPDATE schema_migrations SET checksum = :1 WHERE version = :2";

/// Stores that a migration was applied.
pub const RECORD_SQL: &'static str = "INSERT INTO schema_migrations (version, description, checksum) VALUES (:1, :2, :3)";

/// Counts the applied migrations.
pub const COUNT_SQL: &'static str = "SELECT COUNT(*) FROM schema_migrations";

/// Reads the checksum of an applied migration.
pub const CHECKSUM_SQL: &'static str = "SELECT checksum FROM schema_migrations WHERE version = :1";

/// A step of the schema: its statements and the checksum by which they are known. A step that was
/// applied under an older checksum is known by that too.
#[derive(Debug)]
pub struct OracleMigration {
    pub version: &'static str,
    pub description: &'static str,
    pub checksum: String,
    pub legacy_checksum: Option<&'static str>,
    pub sql: String,
}

/// The scripts that change the schema.
pub struct OracleMigrator;

/// The checksum of statements: the SHA-256 digest of their text.
pub fn sql_checksum(sql: &str) -> (r: String)
    ensures
        r@ == digest::sha256_hex_of(sql.spec_bytes()),
{
    digest::sha256_hex(sql)
}

/// A line says something: it is neither blank nor a comment.
pub open spec fn line_counts(line: Seq<char>) -> bool {
    text::trimmed(line).len() > 0 && !text::begins_with(text::trimmed(line), "--"@)
}

/// The lines that say something.
pub open spec fn counting_lines(lines: Seq<Seq<char>>) -> Seq<Seq<char>>
    decreases lines.len(),
{
    if lines.len() == 0 {
        Seq::empty()
    } else {
        let rest = counting_lines(lines.drop_last());
        if line_counts(lines.last()) {
            rest.push(lines.last())
        } else {
            rest
        }
    }
}

/// Parts without the white space around them, blank ones left out.
pub open spec fn filled_parts(parts: Seq<Seq<char>>) -> Seq<Seq<char>>
    decreases parts.len(),
{
    if parts.len() == 0 {
        Seq::empty()
    } else {
        let rest = filled_parts(parts.drop_last());
        if text::trimmed(parts.last()).len() > 0 {
            rest.push(text::trimmed(parts.last()))
        } else {
            rest
        }
    }
}

/// The statements of a text: what stands between semicolons, without blank lines and comments.
pub open spec fn statements_of(sql: Seq<char>) -> Seq<Seq<char>> {
    filled_parts(
        text::split_at_each(text::joined_lines(counting_lines(text::lines_of(sql))), ';'),
    )
}

fn join_counting_lines(sql: &str) -> (r: String)
    ensures
        r@ == text::joined_lines(counting_lines(text::lines_of(sql@))),
{
    let lines = text::lines(sql);
    let ghost shown = text::lines_of(sql@);
    assert(shown.len() == lines@.len());
    let mut out: String = "".to_owned();
    let mut count: usize = 0;
    let mut i: usize = 0;
    proof {
        reveal_strlit("");
        assert(shown.take(0) =~= Seq::empty());
        assert(out@ =~= Seq::empty());
    }
    while i < lines.len()
        invariant
            shown == text::texts(lines@),
            i <= lines@.len(),
            count <= i,
            count == counting_lines(shown.take(i as int)).len(),
            out@ == text::joined_lines(counting_lines(shown.take(i as int))),
        decreases lines@.len() - i,
    {
        let ghost before = counting_lines(shown.take(i as int));
        assert(shown.take(i + 1).drop_last() =~= shown.take(i as int));
        assert(shown.take(i + 1).last() == lines@[i as int]@);
        let line: &str = lines[i].as_str();
        let bare: &str = text::trim(line);
        if text::chars_of(bare).len() > 0 && !text::starts_with(bare, "--") {
            assert(before.push(line@).drop_last() =~= before);
            if count > 0 {
                out.append("\n");
            } else {
                assert(before =~= Seq::empty());
                assert(Seq::empty() + line@ =~= line@);
            }
            out.append(line);
            count = count + 1;
        }
        i = i + 1;
    }
    assert(shown.take(i as int) =~= shown);
    out
}

/// The statements of a text: what stands between semicolons, without blank lines and comments.
pub fn split_oracle_statements(sql: &str) -> (r: Vec<String>)
    ensures
        text::texts(r@) == statements_of(sql@),
{
    let plain = join_counting_lines(sql);
    let parts = text::split(plain.as_str(), ';');
    let ghost shown = text::split_at_each(plain@, ';');
    let mut statements: Vec<String> = Vec::new();
    let mut i: usize = 0;
    assert(shown.take(0) =~= Seq::empty());
    assert(text::texts(statements@) =~= Seq::empty());
    while i < parts.len()
        invariant
            shown == text::texts(parts@),
            i <= parts@.len(),
            text::texts(statements@) == filled_parts(shown.take(i as int)),
        decreases parts@.len() - i,
    {
        let ghost before = statements@;
        assert(shown.take(i + 1).drop_last() =~= shown.take(i as int));
        assert(shown.take(i + 1).last() == parts@[i as int]@);
        let bare: &str = text::trim(parts[i].as_str());
        if text::chars_of(bare).len() > 0 {
            statements.push(bare.to_owned());
            assert(text::texts(statements@) =~= text::texts(before).push(bare@));
        }
        i = i + 1;
    }
    assert(shown.take(i as int) =~= shown);
    statements
}

proof fn filled_parts_are_bare(parts: Seq<Seq<char>>, i: int)
    requires
        0 <= i < filled_parts(parts).len(),
        forall|k: int| 0 <= k < parts.len() ==> !(#[trigger] parts[k]).contains(';'),
    ensures
        filled_parts(parts)[i].len() > 0,
        !text::white_space(filled_parts(parts)[i][0]),
        !text::white_space(filled_parts(parts)[i].last()),
        !filled_parts(parts)[i].contains(';'),
    decreases parts.len(),
{
    let rest = filled_parts(parts.drop_last());
    if i < rest.len() {
        assert forall|k: int| 0 <= k < parts.drop_last().len() implies !(
        #[trigger] parts.drop_last()[k]).contains(';') by {
            assert(parts.drop_last()[k] == parts[k]);
        }
        filled_parts_are_bare(parts.drop_last(), i);
    } else {
        let last = parts[parts.len() - 1];
        assert(filled_parts(parts)[i] == text::trimmed(last));
        text::trimmed_has_no_white_space_around(last);
        text::trimmed_is_within(last, ';');
    }
}

/// A statement is not blank, has no white space around it and no semicolon within.
pub proof fn statements_are_bare(sql: Seq<char>, i: int)
    requires
        0 <= i < statements_of(sql).len(),
    ensures
        statements_of(sql)[i].len() > 0,
        !text::white_space(statements_of(sql)[i][0]),
        !text::white_space(statements_of(sql)[i].last()),
        !statements_of(sql)[i].contains(';'),
{
    let plain = text::joined_lines(counting_lines(text::lines_of(sql)));
    let parts = text::split_at_each(plain, ';');
    assert forall|k: int| 0 <= k < parts.len() implies !(#[trigger] parts[k]).contains(';') by {
        text::split_parts_lack_separator(plain, ';', k);
    }
    filled_parts_are_bare(parts, i);
}

/// A migration is this step, with these statements.
pub open spec fn is_migration(
    migration: OracleMigration,
    version: Seq<char>,
    description: Seq<char>,
    legacy_checksum: Option<&'static str>,
    sql: &str,
) -> bool {
    &&& migration.version@ == version
    &&& migration.description@ == description
    &&& migration.checksum@ == digest::sha256_hex_of(sql.spec_bytes())
    &&& migration.legacy_checksum == legacy_checksum
    &&& migration.sql@ == sql@
}

fn migration(
    version: &'static str,
    description: &'static str,
    legacy_checksum: Option<&'static str>,
    sql: &str,
) -> (r: OracleMigration)
    ensures
        is_migration(r, version@, description@, legacy_checksum, sql),
{
    OracleMigration {
        version,
        description,
        checksum: sql_checksum(sql),
        legacy_checksum,
        sql: sql.to_owned(),
    }
}

/// The steps of the schema in the order in which they depend on each other, given the statements of
/// each: the foundation, the providers, and the card ranges with their policies.
pub fn wurzburg_migrations(foundation: &str, providers: &str, card_ranges: &str) -> (r: Vec<
    OracleMigration,
>)
    ensures
        r@.len() == 3,
        is_migration(
            r@[0],
            "V001"@,
            "production_foundation"@,
            Some("V001__foundation.sql"),
            foundation,
        ),
        is_migration(r@[1], "V002"@, "provider_foundation"@, None, providers),
        is_migration(r@[2], "V003"@, "card_range_policy_foundation"@, None, card_ranges),
{
    let mut steps: Vec<OracleMigration> = Vec::new();
    steps.push(
        migration("V001", "production_foundation", Some("V001__foundation.sql"), foundation),
    );
    steps.push(migration("V002", "provider_foundation", None, providers));
    steps.push(migration("V003", "card_range_policy_foundation", None, card_ranges));
    steps
}

/// The tables that a reset drops, in order.
pub open spec fn reset_tables() -> Seq<&'static str> {
    seq![
        "runtime_materialization_receipts",
        "card_policy_profiles",
        "card_range_providers",
        "card_ranges",
        "provider_fee_profiles",
        "provider_event_subscriptions",
        "provider_provisioning_jobs",
        "provider_kafka_credentials",
        "provider_kafka_access",
        "provider_ledger_accounts",
        "provider_operational_profiles",
        "provider_contacts",
        "providers",
        "kafka_poison_messages",
        "integration_inbox",
        "integration_outbox",
        "operation_wal",
        "business_config_audit",
        "business_config",
        "audit_logs",
        "idempotency_records",
        "card_range_allocation_locks",
        "oracle_migration_locks",
        "schema_migrations",
    ]
}

fn tables_to_reset() -> (r: Vec<&'static str>)
    ensures
        r@ == reset_tables(),
{
    let mut names: Vec<&'static str> = Vec::new();
    names.push("runtime_materialization_receipts");
    names.push("card_policy_profiles");
    names.push("card_range_providers");
    names.push("card_ranges");
    names.push("provider_fee_profiles");
    names.push("provider_event_subscriptions");
    names.push("provider_provisioning_jobs");
    names.push("provider_kafka_credentials");
    names.push("provider_kafka_access");
    names.push("provider_ledger_accounts");
    names.push("provider_operational_profiles");
    names.push("provider_contacts");
    names.push("providers");
    names.push("kafka_poison_messages");
    names.push("integration_inbox");
    names.push("integration_outbox");
    names.push("operation_wal");
    names.push("business_config_audit");
    names.push("business_config");
    names.push("audit_logs");
    names.push("idempotency_records");
    names.push("card_range_allocation_locks");
    names.push("oracle_migration_locks");
    names.push("schema_migrations");
    assert(names@ =~= reset_tables());
    names
}

/// What the attempt to drop a table came to: a table that is not there is no failure.
pub open spec fn dropped(reply: Reply, table: Seq<char>) -> Result<(), HaltView> {
    match reply {
        Reply::Executed(_) => Ok(()),
        Reply::Failed(f) => if text::contains_text(f.text@, "ORA-00942"@) {
            Ok(())
        } else {
            script::failed("failed to drop Oracle table "@ + table, f.text@)
        },
        _ => script::query_fault(script::UNEXPECTED_REPLY@),
    }
}

/// What the attempt to drop a table came to: a table that is not there is no failure.
pub fn judge_drop(reply: &Reply, table: &str) -> (r: Result<(), Halt>)
    ensures
        script::seen(r) == dropped(*reply, table@),
{
    match reply {
        Reply::Executed(_) => Ok(()),
        Reply::Failed(f) => if text::contains(f.text.as_str(), "ORA-00942") {
            Ok(())
        } else {
            Err(
                script::fail_because(
                    text::joined2("failed to drop Oracle table ", table).as_str(),
                    f.text.as_str(),
                ),
            )
        },
        _ => Err(script::fail_query(script::UNEXPECTED_REPLY)),
    }
}

/// The checksum that a reply holds, where the migration was applied. Where there is no table of
/// applied migrations, none was.
pub open spec fn applied_checksum(
    reply: Reply,
    version: Seq<char>,
) -> Result<Option<String>, HaltView> {
    let context = "failed to check Oracle migration "@ + version;
    match reply {
        Reply::Rows(found) => if found.rows@.len() > 0 {
            match found.rows@[0].text_at(0, context) {
                Ok(checksum) => Ok(Some(checksum)),
                Err(h) => Err(h),
            }
        } else {
            script::failed(context, script::UNEXPECTED_REPLY@)
        },
        Reply::Failed(f) => if text::contains_text(f.text@, "ORA-00942"@) || f.no_data {
            Ok(None)
        } else {
            script::failed(context, f.text@)
        },
        _ => script::failed(context, script::UNEXPECTED_REPLY@),
    }
}

/// The checksum that a reply holds, where the migration was applied.
pub fn read_applied_checksum(reply: &Reply, version: &str) -> (r: Result<Option<String>, Halt>)
    ensures
        script::seen(r) == applied_checksum(*reply, version@),
{
    let context = text::joined2("failed to check Oracle migration ", version);
    match reply {
        Reply::Rows(found) => if found.rows.len() > 0 {
            let checksum = found.rows[0].text(0, context.as_str())?;
            Ok(Some(checksum))
        } else {
            Err(script::fail_because(context.as_str(), script::UNEXPECTED_REPLY))
        },
        Reply::Failed(f) => if text::contains(f.text.as_str(), "ORA-00942") || f.no_data {
            Ok(None)
        } else {
            Err(script::fail_because(context.as_str(), f.text.as_str()))
        },
        _ => Err(script::fail_because(context.as_str(), script::UNEXPECTED_REPLY)),
    }
}

/// A configuration error.
pub open spec fn misconfigured<T>(message: Seq<char>) -> Result<T, HaltView> {
    Err(HaltView::Fail(DbErrorView::Configuration(message)))
}

fn fail_configuration(message: String) -> (r: Halt)
    ensures
        r@ == HaltView::Fail(DbErrorView::Configuration(message@)),
{
    Halt::Fail(DbError::Configuration(message))
}

/// The message about a migration that was applied with other statements.
pub open spec fn mismatch_text(
    version: Seq<char>,
    applied: Seq<char>,
    wanted: Seq<char>,
    checksum: Seq<char>,
) -> Seq<char> {
    "Oracle migration "@ + version + " checksum mismatch: applied "@ + applied + wanted + checksum
}

fn describe_mismatch(version: &str, applied: &str, wanted: &str, checksum: &str) -> (r: String)
    ensures
        r@ == mismatch_text(version@, applied@, wanted@, checksum@),
{
    let mut out = text::joined3("Oracle migration ", version, " checksum mismatch: applied ");
    out.append(applied);
    out.append(wanted);
    out.append(checksum);
    out
}

/// What an applied checksum means for a migration: it is the current one, an older one, or of other
/// statements.
#[derive(Clone, Copy, Debug, PartialEq, Eq, Structural)]
pub enum AppliedState {
    Current,
    Legacy,
    Different,
}

/// What an applied checksum means for a migration.
pub open spec fn applied_state_spec(
    applied: Seq<char>,
    migration: OracleMigration,
) -> AppliedState {
    if applied == migration.checksum@ {
        AppliedState::Current
    } else if migration.legacy_checksum matches Some(legacy) && legacy@ == applied {
        AppliedState::Legacy
    } else {
        AppliedState::Different
    }
}

/// What an applied checksum means for a migration.
pub fn applied_state(applied: &str, migration: &OracleMigration) -> (r: AppliedState)
    ensures
        r == applied_state_spec(applied@, *migration),
{
    if text::same_text(applied, migration.checksum.as_str()) {
        return AppliedState::Current;
    }
    match migration.legacy_checksum {
        Some(legacy) => if text::same_text(legacy, applied) {
            AppliedState::Legacy
        } else {
            AppliedState::Different
        },
        None => AppliedState::Different,
    }
}

/// Drops a table, where it is there.
pub open spec fn drop_table_spec(
    st: RunView,
    table: &'static str,
) -> (Result<(), HaltView>, RunView) {
    match script::attempt_spec(
        st,
        "DROP TABLE "@ + table@ + " CASCADE CONSTRAINTS PURGE"@,
        Seq::empty(),
    ) { (Err(h), st) => (Err(h), st), (Ok(reply), st) =>
    (dropped(reply, table@), st)
    }
}

/// Drops a table, where it is there.
pub fn drop_table(s: &mut Session, table: &'static str) -> (r: Result<(), Halt>)
    ensures
        (script::seen(r), final(s)@) == drop_table_spec(old(s)@, table),
{
    let reply = script::attempt(
        s,
        text::joined3("DROP TABLE ", table, " CASCADE CONSTRAINTS PURGE").as_str(),
        Vec::new(),
    )?;
    judge_drop(reply, table)
}

/// Drops tables in turn, where they are there.
pub open spec fn drop_tables_spec(
    st: RunView,
    tables: Seq<&'static str>,
    i: nat,
) -> (Result<(), HaltView>, RunView)
    decreases tables.len() - i,
{
    if i >= tables.len() {
        (Ok(()), st)
    } else {
        match drop_table_spec(st, tables[i as int]) {
            (Err(h), st) => (Err(h), st), (Ok(_), st) => drop_tables_spec(st, tables, i + 1)
        }
    }
}

/// Drops tables in turn, where they are there.
pub fn drop_tables(s: &mut Session, tables: &Vec<&'static str>) -> (r: Result<(), Halt>)
    ensures
        (script::seen(r), final(s)@) == drop_tables_spec(old(s)@, tables@, 0),
{
    let mut i: usize = 0;
    while i < tables.len()
        invariant
            i <= tables@.len(),
            drop_tables_spec(old(s)@, tables@, 0) == drop_tables_spec(s@, tables@, i as nat),
        decreases tables@.len() - i,
    {
        drop_table(s, tables[i])?;
        i = i + 1;
    }
    Ok(())
}

/// Each is taken in its turn, after those before it, and the first that fails ends the run.
pub proof fn drop_tables_go_in_turn(st: RunView, tables: Seq<&'static str>, i: nat)
    ensures
        ({
            let whole = drop_tables_spec(st, tables, i);
            let (next, at) = drop_table_spec(st, tables[i as int]);
            &&& i >= tables.len() ==> whole == (Ok::<_, HaltView>(()), st)
            &&& i < tables.len() ==> match next {
                Ok(_) => whole == drop_tables_spec(at, tables, i + 1),
                Err(halt) => whole.0 == Err::<(), _>(halt) && whole.1 == at,
            }
        }),
{
}

/// Drops the tables of the schema. Changes of the schema wait for locks meanwhile.
pub open spec fn reset_schema_spec(st: RunView) -> (Result<(), HaltView>, RunView) {
    match script::execute_spec(
        st,
        LOCK_TIMEOUT_SQL@,
        Seq::<Bind>::empty(),
        "failed to configure Oracle DDL lock timeout"@,
    ) { (Err(h), st) => (Err(h), st), (Ok(_), st) =>
    match drop_tables_spec(st, reset_tables(), 0) { (Err(h), st) => (Err(h), st), (Ok(_), st) =>
    match script::commit_spec(
        st,
        "failed to commit Oracle schema reset"@,
    ) { (Err(h), st) => (Err(h), st), (Ok(_), st) =>
    (Ok(()), st)
    }}}
}

impl OracleMigrator {
    /// Drops the tables of the schema. Changes of the schema wait for locks meanwhile.
    pub fn reset_schema(s: &mut Session) -> (r: Result<(), Halt>)
        ensures
            (script::seen(r), final(s)@) == reset_schema_spec(old(s)@),
    {
        script::execute(
            s,
            LOCK_TIMEOUT_SQL,
            binds::binds0(),
            "failed to configure Oracle DDL lock timeout",
        )?;
        drop_tables(s, &tables_to_reset())?;
        script::commit(s, "failed to commit Oracle schema reset")?;
        Ok(())
    }
}

/// The checksum under which a migration was applied, where it was.
pub open spec fn migration_checksum_spec(
    st: RunView,
    version: &'static str,
) -> (Result<Option<String>, HaltView>, RunView) {
    match script::attempt_row_spec(
        st,
        CHECKSUM_SQL@,
        seq![Bind::Label(version)],
        "t",
    ) { (Err(h), st) => (Err(h), st), (Ok(reply), st) =>
    (applied_checksum(reply, version@), st)
    }
}

/// The checksum under which a migration was applied, where it was.
pub fn migration_checksum(
    s: &mut Session,
    version: &'static str,
) -> (r: Result<Option<String>, Halt>)
    ensures
        (script::seen(r), final(s)@) == migration_checksum_spec(old(s)@, version),
{
    let reply = script::attempt_row(s, CHECKSUM_SQL, binds::binds1(Bind::Label(version)), "t")?;
    read_applied_checksum(reply, version)
}

/// The message about a statement of a migration that failed.
pub open spec fn statement_context(version: Seq<char>, statement: Seq<char>) -> Seq<char> {
    "failed to execute Oracle migration "@ + version + " statement `"@ + statement + "`"@
}

fn describe_statement(version: &str, statement: &str) -> (r: String)
    ensures
        r@ == statement_context(version@, statement@),
{
    let mut out = text::joined3("failed to execute Oracle migration ", version, " statement `");
    out.append(statement);
    out.append("`");
    out
}

/// Runs the statements of a migration from `i` on.
pub open spec fn run_statements_spec(
    st: RunView,
    statements: Seq<Seq<char>>,
    i: nat,
    version: Seq<char>,
) -> (Result<(), HaltView>, RunView)
    decreases statements.len() - i,
{
    if i >= statements.len() {
        (Ok(()), st)
    } else {
        match script::execute_spec(
            st,
            statements[i as int],
            Seq::empty(),
            statement_context(version, statements[i as int]),
        ) {
            (Err(h), st) => (Err(h), st),
            (Ok(_), st) => run_statements_spec(st, statements, i + 1, version),
        }
    }
}

/// Runs the statements of a migration in turn.
pub fn run_statements(s: &mut Session, statements: &Vec<String>, version: &str) -> (r: Result<
    (),
    Halt,
>)
    ensures
        (script::seen(r), final(s)@) == run_statements_spec(
            old(s)@,
            text::texts(statements@),
            0,
            version@,
        ),
{
    let ghost shown = text::texts(statements@);
    let mut i: usize = 0;
    while i < statements.len()
        invariant
            shown == text::texts(statements@),
            i <= statements@.len(),
            run_statements_spec(old(s)@, shown, 0, version@) == run_statements_spec(
                s@,
                shown,
                i as nat,
                version@,
            ),
        decreases statements@.len() - i,
    {
        let statement: &str = statements[i].as_str();
        assert(shown[i as int] == statement@);
        let none: Vec<Bind> = Vec::new();
        assert(none@ =~= Seq::empty());
        script::execute(s, statement, none, describe_statement(version, statement).as_str())?;
        i = i + 1;
    }
    Ok(())
}

/// Stores the checksum of an applied migration anew.
pub open spec fn upgrade_checksum_spec(
    st: RunView,
    migration: OracleMigration,
) -> (Result<(), HaltView>, RunView) {
    match script::execute_spec(
        st,
        UPGRADE_CHECKSUM_SQL@,
        seq![Bind::Text(migration.checksum), Bind::Label(migration.version)],
        "failed to upgrade Oracle migration "@ + migration.version@ + " checksum"@,
    ) { (Err(h), st) => (Err(h), st), (Ok(_), st) =>
    match script::commit_spec(
        st,
        "failed to commit Oracle migration "@ + migration.version@ + " checksum upgrade"@,
    ) { (Err(h), st) => (Err(h), st), (Ok(_), st) =>
    (Ok(()), st)
    }}
}

/// Stores the checksum of an applied migration anew.
pub fn upgrade_checksum(s: &mut Session, migration: &OracleMigration) -> (r: Result<(), Halt>)
    ensures
        (script::seen(r), final(s)@) == upgrade_checksum_spec(old(s)@, *migration),
{
    script::execute(
        s,
        UPGRADE_CHECKSUM_SQL,
        binds::binds2(Bind::Text(migration.checksum.clone()), Bind::Label(migration.version)),
        text::joined3(
            "failed to upgrade Oracle migration ",
            migration.version,
            " checksum",
        ).as_str(),
    )?;
    script::commit(
        s,
        text::joined3(
            "failed to commit Oracle migration ",
            migration.version,
            " checksum upgrade",
        ).as_str(),
    )?;
    Ok(())
}

/// Applies a migration that was not applied yet. One that was applied under an older checksum gets
/// its current one, and one that was applied with other statements is refused.
pub open spec fn apply_spec(
    st: RunView,
    migration: OracleMigration,
) -> (Result<(), HaltView>, RunView) {
    match migration_checksum_spec(
        st,
        migration.version,
    ) { (Err(h), st) => (Err(h), st), (Ok(found), st) =>
    if let Some(applied) = found {
        match applied_state_spec(applied@, migration) {
            AppliedState::Current => {
                (Ok(()), st)
            },
            AppliedState::Legacy => {
                upgrade_checksum_spec(st, migration)
            },
            AppliedState::Different => {
                (
                    misconfigured(mismatch_text(
                        migration.version@,
                        applied@,
                        ", current "@,
                        migration.checksum@,
                    )),
                    st,
                )
            },
        }
    } else {
    match run_statements_spec(
        st,
        statements_of(migration.sql@),
        0,
        migration.version@,
    ) { (Err(h), st) => (Err(h), st), (Ok(_), st) =>
    match script::execute_spec(
        st,
        RECORD_SQL@,
        seq![
            Bind::Label(migration.version),
            Bind::Label(migration.description),
            Bind::Text(migration.checksum),
        ],
        "failed to record Oracle migration "@ + migration.version@,
    ) { (Err(h), st) => (Err(h), st), (Ok(_), st) =>
    match script::commit_spec(
        st,
        "failed to commit Oracle migration "@ + migration.version@,
    ) { (Err(h), st) => (Err(h), st), (Ok(_), st) =>
    (Ok(()), st)
    }}}}}
}

impl OracleMigrator {
    /// Applies a migration that was not applied yet. One that was applied under an older checksum
    /// gets its current one, and one that was applied with other statements is refused.
    pub fn apply(s: &mut Session, migration: &OracleMigration) -> (r: Result<(), Halt>)
        ensures
            (script::seen(r), final(s)@) == apply_spec(old(s)@, *migration),
    {
        let found = migration_checksum(s, migration.version)?;
        if let Some(applied) = &found {
            match applied_state(applied.as_str(), migration) {
                AppliedState::Current => {
                    return Ok(());
                },
                AppliedState::Legacy => {
                    return upgrade_checksum(s, migration);
                },
                AppliedState::Different => {
                    return Err(fail_configuration(describe_mismatch(
                        migration.version,
                        applied.as_str(),
                        ", current ",
                        migration.checksum.as_str(),
                    )));
                },
            }
        }
        run_statements(s, &split_oracle_statements(migration.sql.as_str()), migration.version)?;
        script::execute(
            s,
            RECORD_SQL,
            binds::binds3(
                Bind::Label(migration.version),
                Bind::Label(migration.description),
                Bind::Text(migration.checksum.clone()),
            ),
            text::joined2("failed to record Oracle migration ", migration.version).as_str(),
        )?;
        script::commit(
            s,
            text::joined2("failed to commit Oracle migration ", migration.version).as_str(),
        )?;
        Ok(())
    }
}

/// Makes sure that a migration was applied with its current statements.
pub open spec fn verify_migration_spec(
    st: RunView,
    migration: OracleMigration,
) -> (Result<(), HaltView>, RunView) {
    match migration_checksum_spec(
        st,
        migration.version,
    ) { (Err(h), st) => (Err(h), st), (Ok(found), st) =>
    match found {
        Some(applied) => {
            if applied@ != migration.checksum@ {
                (
                    misconfigured(mismatch_text(
                        migration.version@,
                        applied@,
                        ", expected "@,
                        migration.checksum@,
                    )),
                    st,
                )
            } else {
            (Ok(()), st)
            }
        },
        None => {
            (
                misconfigured(
                    "required Oracle migration "@ + migration.version@ + " is not applied"@,
                ),
                st,
            )
        },
    }
    }
}

/// Makes sure that a migration was applied with its current statements.
pub fn verify_migration(s: &mut Session, migration: &OracleMigration) -> (r: Result<(), Halt>)
    ensures
        (script::seen(r), final(s)@) == verify_migration_spec(old(s)@, *migration),
{
    let found = migration_checksum(s, migration.version)?;
    match &found {
        Some(applied) => {
            if !text::same_text(applied.as_str(), migration.checksum.as_str()) {
                return Err(fail_configuration(describe_mismatch(
                    migration.version,
                    applied.as_str(),
                    ", expected ",
                    migration.checksum.as_str(),
                )));
            }
            return Ok(());
        },
        None => {
            return Err(fail_configuration(text::joined3(
                "required Oracle migration ",
                migration.version,
                " is not applied",
            )));
        },
    }
}

/// Makes sure that migrations were applied with their current statements.
pub open spec fn verify_migrations_spec(
    st: RunView,
    migrations: Seq<OracleMigration>,
    i: nat,
) -> (Result<(), HaltView>, RunView)
    decreases migrations.len() - i,
{
    if i >= migrations.len() {
        (Ok(()), st)
    } else {
        match verify_migration_spec(st, migrations[i as int]) {
            (Err(h), st) => (Err(h), st), (Ok(_), st) => verify_migrations_spec(
                st,
                migrations,
                i + 1,
            )
        }
    }
}

/// Makes sure that migrations were applied with their current statements.
pub fn verify_migrations(
    s: &mut Session,
    migrations: &Vec<OracleMigration>,
) -> (r: Result<(), Halt>)
    ensures
        (script::seen(r), final(s)@) == verify_migrations_spec(old(s)@, migrations@, 0),
{
    let mut i: usize = 0;
    while i < migrations.len()
        invariant
            i <= migrations@.len(),
            verify_migrations_spec(old(s)@, migrations@, 0) == verify_migrations_spec(
                s@,
                migrations@,
                i as nat,
            ),
        decreases migrations@.len() - i,
    {
        verify_migration(s, &migrations[i])?;
        i = i + 1;
    }
    Ok(())
}

/// Each is taken in its turn, after those before it, and the first that fails ends the run.
pub proof fn verify_migrations_go_in_turn(st: RunView, migrations: Seq<OracleMigration>, i: nat)
    ensures
        ({
            let whole = verify_migrations_spec(st, migrations, i);
            let (next, at) = verify_migration_spec(st, migrations[i as int]);
            &&& i >= migrations.len() ==> whole == (Ok::<_, HaltView>(()), st)
            &&& i < migrations.len() ==> match next {
                Ok(_) => whole == verify_migrations_spec(at, migrations, i + 1),
                Err(halt) => whole.0 == Err::<(), _>(halt) && whole.1 == at,
            }
        }),
{
}

/// The message about a number of applied migrations that is not the expected one.
pub open spec fn set_mismatch_text(found: i64, expected: nat) -> Seq<char> {
    "Oracle migration set mismatch: found "@ + text::integer_text(found as int) + ", expected "@
        + text::decimal_text(expected)
}

fn describe_set_mismatch(found: i64, expected: usize) -> (r: String)
    ensures
        r@ == set_mismatch_text(found, expected as nat),
{
    let mut out = text::joined3(
        "Oracle migration set mismatch: found ",
        text::integer(found).as_str(),
        ", expected ",
    );
    out.append(text::decimal(expected as u64).as_str());
    out
}

/// Makes sure that the applied migrations are these, with their current statements, and no others.
/// Nothing is changed.
pub open spec fn verify_spec(
    st: RunView,
    migrations: Seq<OracleMigration>,
) -> (Result<(), HaltView>, RunView) {
    match verify_migrations_spec(st, migrations, 0) { (Err(h), st) => (Err(h), st), (Ok(_), st) =>
    match script::one_int_spec(
        st,
        COUNT_SQL@,
        Seq::<Bind>::empty(),
        "failed to count applied Oracle migrations"@,
    ) { (Err(h), st) => (Err(h), st), (Ok(count), st) =>
    if count != migrations.len() as i64 {
        (misconfigured(set_mismatch_text(count, migrations.len())), st)
    } else {
    (Ok(()), st)
    }}}
}

impl OracleMigrator {
    /// Makes sure that the applied migrations are these, with their current statements, and no
    /// others. Nothing is changed.
    pub fn verify(s: &mut Session, migrations: &Vec<OracleMigration>) -> (r: Result<(), Halt>)
        ensures
            (script::seen(r), final(s)@) == verify_spec(old(s)@, migrations@),
    {
        verify_migrations(s, migrations)?;
        let count = script::one_int(
            s,
            COUNT_SQL,
            binds::binds0(),
            "failed to count applied Oracle migrations",
        )?;
        if count != migrations.len() as i64 {
            return Err(fail_configuration(describe_set_mismatch(count, migrations.len())));
        }
        Ok(())
    }
}

/// What is to be done to the schema before the service runs.
#[derive(Clone, Copy, Debug, PartialEq, Eq, Structural)]
pub enum SchemaPlan {
    Nothing,
    Migrate,
    ResetAndMigrate,
}

/// A plan or the reason against it, as plain values.
pub open spec fn seen_plan(r: Result<SchemaPlan, DbError>) -> Result<SchemaPlan, DbErrorView> {
    match r {
        Ok(plan) => Ok(plan),
        Err(e) => Err(e@),
    }
}

/// What is to be done to the schema. A schema in production is never dropped.
pub open spec fn schema_plan_spec(
    enabled: bool,
    force_recreate: bool,
    production: bool,
) -> Result<SchemaPlan, DbErrorView> {
    if !enabled {
        Ok(SchemaPlan::Nothing)
    } else if force_recreate && production {
        Err(
            DbErrorView::Configuration(
                "Oracle force_recreate migration mode is not allowed in production"@,
            ),
        )
    } else if force_recreate {
        Ok(SchemaPlan::ResetAndMigrate)
    } else {
        Ok(SchemaPlan::Migrate)
    }
}

/// What is to be done to the schema. A schema in production is never dropped.
pub fn schema_plan(enabled: bool, force_recreate: bool, production: bool) -> (r: Result<
    SchemaPlan,
    DbError,
>)
    ensures
        seen_plan(r) == schema_plan_spec(enabled, force_recreate, production),
{
    if !enabled {
        Ok(SchemaPlan::Nothing)
    } else if force_recreate && production {
        Err(
            DbError::Configuration(
                "Oracle force_recreate migration mode is not allowed in production".to_owned(),
            ),
        )
    } else if force_recreate {
        Ok(SchemaPlan::ResetAndMigrate)
    } else {
        Ok(SchemaPlan::Migrate)
    }
}

/// A migration that was applied with its current statements is not run again: the checksum is all
/// that is asked for.
pub proof fn applied_migration_is_left_alone(st: RunView, migration: OracleMigration)
    requires
        st.rest.len() > 0,
        applied_checksum(st.rest[0], migration.version@) matches Ok(Some(applied)) && applied@
            == migration.checksum@,
    ensures
        apply_spec(st, migration).0 == Ok::<(), HaltView>(()),
        apply_spec(st, migration).1.rest == st.rest.skip(1),
        apply_spec(st, migration).1.log.len() == st.log.len() + 1,
{
}

/// Making sure of the migrations changes nothing.
pub proof fn verification_changes_nothing(st: RunView, migrations: Seq<OracleMigration>)
    ensures
        script::writes(verify_spec(st, migrations).1.log) == script::writes(st.log),
{
    broadcast use script::writes_with_another;

    verified_migrations_change_nothing(st, migrations, 0);
}

proof fn verified_migrations_change_nothing(st: RunView, migrations: Seq<OracleMigration>, i: nat)
    ensures
        script::writes(verify_migrations_spec(st, migrations, i).1.log) == script::writes(st.log),
    decreases migrations.len() - i,
{
    broadcast use script::writes_with_another;

    if i < migrations.len() {
        verified_migrations_change_nothing(
            verify_migration_spec(st, migrations[i as int]).1,
            migrations,
            i + 1,
        );
    }
}

/// The schema is found in order only where each migration was applied with its current statements
/// and their number is that of all the applied ones.
pub proof fn verified_schema_is_current(st: RunView, migrations: Seq<OracleMigration>)
    ensures
        verify_spec(st, migrations).0 is Ok ==> verify_migrations_spec(st, migrations, 0).0 is Ok
            && script::one_int_spec(
            verify_migrations_spec(st, migrations, 0).1,
            COUNT_SQL@,
            Seq::empty(),
            "failed to count applied Oracle migrations"@,
        ).0 == Ok::<i64, HaltView>(migrations.len() as i64),
{
}


proof fn counting_lines_of_both(first: Seq<Seq<char>>, second: Seq<Seq<char>>)
    ensures
        counting_lines(first + second) == counting_lines(first) + counting_lines(second),
    decreases second.len(),
{
    if second.len() == 0 {
        assert(first + second =~= first);
        assert(counting_lines(first) + Seq::<Seq<char>>::empty() =~= counting_lines(first));
    } else {
        counting_lines_of_both(first, second.drop_last());
        assert((first + second).drop_last() =~= first + second.drop_last());
        assert(counting_lines(first + second) =~= counting_lines(first) + counting_lines(second));
    }
}

proof fn filled_parts_of_both(first: Seq<Seq<char>>, second: Seq<Seq<char>>)
    ensures
        filled_parts(first + second) == filled_parts(first) + filled_parts(second),
    decreases second.len(),
{
    if second.len() == 0 {
        assert(first + second =~= first);
        assert(filled_parts(first) + Seq::<Seq<char>>::empty() =~= filled_parts(first));
    } else {
        filled_parts_of_both(first, second.drop_last());
        assert((first + second).drop_last() =~= first + second.drop_last());
        assert(filled_parts(first + second) =~= filled_parts(first) + filled_parts(second));
    }
}

proof fn joined_lines_of_both(first: Seq<Seq<char>>, second: Seq<Seq<char>>)
    requires
        first.len() > 0,
        second.len() > 0,
    ensures
        text::joined_lines(first + second) == text::joined_lines(first) + "\n"@
            + text::joined_lines(second),
    decreases second.len(),
{
    assert((first + second).drop_last() =~= first + second.drop_last());
    if second.len() == 1 {
        assert(first + second.drop_last() =~= first);
    } else {
        joined_lines_of_both(first, second.drop_last());
        assert(text::joined_lines(first + second) =~= text::joined_lines(first) + "\n"@
            + text::joined_lines(second));
    }
}

/// The statements of lines that were chosen and joined.
spec fn statements_in(plain: Seq<char>) -> Seq<Seq<char>> {
    filled_parts(text::split_at_each(plain, ';'))
}

proof fn white_space_behind_adds_no_statement(plain: Seq<char>, c: char)
    requires
        text::white_space(c),
    ensures
        statements_in(plain.push(c)) == statements_in(plain),
{
    let parts = text::split_at_each(plain, ';');
    text::split_is_not_empty(plain, ';');
    assert(plain.push(c).drop_last() =~= plain);
    assert(parts.drop_last().push(parts.last().push(c)).drop_last() =~= parts.drop_last());
    text::white_space_around_is_trimmed(parts.last(), c);
}

proof fn white_space_in_front_adds_no_statement(plain: Seq<char>, c: char)
    requires
        text::white_space(c),
    ensures
        statements_in(seq![c] + plain) == statements_in(plain),
{
    let parts = text::split_at_each(plain, ';');
    text::split_is_not_empty(plain, ';');
    text::split_with_another_in_front(c, plain, ';');
    text::white_space_around_is_trimmed(parts[0], c);
    let front = seq![seq![c] + parts[0]];
    filled_parts_of_both(front, parts.skip(1));
    filled_parts_of_both(seq![parts[0]], parts.skip(1));
    assert(seq![parts[0]] + parts.skip(1) =~= parts);
    assert(front.drop_last() =~= seq![parts[0]].drop_last());
    assert(filled_parts(front) == filled_parts(seq![parts[0]]));
}

/// Lines that are ended hold the statements that they hold where the last one lacks its end.
proof fn ended_lines_hold_the_statements(sql: Seq<char>)
    ensures
        statements_in(
            text::joined_lines(
                counting_lines(
                    text::split_at_each(sql, '\n').map_values(
                        |line: Seq<char>| text::without_return(line),
                    ),
                ),
            ),
        ) == statements_of(sql),
{
    let parts = text::split_at_each(sql, '\n');
    text::split_is_not_empty(sql, '\n');
    let ended = parts.map_values(|line: Seq<char>| text::without_return(line));
    let before = parts.drop_last().map_values(|line: Seq<char>| text::without_return(line));
    let last = parts.last();
    let bare = text::without_return(last);
    assert(ended =~= before.push(bare));
    assert(before.push(bare).drop_last() =~= before);
    assert(before.push(last).drop_last() =~= before);
    if last.len() == 0 {
        assert(text::trimmed(last).len() == 0);
    } else if bare != last {
        assert(last =~= bare.push('\r'));
        text::white_space_around_is_trimmed(bare, '\r');
        if line_counts(last) {
            let kept = counting_lines(before);
            assert(kept.push(bare).drop_last() =~= kept);
            assert(kept.push(last).drop_last() =~= kept);
            assert(text::joined_lines(kept.push(last)) =~= text::joined_lines(
                kept.push(bare),
            ).push('\r'));
            white_space_behind_adds_no_statement(text::joined_lines(kept.push(bare)), '\r');
        }
    }
}

/// An empty text holds no statement.
pub proof fn empty_text_holds_no_statement()
    ensures
        statements_of(Seq::empty()) == Seq::<Seq<char>>::empty(),
{
    reveal_with_fuel(filled_parts, 2);
    let parts = text::split_at_each(Seq::empty(), '\n');
    assert(parts.drop_last() =~= Seq::empty());
    assert(text::lines_of(Seq::empty()) =~= Seq::empty());
    assert(parts.last() =~= Seq::empty());
    assert(text::trimmed(Seq::empty()) =~= Seq::empty());
    assert(seq![Seq::<char>::empty()].drop_last() =~= Seq::empty());
}

/// Two texts with a line between them that holds a semicolon alone have the statements of the
/// first, and those of the second behind them.
pub proof fn statements_of_both(first: Seq<char>, second: Seq<char>)
    ensures
        statements_of(first + "\n;\n"@ + second) == statements_of(first) + statements_of(second),
{
    reveal_strlit("\n;\n");
    reveal_strlit("\n");
    reveal_strlit("--");
    reveal_with_fuel(text::split_at_each, 2);
    reveal_with_fuel(counting_lines, 2);
    let whole = first + "\n;\n"@ + second;
    let rest = seq![';'].push('\n') + second;
    assert(whole =~= first.push('\n') + rest);
    text::split_of_joined(first, rest, '\n');
    text::split_of_joined(seq![';'], second, '\n');
    let strip = |line: Seq<char>| text::without_return(line);
    let head = text::split_at_each(first, '\n');
    let tail = text::split_at_each(second, '\n');
    text::split_is_not_empty(second, '\n');
    assert(seq![';'].drop_last() =~= Seq::<char>::empty());
    assert(Seq::<char>::empty().push(';') =~= seq![';']);
    assert(text::split_at_each(seq![';'], '\n') =~= seq![seq![';']]);
    let parts = text::split_at_each(whole, '\n');
    assert(parts =~= head + seq![seq![';']] + tail);
    let mark = seq![seq![';']];
    assert(parts.drop_last() =~= head + mark + tail.drop_last());
    assert(parts.drop_last().map_values(strip) =~= head.map_values(strip) + mark
        + tail.drop_last().map_values(strip));
    assert(text::lines_of(whole) =~= head.map_values(strip) + (mark + text::lines_of(second)));
    counting_lines_of_both(head.map_values(strip), mark + text::lines_of(second));
    counting_lines_of_both(mark, text::lines_of(second));
    assert(text::trimmed(seq![';']) == seq![';']);
    assert(mark.drop_last() =~= Seq::empty());
    assert(counting_lines(mark) =~= mark);
    let a = counting_lines(head.map_values(strip));
    let b = counting_lines(text::lines_of(second));
    let front = if a.len() == 0 {
        Seq::<char>::empty()
    } else {
        text::joined_lines(a).push('\n')
    };
    let back = if b.len() == 0 {
        Seq::<char>::empty()
    } else {
        seq!['\n'] + text::joined_lines(b)
    };
    if b.len() > 0 {
        joined_lines_of_both(mark, b);
    } else {
        assert(mark + b =~= mark);
    }
    assert(text::joined_lines(mark + b) =~= seq![';'] + back);
    if a.len() > 0 {
        joined_lines_of_both(a, mark + b);
    } else {
        assert(a + (mark + b) =~= mark + b);
    }
    let plain = text::joined_lines(a + (mark + b));
    assert(plain =~= front.push(';') + back);
    text::split_of_joined(front, back, ';');
    filled_parts_of_both(text::split_at_each(front, ';'), text::split_at_each(back, ';'));
    ended_lines_hold_the_statements(first);
    if a.len() > 0 {
        white_space_behind_adds_no_statement(text::joined_lines(a), '\n');
    } else {
        assert(a =~= Seq::empty());
    }
    if b.len() > 0 {
        white_space_in_front_adds_no_statement(text::joined_lines(b), '\n');
    } else {
        assert(b =~= Seq::empty());
    }
}

/// What an applied checksum means: it is current where it is the migration's own, old where it is
/// the one that the migration had, and another in any other case.
pub proof fn checksum_tells_how_a_migration_was_applied(
    applied: Seq<char>,
    migration: OracleMigration,
)
    ensures
        ({
            let state = applied_state_spec(applied, migration);
            let legacy = migration.legacy_checksum matches Some(old) && old@ == applied;
            &&& state is Current <==> applied == migration.checksum@
            &&& state is Legacy <==> applied != migration.checksum@ && legacy
            &&& state is Different <==> applied != migration.checksum@ && !legacy
        }),
{
}

/// An applied migration is never run again. Under its own checksum nothing is done, under its old
/// one the checksum is told anew, and under any other it is refused.
#[verifier::rlimit(40)]
pub proof fn applied_migration_is_told_or_refused(
    st: RunView,
    migration: OracleMigration,
    applied: String,
)
    requires
        migration_checksum_spec(st, migration.version).0 == Ok::<_, HaltView>(Some(applied)),
    ensures
        ({
            let (ended, after) = apply_spec(st, migration);
            let looked = migration_checksum_spec(st, migration.version).1;
            let legacy = migration.legacy_checksum matches Some(old) && old@ == applied@;
            &&& applied@ == migration.checksum@ ==> ended is Ok && after == looked
            &&& applied@ != migration.checksum@ && !legacy ==> ended is Err && after == looked
            &&& applied@ != migration.checksum@ && ended is Ok ==> legacy && script::ran(
                after.log,
                UPGRADE_CHECKSUM_SQL@,
                seq![Bind::Text(migration.checksum), Bind::Label(migration.version)],
            )
        }),
{
    broadcast use script::runs_on_with_another;

}

/// A migration that is applied is recorded with its version, its description and its checksum.
#[verifier::rlimit(40)]
pub proof fn new_migration_is_recorded(st: RunView, migration: OracleMigration)
    requires
        migration_checksum_spec(st, migration.version).0 == Ok::<Option<String>, HaltView>(None),
        apply_spec(st, migration).0 is Ok,
    ensures
        script::ran(
            apply_spec(st, migration).1.log,
            RECORD_SQL@,
            seq![
                Bind::Label(migration.version),
                Bind::Label(migration.description),
                Bind::Text(migration.checksum),
            ],
        ),
{
    broadcast use script::runs_on_with_another;

}

/// A migration is in order exactly where it was applied under its own checksum.
pub proof fn migration_is_verified_by_its_checksum(
    st: RunView,
    migration: OracleMigration,
    found: Option<String>,
)
    requires
        migration_checksum_spec(st, migration.version).0 == Ok::<_, HaltView>(found),
    ensures
        verify_migration_spec(st, migration).0 is Ok <==> (found matches Some(applied) && applied@
            == migration.checksum@),
{
}

/// The schema is dropped only where that is asked for and it is not in production; nothing is done
/// to it where migrations are switched off.
pub proof fn production_schema_is_never_dropped(
    enabled: bool,
    force_recreate: bool,
    production: bool,
)
    ensures
        ({
            let plan = schema_plan_spec(enabled, force_recreate, production);
            &&& plan is Err <==> enabled && force_recreate && production
            &&& plan == Ok::<_, DbErrorView>(SchemaPlan::Nothing) <==> !enabled
            &&& plan == Ok::<_, DbErrorView>(SchemaPlan::ResetAndMigrate) <==> enabled
                && force_recreate && !production
            &&& plan == Ok::<_, DbErrorView>(SchemaPlan::Migrate) <==> enabled && !force_recreate
        }),
{
}

/// A table that is not there is no failure; any other refusal to drop one is.
pub proof fn absent_table_is_no_failure(reply: Reply, table: Seq<char>)
    ensures
        dropped(reply, table) is Ok <==> (reply is Executed || (reply matches Reply::Failed(f)
            && text::contains_text(f.text@, "ORA-00942"@))),
{
}

/// What is asked first, and with which values, in a run that does this:
/// drops the tables of the schema.
pub proof fn reset_schema_asks_first(
    st: RunView,
)
    requires
        st.rest.len() == 0,
    ensures
        reset_schema_spec(st).0 matches Err(HaltView::Ask(asked))
            && (
                asked matches script::CallView::Sql { sql, binds, .. } && sql == LOCK_TIMEOUT_SQL@
                    && binds == Seq::<Bind>::empty()
            ),
{
}

/// What is asked first, and with which values, in a run that does this:
/// the checksum under which a migration was applied, where it was.
pub proof fn migration_checksum_asks_first(
    st: RunView,
    version: &'static str,
)
    requires
        st.rest.len() == 0,
    ensures
        migration_checksum_spec(st, version).0 matches Err(HaltView::Ask(asked))
            && (
                asked matches script::CallView::Sql { sql, binds, .. } && sql == CHECKSUM_SQL@
                    && binds == seq![Bind::Label(version)]
            ),
{
}

/// What is asked first, and with which values, in a run that does this:
/// stores the checksum of an applied migration anew.
pub proof fn upgrade_checksum_asks_first(
    st: RunView,
    migration: OracleMigration,
)
    requires
        st.rest.len() == 0,
    ensures
        upgrade_checksum_spec(st, migration).0 matches Err(HaltView::Ask(asked))
            && (
                asked matches script::CallView::Sql { sql, binds, .. }
                    && sql == UPGRADE_CHECKSUM_SQL@
                    && binds == seq![Bind::Text(migration.checksum), Bind::Label(migration.version)]
            ),
{
}

/// What the database is told, and with which values, where a run succeeds that does this:
/// stores the checksum of an applied migration anew.
#[verifier::rlimit(60)]
pub proof fn upgrade_checksum_is_told(
    st: RunView,
    migration: OracleMigration,
)
    ensures
        ({
            let (ended, after) = upgrade_checksum_spec(st, migration);
            let log = after.log;
            ended is Ok ==> {
                &&& script::ran(
                    log,
                    UPGRADE_CHECKSUM_SQL@,
                    seq![Bind::Text(migration.checksum), Bind::Label(migration.version)],
                )
            }
        }),
{
    broadcast use {script::runs_on_with_another, script::told_where_with_another};

}

} // verus!
