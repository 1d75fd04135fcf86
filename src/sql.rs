//! Connection settings and the statements the outbox sends to the store.

use vstd::prelude::*;
use crate::text::push_char;

verus! {

/// Where and as whom to connect to the store.
#[derive(Debug, Clone)]
pub struct DbConfig {
    pub host: String,
    pub port: u16,
    pub user: String,
    pub password: String,
    pub dbname: String,
}

/// The outbox table and the store objects that stream its changes.
#[derive(Debug, Clone)]
pub struct ReplicationConfig {
    pub table: String,
    pub publication: String,
    pub replication_slot: String,
}

/// The character of a digit below sixteen, upper case past nine.
pub open spec fn digit_char(d: nat) -> char {
    if d < 10 {
        (d + 48) as char
    } else {
        (d + 55) as char
    }
}

/// The digits of `n` in base `base`, most significant first, without
/// leading zeros.
pub open spec fn digits(n: nat, base: nat) -> Seq<char>
    decreases n,
    via digits_decreases
{
    if n < base || base < 2 {
        seq![digit_char(n)]
    } else {
        digits(n / base, base).push(digit_char(n % base))
    }
}

#[via_fn]
proof fn digits_decreases(n: nat, base: nat) {
    if !(n < base || base < 2) {
        vstd::arithmetic::div_mod::lemma_div_decreases(n as int, base as int);
    }
}

fn digit(d: u64) -> (c: char)
    requires
        d < 16,
    ensures
        c == digit_char(d as nat),
{
    if d < 10 {
        (d as u8 + 48) as char
    } else {
        (d as u8 + 55) as char
    }
}

/// Appends the digits of `n` in base `base`.
fn push_digits(s: &mut String, n: u64, base: u64)
    requires
        base == 10 || base == 16,
    ensures
        final(s)@ == old(s)@ + digits(n as nat, base as nat),
    decreases n,
{
    if n >= base {
        push_digits(s, n / base, base);
    }
    push_char(s, digit(n % base));
    assert(s@ =~= old(s)@ + digits(n as nat, base as nat));
}

/// The connection string for `config`; `replication` asks for a connection
/// that can stream logical replication.
pub open spec fn connection_string_spec(config: DbConfig, replication: bool) -> Seq<char> {
    "user="@ + config.user@ + " password="@ + config.password@ + " host="@ + config.host@
        + " port="@ + digits(config.port as nat, 10) + " dbname="@ + config.dbname@ + if replication {
        " replication=database"@
    } else {
        Seq::empty()
    }
}

impl DbConfig {
    /// The connection string for this configuration; `replication` asks for
    /// a connection that can stream logical replication.
    pub fn connection_string(&self, replication: bool) -> (r: String)
        ensures
            r@ == connection_string_spec(*self, replication),
    {
        let mut s = String::from_str("user=");
        s.append(self.user.as_str());
        s.append(" password=");
        s.append(self.password.as_str());
        s.append(" host=");
        s.append(self.host.as_str());
        s.append(" port=");
        push_digits(&mut s, self.port as u64, 10);
        s.append(" dbname=");
        s.append(self.dbname.as_str());
        if replication {
            s.append(" replication=database");
        }
        assert(s@ =~= connection_string_spec(*self, replication));
        s
    }
}

/// How the store writes a log position: the high and the low 32 bits in
/// upper-case hex, separated by a slash.
pub open spec fn lsn_text_spec(lsn: u64) -> Seq<char> {
    digits(lsn as nat / 0x1_0000_0000, 16) + "/"@ + digits(lsn as nat % 0x1_0000_0000, 16)
}

/// The position that `s` spells in the store's notation, if any.
pub uninterp spec fn lsn_of(s: Seq<char>) -> Option<u64>;

/// Relies on the `Display` of `tokio_postgres::types::PgLsn`: the high and
/// the low 32 bits in upper-case hex, separated by a slash.
#[verifier::external_body]
pub(crate) fn lsn_text(lsn: u64) -> (r: String)
    ensures
        r@ == lsn_text_spec(lsn),
{
    tokio_postgres::types::PgLsn::from(lsn).to_string()
}

/// Relies on the `FromStr` of `tokio_postgres::types::PgLsn`: the position
/// that `s` spells, if it spells one.
#[verifier::external_body]
pub(crate) fn parse_lsn(s: &str) -> (r: Option<u64>)
    ensures
        r == lsn_of(s@),
{
    s.parse::<tokio_postgres::types::PgLsn>().ok().map(u64::from)
}

/// The query for the position that a replication slot has confirmed.
pub open spec fn slot_position_query_spec(slot: Seq<char>) -> Seq<char> {
    "SELECT confirmed_flush_lsn FROM pg_replication_slots WHERE slot_name = '"@ + slot + "'"@
}

pub fn slot_position_query(slot: &str) -> (r: String)
    ensures
        r@ == slot_position_query_spec(slot@),
{
    let mut s = String::from_str("SELECT confirmed_flush_lsn FROM pg_replication_slots WHERE slot_name = '");
    s.append(slot);
    s.append("'");
    s
}

/// Why the start position could not be found.
#[derive(Debug, Clone, Copy, PartialEq, Eq, Structural)]
pub enum StartPositionError {
    /// The slot query returned no row.
    NoRow,
    /// The row holds no confirmed position.
    MissingPosition,
    /// The confirmed position is not in the store's notation.
    Malformed,
}

/// The start position given the values of `confirmed_flush_lsn` in the rows
/// that the slot query returned.
pub open spec fn start_position_spec(rows: Seq<Option<String>>) -> Result<u64, StartPositionError> {
    if rows.len() == 0 {
        Err(StartPositionError::NoRow)
    } else {
        match rows[0] {
            None => Err(StartPositionError::MissingPosition),
            Some(text) => match lsn_of(text@) {
                Some(lsn) => Ok(lsn),
                None => Err(StartPositionError::Malformed),
            },
        }
    }
}

/// The position to start streaming from: the one that the first row of the
/// slot query holds.
pub fn start_position(rows: &[Option<String>]) -> (r: Result<u64, StartPositionError>)
    ensures
        r == start_position_spec(rows@),
{
    if rows.len() == 0 {
        return Err(StartPositionError::NoRow);
    }
    match &rows[0] {
        None => Err(StartPositionError::MissingPosition),
        Some(text) => match parse_lsn(text.as_str()) {
            Some(lsn) => Ok(lsn),
            None => Err(StartPositionError::Malformed),
        },
    }
}

/// The command that starts streaming `slot` at `lsn` with protocol version 1
/// of the `pgoutput` plugin, for the tables of `publication`.
pub open spec fn start_replication_spec(slot: Seq<char>, publication: Seq<char>, lsn: u64) -> Seq<char> {
    "START_REPLICATION SLOT "@ + slot + " LOGICAL "@ + lsn_text_spec(lsn)
        + " (\"proto_version\" '1', \"publication_names\" '"@ + publication + "')"@
}

pub fn start_replication_command(config: &ReplicationConfig, lsn: u64) -> (r: String)
    ensures
        r@ == start_replication_spec(config.replication_slot@, config.publication@, lsn),
{
    let mut s = String::from_str("START_REPLICATION SLOT ");
    s.append(config.replication_slot.as_str());
    s.append(" LOGICAL ");
    let position = lsn_text(lsn);
    s.append(position.as_str());
    s.append(" (\"proto_version\" '1', \"publication_names\" '");
    s.append(config.publication.as_str());
    s.append("')");
    assert(s@ =~= start_replication_spec(config.replication_slot@, config.publication@, lsn));
    s
}

/// The statement that inserts one outbox row; its parameters are the id,
/// the aggregate id, the event type, the payload and the budget.
pub open spec fn insert_statement_spec(table: Seq<char>) -> Seq<char> {
    "INSERT INTO "@ + table + " (id, agg_id, event_type, data, ttl) VALUES ($1, $2, $3, $4, $5)"@
}

pub fn insert_statement(table: &str) -> (r: String)
    ensures
        r@ == insert_statement_spec(table@),
{
    let mut s = String::from_str("INSERT INTO ");
    s.append(table);
    s.append(" (id, agg_id, event_type, data, ttl) VALUES ($1, $2, $3, $4, $5)");
    s
}

/// The statement that sets the budget of one row; its parameters are the id
/// and the new budget.
pub open spec fn update_ttl_statement_spec(table: Seq<char>) -> Seq<char> {
    "UPDATE "@ + table + " SET ttl = $2 WHERE id = $1"@
}

pub fn update_ttl_statement(table: &str) -> (r: String)
    ensures
        r@ == update_ttl_statement_spec(table@),
{
    let mut s = String::from_str("UPDATE ");
    s.append(table);
    s.append(" SET ttl = $2 WHERE id = $1");
    s
}

/// The query for the ids of the dead rows.
pub open spec fn dead_messages_query_spec(table: Seq<char>) -> Seq<char> {
    "SELECT id FROM "@ + table + " WHERE ttl <= 0"@
}

pub fn dead_messages_query(table: &str) -> (r: String)
    ensures
        r@ == dead_messages_query_spec(table@),
{
    let mut s = String::from_str("SELECT id FROM ");
    s.append(table);
    s.append(" WHERE ttl <= 0");
    s
}

/// `before`, then `middle`, then `after`.
fn surround(before: &str, middle: &str, after: &str) -> (r: String)
    ensures
        r@ == before@ + middle@ + after@,
{
    let mut s = String::from_str(before);
    s.append(middle);
    s.append(after);
    s
}

/// The statement that creates the outbox table where it is missing.
pub open spec fn create_table_statement_spec(table: Seq<char>) -> Seq<char> {
    "CREATE TABLE IF NOT EXISTS \""@ + table
        + "\" (id UUID PRIMARY KEY, agg_id UUID NOT NULL, event_type TEXT NOT NULL, data BYTEA NOT NULL, ttl smallint NOT NULL, created_at TIMESTAMPTZ DEFAULT NOW())"@
}

pub fn create_table_statement(table: &str) -> (r: String)
    ensures
        r@ == create_table_statement_spec(table@),
{
    surround(
        "CREATE TABLE IF NOT EXISTS \"",
        table,
        "\" (id UUID PRIMARY KEY, agg_id UUID NOT NULL, event_type TEXT NOT NULL, data BYTEA NOT NULL, ttl smallint NOT NULL, created_at TIMESTAMPTZ DEFAULT NOW())",
    )
}

/// The query whose rows show that the table exists.
pub fn table_exists_query(table: &str) -> (r: String)
    ensures
        r@ == "SELECT * FROM pg_catalog.pg_tables WHERE pg_tables.tablename = '"@ + table@ + "'"@,
{
    surround("SELECT * FROM pg_catalog.pg_tables WHERE pg_tables.tablename = '", table, "'")
}

/// The query whose rows show that the publication exists.
pub fn publication_exists_query(publication: &str) -> (r: String)
    ensures
        r@ == "SELECT * FROM pg_publication WHERE pubname = '"@ + publication@ + "'"@,
{
    surround("SELECT * FROM pg_publication WHERE pubname = '", publication, "'")
}

/// The query whose rows show that the replication slot exists in `dbname`.
pub fn slot_exists_query(slot: &str, dbname: &str) -> (r: String)
    ensures
        r@ == "SELECT * FROM pg_replication_slots WHERE slot_name = '"@ + slot@
            + "' AND database = '"@ + dbname@ + "'"@,
{
    let mut s = surround("SELECT * FROM pg_replication_slots WHERE slot_name = '", slot, "' AND database = '");
    s.append(dbname);
    s.append("'");
    s
}

/// The statement that publishes the inserts and updates of the table.
pub open spec fn create_publication_spec(publication: Seq<char>, table: Seq<char>) -> Seq<char> {
    "CREATE PUBLICATION "@ + publication + " FOR TABLE \""@ + table
        + "\" WITH (publish = 'insert, update')"@
}

pub fn create_publication_statement(publication: &str, table: &str) -> (r: String)
    ensures
        r@ == create_publication_spec(publication@, table@),
{
    let mut s = surround("CREATE PUBLICATION ", publication, " FOR TABLE \"");
    s.append(table);
    s.append("\" WITH (publish = 'insert, update')");
    s
}

/// The command that creates a logical replication slot for `pgoutput`.
pub open spec fn create_slot_spec(slot: Seq<char>) -> Seq<char> {
    "CREATE_REPLICATION_SLOT \""@ + slot + "\" LOGICAL \"pgoutput\" NOEXPORT_SNAPSHOT"@
}

pub fn create_slot_statement(slot: &str) -> (r: String)
    ensures
        r@ == create_slot_spec(slot@),
{
    surround("CREATE_REPLICATION_SLOT \"", slot, "\" LOGICAL \"pgoutput\" NOEXPORT_SNAPSHOT")
}

/// Why the store cannot be set up for streaming.
#[derive(Debug, Clone, Copy, PartialEq, Eq, Structural)]
pub enum SetupError {
    /// The outbox table does not exist.
    MissingTable,
}

/// What setting up streaming for `config` needs, given what exists: the
/// publication and the slot that are missing, in that order. The table must
/// exist already.
pub open spec fn setup_plan_spec(
    config: ReplicationConfig,
    table_exists: bool,
    publication_exists: bool,
    slot_exists: bool,
) -> Result<Seq<Seq<char>>, SetupError> {
    if !table_exists {
        Err(SetupError::MissingTable)
    } else {
        let p = if publication_exists {
            Seq::empty()
        } else {
            seq![create_publication_spec(config.publication@, config.table@)]
        };
        Ok(p + if slot_exists {
            Seq::empty()
        } else {
            seq![create_slot_spec(config.replication_slot@)]
        })
    }
}

/// The statements that set up streaming for `config`, given what exists.
pub fn setup_plan(
    config: &ReplicationConfig,
    table_exists: bool,
    publication_exists: bool,
    slot_exists: bool,
) -> (r: Result<Vec<String>, SetupError>)
    ensures
        match setup_plan_spec(*config, table_exists, publication_exists, slot_exists) {
            Ok(stmts) => r matches Ok(v) && v@.map_values(|x: String| x@) == stmts,
            Err(e) => r matches Err(f) && f == e,
        },
{
    if !table_exists {
        return Err(SetupError::MissingTable);
    }
    let mut stmts: Vec<String> = Vec::new();
    if !publication_exists {
        stmts.push(create_publication_statement(config.publication.as_str(), config.table.as_str()));
    }
    if !slot_exists {
        stmts.push(create_slot_statement(config.replication_slot.as_str()));
    }
    assert(stmts@.map_values(|x: String| x@) =~= setup_plan_spec(
        *config,
        table_exists,
        publication_exists,
        slot_exists,
    )->Ok_0);
    Ok(stmts)
}

} // verus!
