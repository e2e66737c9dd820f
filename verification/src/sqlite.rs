//! The calls into SQLite (through `rusqlite`) that the store makes, and
//! the record of them. Each call records exactly the statement and the
//! parameters it hands to SQLite, with what came back. What a statement
//! does depends on the database on disk, so the calls promise little about
//! what comes back: only that a query's rows have the values asked for.
//! The store decides everything around them.

use vstd::prelude::*;
use crate::store::{one_more_call, params_view, rows_view, SqlCall, SqlOutcome};

verus! {

#[verifier::external_type_specification]
#[verifier::external_body]
pub struct ExConnection(rusqlite::Connection);

#[verifier::external_type_specification]
#[verifier::external_body]
pub struct ExSqliteError(rusqlite::Error);

#[verifier::external_type_specification]
#[verifier::external_body]
pub struct ExPathBuf(std::path::PathBuf);

#[verifier::external_type_specification]
#[verifier::external_body]
pub struct ExRow<'stmt>(rusqlite::Row<'stmt>);

/// A value bound to a statement parameter.
#[derive(Debug, Clone, PartialEq, Eq)]
pub enum SqlParam {
    Null,
    Integer(i64),
    Text(String),
}

/// A column value read from a row, as the store reads it: integers and
/// texts with their values; reals and blobs, which no column of the store
/// holds, by their kind only.
#[derive(Debug, Clone, PartialEq, Eq)]
pub enum SqlValue {
    Null,
    Integer(i64),
    Real,
    Text(String),
    Blob,
}

/// What a statement run for its effect gave, as it stands in the record.
pub open spec fn changed_outcome(r: Result<usize, rusqlite::Error>) -> SqlOutcome {
    match r {
        Ok(n) => SqlOutcome::Changed(n as nat),
        Err(_) => SqlOutcome::Failed,
    }
}

/// What a query gave, as it stands in the record.
pub open spec fn rows_outcome(r: Result<Vec<Vec<SqlValue>>, rusqlite::Error>) -> SqlOutcome {
    match r {
        Ok(rows) => SqlOutcome::Rows(rows_view(rows@)),
        Err(_) => SqlOutcome::Failed,
    }
}

/// A connection to a SQLite database. Its view is the record of every call
/// made through it: the statement, its parameters, and what came back.
/// Only the calls below add to the record, each as it makes its call.
pub struct Database {
    conn: rusqlite::Connection,
    log: Ghost<Seq<SqlCall>>,
}

impl View for Database {
    type V = Seq<SqlCall>;

    closed spec fn view(&self) -> Seq<SqlCall> {
        self.log@
    }
}

impl Database {
    /// Opens (creating if needed) the SQLite database at `path`:
    /// `rusqlite::Connection::open`. Whether it succeeds depends on the
    /// file system; a database it opens has no call recorded yet.
    #[verifier::external_body]
    pub(crate) fn open(path: &std::path::PathBuf) -> (r: Result<Database, rusqlite::Error>)
        ensures
            r matches Ok(db) ==> db@ == Seq::<SqlCall>::empty(),
    {
        Ok(Database { conn: rusqlite::Connection::open(path)?, log: Ghost(Seq::empty()) })
    }

    /// Runs the statements in `sql`, which take no parameters:
    /// `rusqlite::Connection::execute_batch` on exactly `sql`. The call is
    /// recorded with whether it ran; that depends on the database.
    #[verifier::external_body]
    pub(crate) fn batch(&mut self, sql: &str) -> (r: Result<(), rusqlite::Error>)
        ensures
            one_more_call(old(self)@, final(self)@, sql@, Seq::empty()),
            final(self)@.last().outcome == (if r is Ok { SqlOutcome::Done } else { SqlOutcome::Failed }),
    {
        self.conn.execute_batch(sql)
    }

    /// Runs one statement with positional parameters and gives the number
    /// of rows it changed: `rusqlite::Connection::execute` on exactly `sql`
    /// and `params`. The call is recorded with what came back, which
    /// depends on the database.
    #[verifier::external_body]
    pub(crate) fn run(&mut self, sql: &str, params: &Vec<SqlParam>) -> (r: Result<usize, rusqlite::Error>)
        ensures
            one_more_call(old(self)@, final(self)@, sql@, params_view(params@)),
            final(self)@.last().outcome == changed_outcome(r),
    {
        let values: Vec<rusqlite::types::Value> = params.iter().map(|p| match p {
            SqlParam::Null => rusqlite::types::Value::Null,
            SqlParam::Integer(i) => rusqlite::types::Value::Integer(*i),
            SqlParam::Text(t) => rusqlite::types::Value::Text(t.clone()),
        }).collect();
        self.conn.execute(sql, rusqlite::params_from_iter(values))
    }

    /// Runs a query with positional parameters and reads the first
    /// `columns` values of every row, in order, with `read_row`:
    /// `rusqlite::Connection::prepare` on exactly `sql`, then
    /// `rusqlite::Statement::query_map` on exactly `params`, collected.
    /// Every row it hands out is what `read_row` gave for it, so each has
    /// `columns` values. The call is recorded with what came back; which
    /// rows come back depends on the database.
    #[verifier::external_body]
    pub(crate) fn select(&mut self, sql: &str, params: &Vec<SqlParam>, columns: usize) -> (r: Result<Vec<Vec<SqlValue>>, rusqlite::Error>)
        ensures
            one_more_call(old(self)@, final(self)@, sql@, params_view(params@)),
            final(self)@.last().outcome == rows_outcome(r),
            r matches Ok(rows) ==> forall|i: int| 0 <= i < rows@.len() ==> #[trigger] rows@[i]@.len() == columns,
    {
        let values: Vec<rusqlite::types::Value> = params.iter().map(|p| match p {
            SqlParam::Null => rusqlite::types::Value::Null,
            SqlParam::Integer(i) => rusqlite::types::Value::Integer(*i),
            SqlParam::Text(t) => rusqlite::types::Value::Text(t.clone()),
        }).collect();
        let mut statement = self.conn.prepare(sql)?;
        let rows = statement.query_map(rusqlite::params_from_iter(values), |row| read_row(row, columns))?;
        rows.collect()
    }
}

/// The value in column `index` of `row`. `rusqlite::Row::get` into a
/// `rusqlite::types::Value`; nothing is promised of it, as it depends on
/// the database.
#[verifier::external_body]
pub(crate) fn column_value(row: &rusqlite::Row, index: usize) -> (r: Result<SqlValue, rusqlite::Error>) {
    match row.get::<usize, rusqlite::types::Value>(index)? {
        rusqlite::types::Value::Null => Ok(SqlValue::Null),
        rusqlite::types::Value::Integer(i) => Ok(SqlValue::Integer(i)),
        rusqlite::types::Value::Real(_) => Ok(SqlValue::Real),
        rusqlite::types::Value::Text(t) => Ok(SqlValue::Text(t)),
        rusqlite::types::Value::Blob(_) => Ok(SqlValue::Blob),
    }
}

/// Reads the first `columns` values of a row.
pub fn read_row(row: &rusqlite::Row, columns: usize) -> (r: Result<Vec<SqlValue>, rusqlite::Error>)
    ensures
        r matches Ok(values) ==> values@.len() == columns,
        columns == 0 ==> r is Ok,
{
    let mut values: Vec<SqlValue> = Vec::new();
    let mut i: usize = 0;
    while i < columns
        invariant
            0 <= i <= columns,
            values@.len() == i,
        decreases columns - i,
    {
        let v = column_value(row, i)?;
        values.push(v);
        i = i + 1;
    }
    Ok(values)
}

} // verus!
