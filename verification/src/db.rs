//! One SQLite connection, with the record of every call made on it.
//!
//! The record is a ghost field that only the methods here extend, each by
//! the one call it makes: what it handed to SQLite and what came back. What
//! SQLite answers depends on the database file, so nothing here claims it.
use vstd::prelude::*;
use rusqlite::Connection;
use std::path::PathBuf;
use crate::storage::TaskRow;

verus! {

#[verifier::external_type_specification]
#[verifier::external_body]
pub struct ExConnection(rusqlite::Connection);

#[verifier::external_type_specification]
#[verifier::external_body]
pub struct ExSqlError(rusqlite::Error);

#[verifier::external_type_specification]
#[verifier::external_body]
pub struct ExPathBuf(std::path::PathBuf);

/// A value bound to a statement parameter, as a mathematical value.
pub enum SqlValue {
    Integer(int),
    Text(Seq<char>),
    Null,
}

/// A text parameter that is NULL when absent.
pub open spec fn text_or_null(value: Option<Seq<char>>) -> SqlValue {
    match value {
        Some(t) => SqlValue::Text(t),
        None => SqlValue::Null,
    }
}

/// The view of an optional borrowed text.
pub open spec fn opt_text(value: Option<&str>) -> Option<Seq<char>> {
    match value {
        Some(t) => Some(t@),
        None => None,
    }
}

/// One call made on SQLite: what was handed over, and what came back.
pub enum SqlCall {
    /// The database file at `path` was opened; `opened` when without error.
    Open { path: PathBuf, opened: bool },
    /// The statements `sql` were run as a batch; `done` when without error.
    Batch { sql: Seq<char>, done: bool },
    /// The statement `sql` was executed with `params`; `changed` is the number
    /// of rows it changed, `None` when it failed.
    Execute { sql: Seq<char>, params: Seq<SqlValue>, changed: Option<nat> },
    /// The query `sql` with `params` was asked for an integer in column 0 of
    /// its first row.
    QueryInteger { sql: Seq<char>, params: Seq<SqlValue>, value: Result<i64, rusqlite::Error> },
    /// The query `sql` with `params` was asked for nullable text in column 0
    /// of its first row.
    QueryText {
        sql: Seq<char>,
        params: Seq<SqlValue>,
        found: Result<Option<String>, rusqlite::Error>,
    },
    /// The query `sql` with `params` was asked for all its rows as task rows.
    QueryRows {
        sql: Seq<char>,
        params: Seq<SqlValue>,
        rows: Result<Seq<Result<TaskRow, rusqlite::Error>>, rusqlite::Error>,
    },
}

/// The number of rows changed, or `None` for an error.
pub open spec fn changed_of(result: Result<usize, rusqlite::Error>) -> Option<nat> {
    match result {
        Ok(n) => Some(n as nat),
        Err(_) => None,
    }
}

/// The rows that came back, as a sequence.
pub open spec fn rows_answer(
    result: Result<Vec<Result<TaskRow, rusqlite::Error>>, rusqlite::Error>,
) -> Result<Seq<Result<TaskRow, rusqlite::Error>>, rusqlite::Error> {
    match result {
        Ok(rows) => Ok(rows@),
        Err(e) => Err(e),
    }
}

/// A connection to a SQLite database file, and every call made on it.
pub struct Db {
    conn: Connection,
    calls: Ghost<Seq<SqlCall>>,
}

impl View for Db {
    type V = Seq<SqlCall>;

    /// Every call made on this connection, in order, with what came back.
    closed spec fn view(&self) -> Seq<SqlCall> {
        self.calls@
    }
}

impl Db {
    /// `Connection::open`: opens (and creates, if missing) the database file
    /// at `path`. Whether it succeeds depends on the file system and is not
    /// stated; an opened connection's record holds just this call.
    #[verifier::external_body]
    pub fn open(path: &PathBuf) -> (result: Result<Db, rusqlite::Error>)
        ensures
            result matches Ok(db) ==> db@ == seq![SqlCall::Open { path: *path, opened: true }],
    {
        Connection::open(path).map(|conn| Db { conn, calls: Ghost(arbitrary()) })
    }

    /// `Connection::execute_batch`: runs the statements in `sql`; the record
    /// gains this call.
    #[verifier::external_body]
    pub fn execute_batch(&mut self, sql: &str) -> (result: Result<(), rusqlite::Error>)
        ensures
            final(self)@ == old(self)@.push(SqlCall::Batch { sql: sql@, done: result is Ok }),
    {
        self.conn.execute_batch(sql)
    }

    /// `Connection::execute` with no parameters; the record gains this call.
    #[verifier::external_body]
    pub fn execute_plain(&mut self, sql: &str) -> (result: Result<usize, rusqlite::Error>)
        ensures
            final(self)@ == old(self)@.push(
                SqlCall::Execute { sql: sql@, params: Seq::empty(), changed: changed_of(result) },
            ),
    {
        self.conn.execute(sql, [])
    }

    /// `Connection::execute` with the three text parameters `?1`, `?2`, `?3`
    /// (the last one NULL when `None`); the record gains this call.
    #[verifier::external_body]
    pub fn execute_with_texts(
        &mut self,
        sql: &str,
        first: &str,
        second: &str,
        third: Option<&str>,
    ) -> (result: Result<usize, rusqlite::Error>)
        ensures
            final(self)@ == old(self)@.push(
                SqlCall::Execute {
                    sql: sql@,
                    params: seq![
                        SqlValue::Text(first@),
                        SqlValue::Text(second@),
                        text_or_null(opt_text(third)),
                    ],
                    changed: changed_of(result),
                },
            ),
    {
        self.conn.execute(sql, (first, second, third))
    }

    /// `Connection::execute` with the integer parameter `?1`; the record
    /// gains this call.
    #[verifier::external_body]
    pub fn execute_with_id(&mut self, sql: &str, id: i64) -> (result: Result<usize, rusqlite::Error>)
        ensures
            final(self)@ == old(self)@.push(
                SqlCall::Execute {
                    sql: sql@,
                    params: seq![SqlValue::Integer(id as int)],
                    changed: changed_of(result),
                },
            ),
    {
        self.conn.execute(sql, [id])
    }

    /// `Connection::query_row` reading column 0 of the first row as an
    /// integer; the record gains this call.
    #[verifier::external_body]
    pub fn query_integer(&mut self, sql: &str) -> (result: Result<i64, rusqlite::Error>)
        ensures
            final(self)@ == old(self)@.push(
                SqlCall::QueryInteger { sql: sql@, params: Seq::empty(), value: result },
            ),
    {
        self.conn.query_row(sql, [], |row| row.get::<_, i64>(0))
    }

    /// `Connection::query_row` with the integer parameter `?1`, reading
    /// column 0 of the first row as nullable text (`Err(QueryReturnedNoRows)`
    /// when there is no row); the record gains this call.
    #[verifier::external_body]
    pub fn query_optional_text(&mut self, sql: &str, id: i64) -> (result: Result<
        Option<String>,
        rusqlite::Error,
    >)
        ensures
            final(self)@ == old(self)@.push(
                SqlCall::QueryText {
                    sql: sql@,
                    params: seq![SqlValue::Integer(id as int)],
                    found: result,
                },
            ),
    {
        self.conn.query_row(sql, [id], |row| row.get::<_, Option<String>>(0))
    }

    /// `Connection::prepare` followed by `Statement::query_map`, reading
    /// columns 0 to 3 of every row in the order SQLite returns them; a row
    /// whose columns do not convert is handed over as its error. The record
    /// gains this call.
    #[verifier::external_body]
    pub fn query_task_rows(&mut self, sql: &str) -> (result: Result<
        Vec<Result<TaskRow, rusqlite::Error>>,
        rusqlite::Error,
    >)
        ensures
            final(self)@ == old(self)@.push(
                SqlCall::QueryRows { sql: sql@, params: Seq::empty(), rows: rows_answer(result) },
            ),
    {
        let mut stmt = self.conn.prepare(sql)?;
        let rows = stmt.query_map([], |row| Ok((row.get(0)?, row.get(1)?, row.get(2)?, row.get(3)?)))?;
        Ok(rows.collect())
    }
}

} // verus!
