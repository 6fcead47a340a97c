//! The calls into `rusqlite`, `r2d2` and `r2d2_sqlite` that the song library
//! makes. What SQLite answers rests on what the database file holds, so the
//! results of these calls are left free; what goes into each call is fixed
//! by the verified code that makes it.
use crate::db::model::Timestamp;
use chrono::{DateTime, Utc};
use r2d2_sqlite::SqliteConnectionManager;
use rusqlite::{Row, Rows, Statement, NO_PARAMS};
use vstd::prelude::*;


verus! {

#[verifier::external_type_specification]
#[verifier::external_body]
pub struct ExConnection(rusqlite::Connection);

#[verifier::external_type_specification]
#[verifier::external_body]
pub struct ExStatement<'conn>(Statement<'conn>);

#[verifier::external_type_specification]
#[verifier::external_body]
pub struct ExRows<'stmt>(Rows<'stmt>);

#[verifier::external_type_specification]
#[verifier::external_body]
pub struct ExRow<'stmt>(Row<'stmt>);

#[verifier::external_type_specification]
#[verifier::external_body]
pub struct ExSqliteError(rusqlite::Error);

#[verifier::external_type_specification]
#[verifier::external_body]
pub struct ExPoolError(r2d2::Error);

#[verifier::external_type_specification]
#[verifier::external_body]
pub struct ExSqliteConnectionManager(SqliteConnectionManager);

/// A pool of connections to one database file (an `r2d2::Pool` of
/// `r2d2_sqlite` connections).
#[verifier::external_body]
pub struct Pool(pub r2d2::Pool<SqliteConnectionManager>);

/// A connection taken from a `Pool` (an `r2d2::PooledConnection`); it goes
/// back to the pool when dropped.
#[verifier::external_body]
pub struct PooledConnection(pub r2d2::PooledConnection<SqliteConnectionManager>);

/// The database file that a connection manager opens.
pub uninterp spec fn manager_path(m: SqliteConnectionManager) -> Seq<char>;

/// The database file that the connections of a pool open: that of the
/// manager the pool was made with.
pub uninterp spec fn pool_path(p: Pool) -> Seq<char>;

/// The database file that a connection was opened on.
pub uninterp spec fn connection_path(c: rusqlite::Connection) -> Seq<char>;

/// The database file of the connection that a pooled connection holds.
pub uninterp spec fn pooled_path(c: PooledConnection) -> Seq<char>;

/// The batch of statements `sql` has been run to its end, without error, on
/// the connection (at some point of the connection's life).
pub uninterp spec fn batch_run_on(c: rusqlite::Connection, sql: Seq<char>) -> bool;

/// A query as it is handed to SQLite: the database file, the statement text,
/// and the integer values bound to named parameters, in the order bound.
pub type Query = (Seq<char>, Seq<char>, Seq<(Seq<char>, i64)>);

/// The values of one successful execution of a statement: the text values
/// bound to its positional parameters, in order, then the text values and
/// the integer values bound to named parameters, in the order bound.
pub type Run = (Seq<Seq<char>>, Seq<(Seq<char>, Seq<char>)>, Seq<(Seq<char>, i64)>);

/// The database file of the connection a statement was prepared on, and the
/// text it was prepared from.
pub uninterp spec fn statement_source(s: Statement) -> (Seq<char>, Seq<char>);

/// The successful executions of a statement, in order, with the values each
/// one bound.
pub uninterp spec fn statement_runs(s: Statement) -> Seq<Run>;

/// The query whose result a `Rows` steps through.
pub uninterp spec fn rows_query(r: Rows) -> Query;

/// How many rows a `Rows` has handed out so far.
pub uninterp spec fn rows_read(r: Rows) -> nat;

/// A step of a `Rows` found no more rows.
pub uninterp spec fn rows_done(r: Rows) -> bool;

/// The query a row belongs to.
pub uninterp spec fn row_query(row: Row) -> Query;

/// The position of a row in its query's result, the first row at `0`.
pub uninterp spec fn row_number(row: Row) -> nat;

/// The integer in column `index` of a row.
pub uninterp spec fn row_int(row: Row, index: usize) -> i64;

/// The text in column `index` of a row.
pub uninterp spec fn row_text(row: Row, index: usize) -> Seq<char>;

/// The text, or NULL (`None`), in column `index` of a row.
pub uninterp spec fn row_opt_text(row: Row, index: usize) -> Option<Seq<char>>;

/// The time in column `index` of a row.
pub uninterp spec fn row_time(row: Row, index: usize) -> Timestamp;

/// `SqliteConnectionManager::file`: a manager that opens the database file
/// at `path`; it opens nothing yet.
#[verifier::external_body]
pub(crate) fn manager_for_file(path: String) -> (m: SqliteConnectionManager)
    ensures
        manager_path(m) == path@,
{
    SqliteConnectionManager::file(path)
}

/// `r2d2::Pool::new`: a pool over the manager's file; it fails where no
/// connection can be opened. The pool keeps the manager's path.
#[verifier::external_body]
pub(crate) fn pool_new(m: SqliteConnectionManager) -> (p: Result<Pool, r2d2::Error>)
    ensures
        p matches Ok(p) ==> pool_path(p) == manager_path(m),
{
    r2d2::Pool::new(m).map(Pool)
}

/// `r2d2::Pool::get`: a connection from the pool; it fails when none frees
/// up in time.
#[verifier::external_body]
pub(crate) fn pool_get(p: &Pool) -> (c: Result<PooledConnection, r2d2::Error>)
    ensures
        c matches Ok(c) ==> pooled_path(c) == pool_path(*p),
{
    p.0.get().map(PooledConnection)
}

/// The `rusqlite::Connection` inside a pooled connection (`Deref`), opened
/// on the pool's file.
#[verifier::external_body]
pub(crate) fn pooled_connection(c: &PooledConnection) -> (conn: &rusqlite::Connection)
    ensures
        connection_path(*conn) == pooled_path(*c),
{
    &*c.0
}

/// `Connection::execute_batch`: runs the statements of `sql` one after the
/// other; `Ok` comes only once all of them ran.
#[verifier::external_body]
pub(crate) fn execute_batch(conn: &rusqlite::Connection, sql: &str) -> (r: Result<(), rusqlite::Error>)
    ensures
        r is Ok ==> batch_run_on(*conn, sql@),
{
    conn.execute_batch(sql)
}

/// `Connection::prepare`: compiles the statement `sql` for the connection's
/// database; it has not run yet.
#[verifier::external_body]
pub(crate) fn prepare<'c>(conn: &'c rusqlite::Connection, sql: &str) -> (s: Result<Statement<'c>, rusqlite::Error>)
    ensures
        s matches Ok(s) ==> statement_source(s) == (connection_path(*conn), sql@)
            && statement_runs(s) == Seq::<Run>::empty(),
{
    conn.prepare(sql)
}

/// `Statement::query` with no parameters: the rows of the statement, none
/// of them read yet.
#[verifier::external_body]
pub(crate) fn query<'s, 'c>(stmt: &'s mut Statement<'c>) -> (r: Result<Rows<'s>, rusqlite::Error>)
    ensures
        r matches Ok(rows) ==> rows_query(rows) == (
            statement_source(*old(stmt)).0,
            statement_source(*old(stmt)).1,
            Seq::<(Seq<char>, i64)>::empty(),
        ) && rows_read(rows) == 0 && !rows_done(rows),
{
    stmt.query(NO_PARAMS)
}

/// `Statement::query_named` with the one integer parameter `name = value`:
/// the rows of the statement, none of them read yet.
#[verifier::external_body]
pub(crate) fn query_named_int<'s, 'c>(stmt: &'s mut Statement<'c>, name: &str, value: i64) -> (r: Result<Rows<'s>, rusqlite::Error>)
    ensures
        r matches Ok(rows) ==> rows_query(rows) == (
            statement_source(*old(stmt)).0,
            statement_source(*old(stmt)).1,
            seq![(name@, value)],
        ) && rows_read(rows) == 0 && !rows_done(rows),
{
    stmt.query_named(&[(name, &value)])
}

/// `Statement::execute` with two text parameters, in order; on success the
/// execution is recorded with those values.
#[verifier::external_body]
pub(crate) fn execute_texts(stmt: &mut Statement, first: &str, second: &str) -> (r: Result<usize, rusqlite::Error>)
    ensures
        statement_source(*final(stmt)) == statement_source(*old(stmt)),
        r is Ok ==> statement_runs(*final(stmt)) == statement_runs(*old(stmt)).push(
            (seq![first@, second@], Seq::<(Seq<char>, Seq<char>)>::empty(), Seq::<(Seq<char>, i64)>::empty()),
        ),
        r is Err ==> statement_runs(*final(stmt)) == statement_runs(*old(stmt)),
{
    stmt.execute(&[first, second])
}

/// `Statement::execute_named` with a text parameter and an integer
/// parameter; on success the execution is recorded with those values.
#[verifier::external_body]
pub(crate) fn execute_named_text_int(
    stmt: &mut Statement,
    text_name: &str,
    text: &str,
    number_name: &str,
    number: i64,
) -> (r: Result<usize, rusqlite::Error>)
    ensures
        statement_source(*final(stmt)) == statement_source(*old(stmt)),
        r is Ok ==> statement_runs(*final(stmt)) == statement_runs(*old(stmt)).push(
            (Seq::<Seq<char>>::empty(), seq![(text_name@, text@)], seq![(number_name@, number)]),
        ),
        r is Err ==> statement_runs(*final(stmt)) == statement_runs(*old(stmt)),
{
    stmt.execute_named(&[(text_name, &text), (number_name, &number)])
}

/// `Rows::next`: the next row of the query, `None` past the last (and ever
/// after).
#[verifier::external_body]
pub(crate) fn next_row<'a, 's>(rows: &'a mut Rows<'s>) -> (r: Result<Option<&'a Row<'s>>, rusqlite::Error>)
    ensures
        rows_query(*final(rows)) == rows_query(*old(rows)),
        r matches Ok(Some(row)) ==> row_query(*row) == rows_query(*old(rows))
            && row_number(*row) == rows_read(*old(rows))
            && rows_read(*final(rows)) == rows_read(*old(rows)) + 1
            && !rows_done(*old(rows)),
        r matches Ok(None) ==> rows_done(*final(rows)) && rows_read(*final(rows)) == rows_read(*old(rows)),
{
    rows.next()
}

/// `Row::get` of an integer column.
#[verifier::external_body]
pub(crate) fn column_i64(row: &Row, index: usize) -> (r: Result<i64, rusqlite::Error>)
    ensures
        r matches Ok(v) ==> v == row_int(*row, index),
{
    row.get(index)
}

/// `Row::get` of a text column.
#[verifier::external_body]
pub(crate) fn column_string(row: &Row, index: usize) -> (r: Result<String, rusqlite::Error>)
    ensures
        r matches Ok(v) ==> v@ == row_text(*row, index),
{
    row.get(index)
}

/// `Row::get` of a text column that may be NULL.
#[verifier::external_body]
pub(crate) fn column_opt_string(row: &Row, index: usize) -> (r: Result<Option<String>, rusqlite::Error>)
    ensures
        r matches Ok(v) ==> (match v {
            Some(t) => row_opt_text(*row, index) == Some(t@),
            None => row_opt_text(*row, index) is None,
        }),
{
    row.get(index)
}

/// `Row::get` of a timestamp column, read as a `DateTime<Utc>` and handed
/// out as its seconds since the epoch and the nanoseconds past them.
#[verifier::external_body]
pub(crate) fn column_timestamp(row: &Row, index: usize) -> (r: Result<Timestamp, rusqlite::Error>)
    ensures
        r matches Ok(v) ==> v == row_time(*row, index),
{
    match row.get::<usize, DateTime<Utc>>(index) {
        Ok(t) => Ok(Timestamp { seconds: t.timestamp(), nanos: t.timestamp_subsec_nanos() }),
        Err(e) => Err(e),
    }
}

} // verus!
