//! The song library: songs downloaded, and which song each button plays.
pub mod button_map;
pub mod model;
pub mod song;
pub mod sqlite;

use crate::config::{get_config, is_data_path, lemma_data_path_shape, spec_data_path, Config};
use crate::db::sqlite::{
    batch_run_on, connection_path, manager_for_file, pool_get, pool_new, pool_path,
    pooled_connection, rows_done, rows_query, rows_read, Query,
};
use rusqlite::Rows;
use vstd::prelude::*;

pub use crate::db::sqlite::{Pool, PooledConnection};
pub use rusqlite::Connection;

verus! {

/// Why a call into the song library failed.
#[derive(Debug)]
pub enum DbError {
    /// SQLite refused a statement or a value.
    Sqlite(rusqlite::Error),
    /// The connection pool could not open or hand out a connection.
    Pool(r2d2::Error),
    /// There is no data directory for the database file.
    NoDataDir,
    /// The query found no row.
    NotFound,
    /// The query found more rows than a vector can hold.
    TooManyRows,
}

/// A run of the query `q` handed out `n` rows and then found no more.
pub open spec fn query_ended(q: Query, n: nat) -> bool {
    exists|rows: Rows| #[trigger] rows_query(rows) == q && rows_done(rows) && rows_read(rows) == n
}

/// A run of the query `q` handed out `n` rows (and may have more).
pub open spec fn query_read(q: Query, n: nat) -> bool {
    exists|rows: Rows| #[trigger] rows_query(rows) == q && rows_read(rows) == n
}

/// Both tables were created (where missing) on connections to the database
/// file `path`.
pub open spec fn tables_created(path: Seq<char>) -> bool {
    &&& exists|c: Connection| #[trigger] connection_path(c) == path && batch_run_on(c, song::SONGS_SCHEMA@)
    &&& exists|c: Connection| #[trigger] connection_path(c) == path && batch_run_on(c, button_map::BUTTON_MAP_SCHEMA@)
}

/// The error of a SQLite call, as a library error.
pub fn sqlite_error<T>(r: Result<T, rusqlite::Error>) -> (o: Result<T, DbError>)
    ensures
        r matches Ok(v) ==> o == Ok::<T, DbError>(v),
        r matches Err(e) ==> o == Err::<T, DbError>(DbError::Sqlite(e)),
{
    match r {
        Ok(v) => Ok(v),
        Err(e) => Err(DbError::Sqlite(e)),
    }
}

/// The error of the connection pool, as a library error.
pub fn pool_error<T>(r: Result<T, r2d2::Error>) -> (o: Result<T, DbError>)
    ensures
        r matches Ok(v) ==> o == Ok::<T, DbError>(v),
        r matches Err(e) ==> o == Err::<T, DbError>(DbError::Pool(e)),
{
    match r {
        Ok(v) => Ok(v),
        Err(e) => Err(DbError::Pool(e)),
    }
}

/// What opening the song library under the data directory `data_dir` gave:
/// with no data directory, `NoDataDir`; with one, a pool over the file
/// `music_box/music_box.sqlite3` under it whose tables were created, or the
/// error of the pool or of SQLite.
pub open spec fn opened_library(data_dir: Option<Seq<char>>, r: Result<Pool, DbError>) -> bool {
    match data_dir {
        None => r matches Err(DbError::NoDataDir),
        Some(d) => match r {
            Ok(p) => pool_path(p) == spec_data_path(d, "music_box.sqlite3"@) && tables_created(pool_path(p)),
            Err(e) => e is Pool || e is Sqlite,
        },
    }
}

/// Opens the pool of connections to the database file
/// `music_box/music_box.sqlite3` under the data directory of `config`, and
/// creates the tables of songs and of button maps where they are missing.
pub fn init_with(config: &Config) -> (r: Result<Pool, DbError>)
    ensures
        opened_library(config.data_dir(), r),
        r matches Ok(p) ==> is_data_path(pool_path(p), "music_box.sqlite3"@),
{
    let path = match config.db_path() {
        Some(p) => p,
        None => return Err(DbError::NoDataDir),
    };
    let manager = manager_for_file(path);
    let pool = pool_error(pool_new(manager))?;
    let conn = pool_error(pool_get(&pool))?;
    let c = pooled_connection(&conn);
    song::create_table(c)?;
    let ghost c1 = *c;
    let conn = pool_error(pool_get(&pool))?;
    let c = pooled_connection(&conn);
    button_map::create_table(c)?;
    let ghost c2 = *c;
    assert(connection_path(c1) == pool_path(pool) && batch_run_on(c1, song::SONGS_SCHEMA@));
    assert(connection_path(c2) == pool_path(pool) && batch_run_on(c2, button_map::BUTTON_MAP_SCHEMA@));
    Ok(pool)
}

/// Opens the pool of connections to the database file
/// `music_box/music_box.sqlite3` under the user's data directory (as the
/// settings of `get_config` find it), and creates the tables of songs and of
/// button maps where they are missing.
pub fn init() -> (r: Result<Pool, DbError>)
    ensures
        r matches Ok(p) ==> is_data_path(pool_path(p), "music_box.sqlite3"@),
        r matches Ok(p) ==> tables_created(pool_path(p)),
        r matches Err(e) ==> !(e is NotFound) && !(e is TooManyRows),
        exists|c: Config| #[trigger] opened_library(c.data_dir(), r),
{
    let config = get_config();
    init_with(&config)
}

/// No data directory is reported only where there is none: with a data
/// directory `d`, opening the library gives a pool over
/// `d/music_box/music_box.sqlite3` (with its tables) or an error of the pool
/// or of SQLite, never `NoDataDir`.
pub proof fn law_no_data_dir_only_without_one(data_dir: Option<Seq<char>>, r: Result<Pool, DbError>)
    requires
        opened_library(data_dir, r),
    ensures
        r matches Err(DbError::NoDataDir) <==> data_dir is None,
        data_dir matches Some(d) ==> (r matches Ok(p) ==> pool_path(p).subrange(0, d.len() as int) == d
            && tables_created(pool_path(p))),
        r matches Err(e) ==> !(e is NotFound) && !(e is TooManyRows),
{
    if let Some(d) = data_dir {
        if let Ok(p) = r {
            lemma_data_path_shape(d, "music_box.sqlite3"@);
        }
    }
}

} // verus!
