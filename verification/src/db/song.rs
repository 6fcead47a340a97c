//! The table of songs.
use crate::db::model::Song;
use crate::db::sqlite::{
    batch_run_on, column_i64, column_string, column_timestamp, connection_path, execute_batch,
    execute_texts, next_row, prepare, query, row_int, row_number, row_query, row_text, row_time,
    rows_query, rows_read, statement_runs, statement_source, Query,
};
use crate::db::{query_ended, query_read, sqlite_error, DbError};
use rusqlite::{Connection, Row, Statement};
use vstd::prelude::*;

verus! {

/// The table of songs, created where it is missing.
pub const SONGS_SCHEMA: &'static str = "CREATE TABLE IF NOT EXISTS songs (
         id              INTEGER PRIMARY KEY AUTOINCREMENT,
         key             TEXT NOT NULL UNIQUE,
         title           TEXT NOT NULL UNIQUE,
         created         TIMESTAMP DEFAULT CURRENT_TIMESTAMP,
         updated         TIMESTAMP DEFAULT CURRENT_TIMESTAMP
      );
      PRAGMA synchronous = OFF;";

/// All songs, in the order they were added.
pub const LIST_SONGS: &'static str = "SELECT id, key, title, created, updated 
     FROM songs 
     ORDER BY id";

/// Adds a song (positional parameters: key, title) unless its key or title
/// is taken.
pub const INSERT_SONG: &'static str = "INSERT OR IGNORE INTO songs (key, title) VALUES (?1, ?2)";

/// The query of all songs on the database file `path`.
pub open spec fn list_songs_query(path: Seq<char>) -> Query {
    (path, LIST_SONGS@, Seq::<(Seq<char>, i64)>::empty())
}

/// `s` is the song in `row` (columns id, key, title, created, updated).
pub open spec fn song_of_row(row: Row, s: Song) -> bool {
    &&& s.id == row_int(row, 0)
    &&& s.key@ == row_text(row, 1)
    &&& s.title@ == row_text(row, 2)
    &&& s.created == row_time(row, 3)
    &&& s.updated == row_time(row, 4)
}

/// `s` is the song in row `i` of the query of all songs on `path`.
pub open spec fn is_listed_song(path: Seq<char>, i: nat, s: Song) -> bool {
    exists|row: Row|
        #![trigger song_of_row(row, s), row_number(row)]
        row_query(row) == list_songs_query(path) && row_number(row) == i && song_of_row(row, s)
}

/// The song `key` titled `title` was added on `path`: the insert statement
/// ran once, with those values.
pub open spec fn song_inserted(path: Seq<char>, key: Seq<char>, title: Seq<char>) -> bool {
    exists|s: Statement|
        #![trigger statement_runs(s)]
        statement_source(s) == (path, INSERT_SONG@) && statement_runs(s) == seq![
            (seq![key, title], Seq::<(Seq<char>, Seq<char>)>::empty(), Seq::<(Seq<char>, i64)>::empty()),
        ]
}

/// Creates the table of songs where it is missing.
pub fn create_table(conn: &Connection) -> (r: Result<(), DbError>)
    ensures
        r matches Err(e) ==> e is Sqlite,
        r is Ok ==> batch_run_on(*conn, SONGS_SCHEMA@),
{
    sqlite_error(execute_batch(conn, SONGS_SCHEMA))
}

/// The song in `row` (columns id, key, title, created, updated).
fn song_from_row(row: &Row) -> (r: Result<Song, DbError>)
    ensures
        r matches Err(e) ==> e is Sqlite,
        r matches Ok(s) ==> song_of_row(*row, s),
{
    let id = sqlite_error(column_i64(row, 0))?;
    let key = sqlite_error(column_string(row, 1))?;
    let title = sqlite_error(column_string(row, 2))?;
    let created = sqlite_error(column_timestamp(row, 3))?;
    let updated = sqlite_error(column_timestamp(row, 4))?;
    Ok(Song { id, key, title, created, updated })
}

/// All songs, in the order they were added: the rows of `LIST_SONGS`, in
/// the order the query handed them out, up to its end.
pub fn list(conn: &Connection) -> (r: Result<Vec<Song>, DbError>)
    ensures
        r matches Err(e) ==> e is Sqlite || e is TooManyRows,
        r matches Err(DbError::TooManyRows) ==> query_read(list_songs_query(connection_path(*conn)), usize::MAX as nat),
        r matches Ok(v) ==> (forall|i: int|
            0 <= i < v@.len() ==> #[trigger] is_listed_song(connection_path(*conn), i as nat, v@[i]))
            && query_ended(list_songs_query(connection_path(*conn)), v@.len()),
{
    let ghost q = list_songs_query(connection_path(*conn));
    let mut stmt = sqlite_error(prepare(conn, LIST_SONGS))?;
    let mut rows = sqlite_error(query(&mut stmt))?;
    let mut songs: Vec<Song> = Vec::new();
    while songs.len() < usize::MAX
        invariant
            q == list_songs_query(connection_path(*conn)),
            rows_query(rows) == q,
            rows_read(rows) == songs@.len(),
            forall|i: int| 0 <= i < songs@.len() ==> #[trigger] is_listed_song(connection_path(*conn), i as nat, songs@[i]),
        decreases usize::MAX - songs@.len(),
    {
        match sqlite_error(next_row(&mut rows))? {
            Some(row) => {
                let song = song_from_row(row)?;
                assert(is_listed_song(connection_path(*conn), songs@.len(), song));
                songs.push(song);
            },
            None => {
                assert(query_ended(q, songs@.len()));
                return Ok(songs);
            },
        }
    }
    assert(query_read(q, usize::MAX as nat));
    Err(DbError::TooManyRows)
}

/// Adds the song `key` titled `title`, unless a song with that key or title
/// is there already.
pub fn insert(conn: &Connection, key: String, title: String) -> (r: Result<(), DbError>)
    ensures
        r matches Err(e) ==> e is Sqlite,
        r is Ok ==> song_inserted(connection_path(*conn), key@, title@),
{
    let mut stmt = sqlite_error(prepare(conn, INSERT_SONG))?;
    sqlite_error(execute_texts(&mut stmt, key.as_str(), title.as_str()))?;
    assert(statement_runs(stmt) == seq![
        (seq![key@, title@], Seq::<(Seq<char>, Seq<char>)>::empty(), Seq::<(Seq<char>, i64)>::empty()),
    ]);
    Ok(())
}

} // verus!
