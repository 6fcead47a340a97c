//! The table that maps buttons to songs. Each setting of a button is kept;
//! the latest one counts.
use crate::db::model::ButtonMap;
use crate::db::sqlite::{
    batch_run_on, column_i64, column_opt_string, column_string, column_timestamp, connection_path,
    execute_batch, execute_named_text_int, next_row, prepare, query, query_named_int, row_int,
    row_number, row_opt_text, row_query, row_text, row_time, rows_query, rows_read,
    statement_runs, statement_source, Query,
};
use crate::db::{query_ended, query_read, sqlite_error, DbError};
use rusqlite::{Connection, Row, Statement};
use vstd::prelude::*;

verus! {

/// The table of button settings and its indexes, created where missing.
pub const BUTTON_MAP_SCHEMA: &'static str = "CREATE TABLE IF NOT EXISTS button_map (
         id              INTEGER PRIMARY KEY AUTOINCREMENT,
         key             TEXT NOT NULL,
         button_id       INTEGER NOT NULL, 
         created         TIMESTAMP DEFAULT CURRENT_TIMESTAMP
      );
      CREATE INDEX IF NOT EXISTS idx_button_created_sort ON button_map (created DESC);
      CREATE INDEX IF NOT EXISTS idx_button_id_sort ON button_map (button_id, created DESC);
      PRAGMA synchronous = OFF;";

/// The latest setting of each button whose song is in the library, with the
/// song's title, by button.
pub const LIST_BUTTON_MAPS: &'static str = "SELECT DISTINCT bm.id, bm.key, bm.button_id, bm.created, s.title
     FROM (SELECT FIRST_VALUE(id) OVER(PARTITION BY button_id ORDER BY created DESC) as id FROM button_map) b
     JOIN button_map bm ON b.id = bm.id
     JOIN songs s ON bm.key = s.key
     ORDER BY bm.button_id;";

/// The latest setting of the button `:button_id` whose song is in the
/// library, with the song's title.
pub const GET_BUTTON_MAP: &'static str = "SELECT bm.id, bm.key, bm.button_id, bm.created, s.title
     FROM button_map bm
     JOIN songs s ON s.key = bm.key
     WHERE bm.button_id = :button_id
     ORDER BY bm.created DESC LIMIT 1";

/// Sets button `:button_id` to play the song `:key`.
pub const INSERT_BUTTON_MAP: &'static str = "INSERT OR IGNORE INTO button_map (key, button_id) VALUES (:key, :button_id)";

/// The query of all button settings on the database file `path`.
pub open spec fn list_button_maps_query(path: Seq<char>) -> Query {
    (path, LIST_BUTTON_MAPS@, Seq::<(Seq<char>, i64)>::empty())
}

/// The query of the setting of button `button_id` on the database file
/// `path`.
pub open spec fn get_button_map_query(path: Seq<char>, button_id: i64) -> Query {
    (path, GET_BUTTON_MAP@, seq![(":button_id"@, button_id)])
}

/// `m` is the button setting in `row` (columns id, key, button_id, created,
/// title).
pub open spec fn button_map_of_row(row: Row, m: ButtonMap) -> bool {
    &&& m.id == row_int(row, 0)
    &&& m.key@ == row_text(row, 1)
    &&& m.button_id == row_int(row, 2)
    &&& m.created == row_time(row, 3)
    &&& match m.title {
        Some(t) => row_opt_text(row, 4) == Some(t@),
        None => row_opt_text(row, 4) is None,
    }
}

/// `m` is the setting in row `i` of the query `q`.
pub open spec fn is_button_map_row(q: Query, i: nat, m: ButtonMap) -> bool {
    exists|row: Row|
        #![trigger button_map_of_row(row, m), row_number(row)]
        row_query(row) == q && row_number(row) == i && button_map_of_row(row, m)
}

/// `m` is what the library on `path` answers for button `button_id`: the
/// first row of the query for that button.
pub open spec fn is_button_setting(path: Seq<char>, button_id: i64, m: ButtonMap) -> bool {
    is_button_map_row(get_button_map_query(path, button_id), 0, m)
}

/// Button `button_id` was set to the song `key` on `path`: the insert
/// statement ran once, with those values.
pub open spec fn button_map_inserted(path: Seq<char>, key: Seq<char>, button_id: i64) -> bool {
    exists|s: Statement|
        #![trigger statement_runs(s)]
        statement_source(s) == (path, INSERT_BUTTON_MAP@) && statement_runs(s) == seq![
            (Seq::<Seq<char>>::empty(), seq![(":key"@, key)], seq![(":button_id"@, button_id)]),
        ]
}

/// Creates the table of button settings and its indexes where they are
/// missing.
pub fn create_table(conn: &Connection) -> (r: Result<(), DbError>)
    ensures
        r matches Err(e) ==> e is Sqlite,
        r is Ok ==> batch_run_on(*conn, BUTTON_MAP_SCHEMA@),
{
    sqlite_error(execute_batch(conn, BUTTON_MAP_SCHEMA))
}

/// The button setting in `row` (columns id, key, button_id, created, title).
fn button_map_from_row(row: &Row) -> (r: Result<ButtonMap, DbError>)
    ensures
        r matches Err(e) ==> e is Sqlite,
        r matches Ok(m) ==> button_map_of_row(*row, m),
{
    let id = sqlite_error(column_i64(row, 0))?;
    let key = sqlite_error(column_string(row, 1))?;
    let button_id = sqlite_error(column_i64(row, 2))?;
    let created = sqlite_error(column_timestamp(row, 3))?;
    let title = sqlite_error(column_opt_string(row, 4))?;
    Ok(ButtonMap { id, key, button_id, created, title })
}

/// The latest setting of each button whose song is in the library, with
/// the song's title, by button: the rows of `LIST_BUTTON_MAPS`, in the order
/// the query handed them out, up to its end.
pub fn list(conn: &Connection) -> (r: Result<Vec<ButtonMap>, DbError>)
    ensures
        r matches Err(e) ==> e is Sqlite || e is TooManyRows,
        r matches Err(DbError::TooManyRows) ==> query_read(list_button_maps_query(connection_path(*conn)), usize::MAX as nat),
        r matches Ok(v) ==> (forall|i: int|
            0 <= i < v@.len() ==> #[trigger] is_button_map_row(
                list_button_maps_query(connection_path(*conn)),
                i as nat,
                v@[i],
            )) && query_ended(list_button_maps_query(connection_path(*conn)), v@.len()),
{
    let ghost q = list_button_maps_query(connection_path(*conn));
    let mut stmt = sqlite_error(prepare(conn, LIST_BUTTON_MAPS))?;
    let mut rows = sqlite_error(query(&mut stmt))?;
    let mut maps: Vec<ButtonMap> = Vec::new();
    while maps.len() < usize::MAX
        invariant
            q == list_button_maps_query(connection_path(*conn)),
            rows_query(rows) == q,
            rows_read(rows) == maps@.len(),
            forall|i: int| 0 <= i < maps@.len() ==> #[trigger] is_button_map_row(q, i as nat, maps@[i]),
        decreases usize::MAX - maps@.len(),
    {
        match sqlite_error(next_row(&mut rows))? {
            Some(row) => {
                let map = button_map_from_row(row)?;
                assert(is_button_map_row(q, maps@.len(), map));
                maps.push(map);
            },
            None => {
                assert(query_ended(q, maps@.len()));
                return Ok(maps);
            },
        }
    }
    assert(query_read(q, usize::MAX as nat));
    Err(DbError::TooManyRows)
}

/// The latest setting of button `button_id`, with its song's title: the
/// first row of `GET_BUTTON_MAP` for that button; `NotFound` where the query
/// has no row (the button was never set to a song of the library).
pub fn get(conn: &Connection, button_id: i64) -> (r: Result<ButtonMap, DbError>)
    ensures
        r matches Err(e) ==> e is Sqlite || e is NotFound,
        r matches Ok(m) ==> is_button_setting(connection_path(*conn), button_id, m),
        r matches Err(DbError::NotFound) ==> query_ended(get_button_map_query(connection_path(*conn), button_id), 0),
{
    let ghost q = get_button_map_query(connection_path(*conn), button_id);
    let mut stmt = sqlite_error(prepare(conn, GET_BUTTON_MAP))?;
    let mut rows = sqlite_error(query_named_int(&mut stmt, ":button_id", button_id))?;
    match sqlite_error(next_row(&mut rows))? {
        Some(row) => {
            let m = button_map_from_row(row)?;
            assert(is_button_map_row(q, 0, m));
            Ok(m)
        },
        None => {
            assert(query_ended(q, 0));
            Err(DbError::NotFound)
        },
    }
}

/// Sets button `button_id` to play the song `key`.
pub fn insert(conn: &Connection, key: String, button_id: i64) -> (r: Result<(), DbError>)
    ensures
        r matches Err(e) ==> e is Sqlite,
        r is Ok ==> button_map_inserted(connection_path(*conn), key@, button_id),
{
    let mut stmt = sqlite_error(prepare(conn, INSERT_BUTTON_MAP))?;
    sqlite_error(execute_named_text_int(&mut stmt, ":key", key.as_str(), ":button_id", button_id))?;
    assert(statement_runs(stmt) == seq![
        (Seq::<Seq<char>>::empty(), seq![(":key"@, key@)], seq![(":button_id"@, button_id)]),
    ]);
    Ok(())
}

} // verus!
