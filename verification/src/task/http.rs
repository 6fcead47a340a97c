//! What the web interface does with the song library.
use crate::db::button_map::button_map_inserted;
use crate::db::song::song_inserted;
use crate::db::sqlite::{pool_get, pool_path, pooled_connection};
use crate::db::{button_map, pool_error, song, DbError, Pool};
use crate::util::download_song::YouTubeResponse;
use vstd::prelude::*;

verus! {

/// A request to download the song at `url` and set button `button` to it.
#[derive(Debug, Clone)]
pub struct DownloadRequest {
    pub button: i64,
    pub url: String,
}

/// Records a downloaded song: adds it to the library (key: the video id,
/// title: the video title), unless it is there already, and then sets the
/// requested button to that key, each on a connection of its own from
/// `pool`. The button is set only once the song insert succeeded.
pub fn save_download(pool: &Pool, request: &DownloadRequest, response: YouTubeResponse) -> (r: Result<(), DbError>)
    ensures
        r matches Err(e) ==> e is Pool || e is Sqlite,
        r is Ok ==> song_inserted(pool_path(*pool), response.id@, response.title@),
        r is Ok ==> button_map_inserted(pool_path(*pool), response.id@, request.button),
{
    let ghost id = response.id@;
    let ghost title = response.title@;
    let conn = pool_error(pool_get(pool))?;
    song::insert(pooled_connection(&conn), response.id.clone(), response.title)?;
    assert(song_inserted(pool_path(*pool), id, title));
    let conn = pool_error(pool_get(pool))?;
    button_map::insert(pooled_connection(&conn), response.id, request.button)?;
    Ok(())
}

} // verus!
