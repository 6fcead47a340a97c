use music_box::db::model::Timestamp;
use music_box::db::{button_map, song, DbError, Pool};
use music_box::task::http::{save_download, DownloadRequest};
use music_box::task::song::{first_pressed, SongList};
use music_box::util::download_song::YouTubeResponse;
use music_box::util::play_sound::Player;
use r2d2_sqlite::SqliteConnectionManager;
use rusqlite::{Connection, OpenFlags};
use std::cell::Cell;
use std::rc::Rc;

fn memory() -> Connection {
    let conn = Connection::open_in_memory().unwrap();
    song::create_table(&conn).unwrap();
    button_map::create_table(&conn).unwrap();
    conn
}

fn shared_pool(name: &str) -> Pool {
    let manager = SqliteConnectionManager::file(format!("file:{}?mode=memory&cache=shared", name)).with_flags(
        OpenFlags::SQLITE_OPEN_READ_WRITE | OpenFlags::SQLITE_OPEN_CREATE | OpenFlags::SQLITE_OPEN_URI,
    );
    let pool = Pool(r2d2::Pool::new(manager).unwrap());
    {
        let conn = pool.0.get().unwrap();
        song::create_table(&conn).unwrap();
        button_map::create_table(&conn).unwrap();
    }
    pool
}

#[test]
fn tables_are_created_once() {
    let conn = memory();
    song::create_table(&conn).unwrap();
    button_map::create_table(&conn).unwrap();
    assert!(song::list(&conn).unwrap().is_empty());
    assert!(button_map::list(&conn).unwrap().is_empty());
}

#[test]
fn songs_are_listed_in_insertion_order() {
    let conn = memory();
    song::insert(&conn, "k1".to_owned(), "First".to_owned()).unwrap();
    song::insert(&conn, "k2".to_owned(), "Second".to_owned()).unwrap();
    song::insert(&conn, "k1".to_owned(), "Again".to_owned()).unwrap();
    let songs = song::list(&conn).unwrap();
    assert_eq!(songs.len(), 2);
    assert_eq!(songs[0].key, "k1");
    assert_eq!(songs[0].title, "First");
    assert_eq!(songs[1].key, "k2");
    assert_eq!(songs[1].title, "Second");
    assert!(songs[0].id < songs[1].id);
}

#[test]
fn timestamps_are_read_from_sqlite_text() {
    let conn = memory();
    conn.execute(
        "INSERT INTO songs (key, title, created, updated) VALUES ('k', 't', '2021-01-02 03:04:05', '2021-01-02 03:04:06')",
        rusqlite::NO_PARAMS,
    )
    .unwrap();
    let songs = song::list(&conn).unwrap();
    assert_eq!(songs[0].created, Timestamp { seconds: 1609556645, nanos: 0 });
    assert_eq!(songs[0].updated, Timestamp { seconds: 1609556646, nanos: 0 });
}

#[test]
fn latest_button_setting_counts() {
    let conn = memory();
    song::insert(&conn, "a".to_owned(), "Song A".to_owned()).unwrap();
    song::insert(&conn, "b".to_owned(), "Song B".to_owned()).unwrap();
    conn.execute(
        "INSERT INTO button_map (key, button_id, created) VALUES ('a', 3, '2021-01-01 00:00:00')",
        rusqlite::NO_PARAMS,
    )
    .unwrap();
    conn.execute(
        "INSERT INTO button_map (key, button_id, created) VALUES ('b', 3, '2021-01-02 00:00:00')",
        rusqlite::NO_PARAMS,
    )
    .unwrap();
    button_map::insert(&conn, "a".to_owned(), 1).unwrap();
    let m = button_map::get(&conn, 3).unwrap();
    assert_eq!(m.key, "b");
    assert_eq!(m.button_id, 3);
    assert_eq!(m.title, Some("Song B".to_owned()));
    let all = button_map::list(&conn).unwrap();
    assert_eq!(all.len(), 2);
    assert_eq!(all[0].button_id, 1);
    assert_eq!(all[0].key, "a");
    assert_eq!(all[1].button_id, 3);
    assert_eq!(all[1].key, "b");
}

#[test]
fn unknown_button_is_not_found() {
    let conn = memory();
    assert!(matches!(button_map::get(&conn, 7), Err(DbError::NotFound)));
    button_map::insert(&conn, "missing".to_owned(), 7).unwrap();
    assert!(matches!(button_map::get(&conn, 7), Err(DbError::NotFound)));
}

#[test]
fn missing_table_is_a_sqlite_error() {
    let conn = Connection::open_in_memory().unwrap();
    assert!(matches!(song::list(&conn), Err(DbError::Sqlite(_))));
    assert!(matches!(song::insert(&conn, "k".to_owned(), "t".to_owned()), Err(DbError::Sqlite(_))));
    assert!(matches!(button_map::get(&conn, 1), Err(DbError::Sqlite(_))));
}

#[test]
fn download_is_recorded() {
    let pool = shared_pool("download_is_recorded");
    let request = DownloadRequest { button: 5, url: "http://v".to_owned() };
    let response = YouTubeResponse { id: "vid".to_owned(), title: "Video".to_owned() };
    save_download(&pool, &request, response).unwrap();
    let conn = pool.0.get().unwrap();
    let m = button_map::get(&conn, 5).unwrap();
    assert_eq!(m.key, "vid");
    assert_eq!(m.title, Some("Video".to_owned()));
    let songs = song::list(&conn).unwrap();
    assert_eq!(songs.len(), 1);
    assert_eq!(songs[0].title, "Video");
}

struct FakeSound {
    stops: Rc<Cell<u32>>,
}

impl Player for FakeSound {
    fn stop(&self) {
        self.stops.set(self.stops.get() + 1);
    }
}

#[test]
fn jukebox_toggles_a_song() {
    let pool = shared_pool("jukebox_toggles_a_song");
    {
        let conn = pool.0.get().unwrap();
        song::insert(&conn, "abc".to_owned(), "ABC".to_owned()).unwrap();
        button_map::insert(&conn, "abc".to_owned(), 2).unwrap();
    }
    let stops = Rc::new(Cell::new(0));
    let mut songs: SongList<FakeSound> = SongList::from_pool(pool);
    assert_eq!(songs.get_cursor(), None);
    match songs.play(2) {
        Ok(Some(path)) => {
            assert!(path.ends_with("/music_box/songs/abc.mp3"));
            assert_eq!(songs.get_cursor(), None);
            let r = songs.start_song(2, Ok::<FakeSound, ()>(FakeSound { stops: stops.clone() }));
            assert!(r.is_ok());
            assert_eq!(songs.get_cursor(), Some(2));
            assert!(songs.get_current().is_some());
            let r = songs.play(2);
            assert!(matches!(r, Ok(None)));
            assert_eq!(stops.get(), 1);
            assert_eq!(songs.get_cursor(), None);
            assert!(songs.get_current().is_none());
        }
        Err(DbError::NoDataDir) => {}
        _ => panic!("unexpected result"),
    }
}

#[test]
fn jukebox_other_button_stops_the_song() {
    let pool = shared_pool("jukebox_other_button_stops_the_song");
    {
        let conn = pool.0.get().unwrap();
        song::insert(&conn, "one".to_owned(), "One".to_owned()).unwrap();
        song::insert(&conn, "two".to_owned(), "Two".to_owned()).unwrap();
        button_map::insert(&conn, "one".to_owned(), 1).unwrap();
        button_map::insert(&conn, "two".to_owned(), 3).unwrap();
    }
    let stops = Rc::new(Cell::new(0));
    let mut songs: SongList<FakeSound> = SongList::from_pool(pool);
    songs.start_song(1, Ok::<FakeSound, ()>(FakeSound { stops: stops.clone() })).unwrap();
    match songs.play(3) {
        Ok(Some(path)) => assert!(path.ends_with("/music_box/songs/two.mp3")),
        Err(DbError::NoDataDir) => {}
        _ => panic!("unexpected result"),
    }
    assert_eq!(stops.get(), 1);
    assert_eq!(songs.get_cursor(), None);
}

#[test]
fn jukebox_unknown_button_stays_silent() {
    let pool = shared_pool("jukebox_unknown_button_stays_silent");
    let mut songs: SongList<FakeSound> = SongList::from_pool(pool);
    let r = songs.play(9);
    assert!(matches!(r, Err(DbError::NotFound)));
    assert_eq!(songs.get_cursor(), None);
    songs.stop();
    assert!(songs.get_current().is_none());
}

#[test]
fn jukebox_load_failure_stays_silent() {
    let stops = Rc::new(Cell::new(0));
    let pool = shared_pool("jukebox_load_failure_stays_silent");
    let mut songs: SongList<FakeSound> = SongList::from_pool(pool);
    songs.start_song(4, Ok::<FakeSound, u8>(FakeSound { stops: stops.clone() })).unwrap();
    let r = songs.start_song(0, Err::<FakeSound, u8>(7));
    assert_eq!(r, Err(7));
    assert_eq!(stops.get(), 1);
    assert_eq!(songs.get_cursor(), None);
    assert!(songs.get_current().is_none());
}

#[test]
fn jukebox_song_that_ran_out_is_stopped() {
    let stops = Rc::new(Cell::new(0));
    let pool = shared_pool("jukebox_song_that_ran_out_is_stopped");
    let mut songs: SongList<FakeSound> = SongList::from_pool(pool);
    assert!(!songs.song_over(true));
    songs.start_song(6, Ok::<FakeSound, ()>(FakeSound { stops: stops.clone() })).unwrap();
    assert!(!songs.song_over(false));
    assert_eq!(songs.get_cursor(), Some(6));
    assert!(songs.song_over(true));
    assert_eq!(stops.get(), 1);
    assert_eq!(songs.get_cursor(), None);
}

#[test]
fn jukebox_takes_the_first_button() {
    assert_eq!(first_pressed(&vec![]), None);
    assert_eq!(first_pressed(&vec![5, 2]), Some(5));
}

#[test]
fn get_agrees_with_list() {
    let conn = memory();
    song::insert(&conn, "a".to_owned(), "A".to_owned()).unwrap();
    song::insert(&conn, "b".to_owned(), "B".to_owned()).unwrap();
    button_map::insert(&conn, "a".to_owned(), 4).unwrap();
    button_map::insert(&conn, "b".to_owned(), 6).unwrap();
    for e in button_map::list(&conn).unwrap() {
        let r = button_map::get(&conn, e.button_id).unwrap();
        assert_eq!((r.id, r.key.clone(), r.button_id, r.created, r.title.clone()), (e.id, e.key, e.button_id, e.created, e.title));
    }
}

#[test]
fn download_with_taken_title_still_sets_the_button() {
    let pool = shared_pool("download_with_taken_title");
    {
        let conn = pool.0.get().unwrap();
        song::insert(&conn, "old".to_owned(), "Same".to_owned()).unwrap();
    }
    let request = DownloadRequest { button: 1, url: "u".to_owned() };
    let response = YouTubeResponse { id: "new".to_owned(), title: "Same".to_owned() };
    save_download(&pool, &request, response).unwrap();
    let conn = pool.0.get().unwrap();
    assert_eq!(song::list(&conn).unwrap().len(), 1);
    // the button points to a key that is not a song, so it is not found
    assert!(matches!(button_map::get(&conn, 1), Err(DbError::NotFound)));
}
