//! The jukebox mode: each button plays the song it was set to; pressing the
//! button of the song that plays stops it.
use crate::config::{
    get_config, is_data_path, is_file_under, law_files_under_data_dir, spec_data_path, spec_file_path, Config,
};
use crate::db::button_map;
use crate::db::button_map::{get_button_map_query, is_button_setting};
use crate::db::model::ButtonMap;
use crate::db::sqlite::{pool_get, pool_path, pooled_connection};
use crate::db::{init, pool_error, query_ended, DbError, Pool};
use crate::util::play_sound::Player;
use vstd::prelude::*;

verus! {

/// The song that plays, if any, and the button that started it.
pub struct SongList<S> {
    playing: Option<(usize, S)>,
    db: Pool,
    config: Config,
    stopped: Ghost<Seq<S>>,
}

/// The stop log `log` after stopping `current`, if a sound plays.
pub open spec fn stop_log<S>(log: Seq<S>, current: Option<S>) -> Seq<S> {
    match current {
        Some(s) => log.push(s),
        None => log,
    }
}

/// The jukebox went from `before` to `after` by stopping the song that
/// played, if any: it is silent, over the same library.
pub open spec fn silenced<S>(before: SongList<S>, after: SongList<S>) -> bool {
    &&& after.cursor() is None
    &&& after.current() is None
    &&& after.library() == before.library()
    &&& after.data_dir() == before.data_dir()
    &&& after.audio_format() == before.audio_format()
    &&& after.stopped() == stop_log(before.stopped(), before.current())
}

/// Pressing button `pin` took the jukebox from `before` to `after`: the song
/// that played was stopped and the jukebox is silent; the press only stopped
/// a song (`stop_only`) exactly when that song was the one of `pin`.
pub open spec fn pressed<S>(before: SongList<S>, pin: usize, stop_only: bool, after: SongList<S>) -> bool {
    &&& silenced(before, after)
    &&& stop_only <==> before.cursor() == Some(pin)
}

/// Starting the song of button `pin` with the sound `sound` (`None` where it
/// could not be opened) took the jukebox from `before` to `after`: the song
/// that played was stopped, and the new sound plays for `pin`, if there is
/// one.
pub open spec fn started<S>(before: SongList<S>, pin: usize, sound: Option<S>, after: SongList<S>) -> bool {
    &&& after.library() == before.library()
    &&& after.data_dir() == before.data_dir()
    &&& after.audio_format() == before.audio_format()
    &&& after.stopped() == stop_log(before.stopped(), before.current())
    &&& match sound {
        Some(s) => after.cursor() == Some(pin) && after.current() == Some(s),
        None => after.cursor() is None && after.current() is None,
    }
}

/// The file of a song that pressing button `pin` of the jukebox `before`
/// hands back, or the error it gives, when that press was not the one that
/// only stops a song: the file is `<song dir>/<key>.mp3` under the
/// jukebox's data directory, for the key the button is set to; there is no
/// data directory only where the jukebox has none; a missing setting is a
/// query with no row.
pub open spec fn play_answer<S>(before: SongList<S>, pin: usize, r: Result<Option<String>, DbError>) -> bool {
    match r {
        Ok(Some(p)) => exists|m: ButtonMap|
            #[trigger] is_button_setting(pool_path(before.library()), pin as i64, m)
            && (before.data_dir() matches Some(d) && p@ == spec_file_path(
                spec_data_path(d, "songs"@),
                m.key@,
                before.audio_format(),
            )),
        Ok(None) => before.cursor() == Some(pin),
        Err(DbError::NoDataDir) => before.data_dir() is None && exists|m: ButtonMap|
            #[trigger] is_button_setting(pool_path(before.library()), pin as i64, m),
        Err(DbError::NotFound) => query_ended(get_button_map_query(pool_path(before.library()), pin as i64), 0),
        Err(DbError::Pool(_)) => true,
        Err(DbError::Sqlite(_)) => true,
        Err(DbError::TooManyRows) => false,
    }
}

impl<S> SongList<S> {
    #[verifier::type_invariant]
    closed spec fn wf(&self) -> bool {
        self.config.audio_format@ == "mp3"@
    }

    /// The audio format of the jukebox's song files.
    pub closed spec fn audio_format(&self) -> Seq<char> {
        self.config.audio_format@
    }

    /// The user's data directory that the jukebox finds its songs under.
    pub closed spec fn data_dir(&self) -> Option<Seq<char>> {
        self.config.data_dir()
    }

    /// The pool of connections to the song library.
    pub closed spec fn library(&self) -> Pool {
        self.db
    }

    /// The button whose song plays.
    pub closed spec fn cursor(&self) -> Option<usize> {
        match self.playing {
            Some(p) => Some(p.0),
            None => None,
        }
    }

    /// The song that plays.
    pub closed spec fn current(&self) -> Option<S> {
        match self.playing {
            Some(p) => Some(p.1),
            None => None,
        }
    }

    /// The sounds this jukebox called `Player::stop` on, oldest first.
    pub closed spec fn stopped(&self) -> Seq<S> {
        self.stopped@
    }
}

impl<S: Player> SongList<S> {
    /// A silent jukebox over the song library (opened, with its tables, by
    /// `db::init`).
    pub fn new() -> (r: Result<Self, DbError>)
        ensures
            r matches Ok(s) ==> s.cursor() is None && s.current() is None && s.stopped() == Seq::<S>::empty(),
            r matches Ok(s) ==> is_data_path(pool_path(s.library()), "music_box.sqlite3"@),
    {
        let db = init()?;
        Ok(Self::from_pool(db))
    }

    /// A silent jukebox over the song library that `db` connects to.
    pub fn from_pool(db: Pool) -> (s: Self)
        ensures
            s.audio_format() == "mp3"@,
            s.cursor() is None,
            s.current() is None,
            s.library() == db,
            s.stopped() == Seq::<S>::empty(),
    {
        Self { playing: None, db, config: get_config(), stopped: Ghost(Seq::empty()) }
    }

    /// The button whose song plays.
    pub fn get_cursor(&self) -> (c: Option<usize>)
        ensures
            c == self.cursor(),
    {
        match &self.playing {
            Some(p) => Some(p.0),
            None => None,
        }
    }

    /// The song that plays.
    pub fn get_current(&self) -> (c: Option<&S>)
        ensures
            c matches Some(s) ==> self.current() == Some(*s),
            c is None ==> self.current() is None,
            c is Some <==> self.cursor() is Some,
    {
        match &self.playing {
            Some(p) => Some(&p.1),
            None => None,
        }
    }

    /// Stops the song that plays, if any.
    pub fn stop(&mut self)
        ensures
            silenced(*old(self), *final(self)),
    {
        proof { use_type_invariant(&*self); }
        if let Some(p) = &self.playing {
            p.1.stop();
        }
        self.stopped = Ghost(stop_log(self.stopped@, self.current()));
        self.playing = None;
    }

    /// Takes note of whether the song that plays has run out (`ended`): a
    /// song that ran out is stopped and the lights are to be cleared
    /// (`true`); otherwise nothing changes.
    pub fn song_over(&mut self, ended: bool) -> (cleared: bool)
        ensures
            cleared == (ended && old(self).current() is Some),
            cleared ==> silenced(*old(self), *final(self)),
            !cleared ==> *final(self) == *old(self),
    {
        if ended && self.playing.is_some() {
            self.stop();
            true
        } else {
            false
        }
    }

    /// Presses button `pin`: the song that plays stops; if it was this
    /// button's, nothing more is to be done (`Ok(None)`); otherwise the
    /// button's song is looked up in the library and its sound file,
    /// `<song dir>/<key>.<format>`, is handed back to be opened and given to
    /// `start_song`.
    pub fn play(&mut self, pin: usize) -> (r: Result<Option<String>, DbError>)
        ensures
            pressed(*old(self), pin, r matches Ok(None), *final(self)),
            play_answer(*old(self), pin, r),
            r matches Ok(Some(p)) ==> exists|m: ButtonMap|
                #[trigger] is_button_setting(pool_path(old(self).library()), pin as i64, m)
                && is_file_under(p@, "songs"@, m.key@, "mp3"@),
            r matches Err(e) ==> e is Pool || e is Sqlite || e is NotFound || e is NoDataDir,
            r matches Err(DbError::NotFound) ==> query_ended(
                get_button_map_query(pool_path(old(self).library()), pin as i64),
                0,
            ),
            r matches Err(DbError::NoDataDir) ==> exists|m: ButtonMap|
                #[trigger] is_button_setting(pool_path(old(self).library()), pin as i64, m),
    {
        proof { use_type_invariant(&*self); }
        let last = self.get_cursor();
        self.stop();
        match last {
            Some(last_cursor) if last_cursor == pin => Ok(None),
            _ => {
                let conn = pool_error(pool_get(&self.db))?;
                let map = button_map::get(pooled_connection(&conn), #[verifier::truncate] (pin as i64))?;
                let ghost m = map;
                assert(is_button_setting(pool_path(old(self).library()), pin as i64, m));
                match self.config.song_path(map.key) {
                    Some(p) => {
                        assert(is_file_under(p@, "songs"@, m.key@, "mp3"@));
                        Ok(Some(p))
                    },
                    None => Err(DbError::NoDataDir),
                }
            },
        }
    }

    /// Starts the song of button `pin` with the sound opened from the file
    /// that `play` handed back: the song that plays (if any) stops, and the
    /// sound plays for `pin`; where the sound could not be opened, the
    /// jukebox stays silent and the error is handed back.
    pub fn start_song<E>(&mut self, pin: usize, loaded: Result<S, E>) -> (r: Result<(), E>)
        ensures
            started(*old(self), pin, match loaded { Ok(s) => Some(s), Err(_) => None }, *final(self)),
            loaded is Ok ==> r is Ok,
            loaded matches Err(e) ==> r == Err::<(), E>(e),
    {
        self.stop();
        proof { use_type_invariant(&*self); }
        match loaded {
            Ok(sound) => {
                self.playing = Some((pin, sound));
                Ok(())
            },
            Err(e) => Err(e),
        }
    }
}

/// The button a reading of newly pressed buttons selects: the first of
/// them, if any.
pub fn first_pressed(newly_pressed: &Vec<usize>) -> (b: Option<usize>)
    ensures
        newly_pressed@.len() == 0 ==> b is None,
        newly_pressed@.len() > 0 ==> b == Some(newly_pressed@[0]),
{
    if newly_pressed.len() == 0 {
        None
    } else {
        Some(newly_pressed[0])
    }
}

/// Pressing a button whose song was just started stops that song, with
/// nothing else to do, and leaves the jukebox silent: the sound of the song
/// is the last one stopped.
pub proof fn law_second_press_stops<S>(
    a: SongList<S>,
    b: SongList<S>,
    c: SongList<S>,
    pin: usize,
    sound: S,
    stop_only: bool,
)
    requires
        started(a, pin, Some(sound), b),
        pressed(b, pin, stop_only, c),
    ensures
        stop_only,
        c.cursor() is None,
        c.current() is None,
        c.library() == a.library(),
        c.stopped() == stop_log(a.stopped(), a.current()).push(sound),
{
}

/// A press only stops a song, with nothing else to do, when that button's
/// song was playing.
pub proof fn law_stop_only_own_song<S>(a: SongList<S>, pin: usize, b: SongList<S>)
    requires
        pressed(a, pin, true, b),
    ensures
        a.cursor() == Some(pin),
{
}

/// A press of a button other than the one whose song plays never ends at
/// the stop alone: it hands back the file of the song the button is set to,
/// under the jukebox's data directory, or fails for the library. No data
/// directory is reported only where the jukebox has none, a missing setting
/// only where the query for it has no row.
pub proof fn law_play_hands_back_song_file<S>(before: SongList<S>, pin: usize, r: Result<Option<String>, DbError>)
    requires
        play_answer(before, pin, r),
        before.cursor() != Some(pin),
    ensures
        !(r matches Ok(None)),
        !(r matches Err(DbError::TooManyRows)),
        r matches Err(DbError::NoDataDir) ==> before.data_dir() is None,
        before.data_dir() is Some ==> !(r matches Err(DbError::NoDataDir)),
        r matches Err(DbError::NotFound) ==> query_ended(
            get_button_map_query(pool_path(before.library()), pin as i64),
            0,
        ),
        r matches Ok(Some(p)) ==> (before.data_dir() matches Some(d) && p@.subrange(0, d.len() as int) == d),
        r matches Ok(Some(p)) ==> exists|m: ButtonMap|
            #[trigger] is_button_setting(pool_path(before.library()), pin as i64, m) && ({
                let tail = "music_box/"@ + "songs"@ + seq!['/'] + m.key@ + seq!['.'] + before.audio_format();
                p@.subrange(p@.len() - tail.len(), p@.len() as int) == tail
            }),
{
    if let Ok(Some(p)) = r {
        let m = choose|m: ButtonMap|
            #[trigger] is_button_setting(pool_path(before.library()), pin as i64, m)
            && (before.data_dir() matches Some(d) && p@ == spec_file_path(
                spec_data_path(d, "songs"@),
                m.key@,
                before.audio_format(),
            ));
        let d = before.data_dir()->Some_0;
        law_files_under_data_dir(d, "songs"@, m.key@, before.audio_format());
    }
}

/// Stopping twice is stopping once: the second stop finds the jukebox
/// silent and stops nothing more.
pub proof fn law_second_stop_is_quiet<S>(a: SongList<S>, b: SongList<S>, c: SongList<S>)
    requires
        silenced(a, b),
        silenced(b, c),
    ensures
        c.stopped() == b.stopped(),
        c.cursor() == b.cursor(),
        c.current() == b.current(),
        c.library() == b.library(),
{
}

/// A press never loses a sound: whatever played is stopped, and nothing
/// else is.
pub proof fn law_press_stops_what_played<S>(a: SongList<S>, pin: usize, stop_only: bool, b: SongList<S>)
    requires
        pressed(a, pin, stop_only, b),
    ensures
        b.stopped().len() == a.stopped().len() + (if a.current() is Some { 1int } else { 0int }),
        a.current() matches Some(s) ==> b.stopped().last() == s,
        b.stopped().subrange(0, a.stopped().len() as int) == a.stopped(),
{
    assert(b.stopped().subrange(0, a.stopped().len() as int) =~= a.stopped());
}

} // verus!
