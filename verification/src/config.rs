//! Where the music box keeps its files, and how loud it plays.
use vstd::prelude::*;

verus! {

/// The directory separator of the paths built here.
pub open spec fn is_separator(c: char) -> bool {
    c == '/'
}

/// `base` joined with the relative path `rel`: a separator is put between
/// them unless `base` is empty or already ends in one.
pub open spec fn spec_join(base: Seq<char>, rel: Seq<char>) -> Seq<char> {
    if base.len() == 0 || is_separator(base.last()) {
        base + rel
    } else {
        base + seq!['/'] + rel
    }
}

/// The digit character for `d < 10`.
pub open spec fn spec_digit(d: nat) -> char {
    if d == 0 { '0' }
    else if d == 1 { '1' }
    else if d == 2 { '2' }
    else if d == 3 { '3' }
    else if d == 4 { '4' }
    else if d == 5 { '5' }
    else if d == 6 { '6' }
    else if d == 7 { '7' }
    else if d == 8 { '8' }
    else { '9' }
}

/// The decimal notation of `n`, most significant digit first, without
/// leading zeros.
pub open spec fn spec_decimal(n: nat) -> Seq<char>
    decreases n,
{
    if n < 10 {
        seq![spec_digit(n)]
    } else {
        spec_decimal(n / 10).push(spec_digit(n % 10))
    }
}

fn digit_str(d: usize) -> (s: &'static str)
    requires
        d < 10,
    ensures
        s@ == seq![spec_digit(d as nat)],
{
    if d == 0 {
        proof { reveal_strlit("0"); }
        "0"
    } else if d == 1 {
        proof { reveal_strlit("1"); }
        "1"
    } else if d == 2 {
        proof { reveal_strlit("2"); }
        "2"
    } else if d == 3 {
        proof { reveal_strlit("3"); }
        "3"
    } else if d == 4 {
        proof { reveal_strlit("4"); }
        "4"
    } else if d == 5 {
        proof { reveal_strlit("5"); }
        "5"
    } else if d == 6 {
        proof { reveal_strlit("6"); }
        "6"
    } else if d == 7 {
        proof { reveal_strlit("7"); }
        "7"
    } else if d == 8 {
        proof { reveal_strlit("8"); }
        "8"
    } else {
        proof { reveal_strlit("9"); }
        "9"
    }
}

/// The decimal notation of `n`, as `n.to_string()` writes it.
pub fn decimal_string(n: usize) -> (s: String)
    ensures
        s@ == spec_decimal(n as nat),
    decreases n,
{
    if n < 10 {
        String::from_str(digit_str(n))
    } else {
        let mut s = decimal_string(n / 10);
        s.append(digit_str(n % 10));
        s
    }
}

/// `dir/name.format`: a file `name` of the given audio format in `dir`.
pub open spec fn spec_file_path(dir: Seq<char>, name: Seq<char>, format: Seq<char>) -> Seq<char> {
    dir + seq!['/'] + name + seq!['.'] + format
}

/// The directory `music_box/<name>` under the user's data directory `data_dir`.
pub open spec fn spec_data_path(data_dir: Seq<char>, name: Seq<char>) -> Seq<char> {
    spec_join(data_dir, "music_box/"@ + name)
}

/// `p` is the path `music_box/<name>` under some data directory.
pub open spec fn is_data_path(p: Seq<char>, name: Seq<char>) -> bool {
    exists|d: Seq<char>| p == #[trigger] spec_data_path(d, name)
}

/// `p` is the file `name` of the given format in the directory
/// `music_box/<dir_name>` under some data directory.
pub open spec fn is_file_under(p: Seq<char>, dir_name: Seq<char>, name: Seq<char>, format: Seq<char>) -> bool {
    exists|d: Seq<char>| p == spec_file_path(#[trigger] spec_data_path(d, dir_name), name, format)
}

/// Where the user's data lives, as `dirs::data_dir` finds it, converted to a
/// `String`. It rests on the environment (the home directory and the
/// platform's conventions), so nothing is claimed of the result; `None`
/// comes when there is no such directory or its path is not valid UTF-8.
#[verifier::external_body]
fn user_data_dir() -> (dir: Option<String>) {
    match dirs::data_dir() {
        Some(p) => match p.to_str() {
            Some(s) => Some(s.to_owned()),
            None => None,
        },
        None => None,
    }
}

/// `base` joined with the relative path `rel`, as `Path::join` does it on
/// Unix for a relative `rel`.
pub fn join_path(base: &str, rel: &str) -> (p: String)
    ensures
        p@ == spec_join(base@, rel@),
{
    let n = base.unicode_len();
    let mut p = String::from_str(base);
    if n == 0 || base.get_char(n - 1) == '/' {
        p.append(rel);
    } else {
        proof { reveal_strlit("/"); }
        p.append("/");
        p.append(rel);
        assert(p@ =~= base@ + seq!['/'] + rel@);
    }
    p
}

/// Settings of the music box: how loud it plays (in thousandths of full
/// volume), the audio format of its sound files, and the user's data
/// directory that its files are kept under, as found when the settings were
/// made.
pub struct Config {
    pub volume_per_mille: u32,
    pub audio_format: &'static str,
    pub data_dir: Option<String>,
}

impl Config {
    /// The user's data directory these settings keep their files under;
    /// `None` where none was found.
    pub open spec fn data_dir(&self) -> Option<Seq<char>> {
        match self.data_dir {
            Some(d) => Some(d@),
            None => None,
        }
    }

    /// The settings the music box runs with: a fortieth of full volume, mp3,
    /// and the files under the user's data directory.
    pub fn new() -> (c: Self)
        ensures
            c.volume_per_mille == 25,
            c.audio_format@ == "mp3"@,
    {
        Self { volume_per_mille: 25, audio_format: "mp3", data_dir: user_data_dir() }
    }

    /// The directory `music_box/<name>` under the data directory `data_dir`.
    pub fn data_path(&self, data_dir: &str, name: &str) -> (p: String)
        ensures
            p@ == spec_data_path(data_dir@, name@),
    {
        let mut rel = String::from_str("music_box/");
        rel.append(name);
        join_path(data_dir, rel.as_str())
    }

    /// The file `name` in the audio format of these settings, in `dir`.
    pub fn file_path(&self, dir: &str, name: &str) -> (p: String)
        ensures
            p@ == spec_file_path(dir@, name@, self.audio_format@),
    {
        proof {
            reveal_strlit("/");
            reveal_strlit(".");
        }
        let mut p = String::from_str(dir);
        p.append("/");
        p.append(name);
        p.append(".");
        p.append(self.audio_format);
        assert(p@ =~= spec_file_path(dir@, name@, self.audio_format@));
        p
    }

    /// The directory `music_box/<name>` under the user's data directory;
    /// `None` where that directory cannot be found.
    fn dir(&self, name: &str) -> (p: Option<String>)
        ensures
            p matches Some(p) ==> is_data_path(p@, name@),
            p is Some <==> self.data_dir() is Some,
            p matches Some(q) ==> (self.data_dir() matches Some(d) && q@ == spec_data_path(d, name@)),
    {
        match &self.data_dir {
            Some(d) => {
                let p = self.data_path(d.as_str(), name);
                assert(p@ == spec_data_path(d@, name@));
                Some(p)
            },
            None => None,
        }
    }

    /// The directory of the loop samples.
    pub fn loop_dir(&self) -> (p: Option<String>)
        ensures
            p matches Some(p) ==> is_data_path(p@, "loops"@),
            p is Some <==> self.data_dir() is Some,
            p matches Some(q) ==> (self.data_dir() matches Some(d) && q@ == spec_data_path(d, "loops"@)),
    {
        self.dir("loops")
    }

    /// The directory of the downloaded songs.
    pub fn song_dir(&self) -> (p: Option<String>)
        ensures
            p matches Some(p) ==> is_data_path(p@, "songs"@),
            p is Some <==> self.data_dir() is Some,
            p matches Some(q) ==> (self.data_dir() matches Some(d) && q@ == spec_data_path(d, "songs"@)),
    {
        self.dir("songs")
    }

    /// The directory of the notes of the piano.
    pub fn pitch_dir(&self) -> (p: Option<String>)
        ensures
            p matches Some(p) ==> is_data_path(p@, "pitch"@),
            p is Some <==> self.data_dir() is Some,
            p matches Some(q) ==> (self.data_dir() matches Some(d) && q@ == spec_data_path(d, "pitch"@)),
    {
        self.dir("pitch")
    }

    /// The directory of the spoken messages.
    pub fn speech_dir(&self) -> (p: Option<String>)
        ensures
            p matches Some(p) ==> is_data_path(p@, "speech"@),
            p is Some <==> self.data_dir() is Some,
            p matches Some(q) ==> (self.data_dir() matches Some(d) && q@ == spec_data_path(d, "speech"@)),
    {
        self.dir("speech")
    }

    /// The file `d/n.format` for a directory `d` with `is_data_path(d, dir_name)`.
    fn file_under(&self, dir: Option<String>, name: &str, Ghost(dir_name): Ghost<Seq<char>>) -> (p: Option<String>)
        requires
            dir matches Some(d) ==> is_data_path(d@, dir_name),
            dir is Some <==> self.data_dir() is Some,
            dir matches Some(q) ==> (self.data_dir() matches Some(d) && q@ == spec_data_path(d, dir_name)),
        ensures
            p matches Some(p) ==> is_file_under(p@, dir_name, name@, self.audio_format@),
            p is Some <==> dir is Some,
            p matches Some(q) ==> (self.data_dir() matches Some(d) && q@ == spec_file_path(
                spec_data_path(d, dir_name),
                name@,
                self.audio_format@,
            )),
    {
        match dir {
            Some(d) => {
                let p = self.file_path(d.as_str(), name);
                let ghost w = choose|w: Seq<char>| d@ == #[trigger] spec_data_path(w, dir_name);
                assert(p@ == spec_file_path(spec_data_path(w, dir_name), name@, self.audio_format@));
                Some(p)
            },
            None => None,
        }
    }

    /// The sound file of the note on button `pin`: `<pitch dir>/<pin>.<format>`.
    pub fn pitch_path(&self, pin: usize) -> (p: Option<String>)
        ensures
            p matches Some(p) ==> is_file_under(p@, "pitch"@, spec_decimal(pin as nat), self.audio_format@),
            p is Some <==> self.data_dir() is Some,
            p matches Some(q) ==> (self.data_dir() matches Some(d) && q@ == spec_file_path(
                spec_data_path(d, "pitch"@),
                spec_decimal(pin as nat),
                self.audio_format@,
            )),
    {
        let name = decimal_string(pin);
        self.file_under(self.pitch_dir(), name.as_str(), Ghost("pitch"@))
    }

    /// The spoken message `name`: `<speech dir>/<name>.<format>`.
    pub fn speech_path(&self, name: String) -> (p: Option<String>)
        ensures
            p matches Some(p) ==> is_file_under(p@, "speech"@, name@, self.audio_format@),
            p is Some <==> self.data_dir() is Some,
            p matches Some(q) ==> (self.data_dir() matches Some(d) && q@ == spec_file_path(
                spec_data_path(d, "speech"@),
                name@,
                self.audio_format@,
            )),
    {
        self.file_under(self.speech_dir(), name.as_str(), Ghost("speech"@))
    }

    /// The downloaded song `name`: `<song dir>/<name>.<format>`.
    pub fn song_path(&self, name: String) -> (p: Option<String>)
        ensures
            p matches Some(p) ==> is_file_under(p@, "songs"@, name@, self.audio_format@),
            p is Some <==> self.data_dir() is Some,
            p matches Some(q) ==> (self.data_dir() matches Some(d) && q@ == spec_file_path(
                spec_data_path(d, "songs"@),
                name@,
                self.audio_format@,
            )),
    {
        self.file_under(self.song_dir(), name.as_str(), Ghost("songs"@))
    }

    /// The loop sample `name`: `<loop dir>/<name>.<format>`.
    pub fn loop_path(&self, name: String) -> (p: Option<String>)
        ensures
            p matches Some(p) ==> is_file_under(p@, "loops"@, name@, self.audio_format@),
            p is Some <==> self.data_dir() is Some,
            p matches Some(q) ==> (self.data_dir() matches Some(d) && q@ == spec_file_path(
                spec_data_path(d, "loops"@),
                name@,
                self.audio_format@,
            )),
    {
        self.file_under(self.loop_dir(), name.as_str(), Ghost("loops"@))
    }

    /// The database file, `music_box/music_box.sqlite3` under the data directory.
    pub fn db_path(&self) -> (p: Option<String>)
        ensures
            p matches Some(p) ==> is_data_path(p@, "music_box.sqlite3"@),
            p is Some <==> self.data_dir() is Some,
            p matches Some(q) ==> (self.data_dir() matches Some(d) && q@ == spec_data_path(d, "music_box.sqlite3"@)),
    {
        self.dir("music_box.sqlite3")
    }
}

/// The settings of the music box.
pub fn get_config() -> (c: Config)
    ensures
        c.volume_per_mille == 25,
        c.audio_format@ == "mp3"@,
{
    Config::new()
}

/// Distinct numbers have distinct decimal notations.
pub proof fn lemma_decimal_injective(a: nat, b: nat)
    requires
        spec_decimal(a) == spec_decimal(b),
    ensures
        a == b,
    decreases a,
{
    lemma_decimal_len(a);
    lemma_decimal_len(b);
    if a < 10 {
        if b >= 10 {
            assert(spec_decimal(b).len() >= 2);
        }
        assert(spec_decimal(a)[0] == spec_digit(a));
        assert(spec_decimal(b)[0] == spec_digit(b));
    } else {
        if b < 10 {
            assert(spec_decimal(a).len() >= 2);
        } else {
            let pa = spec_decimal(a / 10);
            let pb = spec_decimal(b / 10);
            assert(spec_decimal(a) == pa.push(spec_digit(a % 10)));
            assert(spec_decimal(b) == pb.push(spec_digit(b % 10)));
            assert(spec_decimal(a).last() == spec_digit(a % 10));
            assert(spec_decimal(b).last() == spec_digit(b % 10));
            assert(pa =~= spec_decimal(a).drop_last());
            assert(pb =~= spec_decimal(b).drop_last());
            lemma_decimal_injective(a / 10, b / 10);
        }
    }
}

/// A decimal notation holds at least one character, and more than one
/// exactly for numbers from ten on.
pub proof fn lemma_decimal_len(n: nat)
    ensures
        spec_decimal(n).len() >= 1,
        n >= 10 ==> spec_decimal(n).len() >= 2,
    decreases n,
{
    if n >= 10 {
        lemma_decimal_len(n / 10);
    }
}

/// Every character of a decimal notation is an ASCII digit, and the first one
/// is `0` only for zero itself.
pub proof fn lemma_decimal_digits(n: nat)
    ensures
        forall|i: int| 0 <= i < spec_decimal(n).len() ==> '0' <= #[trigger] spec_decimal(n)[i] <= '9',
        spec_decimal(n)[0] == '0' <==> n == 0,
    decreases n,
{
    if n >= 10 {
        lemma_decimal_digits(n / 10);
        lemma_decimal_len(n / 10);
        assert(spec_decimal(n) == spec_decimal(n / 10).push(spec_digit(n % 10)));
    }
}

/// The files named by two names in one directory, of one format, are the
/// same only when the names are.
pub proof fn lemma_file_path_injective(dir: Seq<char>, a: Seq<char>, b: Seq<char>, format: Seq<char>)
    requires
        spec_file_path(dir, a, format) == spec_file_path(dir, b, format),
    ensures
        a == b,
{
    let pa = spec_file_path(dir, a, format);
    let pb = spec_file_path(dir, b, format);
    assert(pa.len() == dir.len() + 1 + a.len() + 1 + format.len());
    assert(pb.len() == dir.len() + 1 + b.len() + 1 + format.len());
    let start: int = dir.len() as int + 1;
    assert(a.len() == b.len());
    assert forall|i: int| 0 <= i < a.len() implies a[i] == b[i] by {
        assert(pa[start + i] == a[i]);
        assert(pb[start + i] == b[i]);
    }
    assert(a =~= b);
}

/// The directory `music_box/<name>` under `data_dir` is `data_dir` itself,
/// then a separator where `data_dir` is not empty and does not end in one,
/// then `music_box/<name>`: it always lies under `data_dir`.
pub proof fn lemma_data_path_shape(data_dir: Seq<char>, name: Seq<char>)
    ensures
        spec_data_path(data_dir, name).subrange(0, data_dir.len() as int) == data_dir,
        spec_data_path(data_dir, name) == data_dir + (if data_dir.len() == 0 || data_dir.last() == '/' {
            Seq::<char>::empty()
        } else {
            seq!['/']
        }) + "music_box/"@ + name,
{
    let p = spec_data_path(data_dir, name);
    if data_dir.len() == 0 || data_dir.last() == '/' {
        assert(p == data_dir + Seq::<char>::empty() + "music_box/"@ + name);
        assert(p.subrange(0, data_dir.len() as int) =~= data_dir);
    } else {
        assert(p =~= data_dir + seq!['/'] + ("music_box/"@ + name));
        assert(p.subrange(0, data_dir.len() as int) =~= data_dir);
    }
}

/// Every file of the music box lies under the user's data directory: the
/// file `name` of format `format` in `music_box/<dir_name>` under `data_dir`
/// starts with `data_dir` and ends with `music_box/<dir_name>/<name>.<format>`.
pub proof fn law_files_under_data_dir(data_dir: Seq<char>, dir_name: Seq<char>, name: Seq<char>, format: Seq<char>)
    ensures
        spec_file_path(spec_data_path(data_dir, dir_name), name, format).subrange(0, data_dir.len() as int)
            == data_dir,
        ({
            let p = spec_file_path(spec_data_path(data_dir, dir_name), name, format);
            let tail = "music_box/"@ + dir_name + seq!['/'] + name + seq!['.'] + format;
            p.subrange(p.len() - tail.len(), p.len() as int) == tail
        }),
{
    lemma_data_path_shape(data_dir, dir_name);
    let dp = spec_data_path(data_dir, dir_name);
    let p = spec_file_path(dp, name, format);
    let tail = "music_box/"@ + dir_name + seq!['/'] + name + seq!['.'] + format;
    let sep: Seq<char> = if data_dir.len() == 0 || data_dir.last() == '/' {
        Seq::<char>::empty()
    } else {
        seq!['/']
    };
    assert(p =~= data_dir + sep + tail);
    assert(p.subrange(0, data_dir.len() as int) =~= data_dir);
    assert(p.subrange(p.len() - tail.len(), p.len() as int) =~= tail);
}

/// Each button's note has a file of its own: under one data directory, the
/// pitch files of two buttons are the same only for the same button.
pub proof fn law_pitch_paths_distinct(data_dir: Seq<char>, format: Seq<char>, a: nat, b: nat)
    requires
        spec_file_path(spec_data_path(data_dir, "pitch"@), spec_decimal(a), format)
            == spec_file_path(spec_data_path(data_dir, "pitch"@), spec_decimal(b), format),
    ensures
        a == b,
{
    lemma_file_path_injective(spec_data_path(data_dir, "pitch"@), spec_decimal(a), spec_decimal(b), format);
    lemma_decimal_injective(a, b);
}

} // verus!
