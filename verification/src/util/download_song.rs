//! What the box asks `youtube-dl` for when it downloads a song, and what it
//! keeps of the answer.
use crate::config::Config;
use vstd::prelude::*;

verus! {

/// What `youtube-dl --dump-json` tells of a video: its id (which names the
/// downloaded file) and its title.
#[derive(Debug, Clone)]
pub struct YouTubeResponse {
    pub id: String,
    pub title: String,
}

/// The program that downloads songs.
pub const YOUTUBE_DL: &'static str = "youtube-dl";

/// The arguments that ask `youtube-dl` for the description of the video at
/// `url`, as JSON, without downloading it.
pub fn info_args(url: &str) -> (args: Vec<String>)
    ensures
        args@.len() == 2,
        args@[0]@ == "--dump-json"@,
        args@[1]@ == url@,
{
    let mut args = Vec::new();
    args.push(String::from_str("--dump-json"));
    args.push(String::from_str(url));
    args
}

/// Where `youtube-dl` writes a song: the song directory, then the video id
/// and the extension, as `youtube-dl` fills them in.
pub fn output_template(song_dir: &str) -> (t: String)
    ensures
        t@ == song_dir@ + "/%(id)s.$(ext)s"@,
{
    let mut t = String::from_str(song_dir);
    t.append("/%(id)s.$(ext)s");
    t
}

/// The arguments that make `youtube-dl` download the audio of the video at
/// `url` into `song_dir`, converted to the configured audio format.
pub fn download_args(url: &str, song_dir: &str, config: &Config) -> (args: Vec<String>)
    ensures
        args@.len() == 6,
        args@[0]@ == "-x"@,
        args@[1]@ == "--audio-format"@,
        args@[2]@ == config.audio_format@,
        args@[3]@ == "-o"@,
        args@[4]@ == song_dir@ + "/%(id)s.$(ext)s"@,
        args@[5]@ == url@,
{
    let mut args = Vec::new();
    args.push(String::from_str("-x"));
    args.push(String::from_str("--audio-format"));
    args.push(String::from_str(config.audio_format));
    args.push(String::from_str("-o"));
    args.push(output_template(song_dir));
    args.push(String::from_str(url));
    args
}

/// What the description request to `youtube-dl` gave: its standard output
/// (the JSON description) where it succeeded, else an error that quotes its
/// standard error.
pub fn info_output(success: bool, stdout: String, stderr: String) -> (r: Result<String, String>)
    ensures
        success ==> r == Ok::<String, String>(stdout),
        !success ==> (r matches Err(e) && e@ == "youtube-dl json error: "@ + stderr@),
{
    if !success {
        let mut message = String::from_str("youtube-dl json error: ");
        message.append(stderr.as_str());
        return Err(message);
    }
    Ok(stdout)
}

} // verus!
