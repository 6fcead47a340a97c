//! The rows of the song library.
use vstd::prelude::*;

verus! {

/// A point in time: seconds since the Unix epoch (UTC) and nanoseconds past
/// them.
#[derive(Debug, Clone, Copy, PartialEq, Eq, Structural)]
pub struct Timestamp {
    pub seconds: i64,
    pub nanos: u32,
}

/// A downloaded song: `key` is its video id, which also names its file.
#[derive(Debug, Clone)]
pub struct Song {
    pub id: i64,
    pub key: String,
    pub title: String,
    pub created: Timestamp,
    pub updated: Timestamp,
}

/// The song (by key) that a button was set to play, with the song's title.
#[derive(Debug, Clone)]
pub struct ButtonMap {
    pub id: i64,
    pub key: String,
    pub button_id: i64,
    pub created: Timestamp,
    pub title: Option<String>,
}

/// A loop sample.
#[derive(Debug, Clone)]
pub struct Loop {
    pub id: i64,
    pub title: String,
    pub created: Timestamp,
    pub updated: Timestamp,
}

} // verus!
