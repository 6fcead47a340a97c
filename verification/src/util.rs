//! Sounds and downloads of songs.
pub mod download_song;
pub mod play_sound;
