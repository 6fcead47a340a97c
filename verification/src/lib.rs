//! Logic of a music box: a jukebox driven by push buttons, a loop sequencer and
//! a perfect-pitch game, with the song library kept in SQLite.
pub mod config;
pub mod db;
pub mod piano;
pub mod sequencer;
pub mod task;
pub mod ui;
pub mod util;
