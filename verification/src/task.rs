//! The decisions of the music box's three modes (the jukebox, the loop
//! sequencer and the perfect-pitch game) and of its web interface.
pub mod game;
pub mod http;
pub mod looper;
pub mod song;
