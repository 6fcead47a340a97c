# music_box

A music box built from push buttons with lights, a speaker and a small web
interface. It has three modes:

- a jukebox: each button plays the song it was set to (pressing it again
  stops the song);
- a loop sequencer: a sample cut into chunks, the buttons jump between steps;
- a perfect-pitch game: the box plays a growing sequence of notes, the player
  repeats it.

Songs are downloaded with `youtube-dl` and kept in an SQLite library.

## Layout

- `src/` is the library, written in Verus and verified: the paths of the sound
  files, the song library, the button readings, the sequencer, the piano and
  the decisions of each mode, each with its contract, and proof functions for
  the properties that span calls.
- `app/` is the program around it: the audio output, the button hardware and
  terminal stand-in, the web server, `youtube-dl` and the main loop.
- `tests/` runs the library on concrete values, SQLite included.
