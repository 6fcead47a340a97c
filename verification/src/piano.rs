//! The piano of the perfect-pitch game: one note per button, sounding from
//! note-on to note-off.
use crate::util::play_sound::Player;
use std::collections::HashMap;
use vstd::prelude::*;

verus! {

broadcast use vstd::std_specs::hash::group_hash_axioms;

/// The notes that sound, by button.
pub struct Piano<S> {
    state: HashMap<usize, S>,
    stopped: Ghost<Seq<S>>,
}

impl<S: Player> Piano<S> {
    /// The sound of each button whose note is on.
    pub closed spec fn playing(&self) -> Map<usize, S> {
        self.state@
    }

    /// The sounds this piano called `Player::stop` on, oldest first.
    pub closed spec fn stopped(&self) -> Seq<S> {
        self.stopped@
    }

    /// A piano with no note on.
    pub fn new() -> (p: Self)
        ensures
            p.playing() == Map::<usize, S>::empty(),
            p.stopped() == Seq::<S>::empty(),
    {
        Self { state: HashMap::new(), stopped: Ghost(Seq::empty()) }
    }

    /// Starts the note of button `pin` with the sound opened from its file
    /// (`Config::pitch_path`): the piano keeps it for that button, in place
    /// of a sound kept before for it. Where the sound could not be opened
    /// the piano stays as it was and the error is handed back.
    pub fn note_on<E>(&mut self, pin: usize, loaded: Result<S, E>) -> (r: Result<(), E>)
        ensures
            loaded matches Ok(s) ==> r is Ok && final(self).playing() == old(self).playing().insert(pin, s),
            loaded matches Err(e) ==> r == Err::<(), E>(e) && final(self).playing() == old(self).playing(),
            final(self).stopped() == old(self).stopped(),
    {
        match loaded {
            Ok(sound) => {
                self.state.insert(pin, sound);
                Ok(())
            },
            Err(e) => Err(e),
        }
    }

    /// Stops the note of button `pin`, if it is on, and forgets it.
    pub fn note_off(&mut self, pin: usize)
        ensures
            final(self).playing() == old(self).playing().remove(pin),
            old(self).playing().contains_key(pin) ==> final(self).stopped() == old(self).stopped().push(
                old(self).playing()[pin],
            ),
            !old(self).playing().contains_key(pin) ==> final(self).stopped() == old(self).stopped(),
    {
        let sound = self.state.remove(&pin);
        if let Some(s) = sound {
            s.stop();
            self.stopped = Ghost(self.stopped@.push(s));
        }
    }
}

/// Switching a note on and then off again leaves the piano as it was,
/// whatever the other notes do: note-off undoes note-on.
pub proof fn law_note_off_undoes_note_on<S>(playing: Map<usize, S>, pin: usize, sound: S)
    requires
        !playing.contains_key(pin),
    ensures
        playing.insert(pin, sound).remove(pin) == playing,
{
    assert(playing.insert(pin, sound).remove(pin) =~= playing);
}

/// A second note-off of the same button changes nothing: the note is off
/// after the first, so nothing more is forgotten or stopped.
pub proof fn law_second_note_off_is_quiet<S>(playing: Map<usize, S>, pin: usize)
    ensures
        !playing.remove(pin).contains_key(pin),
        playing.remove(pin).remove(pin) == playing.remove(pin),
{
    assert(playing.remove(pin).remove(pin) =~= playing.remove(pin));
}

} // verus!
