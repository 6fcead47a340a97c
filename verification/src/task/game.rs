//! The perfect-pitch game: the box plays a growing sequence of notes, and
//! the player repeats it on the buttons.
use rand::rngs::ThreadRng;
use rand::Rng;
use vstd::prelude::*;

verus! {

/// The notes of the game are buttons `0 ..= HIGHEST_NOTE`.
pub const HIGHEST_NOTE: usize = 11;

/// How long a note of the sequence sounds, in milliseconds.
pub const NOTE_DURATION: u64 = 800;

/// The pause after each note of the sequence, in milliseconds.
pub const NOTE_SEPERATION: u64 = 150;

#[verifier::external_type_specification]
#[verifier::external_body]
pub struct ExThreadRng(ThreadRng);

/// `rand::thread_rng`: the generator of the calling thread. Nothing is
/// claimed of it.
#[verifier::external_body]
fn thread_rng() -> (rng: ThreadRng) {
    rand::thread_rng()
}

/// `Rng::gen_range(0..=max)`: a random number from `0` to `max`, both
/// included (the range is never empty, so it does not panic). Which one
/// comes is chance; only the bounds are claimed.
#[verifier::external_body]
fn gen_range_inclusive(rng: &mut ThreadRng, max: usize) -> (n: usize)
    ensures
        n <= max,
{
    rng.gen_range(0..=max)
}

/// A note picked at random among the buttons of the game.
fn random_note() -> (n: usize)
    ensures
        n <= HIGHEST_NOTE,
{
    let mut rng = thread_rng();
    gen_range_inclusive(&mut rng, HIGHEST_NOTE)
}

/// The player's answer to one note of the sequence, from the buttons newly
/// pressed.
#[derive(PartialEq, Eq, Structural, Debug, Clone, Copy)]
pub enum Answer {
    /// No button was pressed yet.
    Waiting,
    /// The expected button is among those pressed.
    Correct,
    /// Buttons were pressed, the expected one not among them.
    Wrong,
}

/// The answer that `newly_pressed` gives to the note `expected`.
pub open spec fn spec_answer(newly_pressed: Seq<usize>, expected: usize) -> Answer {
    if newly_pressed.len() == 0 {
        Answer::Waiting
    } else if newly_pressed.contains(expected) {
        Answer::Correct
    } else {
        Answer::Wrong
    }
}

/// Judges the buttons newly pressed against the note `expected`.
pub fn judge(newly_pressed: &Vec<usize>, expected: usize) -> (a: Answer)
    ensures
        a == spec_answer(newly_pressed@, expected),
{
    if newly_pressed.len() == 0 {
        return Answer::Waiting;
    }
    let mut i: usize = 0;
    while i < newly_pressed.len()
        invariant
            i <= newly_pressed@.len(),
            forall|j: int| 0 <= j < i ==> newly_pressed@[j] != expected,
        decreases newly_pressed@.len() - i,
    {
        if newly_pressed[i] == expected {
            assert(newly_pressed@.contains(expected)) by {
                assert(newly_pressed@[i as int] == expected);
            }
            return Answer::Correct;
        }
        i = i + 1;
    }
    Answer::Wrong
}

/// What happens while the player repeats the note at some position of the
/// sequence.
#[derive(Debug, Clone)]
pub enum RoundEvent {
    /// The time to answer ran out.
    Timeout,
    /// A reading of the buttons: those newly pressed, in increasing order.
    Pressed(Vec<usize>),
}

/// What the game does after an event of a round.
#[derive(PartialEq, Eq, Structural, Debug, Clone, Copy)]
pub enum RoundAction {
    /// Keep waiting for the player.
    Wait,
    /// The note was right; go on with the next one.
    Next,
    /// The note was right and it was the last one: the round is won.
    Win,
    /// A wrong button, or no answer in time: the round is lost.
    Lose,
}

/// The game's answer to `event` while the player repeats note `position` of
/// `sequence`.
pub open spec fn spec_round_step(sequence: Seq<usize>, position: int, event: RoundEvent) -> RoundAction {
    match event {
        RoundEvent::Timeout => RoundAction::Lose,
        RoundEvent::Pressed(newly) => match spec_answer(newly@, sequence[position]) {
            Answer::Waiting => RoundAction::Wait,
            Answer::Correct => if position + 1 == sequence.len() {
                RoundAction::Win
            } else {
                RoundAction::Next
            },
            Answer::Wrong => RoundAction::Lose,
        },
    }
}

/// Decides what the game does after `event` while the player repeats note
/// `position` of `sequence`: a timeout or a wrong button loses the round, the
/// right button moves on (or wins on the last note), no button waits.
pub fn round_step(sequence: &Vec<usize>, position: usize, event: &RoundEvent) -> (a: RoundAction)
    requires
        position < sequence@.len(),
    ensures
        a == spec_round_step(sequence@, position as int, *event),
{
    match event {
        RoundEvent::Timeout => RoundAction::Lose,
        RoundEvent::Pressed(newly) => match judge(newly, sequence[position]) {
            Answer::Waiting => RoundAction::Wait,
            Answer::Correct => if position == sequence.len() - 1 {
                RoundAction::Win
            } else {
                RoundAction::Next
            },
            Answer::Wrong => RoundAction::Lose,
        },
    }
}

/// Where a round stands.
#[derive(PartialEq, Eq, Structural, Debug, Clone, Copy)]
pub enum RoundStage {
    /// The player is to repeat note `position` of the sequence.
    Repeat(usize),
    /// Every note was repeated: the round is won.
    Won,
    /// The round is lost.
    Lost,
}

/// The stage a round of `sequence` starts in: at its first note, or won
/// at once where there is no note to repeat.
pub open spec fn spec_round_start(sequence: Seq<usize>) -> RoundStage {
    if sequence.len() == 0 {
        RoundStage::Won
    } else {
        RoundStage::Repeat(0)
    }
}

/// The stage a round of `sequence` moves to after `event` while the player
/// repeats note `position`.
pub open spec fn spec_advance_round(sequence: Seq<usize>, position: int, event: RoundEvent) -> RoundStage {
    match spec_round_step(sequence, position, event) {
        RoundAction::Wait => RoundStage::Repeat(position as usize),
        RoundAction::Next => RoundStage::Repeat((position + 1) as usize),
        RoundAction::Win => RoundStage::Won,
        RoundAction::Lose => RoundStage::Lost,
    }
}

/// The stage a round of `sequence` starts in.
pub fn round_start(sequence: &Vec<usize>) -> (s: RoundStage)
    ensures
        s == spec_round_start(sequence@),
{
    if sequence.len() == 0 {
        RoundStage::Won
    } else {
        RoundStage::Repeat(0)
    }
}

/// Moves a round of `sequence` on after `event` while the player repeats
/// note `position`: it stays at that note, goes to the next, or ends.
pub fn advance_round(sequence: &Vec<usize>, position: usize, event: &RoundEvent) -> (s: RoundStage)
    requires
        position < sequence@.len(),
    ensures
        s == spec_advance_round(sequence@, position as int, *event),
{
    match round_step(sequence, position, event) {
        RoundAction::Wait => RoundStage::Repeat(position),
        RoundAction::Next => {
            let len: usize = sequence.len();
            assert(position + 1 < len);
            RoundStage::Repeat(position + 1)
        },
        RoundAction::Win => RoundStage::Won,
        RoundAction::Lose => RoundStage::Lost,
    }
}

/// A round only ever asks for a note of its sequence: from its start, and
/// from any note of it, the next note asked for is one of the sequence.
pub proof fn law_round_stays_in_sequence(sequence: Seq<usize>, position: int, event: RoundEvent)
    requires
        0 <= position < sequence.len(),
        sequence.len() <= usize::MAX,
    ensures
        spec_round_start(sequence) matches RoundStage::Repeat(p) ==> p < sequence.len(),
        spec_advance_round(sequence, position, event) matches RoundStage::Repeat(p) ==> position <= p
            < sequence.len() && p <= position + 1,
{
}

/// Every note can be answered, the lowest as well as the highest: a reading
/// that holds the expected note is right, a reading of other buttons only is
/// wrong, and no button at all is still waiting.
pub proof fn law_answer_follows_the_buttons(newly_pressed: Seq<usize>, expected: usize)
    ensures
        (exists|i: int| 0 <= i < newly_pressed.len() && newly_pressed[i] == expected) ==> spec_answer(
            newly_pressed,
            expected,
        ) == Answer::Correct,
        newly_pressed.len() > 0 && (forall|i: int| 0 <= i < newly_pressed.len() ==> newly_pressed[i] != expected)
            ==> spec_answer(newly_pressed, expected) == Answer::Wrong,
        newly_pressed.len() == 0 ==> spec_answer(newly_pressed, expected) == Answer::Waiting,
{
    if exists|i: int| 0 <= i < newly_pressed.len() && newly_pressed[i] == expected {
        let i = choose|i: int| 0 <= i < newly_pressed.len() && newly_pressed[i] == expected;
        assert(newly_pressed.contains(expected));
    }
}

/// The right button at a note of a round moves the round on: to the next
/// note, or to a win at the last one; another button loses it.
pub proof fn law_right_button_moves_on(sequence: Seq<usize>, position: int, newly_pressed: Vec<usize>)
    requires
        0 <= position < sequence.len(),
        sequence.len() <= usize::MAX,
    ensures
        newly_pressed@.contains(sequence[position]) && position + 1 < sequence.len() ==> spec_advance_round(
            sequence,
            position,
            RoundEvent::Pressed(newly_pressed),
        ) == RoundStage::Repeat((position + 1) as usize),
        newly_pressed@.contains(sequence[position]) && position + 1 == sequence.len() ==> spec_advance_round(
            sequence,
            position,
            RoundEvent::Pressed(newly_pressed),
        ) == RoundStage::Won,
        newly_pressed@.len() > 0 && !newly_pressed@.contains(sequence[position]) ==> spec_advance_round(
            sequence,
            position,
            RoundEvent::Pressed(newly_pressed),
        ) == RoundStage::Lost,
        newly_pressed@.len() == 0 ==> spec_advance_round(sequence, position, RoundEvent::Pressed(newly_pressed))
            == RoundStage::Repeat(position as usize),
{
    law_answer_follows_the_buttons(newly_pressed@, sequence[position]);
}

/// A round is won only by pressing the right button at its last note, and a
/// timeout always loses it.
pub proof fn law_round_won_only_at_last_note(sequence: Seq<usize>, position: int, event: RoundEvent)
    requires
        0 <= position < sequence.len(),
    ensures
        spec_advance_round(sequence, position, event) == RoundStage::Won ==> position + 1 == sequence.len(),
        spec_advance_round(sequence, position, event) == RoundStage::Won ==> (event matches RoundEvent::Pressed(
            newly,
        ) && spec_answer(newly@, sequence[position]) == Answer::Correct),
        event is Timeout ==> spec_advance_round(sequence, position, event) == RoundStage::Lost,
{
}

/// The sequence of notes to repeat.
pub struct PerfectPitch {
    sequence: Vec<usize>,
}

impl PerfectPitch {
    /// The notes to repeat, in order.
    pub closed spec fn notes(&self) -> Seq<usize> {
        self.sequence@
    }

    #[verifier::type_invariant]
    closed spec fn inv(&self) -> bool {
        forall|i: int| 0 <= i < self.sequence@.len() ==> self.sequence@[i] <= HIGHEST_NOTE
    }

    /// A game whose sequence is one random note.
    pub fn new() -> (g: Self)
        ensures
            g.notes().len() == 1,
            g.notes()[0] <= HIGHEST_NOTE,
    {
        let mut sequence = Vec::new();
        let pin = random_note();
        sequence.push(pin);
        Self { sequence }
    }

    /// The notes to repeat, in order; each is a button of the game.
    pub fn sequence(&self) -> (s: &Vec<usize>)
        ensures
            s@ == self.notes(),
            forall|i: int| 0 <= i < s@.len() ==> s@[i] <= HIGHEST_NOTE,
    {
        proof { use_type_invariant(self); }
        &self.sequence
    }

    /// Adds a random note at the end of the sequence.
    pub fn next(&mut self)
        ensures
            final(self).notes().len() == old(self).notes().len() + 1,
            final(self).notes().drop_last() == old(self).notes(),
            final(self).notes().last() <= HIGHEST_NOTE,
    {
        let pin = random_note();
        self.push_note(pin);
    }

    /// Adds the note `note` at the end of the sequence.
    pub fn push_note(&mut self, note: usize)
        requires
            note <= HIGHEST_NOTE,
        ensures
            final(self).notes() == old(self).notes().push(note),
    {
        proof { use_type_invariant(&*self); }
        let mut sequence = Vec::new();
        std::mem::swap(&mut sequence, &mut self.sequence);
        sequence.push(note);
        self.sequence = sequence;
    }

    /// Forgets the sequence.
    pub fn reset(&mut self)
        ensures
            final(self).notes() == Seq::<usize>::empty(),
    {
        self.sequence = Vec::new();
    }

    /// Ends a round: a lost round starts the game over, and either way one
    /// random note is added.
    pub fn finish_round(&mut self, won: bool)
        ensures
            won ==> final(self).notes().drop_last() == old(self).notes(),
            !won ==> final(self).notes().len() == 1,
            final(self).notes().len() == (if won { old(self).notes().len() + 1 } else { 1 }),
            final(self).notes().last() <= HIGHEST_NOTE,
    {
        if !won {
            self.reset();
        }
        self.next();
    }
}

} // verus!
