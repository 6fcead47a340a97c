use music_box::piano::Piano;
use music_box::task::game::{
    advance_round, judge, round_start, round_step, Answer, PerfectPitch, RoundAction, RoundEvent, RoundStage,
    HIGHEST_NOTE,
};
use music_box::task::looper::{loop_tick, QUANTIZE, STEPS};
use music_box::util::download_song::{download_args, info_args, info_output, output_template};
use music_box::util::play_sound::Player;
use music_box::config::get_config;
use std::cell::Cell;
use std::rc::Rc;

#[test]
fn loop_without_presses_goes_on() {
    let t = loop_tick(0, 1, &vec![]);
    assert_eq!(t.next_step, 1);
    assert_eq!(t.light_off, Some(0));
    assert_eq!(t.light_on, None);
    let t = loop_tick(3, 4, &vec![]);
    assert_eq!(t.next_step, 4);
    assert_eq!(t.light_off, None);
    assert_eq!(t.light_on, Some(1));
}

#[test]
fn loop_jumps_to_pressed_step() {
    let t = loop_tick(5, 6, &vec![2, 7]);
    assert_eq!(t.next_step, 8);
    assert_eq!(t.light_off, None);
    assert_eq!(t.light_on, Some(2));
}

#[test]
fn loop_button_past_the_steps_goes_to_start() {
    let t = loop_tick(9, 10, &vec![STEPS]);
    assert_eq!(t.next_step, 0);
    assert_eq!(t.light_on, Some(0));
}

#[test]
fn loop_ignores_a_request_for_the_playing_chunk() {
    let t = loop_tick(8, 9, &vec![2]);
    assert_eq!(t.next_step, 9);
    assert_eq!(t.light_off, Some(2));
    assert_eq!(t.light_on, None);
}

#[test]
fn loop_stays_in_range() {
    let n = STEPS * QUANTIZE;
    for current in 0..n {
        let next = (current + 1) % n;
        for b in 0..STEPS + 2 {
            let t = loop_tick(current, next, &vec![b]);
            assert!(t.next_step < n);
            assert!(t.next_step != current || next == current);
            if let Some(l) = t.light_on {
                assert!(l < STEPS);
            }
        }
    }
}

#[test]
fn judge_answers() {
    assert_eq!(judge(&vec![], 3), Answer::Waiting);
    assert_eq!(judge(&vec![1, 3], 3), Answer::Correct);
    assert_eq!(judge(&vec![1, 2], 3), Answer::Wrong);
}

#[test]
fn game_sequence_grows_and_restarts() {
    let mut g = PerfectPitch::new();
    assert_eq!(g.sequence().len(), 1);
    g.next();
    assert_eq!(g.sequence().len(), 2);
    let before = g.sequence().clone();
    g.finish_round(true);
    assert_eq!(g.sequence().len(), 3);
    assert_eq!(&g.sequence()[..2], &before[..]);
    g.finish_round(false);
    assert_eq!(g.sequence().len(), 1);
    g.reset();
    assert!(g.sequence().is_empty());
    for _ in 0..50 {
        g.next();
    }
    assert!(g.sequence().iter().all(|n| *n <= HIGHEST_NOTE));
}

struct FakeSound {
    stops: Rc<Cell<u32>>,
    path: String,
}

impl Player for FakeSound {
    fn stop(&self) {
        self.stops.set(self.stops.get() + 1);
    }
}

#[test]
fn piano_notes_on_and_off() {
    let stops = Rc::new(Cell::new(0));
    let mut piano: Piano<FakeSound> = Piano::new();
    let r = piano.note_on(4, Ok::<FakeSound, ()>(FakeSound { stops: stops.clone(), path: "four".to_owned() }));
    assert!(r.is_ok());
    piano.note_off(4);
    assert_eq!(stops.get(), 1);
    piano.note_off(4);
    assert_eq!(stops.get(), 1);
}

#[test]
fn piano_note_on_replaces_the_sound_of_its_button() {
    let first = Rc::new(Cell::new(0));
    let second = Rc::new(Cell::new(0));
    let other = Rc::new(Cell::new(0));
    let mut piano: Piano<FakeSound> = Piano::new();
    piano.note_on(1, Ok::<FakeSound, ()>(FakeSound { stops: first.clone(), path: "a".to_owned() })).unwrap();
    piano.note_on(3, Ok::<FakeSound, ()>(FakeSound { stops: other.clone(), path: "c".to_owned() })).unwrap();
    piano.note_on(1, Ok::<FakeSound, ()>(FakeSound { stops: second.clone(), path: "b".to_owned() })).unwrap();
    piano.note_off(1);
    assert_eq!(first.get(), 0);
    assert_eq!(second.get(), 1);
    assert_eq!(other.get(), 0);
    piano.note_off(3);
    assert_eq!(other.get(), 1);
}

#[test]
fn piano_load_failure_keeps_nothing() {
    let stops = Rc::new(Cell::new(0));
    let mut piano: Piano<FakeSound> = Piano::new();
    piano.note_on(2, Ok::<FakeSound, &'static str>(FakeSound { stops: stops.clone(), path: "two".to_owned() })).unwrap();
    let r = piano.note_on(5, Err::<FakeSound, &'static str>("no file"));
    assert_eq!(r, Err("no file"));
    piano.note_off(5);
    assert_eq!(stops.get(), 0);
    piano.note_off(2);
    assert_eq!(stops.get(), 1);
}

#[test]
fn pitch_file_of_a_button() {
    if let Some(p) = get_config().pitch_path(4) {
        assert!(p.ends_with("/music_box/pitch/4.mp3"));
    }
}

#[test]
fn fake_sound_keeps_its_path() {
    let f = FakeSound { stops: Rc::new(Cell::new(0)), path: "x".to_owned() };
    assert_eq!(f.path, "x");
}

#[test]
fn youtube_dl_arguments() {
    assert_eq!(info_args("http://v"), vec!["--dump-json".to_owned(), "http://v".to_owned()]);
    assert_eq!(output_template("/s"), "/s/%(id)s.$(ext)s");
    assert_eq!(
        download_args("http://v", "/s", &get_config()),
        vec!["-x", "--audio-format", "mp3", "-o", "/s/%(id)s.$(ext)s", "http://v"]
            .into_iter()
            .map(|s| s.to_owned())
            .collect::<Vec<String>>()
    );
}

#[test]
fn round_steps() {
    let seq = vec![3, 5, 7];
    assert_eq!(round_step(&seq, 0, &RoundEvent::Pressed(vec![])), RoundAction::Wait);
    assert_eq!(round_step(&seq, 0, &RoundEvent::Pressed(vec![3])), RoundAction::Next);
    assert_eq!(round_step(&seq, 1, &RoundEvent::Pressed(vec![2, 5])), RoundAction::Next);
    assert_eq!(round_step(&seq, 2, &RoundEvent::Pressed(vec![7])), RoundAction::Win);
    assert_eq!(round_step(&seq, 1, &RoundEvent::Pressed(vec![3])), RoundAction::Lose);
    assert_eq!(round_step(&seq, 1, &RoundEvent::Timeout), RoundAction::Lose);
}

#[test]
fn push_note_appends() {
    let mut g = PerfectPitch::new();
    let first = g.sequence()[0];
    g.push_note(11);
    g.push_note(0);
    assert_eq!(g.sequence(), &vec![first, 11, 0]);
}

#[test]
fn youtube_dl_output_decision() {
    assert_eq!(info_output(true, "{}".to_owned(), "warn".to_owned()), Ok("{}".to_owned()));
    assert_eq!(
        info_output(false, "{}".to_owned(), "no video".to_owned()),
        Err("youtube-dl json error: no video".to_owned())
    );
}

#[test]
fn rounds_advance_through_the_sequence() {
    let seq = vec![3, 1, 4];
    assert_eq!(round_start(&seq), RoundStage::Repeat(0));
    assert_eq!(round_start(&vec![]), RoundStage::Won);
    assert_eq!(advance_round(&seq, 0, &RoundEvent::Pressed(vec![])), RoundStage::Repeat(0));
    assert_eq!(advance_round(&seq, 0, &RoundEvent::Pressed(vec![3])), RoundStage::Repeat(1));
    assert_eq!(advance_round(&seq, 1, &RoundEvent::Pressed(vec![0, 1])), RoundStage::Repeat(2));
    assert_eq!(advance_round(&seq, 2, &RoundEvent::Pressed(vec![4])), RoundStage::Won);
    assert_eq!(advance_round(&seq, 1, &RoundEvent::Pressed(vec![2])), RoundStage::Lost);
    assert_eq!(advance_round(&seq, 2, &RoundEvent::Timeout), RoundStage::Lost);
}
