use music_box::sequencer::{plan_steps, samples_to_skip, Sequencer};

#[test]
fn samples_to_skip_counts_whole_samples_per_channel() {
    // half a second at 44.1 kHz, stereo
    assert_eq!(samples_to_skip(500_000_000, 44_100, 2), 44_100);
    // rounding down per channel before multiplying
    assert_eq!(samples_to_skip(1, 44_100, 2), 0);
    assert_eq!(samples_to_skip(25_000, 44_100, 3), 3);
    assert_eq!(samples_to_skip(0, 48_000, 2), 0);
}

#[test]
fn plan_cuts_into_equal_chunks() {
    let plan = plan_steps(1_000, 4);
    assert_eq!(plan.step_nanos, 250);
    assert_eq!(plan.offsets, vec![0, 250, 500, 750]);
    let plan = plan_steps(1_003, 4);
    assert_eq!(plan.step_nanos, 250);
    assert_eq!(plan.offsets, vec![0, 250, 500, 750]);
    let plan = plan_steps(7, 1);
    assert_eq!(plan.step_nanos, 7);
    assert_eq!(plan.offsets, vec![0]);
}

#[test]
fn plan_chunks_tile_the_sample() {
    let total = 2_000_000_123u128;
    let steps = 32;
    let plan = plan_steps(total, steps);
    for i in 0..steps {
        if i + 1 < steps {
            assert_eq!(plan.offsets[i] + plan.step_nanos, plan.offsets[i + 1]);
        }
        assert!((plan.offsets[i] + plan.step_nanos) as u128 <= total);
    }
}

#[test]
fn sequencer_moves_between_chunks() {
    let mut s = Sequencer::new(vec!['a', 'b', 'c']);
    assert_eq!(s.steps(), 3);
    assert_eq!(s.get_current_cursor(), 0);
    assert_eq!(s.get_previous_cursor(), 0);
    assert_eq!(s.get_step(2), 2);
    assert_eq!(s.get_step(3), 0);
    assert_eq!(s.get_next_step(), 1);
    assert_eq!(*s.get_chunk(2), 'c');
    assert_eq!(*s.get_next_chunk(), 'b');
    assert_eq!(*s.next_step(), 'b');
    assert_eq!(s.get_current_cursor(), 1);
    assert_eq!(s.get_previous_cursor(), 0);
    assert_eq!(s.get_previous_step(), 0);
    assert_eq!(*s.set_step(2), 'c');
    assert_eq!(s.get_previous_cursor(), 1);
    assert_eq!(*s.next_step(), 'a');
    assert_eq!(s.get_current_cursor(), 0);
    assert_eq!(*s.set_step(9), 'a');
    assert_eq!(s.get_current_cursor(), 0);
}

#[test]
fn next_step_cycles_through_all_chunks() {
    let mut s = Sequencer::new((0..32).collect::<Vec<usize>>());
    s.set_step(5);
    let mut seen = Vec::new();
    for _ in 0..32 {
        seen.push(*s.next_step());
    }
    assert_eq!(s.get_current_cursor(), 5);
    let mut sorted = seen.clone();
    sorted.sort();
    assert_eq!(sorted, (0..32).collect::<Vec<usize>>());
}

#[test]
fn previous_step_undoes_next_step() {
    let mut s = Sequencer::new(vec![10, 20, 30, 40]);
    s.set_step(1);
    s.next_step();
    assert_eq!(*s.previous_step(), 20);
    assert_eq!(s.get_current_cursor(), 1);
}
