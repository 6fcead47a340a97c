//! The loop mode: a sample cut into `STEPS * QUANTIZE` chunks that the
//! buttons jump between, with one light per button marking the beat.
use vstd::prelude::*;

verus! {

/// The number of buttons that pick a step of the loop.
pub const STEPS: usize = 8;

/// The number of chunks per step.
pub const QUANTIZE: usize = 4;

/// What the loop does when a chunk has finished playing: the chunk to play
/// next, and the lights to switch off and then on.
pub struct LoopTick {
    pub next_step: usize,
    pub light_off: Option<usize>,
    pub light_on: Option<usize>,
}

/// The chunk the buttons ask for: the first pressed button's step (the
/// start when that button is past the steps), or `next` when none is
/// pressed; a request for the chunk that plays now is ignored.
pub open spec fn spec_loop_target(current: nat, next: nat, pressed: Seq<usize>) -> nat {
    let wanted = if pressed.len() > 0 {
        if pressed[0] < STEPS { (pressed[0] * QUANTIZE) as nat } else { 0 }
    } else {
        next
    };
    if wanted == current { next } else { wanted }
}

/// The light of the step that chunk `chunk` starts, if it starts one.
pub open spec fn spec_step_light(chunk: nat) -> Option<usize> {
    if chunk % (QUANTIZE as nat) == 0 { Some((chunk / (QUANTIZE as nat)) as usize) } else { None }
}

/// Decides the chunk after `current`, given the chunk `next` that would come
/// anyway and the buttons held down (in increasing order). The light of a
/// step goes off when its first chunk ends and on when its first chunk
/// begins.
pub fn loop_tick(current: usize, next: usize, pressed: &Vec<usize>) -> (t: LoopTick)
    ensures
        t.next_step == spec_loop_target(current as nat, next as nat, pressed@),
        t.light_off == spec_step_light(current as nat),
        t.light_on == spec_step_light(t.next_step as nat),
{
    let mut new_next = next;
    if pressed.len() > 0 {
        let pin = pressed[0];
        if pin < STEPS {
            new_next = pin * QUANTIZE;
        } else {
            new_next = 0;
        }
    }
    if new_next == current {
        new_next = next;
    }
    let light_off = if current % QUANTIZE == 0 { Some(current / QUANTIZE) } else { None };
    let light_on = if new_next % QUANTIZE == 0 { Some(new_next / QUANTIZE) } else { None };
    LoopTick { next_step: new_next, light_off, light_on }
}

/// The loop never leaves its chunks: with `next` among the
/// `STEPS * QUANTIZE` chunks, the chosen chunk is one of them too; the
/// lights switched are among the `STEPS` buttons; and the loop moves on
/// from `current` unless `next` itself is `current`.
pub proof fn law_loop_stays_in_range(current: nat, next: nat, pressed: Seq<usize>)
    requires
        current < STEPS * QUANTIZE,
        next < STEPS * QUANTIZE,
    ensures
        spec_loop_target(current, next, pressed) < STEPS * QUANTIZE,
        spec_step_light(current) matches Some(l) ==> l < STEPS,
        spec_step_light(spec_loop_target(current, next, pressed)) matches Some(l) ==> l < STEPS,
        spec_loop_target(current, next, pressed) == current ==> next == current,
{
}

/// The first button held picks the step: a button of a step sends the loop
/// to that step's first chunk, any button past the steps sends it back to
/// the start (chunk 0), and with no button held the loop goes on to `next`;
/// a pick of the chunk that plays now leaves `next` in place.
pub proof fn law_loop_follows_first_button(current: nat, next: nat, pressed: Seq<usize>)
    ensures
        pressed.len() == 0 ==> spec_loop_target(current, next, pressed) == next,
        pressed.len() > 0 && pressed[0] >= STEPS && current != 0 ==> spec_loop_target(current, next, pressed)
            == 0,
        pressed.len() > 0 && pressed[0] >= STEPS && current == 0 ==> spec_loop_target(current, next, pressed)
            == next,
        pressed.len() > 0 && pressed[0] < STEPS && pressed[0] * QUANTIZE != current ==> spec_loop_target(
            current,
            next,
            pressed,
        ) == pressed[0] * QUANTIZE,
        pressed.len() > 0 && pressed[0] < STEPS && pressed[0] * QUANTIZE == current ==> spec_loop_target(
            current,
            next,
            pressed,
        ) == next,
{
}

} // verus!
