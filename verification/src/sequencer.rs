//! A step sequencer: a sample cut into equal chunks, played chunk by chunk,
//! with a cursor that can jump to any chunk.
use vstd::prelude::*;

verus! {

/// Nanoseconds in a second.
pub const NS_PER_SECOND: u128 = 1_000_000_000;

/// The number of samples to skip, over all channels, to pass `nanos`
/// nanoseconds of a source with the given sample rate and channel count:
/// whole samples per channel, rounded down, times the channels.
pub fn samples_to_skip(nanos: u128, sample_rate: u32, channels: u16) -> (n: u128)
    requires
        nanos * sample_rate <= u128::MAX,
    ensures
        n == (nanos * sample_rate) / (NS_PER_SECOND as int) * channels,
{
    let samples_per_channel: u128 = nanos * (sample_rate as u128) / NS_PER_SECOND;
    assert(samples_per_channel * channels <= u128::MAX) by (nonlinear_arith)
        requires
            samples_per_channel == (nanos * sample_rate) / 1_000_000_000,
            nanos * sample_rate <= u128::MAX,
            channels <= u16::MAX,
    {
        assert(samples_per_channel <= u128::MAX / 1_000_000_000);
    }
    samples_per_channel * (channels as u128)
}

/// How a sample of `total_nanos` nanoseconds is cut into `steps` chunks: the
/// length of a chunk, and where each chunk starts.
pub struct StepPlan {
    pub step_nanos: u64,
    pub offsets: Vec<u64>,
}

/// The plan has no overflow: a chunk's length, and the start of the last
/// chunk, fit in 64 bits.
pub open spec fn plan_fits(total_nanos: u128, steps: usize) -> bool {
    &&& steps > 0
    &&& (total_nanos as int) / (steps as int) <= u64::MAX
    &&& ((total_nanos as int) / (steps as int)) * (steps - 1) <= u64::MAX
}

/// Cuts a sample of `total_nanos` nanoseconds into `steps` chunks of equal
/// length (rounded down): chunk `i` starts `i` chunk lengths in.
pub fn plan_steps(total_nanos: u128, steps: usize) -> (plan: StepPlan)
    requires
        plan_fits(total_nanos, steps),
    ensures
        plan.step_nanos == (total_nanos as int) / (steps as int),
        plan.offsets@.len() == steps,
        forall|i: int| 0 <= i < steps ==> #[trigger] plan.offsets@[i] == plan.step_nanos * i,
{
    let step_nanos: u128 = total_nanos / (steps as u128);
    let step_duration: u64 = step_nanos as u64;
    let mut offsets: Vec<u64> = Vec::new();
    let mut step: usize = 0;
    while step < steps
        invariant
            plan_fits(total_nanos, steps),
            step <= steps,
            step_nanos == (total_nanos as int) / (steps as int),
            step_duration == step_nanos,
            offsets@.len() == step,
            forall|i: int| 0 <= i < step ==> #[trigger] offsets@[i] == step_nanos * i,
        decreases steps - step,
    {
        assert(step_nanos * step <= step_nanos * (steps - 1)) by (nonlinear_arith)
            requires
                step < steps,
                step_nanos >= 0,
        ;
        let chunk_nanos: u64 = (step_nanos * (step as u128)) as u64;
        offsets.push(chunk_nanos);
        step = step + 1;
    }
    StepPlan { step_nanos: step_duration, offsets }
}

/// The chunks of a plan follow one another without gap or overlap, and all
/// lie within the sample.
pub proof fn law_plan_tiles_sample(total_nanos: u128, steps: usize, plan: StepPlan, i: int)
    requires
        plan_fits(total_nanos, steps),
        plan.step_nanos == (total_nanos as int) / (steps as int),
        plan.offsets@.len() == steps,
        forall|j: int| 0 <= j < steps ==> #[trigger] plan.offsets@[j] == plan.step_nanos * j,
        0 <= i < steps,
    ensures
        i + 1 < steps ==> plan.offsets@[i] + plan.step_nanos == plan.offsets@[i + 1],
        plan.offsets@[i] + plan.step_nanos <= total_nanos,
{
    let s = plan.step_nanos as int;
    assert(s * i + s == s * (i + 1)) by (nonlinear_arith);
    assert(s * (i + 1) <= s * steps) by (nonlinear_arith)
        requires
            i + 1 <= steps,
            s >= 0,
    ;
    assert(s * steps <= total_nanos) by (nonlinear_arith)
        requires
            s == (total_nanos as int) / (steps as int),
            steps > 0,
    ;
}

/// The step after `cursor` among `steps`: the next one, or the first after
/// the last.
pub open spec fn spec_successor(cursor: nat, steps: nat) -> nat {
    if cursor + 1 < steps { cursor + 1 } else { 0 }
}

/// `cursor` moved on `k` steps.
pub open spec fn spec_advance(cursor: nat, steps: nat, k: nat) -> nat
    decreases k,
{
    if k == 0 { cursor } else { spec_successor(spec_advance(cursor, steps, (k - 1) as nat), steps) }
}

impl<C: Clone> Clone for Sequencer<C> {
    /// A copy at the same chunk, over copies of the chunks.
    fn clone(&self) -> (c: Self)
        ensures
            c.spec_steps() == self.spec_steps(),
            c.current() == self.current(),
            c.previous() == self.previous(),
            c.chunks().len() == self.chunks().len(),
            forall|i: int| 0 <= i < self.chunks().len() ==> cloned::<C>(self.chunks()[i], c.chunks()[i]),
    {
        proof { use_type_invariant(self); }
        Sequencer {
            steps: self.steps,
            queue: self.queue.clone(),
            current_cursor: self.current_cursor,
            last_cursor: self.last_cursor,
        }
    }
}

/// Moving on `k` steps from `cursor` lands `k` chunks further, counted
/// around the loop of `steps` chunks.
pub proof fn lemma_advance(cursor: nat, steps: nat, k: nat)
    requires
        cursor < steps,
    ensures
        spec_advance(cursor, steps, k) == ((cursor + k) as int) % (steps as int),
    decreases k,
{
    if k == 0 {
        assert((cursor as int) % (steps as int) == cursor) by (nonlinear_arith)
            requires
                cursor < steps,
        ;
    } else {
        lemma_advance(cursor, steps, (k - 1) as nat);
        let p = spec_advance(cursor, steps, (k - 1) as nat);
        assert(p == (cursor + k - 1) % (steps as int));
        let q = (cursor + k - 1) / (steps as int);
        assert(cursor + k - 1 == q * steps + p) by (nonlinear_arith)
            requires
                p == (cursor + k - 1) % (steps as int),
                q == (cursor + k - 1) / (steps as int),
                steps > 0,
        ;
        if p + 1 < steps {
            assert(((cursor + k) as int) % (steps as int) == p + 1) by (nonlinear_arith)
                requires
                    cursor + k == q * steps + p + 1,
                    0 <= p + 1 < steps,
            ;
        } else {
            assert(p + 1 == steps) by (nonlinear_arith)
                requires
                    p == (cursor + k - 1) % (steps as int),
                    p + 1 >= steps,
                    steps > 0,
            ;
            assert(cursor + k == (q + 1) * steps) by (nonlinear_arith)
                requires
                    cursor + k - 1 == q * steps + p,
                    p + 1 == steps,
            ;
            assert(((cursor + k) as int) % (steps as int) == 0) by (nonlinear_arith)
                requires
                    cursor + k == (q + 1) * steps,
                    steps > 0,
            ;
        }
    }
}

/// Stepping on through all `steps` chunks comes back to the chunk one
/// started from: the sequencer plays its chunks in a loop.
pub proof fn law_next_step_cycles(cursor: nat, steps: nat)
    requires
        cursor < steps,
    ensures
        spec_advance(cursor, steps, steps) == cursor,
        forall|k: nat| 0 < k < steps ==> #[trigger] spec_advance(cursor, steps, k) != cursor,
{
    lemma_advance(cursor, steps, steps);
    assert(((cursor + steps) as int) % (steps as int) == cursor) by (nonlinear_arith)
        requires
            cursor < steps,
    ;
    assert forall|k: nat| 0 < k < steps implies #[trigger] spec_advance(cursor, steps, k) != cursor by {
        lemma_advance(cursor, steps, k);
        if ((cursor + k) as int) % (steps as int) == cursor {
            assert(false) by (nonlinear_arith)
                requires
                    ((cursor + k) as int) % (steps as int) == cursor,
                    0 < k < steps,
                    cursor < steps,
            ;
        }
    }
}

/// Stepping back after stepping on returns to the chunk one started from,
/// unless stepping on wrapped around to the first chunk.
pub proof fn law_previous_undoes_next(cursor: nat, steps: nat)
    requires
        cursor + 1 < steps,
    ensures
        spec_successor(cursor, steps) > 0,
        spec_successor(cursor, steps) - 1 == cursor,
{
}

/// A sequencer over chunks of type `C`: the chunks in order, the chunk that
/// plays and the one that played before.
pub struct Sequencer<C> {
    steps: usize,
    queue: Vec<C>,
    current_cursor: usize,
    last_cursor: usize,
}

impl<C> Sequencer<C> {
    /// The number of chunks.
    pub closed spec fn spec_steps(&self) -> nat {
        self.steps as nat
    }

    /// The chunks, in order.
    pub closed spec fn chunks(&self) -> Seq<C> {
        self.queue@
    }

    /// The chunk that plays.
    pub closed spec fn current(&self) -> nat {
        self.current_cursor as nat
    }

    /// The chunk that played before the current one.
    pub closed spec fn previous(&self) -> nat {
        self.last_cursor as nat
    }

    #[verifier::type_invariant]
    closed spec fn inv(&self) -> bool {
        &&& self.steps >= 1
        &&& self.queue@.len() == self.steps
        &&& self.current_cursor < self.steps
        &&& self.last_cursor < self.steps
    }

    /// A sequencer over `queue`, at its first chunk. It needs at least one
    /// chunk.
    pub fn new(queue: Vec<C>) -> (s: Self)
        requires
            queue@.len() >= 1,
        ensures
            s.spec_steps() == queue@.len(),
            s.chunks() == queue@,
            s.current() == 0,
            s.previous() == 0,
    {
        let steps = queue.len();
        Self { steps, queue, current_cursor: 0, last_cursor: 0 }
    }

    /// The number of chunks.
    pub fn steps(&self) -> (n: usize)
        ensures
            n == self.spec_steps(),
            n >= 1,
            self.chunks().len() == n,
            self.current() < n,
            self.previous() < n,
    {
        proof { use_type_invariant(self); }
        self.steps
    }

    /// The chunk that plays.
    pub fn get_current_cursor(&self) -> (c: usize)
        ensures
            c == self.current(),
    {
        self.current_cursor
    }

    /// The chunk that played before.
    pub fn get_previous_cursor(&self) -> (c: usize)
        ensures
            c == self.previous(),
    {
        self.last_cursor
    }

    /// `step` where it names a chunk, else the first chunk.
    pub fn get_step(&self, step: usize) -> (s: usize)
        ensures
            s == (if step < self.spec_steps() { step } else { 0 }),
            s < self.spec_steps(),
    {
        proof { use_type_invariant(self); }
        if step < self.steps {
            step
        } else {
            0
        }
    }

    /// The chunk after the current one, wrapping to the first after the last.
    pub fn get_next_step(&self) -> (s: usize)
        ensures
            s == spec_successor(self.current(), self.spec_steps()),
    {
        proof { use_type_invariant(self); }
        self.get_step(self.current_cursor + 1)
    }

    /// The chunk before the current one. At the first chunk the subtraction
    /// would underflow, which `requires` leaves out.
    pub fn get_previous_step(&self) -> (s: usize)
        requires
            self.current() > 0,
        ensures
            s == self.current() - 1,
    {
        proof { use_type_invariant(self); }
        self.get_step(self.current_cursor - 1)
    }

    /// Chunk `step`.
    pub fn get_chunk(&self, step: usize) -> (c: &C)
        requires
            step < self.spec_steps(),
        ensures
            *c == self.chunks()[step as int],
    {
        proof { use_type_invariant(self); }
        &self.queue[step]
    }

    /// The chunk after the current one.
    pub fn get_next_chunk(&self) -> (c: &C)
        ensures
            *c == self.chunks()[spec_successor(self.current(), self.spec_steps()) as int],
    {
        proof { use_type_invariant(self); }
        let next = self.get_next_step();
        self.get_chunk(next)
    }

    /// Moves to chunk `step` (the first chunk where `step` names none); the
    /// chunk that played becomes the previous one. Returns the chunk that now
    /// plays.
    pub fn set_step(&mut self, step: usize) -> (c: &C)
        ensures
            final(self).spec_steps() == old(self).spec_steps(),
            final(self).chunks() == old(self).chunks(),
            final(self).previous() == old(self).current(),
            final(self).current() == (if step < old(self).spec_steps() { step as nat } else { 0 }),
            *c == final(self).chunks()[final(self).current() as int],
    {
        proof { use_type_invariant(&*self); }
        let next = self.get_step(step);
        self.last_cursor = self.current_cursor;
        self.current_cursor = next;
        &self.queue[next]
    }

    /// Moves to the chunk after the current one.
    pub fn next_step(&mut self) -> (c: &C)
        ensures
            final(self).spec_steps() == old(self).spec_steps(),
            final(self).chunks() == old(self).chunks(),
            final(self).previous() == old(self).current(),
            final(self).current() == spec_successor(old(self).current(), old(self).spec_steps()),
            *c == final(self).chunks()[final(self).current() as int],
    {
        proof { use_type_invariant(&*self); }
        let next = self.get_next_step();
        self.set_step(next)
    }

    /// Moves to the chunk before the current one; not from the first chunk.
    pub fn previous_step(&mut self) -> (c: &C)
        requires
            old(self).current() > 0,
        ensures
            final(self).spec_steps() == old(self).spec_steps(),
            final(self).chunks() == old(self).chunks(),
            final(self).previous() == old(self).current(),
            final(self).current() == old(self).current() - 1,
            *c == final(self).chunks()[final(self).current() as int],
    {
        proof { use_type_invariant(&*self); }
        let previous = self.get_previous_step();
        self.set_step(previous)
    }
}

} // verus!
