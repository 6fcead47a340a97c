//! The state of a row of buttons (or lights): which are on at the latest
//! reading, and which were at the reading before.
use crate::ui::bits::{
    bits_and_assign, bits_clone, bits_fill, bits_len, bits_not, bits_of, bits_ones, bits_repeat,
    bits_set, lemma_ones, lemma_ones_none, spec_ones, Bits,
};
use vstd::prelude::*;

verus! {

/// The bits of `a` that are set while the same bit of `b` is clear.
pub open spec fn spec_and_not(a: Seq<bool>, b: Seq<bool>) -> Seq<bool> {
    Seq::new(a.len(), |i: int| a[i] && !b[i])
}

pub struct ButtonState {
    current: Bits,
    last: Bits,
}

impl ButtonState {
    /// The latest reading, one bit per button.
    pub closed spec fn current_bits(&self) -> Seq<bool> {
        bits_of(self.current)
    }

    /// The reading before the latest one.
    pub closed spec fn last_bits(&self) -> Seq<bool> {
        bits_of(self.last)
    }

    /// Both readings cover the same buttons, and a `usize` can index each.
    pub open spec fn well_formed(&self) -> bool {
        &&& self.current_bits().len() == self.last_bits().len()
        &&& self.current_bits().len() <= usize::MAX
    }

    #[verifier::type_invariant]
    closed spec fn wf(&self) -> bool {
        self.well_formed()
    }

    /// The number of buttons.
    pub open spec fn capacity(&self) -> nat {
        self.current_bits().len()
    }

    /// `capacity` buttons, none of them pressed, now or before.
    pub fn new(capacity: usize) -> (s: Self)
        ensures
            s.well_formed(),
            s.current_bits() == Seq::new(capacity as nat, |i: int| false),
            s.last_bits() == Seq::new(capacity as nat, |i: int| false),
    {
        let current = bits_repeat(false, capacity);
        let last = bits_repeat(false, capacity);
        Self { current, last }
    }

    /// The latest reading.
    pub fn get_current(&self) -> (c: &Bits)
        ensures
            bits_of(*c) == self.current_bits(),
            self.well_formed(),
    {
        proof { use_type_invariant(self); }
        &self.current
    }

    /// The buttons that are on now and were off at the reading before, in
    /// increasing order.
    pub fn newly_pressed(&self) -> (p: Vec<usize>)
        ensures
            p@ == spec_ones(spec_and_not(self.current_bits(), self.last_bits())),
            forall|b: usize| #[trigger] p@.contains(b) <==> (b < self.capacity()
                && self.current_bits()[b as int] && !self.last_bits()[b as int]),
            forall|i: int, j: int| 0 <= i < j < p@.len() ==> p@[i] < p@[j],
    {
        proof {
            use_type_invariant(self);
            lemma_ones(spec_and_not(self.current_bits(), self.last_bits()));
        }
        let mut current = bits_clone(&self.current);
        bits_and_assign(&mut current, bits_not(bits_clone(&self.last)));
        assert(bits_of(current) =~= spec_and_not(self.current_bits(), self.last_bits()));
        bits_ones(&current)
    }

    /// The buttons that were on at the reading before and are off now, in
    /// increasing order.
    pub fn newly_released(&self) -> (r: Vec<usize>)
        ensures
            r@ == spec_ones(spec_and_not(self.last_bits(), self.current_bits())),
            forall|b: usize| #[trigger] r@.contains(b) <==> (b < self.capacity()
                && self.last_bits()[b as int] && !self.current_bits()[b as int]),
            forall|i: int, j: int| 0 <= i < j < r@.len() ==> r@[i] < r@[j],
    {
        proof {
            use_type_invariant(self);
            lemma_ones(spec_and_not(self.last_bits(), self.current_bits()));
        }
        let mut last = bits_clone(&self.last);
        bits_and_assign(&mut last, bits_not(bits_clone(&self.current)));
        assert(bits_of(last) =~= spec_and_not(self.last_bits(), self.current_bits()));
        bits_ones(&last)
    }

    /// The buttons that are on now, in increasing order.
    pub fn pressed(&self) -> (p: Vec<usize>)
        ensures
            p@ == spec_ones(self.current_bits()),
            forall|b: usize| #[trigger] p@.contains(b) <==> (b < self.capacity() && self.current_bits()[b as int]),
            forall|i: int, j: int| 0 <= i < j < p@.len() ==> p@[i] < p@[j],
    {
        proof {
            use_type_invariant(self);
            lemma_ones(self.current_bits());
        }
        bits_ones(&self.current)
    }

    /// Takes a new reading: the latest becomes the one before, `state` the
    /// latest. The reading must cover the same buttons.
    pub fn save(&mut self, state: Bits)
        requires
            bits_of(state).len() == old(self).capacity(),
        ensures
            final(self).last_bits() == old(self).current_bits(),
            final(self).current_bits() == bits_of(state),
    {
        proof { use_type_invariant(&*self); }
        self.last = bits_clone(&self.current);
        self.current = state;
    }

    /// Whether `state` covers the same buttons, so that it can be saved.
    pub fn fits(&self, state: &Bits) -> (b: bool)
        ensures
            b == (bits_of(*state).len() == self.capacity()),
    {
        bits_len(state) == bits_len(&self.current)
    }

    /// Takes as the new reading the latest one with button `pin` switched
    /// on (`value`) or off; the latest becomes the one before.
    pub fn switch(&mut self, pin: usize, value: bool)
        requires
            pin < old(self).capacity(),
        ensures
            final(self).last_bits() == old(self).current_bits(),
            final(self).current_bits() == old(self).current_bits().update(pin as int, value),
    {
        let mut next = bits_clone(&self.current);
        bits_set(&mut next, pin, value);
        self.save(next);
    }

    /// Takes as the new reading the latest one with every button off; the
    /// latest becomes the one before.
    pub fn clear(&mut self)
        ensures
            final(self).last_bits() == old(self).current_bits(),
            final(self).current_bits() == Seq::new(old(self).capacity(), |i: int| false),
    {
        let mut next = bits_clone(&self.current);
        bits_fill(&mut next, false);
        self.save(next);
    }
}

/// A button is newly pressed only while it is pressed.
pub proof fn law_newly_pressed_are_pressed(s: ButtonState, b: usize)
    requires
        s.well_formed(),
    ensures
        spec_ones(spec_and_not(s.current_bits(), s.last_bits())).contains(b) ==> spec_ones(
            s.current_bits(),
        ).contains(b),
{
    lemma_ones(spec_and_not(s.current_bits(), s.last_bits()));
    lemma_ones(s.current_bits());
}

/// No button is at once newly pressed and newly released.
pub proof fn law_pressed_and_released_disjoint(s: ButtonState, b: usize)
    requires
        s.well_formed(),
    ensures
        !(spec_ones(spec_and_not(s.current_bits(), s.last_bits())).contains(b) && spec_ones(
            spec_and_not(s.last_bits(), s.current_bits()),
        ).contains(b)),
{
    lemma_ones(spec_and_not(s.current_bits(), s.last_bits()));
    lemma_ones(spec_and_not(s.last_bits(), s.current_bits()));
}

/// When the latest reading equals the one before, no button is newly pressed
/// or newly released: holding a button reports it once.
pub proof fn law_unchanged_reading_is_quiet(s: ButtonState)
    requires
        s.current_bits() == s.last_bits(),
    ensures
        spec_ones(spec_and_not(s.current_bits(), s.last_bits())) == Seq::<usize>::empty(),
        spec_ones(spec_and_not(s.last_bits(), s.current_bits())) == Seq::<usize>::empty(),
{
    lemma_ones_none(spec_and_not(s.current_bits(), s.last_bits()));
    lemma_ones_none(spec_and_not(s.last_bits(), s.current_bits()));
}

/// A button is newly pressed exactly when it is on at the latest reading and
/// was off at the reading before.
pub proof fn law_newly_pressed_exact(s: ButtonState, b: usize)
    requires
        s.well_formed(),
    ensures
        spec_ones(spec_and_not(s.current_bits(), s.last_bits())).contains(b) <==> (b
            < s.capacity() && s.current_bits()[b as int] && !s.last_bits()[b as int]),
{
    lemma_ones(spec_and_not(s.current_bits(), s.last_bits()));
}

} // verus!
