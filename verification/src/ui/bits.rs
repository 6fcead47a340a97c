//! The bit vectors of the `bitvec` crate that hold which buttons are pressed,
//! and the calls into that crate.
use bitvec::order::Lsb0;
use bitvec::vec::BitVec;
use vstd::prelude::*;

verus! {

/// A `bitvec` bit vector (`usize` storage, least significant bit first). Its
/// contents are named by `bits_of` and changed only through the calls below.
#[verifier::external_body]
pub struct Bits(pub BitVec<usize, Lsb0>);

/// The bits that a bit vector holds, first bit first.
pub uninterp spec fn bits_of(v: Bits) -> Seq<bool>;

/// The indices of the set bits of `bits`, in increasing order.
pub open spec fn spec_ones(bits: Seq<bool>) -> Seq<usize>
    decreases bits.len(),
{
    if bits.len() == 0 {
        Seq::empty()
    } else if bits.last() {
        spec_ones(bits.drop_last()).push((bits.len() - 1) as usize)
    } else {
        spec_ones(bits.drop_last())
    }
}

/// An index is listed by `spec_ones` exactly where its bit is set; the list
/// is strictly increasing.
pub proof fn lemma_ones(bits: Seq<bool>)
    requires
        bits.len() <= usize::MAX,
    ensures
        forall|x: usize| #[trigger] spec_ones(bits).contains(x) <==> (x < bits.len() && bits[x as int]),
        forall|i: int, j: int|
            0 <= i < j < spec_ones(bits).len() ==> spec_ones(bits)[i] < spec_ones(bits)[j],
        forall|i: int| 0 <= i < spec_ones(bits).len() ==> spec_ones(bits)[i] < bits.len(),
    decreases bits.len(),
{
    if bits.len() > 0 {
        let rest = bits.drop_last();
        lemma_ones(rest);
        let top = (bits.len() - 1) as usize;
        assert forall|x: usize| #[trigger] spec_ones(bits).contains(x) <==> (x < bits.len() && bits[x as int]) by {
            if x < rest.len() {
                assert(rest[x as int] == bits[x as int]);
            }
            if bits.last() {
                let o = spec_ones(rest).push(top);
                assert(spec_ones(bits) == o);
                if o.contains(x) {
                    let k = choose|k: int| 0 <= k < o.len() && o[k] == x;
                    if k < spec_ones(rest).len() {
                        assert(spec_ones(rest)[k] == x);
                        assert(spec_ones(rest).contains(x));
                    }
                }
                if x < bits.len() && bits[x as int] {
                    if x < rest.len() {
                        assert(spec_ones(rest).contains(x));
                        let k = choose|k: int| 0 <= k < spec_ones(rest).len() && spec_ones(rest)[k] == x;
                        assert(o[k] == x);
                    } else {
                        assert(o[o.len() - 1] == x);
                    }
                }
            }
        }
    }
}

/// No bit is listed when none is set.
pub proof fn lemma_ones_none(bits: Seq<bool>)
    requires
        forall|i: int| 0 <= i < bits.len() ==> !bits[i],
    ensures
        spec_ones(bits) == Seq::<usize>::empty(),
    decreases bits.len(),
{
    if bits.len() > 0 {
        lemma_ones_none(bits.drop_last());
    }
}

/// `BitVec::repeat`: `len` copies of `bit`.
#[verifier::external_body]
pub(crate) fn bits_repeat(bit: bool, len: usize) -> (v: Bits)
    ensures
        bits_of(v) == Seq::new(len as nat, |i: int| bit),
{
    Bits(BitVec::<usize, Lsb0>::repeat(bit, len))
}

/// `BitVec::clone`: a copy with the same bits.
#[verifier::external_body]
pub(crate) fn bits_clone(v: &Bits) -> (c: Bits)
    ensures
        bits_of(c) == bits_of(*v),
{
    Bits(v.0.clone())
}

/// `!` on a `BitVec`: every bit flipped, the length kept.
#[verifier::external_body]
pub(crate) fn bits_not(v: Bits) -> (n: Bits)
    ensures
        bits_of(n) == Seq::new(bits_of(v).len(), |i: int| !bits_of(v)[i]),
{
    Bits(!v.0)
}

/// `&=` of a `BitVec` with another: bit `i` becomes `a[i] & b[i]` where `b`
/// has a bit `i`, and is cleared past the end of `b`.
#[verifier::external_body]
pub(crate) fn bits_and_assign(a: &mut Bits, b: Bits)
    ensures
        bits_of(*final(a)) == Seq::new(
            bits_of(*old(a)).len(),
            |i: int| i < bits_of(b).len() && bits_of(*old(a))[i] && bits_of(b)[i],
        ),
{
    a.0 &= b.0;
}

/// `iter_ones` collected: the indices of the set bits, in increasing order.
#[verifier::external_body]
pub(crate) fn bits_ones(v: &Bits) -> (ones: Vec<usize>)
    ensures
        ones@ == spec_ones(bits_of(*v)),
{
    v.0.iter_ones().collect::<Vec<usize>>()
}

/// `set`: bit `index` becomes `value`, the others stay. It panics past the
/// end, which `requires` leaves out.
#[verifier::external_body]
pub(crate) fn bits_set(v: &mut Bits, index: usize, value: bool)
    requires
        index < bits_of(*old(v)).len(),
    ensures
        bits_of(*final(v)) == bits_of(*old(v)).update(index as int, value),
{
    v.0.set(index, value);
}

/// `BitVec::len`: the number of bits.
#[verifier::external_body]
pub(crate) fn bits_len(v: &Bits) -> (n: usize)
    ensures
        n == bits_of(*v).len(),
{
    v.0.len()
}

/// `fill`: every bit becomes `value`, the length kept.
#[verifier::external_body]
pub(crate) fn bits_fill(v: &mut Bits, value: bool)
    ensures
        bits_of(*final(v)) == Seq::new(bits_of(*old(v)).len(), |i: int| value),
{
    v.0.fill(value);
}

} // verus!
