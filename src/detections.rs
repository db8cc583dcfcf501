//! The detections of one camera in one tick, in a vector that holds two of
//! them without allocating.

use smallvec::SmallVec;
use vstd::prelude::*;

use crate::message::MLTargetData;

verus! {

/// A list of detections, kept in a `SmallVec` with room for two inline.
#[verifier::external_body]
pub struct Detections {
    inner: SmallVec<[MLTargetData; 2]>,
}

/// The detections that a list holds, in order.
pub uninterp spec fn detections_of(d: Detections) -> Seq<MLTargetData>;

/// Relies on `SmallVec::new`: a new vector holds nothing.
#[verifier::external_body]
fn smallvec_new() -> (r: Detections)
    ensures
        detections_of(r) == Seq::<MLTargetData>::empty(),
{
    Detections { inner: SmallVec::new() }
}

/// Relies on `SmallVec::push`: the item goes at the end, the others stay.
/// It panics when the grown capacity, `len + 1` rounded up to a power of two,
/// overflows, or when that many items take more than `isize::MAX` bytes.
#[verifier::external_body]
fn smallvec_push(d: &mut Detections, t: MLTargetData)
    requires
        detections_of(*old(d)).len() < isize::MAX / 64,
    ensures
        detections_of(*final(d)) == detections_of(*old(d)).push(t),
{
    d.inner.push(t)
}

/// Relies on `SmallVec::len`: the number of items held.
#[verifier::external_body]
fn smallvec_len(d: &Detections) -> (r: usize)
    ensures
        r == detections_of(*d).len(),
{
    d.inner.len()
}

/// Relies on indexing a `SmallVec` (through its slice): the item at `i`.
#[verifier::external_body]
fn smallvec_get(d: &Detections, i: usize) -> (r: MLTargetData)
    requires
        i < detections_of(*d).len(),
    ensures
        r == detections_of(*d)[i as int],
{
    d.inner[i]
}

impl View for Detections {
    type V = Seq<MLTargetData>;

    open spec fn view(&self) -> Seq<MLTargetData> {
        detections_of(*self)
    }
}

impl Detections {
    pub fn new() -> (r: Detections)
        ensures
            r@ == Seq::<MLTargetData>::empty(),
    {
        smallvec_new()
    }

    pub fn push(&mut self, t: MLTargetData)
        requires
            old(self)@.len() < isize::MAX / 64,
        ensures
            final(self)@ == old(self)@.push(t),
    {
        smallvec_push(self, t)
    }

    pub fn len(&self) -> (r: usize)
        ensures
            r == self@.len(),
    {
        smallvec_len(self)
    }

    pub fn get(&self, i: usize) -> (r: MLTargetData)
        requires
            i < self@.len(),
        ensures
            r == self@[i as int],
    {
        smallvec_get(self, i)
    }
}

} // verus!
