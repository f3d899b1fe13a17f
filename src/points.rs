//! The fixed-capacity point buffer of a calibration table, kept in a heapless vector.

use vstd::prelude::*;

verus! {

/// Most calibration points a table can hold.
pub const CAPACITY: usize = 20;

/// A calibration point: a raw sensor reading and the length it stands for, in mm.
pub type Point = (u16, u16);

/// The fixed-capacity buffer that stores calibration points as `(reading, length in mm)`.
pub type PointBuffer = heapless::Vec<(u16, u16), 20>;

/// heapless's fixed-capacity vector, opaque to proofs: what it holds is
/// `buffer_points`.
#[verifier::external_type_specification]
#[verifier::external_body]
#[verifier::reject_recursive_types(T)]
pub struct ExHeaplessVec<T, const N: usize>(heapless::Vec<T, N>);

/// The points that a buffer holds, in order.
pub uninterp spec fn buffer_points(v: heapless::Vec<(u16, u16), 20>) -> Seq<(u16, u16)>;

/// Relies on heapless::Vec::new: a new vector is empty.
#[verifier::external_body]
pub(crate) fn buffer_new() -> (r: PointBuffer)
    ensures
        buffer_points(r) == Seq::<(u16, u16)>::empty(),
{
    heapless::Vec::new()
}

/// Relies on heapless::Vec::as_slice: the slice holds the vector's elements in order.
#[verifier::external_body]
pub(crate) fn buffer_slice(v: &PointBuffer) -> (r: &[(u16, u16)])
    ensures
        r@ == buffer_points(*v),
        r@.len() <= CAPACITY,
{
    v.as_slice()
}

/// Relies on heapless::Vec::insert: it shifts the tail right and puts the element at
/// `index`, or hands the element back, unchanged vector, when the vector is full.
#[verifier::external_body]
pub(crate) fn buffer_insert(v: &mut PointBuffer, index: usize, p: (u16, u16)) -> (r: Result<(), Point>)
    requires
        index <= buffer_points(*old(v)).len(),
        buffer_points(*old(v)).len() <= CAPACITY,
    ensures
        r is Ok <==> buffer_points(*old(v)).len() < CAPACITY,
        r is Ok ==> buffer_points(*final(v)) == buffer_points(*old(v)).insert(index as int, p),
        r is Err ==> r->Err_0 == p && buffer_points(*final(v)) == buffer_points(*old(v)),
{
    v.insert(index, p)
}

/// Relies on heapless::Vec::remove: the element at `index` leaves and the tail
/// shifts left.
#[verifier::external_body]
pub(crate) fn buffer_remove(v: &mut PointBuffer, index: usize) -> (r: (u16, u16))
    requires
        index < buffer_points(*old(v)).len(),
    ensures
        r == buffer_points(*old(v))[index as int],
        buffer_points(*final(v)) == buffer_points(*old(v)).remove(index as int),
{
    v.remove(index)
}

/// Relies on heapless::Vec::clear: nothing is left.
#[verifier::external_body]
pub(crate) fn buffer_clear(v: &mut PointBuffer)
    ensures
        buffer_points(*final(v)) == Seq::<(u16, u16)>::empty(),
{
    v.clear()
}

/// Relies on indexing a heapless::Vec through its slice: the element at `index`
/// is replaced, the others stay.
#[verifier::external_body]
pub(crate) fn buffer_set(v: &mut PointBuffer, index: usize, p: (u16, u16))
    requires
        index < buffer_points(*old(v)).len(),
    ensures
        buffer_points(*final(v)) == buffer_points(*old(v)).update(index as int, p),
{
    v[index] = p;
}

/// Relies on heapless::Vec's Clone: the copy holds the same elements.
#[verifier::external_body]
pub(crate) fn buffer_clone(v: &PointBuffer) -> (r: PointBuffer)
    ensures
        buffer_points(r) == buffer_points(*v),
{
    v.clone()
}

} // verus!
