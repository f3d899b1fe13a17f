//! A bounded history of recent samples, newest first.

use vstd::prelude::*;

verus! {

/// Most samples a history keeps.
pub const HISTORY_CAPACITY: usize = 16;

/// The ring buffer that holds a history, newest sample at the front.
pub type SampleRing = heapless::Deque<u16, 16>;

/// heapless's fixed-capacity deque, opaque to proofs: what it holds is
/// `ring_values`.
#[verifier::external_type_specification]
#[verifier::external_body]
#[verifier::reject_recursive_types(T)]
pub struct ExHeaplessDeque<T, const N: usize>(heapless::Deque<T, N>);

/// The samples a ring holds, front to back.
pub uninterp spec fn ring_values(d: heapless::Deque<u16, 16>) -> Seq<u16>;

/// Relies on heapless::Deque::new: a new deque is empty.
#[verifier::external_body]
fn ring_new() -> (r: SampleRing)
    ensures
        ring_values(r) == Seq::<u16>::empty(),
{
    heapless::Deque::new()
}

/// Relies on heapless::Deque::len: the number of elements, never above the capacity.
#[verifier::external_body]
fn ring_len(d: &SampleRing) -> (r: usize)
    ensures
        r == ring_values(*d).len(),
        r <= HISTORY_CAPACITY,
{
    d.len()
}

/// Relies on heapless::Deque::push_front: the element goes in front, unless the
/// deque is full, which hands it back.
#[verifier::external_body]
fn ring_push_front(d: &mut SampleRing, value: u16) -> (r: Result<(), u16>)
    requires
        ring_values(*old(d)).len() <= HISTORY_CAPACITY,
    ensures
        r is Ok <==> ring_values(*old(d)).len() < HISTORY_CAPACITY,
        r is Ok ==> ring_values(*final(d)) == seq![value] + ring_values(*old(d)),
        r is Err ==> ring_values(*final(d)) == ring_values(*old(d)),
{
    d.push_front(value)
}

/// Relies on heapless::Deque::pop_back: the last element leaves, none when empty.
#[verifier::external_body]
fn ring_pop_back(d: &mut SampleRing) -> (r: Option<u16>)
    ensures
        ring_values(*old(d)).len() == 0 ==> r is None && ring_values(*final(d)) == ring_values(*old(d)),
        ring_values(*old(d)).len() > 0 ==> r == Some(ring_values(*old(d)).last()) && ring_values(*final(d)) == ring_values(*old(d)).drop_last(),
{
    d.pop_back()
}

/// Relies on heapless::Deque::iter: it walks the elements front to back.
#[verifier::external_body]
fn ring_to_vec(d: &SampleRing) -> (r: Vec<u16>)
    ensures
        r@ == ring_values(*d),
{
    d.iter().copied().collect()
}

/// The most recent samples, newest first, at most `HISTORY_CAPACITY` of them.
pub struct History {
    ring: SampleRing,
}

impl View for History {
    type V = Seq<u16>;

    closed spec fn view(&self) -> Seq<u16> {
        ring_values(self.ring)
    }
}

/// The history after adding `value`: it goes in front, and the oldest sample
/// leaves when the history is full.
pub open spec fn added_spec(s: Seq<u16>, value: u16) -> Seq<u16> {
    if s.len() >= HISTORY_CAPACITY {
        seq![value] + s.subrange(0, HISTORY_CAPACITY - 1)
    } else {
        seq![value] + s
    }
}

impl History {
    pub open spec fn wf(&self) -> bool {
        self@.len() <= HISTORY_CAPACITY
    }

    pub fn new() -> (r: Self)
        ensures
            r@ == Seq::<u16>::empty(),
            r.wf(),
    {
        History { ring: ring_new() }
    }

    /// Records a sample, dropping the oldest when full.
    pub fn add(&mut self, value: u16)
        requires
            old(self).wf(),
        ensures
            final(self).wf(),
            final(self)@ == added_spec(old(self)@, value),
    {
        if ring_len(&self.ring) >= HISTORY_CAPACITY {
            ring_pop_back(&mut self.ring);
            assert(self@ =~= old(self)@.subrange(0, HISTORY_CAPACITY - 1));
        }
        let _ = ring_push_front(&mut self.ring, value);
    }

    /// The samples, newest first.
    pub fn iter(&self) -> (r: Vec<u16>)
        ensures
            r@ == self@,
    {
        ring_to_vec(&self.ring)
    }

    pub fn len(&self) -> (r: usize)
        ensures
            r == self@.len(),
    {
        ring_len(&self.ring)
    }
}

} // verus!
