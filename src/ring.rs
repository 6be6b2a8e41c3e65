//! The fixed-capacity sample ring that backs each speaker's buffer. It is a
//! `ringbuf::HeapRb`, held privately and described by what it holds.
use vstd::prelude::*;

verus! {

/// A heap-allocated ring of 16-bit samples.
#[verifier::external_body]
pub struct SampleRing {
    rb: ringbuf::HeapRb<i16>,
}

/// The samples held by a ring, oldest first.
pub uninterp spec fn ring_contents(r: SampleRing) -> Seq<i16>;

/// The number of samples a ring can hold.
pub uninterp spec fn ring_capacity(r: SampleRing) -> nat;

/// Relies on `ringbuf::HeapRb::new`: an empty ring with room for exactly
/// `capacity` samples. It panics on a zero capacity, and where the
/// allocation size overflows.
#[verifier::external_body]
pub(crate) fn ring_new(capacity: usize) -> (r: SampleRing)
    requires
        0 < capacity <= isize::MAX as usize / 2,
    ensures
        ring_contents(r) == Seq::<i16>::empty(),
        ring_capacity(r) == capacity,
{
    SampleRing { rb: ringbuf::HeapRb::<i16>::new(capacity) }
}

/// Relies on `ringbuf::Rb::len`: the number of samples held.
#[verifier::external_body]
pub(crate) fn ring_len(r: &SampleRing) -> (n: usize)
    ensures
        n == ring_contents(*r).len(),
{
    ringbuf::Rb::len(&r.rb)
}

/// Relies on `ringbuf::Rb::free_len`: the room left, capacity minus length.
#[verifier::external_body]
pub(crate) fn ring_free_len(r: &SampleRing) -> (n: usize)
    ensures
        n == ring_capacity(*r) - ring_contents(*r).len(),
{
    ringbuf::Rb::free_len(&r.rb)
}

/// Relies on `ringbuf::Rb::push_iter`: appends samples from the front of
/// `samples` until the ring is full or the samples run out.
#[verifier::external_body]
pub(crate) fn ring_push(r: &mut SampleRing, samples: &[i16])
    ensures
        ring_contents(*final(r)) == ring_contents(*old(r)) + samples@.take(
            vstd::math::min(
                samples@.len() as int,
                ring_capacity(*old(r)) - ring_contents(*old(r)).len(),
            ),
        ),
        ring_capacity(*final(r)) == ring_capacity(*old(r)),
{
    ringbuf::Rb::push_iter(&mut r.rb, &mut samples.iter().copied())
}

/// Relies on `ringbuf::Rb::pop_iter`: takes every sample out, oldest first,
/// and leaves the ring empty.
#[verifier::external_body]
pub(crate) fn ring_drain(r: &mut SampleRing) -> (samples: Vec<i16>)
    ensures
        samples@ == ring_contents(*old(r)),
        ring_contents(*final(r)) == Seq::<i16>::empty(),
        ring_capacity(*final(r)) == ring_capacity(*old(r)),
{
    ringbuf::Rb::pop_iter(&mut r.rb).collect::<Vec<i16>>()
}

} // verus!
