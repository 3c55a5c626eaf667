//! The bounded sample queue between the bridge and the audio sink, kept in a
//! `ringbuf::HeapRb` and described by what it holds and how much it can hold.

use ringbuf::traits::{Consumer, Observer, Producer};
use ringbuf::HeapRb;
use vstd::prelude::*;

verus! {

/// The sample that stands for silence: the bit pattern of `0.0`.
pub const SILENCE: u32 = 0;

/// A `ringbuf::HeapRb` of samples, held whole so that every call on it has
/// the ring buffer to itself. Nothing inside it is visible to the verifier:
/// the two functions below name what it holds and what it can hold.
#[verifier::external_body]
pub struct RingStore {
    ring: HeapRb<u32>,
}

/// The samples that a ring buffer holds, oldest first.
pub uninterp spec fn ring_contents(ring: RingStore) -> Seq<u32>;

/// The number of samples that a ring buffer was made to hold.
pub uninterp spec fn ring_capacity(ring: RingStore) -> nat;

/// `HeapRb::new`: an empty ring buffer of exactly the capacity asked for.
/// The call panics on a capacity of zero and on one whose storage would
/// exceed `isize::MAX` bytes, so both are left out.
#[verifier::external_body]
fn ring_new(capacity: usize) -> (ring: RingStore)
    requires
        0 < capacity,
        capacity * 4 <= isize::MAX,
    ensures
        ring_contents(ring) == Seq::<u32>::empty(),
        ring_capacity(ring) == capacity,
{
    RingStore { ring: HeapRb::<u32>::new(capacity) }
}

/// `Observer::capacity`: the capacity that the ring buffer was made with.
#[verifier::external_body]
fn ring_capacity_of(ring: &RingStore) -> (capacity: usize)
    ensures
        capacity == ring_capacity(*ring),
{
    ring.ring.capacity().get()
}

/// `Observer::occupied_len`: the number of samples held.
#[verifier::external_body]
fn ring_occupied_len(ring: &RingStore) -> (len: usize)
    ensures
        len == ring_contents(*ring).len(),
{
    ring.ring.occupied_len()
}

/// `Observer::is_full`: whether as many samples are held as the capacity
/// allows.
#[verifier::external_body]
fn ring_is_full(ring: &RingStore) -> (full: bool)
    ensures
        full == (ring_contents(*ring).len() == ring_capacity(*ring)),
{
    ring.ring.is_full()
}

/// `Producer::try_push`: appends the sample behind the newest one where
/// fewer samples are held than the capacity allows; otherwise the ring
/// buffer stays as it was and the sample comes back in the error. The call
/// does not panic.
#[verifier::external_body]
fn ring_try_push(ring: &mut RingStore, sample: u32) -> (pushed: Result<(), u32>)
    ensures
        pushed.is_ok() == (ring_contents(*old(ring)).len() < ring_capacity(*old(ring))),
        pushed.is_ok() ==> ring_contents(*final(ring)) == ring_contents(*old(ring)).push(sample),
        pushed.is_err() ==> ring_contents(*final(ring)) == ring_contents(*old(ring)),
        pushed matches Err(back) ==> back == sample,
        ring_capacity(*final(ring)) == ring_capacity(*old(ring)),
    no_unwind
{
    ring.ring.try_push(sample)
}

/// `Consumer::try_pop`: removes the oldest sample and returns it; an empty
/// ring buffer gives `None` and stays empty. The call does not panic.
#[verifier::external_body]
fn ring_try_pop(ring: &mut RingStore) -> (popped: Option<u32>)
    ensures
        ring_contents(*old(ring)).len() > 0 ==> popped == Some(ring_contents(*old(ring)).first())
            && ring_contents(*final(ring)) == ring_contents(*old(ring)).drop_first(),
        ring_contents(*old(ring)).len() == 0 ==> popped.is_none() && ring_contents(*final(ring))
            == ring_contents(*old(ring)),
        ring_capacity(*final(ring)) == ring_capacity(*old(ring)),
    no_unwind
{
    ring.ring.try_pop()
}

/// The largest capacity that a ring of samples can be given: its storage
/// may not exceed `isize::MAX` bytes, at four bytes a sample.
pub open spec fn max_ring_capacity() -> nat {
    (isize::MAX / 4) as nat
}

/// What a sink reads for `slots` output slots from a ring that holds
/// `queued`: the queued samples in their order, as far as they reach, and
/// silence in every slot after them.
pub open spec fn rendered(queued: Seq<u32>, slots: nat) -> Seq<u32> {
    Seq::new(
        slots,
        |i: int|
            if i < queued.len() {
                queued[i]
            } else {
                SILENCE
            },
    )
}

/// The position in a block of `block_len` samples up to which a bridge gets
/// when it starts at `start` and finds room for `vacant` samples.
pub open spec fn bridged_to(block_len: nat, start: nat, vacant: nat) -> nat {
    if start >= block_len {
        start
    } else if block_len - start <= vacant {
        block_len
    } else {
        start + vacant
    }
}

/// A ring buffer of samples with a fixed capacity, first in, first out.
/// Its view is the sequence of samples held, oldest first.
pub struct SampleRing {
    ring: RingStore,
}

impl View for SampleRing {
    type V = Seq<u32>;

    closed spec fn view(&self) -> Seq<u32> {
        ring_contents(self.ring)
    }
}

impl SampleRing {
    /// The number of samples that the ring can hold.
    pub closed spec fn spec_capacity(&self) -> nat {
        ring_capacity(self.ring)
    }

    /// The ring never holds more samples than its capacity, which is not
    /// zero.
    #[verifier::type_invariant]
    spec fn bounded(self) -> bool {
        0 < ring_capacity(self.ring) && ring_contents(self.ring).len() <= ring_capacity(
            self.ring,
        )
    }

    /// The largest capacity that a ring can be given.
    pub fn max_capacity() -> (capacity: usize)
        ensures
            capacity == max_ring_capacity(),
    {
        (isize::MAX as usize) / 4
    }

    /// An empty ring of the given capacity, or `None` where the capacity is
    /// zero or more than a ring can be given.
    pub fn new(capacity: usize) -> (made: Option<SampleRing>)
        ensures
            made.is_some() == (0 < capacity <= max_ring_capacity()),
            made matches Some(ring) ==> ring@ == Seq::<u32>::empty() && ring.spec_capacity()
                == capacity,
    {
        if capacity == 0 || capacity > SampleRing::max_capacity() {
            None
        } else {
            Some(SampleRing { ring: ring_new(capacity) })
        }
    }

    /// The number of samples that the ring can hold.
    pub fn capacity(&self) -> (capacity: usize)
        ensures
            capacity == self.spec_capacity(),
            capacity > 0,
    {
        proof {
            use_type_invariant(self);
        }
        ring_capacity_of(&self.ring)
    }

    /// The number of samples held, which never exceeds the capacity.
    pub fn occupied_len(&self) -> (len: usize)
        ensures
            len == self@.len(),
            len <= self.spec_capacity(),
    {
        proof {
            use_type_invariant(self);
        }
        ring_occupied_len(&self.ring)
    }

    /// Whether the ring holds as many samples as it can.
    pub fn is_full(&self) -> (full: bool)
        ensures
            full == (self@.len() == self.spec_capacity()),
    {
        ring_is_full(&self.ring)
    }

    /// Appends one sample where there is room for it; a full ring stays as
    /// it was and hands the sample back.
    pub fn try_push(&mut self, sample: u32) -> (pushed: Result<(), u32>)
        ensures
            pushed.is_ok() == (old(self)@.len() < old(self).spec_capacity()),
            pushed.is_ok() ==> final(self)@ == old(self)@.push(sample),
            pushed.is_err() ==> final(self)@ == old(self)@,
            pushed matches Err(back) ==> back == sample,
            final(self).spec_capacity() == old(self).spec_capacity(),
            final(self)@.len() <= final(self).spec_capacity(),
    {
        proof {
            use_type_invariant(&*self);
        }
        ring_try_push(&mut self.ring, sample)
    }

    /// Removes the oldest sample and returns it, or `None` from an empty
    /// ring.
    pub fn try_pop(&mut self) -> (popped: Option<u32>)
        ensures
            old(self)@.len() > 0 ==> popped == Some(old(self)@.first()) && final(self)@ == old(
                self,
            )@.drop_first(),
            old(self)@.len() == 0 ==> popped.is_none() && final(self)@ == old(self)@,
            final(self).spec_capacity() == old(self).spec_capacity(),
            final(self)@.len() <= final(self).spec_capacity(),
    {
        proof {
            use_type_invariant(&*self);
        }
        ring_try_pop(&mut self.ring)
    }

    /// One step of the bridge: pushes the samples of `block` from position
    /// `start` on, in their order, until the block ends or the ring is full,
    /// and returns the position of the first sample that is still to go.
    /// Nothing is pushed out of order and nothing is dropped; a caller that
    /// gets back less than the block's length waits and calls again from
    /// there.
    pub fn push_from(&mut self, block: &Vec<u32>, start: usize) -> (next: usize)
        ensures
            next == bridged_to(
                block@.len(),
                start as nat,
                (old(self).spec_capacity() - old(self)@.len()) as nat,
            ),
            start <= block@.len() ==> final(self)@ == old(self)@ + block@.subrange(
                start as int,
                next as int,
            ),
            start > block@.len() ==> final(self)@ == old(self)@,
            final(self).spec_capacity() == old(self).spec_capacity(),
            final(self)@.len() <= final(self).spec_capacity(),
    {
        proof {
            use_type_invariant(&*self);
        }
        let mut pos: usize = start;
        if start > block.len() {
            return pos;
        }
        assert(block@.subrange(start as int, start as int) =~= Seq::<u32>::empty());
        assert(old(self)@ + Seq::<u32>::empty() =~= old(self)@);
        while pos < block.len() && !ring_is_full(&self.ring)
            invariant
                start <= pos <= block@.len(),
                self@ == old(self)@ + block@.subrange(start as int, pos as int),
                self.spec_capacity() == old(self).spec_capacity(),
                self@.len() <= self.spec_capacity(),
                0 < self.spec_capacity(),
            decreases block@.len() - pos,
        {
            let ghost before = self@;
            let pushed = ring_try_push(&mut self.ring, block[pos]);
            assert(pushed.is_ok());
            assert(before.push(block@[pos as int]) =~= old(self)@ + block@.subrange(
                start as int,
                pos + 1,
            ));
            pos = pos + 1;
        }
        pos
    }

    /// What the sink puts into one output slot: the oldest sample, which
    /// leaves the ring, or silence where the ring is empty.
    pub fn pop_or_silence(&mut self) -> (sample: u32)
        ensures
            old(self)@.len() > 0 ==> sample == old(self)@.first() && final(self)@ == old(
                self,
            )@.drop_first(),
            old(self)@.len() == 0 ==> sample == SILENCE && final(self)@ == old(self)@,
            final(self).spec_capacity() == old(self).spec_capacity(),
            final(self)@.len() <= final(self).spec_capacity(),
    {
        proof {
            use_type_invariant(&*self);
        }
        match ring_try_pop(&mut self.ring) {
            Some(sample) => sample,
            None => SILENCE,
        }
    }

    /// The sink's callback: fills every slot of `out` with the next sample
    /// of the ring, and with silence once the ring has run empty. Exactly
    /// the samples that were put into slots leave the ring.
    pub fn fill(&mut self, out: &mut Vec<u32>)
        ensures
            final(out)@ == rendered(old(self)@, old(out)@.len()),
            final(self)@ == old(self)@.skip(
                if old(self)@.len() <= old(out)@.len() {
                    old(self)@.len() as int
                } else {
                    old(out)@.len() as int
                },
            ),
            final(self).spec_capacity() == old(self).spec_capacity(),
            final(self)@.len() <= final(self).spec_capacity(),
    {
        proof {
            use_type_invariant(&*self);
        }
        let slots: usize = out.len();
        let mut i: usize = 0;
        assert(old(self)@.skip(0) =~= old(self)@);
        while i < slots
            invariant
                i <= slots,
                out@.len() == slots,
                slots == old(out)@.len(),
                forall|j: int| 0 <= j < i ==> out@[j] == rendered(old(self)@, slots as nat)[j],
                self@ == old(self)@.skip(
                    if old(self)@.len() <= i {
                        old(self)@.len() as int
                    } else {
                        i as int
                    },
                ),
                self.spec_capacity() == old(self).spec_capacity(),
                self@.len() <= self.spec_capacity(),
                0 < self.spec_capacity(),
            decreases slots - i,
        {
            let ghost before = self@;
            let sample: u32 = self.pop_or_silence();
            proof {
                if old(self)@.len() > i {
                    assert(before.first() == old(self)@[i as int]);
                    assert(before.drop_first() =~= old(self)@.skip(i + 1));
                }
            }
            out.set(i, sample);
            i = i + 1;
        }
        assert(out@ =~= rendered(old(self)@, slots as nat));
    }
}

/// A sink that finds the ring empty reads silence in every slot.
pub proof fn lemma_underrun_is_silence(slots: nat)
    ensures
        rendered(Seq::<u32>::empty(), slots).len() == slots,
        forall|i: int| 0 <= i < slots ==> rendered(Seq::<u32>::empty(), slots)[i] == SILENCE,
{
}

/// A sink reads the queued samples in the order in which they were queued,
/// none left out and none twice, and silence only after the last of them.
pub proof fn lemma_rendered_in_order(queued: Seq<u32>, slots: nat)
    ensures
        slots <= queued.len() ==> rendered(queued, slots) == queued.take(slots as int),
        slots >= queued.len() ==> rendered(queued, slots) == queued + Seq::new(
            (slots - queued.len()) as nat,
            |i: int| SILENCE,
        ),
{
    if slots <= queued.len() {
        assert(rendered(queued, slots) =~= queued.take(slots as int));
    }
    if slots >= queued.len() {
        assert(rendered(queued, slots) =~= queued + Seq::new(
            (slots - queued.len()) as nat,
            |i: int| SILENCE,
        ));
    }
}

/// A bridge that is called again from where it got to, as long as the ring
/// has room, ends at the end of the block: with room for the rest of the
/// block it gets there in one step, and it never goes past the end or back.
pub proof fn lemma_bridge_advances(block_len: nat, start: nat, vacant: nat)
    requires
        start <= block_len,
    ensures
        start <= bridged_to(block_len, start, vacant) <= block_len,
        bridged_to(block_len, start, vacant) - start <= vacant,
        vacant > 0 && start < block_len ==> bridged_to(block_len, start, vacant) > start,
        vacant >= block_len - start ==> bridged_to(block_len, start, vacant) == block_len,
{
}

} // verus!
