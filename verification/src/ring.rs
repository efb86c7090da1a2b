use vstd::prelude::*;
use std::collections::VecDeque;

verus! {

/// The pair substituted for a missing sample so that playback never stalls.
pub const SILENCE: (i16, i16) = (0i16, 0i16);

/// Bounded queue of interleaved stereo sample pairs between the tick loop
/// (producer) and the playback adapter (consumer). The producer drops the
/// newest pair when the queue is full; the consumer substitutes silence when
/// it is empty. Neither side ever blocks the other.
pub struct SampleRing {
    buf: VecDeque<(i16, i16)>,
    capacity: usize,
}

/// One push against a bounded queue: appended when there is room, dropped
/// (queue unchanged) when there is none.
pub open spec fn push_model(
    s: Seq<(i16, i16)>,
    capacity: nat,
    pair: (i16, i16),
) -> Seq<(i16, i16)> {
    if s.len() < capacity {
        s.push(pair)
    } else {
        s
    }
}

/// The queue contents after a whole sequence of pushes, oldest first.
pub open spec fn ring_after_pushes(
    s: Seq<(i16, i16)>,
    capacity: nat,
    pushes: Seq<(i16, i16)>,
) -> Seq<(i16, i16)>
    decreases pushes.len(),
{
    if pushes.len() == 0 {
        s
    } else {
        ring_after_pushes(push_model(s, capacity, pushes[0]), capacity, pushes.drop_first())
    }
}

impl View for SampleRing {
    type V = Seq<(i16, i16)>;

    closed spec fn view(&self) -> Seq<(i16, i16)> {
        self.buf@
    }
}

impl SampleRing {
    pub closed spec fn spec_capacity(self) -> nat {
        self.capacity as nat
    }

    pub closed spec fn wf(self) -> bool {
        &&& self.capacity >= 1
        &&& self@.len() <= self.spec_capacity()
    }

    pub fn new(capacity: usize) -> (r: Self)
        requires
            capacity >= 1,
        ensures
            r.wf(),
            r@ == Seq::<(i16, i16)>::empty(),
            r.spec_capacity() == capacity,
    {
        SampleRing { buf: VecDeque::new(), capacity }
    }

    pub fn capacity(&self) -> (r: usize)
        ensures
            r == self.spec_capacity(),
    {
        self.capacity
    }

    pub fn len(&self) -> (r: usize)
        ensures
            r == self@.len(),
    {
        self.buf.len()
    }

    /// Producer side: append a pair, or drop it when the ring is full.
    pub fn push(&mut self, pair: (i16, i16)) -> (accepted: bool)
        requires
            old(self).wf(),
        ensures
            final(self).wf(),
            final(self).spec_capacity() == old(self).spec_capacity(),
            final(self)@ == push_model(old(self)@, old(self).spec_capacity(), pair),
            accepted == (old(self)@.len() < old(self).spec_capacity()),
    {
        if self.buf.len() < self.capacity {
            self.buf.push_back(pair);
            true
        } else {
            false
        }
    }

    /// Consumer side: the oldest pair, or nothing when the ring is empty.
    pub fn pop(&mut self) -> (r: Option<(i16, i16)>)
        requires
            old(self).wf(),
        ensures
            final(self).wf(),
            final(self).spec_capacity() == old(self).spec_capacity(),
            old(self)@.len() == 0 ==> r is None && final(self)@ == old(self)@,
            old(self)@.len() > 0 ==> r == Some(old(self)@[0]) && final(self)@ == old(
                self,
            )@.drop_first(),
    {
        let r = self.buf.pop_front();
        proof {
            if old(self)@.len() > 0 {
                assert(final(self)@ =~= old(self)@.drop_first());
            }
        }
        r
    }

    /// Consumer side with the underrun policy applied: an empty ring yields
    /// the silence pair and stays empty, so the consumer never blocks.
    pub fn pop_or_silence(&mut self) -> (r: (i16, i16))
        requires
            old(self).wf(),
        ensures
            final(self).wf(),
            final(self).spec_capacity() == old(self).spec_capacity(),
            old(self)@.len() == 0 ==> r == SILENCE && final(self)@ == old(self)@,
            old(self)@.len() > 0 ==> r == old(self)@[0] && final(self)@ == old(
                self,
            )@.drop_first(),
    {
        match self.pop() {
            Some(pair) => pair,
            None => SILENCE,
        }
    }
}

/// Law: as long as the pushes fit within the capacity, every pushed pair is
/// kept, in push order, behind what was already queued.
pub proof fn lemma_ring_fifo(s: Seq<(i16, i16)>, capacity: nat, pushes: Seq<(i16, i16)>)
    requires
        s.len() + pushes.len() <= capacity,
    ensures
        ring_after_pushes(s, capacity, pushes) == s + pushes,
    decreases pushes.len(),
{
    if pushes.len() == 0 {
        assert(ring_after_pushes(s, capacity, pushes) =~= s + pushes);
    } else {
        lemma_ring_fifo(s.push(pushes[0]), capacity, pushes.drop_first());
        assert(s.push(pushes[0]) + pushes.drop_first() =~= s + pushes);
    }
}

/// Law: when the pushes overrun the capacity, the oldest pairs survive and
/// each newest pair beyond the capacity is dropped.
pub proof fn lemma_ring_overflow(s: Seq<(i16, i16)>, capacity: nat, pushes: Seq<(i16, i16)>)
    requires
        s.len() <= capacity,
    ensures
        ring_after_pushes(s, capacity, pushes) == (s + pushes).take(
            vstd::math::min(capacity as int, s.len() + pushes.len() as int),
        ),
    decreases pushes.len(),
{
    if pushes.len() == 0 {
        assert(ring_after_pushes(s, capacity, pushes) =~= (s + pushes).take(
            vstd::math::min(capacity as int, s.len() + pushes.len() as int),
        ));
    } else {
        let s1 = push_model(s, capacity, pushes[0]);
        lemma_ring_overflow(s1, capacity, pushes.drop_first());
        assert(s1 + pushes.drop_first() =~= if s.len() < capacity {
            s + pushes
        } else {
            s + pushes.drop_first()
        });
        assert(ring_after_pushes(s, capacity, pushes) =~= (s + pushes).take(
            vstd::math::min(capacity as int, s.len() + pushes.len() as int),
        ));
    }
}

} // verus!
