//! GPU fences as a sequence of signal values.
//!
//! A `Fence` hands out increasing values; each call of `advance_async` records
//! a pending sync point that the GPU signals later. Polling the GPU for the
//! signaled state is done by the caller, which reports each signaled sync
//! point with `signal_oldest`.

use vstd::prelude::*;
use std::collections::VecDeque;

verus! {

/// A point on the GPU timeline. Fence values are ordered by their number.
#[derive(Clone, Copy, Debug, PartialEq, Eq, Structural)]
pub struct FenceValue(pub i64);

/// The state of a fence: the values still waited for, the last value known to
/// be reached, and the value the next sync point will signal.
pub struct Fence {
    pending: VecDeque<FenceValue>,
    current_value: FenceValue,
    next_value: FenceValue,
}

impl Fence {
    /// Values still waited for, oldest first.
    pub closed spec fn pending_values(&self) -> Seq<i64> {
        self.pending@.map_values(|v: FenceValue| v.0)
    }

    pub closed spec fn spec_current(&self) -> i64 {
        self.current_value.0
    }

    pub closed spec fn spec_next(&self) -> i64 {
        self.next_value.0
    }

    /// The pending values are strictly increasing, lie strictly between the
    /// current value and the next value.
    pub closed spec fn wf(&self) -> bool {
        &&& self.spec_current() < self.spec_next()
        &&& forall|i: int|
            0 <= i < self.pending@.len() ==> self.spec_current() < #[trigger] self.pending@[i].0
                < self.spec_next()
        &&& forall|i: int, j: int|
            0 <= i < j < self.pending@.len() ==> self.pending@[i].0 < self.pending@[j].0
    }

    /// In every state of a fence, the current value is below the next value,
    /// and the pending values lie between them in increasing order: so the
    /// current value, which only moves to the oldest pending value, never
    /// decreases and never reaches the next value.
    pub proof fn lemma_values_ordered(&self)
        requires
            self.wf(),
        ensures
            self.spec_current() < self.spec_next(),
            forall|i: int|
                0 <= i < self.pending_values().len() ==> self.spec_current()
                    < #[trigger] self.pending_values()[i] < self.spec_next(),
            forall|i: int, j: int|
                0 <= i < j < self.pending_values().len() ==> #[trigger] self.pending_values()[i]
                    < #[trigger] self.pending_values()[j],
    {
        assert forall|i: int| 0 <= i < self.pending_values().len() implies self.spec_current()
            < #[trigger] self.pending_values()[i] < self.spec_next() by {
            assert(self.pending_values()[i] == self.pending@[i].0);
        }
        assert forall|i: int, j: int| 0 <= i < j < self.pending_values().len() implies #[trigger] self.pending_values()[i]
            < #[trigger] self.pending_values()[j] by {
            assert(self.pending_values()[i] == self.pending@[i].0);
            assert(self.pending_values()[j] == self.pending@[j].0);
        }
    }

    /// A fence whose current value is `init_value`; the next sync point will
    /// signal `init_value + 1`.
    pub fn new(init_value: FenceValue) -> (r: Fence)
        requires
            init_value.0 < i64::MAX,
        ensures
            r.wf(),
            r.spec_current() == init_value.0,
            r.spec_next() == init_value.0 + 1,
            r.pending_values() == Seq::<i64>::empty(),
    {
        let r = Fence {
            pending: VecDeque::new(),
            current_value: init_value,
            next_value: FenceValue(init_value.0 + 1),
        };
        proof {
            assert(r.pending_values() =~= Seq::<i64>::empty());
        }
        r
    }

    /// Records a sync point that signals the current next value, then bumps the
    /// next value by one and returns the bumped value.
    pub fn advance_async(&mut self) -> (r: FenceValue)
        requires
            old(self).wf(),
            old(self).spec_next() < i64::MAX,
        ensures
            final(self).wf(),
            final(self).spec_current() == old(self).spec_current(),
            final(self).pending_values() == old(self).pending_values().push(old(self).spec_next()),
            final(self).spec_next() == old(self).spec_next() + 1,
            r.0 == final(self).spec_next(),
    {
        let v = self.next_value;
        self.pending.push_back(v);
        self.next_value = FenceValue(v.0 + 1);
        proof {
            assert(self.pending_values() =~= old(self).pending_values().push(old(self).spec_next()));
        }
        self.next_value
    }

    /// The value the next sync point will signal.
    pub fn next_value(&self) -> (r: FenceValue)
        ensures
            r.0 == self.spec_next(),
    {
        self.next_value
    }

    /// The last value known to be reached by the GPU.
    pub fn current_value(&self) -> (r: FenceValue)
        ensures
            r.0 == self.spec_current(),
    {
        self.current_value
    }

    /// The value of the oldest sync point still waited for, if any.
    pub fn oldest_pending(&self) -> (r: Option<FenceValue>)
        ensures
            self.pending_values().len() == 0 ==> r is None,
            self.pending_values().len() > 0 ==> r == Some(FenceValue(self.pending_values()[0])),
    {
        if self.pending.len() == 0 {
            None
        } else {
            Some(self.pending[0])
        }
    }

    /// Reports that the oldest pending sync point was signaled: the current
    /// value becomes its value and it is no longer pending. Returns false (and
    /// changes nothing) when nothing is pending.
    pub fn signal_oldest(&mut self) -> (r: bool)
        requires
            old(self).wf(),
        ensures
            final(self).wf(),
            r == (old(self).pending_values().len() > 0),
            r ==> final(self).spec_current() == old(self).pending_values()[0],
            r ==> final(self).pending_values() == old(self).pending_values().drop_first(),
            !r ==> final(self).spec_current() == old(self).spec_current(),
            !r ==> final(self).pending_values() == old(self).pending_values(),
            final(self).spec_next() == old(self).spec_next(),
            old(self).spec_current() <= final(self).spec_current(),
    {
        match self.pending.pop_front() {
            Some(v) => {
                self.current_value = v;
                proof {
                    assert(self.pending_values() =~= old(self).pending_values().drop_first());
                    assert(old(self).pending@[0].0 == v.0);
                    assert forall|i: int| 0 <= i < self.pending@.len() implies v.0
                        < #[trigger] self.pending@[i].0 by {
                        assert(self.pending@[i] == old(self).pending@[i + 1]);
                    }
                }
                true
            },
            None => false,
        }
    }
}

} // verus!
