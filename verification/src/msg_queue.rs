//! Ordered message queue.
//!
//! N producers each own a slot, handed out in registration order.  The
//! slot that is `current` writes straight to the sink; later slots
//! buffer.  When the current slot finishes, the queue advances past
//! every contiguously finished slot, flushing buffers in slot order.
//! The sink therefore shows each slot's bytes contiguously and in slot
//! order, however the pushes were interleaved in time.

use vstd::prelude::*;
use crate::bytes::push_all;

verus! {

/// The queue: per-slot buffers in front of one output sink.
pub struct MsgQueue {
    output: Vec<u8>,
    cached: Vec<Vec<u8>>,
    done: Vec<bool>,
    current: usize,
    count: usize,
    capacity: usize,
    /// Everything ever pushed to each slot, in push order.
    logs: Ghost<Seq<Seq<u8>>>,
}

/// Concatenation of the first `k` slot logs.
pub open spec fn spec_concat_logs(logs: Seq<Seq<u8>>, k: int) -> Seq<u8>
    decreases k,
{
    if k <= 0 {
        Seq::<u8>::empty()
    } else {
        spec_concat_logs(logs, k - 1) + logs[k - 1]
    }
}

impl MsgQueue {
    /// Everything ever pushed to slot `i`; entry `i` of `spec_logs`.
    pub open spec fn spec_log(&self, i: int) -> Seq<u8> {
        self.spec_logs()[i]
    }

    /// All slot logs.
    pub closed spec fn spec_logs(&self) -> Seq<Seq<u8>> {
        self.logs@
    }

    /// Number of writers registered so far.
    pub closed spec fn spec_count(&self) -> nat {
        self.count as nat
    }

    /// Capacity the queue was created with.
    pub closed spec fn spec_capacity(&self) -> nat {
        self.capacity as nat
    }

    /// Index of the slot whose output currently streams through.
    pub closed spec fn spec_current(&self) -> nat {
        self.current as nat
    }

    /// Slot `i` was marked finished.
    pub closed spec fn spec_done(&self, i: int) -> bool {
        self.done@[i]
    }

    /// What reached the sink so far.
    pub closed spec fn spec_output(&self) -> Seq<u8> {
        self.output@
    }

    /// The queue invariant: slots before `current` are finished and
    /// fully flushed, the current slot's bytes stream directly, and
    /// slots after `current` keep their bytes buffered.
    pub closed spec fn wf(&self) -> bool {
        &&& self.count <= self.capacity
        &&& self.current <= self.count
        &&& self.cached@.len() == self.capacity
        &&& self.done@.len() == self.capacity
        &&& self.logs@.len() == self.capacity
        &&& forall|i: int| 0 <= i < self.current ==> #[trigger] self.done@[i]
        &&& (self.current < self.count ==> !self.done@[self.current as int])
        &&& forall|i: int| self.count <= i < self.capacity ==> !(#[trigger] self.done@[i])
        &&& forall|i: int| self.count <= i < self.capacity
            ==> #[trigger] self.logs@[i] == Seq::<u8>::empty()
        &&& forall|i: int| self.current < i < self.capacity
            ==> #[trigger] self.cached@[i]@ == self.logs@[i]
        &&& (self.current < self.capacity
            ==> self.cached@[self.current as int]@ == Seq::<u8>::empty())
        &&& self.output@ == spec_concat_logs(self.logs@, self.current as int)
            + (if self.current < self.capacity {
                self.logs@[self.current as int]
            } else {
                Seq::<u8>::empty()
            })
    }

    /// A queue with room for `capacity` writers.
    pub fn new(capacity: usize) -> (r: Self)
        ensures
            r.wf(),
            r.spec_capacity() == capacity,
            r.spec_count() == 0,
            r.spec_current() == 0,
            r.spec_output() == Seq::<u8>::empty(),
            forall|i: int| 0 <= i < capacity ==> #[trigger] r.spec_log(i) == Seq::<u8>::empty(),
            forall|i: int| 0 <= i < capacity ==> !(#[trigger] r.spec_done(i)),
    {
        let mut cached: Vec<Vec<u8>> = Vec::new();
        let mut done: Vec<bool> = Vec::new();
        let mut i: usize = 0;
        while i < capacity
            invariant
                cached@.len() == i <= capacity,
                done@.len() == i,
                forall|j: int| 0 <= j < i ==> #[trigger] cached@[j]@ == Seq::<u8>::empty(),
                forall|j: int| 0 <= j < i ==> !(#[trigger] done@[j]),
            decreases capacity - i,
        {
            cached.push(Vec::new());
            done.push(false);
            i = i + 1;
        }
        let r = MsgQueue {
            output: Vec::new(),
            cached,
            done,
            current: 0,
            count: 0,
            capacity,
            logs: Ghost(Seq::new(capacity as nat, |j: int| Seq::<u8>::empty())),
        };
        proof {
            assert(r.output@ =~= spec_concat_logs(r.logs@, 0)
                + (if r.current < r.capacity {
                    r.logs@[r.current as int]
                } else {
                    Seq::<u8>::empty()
                }));
        }
        r
    }

    /// Register a writer; returns its slot index.
    pub fn writer(&mut self) -> (r: usize)
        requires
            old(self).wf(),
            old(self).spec_count() < old(self).spec_capacity(),
        ensures
            final(self).wf(),
            r == old(self).spec_count(),
            final(self).spec_count() == old(self).spec_count() + 1,
            final(self).spec_capacity() == old(self).spec_capacity(),
            final(self).spec_current() == old(self).spec_current(),
            final(self).spec_output() == old(self).spec_output(),
            final(self).spec_logs() == old(self).spec_logs(),
            forall|i: int| 0 <= i < old(self).spec_capacity()
                ==> #[trigger] final(self).spec_done(i) == old(self).spec_done(i),
    {
        let r = self.count;
        self.count = self.count + 1;
        r
    }

    /// Push bytes to slot `index`: straight to the sink when the slot
    /// is current, into its buffer otherwise.
    pub fn push(&mut self, index: usize, buf: &[u8])
        requires
            old(self).wf(),
            index < old(self).spec_count(),
            !old(self).spec_done(index as int),
        ensures
            final(self).wf(),
            final(self).spec_count() == old(self).spec_count(),
            final(self).spec_capacity() == old(self).spec_capacity(),
            final(self).spec_current() == old(self).spec_current(),
            final(self).spec_log(index as int) == old(self).spec_log(index as int) + buf@,
            forall|i: int| 0 <= i < old(self).spec_capacity() && i != index
                ==> #[trigger] final(self).spec_log(i) == old(self).spec_log(i),
            forall|i: int| 0 <= i < old(self).spec_capacity()
                ==> #[trigger] final(self).spec_done(i) == old(self).spec_done(i),
    {
        proof {
            self.logs@ = self.logs@.update(index as int, self.logs@[index as int] + buf@);
        }
        if index == self.current {
            push_all(&mut self.output, buf);
            proof {
                let c = self.current as int;
                assert(spec_concat_logs(self.logs@, c) =~= spec_concat_logs(old(self).logs@, c))
                    by {
                    lemma_concat_logs_frame(old(self).logs@, self.logs@, c);
                }
                assert(self.output@ =~= spec_concat_logs(self.logs@, c) + self.logs@[c]);
            }
        } else {
            let mut row = self.cached[index].clone();
            assert(row@ == old(self).cached@[index as int]@) by {
                assert(forall|q: int| 0 <= q < row@.len()
                    ==> row@[q] == old(self).cached@[index as int]@[q]);
                assert(row@ =~= old(self).cached@[index as int]@);
            }
            push_all(&mut row, buf);
            self.cached.set(index, row);
            proof {
                let c = self.current as int;
                assert(spec_concat_logs(self.logs@, c) =~= spec_concat_logs(old(self).logs@, c))
                    by {
                    lemma_concat_logs_frame(old(self).logs@, self.logs@, c);
                }
                assert(self.output@ =~= spec_concat_logs(self.logs@, c)
                    + (if self.current < self.capacity {
                        self.logs@[c]
                    } else {
                        Seq::<u8>::empty()
                    }));
            }
        }
    }

    /// Mark slot `index` finished.  When the current slot finishes, the
    /// queue advances past every contiguously finished slot, flushing
    /// their buffers in order; once every registered slot is finished,
    /// the sink holds slot 0's bytes, then slot 1's, and so on.
    pub fn finish(&mut self, index: usize)
        requires
            old(self).wf(),
            index < old(self).spec_count(),
            !old(self).spec_done(index as int),
        ensures
            final(self).wf(),
            final(self).spec_count() == old(self).spec_count(),
            final(self).spec_capacity() == old(self).spec_capacity(),
            final(self).spec_logs() == old(self).spec_logs(),
            final(self).spec_done(index as int),
            forall|i: int| 0 <= i < old(self).spec_capacity() && i != index
                ==> #[trigger] final(self).spec_done(i) == old(self).spec_done(i),
            (forall|i: int| 0 <= i < final(self).spec_count()
                ==> #[trigger] final(self).spec_done(i))
                ==> final(self).spec_current() == final(self).spec_count()
                    && final(self).spec_output()
                        == spec_concat_logs(final(self).spec_logs(),
                            final(self).spec_count() as int),
    {
        let was_current = index == self.current;
        self.done.set(index, true);
        if was_current {
            // scan past the contiguously finished slots
            let end = self.count;
            let mut cur = self.current + 1;
            while cur < end && self.done[cur]
                invariant
                    self.done@.len() == self.capacity,
                    self.count <= self.capacity,
                    end == self.count,
                    old(self).current < cur <= end,
                    forall|i: int| old(self).current < i < cur ==> #[trigger] self.done@[i],
                    self.output@ == old(self).output@,
                    self.cached@ == old(self).cached@,
                    self.logs@ == old(self).logs@,
                    self.current == old(self).current,
                    self.count == old(self).count,
                    self.capacity == old(self).capacity,
                    self.done@ == old(self).done@.update(index as int, true),
                decreases end - cur,
            {
                cur = cur + 1;
            }
            // flush the buffers of the slots being released
            let ghost logs = self.logs@;
            let mut k = self.current + 1;
            proof {
                assert(old(self).current < old(self).capacity);
                assert(self.output@ =~= spec_concat_logs(logs, k as int));
            }
            while k < cur
                invariant
                    old(self).wf(),
                    index == old(self).current,
                    index < old(self).count,
                    logs == old(self).logs@,
                    self.count == old(self).count,
                    self.capacity == old(self).capacity,
                    self.logs@ == logs,
                    self.done@ == old(self).done@.update(index as int, true),
                    self.current == old(self).current,
                    self.cached@.len() == self.capacity,
                    self.done@.len() == self.capacity,
                    self.output@ == spec_concat_logs(logs, k as int),
                    old(self).current < k <= cur <= self.count,
                    forall|i: int| old(self).current < i < cur ==> #[trigger] self.done@[i],
                    forall|i: int| k <= i < self.capacity
                        ==> #[trigger] self.cached@[i]@ == logs[i],
                decreases cur - k,
            {
                let buffered = self.cached[k].clone();
                assert(buffered@ == self.cached@[k as int]@) by {
                    assert(forall|q: int| 0 <= q < buffered@.len()
                        ==> buffered@[q] == self.cached@[k as int]@[q]);
                    assert(buffered@ =~= self.cached@[k as int]@);
                }
                self.cached.set(k, Vec::new());
                push_all(&mut self.output, buffered.as_slice());
                proof {
                    assert(self.output@ =~= spec_concat_logs(logs, k + 1));
                }
                k = k + 1;
            }
            // the new current slot streams from here on; flush what it
            // buffered so far
            if cur < self.capacity {
                let buffered = self.cached[cur].clone();
                assert(buffered@ == self.cached@[cur as int]@) by {
                    assert(forall|q: int| 0 <= q < buffered@.len()
                        ==> buffered@[q] == self.cached@[cur as int]@[q]);
                    assert(buffered@ =~= self.cached@[cur as int]@);
                }
                self.cached.set(cur, Vec::new());
                push_all(&mut self.output, buffered.as_slice());
            }
            self.current = cur;
            proof {
                assert forall|i: int| 0 <= i < self.current implies #[trigger] self.done@[i] by {
                    if i < old(self).current {
                        assert(old(self).done@[i]);
                    }
                }
                assert(self.wf());
                if forall|i: int| 0 <= i < self.count ==> #[trigger] self.spec_done(i) {
                    assert forall|i: int| 0 <= i < self.count
                        implies #[trigger] self.done@[i] by {
                        assert(self.spec_done(i));
                    }
                    assert(self.current == self.count) by {
                        if self.current < self.count {
                            assert(self.done@[self.current as int]);
                        }
                    }
                    lemma_queue_ordered(*self);
                }
            }
        } else {
            proof {
                assert(self.wf());
                if forall|i: int| 0 <= i < self.count ==> #[trigger] self.spec_done(i) {
                    assert forall|i: int| 0 <= i < self.count
                        implies #[trigger] self.done@[i] by {
                        assert(self.spec_done(i));
                    }
                    if self.current < self.count {
                        assert(self.done@[self.current as int]);
                        assert(!old(self).done@[old(self).current as int]);
                        assert(false);
                    }
                    lemma_queue_ordered(*self);
                }
            }
        }
    }

    /// The sink's contents, consuming the queue.
    pub fn output(self) -> (r: Vec<u8>)
        ensures
            r@ == self.spec_output(),
    {
        self.output
    }
}

/// Logs that agree on the first `k` slots concatenate the same.
proof fn lemma_concat_logs_frame(a: Seq<Seq<u8>>, b: Seq<Seq<u8>>, k: int)
    requires
        forall|i: int| 0 <= i < k ==> a[i] == b[i],
    ensures
        spec_concat_logs(a, k) == spec_concat_logs(b, k),
    decreases k,
{
    if k > 0 {
        lemma_concat_logs_frame(a, b, k - 1);
    }
}

/// Once every registered writer has finished, the sink equals the
/// concatenation of the writers' bytes in registration order.
pub proof fn lemma_queue_ordered(q: MsgQueue)
    requires
        q.wf(),
        q.spec_current() == q.spec_count(),
    ensures
        q.spec_output() == spec_concat_logs(q.spec_logs(), q.spec_count() as int),
{
    if q.spec_count() < q.spec_capacity() {
        assert(q.spec_log(q.spec_count() as int) == Seq::<u8>::empty());
        assert(q.spec_output() =~= spec_concat_logs(q.spec_logs(), q.spec_count() as int));
    } else {
        assert(q.spec_output() =~= spec_concat_logs(q.spec_logs(), q.spec_count() as int));
    }
}

} // verus!
