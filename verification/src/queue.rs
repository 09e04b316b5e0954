//! The edit queue: an ordered buffer of encoded mutation batches.
//!
//! The rendering worker is the sole appender and the foreground dispatcher
//! the sole drainer. The queue is strictly first-in first-out: a drain
//! returns every queued batch in the exact order it was appended, so that
//! mutations are applied to a surface in production order.

use vstd::prelude::*;
use std::collections::VecDeque;

verus! {

/// An ordered buffer of encoded mutation batches, drained in append order.
pub struct EditQueue {
    edits: VecDeque<String>,
}

impl View for EditQueue {
    type V = Seq<String>;

    closed spec fn view(&self) -> Seq<String> {
        self.edits@
    }
}

impl EditQueue {
    /// An empty queue.
    pub fn new() -> (q: EditQueue)
        ensures
            q@ == Seq::<String>::empty(),
    {
        EditQueue { edits: VecDeque::new() }
    }

    /// The number of batches currently queued.
    pub fn len(&self) -> (n: usize)
        ensures
            n == self@.len(),
    {
        self.edits.len()
    }

    /// Whether no batch is queued.
    pub fn is_empty(&self) -> (r: bool)
        ensures
            r == (self@.len() == 0),
    {
        self.edits.len() == 0
    }

    /// Append one batch at the queue's "new" end.
    pub fn append(&mut self, batch: String)
        ensures
            final(self)@ == old(self)@.push(batch),
    {
        self.edits.push_back(batch);
    }

    /// Remove and return every queued batch, oldest first: the result holds
    /// exactly the batches that were queued, in append order, and the queue
    /// is left empty.
    pub fn drain_all(&mut self) -> (drained: Vec<String>)
        ensures
            drained@ == old(self)@,
            final(self)@.len() == 0,
    {
        let mut drained: Vec<String> = Vec::new();
        loop
            invariant
                drained@ + self.edits@ == old(self)@,
            decreases self.edits@.len(),
        {
            match self.edits.pop_front() {
                Some(batch) => {
                    drained.push(batch);
                    proof {
                        assert(drained@ + self.edits@ =~= old(self)@);
                    }
                }
                None => {
                    proof {
                        assert(drained@ =~= drained@ + self.edits@);
                    }
                    return drained;
                }
            }
        }
    }

    /// Put batches that were drained but could not be applied back at the
    /// queue's "old" end, in their original order, so that the next drain
    /// attempts them again before anything newer.
    pub fn restore_front(&mut self, unapplied: Vec<String>)
        ensures
            final(self)@ == unapplied@ + old(self)@,
    {
        let mut rest = unapplied;
        loop
            invariant
                rest@ + self.edits@ == unapplied@ + old(self)@,
            decreases rest@.len(),
        {
            match rest.pop() {
                Some(batch) => {
                    self.edits.push_front(batch);
                    proof {
                        assert(rest@ + self.edits@ =~= unapplied@ + old(self)@);
                    }
                }
                None => {
                    proof {
                        assert(self.edits@ =~= rest@ + self.edits@);
                    }
                    return;
                }
            }
        }
    }
}

/// The contents of a queue after the batches of `batches` have been
/// appended to it one by one, first element first.
pub open spec fn appended_in_order(q: Seq<String>, batches: Seq<String>) -> Seq<String>
    decreases batches.len(),
{
    if batches.len() == 0 {
        q
    } else {
        appended_in_order(q.push(batches[0]), batches.skip(1))
    }
}

/// FIFO law: appending batches b1..bN in order to a queue holding `q` leaves
/// the queue holding `q + [b1..bN]`; a drain performed afterwards therefore
/// yields any earlier backlog followed by exactly b1..bN in that order, with
/// no interleaving, whenever the drain happens.
pub proof fn lemma_fifo_order(q: Seq<String>, batches: Seq<String>)
    ensures
        appended_in_order(q, batches) == q + batches,
    decreases batches.len(),
{
    if batches.len() == 0 {
        assert(q + batches =~= q);
    } else {
        lemma_fifo_order(q.push(batches[0]), batches.skip(1));
        assert(q.push(batches[0]) + batches.skip(1) =~= q + batches);
    }
}

/// One step of the queue's life: the worker appends one batch, or the
/// dispatcher drains everything currently queued.
pub enum QueueOp {
    Append(String),
    Drain,
}

/// The batches a run of steps appends, in order.
pub open spec fn appends_of(ops: Seq<QueueOp>) -> Seq<String>
    decreases ops.len(),
{
    if ops.len() == 0 {
        Seq::empty()
    } else {
        match ops[0] {
            QueueOp::Append(b) => seq![b] + appends_of(ops.skip(1)),
            QueueOp::Drain => appends_of(ops.skip(1)),
        }
    }
}

/// What the queue holds after a run of steps over a starting backlog.
pub open spec fn queue_after(q: Seq<String>, ops: Seq<QueueOp>) -> Seq<String>
    decreases ops.len(),
{
    if ops.len() == 0 {
        q
    } else {
        match ops[0] {
            QueueOp::Append(b) => queue_after(q.push(b), ops.skip(1)),
            QueueOp::Drain => queue_after(Seq::empty(), ops.skip(1)),
        }
    }
}

/// Everything the drains of a run of steps yield, concatenated in the order
/// the drains happen.
pub open spec fn drained_during(q: Seq<String>, ops: Seq<QueueOp>) -> Seq<String>
    decreases ops.len(),
{
    if ops.len() == 0 {
        Seq::empty()
    } else {
        match ops[0] {
            QueueOp::Append(b) => drained_during(q.push(b), ops.skip(1)),
            QueueOp::Drain => q + drained_during(Seq::empty(), ops.skip(1)),
        }
    }
}

/// FIFO law over arbitrary drain timing: however appends and drains
/// interleave, the concatenation of everything the drains yielded, followed
/// by what is still queued, is exactly the starting backlog followed by the
/// appended batches, in append order — the batches come out with no
/// interleaving, duplication or loss, regardless of when and how often the
/// queue is drained.
pub proof fn lemma_fifo_any_drain_timing(q: Seq<String>, ops: Seq<QueueOp>)
    ensures
        drained_during(q, ops) + queue_after(q, ops) == q + appends_of(ops),
    decreases ops.len(),
{
    if ops.len() == 0 {
        assert(drained_during(q, ops) + queue_after(q, ops) =~= q + appends_of(ops));
    } else {
        let rest = ops.skip(1);
        match ops[0] {
            QueueOp::Append(b) => {
                lemma_fifo_any_drain_timing(q.push(b), rest);
                assert(q.push(b) + appends_of(rest) =~= q + (seq![b] + appends_of(rest)));
            },
            QueueOp::Drain => {
                lemma_fifo_any_drain_timing(Seq::empty(), rest);
                let d = drained_during(Seq::<String>::empty(), rest);
                let r = queue_after(Seq::<String>::empty(), rest);
                assert(Seq::<String>::empty() + appends_of(rest) =~= appends_of(rest));
                assert(d + r == appends_of(rest));
                assert((q + d) + r =~= q + (d + r));
            },
        }
    }
}

/// Corollary: at every moment of a run, what the drains have yielded so far
/// is a prefix of the starting backlog followed by the full append order.
pub proof fn lemma_drained_is_prefix(q: Seq<String>, ops: Seq<QueueOp>)
    ensures
        drained_during(q, ops).is_prefix_of(q + appends_of(ops)),
{
    lemma_fifo_any_drain_timing(q, ops);
    let d = drained_during(q, ops);
    let r = queue_after(q, ops);
    assert((d + r).subrange(0, d.len() as int) =~= d);
}

} // verus!
