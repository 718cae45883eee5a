use vstd::prelude::*;

verus! {

/// The queue after `batches` are pushed, one by one and in order, onto
/// `pending`.
pub open spec fn pushed_in_order(pending: Seq<String>, batches: Seq<String>) -> Seq<String>
    decreases batches.len(),
{
    if batches.len() == 0 {
        pending
    } else {
        pushed_in_order(pending, batches.drop_last()).push(batches.last())
    }
}

/// What a drain hands out: everything waiting when the flag is up, nothing
/// otherwise.
pub open spec fn drained(pending: Seq<String>, ready: bool) -> Seq<String> {
    if ready {
        pending
    } else {
        Seq::empty()
    }
}

/// What a drain leaves in the queue.
pub open spec fn left_after_drain(pending: Seq<String>, ready: bool) -> Seq<String> {
    if ready {
        Seq::empty()
    } else {
        pending
    }
}

/// Pushing batches one by one appends them, in order, after those already
/// waiting.
pub proof fn lemma_pushed_in_order_appends(pending: Seq<String>, batches: Seq<String>)
    ensures
        pushed_in_order(pending, batches) == pending + batches,
    decreases batches.len(),
{
    if batches.len() > 0 {
        lemma_pushed_in_order_appends(pending, batches.drop_last());
        assert(pending + batches == (pending + batches.drop_last()).push(batches.last()));
    }
}

/// Batches pushed in order onto an empty queue come out of a drain with the
/// flag up exactly as pushed: same order, none repeated, none lost, and the
/// queue is left empty.
pub proof fn lemma_drain_is_fifo(batches: Seq<String>)
    ensures
        drained(pushed_in_order(Seq::empty(), batches), true) == batches,
        left_after_drain(pushed_in_order(Seq::empty(), batches), true) == Seq::<String>::empty(),
{
    lemma_pushed_in_order_appends(Seq::empty(), batches);
    assert(Seq::<String>::empty() + batches == batches);
}

/// While the flag is down a drain hands out nothing and every pushed batch
/// stays queued; once the flag is up the next drain hands all of them out in
/// the order they were pushed.
pub proof fn lemma_drain_waits_for_ready(batches: Seq<String>)
    ensures
        drained(pushed_in_order(Seq::empty(), batches), false) == Seq::<String>::empty(),
        left_after_drain(pushed_in_order(Seq::empty(), batches), false) == batches,
        drained(left_after_drain(pushed_in_order(Seq::empty(), batches), false), true) == batches,
{
    lemma_drain_is_fifo(batches);
}

/// Draining an empty queue hands out nothing and leaves it empty, whatever
/// the flag.
pub proof fn lemma_drain_empty_is_noop(ready: bool)
    ensures
        drained(Seq::empty(), ready) == Seq::<String>::empty(),
        left_after_drain(Seq::empty(), ready) == Seq::<String>::empty(),
{
}

/// One operation on the queue, as the two threads perform them.
pub enum QueueOp {
    /// The engine side pushes a batch.
    Push(String),
    /// The window side raises the readiness flag.
    SetReady,
    /// The window side drains.
    Drain,
}

/// The waiting batches, the flag and what was handed out after one
/// operation, as `push`, `set_ready` and `drain_if_ready` perform it.
pub open spec fn queue_step(pending: Seq<String>, ready: bool, op: QueueOp) -> (
    Seq<String>,
    bool,
    Seq<String>,
) {
    match op {
        QueueOp::Push(b) => (pending.push(b), ready, Seq::empty()),
        QueueOp::SetReady => (pending, true, Seq::empty()),
        QueueOp::Drain => (left_after_drain(pending, ready), ready, drained(pending, ready)),
    }
}

/// The waiting batches, the flag, and everything handed out by all the
/// drains, in order, after a run of operations.
pub open spec fn queue_run(pending: Seq<String>, ready: bool, ops: Seq<QueueOp>) -> (
    Seq<String>,
    bool,
    Seq<String>,
)
    decreases ops.len(),
{
    if ops.len() == 0 {
        (pending, ready, Seq::empty())
    } else {
        let before = queue_run(pending, ready, ops.drop_last());
        let after = queue_step(before.0, before.1, ops.last());
        (after.0, after.1, before.2 + after.2)
    }
}

/// The batches a run of operations pushes, in order.
pub open spec fn pushed_batches(ops: Seq<QueueOp>) -> Seq<String>
    decreases ops.len(),
{
    if ops.len() == 0 {
        Seq::empty()
    } else {
        match ops.last() {
            QueueOp::Push(b) => pushed_batches(ops.drop_last()).push(b),
            _ => pushed_batches(ops.drop_last()),
        }
    }
}

/// Over any mix of pushes, drains and raising of the flag, what the drains
/// handed out followed by what still waits is exactly what was waiting at
/// the start followed by every pushed batch, in push order: no batch is lost,
/// repeated or moved.
pub proof fn lemma_run_hands_out_in_push_order(
    pending: Seq<String>,
    ready: bool,
    ops: Seq<QueueOp>,
)
    ensures
        queue_run(pending, ready, ops).2 + queue_run(pending, ready, ops).0 == pending
            + pushed_batches(ops),
        ready ==> queue_run(pending, ready, ops).1,
    decreases ops.len(),
{
    if ops.len() > 0 {
        let prefix = ops.drop_last();
        lemma_run_hands_out_in_push_order(pending, ready, prefix);
        let before = queue_run(pending, ready, prefix);
        let out = before.2;
        let p = before.0;
        match ops.last() {
            QueueOp::Push(b) => {
                assert(out + Seq::<String>::empty() == out);
                assert(out + p.push(b) == (out + p).push(b));
                assert(pending + pushed_batches(prefix).push(b) == (pending + pushed_batches(
                    prefix,
                )).push(b));
            },
            QueueOp::SetReady => {
                assert(out + Seq::<String>::empty() == out);
            },
            QueueOp::Drain => {
                if before.1 {
                    assert(out + p + Seq::<String>::empty() == out + p);
                } else {
                    assert(out + Seq::<String>::empty() == out);
                }
            },
        }
    }
}

/// Starting from a new queue, a drain made with the flag up after any mix of
/// operations leaves the queue empty, and all the drains together have then
/// handed out every pushed batch exactly once, in push order.
pub proof fn lemma_final_drain_hands_out_everything(ops: Seq<QueueOp>)
    requires
        queue_run(Seq::empty(), false, ops).1,
    ensures
        queue_run(Seq::empty(), false, ops.push(QueueOp::Drain)).0 == Seq::<String>::empty(),
        queue_run(Seq::empty(), false, ops.push(QueueOp::Drain)).2 == pushed_batches(ops),
{
    let all = ops.push(QueueOp::Drain);
    assert(all.drop_last() == ops);
    lemma_run_hands_out_in_push_order(Seq::empty(), false, ops);
    let before = queue_run(Seq::empty(), false, ops);
    assert(Seq::<String>::empty() + pushed_batches(ops) == pushed_batches(ops));
    assert(before.2 + before.0 + Seq::<String>::empty() == before.2 + before.0);
}

/// The ordered buffer of serialised mutation batches shared by the engine
/// thread (the writer) and the window thread (the reader), together with the
/// readiness flag that gates draining.
///
/// Batches pushed while the flag is down accumulate; they are handed out,
/// all at once and in the order they were pushed, by the first drain after
/// the flag goes up.
pub struct MutationQueue {
    pending: Vec<String>,
    ready: bool,
}

impl MutationQueue {
    /// The batches waiting to be drained, oldest first.
    pub closed spec fn pending(&self) -> Seq<String> {
        self.pending@
    }

    /// Whether the window side can receive batches.
    pub closed spec fn ready(&self) -> bool {
        self.ready
    }

    /// An empty queue whose readiness flag is down.
    pub fn new() -> (r: Self)
        ensures
            r.pending() == Seq::<String>::empty(),
            !r.ready(),
    {
        MutationQueue { pending: Vec::new(), ready: false }
    }

    /// Appends one batch at the tail.
    pub fn push(&mut self, batch: String)
        ensures
            final(self).pending() == old(self).pending().push(batch),
            final(self).ready() == old(self).ready(),
            (final(self).pending(), final(self).ready(), Seq::<String>::empty()) == queue_step(
                old(self).pending(),
                old(self).ready(),
                QueueOp::Push(batch),
            ),
    {
        self.pending.push(batch);
    }

    /// Raises the readiness flag; it never goes down again.
    pub fn set_ready(&mut self)
        ensures
            final(self).pending() == old(self).pending(),
            final(self).ready(),
            (final(self).pending(), final(self).ready(), Seq::<String>::empty()) == queue_step(
                old(self).pending(),
                old(self).ready(),
                QueueOp::SetReady,
            ),
    {
        self.ready = true;
    }

    /// Reads the readiness flag.
    pub fn is_ready(&self) -> (r: bool)
        ensures
            r == self.ready(),
    {
        self.ready
    }

    /// The number of batches waiting.
    pub fn len(&self) -> (r: usize)
        ensures
            r == self.pending().len(),
    {
        self.pending.len()
    }

    /// Whether no batch is waiting.
    pub fn is_empty(&self) -> (r: bool)
        ensures
            r == (self.pending().len() == 0),
    {
        self.pending.len() == 0
    }

    /// When the flag is up, takes every waiting batch at once, in order,
    /// and leaves the queue empty; when it is down, returns nothing and
    /// leaves the queue as it was.
    pub fn drain_if_ready(&mut self) -> (r: Vec<String>)
        ensures
            final(self).ready() == old(self).ready(),
            r@ == drained(old(self).pending(), old(self).ready()),
            final(self).pending() == left_after_drain(old(self).pending(), old(self).ready()),
            (final(self).pending(), final(self).ready(), r@) == queue_step(
                old(self).pending(),
                old(self).ready(),
                QueueOp::Drain,
            ),
    {
        let mut taken: Vec<String> = Vec::new();
        if self.ready {
            std::mem::swap(&mut taken, &mut self.pending);
        }
        taken
    }
}

} // verus!
