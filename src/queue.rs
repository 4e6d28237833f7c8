use vstd::prelude::*;

verus! {

/// One operation on a pending queue, as seen by the model.
pub enum QueueOp<T> {
    /// Append a batch of items, in order.
    Append(Seq<T>),
    /// Take the whole contents at once.
    Drain,
}

/// Effect of one operation: the new contents and what the operation handed out.
pub open spec fn queue_step<T>(contents: Seq<T>, op: QueueOp<T>) -> (Seq<T>, Seq<T>) {
    match op {
        QueueOp::Append(batch) => (contents + batch, Seq::empty()),
        QueueOp::Drain => (Seq::empty(), contents),
    }
}

/// Effect of a sequence of operations applied one after another: the final
/// contents and everything the drains handed out, in the order handed out.
pub open spec fn queue_run<T>(contents: Seq<T>, ops: Seq<QueueOp<T>>) -> (Seq<T>, Seq<T>)
    decreases ops.len(),
{
    if ops.len() == 0 {
        (contents, Seq::empty())
    } else {
        let before = queue_run(contents, ops.drop_last());
        let now = queue_step(before.0, ops.last());
        (now.0, before.1 + now.1)
    }
}

/// Every item appended by a sequence of operations, batch after batch.
pub open spec fn appended<T>(ops: Seq<QueueOp<T>>) -> Seq<T>
    decreases ops.len(),
{
    if ops.len() == 0 {
        Seq::empty()
    } else {
        appended(ops.drop_last()) + match ops.last() {
            QueueOp::Append(batch) => batch,
            QueueOp::Drain => Seq::empty(),
        }
    }
}

/// Ordered, unbounded buffer of pushed items, emptied only as a whole.
pub struct PendingQueue<T> {
    items: Vec<T>,
}

impl<T> View for PendingQueue<T> {
    type V = Seq<T>;

    closed spec fn view(&self) -> Seq<T> {
        self.items@
    }
}

impl<T> PendingQueue<T> {
    pub fn new() -> (q: Self)
        ensures
            q@ == Seq::<T>::empty(),
    {
        PendingQueue { items: Vec::new() }
    }

    pub fn len(&self) -> (n: usize)
        ensures
            n == self@.len(),
    {
        self.items.len()
    }

    /// Appends one item at the back.
    pub fn push(&mut self, item: T)
        ensures
            final(self)@ == old(self)@.push(item),
    {
        self.items.push(item);
    }

    /// Appends a batch at the back, keeping its order.
    pub fn append(&mut self, batch: Vec<T>)
        ensures
            final(self)@ == queue_step(old(self)@, QueueOp::Append(batch@)).0,
    {
        let mut batch = batch;
        self.items.append(&mut batch);
    }

    /// Empties the queue and returns everything it held, in arrival order.
    pub fn drain(&mut self) -> (r: Vec<T>)
        ensures
            (final(self)@, r@) == queue_step(old(self)@, QueueOp::Drain),
    {
        let mut out = Vec::new();
        std::mem::swap(&mut self.items, &mut out);
        out
    }
}

/// Whatever the interleaving of appends and drains, the items handed out
/// followed by those still queued are exactly the items appended, in the
/// order they were appended: nothing is lost, repeated or reordered.
pub proof fn lemma_queue_conserves<T>(ops: Seq<QueueOp<T>>)
    ensures
        queue_run(Seq::empty(), ops).1 + queue_run(Seq::empty(), ops).0 == appended(ops),
    decreases ops.len(),
{
    if ops.len() > 0 {
        lemma_queue_conserves(ops.drop_last());
        let before = queue_run(Seq::<T>::empty(), ops.drop_last());
        match ops.last() {
            QueueOp::Append(batch) => {
                assert(before.1 + (before.0 + batch) =~= (before.1 + before.0) + batch);
                assert(before.1 + Seq::empty() =~= before.1);
            },
            QueueOp::Drain => {
                assert(before.1 + before.0 + Seq::empty() =~= before.1 + before.0);
                assert(appended(ops.drop_last()) + Seq::empty() =~= appended(ops.drop_last()));
            },
        }
    }
}

/// A drain returns the whole contents; a drain right after it returns nothing.
pub proof fn lemma_drain_twice<T>(contents: Seq<T>)
    ensures
        queue_step(contents, QueueOp::Drain).1 == contents,
        queue_step(queue_step(contents, QueueOp::Drain).0, QueueOp::Drain).1 == Seq::<T>::empty(),
{
}

/// Batches appended one after another are kept in arrival order.
pub proof fn lemma_batches_in_order<T>(contents: Seq<T>, first: Seq<T>, second: Seq<T>)
    ensures
        queue_step(queue_step(contents, QueueOp::Append(first)).0, QueueOp::Append(second)).0
            == contents + first + second,
{
}

} // verus!
