use vstd::prelude::*;
use heapless::mpmc::MpMcQueue;
use crate::future::Fault;

verus! {

/// Capacity of the ready queue.
pub const READY_CAPACITY: usize = 4;

#[verifier::external_type_specification]
#[verifier::external_body]
#[verifier::reject_recursive_types(T)]
pub struct ExMpMcQueue<T, const N: usize>(MpMcQueue<T, N>);

/// The task ids held by a four-slot queue, front first.
pub uninterp spec fn queued(q: MpMcQueue<usize, 4>) -> Seq<usize>;

/// Relies on heapless::mpmc::MpMcQueue::new: the queue starts empty.
#[verifier::external_body]
fn queue_new() -> (q: MpMcQueue<usize, 4>)
    ensures
        queued(q) == Seq::<usize>::empty(),
{
    MpMcQueue::new()
}

/// Relies on heapless::mpmc::MpMcQueue::enqueue: the id goes to the back,
/// unless the queue already holds its four items, in which case it is
/// handed back and the queue is unchanged.
#[verifier::external_body]
fn queue_enqueue(q: &mut MpMcQueue<usize, 4>, id: usize) -> (r: Result<(), usize>)
    ensures
        queued(*old(q)).len() < 4 ==> r is Ok && queued(*final(q)) == queued(*old(q)).push(id),
        queued(*old(q)).len() >= 4 ==> r is Err && r->Err_0 == id && queued(*final(q)) == queued(*old(q)),
{
    q.enqueue(id)
}

/// Relies on heapless::mpmc::MpMcQueue::dequeue: the front id is removed and
/// returned, or `None` when the queue is empty.
#[verifier::external_body]
fn queue_dequeue(q: &mut MpMcQueue<usize, 4>) -> (r: Option<usize>)
    ensures
        queued(*old(q)).len() == 0 ==> r is None && queued(*final(q)) == queued(*old(q)),
        queued(*old(q)).len() > 0 ==> r == Some(queued(*old(q))[0]) && queued(*final(q))
            == queued(*old(q)).drop_first(),
{
    q.dequeue()
}

/// The bounded FIFO of task ids that are ready to be polled.
pub struct Executor {
    ready: MpMcQueue<usize, 4>,
}

impl View for Executor {
    type V = Seq<usize>;

    closed spec fn view(&self) -> Seq<usize> {
        queued(self.ready)
    }
}

impl Executor {
    /// The queue never holds more than its capacity.
    pub open spec fn wf(&self) -> bool {
        self@.len() <= READY_CAPACITY
    }

    /// An executor with nothing ready.
    pub fn new() -> (r: Executor)
        ensures
            r.wf(),
            r@ == Seq::<usize>::empty(),
    {
        Executor { ready: queue_new() }
    }

    /// Cold start: every task id below `n_tasks` is queued once, in order.
    /// The queue must have room for all of them.
    pub fn seed(&mut self, n_tasks: usize)
        requires
            old(self).wf(),
            n_tasks <= READY_CAPACITY - old(self)@.len(),
        ensures
            final(self).wf(),
            final(self)@ == old(self)@ + Seq::new(n_tasks as nat, |i: int| i as usize),
    {
        let ghost start = self@;
        let mut task_id: usize = 0;
        while task_id < n_tasks
            invariant
                self.wf(),
                start == old(self)@,
                n_tasks <= READY_CAPACITY - start.len(),
                0 <= task_id <= n_tasks,
                self@ == start + Seq::new(task_id as nat, |i: int| i as usize),
            decreases n_tasks - task_id,
        {
            let _ = queue_enqueue(&mut self.ready, task_id);
            proof {
                assert(self@ =~= start + Seq::new((task_id + 1) as nat, |i: int| i as usize));
            }
            task_id = task_id + 1;
        }
    }

    /// Takes ids off the front of the queue until one names a task below
    /// `n_tasks`, and returns it; ids out of range are skipped. `None` once
    /// the queue is empty: the caller then idles until the next interrupt.
    pub fn next_ready(&mut self, n_tasks: usize) -> (r: Option<usize>)
        requires
            old(self).wf(),
        ensures
            final(self).wf(),
            match r {
                Some(id) => {
                    let k = first_in_range(old(self)@, n_tasks);
                    &&& id < n_tasks
                    &&& k < old(self)@.len()
                    &&& id == old(self)@[k]
                    &&& final(self)@ == old(self)@.skip(k + 1)
                },
                None => {
                    &&& first_in_range(old(self)@, n_tasks) == old(self)@.len()
                    &&& final(self)@ == Seq::<usize>::empty()
                },
            },
    {
        let ghost start = self@;
        let mut skipped: usize = 0;
        proof { lemma_first_in_range_bound(start, n_tasks); }
        loop
            invariant
                self.wf(),
                start == old(self)@,
                start.len() <= READY_CAPACITY,
                skipped <= start.len(),
                self@ == start.skip(skipped as int),
                skipped <= first_in_range(start, n_tasks),
                first_in_range(start, n_tasks) <= start.len(),
            decreases self@.len(),
        {
            let next = queue_dequeue(&mut self.ready);
            match next {
                None => {
                    proof {
                        assert(start.skip(skipped as int).len() == start.len() - skipped);
                        assert(self@ =~= Seq::<usize>::empty());
                    }
                    return None;
                },
                Some(id) => {
                    proof {
                        assert(start.skip(skipped as int).len() == start.len() - skipped);
                        assert(id == start[skipped as int]);
                        lemma_first_in_range_step(start, n_tasks, skipped as int);
                        assert(self@ =~= start.skip(skipped + 1));
                    }
                    if id < n_tasks {
                        return Some(id);
                    }
                    skipped = skipped + 1;
                },
            }
        }
    }
}

/// Index of the first id in `s` that is below `n`, or `s.len()` if none is.
pub open spec fn first_in_range(s: Seq<usize>, n: usize) -> int
    decreases s.len(),
{
    if s.len() == 0 {
        0
    } else if s[0] < n {
        0
    } else {
        1 + first_in_range(s.drop_first(), n)
    }
}

proof fn lemma_first_in_range_bound(s: Seq<usize>, n: usize)
    ensures
        0 <= first_in_range(s, n) <= s.len(),
    decreases s.len(),
{
    if s.len() > 0 {
        lemma_first_in_range_bound(s.drop_first(), n);
    }
}

/// Walking past an out-of-range id at `i` keeps the search going.
proof fn lemma_first_in_range_step(s: Seq<usize>, n: usize, i: int)
    requires
        0 <= i < s.len(),
        i <= first_in_range(s, n),
    ensures
        s[i] < n ==> first_in_range(s, n) == i,
        s[i] >= n ==> i + 1 <= first_in_range(s, n),
        first_in_range(s, n) <= s.len(),
    decreases i,
{
    lemma_first_in_range_bound(s, n);
    lemma_first_in_range_bound(s.drop_first(), n);
    if i > 0 {
        lemma_first_in_range_step(s.drop_first(), n, i - 1);
    }
}

/// Marks `task_id` ready. A full queue is a fault: the wake is not recorded.
pub fn wake_task(ex: &mut Executor, task_id: usize) -> (r: Result<(), Fault>)
    requires
        old(ex).wf(),
    ensures
        final(ex).wf(),
        old(ex)@.len() < READY_CAPACITY ==> r is Ok && final(ex)@ == old(ex)@.push(task_id),
        old(ex)@.len() >= READY_CAPACITY ==> r is Err && r->Err_0 == Fault::ReadyQueueFull
            && final(ex)@ == old(ex)@,
{
    match queue_enqueue(&mut ex.ready, task_id) {
        Ok(()) => Ok(()),
        Err(_) => Err(Fault::ReadyQueueFull),
    }
}

} // verus!
