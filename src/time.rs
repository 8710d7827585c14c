use vstd::prelude::*;
use heapless::binary_heap::{BinaryHeap, Min};
use fugit::ExtU64;
use crate::executor::{wake_task, Executor, READY_CAPACITY};
use crate::future::{Fault, MicroFuture, MicroPoll};
use crate::runtime::Runtime;

verus! {

/// Ticks in one period of the 24-bit hardware counter.
pub const COUNTER_PERIOD: u64 = 0x100_0000;

/// Capacity of the deadline heap.
pub const MAX_DEADLINES: usize = 8;

/// The tick value made of an overflow count (high bits) and a counter
/// value (low 24 bits).
pub open spec fn ticks_of(ovf_count: u32, counter: u32) -> int {
    ovf_count * COUNTER_PERIOD + counter
}

/// The monotonic clock: the software overflow count and the hardware
/// counter, which counts up to `COUNTER_PERIOD` and then wraps to zero while
/// the overflow count goes up by one.
pub struct Ticker {
    pub ovf_count: u32,
    pub counter: u32,
}

/// Composes a tick value from a counter value read between two reads of
/// the overflow count. `None` when the two reads differ: the counter may
/// have been read in another overflow epoch, and the read must be retried.
pub fn sample_ticks(ovf_before: u32, counter: u32, ovf_after: u32) -> (r: Option<u64>)
    requires
        counter < COUNTER_PERIOD,
    ensures
        ovf_before == ovf_after ==> r == Some(ticks_of(ovf_before, counter) as u64),
        ovf_before != ovf_after ==> r is None,
{
    if ovf_before == ovf_after {
        Some(compose_ticks(ovf_before, counter))
    } else {
        None
    }
}

fn compose_ticks(ovf_count: u32, counter: u32) -> (r: u64)
    requires
        counter < COUNTER_PERIOD,
    ensures
        r == ticks_of(ovf_count, counter),
{
    assert(ovf_count * COUNTER_PERIOD + counter <= u64::MAX) by (nonlinear_arith)
        requires
            ovf_count <= u32::MAX,
            counter < COUNTER_PERIOD,
    ;
    (ovf_count as u64) * COUNTER_PERIOD + (counter as u64)
}

impl Ticker {
    pub open spec fn wf(&self) -> bool {
        self.counter < COUNTER_PERIOD
    }

    /// The current tick value.
    pub open spec fn ticks(&self) -> int {
        ticks_of(self.ovf_count, self.counter)
    }

    /// The clock at boot: tick zero.
    pub fn init() -> (r: Ticker)
        ensures
            r.wf(),
            r.ticks() == 0,
    {
        Ticker { ovf_count: 0, counter: 0 }
    }

    /// The current tick value: overflow count in the high bits, counter in
    /// the low 24 bits.
    pub fn now(&self) -> (r: u64)
        requires
            self.wf(),
        ensures
            r == self.ticks(),
    {
        compose_ticks(self.ovf_count, self.counter)
    }

    /// Brings the clock up to an overflow count and counter value read from
    /// the hardware. A reading that is not later than the clock leaves it
    /// unchanged, so the clock never goes back.
    pub fn catch_up(&mut self, ovf_count: u32, counter: u32)
        requires
            old(self).wf(),
            counter < COUNTER_PERIOD,
        ensures
            final(self).wf(),
            ticks_of(ovf_count, counter) > old(self).ticks() ==> final(self).ovf_count == ovf_count
                && final(self).counter == counter,
            ticks_of(ovf_count, counter) <= old(self).ticks() ==> *final(self) == *old(self),
            final(self).ticks() >= old(self).ticks(),
    {
        if compose_ticks(ovf_count, counter) > self.now() {
            self.ovf_count = ovf_count;
            self.counter = counter;
        }
    }

    /// Lets `n` ticks pass: the counter moves on by `n` modulo its period
    /// and the overflow count takes the carry. The overflow count must not
    /// wrap.
    pub fn advance(&mut self, n: u64)
        requires
            old(self).wf(),
            old(self).ticks() + n < (u32::MAX + 1) * COUNTER_PERIOD,
        ensures
            final(self).wf(),
            final(self).ticks() == old(self).ticks() + n,
    {
        let t = self.now() + n;
        let ovf = t / COUNTER_PERIOD;
        let counter = t % COUNTER_PERIOD;
        assert(ovf <= u32::MAX) by (nonlinear_arith)
            requires
                t < (u32::MAX + 1) * COUNTER_PERIOD,
                ovf == t / COUNTER_PERIOD,
        ;
        self.ovf_count = ovf as u32;
        self.counter = counter as u32;
        assert(ovf * COUNTER_PERIOD + counter == t) by (nonlinear_arith)
            requires
                ovf == t / COUNTER_PERIOD,
                counter == t % COUNTER_PERIOD,
        ;
    }
}

/// The clock never reads less when sampled later: between two samples the
/// counter either moved on within its epoch, or overflowed, which raised
/// the overflow count whatever the counter then reads.
pub proof fn lemma_now_monotonic(earlier: Ticker, later: Ticker)
    requires
        earlier.wf(),
        later.wf(),
        earlier.ovf_count < later.ovf_count || (earlier.ovf_count == later.ovf_count
            && earlier.counter <= later.counter),
    ensures
        earlier.ticks() <= later.ticks(),
{
    if earlier.ovf_count < later.ovf_count {
        assert(earlier.ovf_count * COUNTER_PERIOD + COUNTER_PERIOD <= later.ovf_count * COUNTER_PERIOD)
            by (nonlinear_arith)
            requires
                earlier.ovf_count + 1 <= later.ovf_count,
        ;
    }
}

/// Ticks in `ms` milliseconds at 32768 ticks a second, rounded down.
pub open spec fn ms_ticks(ms: u64) -> int {
    ms * 4096 / 125
}

/// Relies on fugit's `ExtU64::millis` into a 1/32768 s duration and
/// `Duration::ticks`: `ms * 4096 / 125`, which must not overflow.
#[verifier::external_body]
pub(crate) fn millis_to_ticks(ms: u64) -> (r: u64)
    requires
        ms <= u64::MAX / 4096,
    ensures
        r == ms_ticks(ms),
{
    ms.millis::<1, 32768>().ticks()
}

/// Every tick value the clock can hold is far below `u64::MAX`, which
/// leaves room for any timer duration used here.
pub(crate) proof fn lemma_ticks_bound(clock: Ticker)
    requires
        clock.wf(),
    ensures
        clock.ticks() < 0x100_0000_0000_0000,
{
    assert(clock.ovf_count * COUNTER_PERIOD <= 0xFFFF_FFFF * COUNTER_PERIOD) by (nonlinear_arith)
        requires
            clock.ovf_count <= 0xFFFF_FFFF,
    ;
}

#[verifier::external_type_specification]
#[verifier::external_body]
#[verifier::reject_recursive_types(T)]
#[verifier::reject_recursive_types(K)]
pub struct ExBinaryHeap<T, K, const N: usize>(BinaryHeap<T, K, N>);

#[verifier::external_type_specification]
#[verifier::external_body]
pub struct ExMin(Min);

/// A deadline entry: absolute tick, then task id.
pub type Entry = (u64, usize);

/// The entries of an eight-slot min-heap in the order `pop` hands them out.
pub uninterp spec fn heap_items(h: BinaryHeap<(u64, usize), Min, 8>) -> Seq<(u64, usize)>;

/// The order of `(u64, usize)` tuples: by tick, then by task id.
pub open spec fn entry_le(a: Entry, b: Entry) -> bool {
    a.0 < b.0 || (a.0 == b.0 && a.1 <= b.1)
}

pub open spec fn sorted(s: Seq<Entry>) -> bool {
    forall|i: int, j: int| 0 <= i < j < s.len() ==> entry_le(#[trigger] s[i], #[trigger] s[j])
}

/// `s` with `x` placed before the first entry that it does not follow.
pub open spec fn insert_sorted(s: Seq<Entry>, x: Entry) -> Seq<Entry>
    decreases s.len(),
{
    if s.len() == 0 {
        seq![x]
    } else if entry_le(x, s[0]) {
        seq![x] + s
    } else {
        seq![s[0]] + insert_sorted(s.drop_first(), x)
    }
}

/// Relies on heapless::BinaryHeap::new: the heap starts empty.
#[verifier::external_body]
fn heap_new() -> (h: BinaryHeap<(u64, usize), Min, 8>)
    ensures
        heap_items(h) == Seq::<Entry>::empty(),
{
    BinaryHeap::new()
}

/// Relies on heapless::BinaryHeap::peek: the smallest entry of a min-heap,
/// or `None` when it is empty.
#[verifier::external_body]
fn heap_peek(h: &BinaryHeap<(u64, usize), Min, 8>) -> (r: Option<Entry>)
    ensures
        heap_items(*h).len() == 0 ==> r is None,
        heap_items(*h).len() > 0 ==> r == Some(heap_items(*h)[0]),
{
    h.peek().copied()
}

/// Relies on heapless::BinaryHeap::pop: removes and returns the smallest
/// entry of a min-heap, or `None` when it is empty.
#[verifier::external_body]
fn heap_pop(h: &mut BinaryHeap<(u64, usize), Min, 8>) -> (r: Option<Entry>)
    ensures
        heap_items(*old(h)).len() == 0 ==> r is None && heap_items(*final(h)) == heap_items(*old(h)),
        heap_items(*old(h)).len() > 0 ==> r == Some(heap_items(*old(h))[0])
            && heap_items(*final(h)) == heap_items(*old(h)).drop_first(),
{
    h.pop()
}

/// Relies on heapless::BinaryHeap::push: adds the entry unless the heap
/// already holds its eight entries, in which case it is handed back. The
/// entries always come out smallest first.
#[verifier::external_body]
fn heap_push(h: &mut BinaryHeap<(u64, usize), Min, 8>, e: Entry) -> (r: Result<(), Entry>)
    ensures
        sorted(heap_items(*final(h))),
        heap_items(*old(h)).len() < 8 ==> r is Ok && heap_items(*final(h)) == insert_sorted(heap_items(*old(h)), e),
        heap_items(*old(h)).len() >= 8 ==> r is Err && r->Err_0 == e && heap_items(*final(h)) == heap_items(*old(h)),
{
    h.push(e)
}

/// Number of leading entries of `s` whose tick is at or before `now`.
pub open spec fn due_prefix(s: Seq<Entry>, now: int) -> int
    decreases s.len(),
{
    if s.len() == 0 {
        0
    } else if s[0].0 <= now {
        1 + due_prefix(s.drop_first(), now)
    } else {
        0
    }
}

/// The task ids of a run of entries, in the same order.
pub open spec fn task_ids(s: Seq<Entry>) -> Seq<usize> {
    s.map_values(|e: Entry| e.1)
}

/// The pending deadlines and the compare register that serves them.
pub struct Deadlines {
    pub heap: BinaryHeap<(u64, usize), Min, 8>,
    /// Counter value the compare register holds.
    pub compare: u32,
    /// Whether the compare event is enabled.
    pub compare_enabled: bool,
}

impl View for Deadlines {
    type V = Seq<Entry>;

    /// Pending entries, earliest first.
    closed spec fn view(&self) -> Seq<Entry> {
        heap_items(self.heap)
    }
}

/// What `schedule_wakeups` leaves behind, from the entries `items0`, the
/// compare register state and the ready queue `q0` before it to `d1` and `q1` after it, with result `r`: the
/// entries due at the clock's tick are woken in order, earliest first;
/// then the compare register is set to the first entry left if that entry
/// lies in the current overflow epoch, kept if it lies in a later one, and
/// the compare event is disabled when nothing is left. A full ready queue
/// stops it with a fault.
pub open spec fn wakeups_done(
    items0: Seq<Entry>,
    compare0: u32,
    enabled0: bool,
    clock: Ticker,
    q0: Seq<usize>,
    d1: Deadlines,
    q1: Seq<usize>,
    r: Result<(), Fault>,
) -> bool {
    let k = due_prefix(items0, clock.ticks());
    &&& (r is Ok) == (q0.len() + k <= READY_CAPACITY)
    &&& r is Ok ==> {
        &&& d1@ == items0.skip(k)
        &&& q1 == q0 + task_ids(items0.take(k))
        &&& d1@.len() == 0 ==> !d1.compare_enabled
        &&& d1@.len() > 0 && d1@[0].0 / COUNTER_PERIOD == clock.ovf_count ==> {
            &&& d1.compare == d1@[0].0 % COUNTER_PERIOD
            &&& d1.compare_enabled
        }
        &&& d1@.len() > 0 && d1@[0].0 / COUNTER_PERIOD != clock.ovf_count ==> {
            &&& d1.compare == compare0
            &&& d1.compare_enabled == enabled0
        }
    }
    &&& r is Err ==> {
        &&& r->Err_0 == Fault::ReadyQueueFull
        &&& q1.len() == READY_CAPACITY
        &&& d1@ == items0.skip(READY_CAPACITY - q0.len())
    }
}

proof fn lemma_insert_sorted_len(s: Seq<Entry>, x: Entry)
    ensures
        insert_sorted(s, x).len() == s.len() + 1,
    decreases s.len(),
{
    if s.len() > 0 {
        lemma_insert_sorted_len(s.drop_first(), x);
    }
}

proof fn lemma_due_prefix_bound(s: Seq<Entry>, now: int)
    ensures
        0 <= due_prefix(s, now) <= s.len(),
    decreases s.len(),
{
    if s.len() > 0 {
        lemma_due_prefix_bound(s.drop_first(), now);
    }
}

/// Within the due prefix every entry is due; the entry just after it is not.
proof fn lemma_due_prefix_at(s: Seq<Entry>, now: int, j: int)
    requires
        0 <= j < s.len(),
        j <= due_prefix(s, now),
    ensures
        (s[j].0 <= now) == (j < due_prefix(s, now)),
    decreases j,
{
    lemma_due_prefix_bound(s, now);
    lemma_due_prefix_bound(s.drop_first(), now);
    if j > 0 {
        lemma_due_prefix_at(s.drop_first(), now, j - 1);
    }
}

proof fn lemma_sorted_skip(s: Seq<Entry>, j: int)
    requires
        sorted(s),
        0 <= j <= s.len(),
    ensures
        sorted(s.skip(j)),
{
    assert forall|a: int, b: int| 0 <= a < b < s.skip(j).len() implies entry_le(
        #[trigger] s.skip(j)[a],
        #[trigger] s.skip(j)[b],
    ) by {
        assert(s.skip(j)[a] == s[a + j]);
        assert(s.skip(j)[b] == s[b + j]);
    }
}

impl Deadlines {
    /// At most eight entries, kept earliest first.
    pub open spec fn wf(&self) -> bool {
        &&& self@.len() <= MAX_DEADLINES
        &&& sorted(self@)
    }

    /// No deadline pending and the compare event disabled.
    pub fn new() -> (r: Deadlines)
        ensures
            r.wf(),
            r@ == Seq::<Entry>::empty(),
            !r.compare_enabled,
    {
        Deadlines { heap: heap_new(), compare: 0, compare_enabled: false }
    }

    /// Serves the earliest entries: each one due at `clock`'s tick (its
    /// epoch has passed, or it is this epoch and its counter value is not
    /// ahead of the counter) is removed and its task woken; the first entry
    /// not yet due, if it is in this epoch, is programmed into the compare
    /// register; an empty heap disables the compare event. Called after a
    /// registration and from the clock's interrupt.
    pub fn schedule_wakeups(&mut self, clock: &Ticker, ex: &mut Executor) -> (r: Result<(), Fault>)
        requires
            old(self).wf(),
            clock.wf(),
            old(ex).wf(),
        ensures
            final(self).wf(),
            final(ex).wf(),
            wakeups_done(old(self)@, old(self).compare, old(self).compare_enabled, *clock, old(ex)@, *final(self), final(ex)@, r),
    {
        let ghost s = self@;
        let ghost q = ex@;
        let ghost now = clock.ticks();
        let ghost k = due_prefix(s, now);
        let ghost mut j: int = 0;
        proof { lemma_due_prefix_bound(s, now); }
        loop
            invariant
                s == old(self)@,
                sorted(s),
                q == old(ex)@,
                now == clock.ticks(),
                k == due_prefix(s, now),
                0 <= k <= s.len(),
                clock.wf(),
                0 <= j <= k,
                self.wf(),
                ex.wf(),
                self@ == s.skip(j),
                ex@ == q + task_ids(s.take(j)),
                self.compare == old(self).compare,
                self.compare_enabled == old(self).compare_enabled,
            decreases self@.len(),
        {
            let head = heap_peek(&self.heap);
            match head {
                None => {
                    self.compare_enabled = false;
                    proof {
                        assert(s.skip(j).len() == s.len() - j);
                        assert(j == k);
                    }
                    return Ok(());
                },
                Some(entry) => {
                    let deadline = entry.0;
                    let task_id = entry.1;
                    let epoch = deadline / COUNTER_PERIOD;
                    let low = deadline % COUNTER_PERIOD;
                    proof {
                        assert(s.skip(j)[0] == s[j]);
                        assert(deadline == epoch * COUNTER_PERIOD + low) by (nonlinear_arith)
                            requires
                                epoch == deadline / COUNTER_PERIOD,
                                low == deadline % COUNTER_PERIOD,
                        ;
                        lemma_due_prefix_at(s, now, j);
                    }
                    let ovf = clock.ovf_count as u64;
                    if epoch > ovf {
                        proof {
                            assert(epoch >= ovf + 1);
                            assert(epoch * COUNTER_PERIOD >= (ovf + 1) * COUNTER_PERIOD) by (nonlinear_arith)
                                requires
                                    epoch >= ovf + 1,
                            ;
                            assert(j == k);
                        }
                        return Ok(());
                    }
                    if epoch == ovf && low as u32 > clock.counter {
                        self.compare = low as u32;
                        self.compare_enabled = true;
                        proof { assert(j == k); }
                        return Ok(());
                    }
                    proof {
                        if epoch < ovf {
                            assert(epoch * COUNTER_PERIOD + COUNTER_PERIOD <= ovf * COUNTER_PERIOD) by (nonlinear_arith)
                                requires
                                    epoch + 1 <= ovf,
                            ;
                        }
                        assert(j < k);
                    }
                    match wake_task(ex, task_id) {
                        Ok(()) => {},
                        Err(e) => {
                            return Err(e);
                        },
                    }
                    let _ = heap_pop(&mut self.heap);
                    proof {
                        assert(s.take(j + 1) =~= s.take(j).push(s[j]));
                        assert(task_ids(s.take(j + 1)) =~= task_ids(s.take(j)).push(s[j].1));
                        assert(self@ =~= s.skip(j + 1));
                        lemma_sorted_skip(s, j + 1);
                        j = j + 1;
                    }
                },
            }
        }
    }

    /// Adds the entry `(deadline, task_id)`. When it is now the earliest
    /// entry the compare register is reprogrammed at once through
    /// `schedule_wakeups`; otherwise the programmed deadline stays right. A
    /// full heap is a fault and changes nothing.
    pub fn register(&mut self, deadline: u64, task_id: usize, clock: &Ticker, ex: &mut Executor) -> (r: Result<(), Fault>)
        requires
            old(self).wf(),
            clock.wf(),
            old(ex).wf(),
        ensures
            final(self).wf(),
            final(ex).wf(),
            deadline_registered(*old(self), *clock, old(ex)@, *final(self), final(ex)@, (deadline, task_id), r),
    {
        let earliest = match heap_peek(&self.heap) {
            Some(next) => deadline < next.0,
            None => true,
        };
        match heap_push(&mut self.heap, (deadline, task_id)) {
            Ok(()) => {},
            Err(_) => {
                return Err(Fault::DeadlineHeapFull);
            },
        }
        proof { lemma_insert_sorted_len(old(self)@, (deadline, task_id)); }
        if earliest {
            self.schedule_wakeups(clock, ex)
        } else {
            Ok(())
        }
    }
}

proof fn lemma_entry_le_total(a: Entry, b: Entry)
    ensures
        entry_le(a, b) || entry_le(b, a),
        entry_le(a, b) && entry_le(b, a) ==> a == b,
{
}

/// Registration order does not matter: two entries registered one way
/// round or the other leave the same pending entries, in the same order.
pub proof fn lemma_register_order(s: Seq<Entry>, a: Entry, b: Entry)
    ensures
        insert_sorted(insert_sorted(s, a), b) == insert_sorted(insert_sorted(s, b), a),
    decreases s.len(),
{
    lemma_entry_le_total(a, b);
    if s.len() == 0 {
        assert(insert_sorted(seq![a], b) == if entry_le(b, a) { seq![b, a] } else { seq![a, b] }) by {
            assert(seq![a].drop_first() =~= Seq::<Entry>::empty());
            assert(insert_sorted(seq![a].drop_first(), b) == seq![b]);
            assert(seq![a][0] == a);
            assert(seq![b] + seq![a] =~= seq![b, a]);
            assert(seq![a] + seq![b] =~= seq![a, b]);
        }
        assert(insert_sorted(seq![b], a) == if entry_le(a, b) { seq![a, b] } else { seq![b, a] }) by {
            assert(seq![b].drop_first() =~= Seq::<Entry>::empty());
            assert(insert_sorted(seq![b].drop_first(), a) == seq![a]);
            assert(seq![b][0] == b);
            assert(seq![a] + seq![b] =~= seq![a, b]);
            assert(seq![b] + seq![a] =~= seq![b, a]);
        }
    } else {
        let h = s[0];
        let t = s.drop_first();
        let sa = insert_sorted(s, a);
        let sb = insert_sorted(s, b);
        if entry_le(a, h) && entry_le(b, h) {
            assert(sa == seq![a] + s);
            assert(sb == seq![b] + s);
            assert((seq![a] + s)[0] == a);
            assert((seq![a] + s).drop_first() =~= s);
            assert((seq![b] + s)[0] == b);
            assert((seq![b] + s).drop_first() =~= s);
            assert(seq![b] + (seq![a] + s) =~= seq![b, a] + s);
            assert(seq![a] + (seq![b] + s) =~= seq![a, b] + s);
        } else if entry_le(a, h) {
            assert(sa == seq![a] + s);
            assert(sb == seq![h] + insert_sorted(t, b));
            assert((seq![a] + s)[0] == a);
            assert((seq![a] + s).drop_first() =~= s);
            assert((seq![h] + insert_sorted(t, b))[0] == h);
        } else if entry_le(b, h) {
            assert(sb == seq![b] + s);
            assert(sa == seq![h] + insert_sorted(t, a));
            assert((seq![b] + s)[0] == b);
            assert((seq![b] + s).drop_first() =~= s);
            assert((seq![h] + insert_sorted(t, a))[0] == h);
        } else {
            assert(sa == seq![h] + insert_sorted(t, a));
            assert(sb == seq![h] + insert_sorted(t, b));
            assert((seq![h] + insert_sorted(t, a))[0] == h);
            assert((seq![h] + insert_sorted(t, a)).drop_first() =~= insert_sorted(t, a));
            assert((seq![h] + insert_sorted(t, b))[0] == h);
            assert((seq![h] + insert_sorted(t, b)).drop_first() =~= insert_sorted(t, b));
            lemma_register_order(t, a, b);
        }
    }
}

/// One firing of the clock wakes the due tasks earliest deadline first:
/// the ready queue gains the task ids of the due entries in tick order.
pub proof fn lemma_wake_order(
    items0: Seq<Entry>,
    compare0: u32,
    enabled0: bool,
    clock: Ticker,
    q0: Seq<usize>,
    d1: Deadlines,
    q1: Seq<usize>,
    r: Result<(), Fault>,
)
    requires
        sorted(items0),
        wakeups_done(items0, compare0, enabled0, clock, q0, d1, q1, r),
        r is Ok,
    ensures
        ({
            let woken = items0.take(due_prefix(items0, clock.ticks()));
            &&& q1 == q0 + task_ids(woken)
            &&& forall|i: int, j: int| 0 <= i < j < woken.len() ==> #[trigger] woken[i].0 <= #[trigger] woken[j].0
            &&& forall|i: int| 0 <= i < woken.len() ==> #[trigger] woken[i].0 <= clock.ticks()
        }),
{
    let k = due_prefix(items0, clock.ticks());
    lemma_due_prefix_bound(items0, clock.ticks());
    let woken = items0.take(k);
    assert forall|i: int, j: int| 0 <= i < j < woken.len() implies #[trigger] woken[i].0 <= #[trigger] woken[j].0 by {
        assert(entry_le(items0[i], items0[j]));
    }
    assert forall|i: int| 0 <= i < woken.len() implies #[trigger] woken[i].0 <= clock.ticks() by {
        lemma_due_prefix_at(items0, clock.ticks(), i);
    }
}

/// After the earliest of several deadlines fires, and only it, the compare
/// register holds the next earliest one (when it lies in the current
/// overflow epoch) and its task has not been woken; once every entry has
/// fired the compare event is disabled.
pub proof fn lemma_reprogram_after_fire(
    items0: Seq<Entry>,
    compare0: u32,
    enabled0: bool,
    clock: Ticker,
    q0: Seq<usize>,
    d1: Deadlines,
    q1: Seq<usize>,
    r: Result<(), Fault>,
)
    requires
        sorted(items0),
        q0.len() < READY_CAPACITY,
        wakeups_done(items0, compare0, enabled0, clock, q0, d1, q1, r),
    ensures
        items0.len() >= 2 && items0[0].0 <= clock.ticks() < items0[1].0 && items0[1].0 / COUNTER_PERIOD
            == clock.ovf_count ==> {
            &&& r is Ok
            &&& q1 == q0.push(items0[0].1)
            &&& d1@ == items0.skip(1)
            &&& d1.compare == items0[1].0 % COUNTER_PERIOD
            &&& d1.compare_enabled
        },
        r is Ok && due_prefix(items0, clock.ticks()) == items0.len() ==> !d1.compare_enabled,
{
    lemma_due_prefix_bound(items0, clock.ticks());
    if items0.len() >= 2 && items0[0].0 <= clock.ticks() < items0[1].0 {
        let t = items0.drop_first();
        assert(t[0] == items0[1]);
        assert(due_prefix(t, clock.ticks()) == 0);
        assert(due_prefix(items0, clock.ticks()) == 1);
        assert(items0.take(1) =~= seq![items0[0]]);
        assert(task_ids(items0.take(1)) =~= seq![items0[0].1]);
    }
    if r is Ok && due_prefix(items0, clock.ticks()) == items0.len() {
        assert(d1@.len() == 0);
    }
}

/// Whether an entry at `deadline` would come before every pending entry.
pub open spec fn is_earliest(items: Seq<Entry>, deadline: u64) -> bool {
    items.len() == 0 || deadline < items[0].0
}

#[derive(Clone, Copy, Debug, PartialEq, Eq, Structural)]
pub enum TimerState {
    Init,
    Wait,
}

/// Completes once the clock reaches `end_time`. The deadline heap only
/// decides when the task is polled again; whether the time has come is
/// always checked against the clock itself.
#[derive(Clone, Copy, Debug, PartialEq, Eq, Structural)]
pub struct Timer {
    pub end_time: u64,
    pub state: TimerState,
}

impl Timer {
    /// A timer that ends `duration` ticks after the clock's current tick.
    pub fn new(duration: u64, clock: &Ticker) -> (r: Timer)
        requires
            clock.wf(),
            clock.ticks() + duration <= u64::MAX,
        ensures
            r.end_time == clock.ticks() + duration,
            r.state is Init,
    {
        Timer { end_time: clock.now() + duration, state: TimerState::Init }
    }

    fn register(&self, task_id: usize, rt: &mut Runtime) -> (r: Result<(), Fault>)
        requires
            old(rt).wf(),
        ensures
            final(rt).wf(),
            timer_registered(*old(rt), *final(rt), self.end_time, task_id, r),
    {
        rt.deadlines.register(self.end_time, task_id, &rt.ticker, &mut rt.executor)
    }

    /// First poll: registers the end time with the deadline scheduler and
    /// is pending. Later polls: ready once the clock has reached the end
    /// time, pending before, with nothing else changed.
    pub fn poll(&mut self, task_id: usize, rt: &mut Runtime) -> (r: Result<MicroPoll<()>, Fault>)
        requires
            old(rt).wf(),
        ensures
            final(rt).wf(),
            final(self).end_time == old(self).end_time,
            match old(self).state {
                TimerState::Init => {
                    &&& timer_registered(*old(rt), *final(rt), old(self).end_time, task_id, outcome(r))
                    &&& r is Ok ==> r->Ok_0 is Pending && final(self).state is Wait
                    &&& r is Err ==> final(self).state is Init
                },
                TimerState::Wait => {
                    &&& *final(rt) == *old(rt)
                    &&& final(self).state is Wait
                    &&& r is Ok
                    &&& (r->Ok_0 is Ready) == (old(rt).ticker.ticks() >= old(self).end_time)
                },
            },
    {
        match self.state {
            TimerState::Init => {
                match self.register(task_id, rt) {
                    Ok(()) => {
                        self.state = TimerState::Wait;
                        Ok(MicroPoll::Pending)
                    },
                    Err(e) => Err(e),
                }
            },
            TimerState::Wait => {
                if rt.ticker.now() >= self.end_time {
                    Ok(MicroPoll::Ready(()))
                } else {
                    Ok(MicroPoll::Pending)
                }
            },
        }
    }
}

/// What registering a timer's end time does to the runtime: the deadline
/// scheduler's `register` with the runtime's clock and ready queue; the
/// clock and the GPIO lines are untouched.
pub open spec fn timer_registered(rt0: Runtime, rt1: Runtime, end_time: u64, task_id: usize, r: Result<(), Fault>) -> bool {
    &&& rt1.ticker == rt0.ticker
    &&& rt1.gpio == rt0.gpio
    &&& deadline_registered(
        rt0.deadlines,
        rt0.ticker,
        rt0.executor@,
        rt1.deadlines,
        rt1.executor@,
        (end_time, task_id),
        r,
    )
}

/// What `Deadlines::register` of entry `e` does, from the scheduler `d0`
/// and ready queue `q0` to `d1` and `q1`, with result `r`: a full heap is
/// a fault that changes nothing; otherwise the entry is added, and when it
/// is the earliest `schedule_wakeups` runs on the new entries.
pub open spec fn deadline_registered(
    d0: Deadlines,
    clock: Ticker,
    q0: Seq<usize>,
    d1: Deadlines,
    q1: Seq<usize>,
    e: Entry,
    r: Result<(), Fault>,
) -> bool {
    &&& d0@.len() >= MAX_DEADLINES ==> {
        &&& r == Err::<(), Fault>(Fault::DeadlineHeapFull)
        &&& d1@ == d0@
        &&& d1.compare == d0.compare
        &&& d1.compare_enabled == d0.compare_enabled
        &&& q1 == q0
    }
    &&& d0@.len() < MAX_DEADLINES && is_earliest(d0@, e.0) ==> wakeups_done(
        insert_sorted(d0@, e),
        d0.compare,
        d0.compare_enabled,
        clock,
        q0,
        d1,
        q1,
        r,
    )
    &&& d0@.len() < MAX_DEADLINES && !is_earliest(d0@, e.0) ==> {
        &&& r is Ok
        &&& d1@ == insert_sorted(d0@, e)
        &&& d1.compare == d0.compare
        &&& d1.compare_enabled == d0.compare_enabled
        &&& q1 == q0
    }
}

/// The success or fault of a poll, without its output.
pub open spec fn outcome<T>(r: Result<T, Fault>) -> Result<(), Fault> {
    match r {
        Ok(_) => Ok(()),
        Err(e) => Err(e),
    }
}

impl MicroFuture<Runtime> for Timer {
    type Output = ();

    open spec fn env_wf(env: &Runtime) -> bool {
        env.wf()
    }

    fn poll(&mut self, task_id: usize, env: &mut Runtime) -> Result<MicroPoll<()>, Fault> {
        Timer::poll(self, task_id, env)
    }
}

} // verus!
