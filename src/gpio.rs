use vstd::prelude::*;
use crate::executor::{wake_task, Executor, READY_CAPACITY};
use crate::future::{Fault, MicroFuture, MicroPoll};
use crate::runtime::Runtime;

verus! {

/// Held by a wake slot that has no task waiting.
pub const INVALID_TASK_ID: usize = 0xFFFF_FFFF;

/// Number of edge-detect channels.
pub const MAX_CHANNELS_USED: usize = 2;

/// Logical level of an input pin.
#[derive(Clone, Copy, Debug, PartialEq, Eq, Structural)]
pub enum PinLevel {
    Low,
    High,
}

/// The edge-detect channels: for each, the task waiting on it (or
/// `INVALID_TASK_ID`) and the level its pin was last sampled at; and how
/// many channels have been bound so far.
pub struct GpioWake {
    pub wake_tasks: Vec<usize>,
    pub levels: Vec<PinLevel>,
    pub next_channel: usize,
}

/// The tasks woken when edges arrive on the channels flagged in `events`,
/// the first `n` channels taken in order: each flagged channel wakes the
/// task in its slot, unless the slot holds `INVALID_TASK_ID`.
pub open spec fn edge_wakes(slots: Seq<usize>, events: Seq<bool>, n: int) -> Seq<usize>
    decreases n,
{
    if n <= 0 {
        Seq::empty()
    } else {
        let before = edge_wakes(slots, events, n - 1);
        if events[n - 1] && slots[n - 1] != INVALID_TASK_ID {
            before.push(slots[n - 1])
        } else {
            before
        }
    }
}

/// The slots after edges on the channels flagged in `events`: each flagged
/// slot is exchanged for `INVALID_TASK_ID`.
pub open spec fn edge_slots(slots: Seq<usize>, events: Seq<bool>) -> Seq<usize> {
    Seq::new(slots.len(), |i: int| if events[i] { INVALID_TASK_ID } else { slots[i] })
}

impl GpioWake {
    pub open spec fn wf(&self) -> bool {
        &&& self.wake_tasks@.len() == MAX_CHANNELS_USED
        &&& self.levels@.len() == MAX_CHANNELS_USED
        &&& self.next_channel <= MAX_CHANNELS_USED
    }

    /// No channel bound, no task waiting, every pin sampled high (released).
    pub fn new() -> (r: GpioWake)
        ensures
            r.wf(),
            r.next_channel == 0,
            r.wake_tasks@ == seq![INVALID_TASK_ID, INVALID_TASK_ID],
            r.levels@ == seq![PinLevel::High, PinLevel::High],
    {
        GpioWake {
            wake_tasks: vec![INVALID_TASK_ID, INVALID_TASK_ID],
            levels: vec![PinLevel::High, PinLevel::High],
            next_channel: 0,
        }
    }

    /// Records the level that `channel`'s pin was sampled at.
    pub fn set_level(&mut self, channel: usize, level: PinLevel)
        requires
            old(self).wf(),
            channel < MAX_CHANNELS_USED,
        ensures
            final(self).wf(),
            final(self).levels@ == old(self).levels@.update(channel as int, level),
            final(self).wake_tasks@ == old(self).wake_tasks@,
            final(self).next_channel == old(self).next_channel,
    {
        self.levels.set(channel, level);
    }

    /// The edge interrupt: for each channel whose event flag is set in
    /// `events`, its slot is exchanged for `INVALID_TASK_ID` and the task
    /// that was in it, if any, is woken. A second edge before the task
    /// registers again therefore wakes nothing. A full ready queue is a
    /// fault.
    pub fn on_events(&mut self, events: &Vec<bool>, ex: &mut Executor) -> (r: Result<(), Fault>)
        requires
            old(self).wf(),
            old(ex).wf(),
            events@.len() == MAX_CHANNELS_USED,
        ensures
            final(self).wf(),
            final(ex).wf(),
            final(self).levels@ == old(self).levels@,
            final(self).next_channel == old(self).next_channel,
            (r is Ok) == (old(ex)@.len() + edge_wakes(old(self).wake_tasks@, events@, 2).len() <= READY_CAPACITY),
            r is Ok ==> {
                &&& final(self).wake_tasks@ == edge_slots(old(self).wake_tasks@, events@)
                &&& final(ex)@ == old(ex)@ + edge_wakes(old(self).wake_tasks@, events@, 2)
            },
    {
        let ghost slots = self.wake_tasks@;
        let ghost q = ex@;
        let mut channel: usize = 0;
        while channel < MAX_CHANNELS_USED
            invariant
                self.wf(),
                ex.wf(),
                slots == old(self).wake_tasks@,
                q == old(ex)@,
                self.levels@ == old(self).levels@,
                self.next_channel == old(self).next_channel,
                events@.len() == MAX_CHANNELS_USED,
                channel <= MAX_CHANNELS_USED,
                ex@ == q + edge_wakes(slots, events@, channel as int),
                slots.len() == MAX_CHANNELS_USED,
                forall|i: int| 0 <= i < MAX_CHANNELS_USED ==> #[trigger] self.wake_tasks@[i] == if i < channel
                    && events@[i] {
                    INVALID_TASK_ID
                } else {
                    slots[i]
                },
            decreases MAX_CHANNELS_USED - channel,
        {
            if events[channel] {
                let task_id = self.wake_tasks[channel];
                self.wake_tasks.set(channel, INVALID_TASK_ID);
                if task_id != INVALID_TASK_ID {
                    match wake_task(ex, task_id) {
                        Ok(()) => {},
                        Err(e) => {
                            proof { lemma_edge_wakes_grow(slots, events@, channel as int + 1, 2); }
                            return Err(e);
                        },
                    }
                }
            }
            channel = channel + 1;
        }
        proof {
            assert(self.wake_tasks@ =~= edge_slots(slots, events@));
        }
        Ok(())
    }
}

/// Edges that arrive again on channels that have already seen an edge,
/// before their tasks poll and register again, wake nothing: the first
/// edge exchanged each slot for `INVALID_TASK_ID`. So a task bound to a
/// channel is woken at most once however many edges arrive.
pub proof fn lemma_repeated_edges_wake_once(slots: Seq<usize>, first: Seq<bool>, second: Seq<bool>)
    requires
        slots.len() == MAX_CHANNELS_USED,
        first.len() == MAX_CHANNELS_USED,
        second.len() == MAX_CHANNELS_USED,
        forall|i: int| 0 <= i < MAX_CHANNELS_USED && #[trigger] second[i] ==> first[i],
    ensures
        edge_wakes(edge_slots(slots, first), second, MAX_CHANNELS_USED as int).len() == 0,
{
    let after = edge_slots(slots, first);
    assert(edge_wakes(after, second, 0).len() == 0);
    assert(edge_wakes(after, second, 1).len() == 0);
    assert(edge_wakes(after, second, 2).len() == 0);
}

/// Taking more channels never wakes fewer tasks.
proof fn lemma_edge_wakes_grow(slots: Seq<usize>, events: Seq<bool>, a: int, b: int)
    requires
        0 <= a <= b,
    ensures
        edge_wakes(slots, events, a).len() <= edge_wakes(slots, events, b).len(),
    decreases b - a,
{
    if a < b {
        lemma_edge_wakes_grow(slots, events, a, b - 1);
    }
}

/// One pin bound to one edge-detect channel, and the level at which it
/// counts as ready.
pub struct InputChannel {
    pub channel_id: usize,
    pub ready_state: PinLevel,
}

impl InputChannel {
    /// Claims the next unused channel, ready at the low level. `None` when
    /// all channels are bound.
    pub fn new(gpio: &mut GpioWake) -> (r: Option<InputChannel>)
        requires
            old(gpio).wf(),
        ensures
            final(gpio).wf(),
            final(gpio).wake_tasks@ == old(gpio).wake_tasks@,
            final(gpio).levels@ == old(gpio).levels@,
            old(gpio).next_channel < MAX_CHANNELS_USED ==> {
                &&& r == Some(InputChannel { channel_id: old(gpio).next_channel, ready_state: PinLevel::Low })
                &&& final(gpio).next_channel == old(gpio).next_channel + 1
            },
            old(gpio).next_channel >= MAX_CHANNELS_USED ==> r is None && final(gpio).next_channel
                == old(gpio).next_channel,
    {
        if gpio.next_channel < MAX_CHANNELS_USED {
            let channel_id = gpio.next_channel;
            gpio.next_channel = gpio.next_channel + 1;
            Some(InputChannel { channel_id, ready_state: PinLevel::Low })
        } else {
            None
        }
    }

    /// Sets the level at which the pin counts as ready.
    pub fn set_ready_state(&mut self, ready_state: PinLevel)
        ensures
            final(self).ready_state == ready_state,
            final(self).channel_id == old(self).channel_id,
    {
        self.ready_state = ready_state;
    }

    /// Ready at once if the pin is already at the ready level; otherwise
    /// `task_id` is stored in the channel's slot, for the edge interrupt to
    /// wake, and the poll is pending.
    pub fn poll(&self, task_id: usize, gpio: &mut GpioWake) -> (r: MicroPoll<()>)
        requires
            old(gpio).wf(),
            self.channel_id < MAX_CHANNELS_USED,
        ensures
            final(gpio).wf(),
            final(gpio).levels@ == old(gpio).levels@,
            final(gpio).next_channel == old(gpio).next_channel,
            old(gpio).levels@[self.channel_id as int] == self.ready_state ==> {
                &&& r is Ready
                &&& final(gpio).wake_tasks@ == old(gpio).wake_tasks@
            },
            old(gpio).levels@[self.channel_id as int] != self.ready_state ==> {
                &&& r is Pending
                &&& final(gpio).wake_tasks@ == old(gpio).wake_tasks@.update(self.channel_id as int, task_id)
            },
    {
        if gpio.levels[self.channel_id] == self.ready_state {
            MicroPoll::Ready(())
        } else {
            gpio.wake_tasks.set(self.channel_id, task_id);
            MicroPoll::Pending
        }
    }
}

impl MicroFuture<Runtime> for InputChannel {
    type Output = ();

    open spec fn env_wf(env: &Runtime) -> bool {
        env.wf()
    }

    fn poll(&mut self, task_id: usize, env: &mut Runtime) -> Result<MicroPoll<()>, Fault> {
        if self.channel_id < MAX_CHANNELS_USED {
            Ok(InputChannel::poll(self, task_id, &mut env.gpio))
        } else {
            Ok(MicroPoll::Pending)
        }
    }
}

} // verus!
