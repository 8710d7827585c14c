use vstd::prelude::*;
use core::marker::PhantomData;
use crate::executor::{wake_task, Executor, READY_CAPACITY};
use crate::future::{Fault, MicroFuture, MicroPoll};

verus! {

/// The single-slot mailbox: at most one unread item and at most one
/// registered receiving task. A send overwrites the slot.
pub struct Channel<T> {
    pub item: Option<T>,
    pub task_id: Option<usize>,
}

/// The sending half. It names no channel itself: the channel is handed to
/// each call, so that the one channel object is the only thing mutated.
pub struct Sender<T> {
    pub marker: PhantomData<T>,
}

pub enum ReceiverState {
    Init,
    Wait,
}

/// The receiving half: registers its task on the first poll, then takes
/// the item once one is there.
pub struct Receiver<T> {
    pub state: ReceiverState,
    pub marker: PhantomData<T>,
}

impl<T> Sender<T> {
    /// Sends `item` through `channel`, as `Channel::send` does.
    pub fn send(&self, channel: &mut Channel<T>, item: T, ex: &mut Executor) -> (r: Result<(), Fault>)
        requires
            old(ex).wf(),
        ensures
            final(ex).wf(),
            *final(channel) == sent(*old(channel), item),
            sent_wake(old(channel).task_id, old(ex)@, final(ex)@, r),
    {
        channel.send(item, ex)
    }
}

/// The channel after `item` is sent: the slot holds it, whatever it held
/// before; the registration stays.
pub open spec fn sent<T>(c: Channel<T>, item: T) -> Channel<T> {
    Channel { item: Some(item), task_id: c.task_id }
}

/// The channel after a receive: the slot is empty.
pub open spec fn received<T>(c: Channel<T>) -> Channel<T> {
    Channel { item: None, task_id: c.task_id }
}

/// Last write wins: of two items sent before a receive, the receive yields
/// the second, the first is lost, and the slot is empty afterwards, so a
/// further receive yields nothing.
pub proof fn lemma_last_write_wins<T>(c: Channel<T>, a: T, b: T)
    ensures
        sent(sent(c, a), b).item == Some(b),
        received(sent(sent(c, a), b)).item is None,
{
}

/// Whether a send can wake the registered task: none is registered, or
/// the ready queue has room.
pub open spec fn send_fits(task_id: Option<usize>, q: Seq<usize>) -> bool {
    task_id is None || q.len() < READY_CAPACITY
}

/// The ready queue after a send that fits.
pub open spec fn queue_after_send(task_id: Option<usize>, q: Seq<usize>) -> Seq<usize> {
    match task_id {
        Some(id) => q.push(id),
        None => q,
    }
}

/// What a send does to the ready queue: the registered task, if any, is
/// woken once; a full queue makes it a fault with the queue unchanged.
pub open spec fn sent_wake(task_id: Option<usize>, before: Seq<usize>, after: Seq<usize>, r: Result<(), Fault>) -> bool {
    match task_id {
        None => r is Ok && after == before,
        Some(id) => if before.len() < READY_CAPACITY {
            r is Ok && after == before.push(id)
        } else {
            r == Err::<(), Fault>(Fault::ReadyQueueFull) && after == before
        },
    }
}

impl<T> Receiver<T> {
    /// First poll: registers `task_id` with the channel and is pending.
    /// Later polls take the item if there is one. The registration is not
    /// renewed after the first poll: a send never clears it, so it stays in
    /// force until another receiver registers.
    pub fn poll(&mut self, task_id: usize, channel: &mut Channel<T>) -> (r: MicroPoll<T>)
        ensures
            match old(self).state {
                ReceiverState::Init => {
                    &&& r is Pending
                    &&& final(self).state is Wait
                    &&& final(channel).task_id == Some(task_id)
                    &&& final(channel).item == old(channel).item
                },
                ReceiverState::Wait => {
                    &&& final(self).state is Wait
                    &&& final(channel).task_id == old(channel).task_id
                    &&& final(channel).item is None
                    &&& match old(channel).item {
                        Some(v) => r == MicroPoll::Ready(v),
                        None => r is Pending,
                    }
                },
            },
    {
        match self.state {
            ReceiverState::Init => {
                channel.register(task_id);
                self.state = ReceiverState::Wait;
                MicroPoll::Pending
            },
            ReceiverState::Wait => match channel.receive() {
                Some(item) => MicroPoll::Ready(item),
                None => MicroPoll::Pending,
            },
        }
    }
}

impl<T> MicroFuture<Channel<T>> for Receiver<T> {
    type Output = T;

    open spec fn env_wf(env: &Channel<T>) -> bool {
        true
    }

    fn poll(&mut self, task_id: usize, env: &mut Channel<T>) -> Result<MicroPoll<T>, Fault> {
        Ok(Receiver::poll(self, task_id, env))
    }
}

impl<T> Channel<T> {
    /// An empty channel with no registered receiver.
    pub fn new() -> (r: Channel<T>)
        ensures
            r.item is None,
            r.task_id is None,
    {
        Channel { item: None, task_id: None }
    }

    pub fn get_sender(&self) -> (r: Sender<T>) {
        Sender { marker: PhantomData }
    }

    /// A receiver that has not polled yet.
    pub fn get_receiver(&self) -> (r: Receiver<T>)
        ensures
            r.state is Init,
    {
        Receiver { state: ReceiverState::Init, marker: PhantomData }
    }

    /// Overwrites the slot with `item`, dropping any unread item, then wakes
    /// the registered task, if any. The registration stays.
    pub fn send(&mut self, item: T, ex: &mut Executor) -> (r: Result<(), Fault>)
        requires
            old(ex).wf(),
        ensures
            final(ex).wf(),
            *final(self) == sent(*old(self), item),
            sent_wake(old(self).task_id, old(ex)@, final(ex)@, r),
    {
        self.item = Some(item);
        match self.task_id {
            Some(task_id) => wake_task(ex, task_id),
            None => Ok(()),
        }
    }

    /// Takes the item out of the slot, leaving it empty.
    pub fn receive(&mut self) -> (r: Option<T>)
        ensures
            r == old(self).item,
            *final(self) == received(*old(self)),
    {
        self.item.take()
    }

    /// Makes `task_id` the one task woken by sends, replacing any other.
    pub fn register(&mut self, task_id: usize)
        ensures
            final(self).task_id == Some(task_id),
            final(self).item == old(self).item,
    {
        self.task_id = Some(task_id);
    }
}

} // verus!
