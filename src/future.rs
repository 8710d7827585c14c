use vstd::prelude::*;

verus! {

/// Outcome of polling a unit of work.
pub enum MicroPoll<T> {
    Pending,
    Ready(T),
}

/// A fault that the runtime cannot recover from: a fixed capacity was
/// exceeded. The firmware halts on it.
#[derive(Clone, Copy, Debug, PartialEq, Eq, Structural)]
pub enum Fault {
    /// `wake_task` found the ready queue full.
    ReadyQueueFull,
    /// A timer found the deadline heap full.
    DeadlineHeapFull,
}

/// A cooperative unit of work. `poll` never blocks: when it returns
/// `Pending` it has arranged for `task_id` to be woken later through the
/// environment `E` it was handed.
pub trait MicroFuture<E> {
    type Output;

    /// What the environment must satisfy for a poll; every poll keeps it.
    spec fn env_wf(env: &E) -> bool;

    fn poll(&mut self, task_id: usize, env: &mut E) -> (r: Result<MicroPoll<Self::Output>, Fault>)
        requires
            Self::env_wf(old(env)),
        ensures
            Self::env_wf(final(env)),
    ;
}

} // verus!
