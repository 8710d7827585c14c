use vstd::prelude::*;
use crate::executor::Executor;
use crate::future::Fault;
use crate::gpio::{GpioWake, PinLevel, INVALID_TASK_ID};
use crate::time::{wakeups_done, Deadlines, Ticker};

verus! {

/// Everything that tasks and interrupt handlers share: the ready queue, the
/// clock, the deadline scheduler and the GPIO wake lines. The firmware owns
/// one of these, created at boot before any task runs.
pub struct Runtime {
    pub executor: Executor,
    pub ticker: Ticker,
    pub deadlines: Deadlines,
    pub gpio: GpioWake,
}

impl Runtime {
    pub open spec fn wf(&self) -> bool {
        &&& self.executor.wf()
        &&& self.ticker.wf()
        &&& self.deadlines.wf()
        &&& self.gpio.wf()
    }

    /// The runtime at boot: clock at tick zero, nothing ready, nothing
    /// pending, no GPIO line bound.
    pub fn new() -> (r: Runtime)
        ensures
            r.wf(),
            r.executor@ == Seq::<usize>::empty(),
            r.ticker.ticks() == 0,
            r.deadlines@.len() == 0,
            !r.deadlines.compare_enabled,
            r.gpio.next_channel == 0,
            r.gpio.wake_tasks@ == seq![INVALID_TASK_ID, INVALID_TASK_ID],
            r.gpio.levels@ == seq![PinLevel::High, PinLevel::High],
    {
        Runtime {
            executor: Executor::new(),
            ticker: Ticker::init(),
            deadlines: Deadlines::new(),
            gpio: GpioWake::new(),
        }
    }

    /// The clock's interrupt (counter overflow or compare match): serves the
    /// deadlines that have come due and reprograms the compare register.
    pub fn on_rtc_event(&mut self) -> (r: Result<(), Fault>)
        requires
            old(self).wf(),
        ensures
            final(self).wf(),
            final(self).ticker == old(self).ticker,
            final(self).gpio == old(self).gpio,
            wakeups_done(
                old(self).deadlines@,
                old(self).deadlines.compare,
                old(self).deadlines.compare_enabled,
                old(self).ticker,
                old(self).executor@,
                final(self).deadlines,
                final(self).executor@,
                r,
            ),
    {
        self.deadlines.schedule_wakeups(&self.ticker, &mut self.executor)
    }
}

} // verus!
