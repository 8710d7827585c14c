use vstd::prelude::*;
use crate::button::ButtonDirection;
use crate::channel::{Channel, Receiver};
use crate::future::{Fault, MicroPoll};
use crate::runtime::Runtime;
use crate::time::{deadline_registered, lemma_ticks_bound, millis_to_ticks, ms_ticks, outcome, Timer, TimerState};

verus! {

/// Columns of the LED matrix.
pub const NUM_COLS: usize = 5;

/// How long each LED state lasts, in milliseconds.
pub const BLINK_MS: u64 = 500;

pub enum LedState {
    Toggle,
    Wait(Timer),
}

/// Blinks the LED of the active column every half second, and moves the
/// active column one step in the direction of each event received. The
/// column outputs are kept as levels (`true` for high, which turns the LED
/// off) for the firmware to write to the pins.
pub struct LedTask {
    pub col_high: Vec<bool>,
    pub active_col: usize,
    pub state: LedState,
    pub receiver: Receiver<ButtonDirection>,
}

/// The column one step from `col` in `direction`, wrapping at the edges.
pub open spec fn shifted(col: usize, direction: ButtonDirection) -> usize {
    match direction {
        ButtonDirection::Left => if col == 0 { (NUM_COLS - 1) as usize } else { (col - 1) as usize },
        ButtonDirection::Right => ((col + 1) % (NUM_COLS as int)) as usize,
    }
}

impl LedTask {
    pub open spec fn wf(&self) -> bool {
        &&& self.col_high@.len() == NUM_COLS
        &&& self.active_col < NUM_COLS
    }

    /// Column 0 active, about to blink, all columns at `col_high`.
    pub fn new(col_high: Vec<bool>, receiver: Receiver<ButtonDirection>) -> (r: LedTask)
        requires
            col_high@.len() == NUM_COLS,
        ensures
            r.wf(),
            r.col_high@ == col_high@,
            r.active_col == 0,
            r.state is Toggle,
    {
        LedTask { col_high, active_col: 0, state: LedState::Toggle, receiver }
    }

    /// Flips the active column's output.
    fn toggle(&mut self)
        requires
            old(self).wf(),
        ensures
            final(self).wf(),
            final(self).active_col == old(self).active_col,
            final(self).col_high@ == old(self).col_high@.update(
                old(self).active_col as int,
                !old(self).col_high@[old(self).active_col as int],
            ),
            final(self).state == old(self).state,
            final(self).receiver == old(self).receiver,
    {
        let level = self.col_high[self.active_col];
        self.col_high.set(self.active_col, !level);
    }

    /// Turns the active column off, moves one step in `direction`, and
    /// turns the new column off too, so that the next toggle lights it.
    pub fn shift(&mut self, direction: ButtonDirection)
        requires
            old(self).wf(),
        ensures
            final(self).wf(),
            final(self).active_col == shifted(old(self).active_col, direction),
            final(self).col_high@ == old(self).col_high@.update(old(self).active_col as int, true).update(
                final(self).active_col as int,
                true,
            ),
            final(self).state == old(self).state,
            final(self).receiver == old(self).receiver,
    {
        self.col_high.set(self.active_col, true);
        self.active_col = match direction {
            ButtonDirection::Left => if self.active_col == 0 {
                NUM_COLS - 1
            } else {
                self.active_col - 1
            },
            ButtonDirection::Right => (self.active_col + 1) % NUM_COLS,
        };
        self.col_high.set(self.active_col, true);
    }

    /// Toggles the active column and starts the blink timer.
    fn blink(&mut self, rt: &Runtime)
        requires
            old(self).wf(),
            rt.wf(),
        ensures
            final(self).wf(),
            final(self).active_col == old(self).active_col,
            final(self).col_high@ == old(self).col_high@.update(
                old(self).active_col as int,
                !old(self).col_high@[old(self).active_col as int],
            ),
            final(self).state is Wait,
            final(self).state->Wait_0.state is Init,
            final(self).state->Wait_0.end_time == rt.ticker.ticks() + ms_ticks(BLINK_MS),
            final(self).receiver == old(self).receiver,
    {
        self.toggle();
        proof { lemma_ticks_bound(rt.ticker); }
        self.state = LedState::Wait(Timer::new(millis_to_ticks(BLINK_MS), &rt.ticker));
    }

    /// In the waiting state: whether the blink timer has run out or an
    /// event has arrived (and the column been shifted). Either way the
    /// caller blinks next.
    fn wait_step(&mut self, task_id: usize, rt: &mut Runtime, channel: &mut Channel<ButtonDirection>) -> (r: Result<bool, Fault>)
        requires
            old(self).wf(),
            old(rt).wf(),
            old(self).state is Wait,
        ensures
            final(self).wf(),
            final(rt).wf(),
            final(rt).ticker == old(rt).ticker,
            final(self).state is Wait,
            old(self).state->Wait_0.state is Init && r is Ok ==> final(self).receiver.state is Wait,
            old(self).state->Wait_0.state is Init && r == Ok::<bool, Fault>(true) ==> final(channel).item is None,
            old(self).state->Wait_0.state is Init && (old(self).receiver.state is Init || old(channel).item is None)
                ==> r != Ok::<bool, Fault>(true),
            old(self).state->Wait_0.state is Init ==> {
                let end = old(self).state->Wait_0.end_time;
                &&& final(rt).gpio == old(rt).gpio
                &&& deadline_registered(
                    old(rt).deadlines,
                    old(rt).ticker,
                    old(rt).executor@,
                    final(rt).deadlines,
                    final(rt).executor@,
                    (end, task_id),
                    outcome(r),
                )
                &&& r is Ok ==> final(self).state == LedState::Wait(Timer { end_time: end, state: TimerState::Wait })
            },
            r != Ok::<bool, Fault>(true) ==> {
                &&& final(self).active_col == old(self).active_col
                &&& final(self).col_high@ == old(self).col_high@
            },
            old(self).state->Wait_0.state is Wait && old(rt).ticker.ticks() < old(self).state->Wait_0.end_time
                && old(self).receiver.state is Wait ==> {
                &&& *final(rt) == *old(rt)
                &&& match old(channel).item {
                    None => {
                        &&& r == Ok::<bool, Fault>(false)
                        &&& final(self).state == old(self).state
                        &&& *final(channel) == *old(channel)
                    },
                    Some(d) => {
                        &&& r == Ok::<bool, Fault>(true)
                        &&& final(self).active_col == shifted(old(self).active_col, d)
                        &&& final(self).col_high@ == old(self).col_high@.update(old(self).active_col as int, true).update(
                            shifted(old(self).active_col, d) as int,
                            true,
                        )
                        &&& final(channel).item is None
                        &&& final(self).receiver.state is Wait
                    },
                }
            },
    {
        if let LedState::Wait(timer) = self.state {
            let mut timer = timer;
            let polled = timer.poll(task_id, rt);
            self.state = LedState::Wait(timer);
            match polled {
                Ok(MicroPoll::Ready(_)) => {
                    return Ok(true);
                },
                Ok(MicroPoll::Pending) => {},
                Err(e) => {
                    return Err(e);
                },
            }
            match self.receiver.poll(task_id, channel) {
                MicroPoll::Ready(direction) => {
                    self.shift(direction);
                    Ok(true)
                },
                MicroPoll::Pending => Ok(false),
            }
        } else {
            Ok(false)
        }
    }

    /// Blinks whenever the timer has run out, shifts the active column on
    /// each received event, and is pending with the timer and the mailbox
    /// both registered for `task_id`.
    pub fn poll(&mut self, task_id: usize, rt: &mut Runtime, channel: &mut Channel<ButtonDirection>) -> (r: Result<MicroPoll<()>, Fault>)
        requires
            old(self).wf(),
            old(rt).wf(),
        ensures
            final(self).wf(),
            final(rt).wf(),
            final(rt).ticker == old(rt).ticker,
            r is Ok ==> r->Ok_0 is Pending && final(self).state is Wait,
            old(self).state is Wait && old(self).state->Wait_0.state is Wait && old(rt).ticker.ticks()
                < old(self).state->Wait_0.end_time && old(self).receiver.state is Wait ==> match old(channel).item {
                None => {
                    &&& r is Ok
                    &&& final(self).state == old(self).state
                    &&& final(self).active_col == old(self).active_col
                    &&& final(self).col_high@ == old(self).col_high@
                    &&& *final(rt) == *old(rt)
                    &&& *final(channel) == *old(channel)
                },
                Some(d) => {
                    let n = shifted(old(self).active_col, d);
                    let end = (old(rt).ticker.ticks() + ms_ticks(BLINK_MS)) as u64;
                    &&& final(self).active_col == n
                    &&& final(self).col_high@ == old(self).col_high@.update(old(self).active_col as int, true).update(
                        n as int,
                        false,
                    )
                    &&& deadline_registered(
                        old(rt).deadlines,
                        old(rt).ticker,
                        old(rt).executor@,
                        final(rt).deadlines,
                        final(rt).executor@,
                        (end, task_id),
                        outcome(r),
                    )
                    &&& r is Ok ==> final(self).state == LedState::Wait(
                        Timer { end_time: end, state: TimerState::Wait },
                    )
                },
            },
            old(self).state is Toggle && (old(self).receiver.state is Init || old(channel).item is None) ==> {
                let a = old(self).active_col;
                let end = (old(rt).ticker.ticks() + ms_ticks(BLINK_MS)) as u64;
                &&& final(self).active_col == a
                &&& final(self).col_high@ == old(self).col_high@.update(a as int, !old(self).col_high@[a as int])
                &&& deadline_registered(
                    old(rt).deadlines,
                    old(rt).ticker,
                    old(rt).executor@,
                    final(rt).deadlines,
                    final(rt).executor@,
                    (end, task_id),
                    outcome(r),
                )
                &&& r is Ok ==> final(self).state == LedState::Wait(Timer { end_time: end, state: TimerState::Wait })
            },
    {
        if let LedState::Wait(_) = self.state {
            match self.wait_step(task_id, rt, channel) {
                Ok(true) => {},
                Ok(false) => {
                    return Ok(MicroPoll::Pending);
                },
                Err(e) => {
                    return Err(e);
                },
            }
        }
        self.blink(rt);
        match self.wait_step(task_id, rt, channel) {
            Ok(true) => {},
            Ok(false) => {
                return Ok(MicroPoll::Pending);
            },
            Err(e) => {
                return Err(e);
            },
        }
        self.blink(rt);
        let again = self.wait_step(task_id, rt, channel);
        match again {
            Ok(progressed) => {
                assert(!progressed);
                Ok(MicroPoll::Pending)
            },
            Err(e) => Err(e),
        }
    }
}

} // verus!
