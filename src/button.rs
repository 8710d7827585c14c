use vstd::prelude::*;
use crate::channel::{queue_after_send, send_fits, sent, Channel, Sender};
use crate::future::{Fault, MicroPoll};
use crate::gpio::{GpioWake, InputChannel, PinLevel, MAX_CHANNELS_USED};
use crate::runtime::Runtime;
use crate::time::{deadline_registered, lemma_ticks_bound, outcome, Timer, TimerState};

verus! {

/// How many ticks presses are ignored for after one is reported.
pub const DEBOUNCE_TICKS: u64 = 100;

/// The event a button reports.
#[derive(Clone, Copy, Debug, PartialEq, Eq, Structural)]
pub enum ButtonDirection {
    Left,
    Right,
}

pub enum ButtonState {
    WaitForPress,
    Debounce(Timer),
    WaitForRelease,
}

/// Reports each press of one button on the mailbox, then ignores the pin
/// for the debounce period, then waits for the release before it arms
/// again. The pin reads low while pressed.
pub struct ButtonTask {
    pub input: InputChannel,
    pub direction: ButtonDirection,
    pub state: ButtonState,
    pub sender: Sender<ButtonDirection>,
}

/// The GPIO lines after a task waits on channel `ch`: its slot holds
/// `task_id`, all else is kept.
pub open spec fn gpio_waits(g0: GpioWake, g1: GpioWake, ch: usize, task_id: usize) -> bool {
    &&& g1.wake_tasks@ == g0.wake_tasks@.update(ch as int, task_id)
    &&& g1.levels@ == g0.levels@
    &&& g1.next_channel == g0.next_channel
}

/// The GPIO lines are untouched.
pub open spec fn gpio_kept(g0: GpioWake, g1: GpioWake) -> bool {
    &&& g1.wake_tasks@ == g0.wake_tasks@
    &&& g1.levels@ == g0.levels@
    &&& g1.next_channel == g0.next_channel
}

/// The ready queue and the deadlines are untouched.
pub open spec fn queues_kept(rt0: Runtime, rt1: Runtime) -> bool {
    &&& rt1.executor@ == rt0.executor@
    &&& rt1.deadlines@ == rt0.deadlines@
    &&& rt1.deadlines.compare == rt0.deadlines.compare
    &&& rt1.deadlines.compare_enabled == rt0.deadlines.compare_enabled
}

/// One poll of the button task `t0`, with runtime `rt0` and mailbox `c0`,
/// leaving `t1`, `rt1`, `c1` and result `r`. The pin's sampled level
/// decides, as does the debounce timer:
/// - waiting for a press, pin high: the task waits on the pin for a low level;
/// - waiting for a press, pin low: the direction is sent (waking the
///   receiver) and a debounce timer of `DEBOUNCE_TICKS` is started and
///   registered; a full ready queue or deadline heap is a fault;
/// - debouncing with a timer not yet registered: it is registered;
/// - debouncing before the timer's end: nothing changes;
/// - debouncing after it, or waiting for the release: with the pin low the
///   task waits on the pin for a high level; with the pin high it is armed
///   again and waits on the pin for a low level.
/// Nothing is sent except on a press, and every poll that succeeds is pending.
pub open spec fn button_polled(
    t0: ButtonTask,
    rt0: Runtime,
    c0: Channel<ButtonDirection>,
    task_id: usize,
    t1: ButtonTask,
    rt1: Runtime,
    c1: Channel<ButtonDirection>,
    r: Result<MicroPoll<()>, Fault>,
) -> bool {
    let ch = t0.input.channel_id;
    let level = rt0.gpio.levels@[ch as int];
    let now = rt0.ticker.ticks();
    &&& t1.input.channel_id == ch
    &&& t1.direction == t0.direction
    &&& r is Ok ==> r->Ok_0 is Pending
    &&& match t0.state {
        ButtonState::WaitForPress => if level == PinLevel::High {
            &&& r is Ok
            &&& t1.state is WaitForPress
            &&& t1.input.ready_state == PinLevel::Low
            &&& c1 == c0
            &&& gpio_waits(rt0.gpio, rt1.gpio, ch, task_id)
            &&& queues_kept(rt0, rt1)
        } else {
            let end = (now + DEBOUNCE_TICKS) as u64;
            &&& c1 == sent(c0, t0.direction)
            &&& t1.input.ready_state == PinLevel::Low
            &&& gpio_kept(rt0.gpio, rt1.gpio)
            &&& if send_fits(c0.task_id, rt0.executor@) {
                &&& deadline_registered(
                    rt0.deadlines,
                    rt0.ticker,
                    queue_after_send(c0.task_id, rt0.executor@),
                    rt1.deadlines,
                    rt1.executor@,
                    (end, task_id),
                    outcome(r),
                )
                &&& r is Ok ==> t1.state == ButtonState::Debounce(Timer { end_time: end, state: TimerState::Wait })
                &&& r is Err ==> t1.state == ButtonState::Debounce(Timer { end_time: end, state: TimerState::Init })
            } else {
                &&& r == Err::<MicroPoll<()>, Fault>(Fault::ReadyQueueFull)
                &&& t1.state is WaitForPress
                &&& queues_kept(rt0, rt1)
            }
        },
        ButtonState::Debounce(timer) => {
            &&& c1 == c0
            &&& match timer.state {
                TimerState::Init => {
                    &&& t1.input == t0.input
                    &&& gpio_kept(rt0.gpio, rt1.gpio)
                    &&& deadline_registered(
                        rt0.deadlines,
                        rt0.ticker,
                        rt0.executor@,
                        rt1.deadlines,
                        rt1.executor@,
                        (timer.end_time, task_id),
                        outcome(r),
                    )
                    &&& r is Ok ==> t1.state == ButtonState::Debounce(
                        Timer { end_time: timer.end_time, state: TimerState::Wait },
                    )
                    &&& r is Err ==> t1.state == t0.state
                },
                TimerState::Wait => if now < timer.end_time {
                    &&& r is Ok
                    &&& t1.state == t0.state
                    &&& t1.input == t0.input
                    &&& rt1 == rt0
                } else {
                    &&& released_or_waiting(t0, rt0, task_id, t1, rt1, r)
                },
            }
        },
        ButtonState::WaitForRelease => {
            &&& c1 == c0
            &&& released_or_waiting(t0, rt0, task_id, t1, rt1, r)
        },
    }
}

/// After the debounce period: with the pin still low the task waits on
/// it for a high level; with the pin high it is armed again and waits on
/// it for a low level.
pub open spec fn released_or_waiting(
    t0: ButtonTask,
    rt0: Runtime,
    task_id: usize,
    t1: ButtonTask,
    rt1: Runtime,
    r: Result<MicroPoll<()>, Fault>,
) -> bool {
    let ch = t0.input.channel_id;
    &&& r is Ok
    &&& gpio_waits(rt0.gpio, rt1.gpio, ch, task_id)
    &&& queues_kept(rt0, rt1)
    &&& if rt0.gpio.levels@[ch as int] == PinLevel::Low {
        &&& t1.state is WaitForRelease
        &&& t1.input.ready_state == PinLevel::High
    } else {
        &&& t1.state is WaitForPress
        &&& t1.input.ready_state == PinLevel::Low
    }
}

impl ButtonTask {
    pub open spec fn wf(&self) -> bool {
        self.input.channel_id < MAX_CHANNELS_USED
    }

    /// A task waiting for the first press, on the next unused GPIO
    /// channel. `None` when all channels are bound.
    pub fn new(direction: ButtonDirection, sender: Sender<ButtonDirection>, gpio: &mut GpioWake) -> (r: Option<ButtonTask>)
        requires
            old(gpio).wf(),
        ensures
            final(gpio).wf(),
            final(gpio).wake_tasks@ == old(gpio).wake_tasks@,
            final(gpio).levels@ == old(gpio).levels@,
            (r is Some) == (old(gpio).next_channel < MAX_CHANNELS_USED),
            r is Some ==> {
                let t = r->Some_0;
                &&& t.wf()
                &&& t.input.channel_id == old(gpio).next_channel
                &&& t.direction == direction
                &&& t.state is WaitForPress
                &&& final(gpio).next_channel == old(gpio).next_channel + 1
            },
    {
        match InputChannel::new(gpio) {
            Some(input) => Some(ButtonTask { input, direction, state: ButtonState::WaitForPress, sender }),
            None => None,
        }
    }

    /// Runs the state machine as far as the pin and the clock allow, and is
    /// pending. A press (pin low) seen while waiting for one sends the
    /// direction once and starts the debounce timer; while it runs nothing
    /// is sent; after it the task waits for the pin to read high, then for
    /// the next press. Whatever it waits on has `task_id` registered.
    pub fn poll(&mut self, task_id: usize, rt: &mut Runtime, channel: &mut Channel<ButtonDirection>) -> (r: Result<MicroPoll<()>, Fault>)
        requires
            old(self).wf(),
            old(rt).wf(),
        ensures
            final(self).wf(),
            final(rt).wf(),
            final(rt).ticker == old(rt).ticker,
            button_polled(*old(self), *old(rt), *old(channel), task_id, *final(self), *final(rt), *final(channel), r),
    {
        if let ButtonState::WaitForPress = self.state {
            self.input.set_ready_state(PinLevel::Low);
            match self.input.poll(task_id, &mut rt.gpio) {
                MicroPoll::Ready(_) => {
                    match self.sender.send(channel, self.direction, &mut rt.executor) {
                        Ok(()) => {},
                        Err(e) => {
                            return Err(e);
                        },
                    }
                    proof { lemma_ticks_bound(rt.ticker); }
                    let timer = Timer::new(DEBOUNCE_TICKS, &rt.ticker);
                    self.state = ButtonState::Debounce(timer);
                },
                MicroPoll::Pending => {
                    return Ok(MicroPoll::Pending);
                },
            }
        }
        if let ButtonState::Debounce(timer) = self.state {
            let mut timer = timer;
            let polled = timer.poll(task_id, rt);
            self.state = ButtonState::Debounce(timer);
            match polled {
                Ok(MicroPoll::Ready(_)) => {
                    self.state = ButtonState::WaitForRelease;
                },
                Ok(MicroPoll::Pending) => {
                    return Ok(MicroPoll::Pending);
                },
                Err(e) => {
                    return Err(e);
                },
            }
        }
        if let ButtonState::WaitForRelease = self.state {
            self.input.set_ready_state(PinLevel::High);
            match self.input.poll(task_id, &mut rt.gpio) {
                MicroPoll::Ready(_) => {
                    self.state = ButtonState::WaitForPress;
                },
                MicroPoll::Pending => {
                    return Ok(MicroPoll::Pending);
                },
            }
        }
        // The pin has just read high, so this registers for the next press.
        self.input.set_ready_state(PinLevel::Low);
        let _ = self.input.poll(task_id, &mut rt.gpio);
        Ok(MicroPoll::Pending)
    }
}

} // verus!
