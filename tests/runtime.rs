use micro_runtime::button::{ButtonDirection, ButtonState, ButtonTask};
use micro_runtime::channel::{Channel, Receiver};
use micro_runtime::executor::{wake_task, Executor};
use micro_runtime::future::{Fault, MicroFuture, MicroPoll};
use micro_runtime::gpio::{GpioWake, InputChannel, PinLevel, INVALID_TASK_ID};
use micro_runtime::led::{LedTask, NUM_COLS};
use micro_runtime::runtime::Runtime;
use micro_runtime::time::{sample_ticks, Ticker, Timer, COUNTER_PERIOD};

fn drain(ex: &mut Executor, n_tasks: usize) -> Vec<usize> {
    let mut out = Vec::new();
    while let Some(id) = ex.next_ready(n_tasks) {
        out.push(id);
    }
    out
}

fn is_pending<T>(p: &MicroPoll<T>) -> bool {
    matches!(p, MicroPoll::Pending)
}

#[test]
fn wake_queues_in_order() {
    let mut ex = Executor::new();
    assert!(wake_task(&mut ex, 2).is_ok());
    assert!(wake_task(&mut ex, 0).is_ok());
    assert!(wake_task(&mut ex, 2).is_ok());
    assert_eq!(drain(&mut ex, 3), vec![2, 0, 2]);
    assert_eq!(ex.next_ready(3), None);
}

#[test]
fn wake_on_full_queue_is_a_fault() {
    let mut ex = Executor::new();
    for id in 0..4 {
        assert!(wake_task(&mut ex, id).is_ok());
    }
    assert_eq!(wake_task(&mut ex, 9), Err(Fault::ReadyQueueFull));
    assert_eq!(drain(&mut ex, 10), vec![0, 1, 2, 3]);
}

#[test]
fn cold_start_seeds_every_task_once() {
    let mut ex = Executor::new();
    ex.seed(3);
    assert_eq!(drain(&mut ex, 3), vec![0, 1, 2]);
}

#[test]
fn cold_start_after_a_wake() {
    let mut ex = Executor::new();
    wake_task(&mut ex, 2).unwrap();
    ex.seed(3);
    assert_eq!(drain(&mut ex, 3), vec![2, 0, 1, 2]);
}

#[test]
fn out_of_range_ids_are_skipped() {
    let mut ex = Executor::new();
    wake_task(&mut ex, 7).unwrap();
    wake_task(&mut ex, 1).unwrap();
    wake_task(&mut ex, 3).unwrap();
    assert_eq!(ex.next_ready(2), Some(1));
    assert_eq!(ex.next_ready(2), None);
}

#[test]
fn mailbox_last_write_wins() {
    let mut ex = Executor::new();
    let mut channel: Channel<u32> = Channel::new();
    let sender = channel.get_sender();
    let mut receiver = channel.get_receiver();
    assert!(is_pending(&receiver.poll(0, &mut channel)));
    sender.send(&mut channel, 10, &mut ex).unwrap();
    sender.send(&mut channel, 20, &mut ex).unwrap();
    match receiver.poll(0, &mut channel) {
        MicroPoll::Ready(v) => assert_eq!(v, 20),
        MicroPoll::Pending => panic!("item expected"),
    }
    assert!(is_pending(&receiver.poll(0, &mut channel)));
}

#[test]
fn mailbox_receive_without_send_is_empty() {
    let mut channel: Channel<u8> = Channel::new();
    assert_eq!(channel.receive(), None);
    let mut receiver: Receiver<u8> = channel.get_receiver();
    assert!(is_pending(&receiver.poll(1, &mut channel)));
    assert!(is_pending(&receiver.poll(1, &mut channel)));
}

#[test]
fn send_wakes_registered_receiver_each_time() {
    let mut ex = Executor::new();
    let mut channel: Channel<u8> = Channel::new();
    channel.send(1, &mut ex).unwrap();
    assert_eq!(ex.next_ready(4), None);
    channel.register(2);
    channel.send(5, &mut ex).unwrap();
    channel.send(6, &mut ex).unwrap();
    assert_eq!(drain(&mut ex, 4), vec![2, 2]);
    assert_eq!(channel.receive(), Some(6));
    assert_eq!(channel.receive(), None);
}

#[test]
fn receiver_through_trait() {
    let mut ex = Executor::new();
    let mut channel: Channel<u8> = Channel::new();
    let mut receiver = channel.get_receiver();
    assert!(is_pending(&MicroFuture::poll(&mut receiver, 3, &mut channel).unwrap()));
    channel.send(4, &mut ex).unwrap();
    assert_eq!(drain(&mut ex, 4), vec![3]);
    assert!(matches!(MicroFuture::poll(&mut receiver, 3, &mut channel), Ok(MicroPoll::Ready(4))));
}

#[test]
fn clock_composes_overflow_and_counter() {
    let mut t = Ticker::init();
    assert_eq!(t.now(), 0);
    t.advance(COUNTER_PERIOD - 10);
    assert_eq!(t.ovf_count, 0);
    assert_eq!(t.counter, 0xFF_FFF6);
    let before = t.now();
    t.advance(20);
    assert_eq!(t.ovf_count, 1);
    assert_eq!(t.counter, 10);
    assert_eq!(t.now(), (1u64 << 24) | 10);
    assert!(t.now() > before);
}

#[test]
fn clock_is_monotonic_across_overflow() {
    let mut t = Ticker::init();
    let mut last = t.now();
    for _ in 0..40 {
        t.advance(COUNTER_PERIOD / 7);
        let now = t.now();
        assert!(now >= last);
        last = now;
    }
    assert!(t.ovf_count >= 5);
}

#[test]
fn sample_across_overflow_is_retried() {
    assert_eq!(sample_ticks(3, 0x12, 3), Some((3u64 << 24) | 0x12));
    assert_eq!(sample_ticks(3, 0xFF_FFFF, 4), None);
    assert_eq!(sample_ticks(0, 0, 0), Some(0));
}

fn register_at(rt: &mut Runtime, deadline: u64, task_id: usize) -> Result<(), Fault> {
    rt.deadlines.register(deadline, task_id, &rt.ticker, &mut rt.executor)
}

#[test]
fn deadlines_wake_in_tick_order() {
    let mut rt = Runtime::new();
    register_at(&mut rt, 500, 2).unwrap();
    register_at(&mut rt, 100, 0).unwrap();
    register_at(&mut rt, 300, 1).unwrap();
    rt.ticker.advance(600);
    rt.on_rtc_event().unwrap();
    assert_eq!(drain(&mut rt.executor, 3), vec![0, 1, 2]);
    assert!(!rt.deadlines.compare_enabled);
}

#[test]
fn deadlines_wake_in_tick_order_other_registration_order() {
    let mut rt = Runtime::new();
    register_at(&mut rt, 300, 1).unwrap();
    register_at(&mut rt, 500, 2).unwrap();
    register_at(&mut rt, 100, 0).unwrap();
    let mut woken = Vec::new();
    for _ in 0..6 {
        rt.ticker.advance(100);
        rt.on_rtc_event().unwrap();
        woken.extend(drain(&mut rt.executor, 3));
    }
    assert_eq!(woken, vec![0, 1, 2]);
}

#[test]
fn comparator_follows_next_deadline() {
    let mut rt = Runtime::new();
    register_at(&mut rt, 500, 2).unwrap();
    assert!(rt.deadlines.compare_enabled);
    assert_eq!(rt.deadlines.compare, 500);
    register_at(&mut rt, 100, 0).unwrap();
    assert_eq!(rt.deadlines.compare, 100);
    register_at(&mut rt, 300, 1).unwrap();
    assert_eq!(rt.deadlines.compare, 100);
    rt.ticker.advance(150);
    rt.on_rtc_event().unwrap();
    assert_eq!(drain(&mut rt.executor, 3), vec![0]);
    assert!(rt.deadlines.compare_enabled);
    assert_eq!(rt.deadlines.compare, 300);
    rt.ticker.advance(200);
    rt.on_rtc_event().unwrap();
    assert_eq!(drain(&mut rt.executor, 3), vec![1]);
    assert_eq!(rt.deadlines.compare, 500);
    rt.ticker.advance(200);
    rt.on_rtc_event().unwrap();
    assert_eq!(drain(&mut rt.executor, 3), vec![2]);
    assert!(!rt.deadlines.compare_enabled);
}

#[test]
fn past_deadline_wakes_at_registration() {
    let mut rt = Runtime::new();
    rt.ticker.advance(1000);
    register_at(&mut rt, 400, 1).unwrap();
    assert_eq!(drain(&mut rt.executor, 2), vec![1]);
    assert!(!rt.deadlines.compare_enabled);
}

#[test]
fn deadline_in_later_epoch_is_parked() {
    let mut rt = Runtime::new();
    let far = 2 * COUNTER_PERIOD + 5;
    register_at(&mut rt, far, 1).unwrap();
    assert!(!rt.deadlines.compare_enabled);
    rt.ticker.advance(COUNTER_PERIOD);
    rt.on_rtc_event().unwrap();
    assert_eq!(rt.executor.next_ready(2), None);
    rt.ticker.advance(COUNTER_PERIOD);
    rt.on_rtc_event().unwrap();
    assert_eq!(rt.executor.next_ready(2), None);
    assert!(rt.deadlines.compare_enabled);
    assert_eq!(rt.deadlines.compare, 5);
    rt.ticker.advance(5);
    rt.on_rtc_event().unwrap();
    assert_eq!(drain(&mut rt.executor, 2), vec![1]);
    assert!(!rt.deadlines.compare_enabled);
}

#[test]
fn deadline_heap_full_is_a_fault() {
    let mut rt = Runtime::new();
    for i in 0..8 {
        register_at(&mut rt, 1000 + i as u64, i).unwrap();
    }
    assert_eq!(register_at(&mut rt, 50, 9), Err(Fault::DeadlineHeapFull));
    assert_eq!(rt.deadlines.compare, 1000);
}

#[test]
fn firing_more_than_queue_holds_is_a_fault() {
    let mut rt = Runtime::new();
    for i in 0..5 {
        register_at(&mut rt, 100 + i as u64, i).unwrap();
    }
    rt.ticker.advance(200);
    assert_eq!(rt.on_rtc_event(), Err(Fault::ReadyQueueFull));
}

#[test]
fn timer_pending_until_duration_elapsed() {
    let mut rt = Runtime::new();
    let mut timer = Timer::new(500, &rt.ticker);
    assert_eq!(timer.end_time, 500);
    assert!(is_pending(&timer.poll(0, &mut rt).unwrap()));
    for _ in 0..4 {
        rt.ticker.advance(100);
        assert!(is_pending(&timer.poll(0, &mut rt).unwrap()));
    }
    rt.ticker.advance(100);
    assert_eq!(rt.ticker.now(), 500);
    assert!(matches!(timer.poll(0, &mut rt), Ok(MicroPoll::Ready(()))));
    rt.ticker.advance(100);
    assert!(matches!(timer.poll(0, &mut rt), Ok(MicroPoll::Ready(()))));
}

#[test]
fn timer_registration_wakes_task_when_due() {
    let mut rt = Runtime::new();
    let mut timer = Timer::new(500, &rt.ticker);
    assert!(is_pending(&MicroFuture::poll(&mut timer, 1, &mut rt).unwrap()));
    assert_eq!(rt.deadlines.compare, 500);
    rt.ticker.advance(500);
    rt.on_rtc_event().unwrap();
    assert_eq!(drain(&mut rt.executor, 2), vec![1]);
    assert!(matches!(timer.poll(1, &mut rt), Ok(MicroPoll::Ready(()))));
}

#[test]
fn gpio_channels_run_out() {
    let mut gpio = GpioWake::new();
    assert_eq!(InputChannel::new(&mut gpio).map(|c| c.channel_id), Some(0));
    assert_eq!(InputChannel::new(&mut gpio).map(|c| c.channel_id), Some(1));
    assert!(InputChannel::new(&mut gpio).is_none());
}

#[test]
fn gpio_ready_level_needs_no_registration() {
    let mut gpio = GpioWake::new();
    let mut input = InputChannel::new(&mut gpio).unwrap();
    input.set_ready_state(PinLevel::High);
    assert!(matches!(input.poll(4, &mut gpio), MicroPoll::Ready(())));
    assert_eq!(gpio.wake_tasks[0], INVALID_TASK_ID);
    input.set_ready_state(PinLevel::Low);
    assert!(is_pending(&input.poll(4, &mut gpio)));
    assert_eq!(gpio.wake_tasks[0], 4);
}

#[test]
fn gpio_repeated_edges_wake_once() {
    let mut ex = Executor::new();
    let mut gpio = GpioWake::new();
    let _first = InputChannel::new(&mut gpio).unwrap();
    let second = InputChannel::new(&mut gpio).unwrap();
    assert!(is_pending(&second.poll(2, &mut gpio)));
    gpio.set_level(1, PinLevel::Low);
    gpio.on_events(&vec![false, true], &mut ex).unwrap();
    gpio.set_level(1, PinLevel::High);
    gpio.on_events(&vec![false, true], &mut ex).unwrap();
    gpio.on_events(&vec![true, true], &mut ex).unwrap();
    assert_eq!(drain(&mut ex, 4), vec![2]);
    assert_eq!(gpio.wake_tasks[1], INVALID_TASK_ID);
}

#[test]
fn gpio_edges_on_both_channels() {
    let mut ex = Executor::new();
    let mut gpio = GpioWake::new();
    let a = InputChannel::new(&mut gpio).unwrap();
    let b = InputChannel::new(&mut gpio).unwrap();
    assert!(is_pending(&b.poll(3, &mut gpio)));
    assert!(is_pending(&a.poll(1, &mut gpio)));
    gpio.on_events(&vec![true, true], &mut ex).unwrap();
    assert_eq!(drain(&mut ex, 4), vec![1, 3]);
}

#[test]
fn gpio_edge_with_full_queue_is_a_fault() {
    let mut ex = Executor::new();
    ex.seed(4);
    let mut gpio = GpioWake::new();
    let a = InputChannel::new(&mut gpio).unwrap();
    assert!(is_pending(&a.poll(1, &mut gpio)));
    assert_eq!(gpio.on_events(&vec![true, false], &mut ex), Err(Fault::ReadyQueueFull));
}

#[test]
fn debounce_reports_one_press_then_rearms() {
    let mut rt = Runtime::new();
    let mut channel: Channel<ButtonDirection> = Channel::new();
    let sender = channel.get_sender();
    let mut task = ButtonTask::new(ButtonDirection::Left, sender, &mut rt.gpio).unwrap();
    let ch = task.input.channel_id;

    // Released: nothing to report, the task waits on the pin.
    assert!(is_pending(&task.poll(0, &mut rt, &mut channel).unwrap()));
    assert_eq!(rt.gpio.wake_tasks[ch], 0);
    assert_eq!(channel.item, None);

    // Press: one event, then the debounce timer.
    rt.gpio.set_level(ch, PinLevel::Low);
    rt.gpio.on_events(&vec![true, false], &mut rt.executor).unwrap();
    assert_eq!(drain(&mut rt.executor, 1), vec![0]);
    assert!(is_pending(&task.poll(0, &mut rt, &mut channel).unwrap()));
    assert_eq!(channel.item, Some(ButtonDirection::Left));
    assert!(matches!(task.state, ButtonState::Debounce(_)));
    channel.receive();

    // Bouncing during the debounce period sends nothing.
    for _ in 0..3 {
        rt.ticker.advance(10);
        rt.gpio.set_level(ch, PinLevel::High);
        assert!(is_pending(&task.poll(0, &mut rt, &mut channel).unwrap()));
        rt.gpio.set_level(ch, PinLevel::Low);
        assert!(is_pending(&task.poll(0, &mut rt, &mut channel).unwrap()));
    }
    rt.ticker.advance(69);
    assert!(is_pending(&task.poll(0, &mut rt, &mut channel).unwrap()));
    assert_eq!(channel.item, None);
    assert!(matches!(task.state, ButtonState::Debounce(_)));

    // The debounce period ends at tick 100; still pressed, so it waits for
    // release.
    rt.ticker.advance(1);
    rt.on_rtc_event().unwrap();
    assert_eq!(drain(&mut rt.executor, 1), vec![0]);
    assert!(is_pending(&task.poll(0, &mut rt, &mut channel).unwrap()));
    assert!(matches!(task.state, ButtonState::WaitForRelease));
    assert_eq!(channel.item, None);

    // Release re-arms; the next press is reported again.
    rt.gpio.set_level(ch, PinLevel::High);
    assert!(is_pending(&task.poll(0, &mut rt, &mut channel).unwrap()));
    assert!(matches!(task.state, ButtonState::WaitForPress));
    assert_eq!(channel.item, None);
    rt.gpio.set_level(ch, PinLevel::Low);
    assert!(is_pending(&task.poll(0, &mut rt, &mut channel).unwrap()));
    assert_eq!(channel.item, Some(ButtonDirection::Left));
}

#[test]
fn debounce_period_is_one_hundred_ticks() {
    let mut rt = Runtime::new();
    rt.ticker.advance(1000);
    let mut channel: Channel<ButtonDirection> = Channel::new();
    let mut task = ButtonTask::new(ButtonDirection::Right, channel.get_sender(), &mut rt.gpio).unwrap();
    rt.gpio.set_level(task.input.channel_id, PinLevel::Low);
    task.poll(0, &mut rt, &mut channel).unwrap();
    match task.state {
        ButtonState::Debounce(timer) => assert_eq!(timer.end_time, 1000 + 100),
        _ => panic!("debounce expected"),
    }
    assert_eq!(rt.deadlines.compare, 1000 + 100);
}

#[test]
fn press_with_full_ready_queue_is_a_fault() {
    let mut rt = Runtime::new();
    let mut channel: Channel<ButtonDirection> = Channel::new();
    channel.register(2);
    let mut task = ButtonTask::new(ButtonDirection::Left, channel.get_sender(), &mut rt.gpio).unwrap();
    rt.executor.seed(4);
    rt.gpio.set_level(task.input.channel_id, PinLevel::Low);
    assert_eq!(task.poll(0, &mut rt, &mut channel).err(), Some(Fault::ReadyQueueFull));
    assert!(matches!(task.state, ButtonState::WaitForPress));
    assert_eq!(channel.item, Some(ButtonDirection::Left));
}

#[test]
fn press_wakes_receiver_and_registers_debounce() {
    let mut rt = Runtime::new();
    let mut channel: Channel<ButtonDirection> = Channel::new();
    channel.register(2);
    let mut task = ButtonTask::new(ButtonDirection::Right, channel.get_sender(), &mut rt.gpio).unwrap();
    rt.gpio.set_level(task.input.channel_id, PinLevel::Low);
    assert!(is_pending(&task.poll(1, &mut rt, &mut channel).unwrap()));
    assert_eq!(drain(&mut rt.executor, 3), vec![2]);
    assert!(rt.deadlines.compare_enabled);
    assert_eq!(rt.deadlines.compare, 100);
    rt.ticker.advance(100);
    rt.on_rtc_event().unwrap();
    assert_eq!(drain(&mut rt.executor, 3), vec![1]);
}

#[test]
fn clock_catches_up_but_never_goes_back() {
    let mut t = Ticker::init();
    t.catch_up(2, 7);
    assert_eq!(t.now(), (2u64 << 24) | 7);
    t.catch_up(1, 0xFF_FFFF);
    assert_eq!(t.now(), (2u64 << 24) | 7);
    t.catch_up(2, 8);
    assert_eq!(t.counter, 8);
}

#[test]
fn led_shift_wraps_at_edges() {
    let channel: Channel<ButtonDirection> = Channel::new();
    let mut led = LedTask::new(vec![false; NUM_COLS], channel.get_receiver());
    led.shift(ButtonDirection::Left);
    assert_eq!(led.active_col, 4);
    assert_eq!(led.col_high, vec![true, false, false, false, true]);
    led.shift(ButtonDirection::Right);
    assert_eq!(led.active_col, 0);
    led.shift(ButtonDirection::Right);
    assert_eq!(led.active_col, 1);
}

#[test]
fn led_blinks_every_half_second() {
    let mut rt = Runtime::new();
    let mut channel: Channel<ButtonDirection> = Channel::new();
    let mut led = LedTask::new(vec![true; NUM_COLS], channel.get_receiver());
    assert!(is_pending(&led.poll(0, &mut rt, &mut channel).unwrap()));
    assert_eq!(led.col_high, vec![false, true, true, true, true]);
    assert_eq!(rt.deadlines.compare, 16384);
    rt.ticker.advance(16384);
    rt.on_rtc_event().unwrap();
    assert_eq!(drain(&mut rt.executor, 1), vec![0]);
    assert!(is_pending(&led.poll(0, &mut rt, &mut channel).unwrap()));
    assert_eq!(led.col_high, vec![true; NUM_COLS]);
    assert_eq!(rt.deadlines.compare, 32768);
}

#[test]
fn led_moves_on_button_event() {
    let mut rt = Runtime::new();
    let mut channel: Channel<ButtonDirection> = Channel::new();
    let sender = channel.get_sender();
    let mut led = LedTask::new(vec![true; NUM_COLS], channel.get_receiver());
    led.poll(0, &mut rt, &mut channel).unwrap();
    sender.send(&mut channel, ButtonDirection::Right, &mut rt.executor).unwrap();
    assert_eq!(drain(&mut rt.executor, 1), vec![0]);
    assert!(is_pending(&led.poll(0, &mut rt, &mut channel).unwrap()));
    assert_eq!(led.active_col, 1);
    assert_eq!(led.col_high, vec![true, false, true, true, true]);
    assert_eq!(channel.item, None);
}
