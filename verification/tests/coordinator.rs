use hl_driver::coordinator::{
    Frame, InterruptCoordinator, DEBOUNCE_MS, DELAY_LOOP_MS, MAX_COUNTER, MIN_COUNTER,
};
use hl_driver::encoder::Direction;

#[test]
fn three_steady_ticks_count_one_clockwise_step() {
    let mut coordinator = InterruptCoordinator::new(0, 3);
    assert_eq!(0, coordinator.counter());
    // Line A low, line B high, three times over.
    assert_eq!(Direction::Clockwise, coordinator.encoder_handler(false, true));
    assert_eq!(Direction::Rest, coordinator.encoder_handler(false, true));
    assert_eq!(Direction::Rest, coordinator.encoder_handler(false, true));
    assert_eq!(1, coordinator.counter());
}

#[test]
fn counter_follows_the_encoder_both_ways() {
    let mut coordinator = InterruptCoordinator::new(0, 3);
    for (clk_high, dt_high) in [(false, true), (false, false), (true, false), (true, true)] {
        assert_eq!(
            Direction::Clockwise,
            coordinator.encoder_handler(clk_high, dt_high)
        );
    }
    assert_eq!(4, coordinator.counter());
    for (clk_high, dt_high) in [(true, false), (false, false), (false, true), (true, true)] {
        assert_eq!(
            Direction::CounterClockwise,
            coordinator.encoder_handler(clk_high, dt_high)
        );
    }
    assert_eq!(0, coordinator.counter());
    assert_eq!(
        Direction::CounterClockwise,
        coordinator.encoder_handler(true, false)
    );
    assert_eq!(-1, coordinator.counter());
}

#[test]
fn main_loop_bounds_the_counter() {
    let mut coordinator = InterruptCoordinator::new(0, 3);
    coordinator.encoder_handler(true, false);
    assert_eq!(-1, coordinator.counter());
    coordinator.main_loop(0);
    assert_eq!(MIN_COUNTER, coordinator.counter());

    let turn = [(false, true), (false, false), (true, false), (true, true)];
    for tick in 0..130 {
        let (clk_high, dt_high) = turn[(tick + 1) % 4];
        coordinator.encoder_handler(clk_high, dt_high);
    }
    assert!(coordinator.counter() > MAX_COUNTER);
    coordinator.main_loop(0);
    assert_eq!(MAX_COUNTER, coordinator.counter());
    assert_eq!(120, coordinator.counter());
}

#[test]
fn screen_is_drawn_once_per_period() {
    let mut coordinator = InterruptCoordinator::new(1_000, 3);
    assert_eq!(None, coordinator.main_loop(1_000));
    assert_eq!(None, coordinator.main_loop(1_000 + DELAY_LOOP_MS - 1));
    assert_eq!(
        Some(Frame { radius: 0, color: 0 }),
        coordinator.main_loop(1_000 + DELAY_LOOP_MS)
    );
    assert_eq!(None, coordinator.main_loop(1_019));
    coordinator.encoder_handler(false, true);
    assert_eq!(
        Some(Frame { radius: 1, color: 0 }),
        coordinator.main_loop(1_020)
    );
}

#[test]
fn clock_that_runs_backwards_counts_as_no_time() {
    let mut coordinator = InterruptCoordinator::new(1_000, 3);
    assert_eq!(None, coordinator.main_loop(0));
    assert!(!coordinator.button_handler(0, true, true));
    assert_eq!(Some(Frame { radius: 0, color: 0 }), coordinator.main_loop(1_010));
}

#[test]
fn button_interrupts_inside_the_debounce_span_are_ignored() {
    let mut coordinator = InterruptCoordinator::new(0, 3);
    assert!(!coordinator.button_handler(DEBOUNCE_MS - 1, true, false));
    assert!(coordinator.button_handler(DEBOUNCE_MS, true, false));
    // Contact bounce right after the press.
    assert!(!coordinator.button_handler(DEBOUNCE_MS + 1, true, false));
    assert!(!coordinator.button_handler(2 * DEBOUNCE_MS - 1, true, false));
    assert_eq!(
        Some(Frame { radius: 0, color: 1 }),
        coordinator.main_loop(2 * DEBOUNCE_MS)
    );
    // The press was taken: the colour does not move again.
    assert_eq!(
        Some(Frame { radius: 0, color: 1 }),
        coordinator.main_loop(3 * DEBOUNCE_MS)
    );
}

#[test]
fn ignored_button_interrupt_records_nothing() {
    let mut coordinator = InterruptCoordinator::new(0, 3);
    assert!(!coordinator.button_handler(10, true, true));
    coordinator.encoder_handler(false, true);
    assert_eq!(Some(Frame { radius: 1, color: 0 }), coordinator.main_loop(10));
    // The debounce span still counts from the start.
    assert!(coordinator.button_handler(200, false, false));
}

#[test]
fn boot_button_walks_through_the_palette() {
    let mut coordinator = InterruptCoordinator::new(0, 3);
    let mut now = 0;
    for expected in [1, 2, 0, 1] {
        now += DEBOUNCE_MS;
        assert!(coordinator.button_handler(now, true, false));
        assert_eq!(
            Some(Frame {
                radius: 0,
                color: expected
            }),
            coordinator.main_loop(now)
        );
    }
}

#[test]
fn encoder_switch_resets_the_counter() {
    let mut coordinator = InterruptCoordinator::new(0, 3);
    coordinator.encoder_handler(false, true);
    coordinator.encoder_handler(false, false);
    assert_eq!(2, coordinator.counter());
    assert!(coordinator.button_handler(DEBOUNCE_MS, false, true));
    assert_eq!(2, coordinator.counter());
    assert_eq!(
        Some(Frame { radius: 0, color: 0 }),
        coordinator.main_loop(DEBOUNCE_MS)
    );
    assert_eq!(0, coordinator.counter());
    coordinator.encoder_handler(true, false);
    assert_eq!(1, coordinator.counter());
    // The press was taken once: the next pass keeps the counter.
    coordinator.main_loop(DEBOUNCE_MS + 1);
    assert_eq!(1, coordinator.counter());
}

#[test]
fn accepted_interrupt_without_a_pending_input_restarts_the_span_only() {
    let mut coordinator = InterruptCoordinator::new(0, 3);
    coordinator.encoder_handler(false, true);
    assert!(coordinator.button_handler(DEBOUNCE_MS, false, false));
    assert!(!coordinator.button_handler(DEBOUNCE_MS + 50, true, true));
    assert_eq!(
        Some(Frame { radius: 1, color: 0 }),
        coordinator.main_loop(DEBOUNCE_MS + 50)
    );
}
