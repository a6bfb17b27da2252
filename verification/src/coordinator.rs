//! Hand-off between the interrupt handlers and the main loop.
//!
//! Three things happen to the shared state: the button interrupt records a
//! press, the timer interrupt samples the encoder and moves the counter, and
//! the main loop takes the recorded presses, bounds the counter and decides
//! whether the screen is due to be drawn. Each of them is one method of
//! [`InterruptCoordinator`]. The caller keeps the coordinator in a cell
//! guarded by a critical section, reads pins and clock, and acknowledges the
//! interrupts; it calls one method per event, so that no event sees another
//! half done.
//!
//! Times are milliseconds of a clock that does not run backwards. Should it
//! do so all the same, no time counts as elapsed.

use crate::encoder::{
    next_register, register_direction, sample_code, Direction, Encode, Hy040, State,
};
use vstd::prelude::*;

verus! {

/// Span after an accepted button interrupt in which further ones are
/// ignored.
pub const DEBOUNCE_MS: u64 = 200;

/// Shortest span between two drawings of the screen.
pub const DELAY_LOOP_MS: u64 = 10;

/// Period of the timer that samples the encoder.
pub const ENCODER_TIMER_MS: u64 = 5;

/// Smallest value at which the main loop leaves the counter.
pub const MIN_COUNTER: i32 = 0;

/// Largest value at which the main loop leaves the counter.
pub const MAX_COUNTER: i32 = 120;

/// What the main loop has to draw.
#[derive(Debug, Clone, Copy, PartialEq, Eq, Structural)]
pub struct Frame {
    /// Radius of the circle.
    pub radius: u32,
    /// Index of its colour in the palette.
    pub color: usize,
}

/// Time that passed from `since` to `now`.
pub open spec fn elapsed_ms(since: u64, now: u64) -> u64 {
    if now >= since {
        (now - since) as u64
    } else {
        0
    }
}

/// The counter after a step of the encoder. It wraps at the ends of its
/// range.
pub open spec fn counter_after(counter: i32, direction: Direction) -> i32 {
    match direction {
        Direction::Clockwise => if counter == i32::MAX {
            i32::MIN
        } else {
            (counter + 1) as i32
        },
        Direction::CounterClockwise => if counter == i32::MIN {
            i32::MAX
        } else {
            (counter - 1) as i32
        },
        Direction::Rest => counter,
    }
}

/// The value of the range from `MIN_COUNTER` to `MAX_COUNTER` that is
/// nearest to `counter`.
pub open spec fn bounded(counter: i32) -> i32 {
    if counter < MIN_COUNTER {
        MIN_COUNTER
    } else if counter > MAX_COUNTER {
        MAX_COUNTER
    } else {
        counter
    }
}

/// The shared state, as a value.
pub struct CoordinatorState {
    /// Register of the encoder.
    pub register: u8,
    /// Position counted from the steps of the encoder.
    pub counter: i32,
    /// A press of the boot button that the main loop has not taken yet.
    pub boot_pressed: bool,
    /// A press of the encoder's switch that the main loop has not taken yet.
    pub switch_pressed: bool,
    /// Time of the last button interrupt that was accepted.
    pub last_accepted_ms: u64,
    /// Time of the last drawing.
    pub last_redraw_ms: u64,
    /// Index of the current colour.
    pub color: usize,
    /// Number of colours in the palette.
    pub colors: usize,
}

impl CoordinatorState {
    /// Whether a button interrupt at `now_ms` is accepted: the debounce span
    /// since the last accepted one is over.
    pub open spec fn accepts(self, now_ms: u64) -> bool {
        elapsed_ms(self.last_accepted_ms, now_ms) >= DEBOUNCE_MS
    }

    /// The state after a button interrupt. One that is not accepted changes
    /// nothing; one that is accepted restarts the debounce span and records
    /// the pending presses.
    pub open spec fn after_button(self, now_ms: u64, boot_pending: bool, switch_pending: bool) -> Self {
        if self.accepts(now_ms) {
            CoordinatorState {
                boot_pressed: self.boot_pressed || boot_pending,
                switch_pressed: self.switch_pressed || switch_pending,
                last_accepted_ms: now_ms,
                ..self
            }
        } else {
            self
        }
    }

    /// The state after the two switches were polled: a press that either
    /// poll found is recorded.
    pub open spec fn after_switches(self, boot_pressed: bool, switch_pressed: bool) -> Self {
        CoordinatorState {
            boot_pressed: self.boot_pressed || boot_pressed,
            switch_pressed: self.switch_pressed || switch_pressed,
            ..self
        }
    }

    /// The direction that a sample of the encoder's lines stands for.
    pub open spec fn tick_direction(self, clk_high: bool, dt_high: bool) -> Direction {
        register_direction(next_register(self.register, clk_high, dt_high))
    }

    /// The state after a timer interrupt that sampled the encoder's lines.
    pub open spec fn after_tick(self, clk_high: bool, dt_high: bool) -> Self {
        CoordinatorState {
            register: next_register(self.register, clk_high, dt_high),
            counter: counter_after(self.counter, self.tick_direction(clk_high, dt_high)),
            ..self
        }
    }

    /// The counter as the main loop leaves it: back at zero after a press of
    /// the switch, and within its bounds.
    pub open spec fn settled_counter(self) -> i32 {
        bounded(if self.switch_pressed { 0 } else { self.counter })
    }

    /// The colour as the main loop leaves it: the next one of the palette
    /// after a press of the boot button.
    pub open spec fn settled_color(self) -> usize {
        if self.boot_pressed {
            if self.color + 1 < self.colors {
                (self.color + 1) as usize
            } else {
                0
            }
        } else {
            self.color
        }
    }

    /// Whether the screen is due to be drawn at `now_ms`.
    pub open spec fn redraw_due(self, now_ms: u64) -> bool {
        elapsed_ms(self.last_redraw_ms, now_ms) >= DELAY_LOOP_MS
    }

    /// What a pass of the main loop at `now_ms` draws, if anything.
    pub open spec fn frame(self, now_ms: u64) -> Option<Frame> {
        if self.redraw_due(now_ms) {
            Some(Frame { radius: self.settled_counter() as u32, color: self.settled_color() })
        } else {
            None
        }
    }

    /// The state after a pass of the main loop at `now_ms`.
    pub open spec fn after_main_loop(self, now_ms: u64) -> Self {
        CoordinatorState {
            counter: self.settled_counter(),
            boot_pressed: false,
            switch_pressed: false,
            last_redraw_ms: if self.redraw_due(now_ms) {
                now_ms
            } else {
                self.last_redraw_ms
            },
            color: self.settled_color(),
            ..self
        }
    }
}

/// The state shared between the interrupt handlers and the main loop.
#[derive(Debug)]
pub struct InterruptCoordinator {
    encoder: Hy040,
    counter: i32,
    boot_pressed: bool,
    switch_pressed: bool,
    last_accepted_ms: u64,
    last_redraw_ms: u64,
    color: usize,
    colors: usize,
}

impl View for InterruptCoordinator {
    type V = CoordinatorState;

    closed spec fn view(&self) -> CoordinatorState {
        CoordinatorState {
            register: self.encoder.register(),
            counter: self.counter,
            boot_pressed: self.boot_pressed,
            switch_pressed: self.switch_pressed,
            last_accepted_ms: self.last_accepted_ms,
            last_redraw_ms: self.last_redraw_ms,
            color: self.color,
            colors: self.colors,
        }
    }
}

fn elapsed(since: u64, now: u64) -> (span: u64)
    ensures
        span == elapsed_ms(since, now),
{
    if now >= since {
        now - since
    } else {
        0
    }
}

impl InterruptCoordinator {
    /// The state at start-up, at the time `now_ms`, with a palette of
    /// `colors` colours: the encoder at rest, the counter at zero, no press
    /// recorded, the first colour current. The debounce span and the span
    /// between drawings both start at `now_ms`. With an empty palette the
    /// colour stays at zero.
    pub fn new(now_ms: u64, colors: usize) -> (coordinator: Self)
        ensures
            coordinator@ == (CoordinatorState {
                register: crate::encoder::DEFAULT_STATE,
                counter: 0,
                boot_pressed: false,
                switch_pressed: false,
                last_accepted_ms: now_ms,
                last_redraw_ms: now_ms,
                color: 0,
                colors,
            }),
    {
        InterruptCoordinator {
            encoder: Hy040::new(),
            counter: 0,
            boot_pressed: false,
            switch_pressed: false,
            last_accepted_ms: now_ms,
            last_redraw_ms: now_ms,
            color: 0,
            colors,
        }
    }

    /// The button interrupt at `now_ms`. `boot_pending` and `switch_pending`
    /// say which of the two inputs raised it. Answers whether the interrupt
    /// was accepted.
    pub fn button_handler(&mut self, now_ms: u64, boot_pending: bool, switch_pending: bool) -> (accepted:
        bool)
        ensures
            accepted == old(self)@.accepts(now_ms),
            final(self)@ == old(self)@.after_button(now_ms, boot_pending, switch_pending),
    {
        if elapsed(self.last_accepted_ms, now_ms) < DEBOUNCE_MS {
            return false;
        }
        self.last_accepted_ms = now_ms;
        if boot_pending {
            self.boot_pressed = true;
        }
        if switch_pending {
            self.switch_pressed = true;
        }
        true
    }

    /// Records the presses that a poll of the two switches found. Polled
    /// switches come through a filter of their own, so that no debounce span
    /// applies here.
    pub fn switch_handler(&mut self, boot_pressed: bool, switch_pressed: bool)
        ensures
            final(self)@ == old(self)@.after_switches(boot_pressed, switch_pressed),
    {
        if boot_pressed {
            self.boot_pressed = true;
        }
        if switch_pressed {
            self.switch_pressed = true;
        }
    }

    /// The timer interrupt: takes in one sample of the encoder's lines and
    /// moves the counter by the step that it stands for.
    pub fn encoder_handler(&mut self, clk_high: bool, dt_high: bool) -> (direction: Direction)
        ensures
            direction == old(self)@.tick_direction(clk_high, dt_high),
            final(self)@ == old(self)@.after_tick(clk_high, dt_high),
    {
        let direction = self.encoder.encode(clk_high, dt_high);
        match direction {
            Direction::Clockwise => {
                self.counter = if self.counter == i32::MAX {
                    i32::MIN
                } else {
                    self.counter + 1
                };
            },
            Direction::CounterClockwise => {
                self.counter = if self.counter == i32::MIN {
                    i32::MAX
                } else {
                    self.counter - 1
                };
            },
            Direction::Rest => {},
        }
        direction
    }

    /// One pass of the main loop at `now_ms`: takes the recorded presses,
    /// bounds the counter, and answers with what to draw if the screen is
    /// due.
    pub fn main_loop(&mut self, now_ms: u64) -> (frame: Option<Frame>)
        ensures
            frame == old(self)@.frame(now_ms),
            final(self)@ == old(self)@.after_main_loop(now_ms),
    {
        if self.switch_pressed {
            self.counter = 0;
        }
        self.switch_pressed = false;
        if self.boot_pressed {
            self.color = if self.color < usize::MAX && self.color + 1 < self.colors {
                self.color + 1
            } else {
                0
            };
        }
        self.boot_pressed = false;
        if self.counter > MAX_COUNTER {
            self.counter = MAX_COUNTER;
        } else if self.counter < MIN_COUNTER {
            self.counter = MIN_COUNTER;
        }
        if elapsed(self.last_redraw_ms, now_ms) >= DELAY_LOOP_MS {
            self.last_redraw_ms = now_ms;
            Some(Frame { radius: self.counter as u32, color: self.color })
        } else {
            None
        }
    }

    /// The position counted from the steps of the encoder.
    pub fn counter(&self) -> (counter: i32)
        ensures
            counter == self@.counter,
    {
        self.counter
    }
}

/// The state after `ticks` timer interrupts that all found the same levels
/// on the encoder's lines.
pub open spec fn after_ticks(
    state: CoordinatorState,
    clk_high: bool,
    dt_high: bool,
    ticks: nat,
) -> CoordinatorState
    decreases ticks,
{
    if ticks == 0 {
        state
    } else {
        after_ticks(state, clk_high, dt_high, (ticks - 1) as nat).after_tick(clk_high, dt_high)
    }
}

/// Lines that keep their levels move the counter at the first sample at
/// most: every sample after it stands for rest.
pub proof fn lemma_steady_lines_step_once(
    state: CoordinatorState,
    clk_high: bool,
    dt_high: bool,
    ticks: nat,
)
    requires
        ticks >= 1,
    ensures
        after_ticks(state, clk_high, dt_high, ticks).counter == state.after_tick(
            clk_high,
            dt_high,
        ).counter,
        after_ticks(state, clk_high, dt_high, ticks).register % 4 == sample_code(clk_high, dt_high),
    decreases ticks,
{
    if ticks == 1 {
        assert(after_ticks(state, clk_high, dt_high, 0) == state);
    } else {
        let before = after_ticks(state, clk_high, dt_high, (ticks - 1) as nat);
        lemma_steady_lines_step_once(state, clk_high, dt_high, (ticks - 1) as nat);
        assert(before.tick_direction(clk_high, dt_high) == Direction::Rest);
    }
}

/// A pass of the main loop takes every recorded press: the next pass finds
/// none, and leaves counter and colour as they are.
pub proof fn lemma_presses_are_taken_once(state: CoordinatorState, first_ms: u64, second_ms: u64)
    ensures
        !state.after_main_loop(first_ms).boot_pressed,
        !state.after_main_loop(first_ms).switch_pressed,
        state.after_main_loop(first_ms).after_main_loop(second_ms).counter
            == state.after_main_loop(first_ms).counter,
        state.after_main_loop(first_ms).after_main_loop(second_ms).color == state.after_main_loop(
            first_ms,
        ).color,
{
}

/// The main loop leaves the counter within its bounds and the colour within
/// the palette, and draws with exactly these.
pub proof fn lemma_main_loop_bounds(state: CoordinatorState, now_ms: u64)
    ensures
        MIN_COUNTER <= state.after_main_loop(now_ms).counter <= MAX_COUNTER,
        state.color < state.colors ==> state.after_main_loop(now_ms).color < state.colors,
        state.frame(now_ms) matches Some(frame) ==> frame.radius == state.after_main_loop(
            now_ms,
        ).counter && frame.color == state.after_main_loop(now_ms).color,
{
}

/// After an accepted button interrupt, none is accepted until the debounce
/// span is over, and the first one after that is.
pub proof fn lemma_debounce_span(
    state: CoordinatorState,
    first_ms: u64,
    second_ms: u64,
    boot_pending: bool,
    switch_pending: bool,
)
    requires
        state.accepts(first_ms),
        first_ms <= second_ms,
    ensures
        state.after_button(first_ms, boot_pending, switch_pending).accepts(second_ms) <==> second_ms
            - first_ms >= DEBOUNCE_MS,
{
}

/// After a drawing, the screen is not due again until the span between
/// drawings is over.
pub proof fn lemma_redraw_span(state: CoordinatorState, first_ms: u64, second_ms: u64)
    requires
        state.redraw_due(first_ms),
        first_ms <= second_ms,
    ensures
        state.after_main_loop(first_ms).frame(second_ms) is Some <==> second_ms - first_ms
            >= DELAY_LOOP_MS,
{
}

} // verus!
