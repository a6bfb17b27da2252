//! Direction of a rotary quadrature encoder.
//!
//! The decoder keeps the last two samples of the two lines in a four-bit
//! register: the older sample in bits 3 and 2, the newer one in bits 1 and
//! 0. Within a sample, line A (the clock line) is the higher bit and line B
//! (the data line) the lower one. A register whose two samples are one step
//! apart on the Gray-code cycle of the encoder stands for a rotation; every
//! other register stands for rest.

use crate::switch::{Pressable, SwitchError, SwitchState};
use vstd::prelude::*;

verus! {

/// The register of an encoder at rest with both lines high.
pub const DEFAULT_STATE: u8 = 0b11;

/// The direction in which an encoder is being turned.
#[derive(Debug, Clone, Copy, PartialEq, Eq, Structural)]
pub enum Direction {
    CounterClockwise,
    Clockwise,
    Rest,
}

/// A sample of the two lines as a number: line A counts two, line B one.
pub open spec fn sample_code(clk_high: bool, dt_high: bool) -> int {
    (if clk_high { 2int } else { 0int }) + (if dt_high { 1int } else { 0int })
}

/// The register after one more sample: the newer sample becomes the older
/// one, and what was older is dropped.
pub open spec fn next_register(register: u8, clk_high: bool, dt_high: bool) -> u8 {
    ((register % 4) * 4 + sample_code(clk_high, dt_high)) as u8
}

/// The direction that a register stands for.
pub open spec fn register_direction(register: u8) -> Direction {
    if register == 13 || register == 4 || register == 2 || register == 11 {
        Direction::Clockwise
    } else if register == 14 || register == 8 || register == 1 || register == 7 {
        Direction::CounterClockwise
    } else {
        Direction::Rest
    }
}

/// The sample that follows `sample` when the encoder turns clockwise.
pub open spec fn clockwise_successor(sample: int) -> int {
    if sample == 3 {
        1
    } else if sample == 1 {
        0
    } else if sample == 0 {
        2
    } else {
        3
    }
}

/// A register stands for a clockwise step exactly when its newer sample
/// follows its older one on the clockwise cycle, for a counterclockwise step
/// exactly when the older follows the newer, and for rest in every other
/// case: when the samples are equal, when both lines changed at once, and
/// when the register holds more than two samples.
pub proof fn lemma_direction_is_gray_step(register: u8)
    ensures
        register_direction(register) == (if register < 16 && register % 4 == clockwise_successor(
            register as int / 4,
        ) {
            Direction::Clockwise
        } else if register < 16 && register as int / 4 == clockwise_successor(register as int % 4) {
            Direction::CounterClockwise
        } else {
            Direction::Rest
        }),
{
}

/// The same sample twice in a row stands for rest.
pub proof fn lemma_repeated_sample_rests(register: u8, clk_high: bool, dt_high: bool)
    ensures
        register_direction(
            next_register(next_register(register, clk_high, dt_high), clk_high, dt_high),
        ) == Direction::Rest,
{
}

proof fn lemma_shifted_register(register: u8, sample: u8)
    by (bit_vector)
    requires
        sample < 4,
    ensures
        ((register << 2) | sample) & 0x0F == (register % 4) * 4 + sample,
{
}

/// Access to the register of a decoder.
pub trait State {
    /// The register.
    spec fn register(&self) -> u8;

    /// Reads the register.
    fn state(&self) -> (state: u8)
        ensures
            state == self.register(),
    ;

    /// Overwrites the register and hands back what it held.
    fn set_state(&mut self, state: u8) -> (previous: u8)
        ensures
            previous == old(self).register(),
            final(self).register() == state,
    ;
}

/// A decoder of rotation.
pub trait Encode: State {
    /// Takes in one sample of the two lines (`true` for a high level of the
    /// clock line A and of the data line B) and answers with the direction
    /// that it stands for after the sample before it.
    fn encode(&mut self, clk_high: bool, dt_high: bool) -> (direction: Direction)
        ensures
            final(self).register() == next_register(old(self).register(), clk_high, dt_high),
            direction == register_direction(final(self).register()),
    ;
}

/// A rotary encoder without a switch.
#[derive(Debug, PartialEq, Eq)]
pub struct Hy040 {
    state: u8,
}

impl Hy040 {
    /// A decoder whose last sample found both lines high.
    pub fn new() -> (encoder: Self)
        ensures
            encoder.register() == DEFAULT_STATE,
    {
        Hy040 { state: DEFAULT_STATE }
    }

    /// Adds a switch to the encoder.
    pub fn with_switch<SW: Pressable>(self, sw: SW) -> (encoder: Hy040WithSwitch<SW>)
        ensures
            encoder.register() == self.register(),
            encoder.switch() == sw,
    {
        Hy040WithSwitch { encoder: self, switch: sw }
    }
}

impl State for Hy040 {
    closed spec fn register(&self) -> u8 {
        self.state
    }

    fn state(&self) -> (state: u8) {
        self.state
    }

    fn set_state(&mut self, state: u8) -> (previous: u8) {
        let previous = self.state;
        self.state = state;
        previous
    }
}

impl Encode for Hy040 {
    fn encode(&mut self, clk_high: bool, dt_high: bool) -> (direction: Direction) {
        let sample: u8 = match (clk_high, dt_high) {
            (true, true) => 3,
            (true, false) => 2,
            (false, true) => 1,
            (false, false) => 0,
        };
        proof {
            lemma_shifted_register(self.state, sample);
        }
        let current_state = ((self.state << 2) | sample) & 0x0F;
        self.state = current_state;
        match current_state {
            13 | 4 | 2 | 11 => Direction::Clockwise,
            14 | 8 | 1 | 7 => Direction::CounterClockwise,
            _ => Direction::Rest,
        }
    }
}

/// A rotary encoder with a switch.
#[derive(Debug, PartialEq, Eq)]
pub struct Hy040WithSwitch<SW: Pressable> {
    encoder: Hy040,
    switch: SW,
}

impl<SW: Pressable> Hy040WithSwitch<SW> {
    /// The switch of the encoder.
    pub closed spec fn switch(&self) -> SW {
        self.switch
    }
}

impl<SW: Pressable> State for Hy040WithSwitch<SW> {
    closed spec fn register(&self) -> u8 {
        self.encoder.state
    }

    fn state(&self) -> (state: u8) {
        self.encoder.state()
    }

    /// Leaves the switch as it is.
    fn set_state(&mut self, state: u8) -> (previous: u8)
        ensures
            final(self).switch() == old(self).switch(),
    {
        self.encoder.set_state(state)
    }
}

impl<SW: Pressable> Encode for Hy040WithSwitch<SW> {
    /// Leaves the switch as it is.
    fn encode(&mut self, clk_high: bool, dt_high: bool) -> (direction: Direction)
        ensures
            final(self).switch() == old(self).switch(),
    {
        self.encoder.encode(clk_high, dt_high)
    }
}

impl<SW: Pressable> Pressable for Hy040WithSwitch<SW> {
    open spec fn last_state(&self) -> SwitchState {
        self.switch().last_state()
    }

    open spec fn state_after(&self, reading: Option<bool>) -> SwitchState {
        self.switch().state_after(reading)
    }

    closed spec fn sampled(&self, reading: Option<bool>) -> Self {
        Hy040WithSwitch { encoder: self.encoder, switch: self.switch.sampled(reading) }
    }

    closed spec fn polled(&self, reading: Option<bool>) -> Self {
        Hy040WithSwitch { encoder: self.encoder, switch: self.switch.polled(reading) }
    }

    /// Leaves the decoder as it is.
    fn get_current_state(&mut self, reading: Option<bool>) -> (state: SwitchState)
        ensures
            final(self).register() == old(self).register(),
            final(self).switch() == old(self).switch().sampled(reading),
    {
        self.switch.get_current_state(reading)
    }

    /// Leaves the decoder as it is.
    fn has_been_pressed(&mut self, reading: Option<bool>) -> (pressed: Result<bool, SwitchError>)
        ensures
            final(self).register() == old(self).register(),
            final(self).switch() == old(self).switch().polled(reading),
    {
        self.switch.has_been_pressed(reading)
    }
}

} // verus!
