//! Shift-register debouncing of a boolean signal.
//!
//! A filter keeps the most recent samples in a register, newest in the least
//! significant bit. A press is confirmed as soon as the newest
//! [`WINDOW_WIDTH`] samples are all set; a release only once every retained
//! sample is clear. The two thresholds differ on purpose: presses are
//! confirmed quickly, releases slowly.

use vstd::prelude::*;
use vstd::std_specs::convert::FromSpecImpl;

verus! {

/// The bits of the register that must all be set for a confirmed press.
pub const DEBOUNCE_MASK: u8 = 0x07;

/// The register value of a confirmed release.
pub const RELEASED_MASK: u8 = 0x00;

/// Number of samples that confirm a press.
pub const WINDOW_WIDTH: u8 = 3;

/// Number of samples that the register retains.
pub const REGISTER_WIDTH: u8 = 8;

/// What a filter makes of the samples it retains.
#[derive(Debug, Clone, Copy, PartialEq, Eq, Structural)]
pub enum DebounceState {
    /// The newest samples are all set.
    Loaded,
    /// Every retained sample is clear.
    Unloaded,
    /// Neither of the above.
    Transition,
}

/// Sample `index` of a register, counted from the newest.
pub open spec fn sample_at(register: u8, index: u8) -> bool {
    (register >> index) & 1 == 1
}

/// The retained samples of a register, newest first.
pub open spec fn window_of(register: u8) -> Seq<bool> {
    Seq::new(8, |i: int| sample_at(register, i as u8))
}

/// The register after one more sample went in.
pub open spec fn shift_in(register: u8, sample: bool) -> u8 {
    (register << 1) | (if sample { 1u8 } else { 0u8 })
}

/// The window after one more sample went in: the oldest sample is dropped.
pub open spec fn window_after(window: Seq<bool>, sample: bool) -> Seq<bool> {
    seq![sample] + window.take(window.len() - 1)
}

/// The state that a window of samples stands for.
pub open spec fn window_state(window: Seq<bool>) -> DebounceState {
    if forall|i: int| 0 <= i < WINDOW_WIDTH ==> window[i] {
        DebounceState::Loaded
    } else if forall|i: int| 0 <= i < window.len() ==> !window[i] {
        DebounceState::Unloaded
    } else {
        DebounceState::Transition
    }
}

/// The state that a register value stands for.
pub open spec fn register_state(register: u8) -> DebounceState {
    if register & DEBOUNCE_MASK == DEBOUNCE_MASK {
        DebounceState::Loaded
    } else if register == RELEASED_MASK {
        DebounceState::Unloaded
    } else {
        DebounceState::Transition
    }
}

proof fn lemma_shift_in_bits(register: u8, sample: bool, index: u8)
    by (bit_vector)
    requires
        index < 8,
    ensures
        sample_at(shift_in(register, sample), index) == (if index == 0 {
            sample
        } else {
            sample_at(register, (index - 1) as u8)
        }),
{
}

proof fn lemma_mask_bits(register: u8)
    by (bit_vector)
    ensures
        (register & DEBOUNCE_MASK == DEBOUNCE_MASK) <==> (sample_at(register, 0) && sample_at(
            register,
            1,
        ) && sample_at(register, 2)),
        register == RELEASED_MASK <==> (!sample_at(register, 0) && !sample_at(register, 1)
            && !sample_at(register, 2) && !sample_at(register, 3) && !sample_at(register, 4)
            && !sample_at(register, 5) && !sample_at(register, 6) && !sample_at(register, 7)),
{
}

/// Shifting a sample into a register shifts it into the window.
pub proof fn lemma_shift_in_window(register: u8, sample: bool)
    ensures
        window_of(shift_in(register, sample)) == window_after(window_of(register), sample),
{
    let shifted = window_of(shift_in(register, sample));
    let expected = window_after(window_of(register), sample);
    assert forall|i: int| 0 <= i < 8 implies shifted[i] == expected[i] by {
        lemma_shift_in_bits(register, sample, i as u8);
    }
    assert(shifted =~= expected);
}

/// The state of a register is the state of its window.
pub proof fn lemma_register_state_is_window_state(register: u8)
    ensures
        register_state(register) == window_state(window_of(register)),
{
    lemma_mask_bits(register);
    let window = window_of(register);
    assert(window[0] == sample_at(register, 0));
    assert(window[1] == sample_at(register, 1));
    assert(window[2] == sample_at(register, 2));
    assert(window[3] == sample_at(register, 3));
    assert(window[4] == sample_at(register, 4));
    assert(window[5] == sample_at(register, 5));
    assert(window[6] == sample_at(register, 6));
    assert(window[7] == sample_at(register, 7));
}

impl From<u8> for DebounceState {
    /// Reads a state off a register value.
    fn from(value: u8) -> (state: Self)
        ensures
            state == register_state(value),
    {
        if value & DEBOUNCE_MASK == DEBOUNCE_MASK {
            DebounceState::Loaded
        } else if value == RELEASED_MASK {
            DebounceState::Unloaded
        } else {
            DebounceState::Transition
        }
    }
}

impl FromSpecImpl<u8> for DebounceState {
    open spec fn obeys_from_spec() -> bool {
        true
    }

    open spec fn from_spec(value: u8) -> Self {
        register_state(value)
    }
}

/// A filter that turns a stream of samples into a [`DebounceState`].
pub trait Debounce: Sized {
    /// The state that the filter reports.
    spec fn state(&self) -> DebounceState;

    /// The filter after one more sample.
    spec fn after(&self, sample: bool) -> Self;

    /// Reports the state that the samples seen so far stand for.
    fn get_state(&self) -> (state: DebounceState)
        ensures
            state == self.state(),
    ;

    /// Takes in one sample.
    fn debounce(&mut self, state: bool)
        ensures
            *final(self) == old(self).after(state),
    ;
}

/// A filter over an eight-bit register.
#[derive(Debug, PartialEq, Eq)]
pub struct Debouncer {
    register: u8,
}

impl View for Debouncer {
    type V = Seq<bool>;

    /// The retained samples, newest first.
    closed spec fn view(&self) -> Seq<bool> {
        window_of(self.register)
    }
}

impl Default for Debouncer {
    /// A filter that has seen no set sample.
    fn default() -> (filter: Self)
        ensures
            filter@ == Seq::new(8, |i: int| false),
            filter.state() == DebounceState::Unloaded,
    {
        let filter = Debouncer { register: 0 };
        proof {
            lemma_register_state_is_window_state(0);
            assert(0u8 & DEBOUNCE_MASK != DEBOUNCE_MASK) by (bit_vector);
            assert(filter@ =~= Seq::new(8, |i: int| false));
        }
        filter
    }
}

impl Debounce for Debouncer {
    open spec fn state(&self) -> DebounceState {
        window_state(self@)
    }

    closed spec fn after(&self, sample: bool) -> Self {
        Debouncer { register: shift_in(self.register, sample) }
    }

    fn get_state(&self) -> (state: DebounceState) {
        proof {
            lemma_register_state_is_window_state(self.register);
        }
        DebounceState::from(self.register)
    }

    fn debounce(&mut self, state: bool)
        ensures
            final(self)@ == window_after(old(self)@, state),
    {
        let bit: u8 = if state { 1 } else { 0 };
        proof {
            lemma_shift_in_window(self.register, state);
        }
        self.register = (self.register << 1) | bit;
    }
}

impl Debouncer {
    /// A filter always retains eight samples.
    pub proof fn lemma_window_len(self)
        ensures
            self@.len() == 8,
    {
    }

    /// One more sample enters the window at the front and pushes the oldest
    /// one out.
    pub proof fn lemma_after_window(self, sample: bool)
        ensures
            self.after(sample)@ == window_after(self@, sample),
    {
        lemma_shift_in_window(self.register, sample);
    }
}

/// The filter after the same sample went in `count` times.
pub open spec fn after_repeated<D: Debounce>(filter: D, sample: bool, count: nat) -> D
    decreases count,
{
    if count == 0 {
        filter
    } else {
        after_repeated(filter, sample, (count - 1) as nat).after(sample)
    }
}

/// The window after the same sample went in `count` times: the sample in
/// front, what is left of the old window behind it.
pub open spec fn window_after_repeated(window: Seq<bool>, sample: bool, count: nat) -> Seq<bool> {
    Seq::new(
        window.len(),
        |i: int|
            if i < count {
                sample
            } else {
                window[i - count]
            },
    )
}

impl Debouncer {
    /// Feeding one sample `count` times fills the front of the window with
    /// it and moves the rest back.
    pub proof fn lemma_after_repeated_window(self, sample: bool, count: nat)
        ensures
            after_repeated(self, sample, count)@ == window_after_repeated(self@, sample, count),
        decreases count,
    {
        if count == 0 {
            assert(self@ =~= window_after_repeated(self@, sample, 0));
        } else {
            let before = after_repeated(self, sample, (count - 1) as nat);
            self.lemma_after_repeated_window(sample, (count - 1) as nat);
            before.lemma_after_window(sample);
            assert(window_after(before@, sample) =~= window_after_repeated(self@, sample, count));
        }
    }

    /// A filter that has seen no set sample confirms a press at the third
    /// set sample in a row: not before, and at every one after it.
    pub proof fn lemma_loaded_at_third_sample(self, count: nat)
        requires
            self@ == Seq::new(8, |i: int| false),
        ensures
            after_repeated(self, true, count).state() == (if count == 0 {
                DebounceState::Unloaded
            } else if count < WINDOW_WIDTH {
                DebounceState::Transition
            } else {
                DebounceState::Loaded
            }),
    {
        self.lemma_after_repeated_window(true, count);
        let window = after_repeated(self, true, count)@;
        if count == 0 {
            assert(!window[0]);
        } else if count < 3 {
            assert(window[0]);
            assert(!window[2]);
        }
    }

    /// A filter that has confirmed a press confirms the release only once
    /// the whole register is clear: the first seven clear samples leave it
    /// in transition, the eighth and every later one unload it.
    pub proof fn lemma_unloaded_at_eighth_sample(self, count: nat)
        requires
            self.state() == DebounceState::Loaded,
            count >= 1,
        ensures
            after_repeated(self, false, count).state() == (if count < REGISTER_WIDTH {
                DebounceState::Transition
            } else {
                DebounceState::Unloaded
            }),
    {
        self.lemma_after_repeated_window(false, count);
        let window = after_repeated(self, false, count)@;
        assert(self@[0] && self@[1] && self@[2]);
        assert(!window[0]);
        if count < 8 {
            assert(window[count as int] == self@[0]);
        }
    }
}

} // verus!
