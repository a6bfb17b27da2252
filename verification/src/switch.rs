//! Push switches: the state of a switch from a pin reading, and the moment
//! at which it was pressed.
//!
//! A switch never touches its pin. The caller reads the pin and passes the
//! reading in: `Some(level)` with `true` for a high level, `None` when the
//! pin could not be read.

use crate::debounce::{after_repeated, Debounce, DebounceState, Debouncer};
use vstd::prelude::*;
use vstd::std_specs::convert::FromSpecImpl;
use vstd::std_specs::ops::NotSpecImpl;

verus! {

/// A logic level.
#[derive(Debug, Clone, Copy, PartialEq, Eq, Structural)]
pub enum PinState {
    Low,
    High,
}

impl From<bool> for PinState {
    fn from(value: bool) -> (level: Self)
        ensures
            level == (if value {
                PinState::High
            } else {
                PinState::Low
            }),
    {
        if value {
            PinState::High
        } else {
            PinState::Low
        }
    }
}

impl FromSpecImpl<bool> for PinState {
    open spec fn obeys_from_spec() -> bool {
        true
    }

    open spec fn from_spec(value: bool) -> Self {
        if value {
            PinState::High
        } else {
            PinState::Low
        }
    }
}

impl From<PinState> for bool {
    fn from(value: PinState) -> (high: bool)
        ensures
            high == (value is High),
    {
        match value {
            PinState::Low => false,
            PinState::High => true,
        }
    }
}

impl FromSpecImpl<PinState> for bool {
    open spec fn obeys_from_spec() -> bool {
        true
    }

    open spec fn from_spec(value: PinState) -> bool {
        value is High
    }
}

impl core::ops::Not for PinState {
    type Output = PinState;

    /// The other level.
    fn not(self) -> (level: PinState) {
        match self {
            PinState::High => PinState::Low,
            PinState::Low => PinState::High,
        }
    }
}

impl NotSpecImpl for PinState {
    open spec fn obeys_not_spec() -> bool {
        true
    }

    open spec fn not_req(self) -> bool {
        true
    }

    open spec fn not_spec(self) -> PinState {
        match self {
            PinState::High => PinState::Low,
            PinState::Low => PinState::High,
        }
    }
}

/// What a poll makes of a switch.
#[derive(Debug, Clone, Copy, PartialEq, Eq, Structural)]
pub enum SwitchState {
    /// The switch is pressed.
    Pressed,
    /// The switch is released.
    Released,
    /// The switch is on its way from one to the other.
    Transition,
    /// The pin could not be read.
    Faulty,
}

impl From<SwitchState> for bool {
    /// `true` for a pressed switch, `false` for every other state.
    fn from(value: SwitchState) -> (pressed: bool)
        ensures
            pressed == (value is Pressed),
    {
        matches!(value, SwitchState::Pressed)
    }
}

impl FromSpecImpl<SwitchState> for bool {
    open spec fn obeys_from_spec() -> bool {
        true
    }

    open spec fn from_spec(value: SwitchState) -> bool {
        value is Pressed
    }
}

/// Why a poll could not answer.
#[derive(Debug, Clone, Copy, PartialEq, Eq, Structural)]
pub enum SwitchError {
    /// The pin could not be read.
    ReadPinState,
}

/// Whether a level is the one at which the switch counts as pressed.
pub open spec fn is_pressed_level(pressed_state: PinState, level: bool) -> bool {
    level == (pressed_state is High)
}

/// The state of a switch without a filter.
pub open spec fn level_state(pressed_state: PinState, reading: Option<bool>) -> SwitchState {
    match reading {
        None => SwitchState::Faulty,
        Some(level) => if is_pressed_level(pressed_state, level) {
            SwitchState::Pressed
        } else {
            SwitchState::Released
        },
    }
}

/// The state of a switch behind a filter.
pub open spec fn filtered_state(state: DebounceState) -> SwitchState {
    match state {
        DebounceState::Loaded => SwitchState::Pressed,
        DebounceState::Unloaded => SwitchState::Released,
        DebounceState::Transition => SwitchState::Transition,
    }
}

/// What a poll answers: an error if the pin could not be read, else whether
/// the switch went from not pressed to pressed.
pub open spec fn press_edge(last: SwitchState, current: SwitchState) -> Result<bool, SwitchError> {
    if current is Faulty {
        Err(SwitchError::ReadPinState)
    } else {
        Ok(!(last is Pressed) && current is Pressed)
    }
}

/// The state that a poll remembers: the one it found, unless the pin could
/// not be read.
pub open spec fn remembered(last: SwitchState, current: SwitchState) -> SwitchState {
    if current is Faulty {
        last
    } else {
        current
    }
}

/// Something that can be pressed.
pub trait Pressable: Sized {
    /// The state that the last answered poll found.
    spec fn last_state(&self) -> SwitchState;

    /// The state that a reading stands for.
    spec fn state_after(&self, reading: Option<bool>) -> SwitchState;

    /// The switch after its state was asked for.
    spec fn sampled(&self, reading: Option<bool>) -> Self;

    /// The switch after a poll.
    spec fn polled(&self, reading: Option<bool>) -> Self;

    /// The state of the switch, given a fresh reading of its pin.
    fn get_current_state(&mut self, reading: Option<bool>) -> (state: SwitchState)
        ensures
            state == old(self).state_after(reading),
            *final(self) == old(self).sampled(reading),
    ;

    /// Whether the switch was pressed since the last poll, given a fresh
    /// reading of its pin. A switch that is held counts once.
    fn has_been_pressed(&mut self, reading: Option<bool>) -> (pressed: Result<bool, SwitchError>)
        ensures
            pressed == press_edge(old(self).last_state(), old(self).state_after(reading)),
            *final(self) == old(self).polled(reading),
            final(self).last_state() == remembered(
                old(self).last_state(),
                old(self).state_after(reading),
            ),
    ;
}

/// A switch without a filter.
#[derive(Debug, PartialEq, Eq)]
pub struct Switch {
    pressed_state: PinState,
    last_state: SwitchState,
}

impl Switch {
    /// The level at which the switch counts as pressed.
    pub closed spec fn pressed_level(&self) -> PinState {
        self.pressed_state
    }

    /// A released switch that counts as pressed at the level `pressed_state`.
    pub fn new(pressed_state: PinState) -> (switch: Self)
        ensures
            switch.pressed_level() == pressed_state,
            switch.last_state() == SwitchState::Released,
    {
        Switch { pressed_state, last_state: SwitchState::Released }
    }

    /// Puts a filter between the pin and the switch.
    pub fn with_debounce<D: Debounce>(self, debouncer: D) -> (switch: DebouncedSwitch<D>)
        ensures
            switch.switch() == self,
            switch.filter() == debouncer,
    {
        DebouncedSwitch { switch: self, debouncer }
    }

    /// The state that the last answered poll found.
    pub fn last_observed_state(&self) -> (state: SwitchState)
        ensures
            state == self.last_state(),
    {
        self.last_state
    }
}

impl Pressable for Switch {
    closed spec fn last_state(&self) -> SwitchState {
        self.last_state
    }

    open spec fn state_after(&self, reading: Option<bool>) -> SwitchState {
        level_state(self.pressed_level(), reading)
    }

    open spec fn sampled(&self, reading: Option<bool>) -> Self {
        *self
    }

    closed spec fn polled(&self, reading: Option<bool>) -> Self {
        Switch {
            pressed_state: self.pressed_state,
            last_state: remembered(self.last_state, self.state_after(reading)),
        }
    }

    /// Never answers [`SwitchState::Transition`].
    fn get_current_state(&mut self, reading: Option<bool>) -> (state: SwitchState) {
        match reading {
            Some(level) => {
                if level == bool::from(self.pressed_state) {
                    SwitchState::Pressed
                } else {
                    SwitchState::Released
                }
            },
            None => SwitchState::Faulty,
        }
    }

    fn has_been_pressed(&mut self, reading: Option<bool>) -> (pressed: Result<bool, SwitchError>)
        ensures
            final(self).pressed_level() == old(self).pressed_level(),
    {
        let current_state = self.get_current_state(reading);
        match current_state {
            SwitchState::Faulty => Err(SwitchError::ReadPinState),
            _ => {
                let was_pressed = self.last_state != SwitchState::Pressed && current_state
                    == SwitchState::Pressed;
                self.last_state = current_state;
                Ok(was_pressed)
            },
        }
    }
}

/// A switch behind a filter.
#[derive(Debug, PartialEq, Eq)]
pub struct DebouncedSwitch<D: Debounce> {
    switch: Switch,
    debouncer: D,
}

impl<D: Debounce> DebouncedSwitch<D> {
    /// The switch behind the filter.
    pub closed spec fn switch(&self) -> Switch {
        self.switch
    }

    /// The filter.
    pub closed spec fn filter(&self) -> D {
        self.debouncer
    }

    /// The sample that a level puts into the filter.
    pub open spec fn sample_of(&self, level: bool) -> bool {
        is_pressed_level(self.switch().pressed_level(), level)
    }

    /// The state that the last answered poll found.
    pub fn last_observed_state(&self) -> (state: SwitchState)
        ensures
            state == self.last_state(),
    {
        self.switch.last_state
    }
}

impl<D: Debounce> Pressable for DebouncedSwitch<D> {
    closed spec fn last_state(&self) -> SwitchState {
        self.switch.last_state
    }

    open spec fn state_after(&self, reading: Option<bool>) -> SwitchState {
        match reading {
            None => SwitchState::Faulty,
            Some(level) => filtered_state(self.filter().after(self.sample_of(level)).state()),
        }
    }

    closed spec fn sampled(&self, reading: Option<bool>) -> Self {
        match reading {
            None => *self,
            Some(level) => DebouncedSwitch {
                switch: self.switch,
                debouncer: self.debouncer.after(self.sample_of(level)),
            },
        }
    }

    closed spec fn polled(&self, reading: Option<bool>) -> Self {
        DebouncedSwitch {
            switch: Switch {
                pressed_state: self.switch.pressed_state,
                last_state: remembered(self.switch.last_state, self.state_after(reading)),
            },
            debouncer: self.sampled(reading).debouncer,
        }
    }

    /// A reading that failed leaves the filter as it was.
    fn get_current_state(&mut self, reading: Option<bool>) -> (state: SwitchState)
        ensures
            final(self).switch() == old(self).switch(),
            final(self).filter() == (match reading {
                None => old(self).filter(),
                Some(level) => old(self).filter().after(old(self).sample_of(level)),
            }),
    {
        match reading {
            Some(level) => {
                if level == bool::from(self.switch.pressed_state) {
                    self.debouncer.debounce(true);
                } else {
                    self.debouncer.debounce(false);
                }
                match self.debouncer.get_state() {
                    DebounceState::Loaded => SwitchState::Pressed,
                    DebounceState::Transition => SwitchState::Transition,
                    DebounceState::Unloaded => SwitchState::Released,
                }
            },
            None => SwitchState::Faulty,
        }
    }

    fn has_been_pressed(&mut self, reading: Option<bool>) -> (pressed: Result<bool, SwitchError>)
        ensures
            final(self).switch().pressed_level() == old(self).switch().pressed_level(),
            final(self).filter() == (match reading {
                None => old(self).filter(),
                Some(level) => old(self).filter().after(old(self).sample_of(level)),
            }),
    {
        let current_state = self.get_current_state(reading);
        match current_state {
            SwitchState::Faulty => Err(SwitchError::ReadPinState),
            _ => {
                let was_pressed = self.switch.last_state != SwitchState::Pressed && current_state
                    == SwitchState::Pressed;
                self.switch.last_state = current_state;
                Ok(was_pressed)
            },
        }
    }
}

/// The answers of a run of polls, oldest first.
pub open spec fn answers<P: Pressable>(switch: P, readings: Seq<Option<bool>>) -> Seq<
    Result<bool, SwitchError>,
>
    decreases readings.len(),
{
    if readings.len() == 0 {
        Seq::empty()
    } else {
        seq![press_edge(switch.last_state(), switch.state_after(readings[0]))] + answers(
            switch.polled(readings[0]),
            readings.drop_first(),
        )
    }
}

/// Every poll of a run answers.
pub proof fn lemma_answers_len<P: Pressable>(switch: P, readings: Seq<Option<bool>>)
    ensures
        answers(switch, readings).len() == readings.len(),
    decreases readings.len(),
{
    if readings.len() > 0 {
        lemma_answers_len(switch.polled(readings[0]), readings.drop_first());
    }
}

/// Whether every reading of a run could read the pin.
pub open spec fn all_read(readings: Seq<Option<bool>>) -> bool {
    forall|i: int| 0 <= i < readings.len() ==> #[trigger] readings[i] is Some
}

impl Switch {
    /// A poll keeps the pressed level and remembers the state it found,
    /// unless the pin could not be read.
    pub proof fn lemma_polled(self, reading: Option<bool>)
        ensures
            self.polled(reading).pressed_level() == self.pressed_level(),
            self.polled(reading).last_state() == remembered(
                self.last_state(),
                self.state_after(reading),
            ),
    {
    }

    /// A poll that could not read the pin answers with an error and leaves
    /// the switch as it was.
    pub proof fn lemma_faulty_poll_changes_nothing(self)
        ensures
            press_edge(self.last_state(), self.state_after(None)) == Err::<bool, SwitchError>(
                SwitchError::ReadPinState,
            ),
            self.polled(None) == self,
    {
    }

    /// In a run of polls that could all read the pin, a poll answers `true`
    /// exactly when it finds the switch pressed and the poll before it did
    /// not. For the first poll, the state that the switch remembered stands
    /// for the poll before. So a press counts once however long it is held,
    /// and counts again once the switch was found released in between.
    pub proof fn lemma_answers_are_press_edges(self, readings: Seq<Option<bool>>, index: int)
        requires
            0 <= index < readings.len(),
            all_read(readings),
        ensures
            answers(self, readings).len() == readings.len(),
            answers(self, readings)[index] == Ok::<bool, SwitchError>(
                self.state_after(readings[index]) is Pressed && !(if index == 0 {
                    self.last_state() is Pressed
                } else {
                    self.state_after(readings[index - 1]) is Pressed
                }),
            ),
        decreases readings.len(),
    {
        let rest = readings.drop_first();
        let next = self.polled(readings[0]);
        self.lemma_polled(readings[0]);
        lemma_answers_len(self, readings);
        lemma_answers_len(next, rest);
        assert(readings[0] is Some);
        if index > 0 {
            assert(all_read(rest)) by {
                assert forall|i: int| 0 <= i < rest.len() implies #[trigger] rest[i] is Some by {
                    assert(readings[i + 1] is Some);
                }
            }
            next.lemma_answers_are_press_edges(rest, index - 1);
            assert(rest[index - 1] == readings[index]);
            if index > 1 {
                assert(rest[index - 2] == readings[index - 1]);
            }
        }
    }

}

impl<D: Debounce> DebouncedSwitch<D> {
    /// A poll keeps the pressed level, passes a reading that succeeded on to
    /// the filter, and remembers the state it found, unless the pin could
    /// not be read.
    pub proof fn lemma_polled(self, reading: Option<bool>)
        ensures
            self.polled(reading).switch().pressed_level() == self.switch().pressed_level(),
            self.polled(reading).filter() == (match reading {
                None => self.filter(),
                Some(level) => self.filter().after(self.sample_of(level)),
            }),
            self.polled(reading).last_state() == remembered(
                self.last_state(),
                self.state_after(reading),
            ),
    {
    }
}

/// Whether every reading of a run found the level at which the switch
/// counts as pressed.
pub open spec fn all_pressed(pressed_state: PinState, readings: Seq<Option<bool>>) -> bool {
    forall|i: int|
        0 <= i < readings.len() ==> (#[trigger] readings[i]) == Some(pressed_state is High)
}

impl DebouncedSwitch<Debouncer> {
    /// A switch behind a filter that has seen no set sample, pressed and
    /// held: the third poll answers `true`, every other poll `false`.
    pub proof fn lemma_held_press_counts_once(self, readings: Seq<Option<bool>>, index: int)
        requires
            self.filter()@ == Seq::new(8, |i: int| false),
            !(self.last_state() is Pressed),
            all_pressed(self.switch().pressed_level(), readings),
            0 <= index < readings.len(),
        ensures
            answers(self, readings)[index] == Ok::<bool, SwitchError>(index == 2),
    {
        self.lemma_held_from(self.filter(), 0, readings, index);
    }

    proof fn lemma_held_from(
        self,
        fresh: Debouncer,
        seen: nat,
        readings: Seq<Option<bool>>,
        index: int,
    )
        requires
            fresh@ == Seq::new(8, |i: int| false),
            self.filter() == after_repeated(fresh, true, seen),
            self.last_state() is Pressed <==> seen >= 3,
            all_pressed(self.switch().pressed_level(), readings),
            0 <= index < readings.len(),
        ensures
            answers(self, readings)[index] == Ok::<bool, SwitchError>(seen + index == 2),
        decreases readings.len(),
    {
        let rest = readings.drop_first();
        let next = self.polled(readings[0]);
        self.lemma_polled(readings[0]);
        assert(readings[0] == Some(self.switch().pressed_level() is High));
        assert(self.sample_of(self.switch().pressed_level() is High));
        assert(next.filter() == after_repeated(fresh, true, seen + 1));
        fresh.lemma_loaded_at_third_sample(seen + 1);
        let found = self.state_after(readings[0]);
        assert(found == filtered_state(next.filter().state()));
        assert(found is Pressed <==> seen + 1 >= 3);
        let first = press_edge(self.last_state(), found);
        assert(first == Ok::<bool, SwitchError>(seen == 2));
        assert(answers(self, readings) == seq![first] + answers(next, rest));
        lemma_answers_len(next, rest);
        if index > 0 {
            assert(all_pressed(next.switch().pressed_level(), rest)) by {
                assert forall|i: int| 0 <= i < rest.len() implies (#[trigger] rest[i]) == Some(
                    next.switch().pressed_level() is High,
                ) by {
                    assert(readings[i + 1] == Some(self.switch().pressed_level() is High));
                }
            }
            next.lemma_held_from(fresh, seen + 1, rest, index - 1);
        }
    }
}

} // verus!
