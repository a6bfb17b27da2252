use embedded_hal::digital::{ErrorKind, ErrorType, InputPin};
use hl_driver::debounce::{Debounce, DebounceState, Debouncer};
use hl_driver::switch::{PinState, Pressable, Switch, SwitchError, SwitchState};

/// Mock of a simple gpio pin.
struct MockedPin {
    state: PinState,
    fault: bool,
}

impl ErrorType for MockedPin {
    type Error = ErrorKind;
}

impl InputPin for MockedPin {
    fn is_high(&mut self) -> Result<bool, Self::Error> {
        match self.fault {
            true => Err(ErrorKind::Other),
            false => Ok(bool::from(self.state)),
        }
    }

    fn is_low(&mut self) -> Result<bool, Self::Error> {
        match self.fault {
            true => Err(ErrorKind::Other),
            false => Ok(bool::from(!self.state)),
        }
    }
}

#[test]
fn test_switch_get_state() {
    // Pull Up switch with Low level when pressed
    let pressed_state = PinState::Low;
    // Mocked pin with non faulty state and a reading that sets the switch as released.
    let mut pin = MockedPin {
        state: !pressed_state,
        fault: false,
    };
    // Object under test
    let mut switch = Switch::new(pressed_state);

    // Should be released
    assert_eq!(
        SwitchState::Released,
        switch.get_current_state(pin.is_high().ok())
    );
    // State of the pin becomes pressed
    pin.state = PinState::Low;
    // Should be pressed
    assert_eq!(
        SwitchState::Pressed,
        switch.get_current_state(pin.is_high().ok())
    );
    // Switch reading is faulty
    pin.fault = true; // simulate an error when reading the pin
    // Sould be faulty
    assert_eq!(
        SwitchState::Faulty,
        switch.get_current_state(pin.is_high().ok())
    );
}

#[test]
fn test_simple_switch_has_been_pressed() {
    // Pull Up switch with Low level when pressed
    let pressed_state = PinState::Low;
    // Mocked pin with non faulty state and a reading that sets the switch as released.
    let mut pin = MockedPin {
        state: !pressed_state,
        fault: false,
    };
    // Object under test
    let mut switch = Switch::new(pressed_state);

    // Should be released
    assert_eq!(SwitchState::Released, switch.last_observed_state());
    // State of the pin becomes pressed
    pin.state = PinState::Low;

    // When checking if the button has been pressed,
    // it should be true since the state has changed since last check
    assert_eq!(
        true,
        switch
            .has_been_pressed(pin.is_high().ok())
            .expect("Problem when reading the pin")
    );

    // Should not be considered pressed since state did not change
    assert_eq!(
        false,
        switch
            .has_been_pressed(pin.is_high().ok())
            .expect("Problem when reading the pin")
    );

    // State of the pin becomes released
    pin.state = PinState::High;
    // It should still be false still since the button has been released
    assert_eq!(
        false,
        switch
            .has_been_pressed(pin.is_high().ok())
            .expect("Problem when reading the pin")
    );

    // State of the pin becomes pressed again
    pin.state = PinState::Low;
    // And this should be true again since there was a state change between checks
    assert_eq!(
        true,
        switch
            .has_been_pressed(pin.is_high().ok())
            .expect("Problem when reading the pin")
    );
}

#[test]
fn test_debounced_switch_get_state() {
    // Debouncer implementing the Debounce trait
    let debouncer = Debouncer::default();

    // Pull Up switch with Low level when pressed
    let pressed_state = PinState::Low;
    // Mocked pin with non faulty state and a reading that sets the switch as released.
    let mut pin = MockedPin {
        state: !pressed_state,
        fault: false,
    };
    // Object under test
    let mut db_switch = Switch::new(pressed_state).with_debounce(debouncer);

    // Should start in release state
    assert_eq!(
        SwitchState::Released,
        db_switch.get_current_state(pin.is_high().ok())
    );

    // Set the pin to the pressed state to simulate press action
    pin.state = PinState::Low;

    // The first ticks should be a transition state
    for _ in 0..2 {
        assert_eq!(
            SwitchState::Transition,
            db_switch.get_current_state(pin.is_high().ok())
        )
    }

    // The 3th tick should consider a press
    assert_eq!(
        SwitchState::Pressed,
        db_switch.get_current_state(pin.is_high().ok())
    );

    // A switch that is held stays pressed: the newest three samples are all set.
    assert_eq!(
        SwitchState::Pressed,
        db_switch.get_current_state(pin.is_high().ok())
    );

    // Simulate the release of the pin
    pin.state = PinState::High;

    // Empty debounce register during 7 tickes and should be tansition state
    for _ in 0..7 {
        assert_eq!(
            SwitchState::Transition,
            db_switch.get_current_state(pin.is_high().ok())
        )
    }
    // After 7 ticks of transition, the state released state is acknowledged
    assert_eq!(
        SwitchState::Released,
        db_switch.get_current_state(pin.is_high().ok())
    );
}

#[test]
fn test_debounced_switch_has_been_pressed() {
    // Pull Up switch with Low level when pressed
    let pressed_state = PinState::Low;
    // Mocked pin with non faulty state and a reading that sets the switch as released.
    let mut pin = MockedPin {
        state: !pressed_state,
        fault: false,
    };
    // Object under test
    let mut db_switch = Switch::new(pressed_state).with_debounce(Debouncer::default());

    // State of the pin becomes pressed
    pin.state = PinState::Low;

    // When checking if the button has been pressed,
    // first ticks should not be detected has pressed until we have a clean signal
    for _tick in 0..2 {
        assert_eq!(
            false,
            db_switch
                .has_been_pressed(pin.is_high().ok())
                .expect("Problem when reading the pin")
        );
    }

    // The next tick should garantee the signal is stable which ensure that the debounced switch has been pressed
    assert_eq!(
        true,
        db_switch
            .has_been_pressed(pin.is_high().ok())
            .expect("Problem when reading the pin")
    );

    // State of the pin becomes released
    pin.state = PinState::High;

    // It should still be false still since the state is transitioning
    assert_eq!(
        false,
        db_switch
            .has_been_pressed(pin.is_high().ok())
            .expect("Problem when reading the pin")
    );
}

#[test]
fn pin_state_converts_to_and_from_levels() {
    assert_eq!(PinState::High, PinState::from(true));
    assert_eq!(PinState::Low, PinState::from(false));
    assert_eq!(true, bool::from(PinState::High));
    assert_eq!(false, bool::from(PinState::Low));
    assert_eq!(PinState::Low, !PinState::High);
    assert_eq!(PinState::High, !PinState::Low);
}

#[test]
fn only_a_pressed_switch_counts_as_true() {
    assert_eq!(true, bool::from(SwitchState::Pressed));
    assert_eq!(false, bool::from(SwitchState::Released));
    assert_eq!(false, bool::from(SwitchState::Transition));
    assert_eq!(false, bool::from(SwitchState::Faulty));
}

#[test]
fn active_high_switch_is_pressed_at_high_level() {
    let mut switch = Switch::new(PinState::High);
    assert_eq!(SwitchState::Pressed, switch.get_current_state(Some(true)));
    assert_eq!(SwitchState::Released, switch.get_current_state(Some(false)));
    assert_eq!(Ok(true), switch.has_been_pressed(Some(true)));
    assert_eq!(Ok(false), switch.has_been_pressed(Some(true)));
    assert_eq!(Ok(false), switch.has_been_pressed(Some(false)));
    assert_eq!(Ok(true), switch.has_been_pressed(Some(true)));
}

#[test]
fn failed_reading_is_an_error_and_is_not_remembered() {
    let mut switch = Switch::new(PinState::Low);
    assert_eq!(Ok(true), switch.has_been_pressed(Some(false)));
    assert_eq!(SwitchState::Pressed, switch.last_observed_state());
    assert_eq!(Err(SwitchError::ReadPinState), switch.has_been_pressed(None));
    assert_eq!(SwitchState::Pressed, switch.last_observed_state());
    // Still held: the press was counted before the failure.
    assert_eq!(Ok(false), switch.has_been_pressed(Some(false)));
}

#[test]
fn asking_for_the_state_does_not_count_as_a_poll() {
    let mut switch = Switch::new(PinState::Low);
    assert_eq!(SwitchState::Pressed, switch.get_current_state(Some(false)));
    assert_eq!(SwitchState::Released, switch.last_observed_state());
    assert_eq!(Ok(true), switch.has_been_pressed(Some(false)));
}

#[test]
fn held_debounced_switch_counts_once() {
    let mut db_switch = Switch::new(PinState::Low).with_debounce(Debouncer::default());
    for poll in 0..40 {
        assert_eq!(
            Ok(poll == 2),
            db_switch.has_been_pressed(Some(false)),
            "poll {}",
            poll
        );
    }
    assert_eq!(SwitchState::Pressed, db_switch.last_observed_state());
}

#[test]
fn debounced_switch_counts_again_after_a_confirmed_release() {
    let mut db_switch = Switch::new(PinState::Low).with_debounce(Debouncer::default());
    for poll in 0..3 {
        assert_eq!(Ok(poll == 2), db_switch.has_been_pressed(Some(false)));
    }
    for _ in 0..7 {
        assert_eq!(Ok(false), db_switch.has_been_pressed(Some(true)));
        assert_eq!(SwitchState::Transition, db_switch.last_observed_state());
    }
    assert_eq!(Ok(false), db_switch.has_been_pressed(Some(true)));
    assert_eq!(SwitchState::Released, db_switch.last_observed_state());
    for poll in 0..3 {
        assert_eq!(Ok(poll == 2), db_switch.has_been_pressed(Some(false)));
    }
}

#[test]
fn failed_reading_leaves_the_filter_untouched() {
    let mut db_switch = Switch::new(PinState::Low).with_debounce(Debouncer::default());
    assert_eq!(Ok(false), db_switch.has_been_pressed(Some(false)));
    assert_eq!(Ok(false), db_switch.has_been_pressed(Some(false)));
    assert_eq!(SwitchState::Faulty, db_switch.get_current_state(None));
    assert_eq!(
        Err(SwitchError::ReadPinState),
        db_switch.has_been_pressed(None)
    );
    assert_eq!(SwitchState::Transition, db_switch.last_observed_state());
    // The third set sample is still the one that confirms the press.
    assert_eq!(Ok(true), db_switch.has_been_pressed(Some(false)));
}

/// A filter that confirms a press at the first set sample.
struct Immediate {
    set: bool,
}

impl Debounce for Immediate {
    fn state(&self) -> DebounceState {
        if self.set {
            DebounceState::Loaded
        } else {
            DebounceState::Unloaded
        }
    }

    fn after(&self, sample: bool) -> Self {
        Immediate { set: sample }
    }

    fn get_state(&self) -> DebounceState {
        self.state()
    }

    fn debounce(&mut self, state: bool) {
        *self = self.after(state);
    }
}

#[test]
fn debounced_switch_works_with_any_filter() {
    let mut db_switch = Switch::new(PinState::High).with_debounce(Immediate { set: false });
    assert_eq!(Ok(true), db_switch.has_been_pressed(Some(true)));
    assert_eq!(Ok(false), db_switch.has_been_pressed(Some(true)));
    assert_eq!(Ok(false), db_switch.has_been_pressed(Some(false)));
    assert_eq!(SwitchState::Released, db_switch.last_observed_state());
}
