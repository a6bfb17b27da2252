//! Signal conditioning and bus sequencing for a small rotary-knob firmware.
//!
//! Every state machine here is free of I/O: a caller samples the pins, runs
//! the bus and reads the clock, and hands plain values in. What each machine
//! answers is stated in its contract and proved.
//!
//! - [`debounce`]: a shift register that turns noisy samples into a state.
//! - [`switch`]: the state of a switch, with or without such a filter, and
//!   the moment at which it was pressed.
//! - [`encoder`]: the direction of a rotary quadrature encoder.
//! - [`spi_device_wrapper`]: the order of a transaction of one device on a
//!   shared bus; [`bus_run`] holds what is true of every whole transaction.
//! - [`coordinator`]: the state that interrupt handlers and main loop share.

pub mod bus_run;
pub mod coordinator;
pub mod debounce;
pub mod encoder;
pub mod spi_device_wrapper;
pub mod switch;
