//! One device on a shared serial bus: the order of a transaction.
//!
//! A transaction locks the bus, asserts the device's chip select, runs the
//! queued operations, flushes, deasserts the chip select and unlocks the bus.
//! The sequencer here decides that order and nothing else. It hands out one
//! [`BusAction`] at a time; the driver carries the action out on the hardware
//! and reports an [`Outcome`], which decides the next action.
//!
//! The first failure ends the forward path. What was acquired before it is
//! still given back: a chip select that was asserted is deasserted and a bus
//! that was locked is unlocked, whatever failed in between. The transaction
//! then reports that first failure; a failure during the clean-up itself is
//! reported only if nothing failed before it.
//!
//! A queued operation is either an exchange with the bus or a delay. The
//! sequencer does not tell them apart: the driver runs an exchange on the
//! bus and a delay through [`SpiDeviceWrapper::busy_wait`].

use vstd::prelude::*;

verus! {

/// Why a transaction failed.
#[derive(Debug)]
pub enum SpiDeviceWrapperError<E> {
    /// The bus reported an error.
    SpiBus(E),
    /// The bus could not be had.
    Lock,
    /// The chip select line could not be driven.
    ChipSelect,
}

/// What the driver has to do next.
#[derive(Debug, Clone, Copy, PartialEq, Eq, Structural)]
pub enum BusAction {
    /// Take the bus, without waiting for it.
    LockBus,
    /// Drive the chip select line to its active level.
    AssertChipSelect,
    /// Run the queued operation with this index.
    Operate(usize),
    /// Wait until the bus has sent everything.
    Flush,
    /// Drive the chip select line to its idle level.
    DeassertChipSelect,
    /// Give the bus back.
    UnlockBus,
}

/// How the last action went.
#[derive(Debug)]
pub enum Outcome<E> {
    /// It was carried out.
    Done,
    /// It could not be carried out.
    Failed,
    /// The bus reported an error while carrying it out.
    BusFault(E),
}

/// The action whose outcome a transaction is waiting for.
#[derive(Debug, Clone, Copy, PartialEq, Eq, Structural)]
pub enum Stage {
    Locking,
    Selecting,
    Operating(usize),
    Flushing,
    Deselecting,
    Unlocking,
}

/// Iterations of the busy loop that stand for a delay: as many whole ticks
/// as fit into it.
pub open spec fn delay_ticks(delay_ns: u32, ns_per_tick: u32) -> u32 {
    (delay_ns / ns_per_tick) as u32
}

/// The action that a stage hands out.
pub open spec fn stage_action(stage: Stage) -> BusAction {
    match stage {
        Stage::Locking => BusAction::LockBus,
        Stage::Selecting => BusAction::AssertChipSelect,
        Stage::Operating(index) => BusAction::Operate(index),
        Stage::Flushing => BusAction::Flush,
        Stage::Deselecting => BusAction::DeassertChipSelect,
        Stage::Unlocking => BusAction::UnlockBus,
    }
}

/// The stage that runs operation `index` of `count`, or the flush once the
/// queue is through.
pub open spec fn stage_at(count: usize, index: int) -> Stage {
    if index < count {
        Stage::Operating(index as usize)
    } else {
        Stage::Flushing
    }
}

/// The failure that an outcome stands for at a stage, if it is one. An
/// error of the bus is passed on as it is. Any other failure means that the
/// chip select could not be driven, if the stage drives it, and that the bus
/// could not be had, if not.
pub open spec fn fault_of<E>(stage: Stage, outcome: Outcome<E>) -> Option<SpiDeviceWrapperError<E>> {
    match outcome {
        Outcome::Done => None,
        Outcome::BusFault(e) => Some(SpiDeviceWrapperError::SpiBus(e)),
        Outcome::Failed => if stage is Selecting || stage is Deselecting {
            Some(SpiDeviceWrapperError::ChipSelect)
        } else {
            Some(SpiDeviceWrapperError::Lock)
        },
    }
}

/// The earlier of two failures.
pub open spec fn first_failure<E>(
    earlier: Option<SpiDeviceWrapperError<E>>,
    later: Option<SpiDeviceWrapperError<E>>,
) -> Option<SpiDeviceWrapperError<E>> {
    if earlier is Some {
        earlier
    } else {
        later
    }
}

/// The stage after `stage` while nothing has failed; `None` at the end.
pub open spec fn forward_stage(count: usize, stage: Stage) -> Option<Stage> {
    match stage {
        Stage::Locking => Some(Stage::Selecting),
        Stage::Selecting => Some(stage_at(count, 0)),
        Stage::Operating(index) => Some(stage_at(count, index + 1)),
        Stage::Flushing => Some(Stage::Deselecting),
        Stage::Deselecting => Some(Stage::Unlocking),
        Stage::Unlocking => None,
    }
}

/// The stage after `stage` once something has failed: what was acquired
/// before `stage` is given back, newest first.
pub open spec fn cleanup_stage(stage: Stage) -> Option<Stage> {
    match stage {
        Stage::Locking => None,
        Stage::Selecting => Some(Stage::Unlocking),
        Stage::Operating(_) => Some(Stage::Deselecting),
        Stage::Flushing => Some(Stage::Deselecting),
        Stage::Deselecting => Some(Stage::Unlocking),
        Stage::Unlocking => None,
    }
}

/// What a transaction reports at its end.
pub open spec fn conclusion<E>(failure: Option<SpiDeviceWrapperError<E>>) -> Result<
    (),
    SpiDeviceWrapperError<E>,
> {
    match failure {
        Some(e) => Err(e),
        None => Ok(()),
    }
}

/// A transaction in flight, as a value.
pub struct TransactionView<E> {
    /// Number of queued operations.
    pub count: usize,
    /// The action in flight.
    pub stage: Stage,
    /// The first failure so far.
    pub failure: Option<SpiDeviceWrapperError<E>>,
}

/// A step of a transaction, as a value.
pub enum StepView<E> {
    Perform(BusAction, TransactionView<E>),
    Finished(Result<(), SpiDeviceWrapperError<E>>),
}

impl<E> TransactionView<E> {
    /// The action whose outcome the transaction is waiting for.
    pub open spec fn pending(self) -> BusAction {
        stage_action(self.stage)
    }

    /// The transaction at another stage.
    pub open spec fn at(self, stage: Stage, failure: Option<SpiDeviceWrapperError<E>>) -> Self {
        TransactionView { count: self.count, stage, failure }
    }

    /// The step that follows the outcome of the pending action.
    pub open spec fn advance(self, outcome: Outcome<E>) -> StepView<E> {
        let failure = first_failure(self.failure, fault_of(self.stage, outcome));
        let next = if failure is None {
            forward_stage(self.count, self.stage)
        } else {
            cleanup_stage(self.stage)
        };
        match next {
            Some(stage) => StepView::Perform(stage_action(stage), self.at(stage, failure)),
            None => StepView::Finished(conclusion(failure)),
        }
    }
}

/// The first step of a transaction over `count` operations.
pub open spec fn first_step<E>(count: usize) -> StepView<E> {
    StepView::Perform(
        BusAction::LockBus,
        TransactionView { count, stage: Stage::Locking, failure: None },
    )
}

/// A transaction in flight.
pub struct Transaction<E> {
    count: usize,
    stage: Stage,
    failure: Option<SpiDeviceWrapperError<E>>,
}

/// Either the next action together with the transaction that awaits its
/// outcome, or the result of the transaction.
pub enum Step<E> {
    Perform(BusAction, Transaction<E>),
    Finished(Result<(), SpiDeviceWrapperError<E>>),
}

impl<E> View for Transaction<E> {
    type V = TransactionView<E>;

    closed spec fn view(&self) -> TransactionView<E> {
        TransactionView { count: self.count, stage: self.stage, failure: self.failure }
    }
}

impl<E> View for Step<E> {
    type V = StepView<E>;

    open spec fn view(&self) -> StepView<E> {
        match *self {
            Step::Perform(action, transaction) => StepView::Perform(action, transaction@),
            Step::Finished(result) => StepView::Finished(result),
        }
    }
}

/// A device on the bus: the handle that transactions start from.
#[derive(Debug, Clone, Copy)]
pub struct SpiDeviceWrapper {
    ns_per_tick: u32,
}

/// A device on a bus that sits behind a mutex. Its transactions run in the
/// same order; its driver answers [`BusAction::LockBus`] by trying the mutex.
pub type SpiPeripheral = SpiDeviceWrapper;

/// Why a transaction of a [`SpiPeripheral`] failed.
pub type SpiPeripheralError<E> = SpiDeviceWrapperError<E>;

impl SpiDeviceWrapper {
    /// Nanoseconds that one iteration of the busy loop takes.
    pub closed spec fn tick(&self) -> u32 {
        self.ns_per_tick
    }

    /// A device whose busy loop takes `ns_per_tick` nanoseconds per
    /// iteration.
    pub fn new(ns_per_tick: u32) -> (device: Self)
        ensures
            device.tick() == ns_per_tick,
    {
        SpiDeviceWrapper { ns_per_tick }
    }

    /// Nanoseconds that one iteration of the busy loop takes.
    pub fn ns_per_tick(&self) -> (ns: u32)
        ensures
            ns == self.tick(),
    {
        self.ns_per_tick
    }

    /// Starts a transaction over `count` queued operations.
    pub fn transaction<E>(&self, count: usize) -> (step: Step<E>)
        ensures
            step@ == first_step::<E>(count),
    {
        Step::Perform(
            BusAction::LockBus,
            Transaction { count, stage: Stage::Locking, failure: None },
        )
    }

    /// Waits by counting down the whole ticks that fit into `delay_ns`
    /// nanoseconds, and answers with the number of iterations. A device
    /// whose tick is zero cannot wait.
    pub fn busy_wait(&self, delay_ns: u32) -> (iterations: u32)
        requires
            self.tick() > 0,
        ensures
            iterations == delay_ticks(delay_ns, self.tick()),
    {
        let iterations = delay_ns / self.ns_per_tick;
        let mut delay_in_ticks = iterations;
        while delay_in_ticks > 0
            decreases delay_in_ticks,
        {
            delay_in_ticks -= 1;
        }
        iterations
    }
}

impl<E> Transaction<E> {
    /// Takes the outcome of the action that was handed out last and answers
    /// with the next step.
    pub fn advance(self, outcome: Outcome<E>) -> (step: Step<E>)
        ensures
            step@ == self@.advance(outcome),
    {
        let Transaction { count, stage, failure } = self;
        let failure = match failure {
            Some(e) => Some(e),
            None => match outcome {
                Outcome::Done => None,
                Outcome::BusFault(e) => Some(SpiDeviceWrapperError::SpiBus(e)),
                Outcome::Failed => match stage {
                    Stage::Selecting | Stage::Deselecting => Some(
                        SpiDeviceWrapperError::ChipSelect,
                    ),
                    _ => Some(SpiDeviceWrapperError::Lock),
                },
            },
        };
        let next = next_stage(count, stage, failure.is_some());
        match next {
            Some(stage) => {
                let action = action_for(stage);
                Step::Perform(action, Transaction { count, stage, failure })
            },
            None => match failure {
                Some(e) => Step::Finished(Err(e)),
                None => Step::Finished(Ok(())),
            },
        }
    }
}

fn next_stage(count: usize, stage: Stage, failed: bool) -> (next: Option<Stage>)
    ensures
        next == if failed {
            cleanup_stage(stage)
        } else {
            forward_stage(count, stage)
        },
{
    if failed {
        match stage {
            Stage::Locking | Stage::Unlocking => None,
            Stage::Selecting | Stage::Deselecting => Some(Stage::Unlocking),
            Stage::Operating(_) | Stage::Flushing => Some(Stage::Deselecting),
        }
    } else {
        match stage {
            Stage::Locking => Some(Stage::Selecting),
            Stage::Selecting => if 0 < count {
                Some(Stage::Operating(0))
            } else {
                Some(Stage::Flushing)
            },
            Stage::Operating(index) => if index < count && index + 1 < count {
                Some(Stage::Operating(index + 1))
            } else {
                Some(Stage::Flushing)
            },
            Stage::Flushing => Some(Stage::Deselecting),
            Stage::Deselecting => Some(Stage::Unlocking),
            Stage::Unlocking => None,
        }
    }
}

fn action_for(stage: Stage) -> (action: BusAction)
    ensures
        action == stage_action(stage),
{
    match stage {
        Stage::Locking => BusAction::LockBus,
        Stage::Selecting => BusAction::AssertChipSelect,
        Stage::Operating(index) => BusAction::Operate(index),
        Stage::Flushing => BusAction::Flush,
        Stage::Deselecting => BusAction::DeassertChipSelect,
        Stage::Unlocking => BusAction::UnlockBus,
    }
}

} // verus!
