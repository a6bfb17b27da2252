//! Whole runs of a bus transaction.
//!
//! [`run`] steps a transaction through a sequence of outcomes and collects
//! the actions it hands out. The laws below say what every run looks like:
//! the full script when nothing fails, and otherwise the script up to the
//! first failure followed by the release of what had been acquired.

use crate::spi_device_wrapper::{
    cleanup_stage, conclusion, fault_of, first_step, forward_stage, stage_action, BusAction,
    Outcome, SpiDeviceWrapperError, Stage, StepView, TransactionView,
};
use vstd::prelude::*;

verus! {

/// What a run showed: the actions handed out, in order, and the result if
/// the transaction came to its end.
pub struct Run<E> {
    pub actions: Seq<BusAction>,
    pub result: Option<Result<(), SpiDeviceWrapperError<E>>>,
}

/// Steps through `outcomes`, one for each action handed out, until the
/// transaction ends or the outcomes run out.
pub open spec fn run<E>(step: StepView<E>, outcomes: Seq<Outcome<E>>) -> Run<E>
    decreases outcomes.len(),
{
    match step {
        StepView::Finished(result) => Run { actions: Seq::empty(), result: Some(result) },
        StepView::Perform(action, transaction) => if outcomes.len() == 0 {
            Run { actions: seq![action], result: None }
        } else {
            let rest = run(transaction.advance(outcomes[0]), outcomes.drop_first());
            Run { actions: seq![action] + rest.actions, result: rest.result }
        },
    }
}

/// The actions of a transaction over `count` operations in which nothing
/// fails.
pub open spec fn script(count: usize) -> Seq<BusAction> {
    seq![BusAction::LockBus, BusAction::AssertChipSelect] + Seq::new(
        count as nat,
        |i: int| BusAction::Operate(i as usize),
    ) + seq![BusAction::Flush, BusAction::DeassertChipSelect, BusAction::UnlockBus]
}

/// Number of actions in the script of `count` operations.
pub open spec fn script_len(count: usize) -> int {
    count + 5
}

/// The stage that hands out the action at `position` of the script.
pub open spec fn stage_of(count: usize, position: int) -> Stage {
    if position == 0 {
        Stage::Locking
    } else if position == 1 {
        Stage::Selecting
    } else if position < count + 2 {
        Stage::Operating((position - 2) as usize)
    } else if position == count + 2 {
        Stage::Flushing
    } else if position == count + 3 {
        Stage::Deselecting
    } else {
        Stage::Unlocking
    }
}

/// The actions that follow a failure at `position` of the script: the chip
/// select is deasserted if it was asserted, the bus unlocked if it was
/// locked.
pub open spec fn release(count: usize, position: int) -> Seq<BusAction> {
    if position == 0 || position == count + 4 {
        Seq::empty()
    } else if position == 1 || position == count + 3 {
        seq![BusAction::UnlockBus]
    } else {
        seq![BusAction::DeassertChipSelect, BusAction::UnlockBus]
    }
}

/// Whether the first `count` outcomes report success.
pub open spec fn all_done<E>(outcomes: Seq<Outcome<E>>, count: int) -> bool {
    forall|i: int| 0 <= i < count ==> #[trigger] outcomes[i] is Done
}

proof fn lemma_script_at(count: usize, position: int)
    requires
        0 <= position < script_len(count),
    ensures
        script(count).len() == script_len(count),
        script(count)[position] == stage_action(stage_of(count, position)),
{
}

proof fn lemma_forward_stage(count: usize, position: int)
    requires
        0 <= position < script_len(count) - 1,
    ensures
        forward_stage(count, stage_of(count, position)) == Some(stage_of(count, position + 1)),
{
}

proof fn lemma_forward_run<E>(
    transaction: TransactionView<E>,
    position: int,
    outcomes: Seq<Outcome<E>>,
)
    requires
        0 <= position < script_len(transaction.count),
        transaction.stage == stage_of(transaction.count, position),
        transaction.failure is None,
        outcomes.len() >= script_len(transaction.count) - position,
        all_done(outcomes, script_len(transaction.count) - position),
    ensures
        run(StepView::Perform(transaction.pending(), transaction), outcomes) == (Run::<E> {
            actions: script(transaction.count).subrange(position, script_len(transaction.count)),
            result: Some(Ok(())),
        }),
    decreases script_len(transaction.count) - position,
{
    let count = transaction.count;
    let end = script_len(count);
    let whole = script(count);
    let step = transaction.advance(outcomes[0]);
    let seen = run(StepView::Perform(transaction.pending(), transaction), outcomes);
    reveal_with_fuel(run, 2);
    lemma_script_at(count, position);
    assert(outcomes[0] is Done);
    if position == end - 1 {
        assert(step == StepView::<E>::Finished(Ok(())));
        assert(seen.actions =~= whole.subrange(position, end));
    } else {
        lemma_forward_stage(count, position);
        let next = transaction.at(stage_of(count, position + 1), None);
        assert(step == StepView::Perform(next.pending(), next));
        let rest = outcomes.drop_first();
        assert(all_done(rest, end - (position + 1))) by {
            assert forall|i: int| 0 <= i < end - (position + 1) implies #[trigger] rest[i] is Done by {
                assert(outcomes[i + 1] is Done);
            }
        }
        lemma_forward_run(next, position + 1, rest);
        assert(seen.actions =~= whole.subrange(position, end));
    }
}

proof fn lemma_failing_run<E>(
    transaction: TransactionView<E>,
    position: int,
    outcomes: Seq<Outcome<E>>,
    ahead: int,
)
    requires
        0 <= position,
        0 <= ahead,
        position + ahead < script_len(transaction.count),
        transaction.stage == stage_of(transaction.count, position),
        transaction.failure is None,
        outcomes.len() >= script_len(transaction.count) - position,
        all_done(outcomes, ahead),
        !(outcomes[ahead] is Done),
    ensures
        run(StepView::Perform(transaction.pending(), transaction), outcomes) == (Run::<E> {
            actions: script(transaction.count).subrange(position, position + ahead + 1) + release(
                transaction.count,
                position + ahead,
            ),
            result: Some(
                conclusion(fault_of(stage_of(transaction.count, position + ahead), outcomes[ahead])),
            ),
        }),
    decreases ahead,
{
    let count = transaction.count;
    let whole = script(count);
    let step = transaction.advance(outcomes[0]);
    let seen = run(StepView::Perform(transaction.pending(), transaction), outcomes);
    let rest = outcomes.drop_first();
    reveal_with_fuel(run, 4);
    lemma_script_at(count, position);
    if ahead == 0 {
        let failure = fault_of(transaction.stage, outcomes[0]);
        let expected = whole.subrange(position, position + 1) + release(count, position);
        assert(failure is Some);
        match cleanup_stage(transaction.stage) {
            None => {
                assert(step == StepView::Finished(conclusion(failure)));
                assert(seen.actions =~= expected);
            },
            Some(Stage::Unlocking) => {
                let unlocking = transaction.at(Stage::Unlocking, failure);
                assert(step == StepView::Perform(BusAction::UnlockBus, unlocking));
                assert(unlocking.advance(rest[0]) == StepView::Finished(conclusion(failure)));
                assert(run(step, rest).actions =~= seq![BusAction::UnlockBus]);
                assert(seen.actions =~= expected);
            },
            Some(_) => {
                let deselecting = transaction.at(Stage::Deselecting, failure);
                let unlocking = transaction.at(Stage::Unlocking, failure);
                let last = rest.drop_first();
                assert(step == StepView::Perform(BusAction::DeassertChipSelect, deselecting));
                assert(deselecting.advance(rest[0]) == StepView::Perform(
                    BusAction::UnlockBus,
                    unlocking,
                ));
                assert(unlocking.advance(last[0]) == StepView::Finished(conclusion(failure)));
                assert(run(deselecting.advance(rest[0]), last).actions =~= seq![
                    BusAction::UnlockBus,
                ]);
                assert(run(step, rest).actions =~= seq![
                    BusAction::DeassertChipSelect,
                    BusAction::UnlockBus,
                ]);
                assert(seen.actions =~= expected);
            },
        }
    } else {
        assert(outcomes[0] is Done);
        lemma_forward_stage(count, position);
        let next = transaction.at(stage_of(count, position + 1), None);
        assert(step == StepView::Perform(next.pending(), next));
        assert(all_done(rest, ahead - 1)) by {
            assert forall|i: int| 0 <= i < ahead - 1 implies #[trigger] rest[i] is Done by {
                assert(outcomes[i + 1] is Done);
            }
        }
        assert(rest[ahead - 1] == outcomes[ahead]);
        lemma_failing_run(next, position + 1, rest, ahead - 1);
        assert(seen.actions =~= whole.subrange(position, position + ahead + 1) + release(
            count,
            position + ahead,
        ));
    }
}

/// A transaction in which every action succeeds hands out the whole script
/// and reports success.
pub proof fn lemma_undisturbed_transaction<E>(count: usize, outcomes: Seq<Outcome<E>>)
    requires
        outcomes.len() >= script_len(count),
        all_done(outcomes, script_len(count)),
    ensures
        run(first_step(count), outcomes) == (Run::<E> {
            actions: script(count),
            result: Some(Ok(())),
        }),
{
    let start = TransactionView::<E> { count, stage: Stage::Locking, failure: None };
    lemma_forward_run(start, 0, outcomes);
    assert(script(count).subrange(0, script_len(count)) =~= script(count));
}

/// A transaction whose first failure answers the action at `position` of
/// the script hands out the script up to that action, then releases what
/// it had acquired, and reports that failure, whatever came back while
/// releasing.
pub proof fn lemma_failed_transaction<E>(count: usize, outcomes: Seq<Outcome<E>>, position: int)
    requires
        0 <= position < script_len(count),
        outcomes.len() >= script_len(count),
        all_done(outcomes, position),
        !(outcomes[position] is Done),
    ensures
        run(first_step(count), outcomes) == (Run::<E> {
            actions: script(count).take(position + 1) + release(count, position),
            result: Some(conclusion(fault_of(stage_of(count, position), outcomes[position]))),
        }),
{
    let start = TransactionView::<E> { count, stage: Stage::Locking, failure: None };
    lemma_failing_run(start, 0, outcomes, position);
    assert(script(count).subrange(0, position + 1) =~= script(count).take(position + 1));
}

/// A transaction without operations still locks the bus, asserts the chip
/// select, flushes, deasserts the chip select and unlocks the bus, and
/// reports success if all of that went well.
pub proof fn lemma_empty_transaction<E>(outcomes: Seq<Outcome<E>>)
    requires
        outcomes.len() >= 5,
        all_done(outcomes, 5),
    ensures
        run(first_step(0), outcomes) == (Run::<E> {
            actions: seq![
                BusAction::LockBus,
                BusAction::AssertChipSelect,
                BusAction::Flush,
                BusAction::DeassertChipSelect,
                BusAction::UnlockBus,
            ],
            result: Some(Ok(())),
        }),
{
    lemma_undisturbed_transaction(0, outcomes);
    assert(script(0) =~= seq![
        BusAction::LockBus,
        BusAction::AssertChipSelect,
        BusAction::Flush,
        BusAction::DeassertChipSelect,
        BusAction::UnlockBus,
    ]);
}

proof fn first_failure_position<E>(outcomes: Seq<Outcome<E>>, limit: int) -> (position: int)
    requires
        0 <= limit <= outcomes.len(),
    ensures
        0 <= position <= limit,
        all_done(outcomes, position),
        position < limit ==> !(outcomes[position] is Done),
    decreases limit,
{
    if limit == 0 {
        0
    } else {
        let earlier = first_failure_position(outcomes, limit - 1);
        if earlier < limit - 1 {
            earlier
        } else if outcomes[limit - 1] is Done {
            limit
        } else {
            limit - 1
        }
    }
}

/// Every transaction comes to its end within the length of its script, and
/// gives back what it acquired, whatever fails on the way. It succeeds
/// exactly when every action did. It starts by locking the bus; if that
/// fails, nothing else happens. If the bus was locked, the last action
/// unlocks it. If the chip select was asserted as well, the action before
/// the last deasserts it.
pub proof fn lemma_acquired_is_released<E>(count: usize, outcomes: Seq<Outcome<E>>)
    requires
        outcomes.len() >= script_len(count),
    ensures
        ({
            let seen = run(first_step(count), outcomes);
            let handed_out = seen.actions.len() as int;
            &&& seen.result is Some
            &&& seen.result == Some(Ok::<(), SpiDeviceWrapperError<E>>(())) <==> all_done(
                outcomes,
                script_len(count),
            )
            &&& 1 <= handed_out <= script_len(count)
            &&& seen.actions[0] == BusAction::LockBus
            &&& !(outcomes[0] is Done) ==> handed_out == 1
            &&& outcomes[0] is Done ==> seen.actions[handed_out - 1] == BusAction::UnlockBus
            &&& outcomes[0] is Done && outcomes[1] is Done ==> seen.actions[handed_out - 2]
                == BusAction::DeassertChipSelect
        }),
{
    let end = script_len(count);
    let whole = script(count);
    let position = first_failure_position(outcomes, end);
    lemma_script_at(count, 0);
    lemma_script_at(count, end - 1);
    lemma_script_at(count, end - 2);
    if position == end {
        lemma_undisturbed_transaction(count, outcomes);
    } else {
        lemma_failed_transaction(count, outcomes, position);
        lemma_script_at(count, position);
        let seen = run(first_step(count), outcomes);
        let kept = whole.take(position + 1);
        let given_back = release(count, position);
        assert(seen.actions == kept + given_back);
        assert(fault_of(stage_of(count, position), outcomes[position]) is Some);
        assert(kept[0] == whole[0]);
        if position == end - 1 {
            assert(kept[end - 1] == whole[end - 1]);
            assert(kept[end - 2] == whole[end - 2]);
        } else if position == end - 2 {
            assert(kept[end - 2] == whole[end - 2]);
        }
    }
}

} // verus!
