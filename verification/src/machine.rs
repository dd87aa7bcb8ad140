//! The shape shared by all state machines of the service.

use vstd::prelude::*;
use crate::models::AuthError;
use crate::store::Action;
use crate::store::ActionView;
use crate::store::EventView;
use crate::store::Stores;

verus! {

/// What a state machine wants next.
#[derive(Clone, Debug, PartialEq, Eq)]
pub enum Step<S, T> {
    /// Perform `action`, then call the machine again with `state` and the
    /// event that reports the answer.
    Ask { action: Action, state: S },
    /// The operation succeeded with this result.
    Done(T),
    /// The operation failed.
    Failed(AuthError),
}

/// A [`Step`] over the views of its action, state and result.
pub enum StepView<S, T> {
    Ask { action: ActionView, state: S },
    Done(T),
    Failed(AuthError),
}

impl<S: View, T: DeepView> View for Step<S, T> {
    type V = StepView<S::V, T::V>;

    open spec fn view(&self) -> StepView<S::V, T::V> {
        match *self {
            Step::Ask { action, state } => StepView::Ask { action: action@, state: state@ },
            Step::Done(result) => StepView::Done(result.deep_view()),
            Step::Failed(error) => StepView::Failed(error),
        }
    }
}

/// Drives a machine against the model stores: performs each action it asks
/// for at the instant `now` and hands back the answer, for at most `fuel`
/// actions. Gives the stores as they are left and the step reached.
pub open spec fn run<S, T>(
    machine: spec_fn(S, EventView) -> StepView<S, T>,
    state: S,
    event: EventView,
    stores: Stores,
    now: nat,
    fuel: nat,
) -> (Stores, StepView<S, T>)
    decreases fuel,
{
    match machine(state, event) {
        StepView::Ask { action, state: next } => if fuel == 0 {
            (stores, machine(state, event))
        } else {
            let (after, answer) = stores.perform(now, action);
            run(machine, next, answer, after, now, (fuel - 1) as nat)
        },
        finished => (stores, finished),
    }
}

} // verus!
