//! What an operation makes of a whole sequence of pulls, one step after the
//! other, as far as the sequence goes.

use vstd::prelude::*;
use crate::frame::ResponseData;
use crate::handle::{spec_init_step, Error};
use crate::outcome::{IdleResponse, Step};
use crate::stream::{spec_wait_step, Pulled};

verus! {

/// The course of an operation over a sequence of pulls.
pub struct Run<T, R> {
    /// How many pulls were taken. Nothing after them was looked at.
    pub consumed: nat,
    /// The frames handed to the unsolicited-response channel, in order.
    pub forwarded: Seq<ResponseData<T>>,
    /// The result, where the pulls sufficed for one.
    pub outcome: Option<R>,
}

/// Steps through `pulls` from the front and stops at the first pull that
/// makes the operation ready.
pub open spec fn run<P, T, R>(step: spec_fn(P) -> Step<T, R>, pulls: Seq<P>) -> Run<T, R>
    decreases pulls.len(),
{
    if pulls.len() == 0 {
        Run { consumed: 0, forwarded: Seq::empty(), outcome: None }
    } else {
        match step(pulls[0]) {
            Step::Ready(result) => Run {
                consumed: 1,
                forwarded: Seq::empty(),
                outcome: Some(result),
            },
            Step::Continue => {
                let rest = run(step, pulls.drop_first());
                Run { consumed: rest.consumed + 1, forwarded: rest.forwarded, outcome: rest.outcome }
            },
            Step::Forward(frame) => {
                let rest = run(step, pulls.drop_first());
                Run {
                    consumed: rest.consumed + 1,
                    forwarded: seq![frame] + rest.forwarded,
                    outcome: rest.outcome,
                }
            },
        }
    }
}

/// The step of a wait, as a function of the pull.
pub open spec fn wait_steps<T, E>() -> spec_fn(Pulled<T, E>) -> Step<T, Result<IdleResponse<T>, E>> {
    |pulled: Pulled<T, E>| spec_wait_step(pulled)
}

/// The step of `init` for the command `id`, as a function of the pull.
pub open spec fn init_steps<T, E>(id: String) -> spec_fn(Option<Result<ResponseData<T>, E>>) -> Step<
    T,
    Result<(), Error<E>>,
> {
    |pulled: Option<Result<ResponseData<T>, E>>| spec_init_step(id, pulled)
}

/// The course of a wait over `pulls`.
pub open spec fn wait_run<T, E>(pulls: Seq<Pulled<T, E>>) -> Run<T, Result<IdleResponse<T>, E>> {
    run(wait_steps(), pulls)
}

/// The course of `init` for the command `id` over `pulls`.
pub open spec fn init_run<T, E>(id: String, pulls: Seq<Option<Result<ResponseData<T>, E>>>) -> Run<
    T,
    Result<(), Error<E>>,
> {
    run(init_steps(id), pulls)
}

/// A run takes no more pulls than there are, and an unfinished one takes all.
pub proof fn lemma_run_bounds<P, T, R>(step: spec_fn(P) -> Step<T, R>, pulls: Seq<P>)
    ensures
        run(step, pulls).consumed <= pulls.len(),
        run(step, pulls).outcome is None ==> run(step, pulls).consumed == pulls.len(),
        run(step, pulls).outcome is Some ==> run(step, pulls).consumed >= 1,
    decreases pulls.len(),
{
    if pulls.len() > 0 {
        lemma_run_bounds(step, pulls.drop_first());
    }
}

/// A run ends exactly at the first pull that makes the operation ready: that
/// pull gives the outcome, and it is the last one taken.
pub proof fn lemma_run_stops_at<P, T, R>(step: spec_fn(P) -> Step<T, R>, pulls: Seq<P>, i: int)
    requires
        0 <= i < pulls.len(),
        step(pulls[i]) is Ready,
        forall|j: int| 0 <= j < i ==> !(#[trigger] step(pulls[j]) is Ready),
    ensures
        run(step, pulls).outcome == Some(step(pulls[i])->Ready_0),
        run(step, pulls).consumed == i + 1,
    decreases i,
{
    if i > 0 {
        let rest = pulls.drop_first();
        assert forall|j: int| 0 <= j < i - 1 implies !(#[trigger] step(rest[j]) is Ready) by {
        }
        lemma_run_stops_at(step, rest, i - 1);
    }
}

/// While no pull makes the operation ready, the run takes every pull and has
/// no outcome yet.
pub proof fn lemma_run_pending<P, T, R>(step: spec_fn(P) -> Step<T, R>, pulls: Seq<P>)
    requires
        forall|j: int| 0 <= j < pulls.len() ==> !(#[trigger] step(pulls[j]) is Ready),
    ensures
        run(step, pulls).outcome is None,
        run(step, pulls).consumed == pulls.len(),
    decreases pulls.len(),
{
    if pulls.len() > 0 {
        let rest = pulls.drop_first();
        assert forall|j: int| 0 <= j < rest.len() implies !(#[trigger] step(rest[j]) is Ready) by {
        }
        lemma_run_pending(step, rest);
    }
}

} // verus!
