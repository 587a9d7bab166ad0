//! Running an operation over pulls that are already at hand.
//!
//! A caller that reads ahead, or that replays a recorded conversation, queues
//! what it pulled and lets the operation take from the front of the queue as
//! much as it needs. What is left in the queue has not been looked at.

use vstd::prelude::*;
use std::collections::VecDeque;
use crate::frame::ResponseData;
use crate::handle::{Error, Handle, State};
use crate::outcome::{IdleResponse, Step};
use crate::stream::{IdleStream, Pulled};
use crate::trace::{init_run, wait_run};

verus! {

/// Initialises the idle connection from the queued pulls, for the `IDLE`
/// command issued under `id`.
///
/// Returns `None` where the queue ran out before the server answered; the
/// caller queues more and calls again. Forwarded frames are appended to
/// `unsolicited` in the order in which they arrived.
pub fn init<S, T, E>(
    handle: &mut Handle<S>,
    id: &String,
    pulls: &mut VecDeque<Option<Result<ResponseData<T>, E>>>,
    unsolicited: &mut Vec<ResponseData<T>>,
) -> (outcome: Option<Result<(), Error<E>>>)
    ensures
        outcome == init_run(*id, old(pulls)@).outcome,
        final(pulls)@ == old(pulls)@.skip(init_run(*id, old(pulls)@).consumed as int),
        final(unsolicited)@ == old(unsolicited)@ + init_run(*id, old(pulls)@).forwarded,
        final(handle)@.session == old(handle)@.session,
        final(handle)@.state == match outcome {
            Some(Ok(_)) => State::Idling { id: *id },
            Some(Err(_)) => State::Failed,
            None => old(handle)@.state,
        },
{
    let ghost whole = init_run(*id, pulls@);
    let ghost mut taken: int = 0;
    loop
        invariant
            whole == init_run(*id, old(pulls)@),
            0 <= taken <= old(pulls)@.len(),
            pulls@ == old(pulls)@.skip(taken),
            whole.consumed == taken + init_run(*id, pulls@).consumed,
            whole.outcome == init_run(*id, pulls@).outcome,
            old(unsolicited)@ + whole.forwarded == unsolicited@ + init_run(*id, pulls@).forwarded,
            handle@ == old(handle)@,
        decreases pulls@.len(),
    {
        let pulled = match pulls.pop_front() {
            None => return None,
            Some(pulled) => pulled,
        };
        proof {
            taken = taken + 1;
        }
        match handle.init(id, pulled) {
            Step::Continue => {},
            Step::Forward(frame) => unsolicited.push(frame),
            Step::Ready(result) => return Some(result),
        }
    }
}

/// Runs the wait that began with `stream` over the queued pulls.
///
/// Returns `None` where the queue ran out before the wait ended; the caller
/// queues more and calls again. Forwarded frames are appended to `unsolicited`
/// in the order in which they arrived.
pub fn wait<S, T, E>(
    stream: &IdleStream,
    handle: &mut Handle<S>,
    pulls: &mut VecDeque<Pulled<T, E>>,
    unsolicited: &mut Vec<ResponseData<T>>,
) -> (outcome: Option<Result<IdleResponse<T>, E>>)
    requires
        old(handle)@.state is Idling,
    ensures
        outcome == wait_run(old(pulls)@).outcome,
        final(pulls)@ == old(pulls)@.skip(wait_run(old(pulls)@).consumed as int),
        final(unsolicited)@ == old(unsolicited)@ + wait_run(old(pulls)@).forwarded,
        final(handle)@.session == old(handle)@.session,
        final(handle)@.state == match outcome {
            Some(Err(_)) => State::Failed,
            _ => old(handle)@.state,
        },
{
    let ghost whole = wait_run(pulls@);
    let ghost mut taken: int = 0;
    loop
        invariant
            whole == wait_run(old(pulls)@),
            0 <= taken <= old(pulls)@.len(),
            pulls@ == old(pulls)@.skip(taken),
            whole.consumed == taken + wait_run(pulls@).consumed,
            whole.outcome == wait_run(pulls@).outcome,
            old(unsolicited)@ + whole.forwarded == unsolicited@ + wait_run(pulls@).forwarded,
            handle@ == old(handle)@,
            handle@.state is Idling,
        decreases pulls@.len(),
    {
        let pulled = match pulls.pop_front() {
            None => return None,
            Some(pulled) => pulled,
        };
        proof {
            taken = taken + 1;
        }
        match stream.poll_next(handle, pulled) {
            Step::Continue => {},
            Step::Forward(frame) => unsolicited.push(frame),
            Step::Ready(result) => return Some(result),
        }
    }
}

} // verus!
