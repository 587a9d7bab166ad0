//! What holds of the classifier, of `init`, of waits and of `done`, whatever
//! the server sends.

use vstd::prelude::*;
use crate::classify::{spec_classify, Action};
use crate::frame::{Response, ResponseData, Status};
use crate::handle::{spec_done, spec_init_step, spec_state_after_init, Error, State};
use crate::outcome::{IdleResponse, Step};
use crate::stream::{spec_state_after_wait, spec_wait_step, Pulled};
use crate::trace::{
    init_run, init_steps, lemma_run_bounds, lemma_run_pending, lemma_run_stops_at, run, wait_run,
    wait_steps, Run,
};

verus! {

/// A frame that reports an event: neither a keepalive, nor a continuation
/// request, nor a tagged completion.
pub open spec fn is_news(parsed: Response) -> bool {
    &&& !parsed.is_keepalive()
    &&& !(parsed is Continue)
    &&& !(parsed is Done)
}

/// A pull that keeps a wait going: a frame that reports no event.
pub open spec fn is_quiet<T, E>(pulled: Pulled<T, E>) -> bool {
    pulled matches Pulled::Frame(frame) && !is_news(frame.parsed)
}

/// The tagged completions among `pulls`, in order.
pub open spec fn tagged_completions<T, E>(pulls: Seq<Pulled<T, E>>) -> Seq<ResponseData<T>>
    decreases pulls.len(),
{
    if pulls.len() == 0 {
        Seq::empty()
    } else {
        match pulls[0] {
            Pulled::Frame(frame) if frame.parsed is Done => seq![frame] + tagged_completions(
                pulls.drop_first(),
            ),
            _ => tagged_completions(pulls.drop_first()),
        }
    }
}

/// The index of the first frame that reports an event, or the number of
/// frames where none does.
pub open spec fn first_news<T>(frames: Seq<ResponseData<T>>) -> int
    decreases frames.len(),
{
    if frames.len() == 0 || is_news(frames[0].parsed) {
        0
    } else {
        1 + first_news(frames.drop_first())
    }
}

/// The pulls of a session that delivers `frames` and nothing else.
pub open spec fn delivered<T, E>(frames: Seq<ResponseData<T>>) -> Seq<Pulled<T, E>> {
    frames.map_values(|frame: ResponseData<T>| Pulled::Frame(frame))
}

/// The classifier knows three answers and no exception: what is neither a
/// keepalive, a continuation request nor a tagged completion is news.
pub proof fn law_unrecognized_is_news(parsed: Response)
    ensures
        spec_classify(parsed) == Action::NewData <==> is_news(parsed),
        spec_classify(parsed) == Action::Forward <==> parsed is Done,
        spec_classify(parsed) == Action::KeepWaiting <==> (parsed is Continue
            || parsed == Response::Data { status: Status::OK }),
        parsed matches Response::Data { status } ==> (is_news(parsed) <==> status != Status::OK),
        parsed is Other ==> is_news(parsed),
{
}

/// A tagged completion is handed to the unsolicited-response channel, and the
/// wait goes on: it never ends a wait, in particular not as new data.
pub proof fn law_tagged_completion_is_forwarded<T, E>(frame: ResponseData<T>)
    requires
        frame.parsed is Done,
    ensures
        spec_wait_step::<T, E>(Pulled::Frame(frame)) == Step::<
            T,
            Result<IdleResponse<T>, E>,
        >::Forward(frame),
{
}

/// Over any sequence of pulls, no wait returns a tagged completion as new
/// data, and the frames it forwards are exactly the tagged completions among
/// the pulls it took, in the order of their arrival.
pub proof fn law_tagged_completions_are_never_news<T, E>(pulls: Seq<Pulled<T, E>>)
    ensures
        wait_run(pulls).outcome matches Some(Ok(IdleResponse::NewData(frame)))
            ==> !(frame.parsed is Done),
        wait_run(pulls).forwarded == tagged_completions(
            pulls.take(wait_run(pulls).consumed as int),
        ),
    decreases pulls.len(),
{
    if pulls.len() > 0 {
        let taken = wait_run(pulls).consumed as int;
        let rest = pulls.drop_first();
        law_tagged_completions_are_never_news(rest);
        lemma_run_bounds(wait_steps(), rest);
        if spec_wait_step(pulls[0]) is Ready {
            assert(tagged_completions(pulls.take(1).drop_first()).len() == 0);
        } else {
            assert(pulls.take(taken).drop_first() =~= rest.take(taken - 1));
        }
    }
}

/// Where the session delivers frames of which at least one reports an event,
/// the wait returns the first such frame as new data, and takes no frame
/// after it.
pub proof fn law_first_news_ends_wait<T, E>(frames: Seq<ResponseData<T>>, k: int)
    requires
        0 <= k < frames.len(),
        is_news(frames[k].parsed),
    ensures
        0 <= first_news(frames) <= k,
        is_news(frames[first_news(frames)].parsed),
        forall|j: int| 0 <= j < first_news(frames) ==> !is_news(#[trigger] frames[j].parsed),
        wait_run(delivered::<T, E>(frames)).outcome == Some(
            Ok::<IdleResponse<T>, E>(IdleResponse::NewData(frames[first_news(frames)])),
        ),
        wait_run(delivered::<T, E>(frames)).consumed == first_news(frames) + 1,
{
    lemma_first_news(frames, k);
    let i = first_news(frames);
    let pulls = delivered::<T, E>(frames);
    assert forall|j: int| 0 <= j < i implies !(#[trigger] wait_steps::<T, E>()(pulls[j]) is Ready) by {}
    lemma_run_stops_at(wait_steps(), pulls, i);
}

/// Where the session delivers frames of which none reports an event, the
/// wait takes them all and goes on.
pub proof fn law_quiet_frames_keep_waiting<T, E>(frames: Seq<ResponseData<T>>)
    requires
        forall|j: int| 0 <= j < frames.len() ==> !is_news(#[trigger] frames[j].parsed),
    ensures
        wait_run(delivered::<T, E>(frames)).outcome is None,
        wait_run(delivered::<T, E>(frames)).consumed == frames.len(),
{
    let pulls = delivered::<T, E>(frames);
    assert forall|j: int| 0 <= j < pulls.len() implies !(#[trigger] wait_steps::<T, E>()(
        pulls[j],
    ) is Ready) by {
        assert(!is_news(frames[j].parsed));
    }
    lemma_run_pending(wait_steps(), pulls);
}

proof fn lemma_first_news<T>(frames: Seq<ResponseData<T>>, k: int)
    requires
        0 <= k < frames.len(),
        is_news(frames[k].parsed),
    ensures
        0 <= first_news(frames) <= k,
        is_news(frames[first_news(frames)].parsed),
        forall|j: int| 0 <= j < first_news(frames) ==> !is_news(#[trigger] frames[j].parsed),
    decreases frames.len(),
{
    if !is_news(frames[0].parsed) {
        let rest = frames.drop_first();
        lemma_first_news(rest, k - 1);
        assert forall|j: int| 0 <= j < first_news(frames) implies !is_news(
            #[trigger] frames[j].parsed,
        ) by {
            if j > 0 {
                assert(rest[j - 1] == frames[j]);
            }
        }
    }
}

/// Where the interrupt is triggered before any frame that reports an event
/// has arrived, the wait returns `ManualInterrupt` and takes nothing after
/// the interruption.
pub proof fn law_interrupt_ends_wait<T, E>(pulls: Seq<Pulled<T, E>>, i: int)
    requires
        0 <= i < pulls.len(),
        pulls[i] is Interrupted,
        forall|j: int| 0 <= j < i ==> is_quiet(#[trigger] pulls[j]),
    ensures
        wait_run(pulls).outcome == Some(Ok::<IdleResponse<T>, E>(IdleResponse::ManualInterrupt)),
        wait_run(pulls).consumed == i + 1,
{
    assert forall|j: int| 0 <= j < i implies !(#[trigger] wait_steps::<T, E>()(pulls[j]) is Ready) by {}
    lemma_run_stops_at(wait_steps(), pulls, i);
}

/// Where a pull brings nothing within the timeout, after frames that report
/// no event, the wait returns `Timeout` and takes nothing after that pull.
/// Every pull has the whole timeout, so the silence that ends the wait is
/// measured from the last frame, or from the start where there was none.
pub proof fn law_silence_ends_wait<T, E>(pulls: Seq<Pulled<T, E>>, i: int)
    requires
        0 <= i < pulls.len(),
        pulls[i] is Elapsed,
        forall|j: int| 0 <= j < i ==> is_quiet(#[trigger] pulls[j]),
    ensures
        wait_run(pulls).outcome == Some(Ok::<IdleResponse<T>, E>(IdleResponse::Timeout)),
        wait_run(pulls).consumed == i + 1,
{
    assert forall|j: int| 0 <= j < i implies !(#[trigger] wait_steps::<T, E>()(pulls[j]) is Ready) by {}
    lemma_run_stops_at(wait_steps(), pulls, i);
}

/// Where a pull fails, after frames that report no event, the wait returns
/// that failure unchanged and leaves the connection failed.
pub proof fn law_failure_ends_wait<T, E>(state: State, pulls: Seq<Pulled<T, E>>, i: int)
    requires
        0 <= i < pulls.len(),
        pulls[i] is Failed,
        forall|j: int| 0 <= j < i ==> is_quiet(#[trigger] pulls[j]),
    ensures
        wait_run(pulls).outcome == Some(Err::<IdleResponse<T>, E>(pulls[i]->Failed_0)),
        wait_run(pulls).consumed == i + 1,
        spec_state_after_wait(state, spec_wait_step(pulls[i])) == State::Failed,
{
    assert forall|j: int| 0 <= j < i implies !(#[trigger] wait_steps::<T, E>()(pulls[j]) is Ready) by {}
    lemma_run_stops_at(wait_steps(), pulls, i);
}

/// `init` and then `done`, with nothing in between: where the server answers
/// `IDLE` with a continuation request and confirms `DONE`, `init` succeeds
/// on that one frame, the connection is idling under the command's
/// identifier, which is what `done` asks for, and `done` gives back the very
/// session that the handle was made with.
pub proof fn law_init_then_done<S, T, E>(session: S, state: State, id: String, frame: ResponseData<T>)
    requires
        frame.parsed is Continue,
    ensures
        spec_init_step::<T, E>(id, Some(Ok(frame))) == Step::<T, Result<(), Error<E>>>::Ready(Ok(())),
        spec_state_after_init(state, id, spec_init_step::<T, E>(id, Some(Ok(frame))))
            == (State::Idling { id }),
        spec_done::<S, E>(session, Ok(())) == Ok::<S, E>(session),
{
}

/// `init` drops no frame: every pull that it takes before the one that
/// decides is a frame, and is handed to the unsolicited-response channel, in
/// the order of arrival.
pub proof fn law_init_forwards_what_it_passes_over<T, E>(
    id: String,
    pulls: Seq<Option<Result<ResponseData<T>, E>>>,
)
    ensures
        init_run(id, pulls).forwarded.len() + (if init_run(id, pulls).outcome is Some {
            1int
        } else {
            0int
        }) == init_run(id, pulls).consumed,
        forall|j: int|
            0 <= j < init_run(id, pulls).forwarded.len() ==> #[trigger] pulls[j] == Some(
                Ok::<ResponseData<T>, E>(init_run(id, pulls).forwarded[j]),
            ),
    decreases pulls.len(),
{
    if pulls.len() > 0 {
        let rest = pulls.drop_first();
        law_init_forwards_what_it_passes_over(id, rest);
        lemma_run_bounds(init_steps(id), rest);
        assert forall|j: int| 0 <= j < init_run(id, pulls).forwarded.len() implies #[trigger] pulls[j]
            == Some(Ok::<ResponseData<T>, E>(init_run(id, pulls).forwarded[j])) by {
            if j > 0 {
                assert(pulls[j] == rest[j - 1]);
            }
        }
    }
}

/// Where the frames end before a continuation request or a tagged completion
/// has arrived, `init` fails with a refused connection, having taken nothing
/// after the end, and the connection is left failed.
pub proof fn law_closed_stream_refuses_init<T, E>(
    state: State,
    id: String,
    pulls: Seq<Option<Result<ResponseData<T>, E>>>,
    i: int,
)
    requires
        0 <= i < pulls.len(),
        pulls[i] is None,
        forall|j: int|
            0 <= j < i ==> (#[trigger] pulls[j] matches Some(Ok(frame)) && !(frame.parsed is Continue)
                && !(frame.parsed is Done)),
    ensures
        init_run(id, pulls).outcome == Some(Err::<(), Error<E>>(Error::Closed)),
        Error::<E>::Closed.is_connection_refused(),
        init_run(id, pulls).consumed == i + 1,
        spec_state_after_init(state, id, spec_init_step(id, pulls[i])) == State::Failed,
{
    assert forall|j: int| 0 <= j < i implies !(#[trigger] init_steps::<T, E>(id)(pulls[j]) is Ready) by {}
    lemma_run_stops_at(init_steps(id), pulls, i);
}

/// A run can be taken up again: over pulls that come in two parts, it is the
/// run over the first part where that has an outcome, and else goes on over
/// the second part where the first left off.
pub proof fn law_run_resumes<P, T, R>(step: spec_fn(P) -> Step<T, R>, first: Seq<P>, second: Seq<P>)
    ensures
        run(step, first).outcome is Some ==> run(step, first + second) == run(step, first),
        run(step, first).outcome is None ==> run(step, first + second) == (Run {
            consumed: first.len() + run(step, second).consumed,
            forwarded: run(step, first).forwarded + run(step, second).forwarded,
            outcome: run(step, second).outcome,
        }),
    decreases first.len(),
{
    if first.len() == 0 {
        assert(run(step, first).forwarded + run(step, second).forwarded =~= run(
            step,
            second,
        ).forwarded);
    } else {
        let rest = first.drop_first();
        law_run_resumes(step, rest, second);
        assert((first + second).drop_first() =~= rest + second);
        match step(first[0]) {
            Step::Forward(frame) => {
                assert(seq![frame] + (run(step, rest).forwarded + run(step, second).forwarded)
                    =~= (seq![frame] + run(step, rest).forwarded) + run(step, second).forwarded);
            },
            _ => {},
        }
    }
}

} // verus!
