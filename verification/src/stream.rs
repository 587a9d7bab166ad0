//! The interruptible, timeout-bounded frame source of one wait, and what a
//! wait makes of each element pulled from it.

use vstd::prelude::*;
use core::time::Duration;
use stop_token::StopToken;
use crate::classify::{classify, spec_classify, Action};
use crate::frame::ResponseData;
use crate::handle::{Handle, State};
use crate::outcome::{IdleResponse, Step};

verus! {

/// Seconds in the default bound of a wait: 24 hours.
pub const DEFAULT_TIMEOUT_SECS: u64 = 24 * 60 * 60;

/// The duration that `Duration::from_secs` makes of a number of seconds.
pub uninterp spec fn duration_from_secs(secs: u64) -> Duration;

/// `Duration::from_secs`: its result is a function of its argument alone,
/// named [`duration_from_secs`].
pub assume_specification[ core::time::Duration::from_secs ](secs: u64) -> (duration: Duration)
    ensures
        duration == duration_from_secs(secs),
;

/// The result of one pull from the frame source.
///
/// The source races the session's frames against the interrupt, and that race
/// against the timeout of the wait. The caller runs the race and reports here
/// how it ended.
#[derive(Clone, Debug, PartialEq, Eq)]
pub enum Pulled<T, E> {
    /// The session delivered a frame.
    Frame(ResponseData<T>),
    /// Reading or parsing the next frame failed.
    Failed(E),
    /// The interrupt was triggered before a frame arrived.
    Interrupted,
    /// The session's frames came to an end.
    Closed,
    /// Nothing arrived within the timeout.
    Elapsed,
}

/// What a wait makes of one pull: a timeout or an interruption ends it, so
/// does the end of the frames, which counts as an interruption; a failure is
/// passed on unchanged; a frame goes by its classification.
pub open spec fn spec_wait_step<T, E>(pulled: Pulled<T, E>) -> Step<T, Result<IdleResponse<T>, E>> {
    match pulled {
        Pulled::Elapsed => Step::Ready(Ok(IdleResponse::Timeout)),
        Pulled::Interrupted => Step::Ready(Ok(IdleResponse::ManualInterrupt)),
        Pulled::Closed => Step::Ready(Ok(IdleResponse::ManualInterrupt)),
        Pulled::Failed(e) => Step::Ready(Err(e)),
        Pulled::Frame(frame) => match spec_classify(frame.parsed) {
            Action::KeepWaiting => Step::Continue,
            Action::Forward => Step::Forward(frame),
            Action::NewData => Step::Ready(Ok(IdleResponse::NewData(frame))),
        },
    }
}

/// The state a wait leaves the connection in: failed once a pull has failed,
/// idling as before in every other case.
pub open spec fn spec_state_after_wait<T, E>(
    state: State,
    step: Step<T, Result<IdleResponse<T>, E>>,
) -> State {
    match step {
        Step::Ready(Err(_)) => State::Failed,
        _ => state,
    }
}

/// The frame source of one wait: how long each pull may take, and the token of
/// the interrupt that ends it early.
///
/// Only [`Handle::wait`] and [`Handle::wait_with_timeout`] make one, so a wait
/// can be stepped only on a connection that was idling when it began.
#[derive(Debug)]
#[must_use]
pub struct IdleStream {
    timeout: Duration,
    token: StopToken,
}

impl IdleStream {
    pub closed spec fn spec_timeout(&self) -> Duration {
        self.timeout
    }

    pub(crate) fn new(timeout: Duration, token: StopToken) -> (stream: Self)
        ensures
            stream.timeout() == timeout,
    {
        IdleStream { timeout, token }
    }

    /// The bound on each pull. It is the same for every pull, so the clock
    /// starts anew with every frame that arrives, keepalives included.
    #[verifier::when_used_as_spec(spec_timeout)]
    pub fn timeout(&self) -> (timeout: Duration)
        ensures
            timeout == self.timeout(),
    {
        self.timeout
    }

    pub closed spec fn spec_token(&self) -> &StopToken {
        &self.token
    }

    /// The token that completes when the interrupt of this wait is triggered.
    #[verifier::when_used_as_spec(spec_token)]
    pub fn token(&self) -> (token: &StopToken)
        ensures
            token == self.token(),
    {
        &self.token
    }

    /// Takes the result of one pull and says how the wait goes on.
    ///
    /// The caller pulls again after `Continue` and `Forward`, and stops at
    /// `Ready`. A failed pull leaves the connection failed.
    pub fn poll_next<S, T, E>(&self, handle: &mut Handle<S>, pulled: Pulled<T, E>) -> (step: Step<
        T,
        Result<IdleResponse<T>, E>,
    >)
        requires
            old(handle)@.state is Idling,
        ensures
            step == spec_wait_step(pulled),
            final(handle)@.state == spec_state_after_wait(old(handle)@.state, step),
            final(handle)@.session == old(handle)@.session,
    {
        match pulled {
            Pulled::Elapsed => Step::Ready(Ok(IdleResponse::Timeout)),
            Pulled::Interrupted => Step::Ready(Ok(IdleResponse::ManualInterrupt)),
            Pulled::Closed => Step::Ready(Ok(IdleResponse::ManualInterrupt)),
            Pulled::Failed(e) => {
                handle.fail();
                Step::Ready(Err(e))
            },
            Pulled::Frame(frame) => match classify(frame.parsed()) {
                Action::KeepWaiting => Step::Continue,
                Action::Forward => Step::Forward(frame),
                Action::NewData => Step::Ready(Ok(IdleResponse::NewData(frame))),
            },
        }
    }
}

} // verus!
