//! The idle lifecycle: `init`, `wait`, `done`.

use vstd::prelude::*;
use core::time::Duration;
use stop_token::StopSource;
use crate::frame::{Response, ResponseData};
use crate::outcome::Step;
use crate::stream::{duration_from_secs, IdleStream, DEFAULT_TIMEOUT_SECS};

verus! {

/// The command that begins idling. It is issued under a tag, and its tagged
/// completion stays outstanding for as long as the connection idles.
pub const IDLE: &'static str = "IDLE";

/// The line that ends idling. It is sent without a tag; the server answers it
/// with the tagged completion of the pending `IDLE`.
pub const DONE: &'static str = "DONE";

/// Where a connection stands in the idle lifecycle.
///
/// A wait is no state of its own: the connection idles while it is waited on,
/// and a wait can be entered again as soon as the last one has returned. The
/// end of the lifecycle is none either: `done` takes the handle away.
#[derive(Clone, Debug, PartialEq, Eq)]
pub enum State {
    /// `IDLE` has not been acknowledged.
    Uninitialized,
    /// The server has acknowledged the `IDLE` command issued under `id`, which
    /// is still pending.
    Idling { id: String },
    /// `init` or a wait has failed. There is nothing to wait for and nothing
    /// to end; only another `init` leads on from here.
    Failed,
}

/// Why `init` failed.
#[derive(Clone, Debug, PartialEq, Eq)]
pub enum Error<E> {
    /// The server rejected `IDLE`; `reason` is the text it gave, if any.
    Rejected { reason: Option<String> },
    /// The frames came to an end before the server answered.
    Closed,
    /// Reading or parsing a frame failed.
    Transport(E),
}

impl State {
    /// The identifier of the pending `IDLE` command: there is one exactly
    /// while the connection idles.
    pub open spec fn spec_id(&self) -> Option<&String> {
        match self {
            State::Idling { id } => Some(id),
            _ => None,
        }
    }

    /// The identifier of the pending `IDLE` command.
    #[verifier::when_used_as_spec(spec_id)]
    pub fn id(&self) -> (id: Option<&String>)
        ensures
            id == self.spec_id(),
    {
        match self {
            State::Idling { id } => Some(id),
            _ => None,
        }
    }
}

impl<E> Error<E> {
    /// Whether the connection was refused: the server rejected `IDLE`, or its
    /// frames ended before it answered.
    pub open spec fn spec_is_connection_refused(&self) -> bool {
        self is Rejected || self is Closed
    }

    /// Whether the connection was refused.
    #[verifier::when_used_as_spec(spec_is_connection_refused)]
    pub fn is_connection_refused(&self) -> (refused: bool)
        ensures
            refused == self.spec_is_connection_refused(),
    {
        match self {
            Error::Rejected { .. } => true,
            Error::Closed => true,
            Error::Transport(_) => false,
        }
    }

    /// The text with which the server rejected `IDLE`.
    pub open spec fn spec_reason(&self) -> Option<&String> {
        match self {
            Error::Rejected { reason: Some(reason) } => Some(reason),
            _ => None,
        }
    }

    /// The text with which the server rejected `IDLE`, if this is a rejection
    /// and the server gave one.
    #[verifier::when_used_as_spec(spec_reason)]
    pub fn reason(&self) -> (reason: Option<&String>)
        ensures
            reason == self.spec_reason(),
    {
        match self {
            Error::Rejected { reason: Some(reason) } => Some(reason),
            _ => None,
        }
    }
}

/// What `init` makes of one pull from the session's frames, `None` standing
/// for their end: a continuation request acknowledges `IDLE`; the tagged
/// completion of `id` with a negative status rejects it; the end of the
/// frames and a failed read end it too; every other frame is for the
/// unsolicited-response channel.
pub open spec fn spec_init_step<T, E>(id: String, pulled: Option<Result<ResponseData<T>, E>>) -> Step<
    T,
    Result<(), Error<E>>,
> {
    match pulled {
        None => Step::Ready(Err(Error::Closed)),
        Some(Err(e)) => Step::Ready(Err(Error::Transport(e))),
        Some(Ok(frame)) => if frame.parsed is Continue {
            Step::Ready(Ok(()))
        } else if frame.parsed.rejects(id@) {
            Step::Ready(Err(Error::Rejected { reason: frame.parsed.spec_information() }))
        } else {
            Step::Forward(frame)
        },
    }
}

/// The state `init` leaves the connection in: idling under `id` on success,
/// failed on failure, as it was while the answer is outstanding.
pub open spec fn spec_state_after_init<T, E>(
    state: State,
    id: String,
    step: Step<T, Result<(), Error<E>>>,
) -> State {
    match step {
        Step::Ready(Ok(_)) => State::Idling { id },
        Step::Ready(Err(_)) => State::Failed,
        _ => state,
    }
}

/// What `done` returns: the session once the server has confirmed, else the
/// failure that the session reported, unchanged.
pub open spec fn spec_done<S, E>(session: S, confirmed: Result<(), E>) -> Result<S, E> {
    match confirmed {
        Ok(_) => Ok(session),
        Err(e) => Err(e),
    }
}

/// `Handle` allows a client to wait for changes to the remote mailbox.
///
/// It owns the session from `new` to `done`: as long as a `Handle` is active,
/// the mailbox cannot be otherwise accessed.
#[derive(Debug)]
pub struct Handle<S> {
    session: S,
    state: State,
}

/// A handle as contracts see it.
pub struct HandleView<S> {
    /// The session that the handle owns.
    pub session: S,
    /// Where the connection stands.
    pub state: State,
}

impl<S> View for Handle<S> {
    type V = HandleView<S>;

    closed spec fn view(&self) -> HandleView<S> {
        HandleView { session: self.session, state: self.state }
    }
}

impl<S> Handle<S> {
    /// Takes the session over. Nothing has been sent yet.
    pub fn new(session: S) -> (handle: Handle<S>)
        ensures
            handle@.session == session,
            handle@.state == State::Uninitialized,
    {
        Handle { session, state: State::Uninitialized }
    }

    /// The session, which stays with the handle.
    pub fn session(&self) -> (session: &S)
        ensures
            *session == self@.session,
    {
        &self.session
    }

    /// Where the connection stands.
    pub fn state(&self) -> (state: &State)
        ensures
            *state == self@.state,
    {
        &self.state
    }

    /// Access to the session, to change its settings such as read and write
    /// timeouts. The lifecycle is not touched.
    pub fn as_mut(&mut self) -> (session: &mut S)
        ensures
            *session == old(self)@.session,
            final(self)@.session == *final(session),
            final(self)@.state == old(self)@.state,
    {
        &mut self.session
    }

    pub(crate) fn fail(&mut self)
        ensures
            final(self)@.state == State::Failed,
            final(self)@.session == old(self)@.session,
    {
        self.state = State::Failed;
    }

    /// One step of initialising the idle connection. The caller has issued the
    /// `IDLE` command and holds its identifier `id`; `pulled` is the next
    /// frame of the session, or `None` at their end.
    ///
    /// The caller pulls again after `Forward`, and stops at `Ready`.
    pub fn init<T, E>(&mut self, id: &String, pulled: Option<Result<ResponseData<T>, E>>) -> (step: Step<
        T,
        Result<(), Error<E>>,
    >)
        ensures
            step == spec_init_step(*id, pulled),
            final(self)@.state == spec_state_after_init(old(self)@.state, *id, step),
            final(self)@.session == old(self)@.session,
    {
        match pulled {
            None => {
                self.state = State::Failed;
                Step::Ready(Err(Error::Closed))
            },
            Some(Err(e)) => {
                self.state = State::Failed;
                Step::Ready(Err(Error::Transport(e)))
            },
            Some(Ok(frame)) => {
                let rejected = match frame.parsed() {
                    Response::Continue => {
                        self.state = State::Idling { id: id.clone() };
                        return Step::Ready(Ok(()));
                    },
                    Response::Done { tag, status, .. } => *tag == *id && status.is_negative(),
                    _ => false,
                };
                if rejected {
                    self.state = State::Failed;
                    Step::Ready(Err(Error::Rejected { reason: frame.into_information() }))
                } else {
                    Step::Forward(frame)
                }
            },
        }
    }

    /// Starts a wait that is bounded by 24 hours of silence.
    ///
    /// The bound is a safety net. A server may log an idle client off after
    /// half an hour, so callers do well to end the wait and enter it again
    /// every 29 minutes or so; that is left to them.
    pub fn wait(&mut self) -> (pending: (IdleStream, StopSource))
        requires
            old(self)@.state is Idling,
        ensures
            pending.0.timeout() == duration_from_secs(DEFAULT_TIMEOUT_SECS),
            *final(self) == *old(self),
    {
        self.wait_with_timeout(Duration::from_secs(DEFAULT_TIMEOUT_SECS))
    }

    /// Starts a wait that stops after `dur` without any frame from the server.
    /// Every frame starts the clock anew, keepalives included.
    ///
    /// Returns the frame source to step the wait on, and the source of its
    /// interrupt, which is made for this wait and triggered by dropping it.
    pub fn wait_with_timeout(&mut self, dur: Duration) -> (pending: (IdleStream, StopSource))
        requires
            old(self)@.state is Idling,
        ensures
            pending.0.timeout() == dur,
            *final(self) == *old(self),
    {
        let interrupt = StopSource::new();
        let token = interrupt.token();
        (IdleStream::new(dur, token), interrupt)
    }

    /// Ends idling. The caller has sent `DONE` and asked the session to confirm
    /// the completion of the pending `IDLE`; `confirmed` is what came of it.
    pub fn done<E>(self, confirmed: Result<(), E>) -> (result: Result<S, E>)
        requires
            self@.state is Idling,
        ensures
            result == spec_done(self@.session, confirmed),
    {
        match confirmed {
            Ok(_) => Ok(self.session),
            Err(e) => Err(e),
        }
    }
}

} // verus!
