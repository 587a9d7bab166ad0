//! The frame classifier: what one server frame means while idling.

use vstd::prelude::*;
use crate::frame::{Response, Status};

verus! {

/// What to do with a frame that arrived while waiting.
#[derive(Clone, Copy, Debug, PartialEq, Eq, Hash, Structural)]
pub enum Action {
    /// A keepalive or a continuation request: nothing happened, wait on.
    KeepWaiting,
    /// A tagged completion, which no command is waiting for: hand it to the
    /// unsolicited-response channel and wait on.
    Forward,
    /// Anything else: the server reports an event, stop waiting.
    NewData,
}

/// The classification rule. Only keepalives and continuation requests keep
/// the wait going, and only tagged completions are forwarded; every shape not
/// named here counts as news.
pub open spec fn spec_classify(parsed: Response) -> Action {
    if parsed.is_keepalive() || parsed is Continue {
        Action::KeepWaiting
    } else if parsed is Done {
        Action::Forward
    } else {
        Action::NewData
    }
}

/// Classifies one parsed frame.
pub fn classify(parsed: &Response) -> (action: Action)
    ensures
        action == spec_classify(*parsed),
{
    match parsed {
        Response::Data { status: Status::OK } => Action::KeepWaiting,
        Response::Continue => Action::KeepWaiting,
        Response::Done { .. } => Action::Forward,
        _ => Action::NewData,
    }
}

} // verus!
