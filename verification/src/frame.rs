//! Server frames as far as idling looks at them.

use vstd::prelude::*;

verus! {

/// Status of a status response, spelled as on the wire.
#[derive(Clone, Copy, Debug, PartialEq, Eq, Hash, Structural)]
pub enum Status {
    /// Success, or plain information.
    OK,
    /// The command failed.
    NO,
    /// The command was not understood.
    BAD,
    /// The connection is already authenticated.
    PREAUTH,
    /// The server is about to close the connection.
    BYE,
}

/// The shape of a parsed server response: everything idling ever inspects.
///
/// Responses that are neither status responses nor continuation requests
/// (mailbox data, `FETCH`, `EXPUNGE`, ...) are all [`Response::Other`]; their
/// content travels in the payload of the [`ResponseData`] that carries them.
#[derive(Clone, Debug, PartialEq, Eq)]
pub enum Response {
    /// Untagged status response, such as `* OK Still here`.
    Data { status: Status },
    /// Continuation request (`+ ...`).
    Continue,
    /// Tagged completion of the command issued under `tag`.
    Done { tag: String, status: Status, information: Option<String> },
    /// Any other response.
    Other,
}

/// One frame received from the server: its parsed shape and an opaque payload
/// that is handed through untouched.
#[derive(Clone, Debug, PartialEq, Eq)]
pub struct ResponseData<T> {
    pub parsed: Response,
    pub raw: T,
}

impl Status {
    /// Whether a command that completes with this status was turned down:
    /// the status is `NO` or `BAD`.
    pub open spec fn spec_is_negative(&self) -> bool {
        *self == Status::NO || *self == Status::BAD
    }

    /// Whether a command that completes with this status was turned down.
    #[verifier::when_used_as_spec(spec_is_negative)]
    pub fn is_negative(&self) -> (negative: bool)
        ensures
            negative == self.spec_is_negative(),
    {
        match self {
            Status::NO => true,
            Status::BAD => true,
            _ => false,
        }
    }
}

impl Response {
    /// Whether this is the untagged `OK` by which a server shows that it is
    /// still there.
    pub open spec fn is_keepalive(self) -> bool {
        self == (Response::Data { status: Status::OK })
    }

    /// Whether this is the tagged completion of the command `id` with a
    /// negative status.
    pub open spec fn rejects(self, id: Seq<char>) -> bool {
        self matches Response::Done { tag, status, .. } && tag@ == id && status.is_negative()
    }

    /// The human-readable text of a tagged completion, if it has one.
    pub open spec fn spec_information(self) -> Option<String> {
        match self {
            Response::Done { information, .. } => information,
            _ => None,
        }
    }
}

impl<T> ResponseData<T> {
    /// A frame of the shape `parsed` that carries `raw`.
    pub fn new(parsed: Response, raw: T) -> (frame: Self)
        ensures
            frame.parsed == parsed,
            frame.raw == raw,
    {
        ResponseData { parsed, raw }
    }

    /// The parsed shape of this frame.
    pub fn parsed(&self) -> (parsed: &Response)
        ensures
            *parsed == self.parsed,
    {
        &self.parsed
    }

    /// Gives up the frame for its payload.
    pub fn into_raw(self) -> (raw: T)
        ensures
            raw == self.raw,
    {
        self.raw
    }

    /// Gives up the frame for the text of its tagged completion.
    pub fn into_information(self) -> (information: Option<String>)
        ensures
            information == self.parsed.spec_information(),
    {
        match self.parsed {
            Response::Done { information, .. } => information,
            _ => None,
        }
    }
}

} // verus!
