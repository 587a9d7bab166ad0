//! What an operation returns: the outcome of a wait, and the step that every
//! operation takes on one element of input.

use vstd::prelude::*;
use crate::frame::ResponseData;

verus! {

/// Possible responses that happen on an open idle connection.
#[derive(Clone, Debug, PartialEq, Eq)]
pub enum IdleResponse<T> {
    /// The manual interrupt was used to interrupt the idle connection.
    ManualInterrupt,
    /// The idle connection timed out, because of the user set timeout.
    Timeout,
    /// The server has indicated that some new action has happened.
    NewData(ResponseData<T>),
}

/// What an operation asks of its caller after one element of input.
#[derive(Clone, Debug, PartialEq, Eq)]
pub enum Step<T, R> {
    /// Nothing to do: pull again.
    Continue,
    /// Hand the frame to the unsolicited-response channel, then pull again.
    Forward(ResponseData<T>),
    /// The operation is over, with this result.
    Ready(R),
}

} // verus!
