//! The one-shot interrupt of a wait, provided by the `stop-token` crate.
//!
//! A wait makes a source and takes a token from it. The source goes to the
//! caller, who triggers the interrupt by dropping it; the token goes to the
//! frame source, where it completes once that has happened. Nothing is known
//! here of what either holds: they are made, paired and handed on.

use vstd::prelude::*;
use stop_token::{StopSource, StopToken};

verus! {

/// `stop_token::StopSource`, taken as opaque.
#[verifier::external_type_specification]
#[verifier::external_body]
pub struct ExStopSource(stop_token::StopSource);

/// `stop_token::StopToken`, taken as opaque.
#[verifier::external_type_specification]
#[verifier::external_body]
pub struct ExStopToken(stop_token::StopToken);

/// `StopSource::new` returns a source that has not been triggered; nothing is
/// claimed of it.
pub assume_specification[ stop_token::StopSource::new ]() -> (source: StopSource);

/// `StopSource::token` returns a token that completes once `source` is
/// dropped; nothing is claimed of it.
pub assume_specification[ stop_token::StopSource::token ](source: &StopSource) -> (token: StopToken);

} // verus!
