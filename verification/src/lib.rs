//! The IMAP `IDLE` extension (RFC 2177) as a verified, I/O-free state machine.
//!
//! A [`Handle`] owns an authenticated session while the connection idles. The
//! caller performs the reads, writes and timers; every decision about what a
//! server frame means, when waiting stops and which state the connection is
//! left in is taken here, and proved against the contracts that each module
//! states.
//!
//! An operation is driven one pull at a time. The caller issues `IDLE`, then
//! hands [`Handle::init`] each frame that it reads until the answer is
//! `Ready`. [`Handle::wait`] and [`Handle::wait_with_timeout`] begin a wait and
//! return its frame source together with the source of its interrupt; the
//! caller pulls from the session, each pull against the interrupt and under
//! the timeout of the frame source, and hands what came of it to
//! [`IdleStream::poll_next`] until that is `Ready`. To end idling the caller
//! sends `DONE`, has the session confirm the pending `IDLE`, and gets the
//! session back from [`Handle::done`].
//!
//! - [`frame`]: server frames as far as idling looks at them.
//! - [`classify`]: what one frame means while idling.
//! - [`stream`]: the interruptible, timeout-bounded frame source of a wait.
//! - [`interrupt`]: the interrupt of a wait.
//! - [`handle`]: the lifecycle, `init`, `wait`, `done`.
//! - [`outcome`]: what a wait returns, and what a step asks for.
//! - [`replay`]: the operations run over pulls that are already at hand.
//! - [`trace`] and [`laws`]: what holds of whole conversations.

pub mod classify;
pub mod frame;
pub mod handle;
pub mod interrupt;
pub mod laws;
pub mod outcome;
pub mod replay;
pub mod stream;
pub mod trace;

pub use handle::Handle;
pub use outcome::IdleResponse;
pub use stream::IdleStream;
