//! The future abstraction: a pollable computation, the two-valued result of
//! a poll, and the event/action vocabulary through which a future asks its
//! caller for socket work and learns what that work produced.
use vstd::prelude::*;

verus! {

/// The result of polling a future: either the produced value, or a signal
/// that the caller should poll again later.
pub enum PollState<Data> {
    Ready(Data),
    NotReady,
}

/// What the caller's last piece of socket work produced, handed into `poll`.
///
/// `Wake` is the bare "please start" event for a future that has not asked
/// for anything yet; every other variant reports the outcome of one
/// non-blocking read on the future's connection.
pub enum IoEvent {
    /// Nothing has been asked of the caller yet (first poll).
    Wake,
    /// The peer closed the connection: end of stream.
    Eof,
    /// A read returned these bytes.
    Data(Vec<u8>),
    /// A read was interrupted by a signal (transient; retried).
    Interrupted,
    /// A read found no data currently available (the would-block condition).
    WouldBlock,
    /// A read failed for any other reason (fatal).
    Failed,
}

/// What the future asks its caller to do before the next poll.
pub enum IoAction {
    /// Open the connection and write these request bytes, fire-and-forget.
    Send(String),
    /// More data may be immediately available: read again and poll at once,
    /// without yielding.
    Read,
    /// No progress is possible right now: yield, wait, then read and poll.
    Idle,
    /// A fatal error was hit: stop driving this future.
    Abort,
}

/// A pollable computation.
///
/// `poll` never blocks: it consumes the outcome of the caller's last piece
/// of socket work and decides the next step synchronously. The contract is
/// the cooperative protocol every future obeys:
/// - a future is polled only while it is not `resolved` (polling a resolved
///   future is a usage error, excluded here and reported as a typed error by
///   checked entry points);
/// - a `Ready` result marks the future resolved, so a value is handed out
///   at most once;
/// - what one poll does exactly is pinned, per implementation, by `polled`.
pub trait Future: Sized {
    type Output;

    /// Well-formedness of the future's state, preserved by every poll.
    spec fn inv(&self) -> bool;

    /// The future has produced its value (or failed fatally) and must not be
    /// polled again.
    spec fn resolved(&self) -> bool;

    /// Which events this future can consume in its current state.
    spec fn accepts(&self, ev: IoEvent) -> bool;

    /// The exact relation between the state before a poll, the state after
    /// it, the event consumed, and the result and action returned.
    spec fn polled(
        pre: Self,
        post: Self,
        ev: IoEvent,
        out: PollState<Self::Output>,
        act: IoAction,
    ) -> bool;

    fn poll(&mut self, ev: IoEvent) -> (r: (PollState<Self::Output>, IoAction))
        requires
            old(self).inv(),
            !old(self).resolved(),
            old(self).accepts(ev),
        ensures
            final(self).inv(),
            r.0 is Ready ==> final(self).resolved(),
            Self::polled(*old(self), *final(self), ev, r.0, r.1),
    ;
}

} // verus!
