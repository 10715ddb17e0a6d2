//! The decisions of one "blocking" socket operation (accepting a connection,
//! connecting, reading or writing a chunk), emulated over a non-blocking
//! socket and a readiness poll, with a time-out and cancellation.
//!
//! The operation is a state machine: the caller performs each
//! [`WaitAction`] and hands its outcome back to the matching method, until
//! the machine says [`WaitAction::Finish`].
use vstd::prelude::*;

use crate::error::{IoErrorKind, IoFailure, TcpError};
use crate::time::{TimeSpan, Timeout};

verus! {

/// What the caller of a [`Waiter`] has to do next.
#[derive(Debug)]
pub enum WaitAction<T> {
    /// Make the non-blocking socket call (again), then hand its outcome to
    /// [`Waiter::attempted`].
    Attempt,
    /// Wait for readiness events, for at most the given time (for ever where
    /// `None`), then hand the number of events for this socket to
    /// [`Waiter::polled`].
    Poll(Option<TimeSpan>),
    /// Look whether the operation has been cancelled, and hand the answer to
    /// [`Waiter::cancel_checked`].
    CheckCancelled,
    /// The operation is over, with this result.
    Finish(Result<T, TcpError>),
}

/// Where a [`Waiter`] stands.
#[derive(Clone, Copy, Debug, PartialEq, Eq, Structural)]
pub enum WaitPhase {
    /// Not begun.
    Idle,
    /// Expects the outcome of the first socket call, made before any poll.
    FirstAttempt,
    /// Expects the outcome of a poll.
    Polling,
    /// Expects the outcome of a socket call made for a readiness event.
    Attempting,
    /// Expects whether the operation has been cancelled.
    CancelCheck,
    /// Finished.
    Done,
}

/// The phase in which a caller that was told to do `action` hands back its
/// outcome.
pub open spec fn phase_after<T>(action: WaitAction<T>, phase: WaitPhase) -> bool {
    match action {
        WaitAction::Attempt => phase == WaitPhase::FirstAttempt || phase == WaitPhase::Attempting,
        WaitAction::Poll(_) => phase == WaitPhase::Polling,
        WaitAction::CheckCancelled => phase == WaitPhase::CancelCheck,
        WaitAction::Finish(_) => phase == WaitPhase::Done,
    }
}

/// Whether `action` finishes the operation with `result`.
pub open spec fn finishes_with<T>(action: WaitAction<T>, result: Result<T, TcpError>) -> bool {
    action == WaitAction::<T>::Finish(result)
}

/// The check that precedes an operation which cannot be handed to a
/// [`Waiter`] from its start (such as opening a connection): on a cancelled
/// manager it fails with [`TcpError::Cancelled`], otherwise it goes ahead.
pub fn refuse_if_cancelled(cancelled: bool) -> (result: Result<(), TcpError>)
    ensures
        cancelled ==> result matches Err(TcpError::Cancelled),
        !cancelled ==> result is Ok,
{
    if cancelled {
        Err(TcpError::Cancelled)
    } else {
        Ok(())
    }
}

/// The first half of one try at completing a connection: an error that is
/// pending on the socket, or one met while fetching it, is final, whatever
/// its kind (it is marked [`IoErrorKind::Other`], so that a [`Waiter`] neither
/// repeats the try nor waits on); `None` means that no error is pending and
/// the try goes on.
pub fn pending_socket_error(outcome: Result<Option<std::io::Error>, std::io::Error>) -> (failure:
    Option<IoFailure>)
    ensures
        outcome matches Ok(None) <==> failure is None,
        outcome matches Ok(Some(e)) ==> failure == Some(IoFailure { kind: IoErrorKind::Other, error: e }),
        outcome matches Err(e) ==> failure == Some(IoFailure { kind: IoErrorKind::Other, error: e }),
{
    match outcome {
        Ok(None) => None,
        Ok(Some(error)) => Some(IoFailure { kind: IoErrorKind::Other, error }),
        Err(error) => Some(IoFailure { kind: IoErrorKind::Other, error }),
    }
}

/// The decisions of one blocking operation.
pub struct Waiter {
    limit: Option<TimeSpan>,
    pending_kind: IoErrorKind,
    phase: WaitPhase,
    timeout: Timeout,
    remaining: Option<TimeSpan>,
    pending: usize,
}

impl Waiter {
    /// How long the operation may take; for ever where `None`.
    pub closed spec fn limit(self) -> Option<TimeSpan> {
        self.limit
    }

    /// The kind of failure by which the socket call says "not yet".
    pub closed spec fn pending_kind(self) -> IoErrorKind {
        self.pending_kind
    }

    /// Where the machine stands.
    pub closed spec fn spec_phase(self) -> WaitPhase {
        self.phase
    }

    /// The time that was left when the last poll was asked for.
    pub closed spec fn remaining(self) -> Option<TimeSpan> {
        self.remaining
    }

    /// The readiness events of the last poll that have not been tried yet,
    /// counting the one being tried.
    pub closed spec fn pending_events(self) -> nat {
        self.pending as nat
    }

    /// The machine is consistent: the "not yet" kind is not an interruption,
    /// the time-out runs with the limit while the operation is under way, a poll never waits longer
    /// than the limit, and an event is being tried while attempting.
    pub closed spec fn wf(self) -> bool {
        &&& self.pending_kind != IoErrorKind::Interrupted
        &&& (self.phase != WaitPhase::Idle && self.phase != WaitPhase::Done) ==> self.timeout.limit()
            == self.limit
        &&& (self.phase == WaitPhase::Polling || self.phase == WaitPhase::Attempting || self.phase
            == WaitPhase::CancelCheck) ==> {
            &&& (self.remaining is None <==> self.limit is None)
            &&& self.remaining matches Some(r) ==> r.total_nanos()
                <= self.limit->0.total_nanos()
        }
        &&& self.phase == WaitPhase::Attempting ==> self.pending > 0
    }

    /// A machine for an operation that may take `timeout` (for ever where
    /// `None`), whose socket call fails with `pending_kind` while it cannot
    /// complete yet.
    pub fn new(timeout: Option<TimeSpan>, pending_kind: IoErrorKind) -> (w: Waiter)
        requires
            pending_kind != IoErrorKind::Interrupted,
        ensures
            w.wf(),
            w.spec_phase() == WaitPhase::Idle,
            w.limit() == timeout,
            w.pending_kind() == pending_kind,
    {
        Waiter {
            limit: timeout,
            pending_kind,
            phase: WaitPhase::Idle,
            timeout: Timeout::start(None),
            remaining: None,
            pending: 0,
        }
    }

    /// Where the machine stands.
    pub fn phase(&self) -> (phase: WaitPhase)
        ensures
            phase == self.spec_phase(),
    {
        self.phase
    }

    /// Begins the operation. One begun on a cancelled manager finishes at once
    /// with [`TcpError::Cancelled`] and makes no socket call; otherwise the
    /// time-out starts and the socket call is made.
    pub fn begin<T>(&mut self, cancelled: bool) -> (action: WaitAction<T>)
        requires
            old(self).wf(),
            old(self).spec_phase() == WaitPhase::Idle,
        ensures
            final(self).wf(),
            phase_after(action, final(self).spec_phase()),
            final(self).limit() == old(self).limit(),
            final(self).pending_kind() == old(self).pending_kind(),
            cancelled ==> finishes_with(action, Err(TcpError::Cancelled)),
            !cancelled ==> action is Attempt && final(self).spec_phase() == WaitPhase::FirstAttempt,
    {
        if cancelled {
            self.phase = WaitPhase::Done;
            WaitAction::Finish(Err(TcpError::Cancelled))
        } else {
            self.timeout = Timeout::start(self.limit);
            self.phase = WaitPhase::FirstAttempt;
            WaitAction::Attempt
        }
    }

    /// Begins an operation whose socket call only makes sense once the
    /// socket is ready (such as completing a connection): the time-out
    /// starts and the first poll is asked for, waiting no longer than the
    /// time-out.
    pub fn begin_with_poll<T>(&mut self) -> (action: WaitAction<T>)
        requires
            old(self).wf(),
            old(self).spec_phase() == WaitPhase::Idle,
        ensures
            final(self).wf(),
            final(self).spec_phase() == WaitPhase::Polling,
            final(self).limit() == old(self).limit(),
            final(self).pending_kind() == old(self).pending_kind(),
            action == WaitAction::<T>::Poll(final(self).remaining()),
    {
        self.timeout = Timeout::start(self.limit);
        self.phase = WaitPhase::FirstAttempt;
        self.start_round()
    }

    /// Starts a round of waiting: notes the time that is left and asks for a
    /// poll that waits no longer than that.
    fn start_round<T>(&mut self) -> (action: WaitAction<T>)
        requires
            old(self).wf(),
            old(self).spec_phase() != WaitPhase::Idle,
            old(self).spec_phase() != WaitPhase::Done,
        ensures
            final(self).wf(),
            final(self).spec_phase() == WaitPhase::Polling,
            final(self).limit() == old(self).limit(),
            final(self).pending_kind() == old(self).pending_kind(),
            action == WaitAction::<T>::Poll(final(self).remaining()),
    {
        let remaining = self.timeout.remaining_time();
        self.remaining = remaining;
        self.phase = WaitPhase::Polling;
        WaitAction::Poll(remaining)
    }

    /// Takes the outcome of a socket call. A success finishes the operation
    /// with its value; an interruption repeats the call; "not yet" waits for
    /// the next readiness event (after the first call, a poll; after the last
    /// event of a poll, the cancellation check); any other failure finishes
    /// the operation with that error.
    pub fn attempted<T>(&mut self, outcome: Result<T, IoFailure>) -> (action: WaitAction<T>)
        requires
            old(self).wf(),
            old(self).spec_phase() == WaitPhase::FirstAttempt || old(self).spec_phase()
                == WaitPhase::Attempting,
        ensures
            final(self).wf(),
            phase_after(action, final(self).spec_phase()),
            final(self).limit() == old(self).limit(),
            final(self).pending_kind() == old(self).pending_kind(),
            match outcome {
                Ok(value) => finishes_with(action, Ok(value)),
                Err(failure) => if failure.kind == IoErrorKind::Interrupted {
                    action is Attempt && *final(self) == *old(self)
                } else if failure.kind == old(self).pending_kind() {
                    if old(self).spec_phase() == WaitPhase::FirstAttempt {
                        action == WaitAction::<T>::Poll(final(self).remaining())
                    } else if old(self).pending_events() > 1 {
                        action is Attempt && final(self).spec_phase() == WaitPhase::Attempting
                            && final(self).pending_events() == old(self).pending_events() - 1
                            && final(self).remaining() == old(self).remaining()
                    } else {
                        action is CheckCancelled && final(self).remaining() == old(self).remaining()
                    }
                } else {
                    finishes_with(action, Err(TcpError::Failed(failure.error)))
                },
            },
    {
        match outcome {
            Ok(value) => {
                self.phase = WaitPhase::Done;
                WaitAction::Finish(Ok(value))
            },
            Err(failure) => {
                if failure.kind == IoErrorKind::Interrupted {
                    WaitAction::Attempt
                } else if failure.kind == self.pending_kind {
                    if self.phase == WaitPhase::FirstAttempt {
                        self.start_round()
                    } else if self.pending > 1 {
                        self.pending = self.pending - 1;
                        WaitAction::Attempt
                    } else {
                        self.phase = WaitPhase::CancelCheck;
                        WaitAction::CheckCancelled
                    }
                } else {
                    self.phase = WaitPhase::Done;
                    WaitAction::Finish(Err(TcpError::Failed(failure.error)))
                }
            },
        }
    }

    /// Takes the outcome of a poll: the number of readiness events for this
    /// socket. Each event gets a socket call; with none, the cancellation
    /// check follows. An interrupted poll is repeated with the same time;
    /// any other failure finishes the operation with that error.
    pub fn polled<T>(&mut self, outcome: Result<usize, IoFailure>) -> (action: WaitAction<T>)
        requires
            old(self).wf(),
            old(self).spec_phase() == WaitPhase::Polling,
        ensures
            final(self).wf(),
            phase_after(action, final(self).spec_phase()),
            final(self).limit() == old(self).limit(),
            final(self).pending_kind() == old(self).pending_kind(),
            final(self).remaining() == old(self).remaining(),
            match outcome {
                Ok(events) => if events == 0 {
                    action is CheckCancelled
                } else {
                    action is Attempt && final(self).spec_phase() == WaitPhase::Attempting
                        && final(self).pending_events() == events
                },
                Err(failure) => if failure.kind == IoErrorKind::Interrupted {
                    action == WaitAction::<T>::Poll(old(self).remaining()) && *final(self) == *old(
                        self,
                    )
                } else {
                    finishes_with(action, Err(TcpError::Failed(failure.error)))
                },
            },
    {
        match outcome {
            Ok(events) => {
                if events == 0 {
                    self.phase = WaitPhase::CancelCheck;
                    WaitAction::CheckCancelled
                } else {
                    self.pending = events;
                    self.phase = WaitPhase::Attempting;
                    WaitAction::Attempt
                }
            },
            Err(failure) => {
                if failure.kind == IoErrorKind::Interrupted {
                    WaitAction::Poll(self.remaining)
                } else {
                    self.phase = WaitPhase::Done;
                    WaitAction::Finish(Err(TcpError::Failed(failure.error)))
                }
            },
        }
    }

    /// Takes whether the operation has been cancelled, after a round of
    /// waiting that did not complete it. Cancellation finishes it with
    /// [`TcpError::Cancelled`]; otherwise, where no time was left for the
    /// round, it finishes with [`TcpError::TimedOut`]; otherwise the next
    /// round begins.
    pub fn cancel_checked<T>(&mut self, cancelled: bool) -> (action: WaitAction<T>)
        requires
            old(self).wf(),
            old(self).spec_phase() == WaitPhase::CancelCheck,
        ensures
            final(self).wf(),
            phase_after(action, final(self).spec_phase()),
            final(self).limit() == old(self).limit(),
            final(self).pending_kind() == old(self).pending_kind(),
            cancelled ==> finishes_with(action, Err(TcpError::Cancelled)),
            !cancelled ==> (finishes_with(action, Err(TcpError::TimedOut)) <==> (old(
                self,
            ).remaining() matches Some(r) && r.total_nanos() == 0)),
            !cancelled && !(old(self).remaining() matches Some(r) && r.total_nanos() == 0) ==> action
                == WaitAction::<T>::Poll(final(self).remaining()),
            finishes_with(action, Err(TcpError::TimedOut)) ==> final(self).limit() is Some,
    {
        if cancelled {
            self.phase = WaitPhase::Done;
            return WaitAction::Finish(Err(TcpError::Cancelled));
        }
        let timed_out = match &self.remaining {
            Some(r) => r.is_zero(),
            None => false,
        };
        if timed_out {
            self.phase = WaitPhase::Done;
            WaitAction::Finish(Err(TcpError::TimedOut))
        } else {
            self.start_round()
        }
    }
}

/// A poll never waits longer than the operation may take, and it waits
/// for ever only where the operation has no time-out.
pub proof fn lemma_poll_within_limit(w: Waiter)
    requires
        w.wf(),
        w.spec_phase() == WaitPhase::Polling,
    ensures
        w.remaining() is None <==> w.limit() is None,
        w.remaining() matches Some(r) ==> r.total_nanos() <= w.limit()->0.total_nanos(),
{
}

} // verus!
