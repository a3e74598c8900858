//! A cancellable single-shot timer.
//!
//! A `Timer` pairs a deadline with the receiving half of a oneshot channel;
//! the sending half is the cancellation handle. The timer resolves either
//! `Elapsed` (the deadline was reached) or `Cancelled` (the handle was used
//! first). When both are ready at the same poll, cancellation wins: explicit
//! intent outranks wall-clock completion. The polling itself is driven by an
//! event loop outside this crate; the decision it must take on each poll is
//! the verified function [`resolve_poll`].

use vstd::prelude::*;

verus! {

#[verifier::external_type_specification]
#[verifier::external_body]
#[verifier::reject_recursive_types(T)]
pub struct ExSender<T>(futures::unsync::oneshot::Sender<T>);

#[verifier::external_type_specification]
#[verifier::external_body]
#[verifier::reject_recursive_types(T)]
pub struct ExReceiver<T>(futures::unsync::oneshot::Receiver<T>);

/// Relies on futures::unsync::oneshot::channel: constructing the pair never
/// fails; the two halves are returned unconditionally.
#[verifier::external_body]
fn oneshot_channel() -> (r: (
    futures::unsync::oneshot::Sender<()>,
    futures::unsync::oneshot::Receiver<()>,
))
{
    futures::unsync::oneshot::channel()
}

/// Relies on futures::unsync::oneshot::Sender::send: it consumes the sender,
/// delivers the signal unless the receiving half is already gone, and reports
/// which of the two happened. Nothing is promised of the result: whether the
/// receiver is still alive depends on what the rest of the process did.
#[verifier::external_body]
pub(crate) fn send_signal(tx: futures::unsync::oneshot::Sender<()>) -> (delivered: bool)
{
    tx.send(()).is_ok()
}

/// Relies on futures::unsync::oneshot::Sender::is_canceled: true exactly when
/// the receiving half has been dropped or closed. Nothing is promised of the
/// result: it depends on what the rest of the process did with the receiver.
#[verifier::external_body]
pub(crate) fn receiver_gone(tx: &futures::unsync::oneshot::Sender<()>) -> (gone: bool)
{
    tx.is_canceled()
}

/// A single-shot timer: a deadline plus the receiving half of the
/// cancellation channel. Dropping a `Timer` before it resolves abandons it;
/// the paired sender then observes that the receiver is gone.
pub struct Timer {
    /// The instant (in milliseconds) at which the timer elapses.
    pub deadline_ms: u64,
    /// The receiving half of the cancellation channel; ready once the paired
    /// sender has been used.
    pub cancel: futures::unsync::oneshot::Receiver<()>,
}

impl Timer {
    /// Returns a new `Timer` for the given deadline together with the sender
    /// that cancels it. Constructing the pair never fails.
    pub fn new(deadline_ms: u64) -> (r: (Timer, futures::unsync::oneshot::Sender<()>))
        ensures
            r.0.deadline_ms == deadline_ms,
    {
        let (tx, rx) = oneshot_channel();
        (Timer { deadline_ms, cancel: rx }, tx)
    }
}

/// What one poll of the cancellation channel reported.
#[derive(Clone, Copy, Debug, PartialEq, Eq, Structural)]
pub enum CancelPoll {
    /// The cancellation signal has been sent.
    Requested,
    /// No signal yet; the sending half is still alive.
    Pending,
    /// The sending half was dropped without ever sending: nobody can cancel
    /// this timer any more.
    Abandoned,
}

/// How a resolved timer ended.
#[derive(Clone, Copy, Debug, PartialEq, Eq, Structural)]
pub enum TimerOutcome {
    /// The deadline was reached without a cancellation.
    Elapsed,
    /// The cancellation handle was used before the deadline was observed.
    Cancelled,
}

/// The result of one poll of a timer.
#[derive(Clone, Copy, Debug, PartialEq, Eq, Structural)]
pub enum TimerPoll {
    Ready(TimerOutcome),
    Pending,
}

/// What a poll must decide, given what the cancellation channel reported and
/// whether the deadline has elapsed. Cancellation is looked at first, so a
/// requested cancellation beats a deadline that is ready at the same poll.
pub open spec fn resolution(cancel: CancelPoll, delay_elapsed: bool) -> TimerPoll {
    if cancel is Requested {
        TimerPoll::Ready(TimerOutcome::Cancelled)
    } else if delay_elapsed {
        TimerPoll::Ready(TimerOutcome::Elapsed)
    } else {
        TimerPoll::Pending
    }
}

/// [`resolution`] phrased over instants: the deadline is elapsed at `now_ms`
/// exactly when `now_ms >= deadline_ms`.
pub open spec fn resolution_at(cancel: CancelPoll, now_ms: int, deadline_ms: int) -> TimerPoll {
    resolution(cancel, now_ms >= deadline_ms)
}

/// Decides one poll of a timer. The event loop feeds in what the
/// cancellation channel reported and whether the deadline has passed; the
/// result says whether the timer resolves now, and how.
pub fn resolve_poll(cancel: CancelPoll, delay_elapsed: bool) -> (r: TimerPoll)
    ensures
        r == resolution(cancel, delay_elapsed),
{
    match cancel {
        CancelPoll::Requested => TimerPoll::Ready(TimerOutcome::Cancelled),
        _ => {
            if delay_elapsed {
                TimerPoll::Ready(TimerOutcome::Elapsed)
            } else {
                TimerPoll::Pending
            }
        },
    }
}

/// A cancellation requested by the time of a poll always resolves the timer
/// `Cancelled`, even when the deadline is ready at the very same poll: a
/// timer never reports `Elapsed` once cancellation has been requested.
pub proof fn lemma_cancellation_wins(delay_elapsed: bool)
    ensures
        resolution(CancelPoll::Requested, delay_elapsed) == TimerPoll::Ready(
            TimerOutcome::Cancelled,
        ),
{
}

/// A timer whose cancellation was never requested stays pending strictly
/// before its deadline and resolves `Elapsed` from the deadline on — whether
/// the sender is still alive or was dropped without sending.
pub proof fn lemma_uncancelled_timer_elapses(cancel: CancelPoll, now_ms: int, deadline_ms: int)
    requires
        !(cancel is Requested),
    ensures
        now_ms >= deadline_ms ==> resolution_at(cancel, now_ms, deadline_ms) == TimerPoll::Ready(
            TimerOutcome::Elapsed,
        ),
        now_ms < deadline_ms ==> resolution_at(cancel, now_ms, deadline_ms) == TimerPoll::Pending,
{
}

} // verus!
