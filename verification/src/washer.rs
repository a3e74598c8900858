//! The washer state machine: exclusive access to one shared machine.
//!
//! A [`Washer`] is always in exactly one of three states: `Idle` (nothing
//! running), `Running` (a program runs on behalf of one owner, with a live
//! cancellation handle for the in-flight timer), or `Finished` (the program
//! ran to completion and the machine has not been emptied yet). The legal
//! transitions are `Idle --start--> Running --finish--> Finished
//! --empty--> Idle`, with `Running --stop--> Idle` as the early exit; every
//! transition function demands its source state as a precondition, so an
//! illegal transition is ruled out at verification time rather than by a
//! panic at run time.
//!
//! Instants are plain milliseconds (`u64`); whoever drives the machine reads
//! the clock and passes the current instant in.

use vstd::prelude::*;

use crate::timer::{
    receiver_gone, resolution_at, send_signal, CancelPoll, Timer, TimerOutcome, TimerPoll,
};

verus! {

/// The identity of a chat user, an opaque comparable token. Only equality is
/// ever asked of it: "is this requester the owner of the current run".
#[derive(Clone, Copy, Debug, PartialEq, Eq, Structural)]
pub struct UserId(pub i64);

/// The mathematical value of a [`Program`].
pub ghost struct ProgramView {
    pub name: Seq<char>,
    pub duration_ms: int,
}

/// A program a washer can execute: a name and how long it runs,
/// in milliseconds. Immutable once constructed.
#[derive(Debug)]
pub struct Program {
    name: String,
    duration_ms: u64,
}

impl View for Program {
    type V = ProgramView;

    closed spec fn view(&self) -> ProgramView {
        ProgramView { name: self.name@, duration_ms: self.duration_ms as int }
    }
}

impl Program {
    /// Creates a new `Program`.
    pub fn new(name: String, duration_ms: u64) -> (p: Program)
        ensures
            p@ == (ProgramView { name: name@, duration_ms: duration_ms as int }),
    {
        Program { name, duration_ms }
    }

    /// The program's name.
    pub fn name(&self) -> (r: &String)
        ensures
            r@ == self@.name,
    {
        &self.name
    }

    /// How long the program runs, in milliseconds.
    pub fn duration_ms(&self) -> (r: u64)
        ensures
            r as int == self@.duration_ms,
    {
        self.duration_ms
    }
}

impl Clone for Program {
    /// A clone is the same program.
    fn clone(&self) -> (r: Program)
        ensures
            r@ == self@,
    {
        Program { name: self.name.clone(), duration_ms: self.duration_ms }
    }
}

impl PartialEq for Program {
    /// Programs are compared by value: same name, same duration.
    fn eq(&self, other: &Program) -> (r: bool)
        ensures
            r == (self@ == other@),
    {
        self.name == other.name && self.duration_ms == other.duration_ms
    }
}

impl vstd::std_specs::cmp::PartialEqSpecImpl for Program {
    open spec fn obeys_eq_spec() -> bool {
        true
    }

    open spec fn eq_spec(&self, other: &Program) -> bool {
        self@ == other@
    }
}

/// The states a washer can be in.
pub enum WasherState {
    Running {
        program: Program,
        /// The instant (in milliseconds) at which the program was started.
        start_time_ms: u64,
        /// The live handle that cancels the in-flight timer. It is consumed
        /// exactly once: taken by `stop`, or dropped when the state moves on.
        cancel_timer: futures::unsync::oneshot::Sender<()>,
        /// The requester who started this run and owns it.
        user: UserId,
    },
    Finished,
    Idle,
}

/// The mathematical value of a [`WasherState`]: the same three states, over
/// plain values, without the cancellation handle (which carries no value
/// visible to specifications).
pub ghost enum WasherView {
    Running { program: ProgramView, start_time_ms: int, user: UserId },
    Finished,
    Idle,
}

impl View for WasherState {
    type V = WasherView;

    open spec fn view(&self) -> WasherView {
        match self {
            WasherState::Running { program, start_time_ms, cancel_timer: _, user } => (
            WasherView::Running {
                program: program@,
                start_time_ms: *start_time_ms as int,
                user: *user,
            }),
            WasherState::Finished => WasherView::Finished,
            WasherState::Idle => WasherView::Idle,
        }
    }
}

/// `start` may only be called on an idle washer.
pub open spec fn can_start(v: WasherView) -> bool {
    v is Idle
}

/// `stop` may only be called on a running washer.
pub open spec fn can_stop(v: WasherView) -> bool {
    v is Running
}

/// `finish` may only be called on a running washer.
pub open spec fn can_finish(v: WasherView) -> bool {
    v is Running
}

/// `empty` may only be called on a finished washer.
pub open spec fn can_empty(v: WasherView) -> bool {
    v is Finished
}

/// The state that `start(program, user)` at instant `now_ms` establishes.
pub open spec fn start_view(program: ProgramView, user: UserId, now_ms: int) -> WasherView {
    WasherView::Running { program, start_time_ms: now_ms, user }
}

/// The deadline of a running washer: start time plus program duration.
pub open spec fn spec_deadline(v: WasherView) -> int
    recommends
        v is Running,
{
    match v {
        WasherView::Running { program, start_time_ms, .. } => start_time_ms + program.duration_ms,
        _ => 0,
    }
}

/// How many milliseconds remain until the deadline of a running washer at
/// instant `now_ms`; zero once the deadline has passed.
pub open spec fn spec_remaining(v: WasherView, now_ms: int) -> int
    recommends
        v is Running,
{
    if spec_deadline(v) >= now_ms {
        spec_deadline(v) - now_ms
    } else {
        0
    }
}

/// A washer implemented as a state machine.
pub struct Washer {
    state: WasherState,
}

impl View for Washer {
    type V = WasherView;

    closed spec fn view(&self) -> WasherView {
        self.state@
    }
}

impl Washer {
    /// A washer is well formed when its deadline fits the machine word: the
    /// start instant plus the program duration does not overflow `u64`.
    /// Every constructor establishes this and every transition keeps it.
    pub open spec fn wf(self) -> bool {
        self@ matches WasherView::Running { program, start_time_ms, .. } ==> start_time_ms
            + program.duration_ms <= u64::MAX
    }

    /// Creates a new `Washer` in the idle state.
    pub fn new() -> (w: Washer)
        ensures
            w@ == WasherView::Idle,
            w.wf(),
    {
        Washer { state: WasherState::Idle }
    }

    /// Starts the washer: records the program, the current instant and the
    /// owner, creates the timer for the program's deadline, and returns that
    /// timer for the caller to await. The paired cancellation handle stays
    /// inside the `Running` state.
    pub fn start(&mut self, program: &Program, user: UserId, now_ms: u64) -> (t: Timer)
        requires
            can_start(old(self)@),
            now_ms + program@.duration_ms <= u64::MAX,
        ensures
            final(self)@ == start_view(program@, user, now_ms as int),
            final(self).wf(),
            t.deadline_ms as int == now_ms + program@.duration_ms,
    {
        let deadline_ms = now_ms + program.duration_ms;
        let (timer, cancel_timer) = Timer::new(deadline_ms);
        self.state = WasherState::Running {
            program: program.clone(),
            start_time_ms: now_ms,
            cancel_timer,
            user,
        };
        timer
    }

    /// Stops the washer prematurely: takes the cancellation handle, signals
    /// the in-flight timer, and moves to idle at once — it does not wait for
    /// the timer to observe the cancellation. A timer whose receiving half is
    /// already gone simply does not get the signal; that is not an error.
    pub fn stop(&mut self)
        requires
            can_stop(old(self)@),
        ensures
            final(self)@ == WasherView::Idle,
            final(self).wf(),
    {
        let mut taken = WasherState::Idle;
        core::mem::swap(&mut self.state, &mut taken);
        match taken {
            WasherState::Running { cancel_timer, .. } => {
                let _delivered = send_signal(cancel_timer);
            },
            _ => {},
        }
    }

    /// Marks the program as ran to completion. To be called once the timer
    /// has resolved `Elapsed`. Dropping the `Running` state abandons the
    /// cancellation handle: a later `cancel` can no longer reach anything.
    pub fn finish(&mut self)
        requires
            can_finish(old(self)@),
        ensures
            final(self)@ == WasherView::Finished,
            final(self).wf(),
    {
        self.state = WasherState::Finished;
    }

    /// Resets a finished washer to idle. To be called once the completion has
    /// been communicated; only the first call after a run is legal.
    pub fn empty(&mut self)
        requires
            can_empty(old(self)@),
        ensures
            final(self)@ == WasherView::Idle,
            final(self).wf(),
    {
        self.state = WasherState::Idle;
    }

    /// The milliseconds that remain until the deadline at instant `now_ms`,
    /// zero once the deadline has passed. Pure: reads nothing but the state.
    pub fn remaining_at(&self, now_ms: u64) -> (r: u64)
        requires
            self@ is Running,
            self.wf(),
        ensures
            r as int == spec_remaining(self@, now_ms as int),
    {
        match &self.state {
            WasherState::Running { program, start_time_ms, .. } => {
                let deadline_ms = *start_time_ms + program.duration_ms;
                if deadline_ms >= now_ms {
                    deadline_ms - now_ms
                } else {
                    0
                }
            },
            _ => {
                proof {
                    assert(false);
                }
                0
            },
        }
    }

    /// Returns the remaining time at instant `now_ms`, or `None` once the
    /// timer's receiving half is gone — that is, once the timer has resolved
    /// or was abandoned. A `None` tells the caller to reconcile the state,
    /// typically by calling `finish`. Does not block and does not suspend.
    /// Whether `None` comes back depends on what the rest of the process did
    /// with the timer, so only the `Some` case carries a promise.
    pub fn remaining_time(&self, now_ms: u64) -> (r: Option<u64>)
        requires
            self@ is Running,
            self.wf(),
        ensures
            r matches Some(d) ==> d as int == spec_remaining(self@, now_ms as int),
    {
        let gone = match &self.state {
            WasherState::Running { cancel_timer, .. } => receiver_gone(cancel_timer),
            _ => false,
        };
        if gone {
            None
        } else {
            Some(self.remaining_at(now_ms))
        }
    }

    /// Returns the state the washer is in. Read-only: no side effect.
    pub fn state(&self) -> (r: &WasherState)
        ensures
            r@ == self@,
    {
        &self.state
    }

    /// What the task that awaited the timer does when the timer resolved
    /// `Elapsed`: if the washer still runs, complete the run (`finish`, then
    /// `empty` once the owner is notified) and report that the owner is to be
    /// notified. If the state machine has already moved past `Running` — the
    /// run was stopped while the resolution was in flight — do nothing at
    /// all: no transition and no notification.
    pub fn on_timer_elapsed(&mut self) -> (notify_owner: bool)
        ensures
            old(self)@ is Running ==> final(self)@ == WasherView::Idle && notify_owner,
            !(old(self)@ is Running) ==> *final(self) == *old(self) && !notify_owner,
            final(self).wf(),
    {
        let running = match &self.state {
            WasherState::Running { .. } => true,
            _ => false,
        };
        if running {
            self.finish();
            self.empty();
            true
        } else {
            false
        }
    }
}

/// Starting program `program` for `requester` at instant `now_ms` yields a
/// running machine whose owner is `requester`, whose program is `program`
/// and whose start time is `now_ms` — and immediately after the start the
/// remaining time is exactly the program's duration.
pub proof fn lemma_start_yields_running(program: ProgramView, requester: UserId, now_ms: int)
    requires
        program.duration_ms >= 0,
    ensures
        start_view(program, requester, now_ms) matches WasherView::Running {
            program: p,
            start_time_ms,
            user,
        } && p == program && start_time_ms == now_ms && user == requester,
        spec_remaining(start_view(program, requester, now_ms), now_ms) == program.duration_ms,
{
}

/// A run started at `start_ms` has its deadline at `start_ms` plus the
/// program's duration. As long as nobody requests a cancellation, the run's
/// timer stays pending strictly before that deadline and resolves `Elapsed`
/// from the deadline on — and `finish` is enabled only while the run it
/// belongs to is still the current state.
pub proof fn lemma_run_elapses_at_deadline(
    program: ProgramView,
    user: UserId,
    start_ms: int,
    cancel: CancelPoll,
    now_ms: int,
)
    requires
        !(cancel is Requested),
    ensures
        resolution_at(cancel, now_ms, spec_deadline(start_view(program, user, start_ms))) == (
        if now_ms >= start_ms + program.duration_ms {
            TimerPoll::Ready(TimerOutcome::Elapsed)
        } else {
            TimerPoll::Pending
        }),
        can_finish(start_view(program, user, start_ms)),
{
}

/// `empty` is enabled on a finished machine and consumes that state: the
/// idle machine that `empty` leaves behind no longer admits `empty`, so of
/// two consecutive calls only the first is legal.
pub proof fn lemma_empty_only_once()
    ensures
        can_empty(WasherView::Finished),
        !can_empty(WasherView::Idle),
{
}

} // verus!
