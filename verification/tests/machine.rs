use futures::Future;

use labo::timer::{resolve_poll, CancelPoll, Timer, TimerOutcome, TimerPoll};
use labo::washer::{Program, UserId, Washer, WasherState};

#[test]
fn new_washer_is_idle() {
    let washer = Washer::new();
    assert!(matches!(washer.state(), WasherState::Idle));
}

#[test]
fn start_records_program_owner_and_start_time() {
    let mut washer = Washer::new();
    let program = Program::new("Baumwolle 30°C".to_string(), 5000);
    let timer = washer.start(&program, UserId(1), 42);
    assert_eq!(timer.deadline_ms, 5042);
    match washer.state() {
        WasherState::Running {
            program,
            start_time_ms,
            user,
            ..
        } => {
            assert_eq!(program.name().as_str(), "Baumwolle 30°C");
            assert_eq!(program.duration_ms(), 5000);
            assert_eq!(*start_time_ms, 42);
            assert_eq!(*user, UserId(1));
        }
        _ => panic!("expected a running washer"),
    }
    // Immediately after the start the whole duration remains.
    assert_eq!(washer.remaining_time(42), Some(5000));
}

#[test]
fn remaining_time_counts_down_and_saturates() {
    let mut washer = Washer::new();
    let program = Program::new("Baumwolle 30°C".to_string(), 5000);
    let _timer = washer.start(&program, UserId(1), 0);
    assert_eq!(washer.remaining_at(2000), 3000);
    assert_eq!(washer.remaining_time(2000), Some(3000));
    // Past the deadline the remaining time is zero, never negative.
    assert_eq!(washer.remaining_at(9000), 0);
}

#[test]
fn stop_returns_to_idle_and_the_timer_sees_the_cancellation() {
    let mut washer = Washer::new();
    let program = Program::new("Baumwolle 30°C".to_string(), 5000);
    let timer = washer.start(&program, UserId(1), 0);
    washer.stop();
    assert!(matches!(washer.state(), WasherState::Idle));
    // The paired timer receives the cancellation signal.
    assert_eq!(timer.cancel.wait(), Ok(()));
}

#[test]
fn stop_with_an_abandoned_timer_is_harmless() {
    let mut washer = Washer::new();
    let program = Program::new("Baumwolle 30°C".to_string(), 5000);
    let timer = washer.start(&program, UserId(1), 0);
    // The awaiting side dropped its half before anyone cancelled.
    drop(timer);
    washer.stop();
    assert!(matches!(washer.state(), WasherState::Idle));
}

#[test]
fn finish_then_empty_resets_the_machine_once() {
    let mut washer = Washer::new();
    let program = Program::new("Baumwolle 30°C".to_string(), 5000);
    let _timer = washer.start(&program, UserId(1), 0);
    washer.finish();
    assert!(matches!(washer.state(), WasherState::Finished));
    washer.empty();
    assert!(matches!(washer.state(), WasherState::Idle));
    // The machine is no longer in the one state from which `empty` may be
    // called: only the first call was legal.
    assert!(!matches!(washer.state(), WasherState::Finished));
}

#[test]
fn finish_abandons_the_cancellation_channel() {
    let mut washer = Washer::new();
    let program = Program::new("Baumwolle 30°C".to_string(), 5000);
    let timer = washer.start(&program, UserId(1), 0);
    washer.finish();
    // The sender was dropped without sending: the receiving half reports the
    // channel as cancelled, which the poll loop maps to `Abandoned`.
    assert!(timer.cancel.wait().is_err());
}

#[test]
fn dropped_timer_turns_remaining_time_into_none() {
    let mut washer = Washer::new();
    let program = Program::new("Baumwolle 30°C".to_string(), 5000);
    let timer = washer.start(&program, UserId(1), 0);
    assert_eq!(washer.remaining_time(1000), Some(4000));
    drop(timer);
    assert_eq!(washer.remaining_time(1000), None);
}

#[test]
fn cancellation_wins_a_tie() {
    // Cancellation requested at the same poll at which the deadline is
    // ready: the timer resolves Cancelled, never Elapsed.
    assert_eq!(
        resolve_poll(CancelPoll::Requested, true),
        TimerPoll::Ready(TimerOutcome::Cancelled)
    );
    assert_eq!(
        resolve_poll(CancelPoll::Requested, false),
        TimerPoll::Ready(TimerOutcome::Cancelled)
    );
}

#[test]
fn uncancelled_timer_elapses_only_at_the_deadline() {
    assert_eq!(resolve_poll(CancelPoll::Pending, false), TimerPoll::Pending);
    assert_eq!(
        resolve_poll(CancelPoll::Pending, true),
        TimerPoll::Ready(TimerOutcome::Elapsed)
    );
    // A sender dropped without sending cannot cancel any more; the deadline
    // alone decides.
    assert_eq!(resolve_poll(CancelPoll::Abandoned, false), TimerPoll::Pending);
    assert_eq!(
        resolve_poll(CancelPoll::Abandoned, true),
        TimerPoll::Ready(TimerOutcome::Elapsed)
    );
}

#[test]
fn timer_pair_carries_the_deadline() {
    let (timer, _cancel) = Timer::new(7000);
    assert_eq!(timer.deadline_ms, 7000);
}

#[test]
fn full_run_without_stop() {
    // start("Cotton 30°C", 5s) at 0; at 2s three seconds remain; at 5s the
    // timer elapses, the driving loop finishes and empties, and the machine
    // is idle again.
    let mut washer = Washer::new();
    let program = Program::new("Cotton 30°C".to_string(), 5000);
    let timer = washer.start(&program, UserId(1), 0);
    assert_eq!(washer.remaining_time(2000), Some(3000));
    let elapsed = resolve_poll(CancelPoll::Pending, timer.deadline_ms <= 5000);
    assert_eq!(elapsed, TimerPoll::Ready(TimerOutcome::Elapsed));
    let notify = washer.on_timer_elapsed();
    assert!(notify);
    assert!(matches!(washer.state(), WasherState::Idle));
}

#[test]
fn stopped_run_never_finishes() {
    // start then stop after one second: the machine is idle immediately, and
    // the task that awaited the abandoned timer must not drive `finish`.
    let mut washer = Washer::new();
    let program = Program::new("Baumwolle 30°C".to_string(), 5000);
    let timer = washer.start(&program, UserId(1), 0);
    washer.stop();
    assert!(matches!(washer.state(), WasherState::Idle));
    assert_eq!(timer.cancel.wait(), Ok(()));
    // The awaiting task wakes up, sees the machine has moved on, does nothing.
    let notify = washer.on_timer_elapsed();
    assert!(!notify);
    assert!(matches!(washer.state(), WasherState::Idle));
}

#[test]
fn programs_compare_by_value() {
    let a = Program::new("Baumwolle 30°C".to_string(), 5000);
    let b = Program::new("Baumwolle 30°C".to_string(), 5000);
    let c = Program::new("Baumwolle 30°C".to_string(), 6000);
    let d = Program::new("Plegeleicht".to_string(), 5000);
    assert_eq!(a, b);
    assert_ne!(a, c);
    assert_ne!(a, d);
    assert_eq!(a.clone(), a);
}
