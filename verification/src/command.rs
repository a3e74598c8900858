//! The command layer: from message text to washer transitions.
//!
//! The messaging transport hands this module plain values — the text of a
//! message, the position of the bot-command entity inside it, the requester's
//! identity and the current instant — and gets back an [`Outcome`] that it
//! renders into a reply, plus the timer to await when a run was started.
//! Everything in between — cutting the command out of the text, matching the
//! program table, deciding the transition — is verified.

use vstd::prelude::*;
use vstd::string::StrSliceExecFns;

use crate::timer::{receiver_gone, Timer};
use crate::washer::{
    can_start, can_stop, spec_remaining, start_view, Program, ProgramView, UserId, Washer,
    WasherState, WasherView,
};

verus! {

/// True for the ASCII whitespace characters stripped around command
/// arguments.
pub open spec fn is_ascii_space(c: char) -> bool {
    c == ' ' || c == '\t' || c == '\n' || c == '\r'
}

/// `s` without its leading ASCII whitespace.
pub open spec fn spec_trim_start(s: Seq<char>) -> Seq<char>
    decreases s.len(),
{
    if s.len() > 0 && is_ascii_space(s[0]) {
        spec_trim_start(s.drop_first())
    } else {
        s
    }
}

/// `s` without its trailing ASCII whitespace.
pub open spec fn spec_trim_end(s: Seq<char>) -> Seq<char>
    decreases s.len(),
{
    if s.len() > 0 && is_ascii_space(s[s.len() - 1]) {
        spec_trim_end(s.drop_last())
    } else {
        s
    }
}

/// `s` without leading and trailing ASCII whitespace.
pub open spec fn spec_trim(s: Seq<char>) -> Seq<char> {
    spec_trim_end(spec_trim_start(s))
}

proof fn lemma_trim_start_is_subrange(s: Seq<char>, i: int)
    requires
        0 <= i <= s.len(),
        forall|k: int| 0 <= k < i ==> is_ascii_space(s[k]),
        i == s.len() || !is_ascii_space(s[i]),
    ensures
        spec_trim_start(s) == s.subrange(i, s.len() as int),
    decreases i,
{
    if i == 0 {
        assert(s.subrange(0, s.len() as int) =~= s);
    } else {
        assert(is_ascii_space(s[0]));
        lemma_trim_start_is_subrange(s.drop_first(), i - 1);
        assert(s.drop_first().subrange(i - 1, s.drop_first().len() as int) =~= s.subrange(
            i,
            s.len() as int,
        ));
    }
}

proof fn lemma_trim_end_is_subrange(s: Seq<char>, j: int)
    requires
        0 <= j <= s.len(),
        forall|k: int| j <= k < s.len() ==> is_ascii_space(s[k]),
        j == 0 || !is_ascii_space(s[j - 1]),
    ensures
        spec_trim_end(s) == s.subrange(0, j),
    decreases s.len() - j,
{
    if j == s.len() {
        assert(s.subrange(0, s.len() as int) =~= s);
    } else {
        assert(is_ascii_space(s[s.len() - 1]));
        lemma_trim_end_is_subrange(s.drop_last(), j);
        assert(s.drop_last().subrange(0, j) =~= s.subrange(0, j));
    }
}

/// True exactly when `c` is ASCII whitespace.
pub fn is_space_char(c: char) -> (r: bool)
    ensures
        r == is_ascii_space(c),
{
    c == ' ' || c == '\t' || c == '\n' || c == '\r'
}

/// Strips leading and trailing ASCII whitespace from `s`.
pub fn trim_spaces(s: &str) -> (r: &str)
    ensures
        r@ == spec_trim(s@),
{
    let n = s.unicode_len();
    let mut i: usize = 0;
    while i < n && is_space_char(s.get_char(i))
        invariant
            i <= n,
            n == s@.len(),
            forall|k: int| 0 <= k < i ==> is_ascii_space(s@[k]),
        decreases n - i,
    {
        i = i + 1;
    }
    let mut j: usize = n;
    while j > i && is_space_char(s.get_char(j - 1))
        invariant
            i <= j <= n,
            n == s@.len(),
            forall|k: int| 0 <= k < i ==> is_ascii_space(s@[k]),
            forall|k: int| j <= k < n ==> is_ascii_space(s@[k]),
        decreases j,
    {
        j = j - 1;
    }
    proof {
        lemma_trim_start_is_subrange(s@, i as int);
        lemma_trim_end_is_subrange(s@.subrange(i as int, n as int), (j - i) as int);
        assert(s@.subrange(i as int, n as int).subrange(0, (j - i) as int) =~= s@.subrange(
            i as int,
            j as int,
        ));
    }
    s.substring_char(i, j)
}

/// The longest duration in the program table, in milliseconds.
pub const MAX_PROGRAM_DURATION_MS: u64 = 5000;

/// The program that a start command's argument names, if any. The table has
/// one entry: the argument "Baumwolle 30" (after stripping surrounding
/// whitespace) names the cotton programme at thirty degrees, a five-second
/// run.
pub open spec fn spec_program_for(text: Seq<char>) -> Option<ProgramView> {
    if spec_trim(text) == "Baumwolle 30"@ {
        Some(
            ProgramView {
                name: "Baumwolle 30°C"@,
                duration_ms: MAX_PROGRAM_DURATION_MS as int,
            },
        )
    } else {
        None
    }
}

/// Looks the start command's argument up in the program table.
pub fn program_for(text: &str) -> (r: Option<Program>)
    ensures
        r matches Some(p) ==> spec_program_for(text@) == Some(p@) && p@.duration_ms
            <= MAX_PROGRAM_DURATION_MS,
        r is None ==> spec_program_for(text@) is None,
{
    let trimmed = trim_spaces(text);
    let key: String = trimmed.to_owned();
    if key == "Baumwolle 30".to_owned() {
        Some(Program::new("Baumwolle 30°C".to_owned(), MAX_PROGRAM_DURATION_MS))
    } else {
        None
    }
}

/// What a message asks for, as far as the text decides it.
#[derive(Debug)]
pub enum MessageAction {
    /// A start command; `args` is the text that followed it, still untrimmed.
    Start { args: String },
    Stop,
    Status,
    /// A command this bot does not know; it is ignored without a reply.
    OtherCommand,
    /// No command at all: the sender is told the message was not understood.
    NotUnderstood,
}

/// The characters of the command itself: the slice of `data` that the
/// command entity at `offset` with `length` covers.
pub open spec fn spec_command(data: Seq<char>, offset: int, length: int) -> Seq<char> {
    data.subrange(offset, offset + length)
}

/// The characters after the command: everything from the end of the command
/// entity to the end of the message.
pub open spec fn spec_rest(data: Seq<char>, offset: int, length: int) -> Seq<char> {
    data.subrange(offset + length, data.len() as int)
}

/// Decides what a text message asks for. `command_entity` is the position of
/// the bot-command entity inside `data` — character offset and character
/// count — or `None` when the message carried no command.
pub fn interpret_text(data: &str, command_entity: Option<(usize, usize)>) -> (a: MessageAction)
    requires
        command_entity matches Some((o, l)) ==> o + l <= data@.len(),
    ensures
        command_entity is None ==> a is NotUnderstood,
        command_entity matches Some((o, l)) ==> ({
            let cmd = spec_command(data@, o as int, l as int);
            &&& (cmd == "/start"@ ==> (a matches MessageAction::Start { args } && args@
                == spec_rest(data@, o as int, l as int)))
            &&& (cmd == "/stop"@ ==> a is Stop)
            &&& (cmd == "/status"@ ==> a is Status)
            &&& (cmd != "/start"@ && cmd != "/stop"@ && cmd != "/status"@ ==> a is OtherCommand)
        }),
{
    match command_entity {
        None => MessageAction::NotUnderstood,
        Some((offset, length)) => {
            proof {
                // The three command literals have pairwise different
                // lengths, so no two of them can name the same command.
                reveal_strlit("/start");
                reveal_strlit("/stop");
                reveal_strlit("/status");
                assert("/start"@.len() == 6);
                assert("/stop"@.len() == 5);
                assert("/status"@.len() == 7);
            }
            let n = data.unicode_len();
            let cmd = data.substring_char(offset, offset + length);
            let rest = data.substring_char(offset + length, n);
            let cmd_s: String = cmd.to_owned();
            if cmd_s == "/start".to_owned() {
                MessageAction::Start { args: rest.to_owned() }
            } else if cmd_s == "/stop".to_owned() {
                MessageAction::Stop
            } else if cmd_s == "/status".to_owned() {
                MessageAction::Status
            } else {
                MessageAction::OtherCommand
            }
        },
    }
}

/// What the washer answers to a command; the messaging layer renders this
/// into a reply (or into silence).
#[derive(Clone, Copy, Debug, PartialEq, Eq, Structural)]
pub enum Outcome {
    /// A run was started; the caller got the timer to await.
    Accepted,
    /// A start was asked while the machine is not idle.
    RejectedBusy,
    /// The start command's argument names no program of the table.
    RejectedUnknownProgram,
    /// A running wash was cancelled.
    Stopped,
    /// A stop was asked while nothing runs.
    NotRunning,
    /// The requester owns the current run; this much time remains.
    OwnerRemaining { remaining_ms: u64 },
    /// Someone else owns the current run; this much time remains.
    OtherRunning { owner: UserId, remaining_ms: u64 },
    /// The timer was found resolved or abandoned during a status query, and
    /// the query moved the machine to `Finished`. By design a status query is
    /// the place where a completed run is observed, so this one read does
    /// cause a write.
    CompletionObserved,
    /// Status asked on a finished machine: nothing to say.
    NothingToReport,
    /// Status asked while the machine is idle.
    MachineIdle,
    /// The message carried no command at all.
    NotUnderstood,
    /// The message carried a command this bot does not know.
    Ignored,
}

/// What a status query answers, given the washer's state, the requester, and
/// whether the timer's receiving half was observed gone.
pub open spec fn status_outcome(
    v: WasherView,
    requester: UserId,
    timer_gone: bool,
    now_ms: int,
) -> Outcome {
    match v {
        WasherView::Running { user, .. } => if timer_gone {
            Outcome::CompletionObserved
        } else if user == requester {
            (Outcome::OwnerRemaining { remaining_ms: spec_remaining(v, now_ms) as u64 })
        } else {
            (Outcome::OtherRunning { owner: user, remaining_ms: spec_remaining(v, now_ms) as u64 })
        },
        WasherView::Finished => Outcome::NothingToReport,
        WasherView::Idle => Outcome::MachineIdle,
    }
}

/// The state a status query leaves behind: unchanged, unless the query
/// observed the timer gone while running — then the machine is `Finished`.
pub open spec fn status_next(v: WasherView, timer_gone: bool) -> WasherView {
    if v is Running && timer_gone {
        WasherView::Finished
    } else {
        v
    }
}

/// Handles a start command: if the machine is idle and the argument names a
/// program of the table, start that program for the requester and hand back
/// the timer; otherwise reject and leave the machine untouched.
pub fn handle_start_command(
    washer: &mut Washer,
    text: &str,
    requester: UserId,
    now_ms: u64,
) -> (r: (Outcome, Option<Timer>))
    requires
        old(washer).wf(),
        now_ms + MAX_PROGRAM_DURATION_MS <= u64::MAX,
    ensures
        final(washer).wf(),
        !can_start(old(washer)@) ==> r.0 == Outcome::RejectedBusy && r.1 is None && *final(washer)
            == *old(washer),
        can_start(old(washer)@) && spec_program_for(text@) is None ==> r.0
            == Outcome::RejectedUnknownProgram && r.1 is None && *final(washer) == *old(washer),
        spec_program_for(text@) matches Some(p) ==> (can_start(old(washer)@) ==> r.0
            == Outcome::Accepted && final(washer)@ == start_view(p, requester, now_ms as int) && (
        r.1 matches Some(t) && t.deadline_ms as int == now_ms + p.duration_ms)),
{
    let idle = match washer.state() {
        WasherState::Idle => true,
        _ => false,
    };
    if !idle {
        return (Outcome::RejectedBusy, None);
    }
    match program_for(text) {
        None => (Outcome::RejectedUnknownProgram, None),
        Some(program) => {
            let t = washer.start(&program, requester, now_ms);
            (Outcome::Accepted, Some(t))
        },
    }
}

/// Handles a stop command: cancels a running wash — whoever asks — and
/// reports it; on a machine that is not running it does nothing.
pub fn handle_stop_command(washer: &mut Washer) -> (r: Outcome)
    requires
        old(washer).wf(),
    ensures
        final(washer).wf(),
        can_stop(old(washer)@) ==> r == Outcome::Stopped && final(washer)@ == WasherView::Idle,
        !can_stop(old(washer)@) ==> r == Outcome::NotRunning && *final(washer) == *old(washer),
{
    let running = match washer.state() {
        WasherState::Running { .. } => true,
        _ => false,
    };
    if running {
        washer.stop();
        Outcome::Stopped
    } else {
        Outcome::NotRunning
    }
}

/// The decision of a status query once the timer has been probed:
/// `timer_gone` says whether the timer's receiving half was observed gone.
/// Exact for every value of `timer_gone`: the outcome is
/// [`status_outcome`] and the state moves to [`status_next`].
pub fn handle_status_with(
    washer: &mut Washer,
    timer_gone: bool,
    requester: UserId,
    now_ms: u64,
) -> (r: Outcome)
    requires
        old(washer).wf(),
    ensures
        final(washer).wf(),
        r == status_outcome(old(washer)@, requester, timer_gone, now_ms as int),
        final(washer)@ == status_next(old(washer)@, timer_gone),
        !(old(washer)@ is Running && timer_gone) ==> *final(washer) == *old(washer),
{
    let (is_running, owner) = match washer.state() {
        WasherState::Running { user, .. } => (true, *user),
        _ => (false, UserId(0)),
    };
    if is_running {
        if timer_gone {
            washer.finish();
            Outcome::CompletionObserved
        } else {
            let remaining_ms = washer.remaining_at(now_ms);
            if owner == requester {
                Outcome::OwnerRemaining { remaining_ms }
            } else {
                Outcome::OtherRunning { owner, remaining_ms }
            }
        }
    } else {
        match washer.state() {
            WasherState::Finished => Outcome::NothingToReport,
            _ => Outcome::MachineIdle,
        }
    }
}

/// Handles a status command: probes whether the timer's receiving half is
/// gone and decides as [`handle_status_with`] does. The probe's answer
/// depends on what the rest of the process did with the timer, so the
/// contract promises the exact outcome for each of its two possible answers.
pub fn handle_status_command(washer: &mut Washer, requester: UserId, now_ms: u64) -> (r: Outcome)
    requires
        old(washer).wf(),
    ensures
        final(washer).wf(),
        (r == status_outcome(old(washer)@, requester, false, now_ms as int) && *final(washer)
            == *old(washer)) || (r == status_outcome(old(washer)@, requester, true, now_ms as int)
            && final(washer)@ == status_next(old(washer)@, true)),
        !(old(washer)@ is Running) ==> *final(washer) == *old(washer),
{
    let timer_gone = match washer.state() {
        WasherState::Running { cancel_timer, .. } => receiver_gone(cancel_timer),
        _ => false,
    };
    handle_status_with(washer, timer_gone, requester, now_ms)
}

/// Handles one text message: cuts the command out of the text, dispatches it
/// to the start, stop or status handler, and answers what the reply layer
/// should say. `command_entity` is the character range of the bot-command
/// entity, or `None` when the message carried none.
pub fn handle_message(
    washer: &mut Washer,
    data: &str,
    command_entity: Option<(usize, usize)>,
    requester: UserId,
    now_ms: u64,
) -> (r: (Outcome, Option<Timer>))
    requires
        old(washer).wf(),
        command_entity matches Some((o, l)) ==> o + l <= data@.len(),
        now_ms + MAX_PROGRAM_DURATION_MS <= u64::MAX,
    ensures
        final(washer).wf(),
        command_entity is None ==> r.0 == Outcome::NotUnderstood && r.1 is None && *final(washer)
            == *old(washer),
        command_entity matches Some((o, l)) ==> ({
            let cmd = spec_command(data@, o as int, l as int);
            let args = spec_rest(data@, o as int, l as int);
            &&& (cmd == "/start"@ && !can_start(old(washer)@) ==> r.0 == Outcome::RejectedBusy
                && r.1 is None && *final(washer) == *old(washer))
            &&& (cmd == "/start"@ && can_start(old(washer)@) && spec_program_for(args) is None
                ==> r.0 == Outcome::RejectedUnknownProgram && r.1 is None && *final(washer)
                == *old(washer))
            &&& (spec_program_for(args) matches Some(p) ==> (cmd == "/start"@ && can_start(
                old(washer)@,
            ) ==> r.0 == Outcome::Accepted && final(washer)@ == start_view(
                p,
                requester,
                now_ms as int,
            ) && (r.1 matches Some(t) && t.deadline_ms as int == now_ms + p.duration_ms)))
            &&& (cmd == "/stop"@ && can_stop(old(washer)@) ==> r.0 == Outcome::Stopped && r.1
                is None && final(washer)@ == WasherView::Idle)
            &&& (cmd == "/stop"@ && !can_stop(old(washer)@) ==> r.0 == Outcome::NotRunning && r.1
                is None && *final(washer) == *old(washer))
            &&& (cmd == "/status"@ ==> r.1 is None && ((r.0 == status_outcome(
                old(washer)@,
                requester,
                false,
                now_ms as int,
            ) && *final(washer) == *old(washer)) || (r.0 == status_outcome(
                old(washer)@,
                requester,
                true,
                now_ms as int,
            ) && final(washer)@ == status_next(old(washer)@, true))))
            &&& (cmd != "/start"@ && cmd != "/stop"@ && cmd != "/status"@ ==> r.0
                == Outcome::Ignored && r.1 is None && *final(washer) == *old(washer))
        }),
{
    match interpret_text(data, command_entity) {
        MessageAction::NotUnderstood => (Outcome::NotUnderstood, None),
        MessageAction::Start { args } => handle_start_command(
            washer,
            args.as_str(),
            requester,
            now_ms,
        ),
        MessageAction::Stop => (handle_stop_command(washer), None),
        MessageAction::Status => (handle_status_command(washer, requester, now_ms), None),
        MessageAction::OtherCommand => (Outcome::Ignored, None),
    }
}

/// A status query by a user other than the owner, made while the timer is
/// still pending, reports the owner and the remaining time of the current
/// run and leaves the state exactly as it was.
pub proof fn lemma_status_query_by_other_is_pure(v: WasherView, requester: UserId, now_ms: int)
    requires
        v is Running,
    ensures
        status_next(v, false) == v,
        v matches WasherView::Running { user, .. } ==> (user != requester ==> status_outcome(
            v,
            requester,
            false,
            now_ms,
        ) == (Outcome::OtherRunning {
            owner: user,
            remaining_ms: spec_remaining(v, now_ms) as u64,
        })),
{
}

} // verus!
