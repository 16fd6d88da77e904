//! The session scheduler: one apply-hold-restore cycle as a state
//! machine. The machine itself is pure; every outside effect (reading and
//! writing the host file, running the cache-flush command, sleeping) is
//! requested through an [`Action`] and answered through an [`Event`] by
//! the surrounding program. A snapshot-read failure aborts before any
//! mutation; a write failure is fatal and names its stage; a cache-flush
//! failure is recorded but never aborts the session.

use vstd::prelude::*;
use crate::catalog::lower_chars;
use crate::catalog::token_matches;
use crate::errors::BlockError;
use crate::hostfile::apply;
use crate::hostfile::apply_spec;
use crate::hostfile::restore;
use crate::resolve::match_args;
use crate::resolve::resolve_spec;
use crate::timer::dec_value;
use crate::timer::digits_of;
use crate::timer::parse_sleep_time;
use crate::timer::valid_minutes;

verus! {

/// The stage in which a session failed. The distinction matters to the
/// caller: a snapshot failure left the file untouched, a write failure
/// during apply may have left it half-written, and a write failure during
/// restore leaves the blocklist in place.
#[derive(Clone, Copy, Debug, PartialEq, Eq, Structural)]
pub enum FailStage {
    /// The host file could not be read; nothing was mutated.
    Snapshot,
    /// The write of the blocking content failed after the snapshot was
    /// taken.
    ApplyWrite,
    /// The write of the snapshot back failed; the file stays modified
    /// until a later run or a manual repair.
    RestoreWrite,
}

/// What the machine asks the surrounding program to do next.
pub enum Action {
    /// Read the host file; answer with `SnapshotRead` or
    /// `SnapshotUnavailable`.
    ReadHostFile,
    /// Overwrite the host file with this content; answer with
    /// `WriteFinished`.
    WriteHostFile { content: String },
    /// Run the resolver-cache flush command; answer with `FlushFinished`.
    FlushCache,
    /// Sleep this many seconds; answer with `HoldFinished`.
    Hold { seconds: u64 },
    /// The session is over; the final state says how it ended.
    Done,
}

/// The outcome of the action the surrounding program performed.
pub enum Event {
    /// The host file was read; here is its full content.
    SnapshotRead { content: String },
    /// The host file could not be read.
    SnapshotUnavailable,
    /// The write finished, well or badly.
    WriteFinished { ok: bool },
    /// The flush command finished, well or badly.
    FlushFinished { ok: bool },
    /// The hold elapsed in full.
    HoldFinished,
}

/// The states of one session. `Resolved`, `Applied`, `Holding` and
/// `Restored` are the milestones of the cycle; `Snapshotted`,
/// `Restoring` and `RestoreFlushing` sit between them where one
/// transition needs several outside effects in a row.
pub enum SessionState {
    /// The block set is resolved; the snapshot read is pending.
    Resolved { hosts: Vec<String>, hold_seconds: u64 },
    /// The snapshot is captured; the write of the blocking content is
    /// pending. From here on the snapshot is the only way back.
    Snapshotted { snapshot: String, hold_seconds: u64 },
    /// The blocking content is persisted; the first flush is pending.
    Applied { snapshot: String, hold_seconds: u64 },
    /// The hold is running.
    Holding { snapshot: String, apply_flush_failed: bool },
    /// The hold elapsed; the write of the snapshot back is pending.
    Restoring { apply_flush_failed: bool },
    /// The snapshot is written back; the second flush is pending.
    RestoreFlushing { apply_flush_failed: bool },
    /// Terminal success: the file holds its pre-session content again.
    /// Recorded flush failures are reported, not concealed, since a stale
    /// cache can defeat the block or outlast it.
    Restored { apply_flush_failed: bool, restore_flush_failed: bool },
    /// Terminal failure, with the stage it happened in.
    Failed { stage: FailStage },
}

/// The event each state awaits. Terminal states await nothing.
pub open spec fn awaited(state: SessionState, event: Event) -> bool {
    match state {
        SessionState::Resolved { .. } => event is SnapshotRead || event is SnapshotUnavailable,
        SessionState::Snapshotted { .. } => event is WriteFinished,
        SessionState::Applied { .. } => event is FlushFinished,
        SessionState::Holding { .. } => event is HoldFinished,
        SessionState::Restoring { .. } => event is WriteFinished,
        SessionState::RestoreFlushing { .. } => event is FlushFinished,
        SessionState::Restored { .. } => false,
        SessionState::Failed { .. } => false,
    }
}

/// The transition relation of the session machine: from `state` under
/// `event`, the machine moves to `next` and requests `action`.
pub open spec fn step_rel(
    state: SessionState,
    event: Event,
    next: SessionState,
    action: Action,
) -> bool {
    match (state, event) {
        (
            SessionState::Resolved { hosts, hold_seconds },
            Event::SnapshotRead { content },
        ) => {
            &&& next matches SessionState::Snapshotted { snapshot, hold_seconds: h }
                && snapshot@ == content@ && h == hold_seconds
            &&& action matches Action::WriteHostFile { content: c } && c@ == apply_spec(
                content@,
                hosts.deep_view(),
            )
        },
        (SessionState::Resolved { .. }, Event::SnapshotUnavailable) => {
            &&& next == (SessionState::Failed { stage: FailStage::Snapshot })
            &&& action is Done
        },
        (
            SessionState::Snapshotted { snapshot, hold_seconds },
            Event::WriteFinished { ok: true },
        ) => {
            &&& next matches SessionState::Applied { snapshot: s, hold_seconds: h }
                && s@ == snapshot@ && h == hold_seconds
            &&& action is FlushCache
        },
        (SessionState::Snapshotted { .. }, Event::WriteFinished { ok: false }) => {
            &&& next == (SessionState::Failed { stage: FailStage::ApplyWrite })
            &&& action is Done
        },
        (
            SessionState::Applied { snapshot, hold_seconds },
            Event::FlushFinished { ok },
        ) => {
            &&& next matches SessionState::Holding { snapshot: s, apply_flush_failed }
                && s@ == snapshot@ && apply_flush_failed == !ok
            &&& action matches Action::Hold { seconds } && seconds == hold_seconds
        },
        (
            SessionState::Holding { snapshot, apply_flush_failed },
            Event::HoldFinished,
        ) => {
            &&& next == (SessionState::Restoring { apply_flush_failed })
            &&& action matches Action::WriteHostFile { content: c } && c@ == snapshot@
        },
        (
            SessionState::Restoring { apply_flush_failed },
            Event::WriteFinished { ok: true },
        ) => {
            &&& next == (SessionState::RestoreFlushing { apply_flush_failed })
            &&& action is FlushCache
        },
        (SessionState::Restoring { .. }, Event::WriteFinished { ok: false }) => {
            &&& next == (SessionState::Failed { stage: FailStage::RestoreWrite })
            &&& action is Done
        },
        (
            SessionState::RestoreFlushing { apply_flush_failed },
            Event::FlushFinished { ok },
        ) => {
            &&& next == (SessionState::Restored {
                apply_flush_failed,
                restore_flush_failed: !ok,
            })
            &&& action is Done
        },
        _ => false,
    }
}

/// Whether the machine accepts this event in this state; the surrounding
/// program checks this before calling [`step`].
pub fn accepts(state: &SessionState, event: &Event) -> (r: bool)
    ensures
        r == awaited(*state, *event),
{
    match state {
        SessionState::Resolved { .. } => matches!(
            event,
            Event::SnapshotRead { .. } | Event::SnapshotUnavailable
        ),
        SessionState::Snapshotted { .. } => matches!(event, Event::WriteFinished { .. }),
        SessionState::Applied { .. } => matches!(event, Event::FlushFinished { .. }),
        SessionState::Holding { .. } => matches!(event, Event::HoldFinished),
        SessionState::Restoring { .. } => matches!(event, Event::WriteFinished { .. }),
        SessionState::RestoreFlushing { .. } => matches!(event, Event::FlushFinished { .. }),
        SessionState::Restored { .. } => false,
        SessionState::Failed { .. } => false,
    }
}

/// One transition of the session machine.
pub fn step(state: SessionState, event: Event) -> (r: (SessionState, Action))
    requires
        awaited(state, event),
    ensures
        step_rel(state, event, r.0, r.1),
{
    match (state, event) {
        (SessionState::Resolved { hosts, hold_seconds }, Event::SnapshotRead { content }) => {
            let new_content = apply(&content, &hosts);
            (
                SessionState::Snapshotted { snapshot: content, hold_seconds },
                Action::WriteHostFile { content: new_content },
            )
        },
        (SessionState::Resolved { .. }, Event::SnapshotUnavailable) => {
            (SessionState::Failed { stage: FailStage::Snapshot }, Action::Done)
        },
        (SessionState::Snapshotted { snapshot, hold_seconds }, Event::WriteFinished { ok }) => {
            if ok {
                (SessionState::Applied { snapshot, hold_seconds }, Action::FlushCache)
            } else {
                (SessionState::Failed { stage: FailStage::ApplyWrite }, Action::Done)
            }
        },
        (SessionState::Applied { snapshot, hold_seconds }, Event::FlushFinished { ok }) => {
            (
                SessionState::Holding { snapshot, apply_flush_failed: !ok },
                Action::Hold { seconds: hold_seconds },
            )
        },
        (SessionState::Holding { snapshot, apply_flush_failed }, Event::HoldFinished) => {
            let content = restore(&snapshot);
            (
                SessionState::Restoring { apply_flush_failed },
                Action::WriteHostFile { content },
            )
        },
        (SessionState::Restoring { apply_flush_failed }, Event::WriteFinished { ok }) => {
            if ok {
                (SessionState::RestoreFlushing { apply_flush_failed }, Action::FlushCache)
            } else {
                (SessionState::Failed { stage: FailStage::RestoreWrite }, Action::Done)
            }
        },
        (SessionState::RestoreFlushing { apply_flush_failed }, Event::FlushFinished { ok }) => {
            (
                SessionState::Restored { apply_flush_failed, restore_flush_failed: !ok },
                Action::Done,
            )
        },
        _ => {
            proof {
                assert(false);
            }
            (SessionState::Failed { stage: FailStage::Snapshot }, Action::Done)
        },
    }
}

/// The Idle-to-Resolved transition: a session begins with the resolved
/// block set and the hold length, and first asks for the host-file
/// snapshot. Resolution itself never fails: an empty block set is a
/// valid, no-op session.
pub fn start_session(hosts: Vec<String>, hold_seconds: u64) -> (r: (SessionState, Action))
    ensures
        r.0 == (SessionState::Resolved { hosts, hold_seconds }),
        r.1 is ReadHostFile,
{
    (SessionState::Resolved { hosts, hold_seconds }, Action::ReadHostFile)
}

/// The cache invalidator's verdict. The surrounding program runs the
/// platform flush command and reports how the run went; the flush counts
/// as successful only when the command could be launched and exited with
/// status zero. A failure is surfaced, never concealed, since a stale
/// cache silently defeats the block, but it does not abort the session.
pub fn flush_outcome(launched: bool, exit_zero: bool) -> (r: Result<(), BlockError>)
    ensures
        launched && exit_zero ==> r == Ok::<(), BlockError>(()),
        !(launched && exit_zero) ==> r == Err::<(), BlockError>(BlockError::CacheFlushFailure),
{
    if launched && exit_zero {
        Ok(())
    } else {
        Err(BlockError::CacheFlushFailure)
    }
}

/// How a run begins: either the usage text is wanted, or a full session
/// with a resolved block set and a hold length.
pub enum SessionPlan {
    /// The first token asked for help: print usage, mutate nothing, hold
    /// for nothing, and exit well.
    Help,
    /// Run a session over this block set, holding this many seconds.
    Run { hosts: Vec<String>, hold_seconds: u64 },
}

/// Whether a token, lowercased, asks for the usage text.
pub open spec fn is_help_token(token: Seq<char>) -> bool {
    lower_chars(token) == "help"@
}

/// Turns the caller's token list into a session plan. The list must be
/// nonempty; its first token may ask for help; otherwise its last token
/// is the timer in minutes and the rest name sites and presets. A
/// missing or unparsable timer is an input error, raised before the host
/// file is read at all.
pub fn plan_session(tokens: &Vec<String>) -> (r: Result<SessionPlan, BlockError>)
    ensures
        ({
            let toks = tokens.deep_view();
            if toks.len() == 0 {
                r == Err::<SessionPlan, BlockError>(BlockError::InputError)
            } else if is_help_token(toks[0]) {
                r == Ok::<SessionPlan, BlockError>(SessionPlan::Help)
            } else if valid_minutes(toks[toks.len() - 1]) {
                r matches Ok(SessionPlan::Run { hosts, hold_seconds })
                    && hosts.deep_view() == resolve_spec(toks.take(toks.len() - 1))
                    && hold_seconds == (dec_value(digits_of(toks[toks.len() - 1])) * 60) as u64
            } else {
                r == Err::<SessionPlan, BlockError>(BlockError::InputError)
            }
        }),
{
    let n = tokens.len();
    if n == 0 {
        return Err(BlockError::InputError);
    }
    if token_matches(tokens[0].as_str(), "help") {
        return Ok(SessionPlan::Help);
    }
    let hold_seconds = match parse_sleep_time(&tokens[n - 1]) {
        Ok(seconds) => seconds,
        Err(_) => {
            return Err(BlockError::InputError);
        },
    };
    let mut rest: Vec<String> = Vec::new();
    let mut i: usize = 0;
    while i < n - 1
        invariant
            i <= n - 1,
            n == tokens.len(),
            n >= 1,
            rest@.len() == i,
            rest.deep_view() == tokens.deep_view().take(i as int),
        decreases n - 1 - i,
    {
        let ghost pre = rest.deep_view();
        rest.push(tokens[i].clone());
        proof {
            let toks = tokens.deep_view();
            assert(toks.len() == n);
            assert(rest@.len() == i + 1);
            assert forall|j: int| 0 <= j <= i implies rest.deep_view()[j] == toks.take(
                i as int + 1,
            )[j] by {
                if j < i {
                    assert(rest.deep_view()[j] == pre[j]);
                    assert(pre[j] == toks[j]);
                } else {
                    assert(rest@[i as int]@ == tokens@[i as int]@);
                }
            }
            assert(rest.deep_view() =~= toks.take(i as int + 1));
        }
        i += 1;
    }
    let hosts = match_args(&rest);
    Ok(SessionPlan::Run { hosts, hold_seconds })
}

} // verus!
