//! Whole-run reasoning over the session state machine.
//!
//! A driver's run is a sequence of events fed to [`spec_step`] from the
//! `Created` state. The folds here recover, for any such sequence, the state
//! reached, whether the transient script file still exists, and the ordered
//! notifications delivered to the output sink; the lemmas state the
//! lifecycle guarantees: a completed session is final, a full run always
//! completes with its script file removed, a failed tool lookup emits the
//! not-found diagnostic and nothing else without ever spawning, and two
//! interleaved sessions cannot contaminate one another.

use vstd::prelude::*;

use crate::messages::not_found_note;
use crate::session::{spec_step, SessionEvent, SessionState, SessionStatus};

verus! {

/// The state a session reaches after the given events, starting from `Created`.
pub open spec fn trace_state(events: Seq<SessionEvent>) -> SessionState
    decreases events.len(),
{
    if events.len() == 0 {
        SessionState::Created
    } else {
        spec_step(trace_state(events.drop_last()), events.last()).0
    }
}

/// Whether the transient script file exists after the given events: a
/// successful write creates it, and it is gone once a step demands removal.
pub open spec fn trace_file_exists(events: Seq<SessionEvent>) -> bool
    decreases events.len(),
{
    if events.len() == 0 {
        false
    } else {
        let before_state = trace_state(events.drop_last());
        let before_file = trace_file_exists(events.drop_last());
        let step = spec_step(before_state, events.last());
        if step.2 {
            false
        } else {
            before_file || (before_state is Created && events.last() is FileWriteOk)
        }
    }
}

/// The notifications the output sink receives over the given events, in order.
pub open spec fn trace_notes(events: Seq<SessionEvent>) -> Seq<Seq<char>>
    decreases events.len(),
{
    if events.len() == 0 {
        Seq::empty()
    } else {
        let prefix = trace_notes(events.drop_last());
        match spec_step(trace_state(events.drop_last()), events.last()).1 {
            Some(n) => prefix.push(n),
            None => prefix,
        }
    }
}

/// A completed session is final: whatever events still arrive, its status
/// never changes, no further notification is emitted, and the file model is
/// untouched. A run therefore reaches at most one terminal status.
pub proof fn lemma_completed_absorbs(
    events: Seq<SessionEvent>,
    more: Seq<SessionEvent>,
    status: SessionStatus,
)
    requires
        trace_state(events) == SessionState::Completed(status),
    ensures
        trace_state(events + more) == SessionState::Completed(status),
        trace_notes(events + more) == trace_notes(events),
        trace_file_exists(events + more) == trace_file_exists(events),
    decreases more.len(),
{
    if more.len() == 0 {
        assert(events + more =~= events);
    } else {
        lemma_completed_absorbs(events, more.drop_last(), status);
        assert((events + more).drop_last() =~= events + more.drop_last());
    }
}

/// While the session has not progressed past `Created`, and once it is
/// completed, the transient script file does not exist.
pub proof fn lemma_terminal_file_removed(events: Seq<SessionEvent>)
    ensures
        trace_state(events) is Created ==> !trace_file_exists(events),
        trace_state(events) is Completed ==> !trace_file_exists(events),
    decreases events.len(),
{
    if events.len() > 0 {
        lemma_terminal_file_removed(events.drop_last());
    }
}

/// True when every event is a stream line, as produced by the two readers.
pub open spec fn stream_events_only(lines: Seq<SessionEvent>) -> bool {
    forall|i: int|
        0 <= i < lines.len() ==> (lines[i] is StdoutLine || lines[i] is StderrLine)
}

proof fn lemma_streaming_stays(prefix: Seq<SessionEvent>, lines: Seq<SessionEvent>)
    requires
        trace_state(prefix) == SessionState::Streaming,
        stream_events_only(lines),
    ensures
        trace_state(prefix + lines) == SessionState::Streaming,
        trace_file_exists(prefix + lines) == trace_file_exists(prefix),
    decreases lines.len(),
{
    if lines.len() == 0 {
        assert(prefix + lines =~= prefix);
    } else {
        lemma_streaming_stays(prefix, lines.drop_last());
        assert((prefix + lines).drop_last() =~= prefix + lines.drop_last());
    }
}

/// Every full run — a written file, a spawned process, started readers, any
/// number of stream lines, then an exit or wait outcome — reaches a terminal
/// status, and the script file no longer exists afterwards.
pub proof fn lemma_run_reaches_terminal(lines: Seq<SessionEvent>, outcome: SessionEvent)
    requires
        stream_events_only(lines),
        outcome is Exited || outcome is WaitFailed,
    ensures
        ({
            let run = seq![
                SessionEvent::FileWriteOk,
                SessionEvent::SpawnOk,
                SessionEvent::ReadersStarted,
            ] + lines + seq![outcome];
            &&& trace_state(run) is Completed
            &&& !trace_file_exists(run)
        }),
{
    let head = seq![
        SessionEvent::FileWriteOk,
        SessionEvent::SpawnOk,
        SessionEvent::ReadersStarted,
    ];
    let h0 = Seq::<SessionEvent>::empty();
    let h1 = seq![SessionEvent::FileWriteOk];
    let h2 = seq![SessionEvent::FileWriteOk, SessionEvent::SpawnOk];
    assert(trace_state(h0) == SessionState::Created);
    assert(h1.drop_last() =~= h0);
    assert(trace_state(h1) == SessionState::FileWritten);
    assert(h2.drop_last() =~= h1);
    assert(trace_state(h2) == SessionState::Spawned);
    assert(head.drop_last() =~= h2);
    assert(trace_state(head) == SessionState::Streaming);
    lemma_streaming_stays(head, lines);
    let run = head + lines + seq![outcome];
    assert(run.drop_last() =~= head + lines);
    assert(trace_state(run) is Completed);
    assert(!trace_file_exists(run));
}

/// The short-circuited runs reach a terminal status too, with no file left
/// behind: a failed file write ends the session at once, and a failed spawn
/// after a successful write ends it with the file removed.
pub proof fn lemma_failed_run_reaches_terminal(reason: String)
    ensures
        trace_state(seq![SessionEvent::FileWriteFailed(reason)]) is Completed,
        !trace_file_exists(seq![SessionEvent::FileWriteFailed(reason)]),
        trace_state(seq![SessionEvent::FileWriteOk, SessionEvent::SpawnFailed(reason)])
            is Completed,
        !trace_file_exists(seq![SessionEvent::FileWriteOk, SessionEvent::SpawnFailed(reason)]),
{
    let short = seq![SessionEvent::FileWriteFailed(reason)];
    assert(trace_state(Seq::<SessionEvent>::empty()) == SessionState::Created);
    assert(!trace_file_exists(Seq::<SessionEvent>::empty()));
    assert(short.drop_last() =~= Seq::<SessionEvent>::empty());
    assert(trace_state(short) is Completed);
    assert(!trace_file_exists(short));
    let written = seq![SessionEvent::FileWriteOk];
    let failed = seq![SessionEvent::FileWriteOk, SessionEvent::SpawnFailed(reason)];
    assert(written.drop_last() =~= Seq::<SessionEvent>::empty());
    assert(trace_state(written) == SessionState::FileWritten);
    assert(failed.drop_last() =~= written);
    assert(trace_state(failed) is Completed);
    assert(!trace_file_exists(failed));
}

/// When the tool cannot be located, the sink receives exactly the not-found
/// diagnostic, the session ends in `ToolNotFound`, no script file ever
/// exists, and no prefix of the run passes through a spawned or streaming
/// state — no child process is started.
pub proof fn lemma_tool_missing_spawns_nothing(events: Seq<SessionEvent>)
    requires
        events.len() >= 1,
        events[0] == SessionEvent::ToolMissing,
    ensures
        trace_state(events) == SessionState::Completed(SessionStatus::ToolNotFound),
        trace_notes(events) == seq![not_found_note()],
        !trace_file_exists(events),
        forall|i: int|
            0 <= i <= events.len() ==> !(#[trigger] trace_state(events.take(i)) is Spawned)
                && !(trace_state(events.take(i)) is Streaming),
{
    let first = seq![events[0]];
    assert(trace_state(Seq::<SessionEvent>::empty()) == SessionState::Created);
    assert(trace_notes(Seq::<SessionEvent>::empty()) == Seq::<Seq<char>>::empty());
    assert(first.drop_last() =~= Seq::<SessionEvent>::empty());
    assert(first.last() == SessionEvent::ToolMissing);
    assert(trace_state(first) == SessionState::Completed(SessionStatus::ToolNotFound));
    assert(trace_notes(first) =~= seq![not_found_note()]);
    assert(!trace_file_exists(Seq::<SessionEvent>::empty()));
    assert(!trace_file_exists(first));
    assert(events =~= first + events.skip(1));
    lemma_completed_absorbs(first, events.skip(1), SessionStatus::ToolNotFound);
    assert forall|i: int|
        0 <= i <= events.len() implies !(#[trigger] trace_state(events.take(i)) is Spawned)
        && !(trace_state(events.take(i)) is Streaming) by {
        if i == 0 {
            assert(events.take(0) =~= Seq::<SessionEvent>::empty());
        } else {
            assert(events.take(i) =~= first + events.subrange(1, i));
            lemma_completed_absorbs(first, events.subrange(1, i), SessionStatus::ToolNotFound);
        }
    }
}

/// The events of a two-session schedule that belong to one of the sessions.
pub open spec fn events_of(sched: Seq<(bool, SessionEvent)>, first: bool) -> Seq<SessionEvent>
    decreases sched.len(),
{
    if sched.len() == 0 {
        Seq::empty()
    } else {
        let init = events_of(sched.drop_last(), first);
        if sched.last().0 == first {
            init.push(sched.last().1)
        } else {
            init
        }
    }
}

/// The pair of states of two sessions stepped together under a schedule.
pub open spec fn pair_states(sched: Seq<(bool, SessionEvent)>) -> (SessionState, SessionState)
    decreases sched.len(),
{
    if sched.len() == 0 {
        (SessionState::Created, SessionState::Created)
    } else {
        let prev = pair_states(sched.drop_last());
        if sched.last().0 {
            (spec_step(prev.0, sched.last().1).0, prev.1)
        } else {
            (prev.0, spec_step(prev.1, sched.last().1).0)
        }
    }
}

/// The pair of notification streams of two sessions under a schedule.
pub open spec fn pair_notes(sched: Seq<(bool, SessionEvent)>) -> (Seq<Seq<char>>, Seq<Seq<char>>)
    decreases sched.len(),
{
    if sched.len() == 0 {
        (Seq::empty(), Seq::empty())
    } else {
        let prev_states = pair_states(sched.drop_last());
        let prev_notes = pair_notes(sched.drop_last());
        if sched.last().0 {
            match spec_step(prev_states.0, sched.last().1).1 {
                Some(n) => (prev_notes.0.push(n), prev_notes.1),
                None => prev_notes,
            }
        } else {
            match spec_step(prev_states.1, sched.last().1).1 {
                Some(n) => (prev_notes.0, prev_notes.1.push(n)),
                None => prev_notes,
            }
        }
    }
}

/// The pair of file models of two sessions under a schedule.
pub open spec fn pair_files(sched: Seq<(bool, SessionEvent)>) -> (bool, bool)
    decreases sched.len(),
{
    if sched.len() == 0 {
        (false, false)
    } else {
        let prev_states = pair_states(sched.drop_last());
        let prev_files = pair_files(sched.drop_last());
        let e = sched.last().1;
        if sched.last().0 {
            let step = spec_step(prev_states.0, e);
            let file = if step.2 {
                false
            } else {
                prev_files.0 || (prev_states.0 is Created && e is FileWriteOk)
            };
            (file, prev_files.1)
        } else {
            let step = spec_step(prev_states.1, e);
            let file = if step.2 {
                false
            } else {
                prev_files.1 || (prev_states.1 is Created && e is FileWriteOk)
            };
            (prev_files.0, file)
        }
    }
}

/// Two concurrent sessions driven under any interleaving behave exactly as
/// if each received its own events alone: neither session's state, temp-file
/// model nor notifications can be contaminated by the other.
pub proof fn lemma_sessions_independent(sched: Seq<(bool, SessionEvent)>)
    ensures
        pair_states(sched).0 == trace_state(events_of(sched, true)),
        pair_states(sched).1 == trace_state(events_of(sched, false)),
        pair_notes(sched).0 == trace_notes(events_of(sched, true)),
        pair_notes(sched).1 == trace_notes(events_of(sched, false)),
        pair_files(sched).0 == trace_file_exists(events_of(sched, true)),
        pair_files(sched).1 == trace_file_exists(events_of(sched, false)),
    decreases sched.len(),
{
    if sched.len() > 0 {
        lemma_sessions_independent(sched.drop_last());
        let e = sched.last().1;
        if sched.last().0 {
            let own = events_of(sched.drop_last(), true);
            assert(events_of(sched, true) == own.push(e));
            assert(own.push(e).drop_last() =~= own);
            assert(events_of(sched, false) == events_of(sched.drop_last(), false));
        } else {
            let own = events_of(sched.drop_last(), false);
            assert(events_of(sched, false) == own.push(e));
            assert(own.push(e).drop_last() =~= own);
            assert(events_of(sched, true) == events_of(sched.drop_last(), true));
        }
    }
}

} // verus!
