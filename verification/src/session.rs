//! One execution session, modelled as a state machine.
//!
//! A session covers a single run request: the submitted source is written to
//! a transient script file, the located tool is spawned against it, its two
//! output streams are drained concurrently, and the session ends in exactly
//! one terminal status. The surrounding driver performs the actual process
//! and file work and feeds the outcome of each action back in as a
//! [`SessionEvent`]; every decision — which state follows, which notification
//! the output sink receives, and when the script file must be removed — is
//! computed here and fully specified by [`spec_step`].

use vstd::prelude::*;

use crate::messages::{
    exit_failure_message, exit_failure_note, file_error_message, file_error_note,
    not_found_message, not_found_note, spawn_error_message, spawn_error_note, stderr_message,
    stderr_note, stdout_message, stdout_note, success_message, success_note, wait_error_message,
    wait_error_note,
};

verus! {

/// Completion status of a session. `Running` describes every non-terminal
/// state; the other variants are the terminal outcomes.
pub enum SessionStatus {
    /// The session has not reached a terminal state yet.
    Running,
    /// The child process exited with status zero.
    Succeeded,
    /// The child process exited with the given nonzero status.
    FailedExit(i32),
    /// The tool could not be located under any strategy; no process was run.
    ToolNotFound,
    /// The script file could not be prepared, or the tool could not be
    /// started; the payload is the operating system's error text.
    SpawnError(String),
    /// Waiting on the child process failed after it was spawned.
    WaitError(String),
}

/// Lifecycle states of a session.
pub enum SessionState {
    /// The request was accepted; nothing has happened yet.
    Created,
    /// The source text was persisted to a transient script file.
    FileWritten,
    /// The child process was started with both output streams captured.
    Spawned,
    /// Both stream readers are running and forwarding lines.
    Streaming,
    /// The session ended with the given status.
    Completed(SessionStatus),
}

/// Outcomes of the driver's actions, fed back into the state machine.
pub enum SessionEvent {
    /// The tool locator found nothing.
    ToolMissing,
    /// The source text was written to the transient script file.
    FileWriteOk,
    /// Creating or writing the script file failed.
    FileWriteFailed(String),
    /// The child process started.
    SpawnOk,
    /// Starting the child process failed.
    SpawnFailed(String),
    /// Both stream readers were started.
    ReadersStarted,
    /// A reader received one line on the child's standard output.
    StdoutLine(String),
    /// A reader received one line on the child's standard error.
    StderrLine(String),
    /// The child process exited with the given status code.
    Exited(i32),
    /// Waiting on the child process failed.
    WaitFailed(String),
}

/// What one step of the machine asks of the driver: the state to continue
/// in, at most one notification for the output sink, and whether the
/// transient script file must be removed now.
pub struct StepEffect {
    pub next: SessionState,
    pub notification: Option<String>,
    pub delete_file: bool,
}

/// The status a state reports: `Running` until terminal.
pub open spec fn spec_status(s: SessionState) -> SessionStatus {
    match s {
        SessionState::Completed(st) => st,
        _ => SessionStatus::Running,
    }
}

/// A well-formed state never claims to have completed while still running.
/// Fresh sessions are well-formed and every step preserves it.
pub open spec fn state_wf(s: SessionState) -> bool {
    !(s matches SessionState::Completed(SessionStatus::Running))
}

/// The complete transition relation: next state, notification text, and
/// file-removal obligation for every state and event.
///
/// Events that a well-behaved driver cannot produce in a state (a stream
/// line before spawning, for instance) leave the state unchanged and have no
/// effect. A completed session absorbs every further event, so a session
/// reaches at most one terminal status.
pub open spec fn spec_step(s: SessionState, e: SessionEvent) -> (SessionState, Option<
    Seq<char>,
>, bool) {
    match s {
        SessionState::Created => match e {
            SessionEvent::ToolMissing => (
                SessionState::Completed(SessionStatus::ToolNotFound),
                Some(not_found_note()),
                false,
            ),
            SessionEvent::FileWriteOk => (SessionState::FileWritten, None, false),
            SessionEvent::FileWriteFailed(reason) => (
                SessionState::Completed(SessionStatus::SpawnError(reason)),
                Some(file_error_note(reason@)),
                false,
            ),
            _ => (s, None, false),
        },
        SessionState::FileWritten => match e {
            SessionEvent::SpawnOk => (SessionState::Spawned, None, false),
            SessionEvent::SpawnFailed(reason) => (
                SessionState::Completed(SessionStatus::SpawnError(reason)),
                Some(spawn_error_note(reason@)),
                true,
            ),
            _ => (s, None, false),
        },
        SessionState::Spawned => match e {
            SessionEvent::ReadersStarted => (SessionState::Streaming, None, false),
            _ => (s, None, false),
        },
        SessionState::Streaming => match e {
            SessionEvent::StdoutLine(line) => (s, Some(stdout_note(line@)), false),
            SessionEvent::StderrLine(line) => (s, Some(stderr_note(line@)), false),
            SessionEvent::Exited(code) => if code == 0 {
                (SessionState::Completed(SessionStatus::Succeeded), Some(success_note()), true)
            } else {
                (
                    SessionState::Completed(SessionStatus::FailedExit(code)),
                    Some(exit_failure_note(code as int)),
                    true,
                )
            },
            SessionEvent::WaitFailed(reason) => (
                SessionState::Completed(SessionStatus::WaitError(reason)),
                Some(wait_error_note(reason@)),
                true,
            ),
            _ => (s, None, false),
        },
        SessionState::Completed(_) => (s, None, false),
    }
}

/// The suffix of the transient script file, by which the tool recognises it
/// as a script.
pub fn script_suffix() -> (r: &'static str)
    ensures
        r@ == ".kts"@,
{
    ".kts"
}

/// What the transient script file holds for a submitted source text: the
/// text followed by one newline.
pub fn script_file_contents(source: &str) -> (r: String)
    ensures
        r@ == source@ + "\n"@,
{
    String::from_str(source).concat("\n")
}

/// One execution session. The driver creates one per run request, performs
/// the file, spawn, read and wait work itself, and reports each outcome
/// through [`Session::handle`]; sessions share no state with each other.
pub struct Session {
    pub state: SessionState,
}

impl Session {
    /// A fresh session for one run request.
    pub fn new() -> (r: Session)
        ensures
            r.state == SessionState::Created,
            state_wf(r.state),
    {
        Session { state: SessionState::Created }
    }

    /// True once the session has reached its terminal status.
    pub fn is_terminal(&self) -> (r: bool)
        ensures
            r == (self.state is Completed),
            state_wf(self.state) ==> r == !(spec_status(self.state) is Running),
    {
        match self.state {
            SessionState::Completed(_) => true,
            _ => false,
        }
    }

    /// Advance the machine by one event. Returns the notification owed to
    /// the output sink, if any, and whether the transient script file must
    /// be removed now.
    pub fn handle(&mut self, event: SessionEvent) -> (r: (Option<String>, bool))
        ensures
            final (self).state == spec_step(old(self).state, event).0,
            r.0.deep_view() == spec_step(old(self).state, event).1,
            r.1 == spec_step(old(self).state, event).2,
            state_wf(old(self).state) ==> state_wf(final (self).state),
    {
        let effect = step(take_state(&mut self.state), event);
        self.state = effect.next;
        (effect.notification, effect.delete_file)
    }
}

/// Swap the state with a placeholder so it can be moved out of the
/// session; the caller writes the successor state back immediately.
fn take_state(slot: &mut SessionState) -> (r: SessionState)
    ensures
        r == *old(slot),
{
    let mut taken = SessionState::Created;
    core::mem::swap(&mut taken, slot);
    taken
}

/// Executable form of [`spec_step`].
fn step(state: SessionState, event: SessionEvent) -> (r: StepEffect)
    ensures
        r.next == spec_step(state, event).0,
        r.notification.deep_view() == spec_step(state, event).1,
        r.delete_file == spec_step(state, event).2,
{
    match state {
        SessionState::Created => match event {
            SessionEvent::ToolMissing => StepEffect {
                next: SessionState::Completed(SessionStatus::ToolNotFound),
                notification: Some(not_found_message()),
                delete_file: false,
            },
            SessionEvent::FileWriteOk => StepEffect {
                next: SessionState::FileWritten,
                notification: None,
                delete_file: false,
            },
            SessionEvent::FileWriteFailed(reason) => {
                let note = file_error_message(reason.as_str());
                StepEffect {
                    next: SessionState::Completed(SessionStatus::SpawnError(reason)),
                    notification: Some(note),
                    delete_file: false,
                }
            },
            _ => StepEffect {
                next: SessionState::Created,
                notification: None,
                delete_file: false,
            },
        },
        SessionState::FileWritten => match event {
            SessionEvent::SpawnOk => StepEffect {
                next: SessionState::Spawned,
                notification: None,
                delete_file: false,
            },
            SessionEvent::SpawnFailed(reason) => {
                let note = spawn_error_message(reason.as_str());
                StepEffect {
                    next: SessionState::Completed(SessionStatus::SpawnError(reason)),
                    notification: Some(note),
                    delete_file: true,
                }
            },
            _ => StepEffect {
                next: SessionState::FileWritten,
                notification: None,
                delete_file: false,
            },
        },
        SessionState::Spawned => match event {
            SessionEvent::ReadersStarted => StepEffect {
                next: SessionState::Streaming,
                notification: None,
                delete_file: false,
            },
            _ => StepEffect {
                next: SessionState::Spawned,
                notification: None,
                delete_file: false,
            },
        },
        SessionState::Streaming => match event {
            SessionEvent::StdoutLine(line) => StepEffect {
                next: SessionState::Streaming,
                notification: Some(stdout_message(line.as_str())),
                delete_file: false,
            },
            SessionEvent::StderrLine(line) => StepEffect {
                next: SessionState::Streaming,
                notification: Some(stderr_message(line.as_str())),
                delete_file: false,
            },
            SessionEvent::Exited(code) => if code == 0 {
                StepEffect {
                    next: SessionState::Completed(SessionStatus::Succeeded),
                    notification: Some(success_message()),
                    delete_file: true,
                }
            } else {
                StepEffect {
                    next: SessionState::Completed(SessionStatus::FailedExit(code)),
                    notification: Some(exit_failure_message(code)),
                    delete_file: true,
                }
            },
            SessionEvent::WaitFailed(reason) => {
                let note = wait_error_message(reason.as_str());
                StepEffect {
                    next: SessionState::Completed(SessionStatus::WaitError(reason)),
                    notification: Some(note),
                    delete_file: true,
                }
            },
            _ => StepEffect {
                next: SessionState::Streaming,
                notification: None,
                delete_file: false,
            },
        },
        SessionState::Completed(st) => StepEffect {
            next: SessionState::Completed(st),
            notification: None,
            delete_file: false,
        },
    }
}

} // verus!
