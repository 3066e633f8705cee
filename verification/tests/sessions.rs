use kotlin_runner::messages::{
    decimal_i32, exit_failure_message, not_found_message, spawn_error_message, stderr_message,
    stdout_message, success_message, wait_error_message,
};
use kotlin_runner::session::{
    script_file_contents, script_suffix, Session, SessionEvent, SessionState, SessionStatus,
};

/// Drive one session over the events; collect every notification and count
/// the file-removal demands.
fn drive(events: Vec<SessionEvent>) -> (Session, Vec<String>, usize) {
    let mut session = Session::new();
    let mut notes: Vec<String> = Vec::new();
    let mut deletes: usize = 0;
    for event in events {
        let (note, delete_file) = session.handle(event);
        if let Some(n) = note {
            notes.push(n);
        }
        if delete_file {
            deletes += 1;
        }
    }
    (session, notes, deletes)
}

#[test]
fn decimal_rendering_is_exact() {
    assert_eq!(decimal_i32(0), "0");
    assert_eq!(decimal_i32(7), "7");
    assert_eq!(decimal_i32(42), "42");
    assert_eq!(decimal_i32(2147483647), "2147483647");
    assert_eq!(decimal_i32(-5), "-5");
    assert_eq!(decimal_i32(-2147483648), "-2147483648");
}

#[test]
fn notification_texts_are_exact() {
    assert_eq!(stdout_message("hello"), "hello\n");
    assert_eq!(stderr_message("boom"), "⚠️ boom\n");
    assert_eq!(success_message(), "\n✅ Execution completed\n");
    assert_eq!(
        exit_failure_message(2),
        "\n❌ Process exited with: exit status: 2\n"
    );
    assert_eq!(
        spawn_error_message("permission denied"),
        "❌ Failed to start kotlinc: permission denied\n"
    );
    assert_eq!(
        wait_error_message("handle lost"),
        "\n❌ Failed to wait on process: handle lost\n"
    );
    let not_found = not_found_message();
    assert!(not_found.contains("Kotlin compiler not found"));
    assert!(not_found.contains("brew install kotlin"));
    assert!(not_found.contains("snap install kotlin"));
    assert!(not_found.contains("sdk install kotlin"));
}

#[test]
fn script_file_holds_source_plus_newline() {
    assert_eq!(script_file_contents("println(1 + 2)"), "println(1 + 2)\n");
    assert_eq!(script_suffix(), ".kts");
}

#[test]
fn successful_run_reaches_one_terminal_status_and_removes_file() {
    let (session, notes, deletes) = drive(vec![
        SessionEvent::FileWriteOk,
        SessionEvent::SpawnOk,
        SessionEvent::ReadersStarted,
        SessionEvent::StdoutLine(String::from("hello")),
        SessionEvent::Exited(0),
    ]);
    assert!(session.is_terminal());
    assert!(matches!(
        session.state,
        SessionState::Completed(SessionStatus::Succeeded)
    ));
    assert_eq!(deletes, 1);
    assert_eq!(notes, vec!["hello\n", "\n✅ Execution completed\n"]);
    assert!(notes.iter().all(|n| !n.starts_with("⚠️")));
}

#[test]
fn stderr_output_is_warning_tagged_and_exit_two_is_reported() {
    let (session, notes, deletes) = drive(vec![
        SessionEvent::FileWriteOk,
        SessionEvent::SpawnOk,
        SessionEvent::ReadersStarted,
        SessionEvent::StderrLine(String::from("boom")),
        SessionEvent::Exited(2),
    ]);
    assert!(matches!(
        session.state,
        SessionState::Completed(SessionStatus::FailedExit(2))
    ));
    assert_eq!(deletes, 1);
    assert_eq!(
        notes,
        vec!["⚠️ boom\n", "\n❌ Process exited with: exit status: 2\n"]
    );
}

#[test]
fn missing_tool_emits_only_the_not_found_diagnostic() {
    let (session, notes, deletes) = drive(vec![SessionEvent::ToolMissing]);
    assert!(matches!(
        session.state,
        SessionState::Completed(SessionStatus::ToolNotFound)
    ));
    assert_eq!(notes, vec![not_found_message()]);
    assert_eq!(deletes, 0);
}

#[test]
fn completed_session_absorbs_further_events() {
    let mut session = Session::new();
    session.handle(SessionEvent::ToolMissing);
    let (note, delete_file) = session.handle(SessionEvent::StdoutLine(String::from("late")));
    assert_eq!(note, None);
    assert!(!delete_file);
    assert!(matches!(
        session.state,
        SessionState::Completed(SessionStatus::ToolNotFound)
    ));
}

#[test]
fn file_write_failure_is_fatal_and_reported() {
    let (session, notes, _) = drive(vec![SessionEvent::FileWriteFailed(String::from(
        "disk full",
    ))]);
    assert!(matches!(
        session.state,
        SessionState::Completed(SessionStatus::SpawnError(_))
    ));
    assert_eq!(
        notes,
        vec!["❌ Failed to prepare script file: disk full\n"]
    );
}

#[test]
fn spawn_failure_is_reported_and_file_removed() {
    let (session, notes, deletes) = drive(vec![
        SessionEvent::FileWriteOk,
        SessionEvent::SpawnFailed(String::from("permission denied")),
    ]);
    assert!(matches!(
        session.state,
        SessionState::Completed(SessionStatus::SpawnError(_))
    ));
    assert_eq!(deletes, 1);
    assert_eq!(
        notes,
        vec!["❌ Failed to start kotlinc: permission denied\n"]
    );
}

#[test]
fn wait_failure_is_reported_and_file_removed() {
    let (session, notes, deletes) = drive(vec![
        SessionEvent::FileWriteOk,
        SessionEvent::SpawnOk,
        SessionEvent::ReadersStarted,
        SessionEvent::WaitFailed(String::from("handle lost")),
    ]);
    assert!(matches!(
        session.state,
        SessionState::Completed(SessionStatus::WaitError(_))
    ));
    assert_eq!(deletes, 1);
    assert_eq!(notes, vec!["\n❌ Failed to wait on process: handle lost\n"]);
}

#[test]
fn interleaved_sessions_do_not_cross_contaminate() {
    let first_events = || {
        vec![
            SessionEvent::FileWriteOk,
            SessionEvent::SpawnOk,
            SessionEvent::ReadersStarted,
            SessionEvent::StdoutLine(String::from("one")),
            SessionEvent::StdoutLine(String::from("two")),
            SessionEvent::Exited(0),
        ]
    };
    let second_events = || {
        vec![
            SessionEvent::FileWriteOk,
            SessionEvent::SpawnOk,
            SessionEvent::ReadersStarted,
            SessionEvent::StderrLine(String::from("boom")),
            SessionEvent::Exited(3),
        ]
    };
    let (_, solo_first, _) = drive(first_events());
    let (_, solo_second, _) = drive(second_events());

    let mut a = Session::new();
    let mut b = Session::new();
    let mut notes_a: Vec<String> = Vec::new();
    let mut notes_b: Vec<String> = Vec::new();
    let mut deletes_a: usize = 0;
    let mut deletes_b: usize = 0;
    let mut ea = first_events().into_iter();
    let mut eb = second_events().into_iter();
    loop {
        let mut progressed = false;
        if let Some(e) = ea.next() {
            let (note, delete_file) = a.handle(e);
            notes_a.extend(note);
            deletes_a += usize::from(delete_file);
            progressed = true;
        }
        if let Some(e) = eb.next() {
            let (note, delete_file) = b.handle(e);
            notes_b.extend(note);
            deletes_b += usize::from(delete_file);
            progressed = true;
        }
        if !progressed {
            break;
        }
    }
    assert_eq!(notes_a, solo_first);
    assert_eq!(notes_b, solo_second);
    assert_eq!(deletes_a, 1);
    assert_eq!(deletes_b, 1);
    assert!(matches!(
        a.state,
        SessionState::Completed(SessionStatus::Succeeded)
    ));
    assert!(matches!(
        b.state,
        SessionState::Completed(SessionStatus::FailedExit(3))
    ));
}
