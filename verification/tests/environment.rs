use kotlin_runner::env_resolve::{
    apply_updates, parse_env_output, resolve_environment, shell_args, shell_program,
    split_into_lines, strip_marker, EnvUpdates, Platform, ResolvedEnvironment,
};

#[test]
fn shell_program_prefers_shell_variable() {
    let r = shell_program(Some(String::from("/usr/bin/fish")), Platform::MacOs);
    assert_eq!(r, "/usr/bin/fish");
}

#[test]
fn shell_program_defaults_per_platform() {
    assert_eq!(shell_program(None, Platform::MacOs), "/bin/zsh");
    assert_eq!(shell_program(None, Platform::Linux), "/bin/bash");
}

#[test]
fn shell_args_macos_forces_interactive_login() {
    let args = shell_args(Platform::MacOs);
    assert_eq!(args.len(), 4);
    assert_eq!(args[0], "-l");
    assert_eq!(args[1], "-i");
    assert_eq!(args[2], "-c");
    assert_eq!(
        args[3],
        "echo \"__PATH__$PATH\" && echo \"__JAVA__$JAVA_HOME\""
    );
}

#[test]
fn shell_args_linux_is_login_only() {
    let args = shell_args(Platform::Linux);
    assert_eq!(args.len(), 3);
    assert_eq!(args[0], "-l");
    assert_eq!(args[1], "-c");
    assert_eq!(
        args[2],
        "echo \"__PATH__$PATH\" && echo \"__JAVA__$JAVA_HOME\""
    );
}

#[test]
fn split_lines_drops_no_segments_but_trailing() {
    let lines = split_into_lines("a\nbc\n\nd");
    assert_eq!(lines, vec!["a", "bc", "", "d"]);
    let lines = split_into_lines("a\n");
    assert_eq!(lines, vec!["a"]);
    let lines = split_into_lines("");
    assert!(lines.is_empty());
    let lines = split_into_lines("\n");
    assert_eq!(lines, vec![""]);
}

#[test]
fn strip_marker_takes_the_exact_remainder() {
    assert_eq!(
        strip_marker("__PATH__/usr/bin:/bin", "__PATH__"),
        Some(String::from("/usr/bin:/bin"))
    );
    assert_eq!(strip_marker("__PATH__", "__PATH__"), Some(String::new()));
    assert_eq!(strip_marker("__JAVA__x", "__PATH__"), None);
    assert_eq!(strip_marker("_PATH__x", "__PATH__"), None);
}

#[test]
fn parse_reads_both_sentinel_lines() {
    let out = "noise\n__PATH__/usr/bin:/bin\n__JAVA__/opt/jdk\n";
    let updates = parse_env_output(out);
    assert_eq!(updates.path.as_deref(), Some("/usr/bin:/bin"));
    assert_eq!(updates.tool_home.as_deref(), Some("/opt/jdk"));
}

#[test]
fn parse_ignores_unmarked_lines() {
    let updates = parse_env_output("plain output\nanother line\n");
    assert_eq!(updates.path, None);
    assert_eq!(updates.tool_home, None);
}

#[test]
fn parse_duplicate_markers_last_write_wins() {
    let out = "__PATH__/first\n__PATH__/second\n";
    let updates = parse_env_output(out);
    assert_eq!(updates.path.as_deref(), Some("/second"));
}

#[test]
fn empty_resolved_path_preserves_previous_value() {
    let prev = ResolvedEnvironment {
        path: Some(String::from("/usr/bin")),
        tool_home: None,
    };
    let updates = EnvUpdates {
        path: Some(String::new()),
        tool_home: None,
    };
    let merged = apply_updates(&prev, &updates);
    assert_eq!(merged.path.as_deref(), Some("/usr/bin"));
    assert_eq!(merged.tool_home, None);
}

#[test]
fn non_empty_resolved_path_fully_replaces_previous_value() {
    let prev = ResolvedEnvironment {
        path: Some(String::from("/usr/bin")),
        tool_home: Some(String::from("/old/jdk")),
    };
    let updates = EnvUpdates {
        path: Some(String::from("/opt/homebrew/bin:/usr/bin")),
        tool_home: None,
    };
    let merged = apply_updates(&prev, &updates);
    assert_eq!(merged.path.as_deref(), Some("/opt/homebrew/bin:/usr/bin"));
    assert_eq!(merged.tool_home.as_deref(), Some("/old/jdk"));
}

#[test]
fn resolution_from_empty_path_output_is_a_no_op() {
    let prev = ResolvedEnvironment {
        path: Some(String::from("/usr/bin")),
        tool_home: None,
    };
    let merged = resolve_environment(&prev, &Some(String::from("__PATH__\n")));
    assert_eq!(merged.path.as_deref(), Some("/usr/bin"));
}

#[test]
fn failed_shell_capture_keeps_prior_environment() {
    let prev = ResolvedEnvironment {
        path: Some(String::from("/usr/bin")),
        tool_home: Some(String::from("/opt/jdk")),
    };
    let merged = resolve_environment(&prev, &None);
    assert_eq!(merged.path.as_deref(), Some("/usr/bin"));
    assert_eq!(merged.tool_home.as_deref(), Some("/opt/jdk"));
}

#[test]
fn resolution_applies_captured_values() {
    let prev = ResolvedEnvironment {
        path: Some(String::from("/usr/bin")),
        tool_home: None,
    };
    let out = "__PATH__/opt/kotlin/bin:/usr/bin\n__JAVA__/opt/jdk\n";
    let merged = resolve_environment(&prev, &Some(String::from(out)));
    assert_eq!(merged.path.as_deref(), Some("/opt/kotlin/bin:/usr/bin"));
    assert_eq!(merged.tool_home.as_deref(), Some("/opt/jdk"));
}
