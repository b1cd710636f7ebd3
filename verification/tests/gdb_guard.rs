use hartlab_protocol::{gdb_command_denied, gdb_payload_allowed};

#[test]
fn allows_teaching_commands() {
    for line in [
        "info threads",
        "thread 2",
        "break rust_main",
        "continue",
        "c",
        "step",
        "-exec-continue",
        "-thread-info",
        "-break-insert rust_main",
    ] {
        assert_eq!(gdb_command_denied(line), None, "{line}");
    }
}

#[test]
fn unwraps_interpreter_exec_shell() {
    assert_eq!(
        gdb_command_denied(r#"-interpreter-exec console "shell ls""#),
        Some("shell")
    );
    assert_eq!(
        gdb_command_denied(r#"interpreter-exec console "python import os""#),
        Some("python")
    );
    assert_eq!(gdb_command_denied("py print(1)"), Some("py"));
    assert_eq!(gdb_command_denied("so /tmp/x"), Some("so"));
}

#[test]
fn denies_dangerous_mi() {
    assert_eq!(gdb_command_denied("-exec-run"), Some("exec-run"));
    assert_eq!(
        gdb_command_denied("-file-exec-and-symbols /tmp/x"),
        Some("file-exec-and-symbols")
    );
    assert_eq!(gdb_command_denied("monitor start"), Some("monitor"));
    assert_eq!(gdb_command_denied("unknown-command"), Some("console-default-deny"));
}

// Further cases.

#[test]
fn empty_and_blank_lines() {
    assert_eq!(gdb_command_denied(""), Some("empty"));
    assert_eq!(gdb_command_denied(" \t\u{a0}\u{3000} "), Some("empty"));
    assert_eq!(gdb_command_denied(r#"-interpreter-exec console """#), Some("empty"));
    assert_eq!(gdb_command_denied("---"), Some("mi-default-deny"));
    assert_eq!(gdb_command_denied("- -"), Some("mi-default-deny"));
}

#[test]
fn payload_allowed_matches_denied() {
    for line in ["info", "shell ls", "-exec-run", "", "-gdb-version", "set var x = 1"] {
        assert_eq!(gdb_payload_allowed(line), gdb_command_denied(line).is_none(), "{line}");
    }
    assert!(gdb_payload_allowed("bt"));
    assert!(!gdb_payload_allowed("quit"));
}

#[test]
fn case_and_dashes_are_folded() {
    assert_eq!(gdb_command_denied("SHELL ls"), Some("shell"));
    assert_eq!(gdb_command_denied("-EXEC-Continue"), None);
    assert_eq!(gdb_command_denied("--exec-run"), Some("exec-run"));
    assert_eq!(gdb_command_denied("  Info registers  "), None);
}

#[test]
fn mi_deny_covers_suffixes() {
    assert_eq!(gdb_command_denied("-target-select remote :3333"), Some("target-select"));
    assert_eq!(gdb_command_denied("-exec-run-start"), Some("exec-run"));
    assert_eq!(gdb_command_denied("-exec-running"), Some("mi-default-deny"));
    assert_eq!(gdb_command_denied("-"), Some("mi-default-deny"));
    assert_eq!(gdb_command_denied("-symbol-info-functions"), Some("mi-default-deny"));
}

#[test]
fn multi_word_console_denies() {
    assert_eq!(gdb_command_denied("set logging on"), Some("set logging"));
    // the multi-word rule looks at single spaces only
    assert_eq!(gdb_command_denied("SET   startup-with-shell off"), None);
    assert_eq!(gdb_command_denied("set startup-with-shell off"), Some("set startup-with-shell"));
    assert_eq!(gdb_command_denied("set var x = 3"), None);
}

#[test]
fn interpreter_exec_variants() {
    assert_eq!(gdb_command_denied(r#"-interpreter-exec --console "run""#), Some("run"));
    assert_eq!(gdb_command_denied(r#"-Interpreter-Exec CONSOLE 'kill'"#), Some("kill"));
    assert_eq!(gdb_command_denied(r#"-interpreter-exec console "info threads""#), None);
    assert_eq!(gdb_command_denied("-interpreter-exec console bt"), None);
    // an unknown interpreter is left as MI and refused by the leftover rule
    assert_eq!(gdb_command_denied("-interpreter-exec mi \"-exec-run\""), Some("interpreter-exec"));
    // escapes inside the quotes are undone before the command is judged
    assert_eq!(
        gdb_command_denied(r#"-interpreter-exec console "print \"hi\"""#),
        None
    );
    // a token prefix hides nothing
    assert_eq!(gdb_command_denied(r#"7interpreter-exec console "run""#), Some("run"));
    assert_eq!(gdb_command_denied(r#"12-interpreter-exec console "shell id""#), Some("shell"));
}

#[test]
fn non_ascii_input() {
    assert_eq!(gdb_command_denied("ïnfo"), Some("console-default-deny"));
    assert_eq!(gdb_command_denied("info\u{2003}threads"), None);
}

#[test]
fn wrapping_changes_nothing() {
    for cmd in [
        "info threads",
        "shell ls",
        "python import os",
        "set logging on",
        "frobnicate",
        "bt",
        "x/4x $sp",
        "monitor reset halt",
    ] {
        let wrapped = format!("-interpreter-exec console \"{cmd}\"");
        assert_eq!(gdb_command_denied(&wrapped), gdb_command_denied(cmd), "{cmd}");
    }
}

#[test]
fn default_deny_lets_only_listed_verbs_through() {
    for line in ["frobnicate", "-frobnicate", "-interpreter-exec console \"frobnicate\"", "x/s $pc", "x $pc"] {
        let allowed = gdb_payload_allowed(line);
        // `x/s` is one word, and not on the list
        assert_eq!(allowed, line == "x $pc", "{line}");
    }
}

#[test]
fn wrapped_command_later_on_the_line_is_judged_too() {
    // the line's own verb is refused
    assert_eq!(gdb_command_denied("shell ls interpreter-exec console info"), Some("shell"));
    assert_eq!(gdb_command_denied("-exec-run interpreter-exec console info"), Some("exec-run"));
    assert_eq!(
        gdb_command_denied("frobnicate interpreter-exec console info"),
        Some("console-default-deny")
    );
    // the wrapped command is refused
    assert_eq!(gdb_command_denied("b interpreter-exec console run"), Some("run"));
    assert_eq!(gdb_command_denied("info -interpreter-exec console \"shell ls\""), Some("shell"));
    assert_eq!(gdb_command_denied("print interpreter-exec console run"), Some("run"));
    // both allowed
    assert_eq!(gdb_command_denied("-exec-continue interpreter-exec console \"info\""), None);
    // a later key that wraps no console command leaves the line as it is
    assert_eq!(gdb_command_denied("print interpreter-exec mi x"), None);
}

#[test]
fn console_deny_verb_wins_whatever_follows() {
    assert_eq!(gdb_command_denied("Shell ls"), Some("shell"));
    assert_eq!(gdb_command_denied("sh -c id"), Some("sh"));
    assert_eq!(gdb_command_denied("pipe bt | sh"), Some("pipe"));
    assert_eq!(gdb_command_denied("  python interpreter-exec console \"info\""), Some("python"));
}

#[test]
fn verdict_ignores_padding_and_case() {
    for line in [
        "info threads",
        "Shell ls",
        "-EXEC-RUN",
        "-interpreter-exec Console \"PYTHON x\"",
        "set LOGGING on",
        "frobnicate",
        "",
    ] {
        let v = gdb_command_denied(line);
        assert_eq!(gdb_command_denied(&format!("  \t{line}\u{a0} ")), v, "{line}");
        assert_eq!(gdb_command_denied(&line.to_ascii_lowercase()), v, "{line}");
        assert_eq!(gdb_command_denied(&line.to_ascii_uppercase()), v, "{line}");
    }
}

#[test]
fn wrapping_padded_and_empty_commands() {
    for cmd in ["", "   ", "  info threads ", "\tshell ls"] {
        let wrapped = format!("-interpreter-exec console \"{cmd}\"");
        assert_eq!(gdb_command_denied(&wrapped), gdb_command_denied(cmd), "{cmd:?}");
    }
}

#[test]
fn console_allow_iff() {
    assert_eq!(gdb_command_denied("set var x = 1"), None);
    assert_eq!(gdb_command_denied("set logging file /tmp/x"), Some("set logging"));
    assert_eq!(gdb_command_denied("detach"), Some("detach"));
}
