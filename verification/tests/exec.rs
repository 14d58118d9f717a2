use be::exec::exec;
use be::exec::sandbox_exec;
use be::exec::ChildOutput;
use be::exec::ChildStatus;
use be::exec::ExecError;
use be::exec::FOURMOLU_PROFILE;
use be::exec::HLINT_PROFILE;
use be::exec::NIXFMT_PROFILE;
use be::exec::SANDBOX_EXEC;
use be::exec::WORKING_DIR;
use be::store::ToolKind;

fn output(code: Option<i32>, signal: Option<i32>, stdout: &[u8], stderr: &[u8]) -> ChildOutput {
    ChildOutput {
        status: ChildStatus { code, signal },
        stdout: stdout.to_vec(),
        stderr: stderr.to_vec(),
    }
}

#[test]
fn sandbox_exec_wraps_the_command_on_the_restricted_platform() {
    let args = vec![String::from("--version")];
    let inv = sandbox_exec(true, "(version 1)", "/nix/store/x/bin/fourmolu", args);
    assert_eq!(inv.program, "/usr/bin/sandbox-exec");
    assert_eq!(
        inv.args,
        vec!["-p", "(version 1)", "--", "/nix/store/x/bin/fourmolu", "--version"]
    );
}

#[test]
fn sandbox_exec_starts_the_tool_directly_elsewhere() {
    let args = vec![String::from("--version")];
    let inv = sandbox_exec(false, "(version 1)", "/usr/bin/hlint", args);
    assert_eq!(inv.program, "/usr/bin/hlint");
    assert_eq!(inv.args, vec!["--version"]);
}

#[test]
fn sandbox_constants() {
    assert_eq!(SANDBOX_EXEC, "/usr/bin/sandbox-exec");
    assert_eq!(WORKING_DIR, "/var/empty");
    assert!(FOURMOLU_PROFILE.starts_with("\n(version 1)\n(deny default)\n"));
    assert!(FOURMOLU_PROFILE.contains("(regex #\"^/nix/store/[a-z0-9]+-fourmolu-[^/]+/bin/fourmolu$\")"));
    assert!(NIXFMT_PROFILE.contains("(regex #\"^/nix/store/[a-z0-9]+-nixfmt-[^/]+/bin/nixfmt$\")"));
    assert_eq!(HLINT_PROFILE, "\n(version 1)\n(allow default)\n(deny file-read*\n  (subpath \"/Users\"))\n");
    for profile in [FOURMOLU_PROFILE, NIXFMT_PROFILE, HLINT_PROFILE] {
        assert!(profile.contains("(deny file-read*\n  (subpath \"/Users\"))"));
    }
}

#[test]
fn child_status_succeeds_on_exit_code_zero_only() {
    assert!(ChildStatus { code: Some(0), signal: None }.success());
    assert!(!ChildStatus { code: Some(1), signal: None }.success());
    assert!(!ChildStatus { code: None, signal: Some(9) }.success());
    assert!(!ChildStatus { code: None, signal: None }.success());
}

#[test]
fn exec_gives_the_output_of_a_child_that_succeeded() {
    let result = exec(output(Some(0), None, b"formatted", b"warning"));
    assert!(matches!(result, Ok(ref bytes) if bytes == b"formatted"));
}

#[test]
fn exec_reports_the_exit_code_and_the_error_stream() {
    let result = exec(output(Some(2), None, b"partial", b"parse error\n"));
    match result {
        Err(ExecError::Exited { code, stderr }) => {
            assert_eq!(code, 2);
            assert_eq!(stderr, "parse error\n");
        }
        _ => panic!("expected an exit failure"),
    }
}

#[test]
fn exec_replaces_invalid_bytes_of_the_error_stream() {
    let result = exec(output(Some(1), None, b"", &[b'a', 0xff, b'b']));
    match result {
        Err(ExecError::Exited { code, stderr }) => {
            assert_eq!(code, 1);
            assert_eq!(stderr, "a\u{fffd}b");
        }
        _ => panic!("expected an exit failure"),
    }
}

#[test]
fn exec_reports_the_signal() {
    let result = exec(output(None, Some(9), b"", b""));
    assert!(matches!(result, Err(ExecError::Signaled { signal: 9 })));
}

#[test]
fn exec_reports_an_unknown_end() {
    let result = exec(output(None, None, b"out", b"err"));
    assert!(matches!(result, Err(ExecError::Unknown)));
}

#[test]
fn exec_error_messages() {
    let exited = ExecError::Exited { code: 3, stderr: String::from("boom") };
    assert_eq!(exited.message("Child process"), "Child process exited with code 3:\nboom");
    assert_eq!(exited.message("`fourmolu`"), "`fourmolu` exited with code 3:\nboom");
    let negative = ExecError::Exited { code: -1, stderr: String::new() };
    assert_eq!(negative.message("`hlint`"), "`hlint` exited with code -1:\n");
    let signaled = ExecError::Signaled { signal: 15 };
    assert_eq!(signaled.message("`nixfmt`"), "`nixfmt` was terminated by signal 15");
    assert_eq!(ExecError::Unknown.message("Child process"), "Child process died of unknown causes");
}

#[test]
fn tools_have_a_binary_a_subject_and_a_profile() {
    assert_eq!(ToolKind::Fourmolu.binary(), "fourmolu");
    assert_eq!(ToolKind::Nixfmt.binary(), "nixfmt");
    assert_eq!(ToolKind::Hlint.binary(), "hlint");
    assert_eq!(ToolKind::Fourmolu.subject(), "`fourmolu`");
    assert_eq!(ToolKind::Nixfmt.subject(), "`nixfmt`");
    assert_eq!(ToolKind::Hlint.subject(), "`hlint`");
    assert_eq!(ToolKind::Fourmolu.profile(), FOURMOLU_PROFILE);
    assert_eq!(ToolKind::Nixfmt.profile(), NIXFMT_PROFILE);
    assert_eq!(ToolKind::Hlint.profile(), HLINT_PROFILE);
}

#[test]
fn a_tool_is_asked_for_its_version_under_its_profile() {
    let inv = ToolKind::Nixfmt.version_command(false, "/bin/nixfmt");
    assert_eq!(inv.program, "/bin/nixfmt");
    assert_eq!(inv.args, vec!["--version"]);
    let inv = ToolKind::Hlint.version_command(true, "/bin/hlint");
    assert_eq!(inv.program, "/usr/bin/sandbox-exec");
    assert_eq!(inv.args, vec!["-p", HLINT_PROFILE, "--", "/bin/hlint", "--version"]);
    assert_eq!(be::exec::VERSION_FLAG, "--version");
    assert_eq!(be::exec::CHILD, "Child process");
}
