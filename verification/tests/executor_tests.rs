use doum_cli::error::DoumError;
use doum_cli::executor::{
    build_invocation, timeout_error, CommandAction, CommandOutput,
};
use doum_cli::system_info::{OsType, ShellType};

#[test]
fn test_invocation_linux_bash() {
    // The fixed table: Linux with Bash runs the native shell with -c.
    let inv = build_invocation("echo hi", &OsType::Linux, &ShellType::Bash);
    assert_eq!(inv.program, "/bin/bash");
    assert_eq!(inv.args, vec!["-c".to_string(), "echo hi".to_string()]);
}

#[test]
fn test_invocation_macos_zsh_and_fish() {
    let inv = build_invocation("pwd", &OsType::MacOS, &ShellType::Zsh);
    assert_eq!(inv.program, "/bin/zsh");
    let inv = build_invocation("pwd", &OsType::Linux, &ShellType::Fish);
    assert_eq!(inv.program, "/usr/bin/fish");
}

#[test]
fn test_invocation_unknown_unix_shell_uses_sh() {
    let inv = build_invocation("pwd", &OsType::Linux, &ShellType::Unknown);
    assert_eq!(inv.program, "/bin/sh");
    assert_eq!(inv.args[0], "-c");
}

#[test]
fn test_invocation_windows_powershell_prelude() {
    let inv = build_invocation("dir", &OsType::Windows, &ShellType::PowerShell);
    assert_eq!(inv.program, "powershell.exe");
    assert_eq!(inv.args[0], "-NoProfile");
    assert_eq!(inv.args[1], "-Command");
    assert_eq!(
        inv.args[2],
        "[Console]::OutputEncoding = [System.Text.Encoding]::UTF8; dir"
    );
}

#[test]
fn test_invocation_windows_cmd_prelude() {
    let inv = build_invocation("dir", &OsType::Windows, &ShellType::Cmd);
    assert_eq!(inv.program, "cmd.exe");
    assert_eq!(inv.args, vec!["/C".to_string(), "chcp 65001 >nul && dir".to_string()]);
}

#[test]
fn test_invocation_windows_other_shells_route_to_cmd() {
    // Windows with any shell other than PowerShell joins the cmd.exe row.
    for shell in [ShellType::Bash, ShellType::Zsh, ShellType::Fish, ShellType::Unknown] {
        let inv = build_invocation("dir", &OsType::Windows, &shell);
        assert_eq!(inv.program, "cmd.exe");
        assert_eq!(inv.args, vec!["/C".to_string(), "chcp 65001 >nul && dir".to_string()]);
    }
}

#[test]
fn test_output_success_with_exit_zero() {
    // The shape the executor reports for `echo hi` on Linux with Bash.
    let out = CommandOutput::from_status(true, Some(0), b"hi\n".to_vec(), Vec::new());
    assert!(out.success);
    assert_eq!(out.exit_code, 0);
    assert_eq!(out.stdout_string(), "hi\n");
}

#[test]
fn test_output_signal_reports_minus_one() {
    let out = CommandOutput::from_status(false, None, Vec::new(), Vec::new());
    assert_eq!(out.exit_code, -1);
}

#[test]
fn test_output_display_of_failure() {
    let out = CommandOutput::from_status(false, Some(2), b"partial\n".to_vec(), b"oops\n".to_vec());
    assert_eq!(
        out.display(),
        "=== stdout ===\npartial\n\n=== stderr ===\noops\n\n=== status ===\nExit code: 2\n"
    );
}

#[test]
fn test_output_display_of_success_is_streams_only() {
    let out = CommandOutput::from_status(true, Some(0), b"done\n".to_vec(), Vec::new());
    assert_eq!(out.display(), "=== stdout ===\ndone\n\n");
}

#[test]
fn test_lossy_decoding_replaces_invalid_bytes() {
    let out = CommandOutput::from_status(true, Some(0), vec![0xff, b'a'], Vec::new());
    assert_eq!(out.stdout_string(), "\u{FFFD}a");
}

#[test]
fn test_timeout_error_preserves_partial_stdout() {
    // A timeout carries whatever standard output had been captured.
    let err = timeout_error(1500, &b"partial output".to_vec());
    match err {
        DoumError::CommandExecution(m) => {
            assert_eq!(m, "Command timed out after 1500 ms. Partial output:\npartial output")
        },
        _ => panic!("expected a command execution error"),
    }
}

#[test]
fn test_command_actions_are_distinct() {
    assert_ne!(CommandAction::Copy, CommandAction::Execute);
    assert_ne!(CommandAction::Execute, CommandAction::Cancel);
}
