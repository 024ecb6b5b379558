//! Planning and interpreting shell command execution.
//!
//! Spawning the child process, waiting and the timeout clock are a caller
//! concern; this module decides the invocation (a fixed table over operating
//! system and shell), assembles the captured output, and renders it.

use vstd::prelude::*;
use crate::error::DoumError;
use crate::system_info::{OsType, ShellType};
use crate::text;

verus! {

/// The captured result of one command execution.
#[derive(Debug)]
pub struct CommandOutput {
    pub success: bool,
    pub exit_code: i32,
    pub stdout: Vec<u8>,
    pub stderr: Vec<u8>,
}

/// Names what `String::from_utf8_lossy` decodes from the given bytes; the
/// result is a function of the bytes alone.
pub uninterp spec fn utf8_lossy_of(bytes: Seq<u8>) -> Seq<char>;

/// Relies on `String::from_utf8_lossy`: decodes bytes as UTF-8, replacing
/// invalid sequences; nothing comes from nothing.
#[verifier::external_body]
fn utf8_lossy(bytes: &Vec<u8>) -> (r: String)
    ensures
        r@ == utf8_lossy_of(bytes@),
        bytes@.len() == 0 ==> r@.len() == 0,
{
    String::from_utf8_lossy(bytes).to_string()
}

/// The rendered form of a command's output: the captured streams when
/// non-empty, and the exit code when the command failed.
pub open spec fn display_output_spec(o: CommandOutput) -> Seq<char> {
    let stdout_part = if o.stdout.len() > 0 {
        "=== stdout ===\n"@ + utf8_lossy_of(o.stdout@) + "\n"@
    } else {
        Seq::<char>::empty()
    };
    let stderr_part = if o.stderr.len() > 0 {
        "=== stderr ===\n"@ + utf8_lossy_of(o.stderr@) + "\n"@
    } else {
        Seq::<char>::empty()
    };
    let status_part = if !o.success {
        "=== status ===\nExit code: "@ + text::dec_int(o.exit_code as int) + "\n"@
    } else {
        Seq::<char>::empty()
    };
    stdout_part + stderr_part + status_part
}

impl CommandOutput {
    /// Builds the record for one finished (or signalled) child process:
    /// a missing exit code (killed by a signal) is reported as -1.
    pub fn from_status(success: bool, code: Option<i32>, stdout: Vec<u8>, stderr: Vec<u8>) -> (r:
        CommandOutput)
        ensures
            r.success == success,
            r.exit_code == (match code {
                Some(c) => c,
                None => -1i32,
            }),
            r.stdout@ == stdout@,
            r.stderr@ == stderr@,
    {
        let exit_code = match code {
            Some(c) => c,
            None => -1,
        };
        CommandOutput { success, exit_code, stdout, stderr }
    }

    /// The captured standard output, decoded as UTF-8 with replacement.
    pub fn stdout_string(&self) -> (r: String)
        ensures
            r@ == utf8_lossy_of(self.stdout@),
    {
        utf8_lossy(&self.stdout)
    }

    /// The captured standard error, decoded as UTF-8 with replacement.
    pub fn stderr_string(&self) -> (r: String)
        ensures
            r@ == utf8_lossy_of(self.stderr@),
    {
        utf8_lossy(&self.stderr)
    }

    /// The formatted display of this output.
    pub fn display(&self) -> (r: String)
        ensures
            r@ == display_output_spec(*self),
    {
        let ghost stdout_part = if self.stdout@.len() > 0 {
            "=== stdout ===\n"@ + utf8_lossy_of(self.stdout@) + "\n"@
        } else {
            Seq::<char>::empty()
        };
        let ghost stderr_part = if self.stderr@.len() > 0 {
            "=== stderr ===\n"@ + utf8_lossy_of(self.stderr@) + "\n"@
        } else {
            Seq::<char>::empty()
        };
        proof {
            reveal_strlit("\n");
        }
        let mut result = String::new();
        if self.stdout.len() > 0 {
            result.append("=== stdout ===\n");
            let s = self.stdout_string();
            result.append(s.as_str());
            text::push_char(&mut result, '\n');
        }
        proof {
            assert(result@ =~= stdout_part);
        }
        if self.stderr.len() > 0 {
            result.append("=== stderr ===\n");
            let s = self.stderr_string();
            result.append(s.as_str());
            text::push_char(&mut result, '\n');
        }
        proof {
            assert(result@ =~= stdout_part + stderr_part);
        }
        if !self.success {
            result.append("=== status ===\nExit code: ");
            let code = text::i32_to_dec(self.exit_code);
            result.append(code.as_str());
            text::push_char(&mut result, '\n');
            proof {
                assert(result@ =~= stdout_part + stderr_part + ("=== status ===\nExit code: "@
                    + text::dec_int(self.exit_code as int) + "\n"@));
            }
        } else {
            proof {
                assert(result@ =~= stdout_part + stderr_part + Seq::<char>::empty());
            }
        }
        proof {
            assert(result@ =~= display_output_spec(*self));
        }
        result
    }
}

/// A planned process invocation: the program and its arguments, in order.
#[derive(Debug, Clone)]
pub struct Invocation {
    pub program: String,
    pub args: Vec<String>,
}

/// The shell prelude put before a command on Windows PowerShell, forcing
/// UTF-8 output.
pub open spec fn powershell_command(command: Seq<char>) -> Seq<char> {
    "[Console]::OutputEncoding = [System.Text.Encoding]::UTF8; "@ + command
}

/// The shell prelude put before a command on Windows `cmd.exe`, switching
/// the code page to UTF-8.
pub open spec fn cmd_command(command: Seq<char>) -> Seq<char> {
    "chcp 65001 >nul && "@ + command
}

/// The shell binary used on Unix-like systems for each shell.
pub open spec fn unix_shell_path(shell: ShellType) -> Seq<char> {
    match shell {
        ShellType::Bash => "/bin/bash"@,
        ShellType::Zsh => "/bin/zsh"@,
        ShellType::Fish => "/usr/bin/fish"@,
        _ => "/bin/sh"@,
    }
}

/// Whether `inv` is the planned invocation for `command` under the given
/// operating system and shell, following the fixed table: on Windows,
/// PowerShell with its UTF-8 prelude and every other shell through
/// `cmd.exe` with its code-page prelude; elsewhere the native shell binary
/// (or `/bin/sh`) with `-c`.
pub open spec fn invocation_spec(
    os: OsType,
    shell: ShellType,
    command: Seq<char>,
    inv: Invocation,
) -> bool {
    match os {
        OsType::Windows => {
            match shell {
                ShellType::PowerShell => {
                    &&& inv.program@ == "powershell.exe"@
                    &&& inv.args@.len() == 3
                    &&& inv.args@[0]@ == "-NoProfile"@
                    &&& inv.args@[1]@ == "-Command"@
                    &&& inv.args@[2]@ == powershell_command(command)
                },
                _ => {
                    &&& inv.program@ == "cmd.exe"@
                    &&& inv.args@.len() == 2
                    &&& inv.args@[0]@ == "/C"@
                    &&& inv.args@[1]@ == cmd_command(command)
                },
            }
        },
        _ => {
            &&& inv.program@ == unix_shell_path(shell)
            &&& inv.args@.len() == 2
            &&& inv.args@[0]@ == "-c"@
            &&& inv.args@[1]@ == command
        },
    }
}

/// Plans the process invocation for a command: exactly the fixed table,
/// total over every operating system and shell.
pub fn build_invocation(command: &str, os: &OsType, shell: &ShellType) -> (r: Invocation)
    ensures
        invocation_spec(*os, *shell, command@, r),
{
    match os {
        OsType::Windows => {
            match shell {
                ShellType::PowerShell => {
                    let mut full = String::from_str(
                        "[Console]::OutputEncoding = [System.Text.Encoding]::UTF8; ",
                    );
                    full.append(command);
                    let mut args: Vec<String> = Vec::new();
                    args.push(String::from_str("-NoProfile"));
                    args.push(String::from_str("-Command"));
                    args.push(full);
                    Invocation { program: String::from_str("powershell.exe"), args }
                },
                _ => {
                    let mut full = String::from_str("chcp 65001 >nul && ");
                    full.append(command);
                    let mut args: Vec<String> = Vec::new();
                    args.push(String::from_str("/C"));
                    args.push(full);
                    Invocation { program: String::from_str("cmd.exe"), args }
                },
            }
        },
        _ => {
            let program = match shell {
                ShellType::Bash => String::from_str("/bin/bash"),
                ShellType::Zsh => String::from_str("/bin/zsh"),
                ShellType::Fish => String::from_str("/usr/bin/fish"),
                _ => String::from_str("/bin/sh"),
            };
            let mut args: Vec<String> = Vec::new();
            args.push(String::from_str("-c"));
            args.push(String::from_str(command));
            Invocation { program, args }
        },
    }
}

/// The message of a timeout error: the time budget and whatever standard
/// output had been captured when the child was stopped.
pub open spec fn timeout_message_spec(timeout_ms: nat, partial_stdout: Seq<u8>) -> Seq<char> {
    "Command timed out after "@ + text::dec_digits(timeout_ms) + " ms. Partial output:\n"@
        + utf8_lossy_of(partial_stdout)
}

/// The error reported when a command exceeds its time budget, preserving the
/// partial standard output captured before termination.
pub fn timeout_error(timeout_ms: u64, partial_stdout: &Vec<u8>) -> (r: DoumError)
    ensures
        r matches DoumError::CommandExecution(m) && m@ == timeout_message_spec(
            timeout_ms as nat,
            partial_stdout@,
        ),
{
    let mut m = String::from_str("Command timed out after ");
    let ms = text::u64_to_dec(timeout_ms);
    m.append(ms.as_str());
    m.append(" ms. Partial output:\n");
    let out = utf8_lossy(partial_stdout);
    m.append(out.as_str());
    proof {
        assert(m@ =~= timeout_message_spec(timeout_ms as nat, partial_stdout@));
    }
    DoumError::CommandExecution(m)
}

/// What to do with a suggested command the user has selected.
#[derive(Debug, Clone, Copy, PartialEq, Eq, Structural)]
pub enum CommandAction {
    Copy,
    Execute,
    Cancel,
}

} // verus!
