//! The detected operating system, shell and session context used in prompts
//! and when running commands.
//!
//! Probing the machine (environment variables, the parent process) is a
//! caller concern; the classification of what was probed is decided here, on
//! plain values.

use vstd::prelude::*;
use crate::text::{self, contains_sub, lower_spec};

verus! {

/// The operating system family the assistant runs on.
#[derive(Debug, Clone, Copy, PartialEq, Eq, Structural)]
pub enum OsType {
    Windows,
    Linux,
    MacOS,
}

/// The shell the suggested commands will run in.
#[derive(Debug, Clone, Copy, PartialEq, Eq, Structural)]
pub enum ShellType {
    Cmd,
    PowerShell,
    Bash,
    Zsh,
    Fish,
    Unknown,
}

/// The display name of an operating system.
pub open spec fn os_str_spec(os: OsType) -> Seq<char> {
    match os {
        OsType::Windows => "Windows"@,
        OsType::Linux => "Linux"@,
        OsType::MacOS => "macOS"@,
    }
}

/// The display name of a shell.
pub open spec fn shell_str_spec(sh: ShellType) -> Seq<char> {
    match sh {
        ShellType::Cmd => "cmd.exe"@,
        ShellType::PowerShell => "PowerShell"@,
        ShellType::Bash => "bash"@,
        ShellType::Zsh => "zsh"@,
        ShellType::Fish => "fish"@,
        ShellType::Unknown => "unknown"@,
    }
}

impl OsType {
    /// The display name of this operating system.
    pub fn as_str(&self) -> (r: &'static str)
        ensures
            r@ == os_str_spec(*self),
    {
        match self {
            OsType::Windows => "Windows",
            OsType::Linux => "Linux",
            OsType::MacOS => "macOS",
        }
    }
}

impl ShellType {
    /// The display name of this shell.
    pub fn as_str(&self) -> (r: &'static str)
        ensures
            r@ == shell_str_spec(*self),
    {
        match self {
            ShellType::Cmd => "cmd.exe",
            ShellType::PowerShell => "PowerShell",
            ShellType::Bash => "bash",
            ShellType::Zsh => "zsh",
            ShellType::Fish => "fish",
            ShellType::Unknown => "unknown",
        }
    }
}

/// The machine context gathered once per invocation.
#[derive(Debug, Clone)]
pub struct SystemInfo {
    pub os: OsType,
    pub shell: ShellType,
    pub current_dir: String,
    pub username: Option<String>,
    pub hostname: Option<String>,
}

/// An optional value, or `(unknown)` where there is none.
pub open spec fn or_unknown(v: Option<String>) -> Seq<char> {
    match v {
        Some(s) => s@,
        None => "(unknown)"@,
    }
}

/// The multi-line summary of a `SystemInfo`.
pub open spec fn display_spec(si: SystemInfo) -> Seq<char> {
    "OS: "@ + os_str_spec(si.os) + "\nShell: "@ + shell_str_spec(si.shell) + "\nCurrent Dir: "@
        + si.current_dir@ + "\nUsername: "@ + or_unknown(si.username) + "\nHostname: "@
        + or_unknown(si.hostname)
}

impl SystemInfo {
    /// A human-readable summary of the detected context.
    pub fn display(&self) -> (r: String)
        ensures
            r@ == display_spec(*self),
    {
        let mut s = String::from_str("OS: ");
        s.append(self.os.as_str());
        s.append("\nShell: ");
        s.append(self.shell.as_str());
        s.append("\nCurrent Dir: ");
        s.append(self.current_dir.as_str());
        s.append("\nUsername: ");
        match &self.username {
            Some(u) => s.append(u.as_str()),
            None => s.append("(unknown)"),
        }
        s.append("\nHostname: ");
        match &self.hostname {
            Some(h) => s.append(h.as_str()),
            None => s.append("(unknown)"),
        }
        proof {
            assert(s@ =~= display_spec(*self));
        }
        s
    }
}

/// The operating-system family for a target-OS name (as the compiler and the
/// standard library spell it); anything unrecognised counts as Linux.
pub open spec fn detect_os_spec(name: Seq<char>) -> OsType {
    if name == "windows"@ {
        OsType::Windows
    } else if name == "macos"@ {
        OsType::MacOS
    } else {
        OsType::Linux
    }
}

/// Classifies a target-OS name such as `linux`, `windows` or `macos`.
pub fn detect_os(os_name: &str) -> (r: OsType)
    ensures
        r == detect_os_spec(os_name@),
{
    if text::str_eq(os_name, "windows") {
        OsType::Windows
    } else if text::str_eq(os_name, "macos") {
        OsType::MacOS
    } else {
        OsType::Linux
    }
}

/// The shell named by a process name, lower-cased; `None` when the name
/// matches no known shell.
pub open spec fn shell_from_name(lower: Seq<char>) -> Option<ShellType> {
    if contains_sub(lower, "bash"@) {
        Some(ShellType::Bash)
    } else if contains_sub(lower, "zsh"@) {
        Some(ShellType::Zsh)
    } else if contains_sub(lower, "fish"@) {
        Some(ShellType::Fish)
    } else if contains_sub(lower, "powershell"@) || contains_sub(lower, "pwsh"@) {
        Some(ShellType::PowerShell)
    } else if contains_sub(lower, "cmd"@) {
        Some(ShellType::Cmd)
    } else {
        None
    }
}

/// The shell detection policy: the parent process name decides when it names
/// a shell; otherwise, on Windows, `COMSPEC` naming `cmd.exe` means `Cmd` and
/// a present `PSModulePath` means `PowerShell`; otherwise the `SHELL`
/// variable decides; otherwise the shell is unknown.
pub open spec fn detect_shell_spec(
    os: OsType,
    parent_name: Option<Seq<char>>,
    comspec: Option<Seq<char>>,
    has_psmodulepath: bool,
    shell_var: Option<Seq<char>>,
) -> ShellType {
    let from_parent = match parent_name {
        Some(name) => shell_from_name(lower_spec(name)),
        None => None,
    };
    match from_parent {
        Some(sh) => sh,
        None => {
            if os == OsType::Windows {
                if comspec matches Some(cs) && contains_sub(lower_spec(cs), "cmd.exe"@) {
                    ShellType::Cmd
                } else if has_psmodulepath {
                    ShellType::PowerShell
                } else {
                    ShellType::Unknown
                }
            } else {
                match shell_var {
                    Some(sv) => {
                        let lower = lower_spec(sv);
                        if contains_sub(lower, "bash"@) {
                            ShellType::Bash
                        } else if contains_sub(lower, "zsh"@) {
                            ShellType::Zsh
                        } else if contains_sub(lower, "fish"@) {
                            ShellType::Fish
                        } else {
                            ShellType::Unknown
                        }
                    },
                    None => ShellType::Unknown,
                }
            }
        },
    }
}

/// Classifies one lower-cased name against the known shells.
fn shell_from_name_exec(lower: &Vec<char>) -> (r: Option<ShellType>)
    ensures
        r == shell_from_name(lower@),
{
    let pat_bash = text::str_to_chars("bash");
    let pat_zsh = text::str_to_chars("zsh");
    let pat_fish = text::str_to_chars("fish");
    let pat_powershell = text::str_to_chars("powershell");
    let pat_pwsh = text::str_to_chars("pwsh");
    let pat_cmd = text::str_to_chars("cmd");
    if text::contains_sub_exec(lower, &pat_bash) {
        Some(ShellType::Bash)
    } else if text::contains_sub_exec(lower, &pat_zsh) {
        Some(ShellType::Zsh)
    } else if text::contains_sub_exec(lower, &pat_fish) {
        Some(ShellType::Fish)
    } else if text::contains_sub_exec(lower, &pat_powershell) || text::contains_sub_exec(
        lower,
        &pat_pwsh,
    ) {
        Some(ShellType::PowerShell)
    } else if text::contains_sub_exec(lower, &pat_cmd) {
        Some(ShellType::Cmd)
    } else {
        None
    }
}

/// Detects the active shell from the probed context: the parent process name
/// first, then the platform's environment variables.
pub fn detect_shell(
    os: &OsType,
    parent_name: Option<&str>,
    comspec: Option<&str>,
    has_psmodulepath: bool,
    shell_var: Option<&str>,
) -> (r: ShellType)
    ensures
        r == detect_shell_spec(
            *os,
            (match parent_name {
                Some(p) => Some(p@),
                None => None,
            }),
            (match comspec {
                Some(c) => Some(c@),
                None => None,
            }),
            has_psmodulepath,
            (match shell_var {
                Some(s) => Some(s@),
                None => None,
            }),
        ),
{
    if let Some(name) = parent_name {
        let chars = text::str_to_chars(name);
        let lower = text::lower_chars(&chars);
        if let Some(sh) = shell_from_name_exec(&lower) {
            return sh;
        }
    }
    if matches!(os, OsType::Windows) {
        if let Some(cs) = comspec {
            let chars = text::str_to_chars(cs);
            let lower = text::lower_chars(&chars);
            let pat = text::str_to_chars("cmd.exe");
            if text::contains_sub_exec(&lower, &pat) {
                return ShellType::Cmd;
            }
        }
        if has_psmodulepath {
            return ShellType::PowerShell;
        }
        ShellType::Unknown
    } else {
        if let Some(sv) = shell_var {
            let chars = text::str_to_chars(sv);
            let lower = text::lower_chars(&chars);
            let pat_bash = text::str_to_chars("bash");
            let pat_zsh = text::str_to_chars("zsh");
            let pat_fish = text::str_to_chars("fish");
            if text::contains_sub_exec(&lower, &pat_bash) {
                return ShellType::Bash;
            }
            if text::contains_sub_exec(&lower, &pat_zsh) {
                return ShellType::Zsh;
            }
            if text::contains_sub_exec(&lower, &pat_fish) {
                return ShellType::Fish;
            }
        }
        ShellType::Unknown
    }
}

} // verus!
