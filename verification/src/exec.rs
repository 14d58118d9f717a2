//! Command lines of sandboxed tools and the reading of how a child ended.

use crate::store::ToolKind;
use crate::text::signed_decimal_digits;
use crate::text::signed_decimal_text;
use crate::text::utf8_lossy;
use crate::text::utf8_lossy_text;
use vstd::prelude::*;
use vstd::string::StringExecFns;

verus! {

/// The sandbox wrapper of the restricted platform.
pub const SANDBOX_EXEC: &'static str = "/usr/bin/sandbox-exec";

/// The directory every tool runs in: empty and not writable.
pub const WORKING_DIR: &'static str = "/var/empty";

/// The profile of the first formatter: nothing is allowed but to start the
/// formatter's own binary and to read files, and no file below the home
/// directories is read.
pub const FOURMOLU_PROFILE: &'static str = r#"
(version 1)
(deny default)
(allow process-exec*
  (regex #"^/nix/store/[a-z0-9]+-fourmolu-[^/]+/bin/fourmolu$"))
(allow file-read*)
(deny file-read*
  (subpath "/Users"))
"#;

/// The profile of the second formatter: nothing is allowed but to start the
/// formatter's own binary and to read files, and no file below the home
/// directories is read.
pub const NIXFMT_PROFILE: &'static str = r#"
(version 1)
(deny default)
(allow process-exec*
  (regex #"^/nix/store/[a-z0-9]+-nixfmt-[^/]+/bin/nixfmt$"))
(allow file-read*)
(deny file-read*
  (subpath "/Users"))
"#;

/// The profile of the linter: everything is allowed but to read files
/// below the home directories.
pub const HLINT_PROFILE: &'static str = r#"
(version 1)
(allow default)
(deny file-read*
  (subpath "/Users"))
"#;

/// A program and the arguments it is started with.
pub struct Invocation {
    pub program: String,
    pub args: Vec<String>,
}

/// A command line, as text.
pub struct CommandLine {
    pub program: Seq<char>,
    pub args: Seq<Seq<char>>,
}

impl View for Invocation {
    type V = CommandLine;

    open spec fn view(&self) -> CommandLine {
        CommandLine { program: self.program@, args: self.args.deep_view() }
    }
}

/// The command line that runs `program` with `args` under `profile`.
///
/// On the restricted platform the sandbox wrapper is the program, and it is
/// told the profile, then, behind `--`, the tool and its arguments. Elsewhere
/// the profile is intent only and the tool is started directly.
pub open spec fn sandboxed(
    restricted: bool,
    profile: Seq<char>,
    program: Seq<char>,
    args: Seq<Seq<char>>,
) -> CommandLine {
    if restricted {
        CommandLine { program: SANDBOX_EXEC@, args: seq!["-p"@, profile, "--"@, program] + args }
    } else {
        CommandLine { program, args }
    }
}

/// The command line that runs `program` with `args` under `profile`, on the
/// restricted platform or elsewhere.
pub fn sandbox_exec(restricted: bool, profile: &str, program: &str, args: Vec<String>) -> (inv:
    Invocation)
    ensures
        inv@ == sandboxed(restricted, profile@, program@, args.deep_view()),
{
    if restricted {
        let mut args = args;
        let ghost tail = args.deep_view();
        let mut all: Vec<String> = Vec::new();
        all.push(String::from_str("-p"));
        all.push(String::from_str(profile));
        all.push(String::from_str("--"));
        all.push(String::from_str(program));
        all.append(&mut args);
        assert(all.deep_view() =~= seq!["-p"@, profile@, "--"@, program@] + tail);
        Invocation { program: String::from_str(SANDBOX_EXEC), args: all }
    } else {
        Invocation { program: String::from_str(program), args }
    }
}

/// The flag that asks a tool for its version.
pub const VERSION_FLAG: &'static str = "--version";

/// The name under which a failure of an unnamed child is reported.
pub const CHILD: &'static str = "Child process";

impl ToolKind {
    /// The name of the tool's binary.
    pub open spec fn spec_binary(self) -> Seq<char> {
        match self {
            ToolKind::Fourmolu => "fourmolu"@,
            ToolKind::Nixfmt => "nixfmt"@,
            ToolKind::Hlint => "hlint"@,
        }
    }

    /// The name of the tool's binary.
    pub fn binary(self) -> (name: &'static str)
        ensures
            name@ == self.spec_binary(),
    {
        match self {
            ToolKind::Fourmolu => "fourmolu",
            ToolKind::Nixfmt => "nixfmt",
            ToolKind::Hlint => "hlint",
        }
    }

    /// The name under which a failure of the tool is reported.
    pub open spec fn spec_subject(self) -> Seq<char> {
        match self {
            ToolKind::Fourmolu => "`fourmolu`"@,
            ToolKind::Nixfmt => "`nixfmt`"@,
            ToolKind::Hlint => "`hlint`"@,
        }
    }

    /// The name under which a failure of the tool is reported.
    pub fn subject(self) -> (name: &'static str)
        ensures
            name@ == self.spec_subject(),
    {
        match self {
            ToolKind::Fourmolu => "`fourmolu`",
            ToolKind::Nixfmt => "`nixfmt`",
            ToolKind::Hlint => "`hlint`",
        }
    }

    /// The sandbox profile of the tool.
    pub open spec fn spec_profile(self) -> Seq<char> {
        match self {
            ToolKind::Fourmolu => FOURMOLU_PROFILE@,
            ToolKind::Nixfmt => NIXFMT_PROFILE@,
            ToolKind::Hlint => HLINT_PROFILE@,
        }
    }

    /// The sandbox profile of the tool.
    pub fn profile(self) -> (profile: &'static str)
        ensures
            profile@ == self.spec_profile(),
    {
        match self {
            ToolKind::Fourmolu => FOURMOLU_PROFILE,
            ToolKind::Nixfmt => NIXFMT_PROFILE,
            ToolKind::Hlint => HLINT_PROFILE,
        }
    }

    /// The command line that asks the tool for its version, under the tool's
    /// profile.
    pub fn version_command(self, restricted: bool, program: &str) -> (inv: Invocation)
        ensures
            inv@ == sandboxed(restricted, self.spec_profile(), program@, seq![VERSION_FLAG@]),
    {
        let mut args: Vec<String> = Vec::new();
        args.push(String::from_str(VERSION_FLAG));
        assert(args.deep_view() =~= seq![VERSION_FLAG@]);
        sandbox_exec(restricted, self.profile(), program, args)
    }
}

/// How a child process ended: its exit code if it exited, the signal that
/// ended it otherwise, neither if the platform could not tell.
pub struct ChildStatus {
    pub code: Option<i32>,
    pub signal: Option<i32>,
}

impl ChildStatus {
    /// A child succeeded when it exited with code zero.
    pub open spec fn spec_success(&self) -> bool {
        self.code == Some(0i32)
    }

    /// Whether the child exited with code zero.
    #[verifier::when_used_as_spec(spec_success)]
    pub fn success(&self) -> (ok: bool)
        ensures
            ok == self.spec_success(),
    {
        match self.code {
            Some(code) => code == 0,
            None => false,
        }
    }
}

/// Everything a finished child left behind.
pub struct ChildOutput {
    pub status: ChildStatus,
    pub stdout: Vec<u8>,
    pub stderr: Vec<u8>,
}

/// Why a child's output cannot be used.
pub enum ExecError {
    /// It exited with a code other than zero; `stderr` is what it wrote to
    /// its error stream.
    Exited { code: i32, stderr: String },
    /// A signal ended it.
    Signaled { signal: i32 },
    /// It ended in a way the platform does not report.
    Unknown,
}

/// The failure that a status and an error stream stand for.
pub open spec fn failure_of(status: ChildStatus, stderr: Seq<u8>, err: ExecError) -> bool {
    match status.code {
        Some(code) => err matches ExecError::Exited { code: c, stderr: text } && c == code && text@
            == utf8_lossy(stderr),
        None => match status.signal {
            Some(signal) => err == (ExecError::Signaled { signal }),
            None => err == ExecError::Unknown,
        },
    }
}

/// Reads a finished child: its output if it succeeded, else the failure that
/// its status stands for.
pub fn exec(output: ChildOutput) -> (result: Result<Vec<u8>, ExecError>)
    ensures
        output.status.success() <==> result is Ok,
        result matches Ok(stdout) ==> stdout == output.stdout,
        result matches Err(err) ==> failure_of(output.status, output.stderr@, err),
{
    if output.status.success() {
        return Ok(output.stdout);
    }
    match output.status.code {
        Some(code) => Err(
            ExecError::Exited { code, stderr: utf8_lossy_text(output.stderr.as_slice()) },
        ),
        None => match output.status.signal {
            Some(signal) => Err(ExecError::Signaled { signal }),
            None => Err(ExecError::Unknown),
        },
    }
}

impl ExecError {
    /// The report of a failure of `subject`.
    pub open spec fn spec_message(&self, subject: Seq<char>) -> Seq<char> {
        match self {
            ExecError::Exited { code, stderr } => subject + " exited with code "@
                + signed_decimal_digits(*code as int) + ":\n"@ + stderr@,
            ExecError::Signaled { signal } => subject + " was terminated by signal "@
                + signed_decimal_digits(*signal as int),
            ExecError::Unknown => subject + " died of unknown causes"@,
        }
    }

    /// The report of a failure of `subject`, which names the child.
    pub fn message(&self, subject: &str) -> (text: String)
        ensures
            text@ == self.spec_message(subject@),
    {
        let mut text = String::from_str(subject);
        match self {
            ExecError::Exited { code, stderr } => {
                text.append(" exited with code ");
                text.append(signed_decimal_text(*code).as_str());
                text.append(":\n");
                text.append(stderr.as_str());
            },
            ExecError::Signaled { signal } => {
                text.append(" was terminated by signal ");
                text.append(signed_decimal_text(*signal).as_str());
            },
            ExecError::Unknown => {
                text.append(" died of unknown causes");
            },
        }
        text
    }
}

} // verus!
