//! The shell runner: how one sandboxed shell is started with `systemd-run`.

use crate::error::{AceError, AceErrorView};
use crate::mode::Mode;
use crate::options::{Options, OptionsView};
use crate::text::{decimal, decimal_string, push_joined, push_str, strings_view};
use vstd::prelude::*;
use vstd::string::StringExecFns;

verus! {

/// One process to start: the program, its arguments, and what is written to
/// its standard input before that is closed.
#[derive(Debug)]
pub struct Invocation {
    pub program: String,
    pub args: Vec<String>,
    pub stdin: String,
}

/// What an `Invocation` holds, as mathematical values.
pub struct InvocationView {
    pub program: Seq<char>,
    pub args: Seq<Seq<char>>,
    pub stdin: Seq<char>,
}

impl View for Invocation {
    type V = InvocationView;

    open spec fn view(&self) -> InvocationView {
        InvocationView {
            program: self.program@,
            args: strings_view(self.args@),
            stdin: self.stdin@,
        }
    }
}

/// The arguments that every sandboxed shell gets: the sandbox to run in, a
/// transient unit that is collected, quiet, waited for and piped, the time
/// within which it must start, and a hang-up for its session at the end.
pub open spec fn common_args(o: OptionsView) -> Seq<Seq<char>> {
    seq![
        "--machine="@ + o.machine,
        "--collect"@,
        "--quiet"@,
        "--wait"@,
        "--pipe"@,
        "--service-type=oneshot"@,
        "--property=TimeoutStartSec="@ + decimal(o.timeout),
        "--send-sighup"@,
    ]
}

/// The arguments that say as whom and where the shell runs: the
/// unprivileged user and group in their home directory inside the sandbox,
/// or root in `/root`.
pub open spec fn identity_args(o: OptionsView, mode: Mode) -> Seq<Seq<char>> {
    match mode {
        Mode::RootShell => seq!["--working-directory=/root"@],
        _ => seq![
            "--uid="@ + o.user_mode_user,
            "--gid="@ + o.user_mode_group,
            "--working-directory"@,
            o.user_guest_home,
        ],
    }
}

/// The arguments that end the command line: the login shell to run.
pub open spec fn shell_tail(o: OptionsView) -> Seq<Seq<char>> {
    seq!["--"@, o.shell, "--login"@]
}

/// All arguments of `systemd-run` for a shell in the given mode.
pub open spec fn shell_args_spec(o: OptionsView, mode: Mode) -> Seq<Seq<char>> {
    common_args(o) + identity_args(o, mode) + shell_tail(o)
}

/// The invocation that runs `text` in a sandboxed shell.
pub open spec fn shell_invocation_spec(o: OptionsView, mode: Mode, text: Seq<char>) -> InvocationView {
    InvocationView { program: "systemd-run"@, args: shell_args_spec(o, mode), stdin: text }
}

/// What the shell runner answers: the invocation for the two shell modes,
/// and a refusal for every mode that stages a file first.
pub open spec fn run_bash_spec(o: OptionsView, mode: Mode, text: Seq<char>) -> Result<
    InvocationView,
    AceErrorView,
> {
    if mode.is_file_based() {
        Err(AceErrorView::InvalidMode(mode))
    } else {
        Ok(shell_invocation_spec(o, mode, text))
    }
}

/// The view of what the shell runner answered.
pub open spec fn invocation_result_view(r: Result<Invocation, AceError>) -> Result<
    InvocationView,
    AceErrorView,
> {
    match r {
        Ok(i) => Ok(i@),
        Err(e) => Err(e@),
    }
}

/// The arguments of `systemd-run` for a shell in one of the two shell modes.
pub fn shell_args(options: &Options, mode: Mode) -> (r: Vec<String>)
    requires
        !mode.is_file_based(),
    ensures
        strings_view(r@) == shell_args_spec(options@, mode),
{
    let mut args: Vec<String> = Vec::new();
    assert(strings_view(args@) =~= Seq::empty());
    push_joined(&mut args, "--machine=", options.machine.as_str());
    push_str(&mut args, "--collect");
    push_str(&mut args, "--quiet");
    push_str(&mut args, "--wait");
    push_str(&mut args, "--pipe");
    push_str(&mut args, "--service-type=oneshot");
    let timeout = decimal_string(options.timeout as u64);
    push_joined(&mut args, "--property=TimeoutStartSec=", timeout.as_str());
    push_str(&mut args, "--send-sighup");
    assert(strings_view(args@) =~= common_args(options@));
    match mode {
        Mode::RootShell => {
            push_str(&mut args, "--working-directory=/root");
        },
        _ => {
            push_joined(&mut args, "--uid=", options.user_mode_user.as_str());
            push_joined(&mut args, "--gid=", options.user_mode_group.as_str());
            push_str(&mut args, "--working-directory");
            push_str(&mut args, options.user_guest_home.as_str());
        },
    }
    assert(strings_view(args@) =~= common_args(options@) + identity_args(options@, mode));
    push_str(&mut args, "--");
    push_str(&mut args, options.shell.as_str());
    push_str(&mut args, "--login");
    assert(strings_view(args@) =~= shell_args_spec(options@, mode));
    args
}

/// The invocation that runs `text` in a sandboxed shell, or `InvalidMode`
/// for a mode that is not a shell mode.
pub fn shell_invocation(options: &Options, mode: Mode, text: &str) -> (r: Result<
    Invocation,
    AceError,
>)
    ensures
        invocation_result_view(r) == run_bash_spec(options@, mode, text@),
{
    if mode.file_based() {
        return Err(AceError::InvalidMode(mode));
    }
    Ok(
        Invocation {
            program: String::from_str("systemd-run"),
            args: shell_args(options, mode),
            stdin: String::from_str(text),
        },
    )
}

} // verus!
