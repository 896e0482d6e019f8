//! The command lines that start, show or stop the daemon. Running them is the
//! caller's part; which programs are tried, in which order and with which
//! arguments is decided here.

use vstd::prelude::*;
use crate::mode::{mode_word, LaunchMode};
use crate::paths::Platform;
use crate::text::views_of;

verus! {

/// A program and its arguments.
#[derive(Debug)]
pub struct HostCommand {
    pub program: String,
    pub args: Vec<String>,
}

pub open spec fn command_view(c: HostCommand) -> (Seq<char>, Seq<Seq<char>>) {
    (c.program@, views_of(c.args@))
}

/// The daemon command line as one shell word sequence.
pub open spec fn daemon_line(binary: Seq<char>, mode: LaunchMode) -> Seq<char> {
    binary + " "@ + mode_word(mode)
}

/// A script for macOS's Terminal that brings it forward and runs `line`.
pub open spec fn terminal_script(line: Seq<char>) -> Seq<char> {
    "tell application \"Terminal\"\nactivate\ndo script \""@ + line + "\"\nend tell"@
}

/// The terminal hosts tried for an interactive launch, in order.
pub open spec fn interactive_hosts_spec(p: Platform, binary: Seq<char>, mode: LaunchMode) -> Seq<
    (Seq<char>, Seq<Seq<char>>),
> {
    let line = daemon_line(binary, mode);
    match p {
        Platform::Linux => seq![
            ("gnome-terminal"@, seq!["--"@, binary, mode_word(mode)]),
            ("konsole"@, seq!["-e"@, line]),
            ("xterm"@, seq!["-e"@, line]),
        ],
        Platform::MacOs => seq![("osascript"@, seq!["-e"@, terminal_script(line)])],
        Platform::Windows => seq![
            ("cmd"@, seq!["/c"@, "start"@, ""@, "cmd"@, "/k"@, binary, mode_word(mode)]),
        ],
    }
}

pub open spec fn kill_command_spec(p: Platform) -> (Seq<char>, Seq<Seq<char>>) {
    if p == Platform::Windows {
        ("taskkill"@, seq!["/F"@, "/IM"@, "noorsigner.exe"@])
    } else {
        ("pkill"@, seq!["-f"@, "noorsigner.*daemon"@])
    }
}

fn owned(s: &str) -> (r: String)
    ensures
        r@ == s@,
{
    String::from_str(s)
}

fn command(program: &str, args: Vec<String>) -> (r: HostCommand)
    ensures
        r.program@ == program@,
        r.args == args,
{
    HostCommand { program: owned(program), args }
}

/// The command line that runs the daemon binary in `mode`, for a detached
/// start.
pub fn detached_command(binary: &str, mode: LaunchMode) -> (r: HostCommand)
    ensures
        command_view(r) == (binary@, seq![mode_word(mode)]),
{
    let mut args: Vec<String> = Vec::new();
    args.push(owned(mode.subcommand()));
    let r = command(binary, args);
    assert(views_of(r.args@) =~= seq![mode_word(mode)]);
    r
}

fn daemon_line_text(binary: &str, mode: LaunchMode) -> (r: String)
    ensures
        r@ == daemon_line(binary@, mode),
{
    owned(binary).concat(" ").concat(mode.subcommand())
}

/// The terminal hosts to try, in order, for an interactive launch of the
/// daemon binary in `mode`.
pub fn interactive_hosts(platform: Platform, binary: &str, mode: LaunchMode) -> (r: Vec<HostCommand>)
    ensures
        r@.len() == interactive_hosts_spec(platform, binary@, mode).len(),
        forall|i: int| 0 <= i < r@.len() ==> command_view(#[trigger] r@[i])
            == interactive_hosts_spec(platform, binary@, mode)[i],
{
    let ghost spec_hosts = interactive_hosts_spec(platform, binary@, mode);
    let mut hosts: Vec<HostCommand> = Vec::new();
    match platform {
        Platform::Linux => {
            let mut a: Vec<String> = Vec::new();
            a.push(owned("--"));
            a.push(owned(binary));
            a.push(owned(mode.subcommand()));
            hosts.push(command("gnome-terminal", a));
            let mut b: Vec<String> = Vec::new();
            b.push(owned("-e"));
            b.push(daemon_line_text(binary, mode));
            hosts.push(command("konsole", b));
            let mut c: Vec<String> = Vec::new();
            c.push(owned("-e"));
            c.push(daemon_line_text(binary, mode));
            hosts.push(command("xterm", c));
            assert(views_of(hosts@[0].args@) =~= spec_hosts[0].1);
            assert(views_of(hosts@[1].args@) =~= spec_hosts[1].1);
            assert(views_of(hosts@[2].args@) =~= spec_hosts[2].1);
        },
        Platform::MacOs => {
            let script = owned("tell application \"Terminal\"\nactivate\ndo script \"")
                .concat(daemon_line_text(binary, mode).as_str())
                .concat("\"\nend tell");
            let mut a: Vec<String> = Vec::new();
            a.push(owned("-e"));
            a.push(script);
            hosts.push(command("osascript", a));
            assert(views_of(hosts@[0].args@) =~= spec_hosts[0].1);
        },
        Platform::Windows => {
            let mut a: Vec<String> = Vec::new();
            a.push(owned("/c"));
            a.push(owned("start"));
            a.push(owned(""));
            a.push(owned("cmd"));
            a.push(owned("/k"));
            a.push(owned(binary));
            a.push(owned(mode.subcommand()));
            hosts.push(command("cmd", a));
            assert(views_of(hosts@[0].args@) =~= spec_hosts[0].1);
        },
    }
    hosts
}

/// Whether a terminal host on `platform` is run to completion and judged by
/// its exit status (macOS's script host), rather than counted as started once
/// its process is spawned.
pub fn host_reports_by_exit_status(platform: Platform) -> (r: bool)
    ensures
        r == (platform == Platform::MacOs),
{
    matches!(platform, Platform::MacOs)
}

/// The command that stops any running daemon process by name.
pub fn kill_command(platform: Platform) -> (r: HostCommand)
    ensures
        command_view(r) == kill_command_spec(platform),
{
    let mut args: Vec<String> = Vec::new();
    if matches!(platform, Platform::Windows) {
        args.push(owned("/F"));
        args.push(owned("/IM"));
        args.push(owned("noorsigner.exe"));
        let r = command("taskkill", args);
        assert(views_of(r.args@) =~= kill_command_spec(platform).1);
        r
    } else {
        args.push(owned("-f"));
        args.push(owned("noorsigner.*daemon"));
        let r = command("pkill", args);
        assert(views_of(r.args@) =~= kill_command_spec(platform).1);
        r
    }
}

/// What running the kill command came to.
#[derive(PartialEq, Eq, Structural, Clone, Copy, Debug)]
pub enum KillOutcome {
    /// A daemon process was found and stopped.
    Killed,
    /// No daemon process was running.
    NoneFound,
    /// The kill command itself could not be run.
    CommandUnavailable,
}

/// Cancelling a launch is best-effort cleanup: whether a process was
/// stopped, none was found, or the kill command could not run, the daemon is
/// no obstacle any more as far as the caller can act on it, so the result is
/// success in every case.
pub fn cancel_key_signer_launch(outcome: KillOutcome) -> (r: Result<(), String>)
    ensures
        r is Ok,
{
    match outcome {
        KillOutcome::Killed => Ok(()),
        KillOutcome::NoneFound => Ok(()),
        KillOutcome::CommandUnavailable => Ok(()),
    }
}

} // verus!
