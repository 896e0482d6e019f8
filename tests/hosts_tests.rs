use noorsigner_link::hosts::{
    cancel_key_signer_launch, detached_command, host_reports_by_exit_status, interactive_hosts, kill_command,
    KillOutcome,
};
use noorsigner_link::mode::LaunchMode;
use noorsigner_link::paths::Platform;

#[test]
fn linux_tries_three_terminals_in_order() {
    let h = interactive_hosts(Platform::Linux, "/home/u/.noornote/bin/noorsigner", LaunchMode::Init);
    assert_eq!(h.len(), 3);
    assert_eq!(h[0].program, "gnome-terminal");
    assert_eq!(h[0].args, vec!["--", "/home/u/.noornote/bin/noorsigner", "init"]);
    assert_eq!(h[1].program, "konsole");
    assert_eq!(h[1].args, vec!["-e", "/home/u/.noornote/bin/noorsigner init"]);
    assert_eq!(h[2].program, "xterm");
    assert_eq!(h[2].args, vec!["-e", "/home/u/.noornote/bin/noorsigner init"]);
}

#[test]
fn macos_runs_terminal_through_a_script() {
    let h = interactive_hosts(Platform::MacOs, "/b/noorsigner", LaunchMode::AddAccount);
    assert_eq!(h.len(), 1);
    assert_eq!(h[0].program, "osascript");
    assert_eq!(
        h[0].args,
        vec!["-e", "tell application \"Terminal\"\nactivate\ndo script \"/b/noorsigner add-account\"\nend tell"]
    );
}

#[test]
fn windows_opens_a_console() {
    let h = interactive_hosts(Platform::Windows, "C:\\b\\noorsigner.exe", LaunchMode::Daemon);
    assert_eq!(h.len(), 1);
    assert_eq!(h[0].program, "cmd");
    assert_eq!(h[0].args, vec!["/c", "start", "", "cmd", "/k", "C:\\b\\noorsigner.exe", "daemon"]);
}

#[test]
fn detached_start_passes_only_the_mode() {
    let c = detached_command("/b/noorsigner", LaunchMode::Daemon);
    assert_eq!(c.program, "/b/noorsigner");
    assert_eq!(c.args, vec!["daemon"]);
}

#[test]
fn kill_matches_the_daemon_by_name() {
    let k = kill_command(Platform::Linux);
    assert_eq!(k.program, "pkill");
    assert_eq!(k.args, vec!["-f", "noorsigner.*daemon"]);
    let k = kill_command(Platform::Windows);
    assert_eq!(k.program, "taskkill");
    assert_eq!(k.args, vec!["/F", "/IM", "noorsigner.exe"]);
}

#[test]
fn cancel_without_daemon_succeeds() {
    assert_eq!(cancel_key_signer_launch(KillOutcome::NoneFound), Ok(()));
    assert_eq!(cancel_key_signer_launch(KillOutcome::Killed), Ok(()));
    assert_eq!(cancel_key_signer_launch(KillOutcome::CommandUnavailable), Ok(()));
}

#[test]
fn only_the_macos_script_is_judged_by_exit_status() {
    assert!(host_reports_by_exit_status(Platform::MacOs));
    assert!(!host_reports_by_exit_status(Platform::Linux));
    assert!(!host_reports_by_exit_status(Platform::Windows));
}
