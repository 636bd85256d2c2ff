use ace_bot::bot::AceBot;
use ace_bot::error::AceError;
use ace_bot::mode::Mode;
use ace_bot::options::{default_shell, Options, DEFAULT_TIMEOUT};
use ace_bot::shell::{shell_args, shell_invocation};

fn options() -> Options {
    Options {
        timeout: 60,
        shell: String::from("/bin/sh"),
        user_mode_user: String::from("ace"),
        user_mode_group: String::from("users"),
        user_guest_home: String::from("/home/ace"),
        user_host_home: String::from("/var/lib/machines/box/home/ace"),
        machine: String::from("box"),
        reset_indicator: String::from("/run/ace-bot/reset"),
        machine_unit: String::from("systemd-nspawn@box.service"),
    }
}

#[test]
fn defaults_are_sixty_seconds_and_the_posix_shell() {
    assert_eq!(DEFAULT_TIMEOUT, 60);
    assert_eq!(default_shell(), "/bin/sh");
}

#[test]
fn user_shell_arguments() {
    let args = shell_args(&options(), Mode::UserShell);
    assert_eq!(
        args,
        vec![
            "--machine=box",
            "--collect",
            "--quiet",
            "--wait",
            "--pipe",
            "--service-type=oneshot",
            "--property=TimeoutStartSec=60",
            "--send-sighup",
            "--uid=ace",
            "--gid=users",
            "--working-directory",
            "/home/ace",
            "--",
            "/bin/sh",
            "--login",
        ]
    );
}

#[test]
fn root_shell_arguments() {
    let mut o = options();
    o.timeout = 5;
    o.shell = String::from("/run/current-system/sw/bin/bash");
    let args = shell_args(&o, Mode::RootShell);
    assert_eq!(
        args,
        vec![
            "--machine=box",
            "--collect",
            "--quiet",
            "--wait",
            "--pipe",
            "--service-type=oneshot",
            "--property=TimeoutStartSec=5",
            "--send-sighup",
            "--working-directory=/root",
            "--",
            "/run/current-system/sw/bin/bash",
            "--login",
        ]
    );
}

#[test]
fn timeout_is_written_in_decimal() {
    let mut o = options();
    o.timeout = 0;
    assert_eq!(shell_args(&o, Mode::RootShell)[6], "--property=TimeoutStartSec=0");
    o.timeout = 86400;
    assert_eq!(shell_args(&o, Mode::RootShell)[6], "--property=TimeoutStartSec=86400");
    o.timeout = usize::MAX;
    assert_eq!(shell_args(&o, Mode::UserShell)[6], format!("--property=TimeoutStartSec={}", usize::MAX));
}

#[test]
fn shell_invocation_pipes_the_snippet() {
    let i = shell_invocation(&options(), Mode::UserShell, "echo hi\n").unwrap();
    assert_eq!(i.program, "systemd-run");
    assert_eq!(i.stdin, "echo hi\n");
    assert_eq!(i.args, shell_args(&options(), Mode::UserShell));
    let i = shell_invocation(&options(), Mode::RootShell, "").unwrap();
    assert_eq!(i.stdin, "");
    assert_eq!(i.args, shell_args(&options(), Mode::RootShell));
}

#[test]
fn shell_runner_refuses_file_based_modes() {
    for mode in [Mode::NixEval, Mode::Xelatex, Mode::Typst] {
        match shell_invocation(&options(), mode, "1+1") {
            Err(AceError::InvalidMode(m)) => assert_eq!(m, mode),
            other => panic!("unexpected: {:?}", other),
        }
    }
}

#[test]
fn run_bash_of_the_dispatcher() {
    let bot = AceBot::resolve(options(), Some(1000), Some(100)).unwrap();
    let i = bot.run_bash(Mode::RootShell, "id\n").unwrap();
    assert_eq!(i.program, "systemd-run");
    assert_eq!(i.args, shell_args(&options(), Mode::RootShell));
    assert_eq!(i.stdin, "id\n");
    match bot.run_bash(Mode::NixEval, "1") {
        Err(e) => assert_eq!(e.message(), "invalid mode: nix"),
        Ok(_) => panic!("a file-based mode reached the shell runner"),
    }
}

#[test]
fn options_are_copied_field_by_field() {
    let o = options();
    let c = o.clone();
    assert_eq!(c.timeout, o.timeout);
    assert_eq!(c.shell, o.shell);
    assert_eq!(c.user_mode_user, o.user_mode_user);
    assert_eq!(c.user_mode_group, o.user_mode_group);
    assert_eq!(c.user_guest_home, o.user_guest_home);
    assert_eq!(c.user_host_home, o.user_host_home);
    assert_eq!(c.machine, o.machine);
    assert_eq!(c.reset_indicator, o.reset_indicator);
    assert_eq!(c.machine_unit, o.machine_unit);
}
