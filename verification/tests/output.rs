use ace_bot::mode::Mode;
use ace_bot::output::{
    classify_command, classify_stream, notice, upload_requests, ExecutionResult, ExitStatus,
    OutputMessage, Size, Slot, Stream, Transport, Uploads, FILE_LIMIT, PART_LIMIT,
};

fn result(code: i32, stdout: &[u8], stderr: &[u8]) -> ExecutionResult {
    ExecutionResult { status: ExitStatus::Exited(code), stdout: stdout.to_vec(), stderr: stderr.to_vec() }
}

fn pseudo_random(n: usize) -> Vec<u8> {
    let mut state: u32 = 0x2545_F491;
    let mut out = Vec::with_capacity(n);
    for _ in 0..n {
        state ^= state << 13;
        state ^= state >> 17;
        state ^= state << 5;
        out.push((state >> 24) as u8);
    }
    out
}

#[test]
fn limits_are_one_thousand_bytes_and_one_mebibyte() {
    assert_eq!(PART_LIMIT, 1000);
    assert_eq!(FILE_LIMIT, 1024 * 1024);
}

#[test]
fn exit_status_text() {
    assert_eq!(ExitStatus::Exited(0).text(), "exit status: 0");
    assert_eq!(ExitStatus::Exited(127).text(), "exit status: 127");
    assert_eq!(ExitStatus::Exited(-1).text(), "exit status: -1");
    assert_eq!(ExitStatus::Signaled(9).text(), "signal: 9");
}

#[test]
fn only_exit_code_zero_is_success() {
    assert!(ExitStatus::Exited(0).success());
    assert!(!ExitStatus::Exited(1).success());
    assert!(!ExitStatus::Signaled(0).success());
}

#[test]
fn shell_scenario_is_shown_inline() {
    let r = result(0, b"hi\n", b"");
    let m = OutputMessage::format(Transport::matrix(), "@alice:example.org", Some(Mode::UserShell), "echo hi\n", &r, &Uploads::none());
    assert_eq!(m.message, "@alice:example.org (non-root):\necho hi\nexit status: 0\n(stdout)\nhi\n");
    assert!(m.documents.is_empty());
    assert!(m.message.contains("@alice:example.org (non-root):"));
    assert!(m.message.contains("echo hi"));
    assert!(m.message.contains("exit status: 0"));
    assert!(m.message.contains("hi"));
}

#[test]
fn shell_scenario_in_markdown() {
    let r = result(0, b"hi\n", b"");
    let m = OutputMessage::format(Transport::telegram(), "@alice", Some(Mode::UserShell), "echo hi\n", &r, &Uploads::none());
    assert_eq!(m.message, "@alice \\(non\\-root\\):\n```\necho hi\n```exit status: 0\n\\(stdout\\)\n```\nhi\n\n```");
    assert!(m.documents.is_empty());
}

#[test]
fn header_names_each_mode() {
    let r = result(0, b"", b"");
    let u = Uploads::none();
    let t = Transport::matrix();
    assert_eq!(OutputMessage::format(t, "u", Some(Mode::RootShell), "x", &r, &u).message, "u (root):\nx\nexit status: 0");
    assert_eq!(OutputMessage::format(t, "u", Some(Mode::NixEval), "x", &r, &u).message, "u (nix):\nx\nexit status: 0");
    assert_eq!(OutputMessage::format(t, "u", Some(Mode::Xelatex), "x", &r, &u).message, "u (xelatex):\nx\nexit status: 0");
    assert_eq!(OutputMessage::format(t, "u", Some(Mode::Typst), "x", &r, &u).message, "u (typst):\nx\nexit status: 0");
}

#[test]
fn header_says_meta_without_a_mode() {
    let r = result(0, b"", b"");
    let m = OutputMessage::format(Transport::matrix(), "@bob:example.org", None, "/reset", &r, &Uploads::none());
    assert_eq!(m.message, "@bob:example.org (meta):\n/reset\nexit status: 0");
    let m = OutputMessage::format(Transport::telegram(), "@bob", None, "/reset", &r, &Uploads::none());
    assert_eq!(m.message, "@bob \\(meta\\):\n```\n/reset\n```exit status: 0");
}

#[test]
fn both_streams_are_shown_in_order() {
    let r = result(2, b"out", b"err");
    let m = OutputMessage::format(Transport::matrix(), "u", Some(Mode::UserShell), "  cmd  ", &r, &Uploads::none());
    assert_eq!(m.message, "u (non-root):\ncmd\nexit status: 2\n(stdout)\nout\n(stderr)\nerr");
}

#[test]
fn empty_streams_have_no_section() {
    let r = result(0, b"", b"oops");
    let m = OutputMessage::format(Transport::matrix(), "u", Some(Mode::UserShell), "cmd", &r, &Uploads::none());
    assert_eq!(m.message, "u (non-root):\ncmd\nexit status: 0\n(stderr)\noops");
}

#[test]
fn command_size_boundary() {
    assert_eq!(classify_command(&"a".repeat(PART_LIMIT - 1)), Size::Inline);
    assert_eq!(classify_command(&"a".repeat(PART_LIMIT)), Size::Artifact);
    assert_eq!(classify_command(&"a".repeat(PART_LIMIT + 1)), Size::Artifact);
    assert_eq!(classify_command(&"a".repeat(FILE_LIMIT - 1)), Size::Artifact);
    assert_eq!(classify_command(&"a".repeat(FILE_LIMIT)), Size::TooLarge);
    assert_eq!(classify_command(""), Size::Inline);
}

#[test]
fn command_size_counts_bytes_not_characters() {
    // 500 characters of two bytes each.
    assert_eq!(classify_command(&"é".repeat(499)), Size::Inline);
    assert_eq!(classify_command(&"é".repeat(500)), Size::Artifact);
}

#[test]
fn command_below_the_limit_is_inlined() {
    let r = result(0, b"", b"");
    let command = "a".repeat(PART_LIMIT - 1);
    let m = OutputMessage::format(Transport::matrix(), "u", Some(Mode::UserShell), &command, &r, &Uploads::none());
    assert_eq!(m.message, format!("u (non-root):\n{}\nexit status: 0", command));
    let m = OutputMessage::format(Transport::telegram(), "u", Some(Mode::UserShell), &command, &r, &Uploads::none());
    assert_eq!(m.message, format!("u \\(non\\-root\\):\n```\n{}\n```exit status: 0", command));
    assert!(m.documents.is_empty());
}

#[test]
fn command_at_the_limit_is_not_inlined() {
    let r = result(0, b"", b"");
    let command = "a".repeat(PART_LIMIT);
    let m = OutputMessage::format(Transport::matrix(), "u", Some(Mode::UserShell), &command, &r, &Uploads::none());
    assert_eq!(m.message, "u (non-root):\nfile size limit exceeded\nexit status: 0");
    let m = OutputMessage::format(Transport::telegram(), "u", Some(Mode::UserShell), &command, &r, &Uploads::none());
    assert_eq!(m.message, "u \\(non\\-root\\):\nexit status: 0");
    assert_eq!(m.documents.len(), 1);
    assert_eq!(m.documents[0].file_name, "script");
    assert_eq!(m.documents[0].data, command.as_bytes());
}

#[test]
fn command_above_the_limit_is_not_inlined() {
    let r = result(0, b"", b"");
    let command = "a".repeat(PART_LIMIT + 1);
    let mut uploads = Uploads::none();
    uploads.record(Slot::Command, Some(String::from("curl https://p/abc")));
    let m = OutputMessage::format(Transport::matrix(), "u", Some(Mode::UserShell), &command, &r, &uploads);
    assert_eq!(m.message, "u (non-root):\ncurl https://p/abc\nexit status: 0");
    assert!(m.documents.is_empty());
    let m = OutputMessage::format(Transport::telegram(), "u", Some(Mode::UserShell), &command, &r, &uploads);
    assert_eq!(m.message, "u \\(non\\-root\\):\nexit status: 0");
    assert_eq!(m.documents.len(), 1);
}

#[test]
fn command_over_the_file_limit_is_dropped() {
    let r = result(0, b"", b"");
    let command = "a".repeat(FILE_LIMIT);
    let mut uploads = Uploads::none();
    uploads.record(Slot::Command, Some(String::from("curl https://p/abc")));
    let m = OutputMessage::format(Transport::telegram(), "u", Some(Mode::UserShell), &command, &r, &uploads);
    assert_eq!(m.message, "u \\(non\\-root\\):\nfile size limit exceeded\nexit status: 0");
    assert!(m.documents.is_empty());
    assert!(upload_requests(Transport::matrix(), &command, &r).is_empty());
}

#[test]
fn short_text_is_inlined_verbatim() {
    let text = "grüße, мир\n\ttab — dash";
    let r = result(0, text.as_bytes(), b"");
    let m = OutputMessage::format(Transport::matrix(), "u", Some(Mode::UserShell), "cmd", &r, &Uploads::none());
    assert_eq!(m.message, format!("u (non-root):\ncmd\nexit status: 0\n(stdout)\n{}", text));
    let inlined = &m.message["u (non-root):\ncmd\nexit status: 0\n(stdout)\n".len()..];
    assert_eq!(inlined.as_bytes(), &r.stdout[..]);
    assert!(upload_requests(Transport::matrix(), "cmd", &r).is_empty());
}

#[test]
fn stream_classification_boundary() {
    assert_eq!(classify_stream(&vec![b'a'; PART_LIMIT - 1]).0, Size::Inline);
    assert_eq!(classify_stream(&vec![b'a'; PART_LIMIT]).0, Size::Artifact);
    assert_eq!(classify_stream(&vec![b'a'; PART_LIMIT + 1]).0, Size::Artifact);
    assert_eq!(classify_stream(&vec![b'a'; FILE_LIMIT - 1]).0, Size::Artifact);
    assert_eq!(classify_stream(&vec![b'a'; FILE_LIMIT]).0, Size::TooLarge);
    assert_eq!(classify_stream(&vec![b'a'; FILE_LIMIT + 1]).0, Size::TooLarge);
}

#[test]
fn stream_classification_hands_back_the_text() {
    let (size, text) = classify_stream(&"héllo".as_bytes().to_vec());
    assert_eq!(size, Size::Inline);
    assert_eq!(text, Some(String::from("héllo")));
    let (size, text) = classify_stream(&vec![0xff, 0xfe]);
    assert_eq!(size, Size::Artifact);
    assert_eq!(text, None);
    let (size, text) = classify_stream(&vec![0xe2, 0x82]);
    assert_eq!(size, Size::Artifact);
    assert_eq!(text, None);
}

#[test]
fn short_bytes_that_are_no_text_are_pasted() {
    let r = result(0, &[0xff, 0x00, 0x80], b"");
    let requests = upload_requests(Transport::matrix(), "cmd", &r);
    assert_eq!(requests.len(), 1);
    assert_eq!(requests[0].slot, Slot::Stdout);
    assert_eq!(requests[0].file_name, "stdout");
    assert_eq!(requests[0].data, vec![0xff, 0x00, 0x80]);
    let mut uploads = Uploads::none();
    uploads.record(Slot::Stdout, Some(String::from("curl https://p/xyz")));
    let m = OutputMessage::format(Transport::matrix(), "u", Some(Mode::UserShell), "cmd", &r, &uploads);
    assert_eq!(m.message, "u (non-root):\ncmd\nexit status: 0\n(stdout)\ncurl https://p/xyz");
    assert!(m.documents.is_empty());
}

#[test]
fn failed_upload_falls_back_to_the_notice() {
    let r = result(0, &vec![b'x'; 5000], b"");
    let m = OutputMessage::format(Transport::matrix(), "u", Some(Mode::UserShell), "cmd", &r, &Uploads::none());
    assert_eq!(m.message, "u (non-root):\ncmd\nexit status: 0\n(stdout)\nfile size limit exceeded");
}

#[test]
fn long_stream_is_attached_and_pasted_in_markdown() {
    let r = result(1, &vec![b'x'; 5000], &vec![b'y'; 1000]);
    let requests = upload_requests(Transport::telegram(), "cmd", &r);
    assert_eq!(requests.len(), 2);
    assert_eq!(requests[0].slot, Slot::Stdout);
    assert_eq!(requests[1].slot, Slot::Stderr);
    assert_eq!(requests[1].file_name, "stderr");
    let mut uploads = Uploads::none();
    uploads.record(Slot::Stdout, Some(String::from("curl https://p/`a")));
    let m = OutputMessage::format(Transport::telegram(), "u", Some(Mode::RootShell), "cmd", &r, &uploads);
    assert_eq!(
        m.message,
        "u \\(root\\):\n```\ncmd\n```exit status: 1\n\\(stdout\\)\nattached\n```\ncurl https://p/\\`a\n```\n\\(stderr\\)\nattached"
    );
    assert_eq!(m.documents.len(), 2);
    assert_eq!(m.documents[0].file_name, "stdout");
    assert_eq!(m.documents[0].data, vec![b'x'; 5000]);
    assert_eq!(m.documents[1].file_name, "stderr");
    assert_eq!(m.documents[1].data, vec![b'y'; 1000]);
}

#[test]
fn two_mebibytes_of_noise_are_dropped() {
    let noise = pseudo_random(2 * 1024 * 1024);
    let r = result(0, &noise, b"");
    for t in [Transport::matrix(), Transport::telegram()] {
        assert!(upload_requests(t, "cat /dev/urandom", &r).is_empty());
        let mut uploads = Uploads::none();
        uploads.record(Slot::Stdout, Some(String::from("curl https://p/never")));
        let m = OutputMessage::format(t, "u", Some(Mode::UserShell), "cat /dev/urandom", &r, &uploads);
        assert!(m.message.contains("file size limit exceeded"));
        assert!(m.message.ends_with("\nfile size limit exceeded"));
        assert!(!m.message.contains("curl"));
        assert!(!m.message.contains("attached"));
        assert!(m.documents.is_empty());
    }
}

#[test]
fn stream_at_the_file_limit_is_dropped() {
    let r = result(0, &vec![b'a'; FILE_LIMIT], &vec![b'a'; FILE_LIMIT - 1]);
    let requests = upload_requests(Transport::matrix(), "cmd", &r);
    assert_eq!(requests.len(), 1);
    assert_eq!(requests[0].slot, Slot::Stderr);
    let m = OutputMessage::format(Transport::telegram(), "u", Some(Mode::UserShell), "cmd", &r, &Uploads::none());
    assert_eq!(m.documents.len(), 1);
    assert_eq!(m.documents[0].file_name, "stderr");
    assert_eq!(m.message, "u \\(non\\-root\\):\n```\ncmd\n```exit status: 0\n\\(stdout\\)\nfile size limit exceeded\n\\(stderr\\)\nattached");
}

#[test]
fn oversized_command_is_pasted_where_files_cannot_go() {
    let r = result(0, b"", b"");
    let command = "é".repeat(600);
    let requests = upload_requests(Transport::matrix(), &command, &r);
    assert_eq!(requests.len(), 1);
    assert_eq!(requests[0].slot, Slot::Command);
    assert_eq!(requests[0].file_name, "command");
    assert_eq!(requests[0].data, command.as_bytes());
    assert!(upload_requests(Transport::telegram(), &command, &r).is_empty());
}

#[test]
fn uploads_are_recorded_by_slot() {
    let mut u = Uploads::none();
    assert_eq!(u.command, None);
    assert_eq!(u.stdout, None);
    assert_eq!(u.stderr, None);
    u.record(Slot::Stderr, Some(String::from("e")));
    u.record(Slot::Command, Some(String::from("c")));
    assert_eq!(u.command, Some(String::from("c")));
    assert_eq!(u.stdout, None);
    assert_eq!(u.stderr, Some(String::from("e")));
    u.record(Slot::Stderr, None);
    assert_eq!(u.stderr, None);
}

#[test]
fn slot_names() {
    assert_eq!(Slot::Command.paste_name(), "command");
    assert_eq!(Slot::Command.file_name(), "script");
    assert_eq!(Slot::Stdout.paste_name(), "stdout");
    assert_eq!(Slot::Stdout.file_name(), "stdout");
    assert_eq!(Stream::Stderr.label(), "(stderr)");
    assert_eq!(Stream::Stdout.label(), "(stdout)");
    assert_eq!(Stream::Stderr.slot(), Slot::Stderr);
    assert_eq!(Stream::Stdout.slot(), Slot::Stdout);
    assert_eq!(notice(), "file size limit exceeded");
}

#[test]
fn markdown_escapes_the_status_and_the_text() {
    let r = ExecutionResult { status: ExitStatus::Exited(-2), stdout: b"a\\b`c".to_vec(), stderr: Vec::new() };
    let m = OutputMessage::format(Transport::telegram(), "x", None, "ls `pwd`", &r, &Uploads::none());
    assert_eq!(m.message, "x \\(meta\\):\n```\nls \\`pwd\\`\n```exit status: \\-2\n\\(stdout\\)\n```\na\\\\b\\`c\n```");
}

#[test]
fn message_length_is_bounded() {
    let r = result(i32::MIN, &vec![b'x'; PART_LIMIT - 1], &vec![b'y'; PART_LIMIT - 1]);
    let command = "c".repeat(PART_LIMIT - 1);
    let m = OutputMessage::format(Transport::matrix(), "alice", Some(Mode::UserShell), &command, &r, &Uploads::none());
    assert!(m.message.chars().count() <= 5 + 3126);
    assert_eq!(m.message.chars().count(), 5 + 13 + 1000 + 24 + 2 * (10 + 999));
    let noise = result(0, &vec![0xff; FILE_LIMIT - 1], &vec![0xff; 4 * FILE_LIMIT]);
    let m = OutputMessage::format(Transport::matrix(), "alice", None, &"c".repeat(FILE_LIMIT), &noise, &Uploads::none());
    assert!(m.message.chars().count() <= 5 + 3126);
    let m = OutputMessage::format(Transport::telegram(), "alice", Some(Mode::UserShell), &"`".repeat(PART_LIMIT - 1), &result(0, &vec![b'`'; PART_LIMIT - 1], &vec![b'\\'; PART_LIMIT - 1]), &Uploads::none());
    assert!(m.message.chars().count() <= 5 + 126 + 3 * (2 * 999 + 8));
}
