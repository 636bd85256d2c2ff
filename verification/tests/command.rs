use ace_bot::command::{parse, preprocessing, Dialect, Request};
use ace_bot::mode::Mode;

fn run(r: Request) -> (Mode, String) {
    match r {
        Request::Run { mode, text } => (mode, text),
        other => panic!("not a snippet: {:?}", other),
    }
}

#[test]
fn dialects() {
    let t = Dialect::telegram();
    assert_eq!(t.sigil, '/');
    assert!(t.start && t.preprocess && t.private_fallback);
    let m = Dialect::matrix();
    assert_eq!(m.sigil, '!');
    assert!(!m.start && !m.preprocess && !m.private_fallback);
}

#[test]
fn preprocessing_restores_hyphens_and_ends_the_line() {
    assert_eq!(preprocessing("ls —all"), "ls --all\n");
    assert_eq!(preprocessing("ls\n"), "ls\n");
    assert_eq!(preprocessing(""), "\n");
    assert_eq!(preprocessing("—"), "--\n");
    assert_eq!(preprocessing("a—b—\n"), "a--b--\n");
    assert_eq!(preprocessing("x\n\n"), "x\n\n");
    assert_eq!(preprocessing("-–"), "-–\n");
}

#[test]
fn telegram_user_command() {
    assert_eq!(run(parse(Dialect::telegram(), "/user echo hi", false)), (Mode::UserShell, String::from("echo hi\n")));
    assert_eq!(run(parse(Dialect::telegram(), "/user@ace_bot echo —x", false)), (Mode::UserShell, String::from("echo --x\n")));
    assert_eq!(run(parse(Dialect::telegram(), "/user", false)), (Mode::UserShell, String::from("\n")));
    assert_eq!(run(parse(Dialect::telegram(), "/user\n  ls\n", false)), (Mode::UserShell, String::from("ls\n")));
}

#[test]
fn telegram_root_command() {
    assert_eq!(run(parse(Dialect::telegram(), "/root id", true)), (Mode::RootShell, String::from("id\n")));
    assert_eq!(run(parse(Dialect::telegram(), "/root@Bot\tid\n", true)), (Mode::RootShell, String::from("id\n")));
}

#[test]
fn file_based_snippets_are_handed_on_as_they_are() {
    assert_eq!(run(parse(Dialect::telegram(), "/nix 1 + 1", false)), (Mode::NixEval, String::from("1 + 1")));
    assert_eq!(run(parse(Dialect::telegram(), "/nix@b —", false)), (Mode::NixEval, String::from("—")));
    assert_eq!(run(parse(Dialect::telegram(), "/xelatex $x$", false)), (Mode::Xelatex, String::from("$x$")));
    assert_eq!(run(parse(Dialect::telegram(), "/typst = T\nbody", false)), (Mode::Typst, String::from("= T\nbody")));
    assert_eq!(run(parse(Dialect::matrix(), "!typst = T", false)), (Mode::Typst, String::from("= T")));
}

#[test]
fn address_needs_a_name() {
    assert_eq!(run(parse(Dialect::matrix(), "!user@ x", false)), (Mode::UserShell, String::from("@ x")));
    assert_eq!(run(parse(Dialect::matrix(), "!user@1 x", false)), (Mode::UserShell, String::from("@1 x")));
    assert_eq!(run(parse(Dialect::matrix(), "!user@bot1 x", false)), (Mode::UserShell, String::from("1 x")));
    assert_eq!(run(parse(Dialect::matrix(), "!user@a_B", false)), (Mode::UserShell, String::from("")));
}

#[test]
fn word_needs_no_blank_after_it() {
    assert_eq!(run(parse(Dialect::matrix(), "!userls", false)), (Mode::UserShell, String::from("ls")));
    assert_eq!(run(parse(Dialect::matrix(), "!rootfs", false)), (Mode::RootShell, String::from("fs")));
}

#[test]
fn only_ascii_blanks_are_skipped() {
    assert_eq!(run(parse(Dialect::matrix(), "!user \t\r\n\u{0B}\u{0C}x ", false)), (Mode::UserShell, String::from("x ")));
    assert_eq!(run(parse(Dialect::matrix(), "!user\u{A0}x", false)), (Mode::UserShell, String::from("\u{A0}x")));
}

#[test]
fn matrix_does_not_preprocess() {
    assert_eq!(run(parse(Dialect::matrix(), "!user ls —all", false)), (Mode::UserShell, String::from("ls —all")));
    assert_eq!(run(parse(Dialect::matrix(), "!root id", false)), (Mode::RootShell, String::from("id")));
}

#[test]
fn reset_and_start() {
    assert!(matches!(parse(Dialect::telegram(), "/reset", false), Request::Reset));
    assert!(matches!(parse(Dialect::telegram(), "/reset@bot now", false), Request::Reset));
    assert!(matches!(parse(Dialect::matrix(), "!reset", false), Request::Reset));
    assert!(matches!(parse(Dialect::telegram(), "/start", false), Request::Start));
    assert!(matches!(parse(Dialect::telegram(), "/start@bot", true), Request::Start));
}

#[test]
fn matrix_has_no_greeting() {
    assert!(matches!(parse(Dialect::matrix(), "!start", false), Request::Ignored));
    assert!(matches!(parse(Dialect::matrix(), "!start", true), Request::Ignored));
}

#[test]
fn private_message_is_a_user_snippet_on_telegram() {
    assert_eq!(run(parse(Dialect::telegram(), "uname —a", true)), (Mode::UserShell, String::from("uname --a\n")));
    assert_eq!(run(parse(Dialect::telegram(), "", true)), (Mode::UserShell, String::from("\n")));
    assert!(matches!(parse(Dialect::telegram(), "uname -a", false), Request::Ignored));
    assert!(matches!(parse(Dialect::matrix(), "uname -a", true), Request::Ignored));
}

#[test]
fn other_sigils_and_words_are_ignored() {
    assert!(matches!(parse(Dialect::matrix(), "/user ls", false), Request::Ignored));
    assert!(matches!(parse(Dialect::telegram(), "!user ls", false), Request::Ignored));
    assert!(matches!(parse(Dialect::telegram(), " /user ls", false), Request::Ignored));
    assert!(matches!(parse(Dialect::telegram(), "/use", false), Request::Ignored));
    assert!(matches!(parse(Dialect::telegram(), "/", false), Request::Ignored));
    assert!(matches!(parse(Dialect::telegram(), "/User ls", false), Request::Ignored));
}
