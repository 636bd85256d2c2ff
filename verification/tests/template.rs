use ace_bot::mode::Mode;
use ace_bot::template::{content, file_name, kind, script};

#[test]
fn staging_kinds_and_file_names() {
    assert_eq!(kind(Mode::NixEval), "nix");
    assert_eq!(kind(Mode::Xelatex), "xelatex");
    assert_eq!(kind(Mode::Typst), "typst");
    assert_eq!(file_name(Mode::NixEval), "expr.nix");
    assert_eq!(file_name(Mode::Xelatex), "main.tex");
    assert_eq!(file_name(Mode::Typst), "main.typ");
}

#[test]
fn shell_modes_stage_nothing() {
    for mode in [Mode::UserShell, Mode::RootShell] {
        assert_eq!(kind(mode), "");
        assert_eq!(file_name(mode), "");
        assert_eq!(content(mode, "x"), "x");
        assert_eq!(script(mode, "/w", "/w/f"), "");
    }
}

#[test]
fn nix_expression_is_wrapped() {
    assert_eq!(content(Mode::NixEval, "1+1"), "let pkgs = import <nixpkgs> { }; in 1+1");
    assert_eq!(content(Mode::NixEval, ""), "let pkgs = import <nixpkgs> { }; in ");
}

#[test]
fn latex_body_is_wrapped_in_a_standalone_document() {
    assert_eq!(
        content(Mode::Xelatex, "$e^{i\\pi}$"),
        "\\documentclass[preview]{standalone}\n\\usepackage{xcolor}\n\\pagecolor{white}\n\\begin{document}\n$e^{i\\pi}$\n\\end{document}\n"
    );
}

#[test]
fn typst_document_gets_an_automatic_page() {
    assert_eq!(content(Mode::Typst, "= Title"), "#set page(width: auto, height: auto, margin: 1em)\n= Title");
}

#[test]
fn nix_script_evaluates_the_file() {
    assert_eq!(
        script(Mode::NixEval, "/home/ace/.ace-bot/nix/w", "/home/ace/.ace-bot/nix/w/expr.nix"),
        "nix eval --file /home/ace/.ace-bot/nix/w/expr.nix"
    );
}

#[test]
fn latex_script_renders_to_svg() {
    assert_eq!(
        script(Mode::Xelatex, "/home/ace/.ace-bot/xelatex/w", "/home/ace/.ace-bot/xelatex/w/main.tex"),
        "cd /home/ace/.ace-bot/xelatex/w\n\
         echo 'xelatex: begin' >&2\n\
         xelatex -no-pdf -interaction=nonstopmode main.tex >&2\n\
         echo 'xelatex: end' >&2\n\
         echo 'dvisvgm: begin' >&2\n\
         dvisvgm --no-fonts --bbox=papersize main.xdv >&2\n\
         echo 'dvisvgm: end' >&2\n\
         cat main.svg\n"
    );
}

#[test]
fn typst_script_renders_to_svg() {
    assert_eq!(
        script(Mode::Typst, "/g/w", "/g/w/main.typ"),
        "cd /g/w\n\
         echo 'typst: begin' >&2\n\
         typst compile --format svg main.typ main.svg >&2\n\
         echo 'typst: end' >&2\n\
         cat main.svg\n"
    );
}

#[test]
fn mode_names_and_keywords() {
    assert_eq!(Mode::UserShell.name(), "non-root");
    assert_eq!(Mode::RootShell.name(), "root");
    assert_eq!(Mode::NixEval.name(), "nix");
    assert_eq!(Mode::Xelatex.name(), "xelatex");
    assert_eq!(Mode::Typst.name(), "typst");
    assert_eq!(Mode::UserShell.to_string(), "non-root");
    assert_eq!(Mode::UserShell.keyword(), "user");
    assert_eq!(Mode::Typst.keyword(), "typst");
    assert!(!Mode::UserShell.file_based());
    assert!(!Mode::RootShell.file_based());
    assert!(Mode::NixEval.file_based());
    assert!(Mode::Xelatex.file_based());
    assert!(Mode::Typst.file_based());
}
