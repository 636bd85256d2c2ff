//! What each file-based mode writes into its workspace, and the script that
//! then runs inside the sandbox. The shell modes stage nothing: for them
//! every text here is empty.

use crate::mode::Mode;
use crate::workspace::WorkspaceView;
use vstd::prelude::*;
use vstd::string::StringExecFns;

verus! {

/// The name of a mode's staging directory.
pub open spec fn kind_spec(mode: Mode) -> Seq<char> {
    match mode {
        Mode::NixEval => "nix"@,
        Mode::Xelatex => "xelatex"@,
        Mode::Typst => "typst"@,
        _ => ""@,
    }
}

/// The name of the file that holds the snippet.
pub open spec fn file_name_spec(mode: Mode) -> Seq<char> {
    match mode {
        Mode::NixEval => "expr.nix"@,
        Mode::Xelatex => "main.tex"@,
        Mode::Typst => "main.typ"@,
        _ => ""@,
    }
}

/// What stands before the snippet in its file.
pub open spec fn prologue_spec(mode: Mode) -> Seq<char> {
    match mode {
        Mode::NixEval => "let pkgs = import <nixpkgs> { }; in "@,
        Mode::Xelatex =>
            "\\documentclass[preview]{standalone}\n\\usepackage{xcolor}\n\\pagecolor{white}\n\\begin{document}\n"@,
        Mode::Typst => "#set page(width: auto, height: auto, margin: 1em)\n"@,
        _ => ""@,
    }
}

/// What stands after the snippet in its file.
pub open spec fn epilogue_spec(mode: Mode) -> Seq<char> {
    match mode {
        Mode::Xelatex => "\n\\end{document}\n"@,
        _ => ""@,
    }
}

/// The whole content of the file that holds the snippet.
pub open spec fn content_spec(mode: Mode, payload: Seq<char>) -> Seq<char> {
    prologue_spec(mode) + payload + epilogue_spec(mode)
}

/// The commands that render a LaTeX document: typeset to XDV without a PDF,
/// convert to SVG without fonts and with the paper's bounding box, and print
/// the SVG; a line on standard error marks the start and end of each step.
pub open spec fn xelatex_steps() -> Seq<char> {
    "echo 'xelatex: begin' >&2\nxelatex -no-pdf -interaction=nonstopmode main.tex >&2\necho 'xelatex: end' >&2\necho 'dvisvgm: begin' >&2\ndvisvgm --no-fonts --bbox=papersize main.xdv >&2\necho 'dvisvgm: end' >&2\ncat main.svg\n"@
}

/// The commands that render a Typst document: compile to SVG and print it; a
/// line on standard error marks the start and end of the step.
pub open spec fn typst_steps() -> Seq<char> {
    "echo 'typst: begin' >&2\ntypst compile --format svg main.typ main.svg >&2\necho 'typst: end' >&2\ncat main.svg\n"@
}

/// The script that the sandboxed shell reads. It names the workspace and the
/// file by the paths that the sandbox sees, written out as they are.
pub open spec fn script_spec(mode: Mode, workspace: Seq<char>, file: Seq<char>) -> Seq<char> {
    match mode {
        Mode::NixEval => "nix eval --file "@ + file,
        Mode::Xelatex => "cd "@ + workspace + "\n"@ + xelatex_steps(),
        Mode::Typst => "cd "@ + workspace + "\n"@ + typst_steps(),
        _ => ""@,
    }
}

/// The script for a workspace of the given mode.
pub open spec fn workspace_script_spec(mode: Mode, workspace: WorkspaceView) -> Seq<char> {
    script_spec(mode, workspace.guest, workspace.child(file_name_spec(mode)).guest)
}

/// The name of a mode's staging directory.
pub fn kind(mode: Mode) -> (r: &'static str)
    ensures
        r@ == kind_spec(mode),
{
    match mode {
        Mode::NixEval => "nix",
        Mode::Xelatex => "xelatex",
        Mode::Typst => "typst",
        _ => "",
    }
}

/// The name of the file that holds the snippet.
pub fn file_name(mode: Mode) -> (r: &'static str)
    ensures
        r@ == file_name_spec(mode),
{
    match mode {
        Mode::NixEval => "expr.nix",
        Mode::Xelatex => "main.tex",
        Mode::Typst => "main.typ",
        _ => "",
    }
}

/// The whole content of the file that holds the snippet.
pub fn content(mode: Mode, payload: &str) -> (r: String)
    ensures
        r@ == content_spec(mode, payload@),
{
    let prologue: &str = match mode {
        Mode::NixEval => "let pkgs = import <nixpkgs> { }; in ",
        Mode::Xelatex =>
            "\\documentclass[preview]{standalone}\n\\usepackage{xcolor}\n\\pagecolor{white}\n\\begin{document}\n",
        Mode::Typst => "#set page(width: auto, height: auto, margin: 1em)\n",
        _ => "",
    };
    let epilogue: &str = match mode {
        Mode::Xelatex => "\n\\end{document}\n",
        _ => "",
    };
    let mut out = String::from_str(prologue);
    out.append(payload);
    out.append(epilogue);
    out
}

/// The script that the sandboxed shell reads.
pub fn script(mode: Mode, workspace: &str, file: &str) -> (r: String)
    ensures
        r@ == script_spec(mode, workspace@, file@),
{
    match mode {
        Mode::Xelatex => {
            let mut out = String::from_str("cd ");
            out.append(workspace);
            out.append("\n");
            out.append(
                "echo 'xelatex: begin' >&2\nxelatex -no-pdf -interaction=nonstopmode main.tex >&2\necho 'xelatex: end' >&2\necho 'dvisvgm: begin' >&2\ndvisvgm --no-fonts --bbox=papersize main.xdv >&2\necho 'dvisvgm: end' >&2\ncat main.svg\n",
            );
            out
        },
        Mode::Typst => {
            let mut out = String::from_str("cd ");
            out.append(workspace);
            out.append("\n");
            out.append(
                "echo 'typst: begin' >&2\ntypst compile --format svg main.typ main.svg >&2\necho 'typst: end' >&2\ncat main.svg\n",
            );
            out
        },
        Mode::NixEval => String::from_str("nix eval --file ").concat(file),
        _ => String::from_str(""),
    }
}

} // verus!
