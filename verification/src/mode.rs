//! The closed set of ways in which a snippet can be executed.

use vstd::prelude::*;
use vstd::string::StringExecFns;

verus! {

/// How a snippet is executed inside the sandbox.
#[derive(Clone, Copy, Debug, PartialEq, Eq, Structural)]
pub enum Mode {
    /// A shell script, run as the unprivileged user.
    UserShell,
    /// A shell script, run as root.
    RootShell,
    /// A Nix expression, evaluated as the unprivileged user.
    NixEval,
    /// The body of a LaTeX document, rendered to SVG.
    Xelatex,
    /// A Typst document, rendered to SVG.
    Typst,
}

impl Mode {
    /// The name under which a mode is shown to people.
    pub open spec fn name_spec(self) -> Seq<char> {
        match self {
            Mode::UserShell => "non-root"@,
            Mode::RootShell => "root"@,
            Mode::NixEval => "nix"@,
            Mode::Xelatex => "xelatex"@,
            Mode::Typst => "typst"@,
        }
    }

    /// The name under which a mode is shown to people.
    pub fn name(&self) -> (r: &'static str)
        ensures
            r@ == self.name_spec(),
    {
        match self {
            Mode::UserShell => "non-root",
            Mode::RootShell => "root",
            Mode::NixEval => "nix",
            Mode::Xelatex => "xelatex",
            Mode::Typst => "typst",
        }
    }

    /// The word by which a message asks for a mode.
    pub open spec fn keyword_spec(self) -> Seq<char> {
        match self {
            Mode::UserShell => "user"@,
            Mode::RootShell => "root"@,
            Mode::NixEval => "nix"@,
            Mode::Xelatex => "xelatex"@,
            Mode::Typst => "typst"@,
        }
    }

    /// The word by which a message asks for a mode.
    pub fn keyword(&self) -> (r: &'static str)
        ensures
            r@ == self.keyword_spec(),
    {
        match self {
            Mode::UserShell => "user",
            Mode::RootShell => "root",
            Mode::NixEval => "nix",
            Mode::Xelatex => "xelatex",
            Mode::Typst => "typst",
        }
    }

    /// Whether the snippet is first written to a file in a workspace, rather
    /// than piped to a shell as it is.
    pub open spec fn is_file_based(self) -> bool {
        self is NixEval || self is Xelatex || self is Typst
    }

    /// Whether the snippet is first written to a file in a workspace.
    pub fn file_based(&self) -> (r: bool)
        ensures
            r == self.is_file_based(),
    {
        match self {
            Mode::UserShell | Mode::RootShell => false,
            Mode::NixEval | Mode::Xelatex | Mode::Typst => true,
        }
    }

    /// The mode's name as an owned text.
    pub fn to_string(&self) -> (r: String)
        ensures
            r@ == self.name_spec(),
    {
        String::from_str(self.name())
    }
}

} // verus!
