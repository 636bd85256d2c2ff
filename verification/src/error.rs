//! The ways in which a request can fail before or while it is executed.

use crate::mode::Mode;
use vstd::prelude::*;
use vstd::string::StringExecFns;

verus! {

/// Why a request was not executed, or why the dispatcher could not be built.
#[derive(Debug)]
pub enum AceError {
    /// The operating system refused to spawn, pipe, read or write; the text
    /// is its own description of the failure.
    Io(String),
    /// A runner was handed a mode that it does not run.
    InvalidMode(Mode),
    /// A workspace does not lie below the staging directory, so that it has
    /// no place inside the sandbox.
    PathTranslation { path: String, root: String },
    /// The configured user does not exist; the text is the user's name.
    MissingUser(String),
    /// The configured group does not exist; the text is the group's name.
    MissingGroup(String),
}

/// What an `AceError` holds, as mathematical values.
pub enum AceErrorView {
    Io(Seq<char>),
    InvalidMode(Mode),
    PathTranslation { path: Seq<char>, root: Seq<char> },
    MissingUser(Seq<char>),
    MissingGroup(Seq<char>),
}

impl View for AceError {
    type V = AceErrorView;

    open spec fn view(&self) -> AceErrorView {
        match self {
            AceError::Io(e) => AceErrorView::Io(e@),
            AceError::InvalidMode(m) => AceErrorView::InvalidMode(*m),
            AceError::PathTranslation { path, root } => AceErrorView::PathTranslation {
                path: path@,
                root: root@,
            },
            AceError::MissingUser(n) => AceErrorView::MissingUser(n@),
            AceError::MissingGroup(n) => AceErrorView::MissingGroup(n@),
        }
    }
}

impl AceErrorView {
    /// The sentence that is relayed to whoever sent the request.
    pub open spec fn message(self) -> Seq<char> {
        match self {
            AceErrorView::Io(e) => "io error: "@ + e,
            AceErrorView::InvalidMode(m) => "invalid mode: "@ + m.name_spec(),
            AceErrorView::PathTranslation { path, root } => "can not strip temporary file path: "@
                + path + " is not below "@ + root,
            AceErrorView::MissingUser(n) => "missing user: "@ + n,
            AceErrorView::MissingGroup(n) => "missing group: "@ + n,
        }
    }
}

impl AceError {
    /// The sentence that is relayed to whoever sent the request.
    pub fn message(&self) -> (r: String)
        ensures
            r@ == self@.message(),
    {
        match self {
            AceError::Io(e) => String::from_str("io error: ").concat(e.as_str()),
            AceError::InvalidMode(m) => String::from_str("invalid mode: ").concat(m.name()),
            AceError::PathTranslation { path, root } => {
                let mut out = String::from_str("can not strip temporary file path: ");
                out.append(path.as_str());
                out.append(" is not below ");
                out.append(root.as_str());
                out
            },
            AceError::MissingUser(n) => String::from_str("missing user: ").concat(n.as_str()),
            AceError::MissingGroup(n) => String::from_str("missing group: ").concat(n.as_str()),
        }
    }
}

} // verus!
