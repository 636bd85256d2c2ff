//! Telegram's MarkdownV2: which characters are escaped, and how a code block
//! and a link are written. The escaping itself is teloxide's.

use vstd::prelude::*;

verus! {

/// A character with a meaning of its own in MarkdownV2.
pub open spec fn is_special(c: char) -> bool {
    c == '\\' || c == '_' || c == '*' || c == '[' || c == ']' || c == '(' || c == ')' || c == '~'
        || c == '`' || c == '>' || c == '#' || c == '+' || c == '-' || c == '=' || c == '|' || c
        == '{' || c == '}' || c == '.' || c == '!'
}

/// A character with a meaning of its own inside a code block.
pub open spec fn is_code_special(c: char) -> bool {
    c == '`' || c == '\\'
}

/// A character with a meaning of its own inside the address of a link.
pub open spec fn is_link_special(c: char) -> bool {
    c == '`' || c == ')'
}

/// A text in which a backslash stands before every character that `special`
/// holds of.
pub open spec fn escaped_by(s: Seq<char>, special: spec_fn(char) -> bool) -> Seq<char>
    decreases s.len(),
{
    if s.len() == 0 {
        Seq::empty()
    } else if special(s.last()) {
        escaped_by(s.drop_last(), special).push('\\').push(s.last())
    } else {
        escaped_by(s.drop_last(), special).push(s.last())
    }
}

/// A text that MarkdownV2 shows as it is.
pub open spec fn escaped(s: Seq<char>) -> Seq<char> {
    escaped_by(s, |c: char| is_special(c))
}

/// A text that a code block shows as it is.
pub open spec fn escaped_code(s: Seq<char>) -> Seq<char> {
    escaped_by(s, |c: char| is_code_special(c))
}

/// An address that a link takes as it is.
pub open spec fn escaped_link_url(s: Seq<char>) -> Seq<char> {
    escaped_by(s, |c: char| is_link_special(c))
}

/// A code block that shows `code`.
pub open spec fn code_block_spec(code: Seq<char>) -> Seq<char> {
    "```\n"@ + escaped_code(code) + "\n```"@
}

/// A link to `url` that reads `text`; `text` is markup and is not escaped.
pub open spec fn link_spec(url: Seq<char>, text: Seq<char>) -> Seq<char> {
    "["@ + text + "]("@ + escaped_link_url(url) + ")"@
}

/// `teloxide::utils::markdown::escape`: the text with a backslash before each
/// of MarkdownV2's special characters, and nothing else changed.
#[verifier::external_body]
pub(crate) fn escape(s: &str) -> (r: String)
    ensures
        r@ == escaped(s@),
{
    teloxide::utils::markdown::escape(s)
}

/// `teloxide::utils::markdown::code_block`: the text between two fences of
/// three backticks, each on a line of its own, with a backslash before each
/// backtick and backslash of the text.
#[verifier::external_body]
pub(crate) fn code_block(code: &str) -> (r: String)
    ensures
        r@ == code_block_spec(code@),
{
    teloxide::utils::markdown::code_block(code)
}

/// `teloxide::utils::markdown::link`: the text in square brackets, then the
/// address in round brackets with a backslash before each backtick and
/// closing bracket of the address.
#[verifier::external_body]
pub(crate) fn link(url: &str, text: &str) -> (r: String)
    ensures
        r@ == link_spec(url@, text@),
{
    teloxide::utils::markdown::link(url, text)
}

} // verus!
