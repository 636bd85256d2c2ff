//! What a chat message asks for: the words that begin a request, the
//! snippet that follows them, and how a snippet typed in a chat is made
//! ready for a shell.

use crate::mode::Mode;
use crate::text::{chars_of, leading, lemma_leading_is, push_char, push_range};
use vstd::prelude::*;
use vstd::string::StringExecFns;

verus! {

/// How one chat platform writes its requests.
#[derive(Clone, Copy, Debug, PartialEq, Eq, Structural)]
pub struct Dialect {
    /// The character that begins every request.
    pub sigil: char,
    /// Whether `start` asks for the greeting.
    pub start: bool,
    /// Whether shell snippets are made ready for a shell before they run.
    pub preprocess: bool,
    /// Whether a message without a request word is a shell snippet where it
    /// was sent in private.
    pub private_fallback: bool,
}

impl Dialect {
    /// The requests of a Telegram chat.
    pub fn telegram() -> (r: Dialect)
        ensures
            r == (Dialect { sigil: '/', start: true, preprocess: true, private_fallback: true }),
    {
        Dialect { sigil: '/', start: true, preprocess: true, private_fallback: true }
    }

    /// The requests of a Matrix room.
    pub fn matrix() -> (r: Dialect)
        ensures
            r == (Dialect { sigil: '!', start: false, preprocess: false, private_fallback: false }),
    {
        Dialect { sigil: '!', start: false, preprocess: false, private_fallback: false }
    }
}

/// What a message asks for.
#[derive(Debug)]
pub enum Request {
    /// The greeting.
    Start,
    /// A reset of the sandbox.
    Reset,
    /// The execution of a snippet.
    Run { mode: Mode, text: String },
    /// Nothing: the message is not for the bot.
    Ignored,
}

/// What a `Request` holds, as mathematical values.
pub enum RequestView {
    Start,
    Reset,
    Run { mode: Mode, text: Seq<char> },
    Ignored,
}

impl View for Request {
    type V = RequestView;

    open spec fn view(&self) -> RequestView {
        match self {
            Request::Start => RequestView::Start,
            Request::Reset => RequestView::Reset,
            Request::Run { mode, text } => RequestView::Run { mode: *mode, text: text@ },
            Request::Ignored => RequestView::Ignored,
        }
    }
}

/// A character that the name of a bot may hold.
pub open spec fn is_name_char(c: char) -> bool {
    ('a' <= c && c <= 'z') || ('A' <= c && c <= 'Z') || c == '_'
}

/// A blank character: tab, line feed, vertical tab, form feed, carriage
/// return or space.
pub open spec fn is_blank(c: char) -> bool {
    c == '\t' || c == '\n' || c == '\x0B' || c == '\x0C' || c == '\r' || c == ' '
}

/// `is_name_char` as a value.
pub open spec fn name_chars() -> spec_fn(char) -> bool {
    |c: char| is_name_char(c)
}

/// `is_blank` as a value.
pub open spec fn blanks() -> spec_fn(char) -> bool {
    |c: char| is_blank(c)
}

/// What follows the address of a bot, where the text begins with one: an
/// `@` and at least one name character address a bot, and the address ends
/// with the last name character. Where the text begins with no address, it
/// is given back whole.
pub open spec fn skip_address(s: Seq<char>) -> Seq<char> {
    if s.len() > 0 && s[0] == '@' && leading(s.skip(1), name_chars()) > 0 {
        s.skip(1 + leading(s.skip(1), name_chars()) as int)
    } else {
        s
    }
}

/// A text without the blanks that it begins with.
pub open spec fn skip_blanks(s: Seq<char>) -> Seq<char> {
    s.skip(leading(s, blanks()) as int)
}

/// The snippet of a request: what follows the sigil, the request word, the
/// address of a bot where there is one, and blanks. A text that does not
/// begin with the sigil and the word is no such request.
pub open spec fn snippet(text: Seq<char>, sigil: char, word: Seq<char>) -> Option<Seq<char>> {
    if (seq![sigil] + word).is_prefix_of(text) {
        Some(skip_blanks(skip_address(text.skip(1 + word.len() as int))))
    } else {
        None
    }
}

/// The long dash that chat applications put in place of two hyphens.
pub open spec fn long_dash() -> char {
    '\u{2014}'
}

/// A text with two hyphens in place of every long dash.
pub open spec fn undashed(s: Seq<char>) -> Seq<char>
    decreases s.len(),
{
    if s.len() == 0 {
        Seq::empty()
    } else if s.last() == long_dash() {
        undashed(s.drop_last()).push('-').push('-')
    } else {
        undashed(s.drop_last()).push(s.last())
    }
}

/// A text that ends in a line feed: the text itself where it does, else the
/// text with one more line feed.
pub open spec fn terminated(s: Seq<char>) -> Seq<char> {
    if s.len() > 0 && s.last() == '\n' {
        s
    } else {
        s.push('\n')
    }
}

/// A snippet made ready for a shell: hyphens restored, and a line feed at
/// the end.
pub open spec fn preprocessing_spec(raw: Seq<char>) -> Seq<char> {
    terminated(undashed(raw))
}

/// A shell snippet as the dialect hands it on.
pub open spec fn shell_text(d: Dialect, s: Seq<char>) -> Seq<char> {
    if d.preprocess {
        preprocessing_spec(s)
    } else {
        s
    }
}

/// What a message asks for. The request words are tried in a fixed order;
/// the first that fits decides.
pub open spec fn parse_spec(d: Dialect, text: Seq<char>, private: bool) -> RequestView {
    if d.start && snippet(text, d.sigil, "start"@) is Some {
        RequestView::Start
    } else if snippet(text, d.sigil, "reset"@) is Some {
        RequestView::Reset
    } else if snippet(text, d.sigil, Mode::NixEval.keyword_spec()) is Some {
        RequestView::Run { mode: Mode::NixEval, text: snippet(text, d.sigil, Mode::NixEval.keyword_spec())->0 }
    } else if snippet(text, d.sigil, Mode::Xelatex.keyword_spec()) is Some {
        RequestView::Run { mode: Mode::Xelatex, text: snippet(text, d.sigil, Mode::Xelatex.keyword_spec())->0 }
    } else if snippet(text, d.sigil, Mode::Typst.keyword_spec()) is Some {
        RequestView::Run { mode: Mode::Typst, text: snippet(text, d.sigil, Mode::Typst.keyword_spec())->0 }
    } else if snippet(text, d.sigil, Mode::RootShell.keyword_spec()) is Some {
        RequestView::Run {
            mode: Mode::RootShell,
            text: shell_text(d, snippet(text, d.sigil, Mode::RootShell.keyword_spec())->0),
        }
    } else if snippet(text, d.sigil, Mode::UserShell.keyword_spec()) is Some {
        RequestView::Run {
            mode: Mode::UserShell,
            text: shell_text(d, snippet(text, d.sigil, Mode::UserShell.keyword_spec())->0),
        }
    } else if d.private_fallback && private {
        RequestView::Run { mode: Mode::UserShell, text: shell_text(d, text) }
    } else {
        RequestView::Ignored
    }
}

/// Whether a character may stand in the name of a bot.
fn name_char(c: char) -> (r: bool)
    ensures
        r == is_name_char(c),
{
    ('a' <= c && c <= 'z') || ('A' <= c && c <= 'Z') || c == '_'
}

/// Whether a character is a blank.
fn blank(c: char) -> (r: bool)
    ensures
        r == is_blank(c),
{
    c == '\t' || c == '\n' || c == '\x0B' || c == '\x0C' || c == '\r' || c == ' '
}

/// The index at which the snippet of a request begins, where the text
/// begins with the sigil and the word.
fn snippet_start(text: &Vec<char>, sigil: char, word: &str) -> (r: Option<usize>)
    ensures
        match r {
            Some(at) => at <= text.len() && snippet(text@, sigil, word@) == Some(
                text@.skip(at as int),
            ),
            None => snippet(text@, sigil, word@) is None,
        },
{
    let w = chars_of(word);
    let ghost head = seq![sigil] + w@;
    if text.len() < 1 || text.len() - 1 < w.len() {
        return None;
    }
    if text[0] != sigil {
        assert(head[0] == sigil);
        assert(text@.subrange(0, head.len() as int)[0] == text@[0]);
        return None;
    }
    let mut k: usize = 0;
    while k < w.len()
        invariant
            k <= w.len(),
            w.len() + 1 <= text.len(),
            head == seq![sigil] + w@,
            w@ == word@,
            forall|j: int| 0 <= j < k + 1 ==> text@[j] == head[j],
        decreases w.len() - k,
    {
        if text[k + 1] != w[k] {
            assert(head[k + 1] == w@[k as int]);
            assert(text@.subrange(0, head.len() as int)[k + 1] == text@[k + 1]);
            return None;
        }
        k += 1;
    }
    assert(head =~= text@.subrange(0, head.len() as int));
    // The address of a bot.
    let after_word: usize = w.len() + 1;
    let ghost tail = text@.skip(after_word as int);
    let mut at: usize = after_word;
    if at < text.len() && text[at] == '@' {
        let mut i: usize = at + 1;
        while i < text.len() && name_char(text[i])
            invariant
                at + 1 <= i <= text.len(),
                forall|j: int| at + 1 <= j < i ==> is_name_char(#[trigger] text@[j]),
            decreases text.len() - i,
        {
            i += 1;
        }
        proof {
            let names = tail.skip(1);
            assert forall|j: int| 0 <= j < i - at - 1 implies name_chars()(
                #[trigger] names[j],
            ) by {
                assert(names[j] == text@[at + 1 + j]);
            }
            if i - at - 1 < names.len() {
                assert(names[i - at - 1] == text@[i as int]);
            }
            lemma_leading_is(names, name_chars(), i - at - 1);
        }
        if i > at + 1 {
            assert(tail.skip(i - at) =~= text@.skip(i as int));
            at = i;
        }
    }
    assert(skip_address(tail) =~= text@.skip(at as int));
    let ghost addressed = text@.skip(at as int);
    let mut i: usize = at;
    while i < text.len() && blank(text[i])
        invariant
            at <= i <= text.len(),
            forall|j: int| at <= j < i ==> is_blank(#[trigger] text@[j]),
        decreases text.len() - i,
    {
        i += 1;
    }
    proof {
        assert forall|j: int| 0 <= j < i - at implies blanks()(#[trigger] addressed[j]) by {
            assert(addressed[j] == text@[at + j]);
        }
        if i - at < addressed.len() {
            assert(addressed[i - at] == text@[i as int]);
        }
        lemma_leading_is(addressed, blanks(), i - at);
        assert(addressed.skip(i - at) =~= text@.skip(i as int));
    }
    Some(i)
}

/// The text from index `at` on.
fn rest_of(text: &Vec<char>, at: usize) -> (r: String)
    requires
        at <= text.len(),
    ensures
        r@ == text@.skip(at as int),
{
    let mut out = String::new();
    push_range(&mut out, text, at, text.len());
    assert(out@ =~= text@.skip(at as int));
    out
}

/// A snippet made ready for a shell: two hyphens stand in place of every
/// long dash, and the text ends in a line feed.
pub fn preprocessing(raw: &str) -> (r: String)
    ensures
        r@ == preprocessing_spec(raw@),
{
    let v = chars_of(raw);
    let mut out = String::new();
    let mut last: char = ' ';
    let mut i: usize = 0;
    while i < v.len()
        invariant
            i <= v.len(),
            out@ == undashed(v@.take(i as int)),
            i > 0 ==> out@.len() > 0 && out@.last() == last,
            i == 0 ==> out@.len() == 0,
        decreases v.len() - i,
    {
        proof {
            assert(v@.take(i + 1).drop_last() =~= v@.take(i as int));
            assert(v@.take(i + 1).last() == v@[i as int]);
        }
        if v[i] == '\u{2014}' {
            push_char(&mut out, '-');
            push_char(&mut out, '-');
            last = '-';
        } else {
            push_char(&mut out, v[i]);
            last = v[i];
        }
        i += 1;
    }
    assert(v@.take(v.len() as int) =~= v@);
    if v.len() == 0 || last != '\n' {
        push_char(&mut out, '\n');
    }
    out
}

/// A shell snippet as the dialect hands it on.
fn shell_snippet(d: Dialect, text: &Vec<char>, at: usize) -> (r: String)
    requires
        at <= text.len(),
    ensures
        r@ == shell_text(d, text@.skip(at as int)),
{
    let rest = rest_of(text, at);
    if d.preprocess {
        preprocessing(rest.as_str())
    } else {
        rest
    }
}

/// What a message asks for.
pub fn parse(d: Dialect, text: &str, private: bool) -> (r: Request)
    ensures
        r@ == parse_spec(d, text@, private),
{
    let v = chars_of(text);
    if d.start {
        match snippet_start(&v, d.sigil, "start") {
            Some(_) => {
                return Request::Start;
            },
            None => {},
        }
    }
    match snippet_start(&v, d.sigil, "reset") {
        Some(_) => {
            return Request::Reset;
        },
        None => {},
    }
    match snippet_start(&v, d.sigil, Mode::NixEval.keyword()) {
        Some(at) => {
            return Request::Run { mode: Mode::NixEval, text: rest_of(&v, at) };
        },
        None => {},
    }
    match snippet_start(&v, d.sigil, Mode::Xelatex.keyword()) {
        Some(at) => {
            return Request::Run { mode: Mode::Xelatex, text: rest_of(&v, at) };
        },
        None => {},
    }
    match snippet_start(&v, d.sigil, Mode::Typst.keyword()) {
        Some(at) => {
            return Request::Run { mode: Mode::Typst, text: rest_of(&v, at) };
        },
        None => {},
    }
    match snippet_start(&v, d.sigil, Mode::RootShell.keyword()) {
        Some(at) => {
            return Request::Run { mode: Mode::RootShell, text: shell_snippet(d, &v, at) };
        },
        None => {},
    }
    match snippet_start(&v, d.sigil, Mode::UserShell.keyword()) {
        Some(at) => {
            return Request::Run { mode: Mode::UserShell, text: shell_snippet(d, &v, at) };
        },
        None => {},
    }
    if d.private_fallback && private {
        assert(v@.skip(0) =~= v@);
        return Request::Run { mode: Mode::UserShell, text: shell_snippet(d, &v, 0) };
    }
    Request::Ignored
}

} // verus!
