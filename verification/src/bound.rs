//! How long a message can get. Everything that a message shows is either
//! short by construction or cut off by the two limits, so that the length of
//! a message is bounded by the length of the sender's name and of the paste
//! commands that it was handed.

use crate::markdown::{escaped_by, is_code_special, is_special};
use crate::mode::Mode;
use crate::output::{
    block, block_line, command_section, command_size, header_spec, marked, message_spec,
    mode_words, stream_section, stream_size, ExitStatus, Size, Stream, Transport, UploadsView,
    PART_LIMIT,
};
use crate::text::{
    byte_len, decimal, is_space, lemma_leading, signed_decimal, spaces, trailing_spaces, trim,
    trim_start,
};
use vstd::prelude::*;
use vstd::utf8::*;

verus! {

/// Escaping at most doubles the length of a text.
pub proof fn lemma_escaped_len(s: Seq<char>, special: spec_fn(char) -> bool)
    ensures
        s.len() <= escaped_by(s, special).len() <= 2 * s.len(),
    decreases s.len(),
{
    if s.len() > 0 {
        lemma_escaped_len(s.drop_last(), special);
    }
}

/// A text ends in no more white space than it holds characters.
pub proof fn lemma_trailing_spaces_bound(s: Seq<char>)
    ensures
        trailing_spaces(s) <= s.len(),
    decreases s.len(),
{
    if s.len() > 0 && is_space(s.last()) {
        lemma_trailing_spaces_bound(s.drop_last());
    }
}

/// Trimming does not make a text longer.
pub proof fn lemma_trim_len(s: Seq<char>)
    ensures
        trim(s).len() <= s.len(),
{
    lemma_leading(s, spaces());
    lemma_trailing_spaces_bound(trim_start(s));
}

/// A text has no more characters than its encoding has bytes.
pub proof fn lemma_chars_within_bytes(s: Seq<char>)
    ensures
        s.len() <= byte_len(s),
    decreases s.len(),
{
    if s.len() > 0 {
        lemma_chars_within_bytes(s.drop_first());
        assert(encode_scalar(s[0] as u32).len() >= 1);
    }
}

/// Well-formed bytes decode to no more characters than there are bytes.
pub proof fn lemma_decoded_len(bytes: Seq<u8>)
    requires
        valid_utf8(bytes),
    ensures
        decode_utf8(bytes).len() <= bytes.len(),
{
    decode_utf8_encode_utf8(bytes);
    lemma_chars_within_bytes(decode_utf8(bytes));
}

/// Ten to the power of `k`.
pub open spec fn pow10(k: nat) -> nat
    decreases k,
{
    if k == 0 {
        1
    } else {
        10 * pow10((k - 1) as nat)
    }
}

/// A number below the `k`-th power of ten has at most `k` digits.
pub proof fn lemma_decimal_len(n: nat, k: nat)
    requires
        k >= 1,
        n < pow10(k),
    ensures
        1 <= decimal(n).len() <= k,
    decreases k,
{
    if n >= 10 {
        assert(pow10(1) == 10) by {
            reveal_with_fuel(pow10, 2);
        }
        assert(k >= 2);
        assert(n / 10 < pow10((k - 1) as nat));
        lemma_decimal_len(n / 10, (k - 1) as nat);
    }
}

/// The line that reports a status has at most twenty-four characters.
pub proof fn lemma_status_len(status: ExitStatus)
    ensures
        status.text_spec().len() <= 24,
{
    reveal_strlit("exit status: ");
    reveal_strlit("signal: ");
    assert(pow10(10) == 10000000000nat) by {
        reveal_with_fuel(pow10, 11);
    }
    let i: int = match status {
        ExitStatus::Exited(code) => code as int,
        ExitStatus::Signaled(signal) => signal as int,
    };
    if i < 0 {
        lemma_decimal_len((-i) as nat, 10);
    } else {
        lemma_decimal_len(i as nat, 10);
    }
    assert(signed_decimal(i).len() <= 11);
}

/// What a text of `n` characters takes at most where it is shown as code.
pub open spec fn cap(t: Transport, n: int) -> int {
    if t.markdown {
        2 * n + 8
    } else {
        n + 1
    }
}

/// The most characters that one part of a message shows of its content:
/// what stays below the limit for inlined text, a paste command of at most
/// `paste` characters, or the notice.
pub open spec fn widest(paste: int) -> int {
    if paste > PART_LIMIT - 1 {
        paste
    } else {
        PART_LIMIT - 1
    }
}

/// The most characters that a message has, for a sender's name of `user`
/// characters and paste commands of at most `paste` characters each.
pub open spec fn message_bound(t: Transport, user: int, paste: int) -> int {
    user + 126 + 3 * cap(t, widest(paste))
}

/// Whether every paste command that was handed over has at most `paste`
/// characters.
pub open spec fn pastes_within(uploads: UploadsView, paste: int) -> bool {
    &&& uploads.command matches Some(p) ==> p.len() <= paste
    &&& uploads.stdout matches Some(p) ==> p.len() <= paste
    &&& uploads.stderr matches Some(p) ==> p.len() <= paste
}

proof fn lemma_block_len(t: Transport, s: Seq<char>)
    ensures
        block(t, s).len() <= cap(t, s.len() as int),
        block_line(t, s).len() <= cap(t, s.len() as int),
        marked(t, s).len() <= 2 * s.len(),
{
    reveal_strlit("```\n");
    reveal_strlit("\n```");
    reveal_strlit("\n");
    lemma_escaped_len(s, |c: char| is_code_special(c));
    lemma_escaped_len(s, |c: char| is_special(c));
}

proof fn lemma_header_len(t: Transport, user: Seq<char>, mode: Option<Mode>)
    ensures
        header_spec(t, user, mode).len() <= user.len() + 24,
{
    reveal_strlit(" (");
    reveal_strlit(")");
    reveal_strlit(":\n");
    reveal_strlit("meta");
    reveal_strlit("non-root");
    reveal_strlit("root");
    reveal_strlit("nix");
    reveal_strlit("xelatex");
    reveal_strlit("typst");
    assert(mode_words(mode).len() <= 11);
    lemma_block_len(t, mode_words(mode));
}

proof fn lemma_command_len(t: Transport, command: Seq<char>, upload: Option<Seq<char>>, paste: int)
    requires
        upload matches Some(p) ==> p.len() <= paste,
    ensures
        command_section(t, command, upload).len() <= cap(t, widest(paste)),
{
    reveal_strlit("file size limit exceeded");
    reveal_strlit("\n");
    match command_size(command) {
        Size::Inline => {
            lemma_trim_len(command);
            lemma_chars_within_bytes(command);
            lemma_block_len(t, trim(command));
        },
        Size::Artifact => {
            if !t.attachments {
                match upload {
                    Some(p) => {
                        lemma_block_len(t, p);
                    },
                    None => {},
                }
            }
        },
        Size::TooLarge => {},
    }
}

proof fn lemma_stream_len(
    t: Transport,
    stream: Stream,
    bytes: Seq<u8>,
    upload: Option<Seq<char>>,
    paste: int,
)
    requires
        upload matches Some(p) ==> p.len() <= paste,
    ensures
        stream_section(t, stream, bytes, upload).len() <= 27 + cap(t, widest(paste)),
{
    reveal_strlit("file size limit exceeded");
    reveal_strlit("attached");
    reveal_strlit("\n");
    reveal_strlit("(stdout)");
    reveal_strlit("(stderr)");
    if bytes.len() > 0 {
        lemma_block_len(t, stream.label_spec());
        match stream_size(bytes) {
            Size::Inline => {
                lemma_decoded_len(bytes);
                lemma_block_len(t, decode_utf8(bytes));
            },
            Size::Artifact => {
                match upload {
                    Some(p) => {
                        lemma_block_len(t, p);
                    },
                    None => {},
                }
            },
            Size::TooLarge => {},
        }
    }
}

/// A message is bounded: whatever a process printed, the message that
/// reports it has at most `message_bound` characters. Without paste
/// commands that is the length of the sender's name and 3126 characters
/// more for plain text.
pub proof fn lemma_message_bounded(
    t: Transport,
    user: Seq<char>,
    mode: Option<Mode>,
    command: Seq<char>,
    status: ExitStatus,
    stdout: Seq<u8>,
    stderr: Seq<u8>,
    uploads: UploadsView,
    paste: int,
)
    requires
        pastes_within(uploads, paste),
    ensures
        message_spec(t, user, mode, command, status, stdout, stderr, uploads).len()
            <= message_bound(t, user.len() as int, paste),
        !t.markdown && paste <= PART_LIMIT - 1 ==> message_bound(t, user.len() as int, paste)
            == user.len() + 3126,
{
    lemma_header_len(t, user, mode);
    lemma_command_len(t, command, uploads.command, paste);
    lemma_status_len(status);
    lemma_block_len(t, status.text_spec());
    lemma_stream_len(t, Stream::Stdout, stdout, uploads.stdout, paste);
    lemma_stream_len(t, Stream::Stderr, stderr, uploads.stderr, paste);
}

} // verus!
