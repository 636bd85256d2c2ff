//! What a finished execution is turned into: one bounded message, and the
//! files that go with it.

use crate::markdown::{code_block, code_block_spec, escape, escaped};
use crate::mode::Mode;
use crate::text::{
    byte_len, decode, option_view, push_signed_decimal, signed_decimal, trim, trimmed,
};
use vstd::prelude::*;
use vstd::string::{StrSliceExecFns, StringExecFns};
use vstd::utf8::*;

verus! {

/// A text or stream of fewer bytes than this is shown inline.
pub const PART_LIMIT: usize = 1000;

/// A text or stream of fewer bytes than this can still be handed on as a
/// file or a paste.
pub const FILE_LIMIT: usize = 1048576;

/// How a sandboxed process ended.
#[derive(Clone, Copy, Debug, PartialEq, Eq, Structural)]
pub enum ExitStatus {
    /// It exited with this code.
    Exited(i32),
    /// This signal ended it.
    Signaled(i32),
}

impl ExitStatus {
    /// The line that reports the status.
    pub open spec fn text_spec(self) -> Seq<char> {
        match self {
            ExitStatus::Exited(code) => "exit status: "@ + signed_decimal(code as int),
            ExitStatus::Signaled(signal) => "signal: "@ + signed_decimal(signal as int),
        }
    }

    /// The line that reports the status.
    pub fn text(&self) -> (r: String)
        ensures
            r@ == self.text_spec(),
    {
        match self {
            ExitStatus::Exited(code) => {
                let mut out = String::from_str("exit status: ");
                push_signed_decimal(&mut out, *code as i64);
                out
            },
            ExitStatus::Signaled(signal) => {
                let mut out = String::from_str("signal: ");
                push_signed_decimal(&mut out, *signal as i64);
                out
            },
        }
    }

    /// Whether the process exited with code zero.
    pub fn success(&self) -> (r: bool)
        ensures
            r == (*self == ExitStatus::Exited(0)),
    {
        match self {
            ExitStatus::Exited(code) => *code == 0,
            ExitStatus::Signaled(_) => false,
        }
    }
}

/// What a sandboxed process left behind.
#[derive(Debug)]
pub struct ExecutionResult {
    pub status: ExitStatus,
    pub stdout: Vec<u8>,
    pub stderr: Vec<u8>,
}

/// What an `ExecutionResult` holds, as mathematical values.
pub struct ExecutionResultView {
    pub status: ExitStatus,
    pub stdout: Seq<u8>,
    pub stderr: Seq<u8>,
}

impl View for ExecutionResult {
    type V = ExecutionResultView;

    open spec fn view(&self) -> ExecutionResultView {
        ExecutionResultView { status: self.status, stdout: self.stdout@, stderr: self.stderr@ }
    }
}

/// What the chat platform at the other end can take.
#[derive(Clone, Copy, Debug, PartialEq, Eq, Structural)]
pub struct Transport {
    /// The message is MarkdownV2: plain text is escaped and code stands in
    /// code blocks.
    pub markdown: bool,
    /// Files can be sent along with the message.
    pub attachments: bool,
}

impl Transport {
    /// Plain text without files, as a Matrix room takes it.
    pub fn matrix() -> (r: Transport)
        ensures
            r == (Transport { markdown: false, attachments: false }),
    {
        Transport { markdown: false, attachments: false }
    }

    /// MarkdownV2 with files, as a Telegram chat takes it.
    pub fn telegram() -> (r: Transport)
        ensures
            r == (Transport { markdown: true, attachments: true }),
    {
        Transport { markdown: true, attachments: true }
    }
}

/// What becomes of a text or a stream, by its size.
#[derive(Clone, Copy, Debug, PartialEq, Eq, Structural)]
pub enum Size {
    /// It is shown in the message.
    Inline,
    /// It is handed on as a file or a paste.
    Artifact,
    /// It is dropped, and the message says so.
    TooLarge,
}

/// What becomes of the command text.
pub open spec fn command_size(command: Seq<char>) -> Size {
    if byte_len(command) < PART_LIMIT {
        Size::Inline
    } else if byte_len(command) < FILE_LIMIT {
        Size::Artifact
    } else {
        Size::TooLarge
    }
}

/// What becomes of an output stream that is not empty.
pub open spec fn stream_size(bytes: Seq<u8>) -> Size {
    if bytes.len() < PART_LIMIT && valid_utf8(bytes) {
        Size::Inline
    } else if bytes.len() < FILE_LIMIT {
        Size::Artifact
    } else {
        Size::TooLarge
    }
}

/// What becomes of the command text.
pub fn classify_command(command: &str) -> (r: Size)
    ensures
        r == command_size(command@),
{
    let n: usize = command.as_bytes().len();
    if n < PART_LIMIT {
        Size::Inline
    } else if n < FILE_LIMIT {
        Size::Artifact
    } else {
        Size::TooLarge
    }
}

/// The three things that a message can hold too much of.
#[derive(Clone, Copy, Debug, PartialEq, Eq, Structural)]
pub enum Slot {
    Command,
    Stdout,
    Stderr,
}

impl Slot {
    /// The name under which a slot's content is pasted.
    pub open spec fn paste_name_spec(self) -> Seq<char> {
        match self {
            Slot::Command => "command"@,
            Slot::Stdout => "stdout"@,
            Slot::Stderr => "stderr"@,
        }
    }

    /// The name under which a slot's content is pasted.
    pub fn paste_name(&self) -> (r: &'static str)
        ensures
            r@ == self.paste_name_spec(),
    {
        match self {
            Slot::Command => "command",
            Slot::Stdout => "stdout",
            Slot::Stderr => "stderr",
        }
    }

    /// The name of the file that carries a slot's content.
    pub open spec fn file_name_spec(self) -> Seq<char> {
        match self {
            Slot::Command => "script"@,
            Slot::Stdout => "stdout"@,
            Slot::Stderr => "stderr"@,
        }
    }

    /// The name of the file that carries a slot's content.
    pub fn file_name(&self) -> (r: &'static str)
        ensures
            r@ == self.file_name_spec(),
    {
        match self {
            Slot::Command => "script",
            Slot::Stdout => "stdout",
            Slot::Stderr => "stderr",
        }
    }

}

/// The two output streams of a process.
#[derive(Clone, Copy, Debug, PartialEq, Eq, Structural)]
pub enum Stream {
    Stdout,
    Stderr,
}

impl Stream {
    /// The slot that holds what there is too much of in this stream.
    pub open spec fn slot_spec(self) -> Slot {
        match self {
            Stream::Stdout => Slot::Stdout,
            Stream::Stderr => Slot::Stderr,
        }
    }

    /// The slot that holds what there is too much of in this stream.
    pub fn slot(&self) -> (r: Slot)
        ensures
            r == self.slot_spec(),
    {
        match self {
            Stream::Stdout => Slot::Stdout,
            Stream::Stderr => Slot::Stderr,
        }
    }

    /// The line that announces the stream.
    pub open spec fn label_spec(self) -> Seq<char> {
        match self {
            Stream::Stdout => "(stdout)"@,
            Stream::Stderr => "(stderr)"@,
        }
    }

    /// The line that announces the stream.
    pub fn label(&self) -> (r: &'static str)
        ensures
            r@ == self.label_spec(),
    {
        match self {
            Stream::Stdout => "(stdout)",
            Stream::Stderr => "(stderr)",
        }
    }
}

/// The sentence that stands in for content that was dropped.
pub open spec fn notice_spec() -> Seq<char> {
    "file size limit exceeded"@
}

/// The sentence that stands in for content that was dropped.
pub fn notice() -> (r: &'static str)
    ensures
        r@ == notice_spec(),
{
    "file size limit exceeded"
}

/// The sentence that says that a file goes with the message.
pub open spec fn attached_spec() -> Seq<char> {
    "attached"@
}

/// A file that goes with a message.
#[derive(Debug)]
pub struct Document {
    pub file_name: String,
    pub data: Vec<u8>,
}

/// What a `Document` holds, as mathematical values.
pub struct DocumentView {
    pub file_name: Seq<char>,
    pub data: Seq<u8>,
}

impl View for Document {
    type V = DocumentView;

    open spec fn view(&self) -> DocumentView {
        DocumentView { file_name: self.file_name@, data: self.data@ }
    }
}

/// The views of a list of documents, in order.
pub open spec fn documents_view(docs: Seq<Document>) -> Seq<DocumentView> {
    docs.map_values(|d: Document| d@)
}

/// A message for a chat, and the files that go with it.
#[derive(Debug)]
pub struct OutputMessage {
    pub message: String,
    pub documents: Vec<Document>,
}

/// What came of the uploads to the paste service: for each slot the command
/// that fetches the paste, where one was made.
#[derive(Debug)]
pub struct Uploads {
    pub command: Option<String>,
    pub stdout: Option<String>,
    pub stderr: Option<String>,
}

/// What an `Uploads` holds, as mathematical values.
pub struct UploadsView {
    pub command: Option<Seq<char>>,
    pub stdout: Option<Seq<char>>,
    pub stderr: Option<Seq<char>>,
}

impl View for Uploads {
    type V = UploadsView;

    open spec fn view(&self) -> UploadsView {
        UploadsView {
            command: option_view(self.command),
            stdout: option_view(self.stdout),
            stderr: option_view(self.stderr),
        }
    }
}

impl UploadsView {
    /// What came of the upload for one slot.
    pub open spec fn get(self, slot: Slot) -> Option<Seq<char>> {
        match slot {
            Slot::Command => self.command,
            Slot::Stdout => self.stdout,
            Slot::Stderr => self.stderr,
        }
    }

    /// The same outcomes, with that of one slot replaced.
    pub open spec fn set(self, slot: Slot, outcome: Option<Seq<char>>) -> UploadsView {
        match slot {
            Slot::Command => UploadsView { command: outcome, ..self },
            Slot::Stdout => UploadsView { stdout: outcome, ..self },
            Slot::Stderr => UploadsView { stderr: outcome, ..self },
        }
    }
}

impl Uploads {
    /// No upload was made.
    pub fn none() -> (r: Uploads)
        ensures
            r@ == (UploadsView { command: None, stdout: None, stderr: None }),
    {
        Uploads { command: None, stdout: None, stderr: None }
    }

    /// Records what came of the upload for one slot.
    pub fn record(&mut self, slot: Slot, outcome: Option<String>)
        ensures
            final(self)@ == old(self)@.set(slot, option_view(outcome)),
    {
        match slot {
            Slot::Command => {
                self.command = outcome;
            },
            Slot::Stdout => {
                self.stdout = outcome;
            },
            Slot::Stderr => {
                self.stderr = outcome;
            },
        }
    }
}

/// Something to hand to the paste service before the message is written.
#[derive(Debug)]
pub struct UploadRequest {
    pub slot: Slot,
    pub file_name: String,
    pub data: Vec<u8>,
}

/// What an `UploadRequest` holds, as mathematical values.
pub struct UploadRequestView {
    pub slot: Slot,
    pub file_name: Seq<char>,
    pub data: Seq<u8>,
}

impl View for UploadRequest {
    type V = UploadRequestView;

    open spec fn view(&self) -> UploadRequestView {
        UploadRequestView { slot: self.slot, file_name: self.file_name@, data: self.data@ }
    }
}

/// The views of a list of upload requests, in order.
pub open spec fn requests_view(requests: Seq<UploadRequest>) -> Seq<UploadRequestView> {
    requests.map_values(|r: UploadRequest| r@)
}

/// Whether the command text is pasted: it is too long to show, short enough
/// to hand on, and cannot go as a file.
pub open spec fn command_uploaded(t: Transport, command: Seq<char>) -> bool {
    !t.attachments && command_size(command) == Size::Artifact
}

/// Whether a stream is pasted: it is not empty, cannot be shown, and is
/// short enough to hand on.
pub open spec fn stream_uploaded(bytes: Seq<u8>) -> bool {
    bytes.len() > 0 && stream_size(bytes) == Size::Artifact
}

/// The request that pastes a slot's content.
pub open spec fn request_for(slot: Slot, data: Seq<u8>) -> UploadRequestView {
    UploadRequestView { slot, file_name: slot.paste_name_spec(), data }
}

/// The uploads to make for one execution, in the order command, standard
/// output, standard error.
pub open spec fn upload_requests_spec(
    t: Transport,
    command: Seq<char>,
    stdout: Seq<u8>,
    stderr: Seq<u8>,
) -> Seq<UploadRequestView> {
    (if command_uploaded(t, command) {
        seq![request_for(Slot::Command, encode_utf8(command))]
    } else {
        Seq::empty()
    }) + (if stream_uploaded(stdout) {
        seq![request_for(Slot::Stdout, stdout)]
    } else {
        Seq::empty()
    }) + (if stream_uploaded(stderr) {
        seq![request_for(Slot::Stderr, stderr)]
    } else {
        Seq::empty()
    })
}

/// A text as the message shows it outside code: escaped where the message is
/// MarkdownV2.
pub open spec fn marked(t: Transport, s: Seq<char>) -> Seq<char> {
    if t.markdown {
        escaped(s)
    } else {
        s
    }
}

/// A text as the message shows it as code: in a code block where the message
/// is MarkdownV2.
pub open spec fn block(t: Transport, s: Seq<char>) -> Seq<char> {
    if t.markdown {
        code_block_spec(s)
    } else {
        s
    }
}

/// A text as the message shows it as code on a line of its own, so that
/// plain text can follow.
pub open spec fn block_line(t: Transport, s: Seq<char>) -> Seq<char> {
    if t.markdown {
        code_block_spec(s)
    } else {
        s + "\n"@
    }
}

/// The words in brackets that say how the snippet was run; "meta" stands for
/// an action that ran no snippet.
pub open spec fn mode_words(mode: Option<Mode>) -> Seq<char> {
    " ("@ + (match mode {
        Some(m) => m.name_spec(),
        None => "meta"@,
    }) + ")"@
}

/// The line that names who sent the request and how it was run. The sender
/// is markup already and is taken as it is.
pub open spec fn header_spec(t: Transport, user: Seq<char>, mode: Option<Mode>) -> Seq<char> {
    user + marked(t, mode_words(mode)) + ":\n"@
}

/// The part of the message that shows the command.
pub open spec fn command_section(t: Transport, command: Seq<char>, upload: Option<Seq<char>>) -> Seq<
    char,
> {
    match command_size(command) {
        Size::Inline => block_line(t, trim(command)),
        Size::Artifact => if t.attachments {
            Seq::empty()
        } else {
            match upload {
                Some(paste) => block_line(t, paste),
                None => notice_spec() + "\n"@,
            }
        },
        Size::TooLarge => notice_spec() + "\n"@,
    }
}

/// The part of the message that shows one output stream.
pub open spec fn stream_section(
    t: Transport,
    stream: Stream,
    bytes: Seq<u8>,
    upload: Option<Seq<char>>,
) -> Seq<char> {
    if bytes.len() == 0 {
        Seq::empty()
    } else {
        "\n"@ + marked(t, stream.label_spec()) + (match stream_size(bytes) {
            Size::Inline => "\n"@ + block(t, decode_utf8(bytes)),
            Size::Artifact => if t.attachments {
                "\n"@ + attached_spec() + (match upload {
                    Some(paste) => "\n"@ + block(t, paste),
                    None => Seq::empty(),
                })
            } else {
                match upload {
                    Some(paste) => "\n"@ + block(t, paste),
                    None => "\n"@ + notice_spec(),
                }
            },
            Size::TooLarge => "\n"@ + notice_spec(),
        })
    }
}

/// The whole text of the message.
pub open spec fn message_spec(
    t: Transport,
    user: Seq<char>,
    mode: Option<Mode>,
    command: Seq<char>,
    status: ExitStatus,
    stdout: Seq<u8>,
    stderr: Seq<u8>,
    uploads: UploadsView,
) -> Seq<char> {
    header_spec(t, user, mode) + command_section(t, command, uploads.command) + marked(
        t,
        status.text_spec(),
    ) + stream_section(t, Stream::Stdout, stdout, uploads.stdout) + stream_section(
        t,
        Stream::Stderr,
        stderr,
        uploads.stderr,
    )
}

/// Whether the command text goes along as a file.
pub open spec fn command_attached(t: Transport, command: Seq<char>) -> bool {
    t.attachments && command_size(command) == Size::Artifact
}

/// Whether a stream goes along as a file.
pub open spec fn stream_attached(t: Transport, bytes: Seq<u8>) -> bool {
    t.attachments && bytes.len() > 0 && stream_size(bytes) == Size::Artifact
}

/// The file that carries a slot's content.
pub open spec fn document_for(slot: Slot, data: Seq<u8>) -> DocumentView {
    DocumentView { file_name: slot.file_name_spec(), data }
}

/// The files that go with the message, in the order command, standard
/// output, standard error.
pub open spec fn documents_spec(
    t: Transport,
    command: Seq<char>,
    stdout: Seq<u8>,
    stderr: Seq<u8>,
) -> Seq<DocumentView> {
    (if command_attached(t, command) {
        seq![document_for(Slot::Command, encode_utf8(command))]
    } else {
        Seq::empty()
    }) + (if stream_attached(t, stdout) {
        seq![document_for(Slot::Stdout, stdout)]
    } else {
        Seq::empty()
    }) + (if stream_attached(t, stderr) {
        seq![document_for(Slot::Stderr, stderr)]
    } else {
        Seq::empty()
    })
}

/// A copy of some bytes.
fn copy_bytes(bytes: &Vec<u8>) -> (r: Vec<u8>)
    ensures
        r@ == bytes@,
{
    let r = bytes.clone();
    assert(r@ =~= bytes@);
    r
}

/// What becomes of an output stream that is not empty, and its text where it
/// is shown inline.
pub fn classify_stream(bytes: &Vec<u8>) -> (r: (Size, Option<String>))
    ensures
        r.0 == stream_size(bytes@),
        r.0 == Size::Inline <==> r.1 is Some,
        r.1 matches Some(text) ==> text@ == decode_utf8(bytes@),
{
    let n: usize = bytes.len();
    if n < PART_LIMIT {
        match decode(copy_bytes(bytes)) {
            Some(text) => {
                proof {
                    encode_utf8_decode_utf8(text@);
                }
                return (Size::Inline, Some(text));
            },
            None => {},
        }
    }
    if n < FILE_LIMIT {
        (Size::Artifact, None)
    } else {
        (Size::TooLarge, None)
    }
}

/// The uploads to make for one execution before its message is written.
pub fn upload_requests(t: Transport, command: &str, result: &ExecutionResult) -> (r: Vec<
    UploadRequest,
>)
    ensures
        requests_view(r@) == upload_requests_spec(t, command@, result.stdout@, result.stderr@),
{
    let mut out: Vec<UploadRequest> = Vec::new();
    assert(requests_view(out@) =~= Seq::empty());
    if !t.attachments {
        match classify_command(command) {
            Size::Artifact => {
                let ghost before = out@;
                out.push(
                    UploadRequest {
                        slot: Slot::Command,
                        file_name: String::from_str(Slot::Command.paste_name()),
                        data: command.as_bytes_vec(),
                    },
                );
                assert(requests_view(out@) =~= requests_view(before).push(
                    request_for(Slot::Command, encode_utf8(command@)),
                ));
            },
            _ => {},
        }
    }
    if result.stdout.len() > 0 {
        match classify_stream(&result.stdout).0 {
            Size::Artifact => {
                let ghost before = out@;
                out.push(
                    UploadRequest {
                        slot: Slot::Stdout,
                        file_name: String::from_str(Slot::Stdout.paste_name()),
                        data: copy_bytes(&result.stdout),
                    },
                );
                assert(requests_view(out@) =~= requests_view(before).push(
                    request_for(Slot::Stdout, result.stdout@),
                ));
            },
            _ => {},
        }
    }
    if result.stderr.len() > 0 {
        match classify_stream(&result.stderr).0 {
            Size::Artifact => {
                let ghost before = out@;
                out.push(
                    UploadRequest {
                        slot: Slot::Stderr,
                        file_name: String::from_str(Slot::Stderr.paste_name()),
                        data: copy_bytes(&result.stderr),
                    },
                );
                assert(requests_view(out@) =~= requests_view(before).push(
                    request_for(Slot::Stderr, result.stderr@),
                ));
            },
            _ => {},
        }
    }
    assert(requests_view(out@) =~= upload_requests_spec(
        t,
        command@,
        result.stdout@,
        result.stderr@,
    ));
    out
}

/// Appends a text as the message shows it outside code.
fn push_marked(out: &mut String, t: Transport, s: &str)
    ensures
        final(out)@ == old(out)@ + marked(t, s@),
{
    if t.markdown {
        let e = escape(s);
        out.append(e.as_str());
    } else {
        out.append(s);
    }
}

/// Appends a text as the message shows it as code.
fn push_block(out: &mut String, t: Transport, s: &str)
    ensures
        final(out)@ == old(out)@ + block(t, s@),
{
    if t.markdown {
        let b = code_block(s);
        out.append(b.as_str());
    } else {
        out.append(s);
    }
}

/// Appends a text as the message shows it as code on a line of its own.
fn push_block_line(out: &mut String, t: Transport, s: &str)
    ensures
        final(out)@ == old(out)@ + block_line(t, s@),
{
    if t.markdown {
        let b = code_block(s);
        out.append(b.as_str());
    } else {
        out.append(s);
        out.append("\n");
        assert(out@ =~= old(out)@ + (s@ + "\n"@));
    }
}

/// Appends the sentence that stands in for dropped content, after `lead` and
/// before `trail`.
fn push_notice(out: &mut String, lead: &str, trail: &str)
    ensures
        final(out)@ == old(out)@ + (lead@ + notice_spec() + trail@),
{
    out.append(lead);
    out.append(notice());
    out.append(trail);
    assert(out@ =~= old(out)@ + (lead@ + notice_spec() + trail@));
}

/// Appends the line that names who sent the request and how it was run.
fn push_header(out: &mut String, t: Transport, user: &str, mode: Option<Mode>)
    ensures
        final(out)@ == old(out)@ + header_spec(t, user@, mode),
{
    out.append(user);
    let mut words = String::from_str(" (");
    match mode {
        Some(m) => words.append(m.name()),
        None => words.append("meta"),
    }
    words.append(")");
    assert(words@ =~= mode_words(mode));
    push_marked(out, t, words.as_str());
    out.append(":\n");
    assert(out@ =~= old(out)@ + header_spec(t, user@, mode));
}

/// Appends the part that shows the command, and adds the file that carries
/// it where it goes as a file.
fn push_command(
    out: &mut String,
    docs: &mut Vec<Document>,
    t: Transport,
    command: &str,
    upload: &Option<String>,
)
    ensures
        final(out)@ == old(out)@ + command_section(t, command@, option_view(*upload)),
        documents_view(final(docs)@) == documents_view(old(docs)@) + (if command_attached(
            t,
            command@,
        ) {
            seq![document_for(Slot::Command, encode_utf8(command@))]
        } else {
            Seq::empty()
        }),
{
    match classify_command(command) {
        Size::Inline => {
            let shown = trimmed(command);
            push_block_line(out, t, shown.as_str());
            assert(documents_view(docs@) =~= documents_view(old(docs)@) + Seq::empty());
        },
        Size::Artifact => {
            if t.attachments {
                docs.push(
                    Document {
                        file_name: String::from_str(Slot::Command.file_name()),
                        data: command.as_bytes_vec(),
                    },
                );
                assert(out@ =~= old(out)@ + Seq::<char>::empty());
                assert(documents_view(docs@) =~= documents_view(old(docs)@) + seq![
                    document_for(Slot::Command, encode_utf8(command@)),
                ]);
            } else {
                match upload {
                    Some(paste) => push_block_line(out, t, paste.as_str()),
                    None => {
                        push_notice(out, "", "\n");
                        assert(""@ + notice_spec() + "\n"@ =~= notice_spec() + "\n"@) by {
                            reveal_strlit("");
                        }
                    },
                }
                assert(documents_view(docs@) =~= documents_view(old(docs)@) + Seq::empty());
            }
        },
        Size::TooLarge => {
            push_notice(out, "", "\n");
            assert(""@ + notice_spec() + "\n"@ =~= notice_spec() + "\n"@) by {
                reveal_strlit("");
            }
            assert(documents_view(docs@) =~= documents_view(old(docs)@) + Seq::empty());
        },
    }
}

/// Appends the part that shows one output stream, and adds the file that
/// carries it where it goes as a file.
fn push_stream(
    out: &mut String,
    docs: &mut Vec<Document>,
    t: Transport,
    stream: Stream,
    bytes: &Vec<u8>,
    upload: &Option<String>,
)
    ensures
        final(out)@ == old(out)@ + stream_section(t, stream, bytes@, option_view(*upload)),
        documents_view(final(docs)@) == documents_view(old(docs)@) + (if stream_attached(
            t,
            bytes@,
        ) {
            seq![document_for(stream.slot_spec(), bytes@)]
        } else {
            Seq::empty()
        }),
{
    if bytes.len() == 0 {
        assert(out@ =~= old(out)@ + Seq::<char>::empty());
        assert(documents_view(docs@) =~= documents_view(old(docs)@) + Seq::empty());
        return ;
    }
    out.append("\n");
    push_marked(out, t, stream.label());
    let ghost labelled = out@;
    assert(labelled =~= old(out)@ + ("\n"@ + marked(t, stream.label_spec())));
    let (size, text) = classify_stream(bytes);
    match size {
        Size::Inline => {
            out.append("\n");
            match text {
                Some(shown) => push_block(out, t, shown.as_str()),
                None => {},
            }
            assert(out@ =~= labelled + ("\n"@ + block(t, decode_utf8(bytes@))));
            assert(documents_view(docs@) =~= documents_view(old(docs)@) + Seq::empty());
        },
        Size::Artifact => {
            if t.attachments {
                out.append("\nattached");
                assert("\nattached"@ =~= "\n"@ + attached_spec()) by {
                    reveal_strlit("\nattached");
                    reveal_strlit("\n");
                    reveal_strlit("attached");
                }
                let ghost announced = out@;
                match upload {
                    Some(paste) => {
                        out.append("\n");
                        push_block(out, t, paste.as_str());
                        assert(out@ =~= announced + ("\n"@ + block(t, paste@)));
                    },
                    None => {
                        assert(out@ =~= announced + Seq::<char>::empty());
                    },
                }
                docs.push(
                    Document {
                        file_name: String::from_str(stream.slot().file_name()),
                        data: copy_bytes(bytes),
                    },
                );
                assert(documents_view(docs@) =~= documents_view(old(docs)@) + seq![
                    document_for(stream.slot_spec(), bytes@),
                ]);
            } else {
                match upload {
                    Some(paste) => {
                        out.append("\n");
                        push_block(out, t, paste.as_str());
                        assert(out@ =~= labelled + ("\n"@ + block(t, paste@)));
                    },
                    None => {
                        push_notice(out, "\n", "");
                        assert("\n"@ + notice_spec() + ""@ =~= "\n"@ + notice_spec()) by {
                            reveal_strlit("");
                        }
                    },
                }
                assert(documents_view(docs@) =~= documents_view(old(docs)@) + Seq::empty());
            }
        },
        Size::TooLarge => {
            push_notice(out, "\n", "");
            assert("\n"@ + notice_spec() + ""@ =~= "\n"@ + notice_spec()) by {
                reveal_strlit("");
            }
            assert(documents_view(docs@) =~= documents_view(old(docs)@) + Seq::empty());
        },
    }
    assert(out@ =~= old(out)@ + stream_section(t, stream, bytes@, option_view(*upload)));
}

impl OutputMessage {
    /// Writes the message for one finished execution.
    ///
    /// `user` names who sent the request, as markup that is taken as it is;
    /// `mode` is `None` for an action that ran no snippet; `uploads` holds
    /// what came of the uploads that `upload_requests` asked for.
    pub fn format(
        t: Transport,
        user: &str,
        mode: Option<Mode>,
        command: &str,
        result: &ExecutionResult,
        uploads: &Uploads,
    ) -> (r: OutputMessage)
        ensures
            r.message@ == message_spec(
                t,
                user@,
                mode,
                command@,
                result.status,
                result.stdout@,
                result.stderr@,
                uploads@,
            ),
            documents_view(r.documents@) == documents_spec(
                t,
                command@,
                result.stdout@,
                result.stderr@,
            ),
    {
        let mut message = String::new();
        let mut documents: Vec<Document> = Vec::new();
        assert(documents_view(documents@) =~= Seq::empty());
        push_header(&mut message, t, user, mode);
        push_command(&mut message, &mut documents, t, command, &uploads.command);
        let status = result.status.text();
        push_marked(&mut message, t, status.as_str());
        push_stream(
            &mut message,
            &mut documents,
            t,
            Stream::Stdout,
            &result.stdout,
            &uploads.stdout,
        );
        push_stream(
            &mut message,
            &mut documents,
            t,
            Stream::Stderr,
            &result.stderr,
            &uploads.stderr,
        );
        assert(message@ =~= message_spec(
            t,
            user@,
            mode,
            command@,
            result.status,
            result.stdout@,
            result.stderr@,
            uploads@,
        ));
        assert(documents_view(documents@) =~= documents_spec(
            t,
            command@,
            result.stdout@,
            result.stderr@,
        ));
        OutputMessage { message, documents }
    }
}

/// The command text is shown inline exactly when it takes fewer bytes than
/// `PART_LIMIT`: one byte below the limit it is shown, at the limit and
/// above it is not. What the uploads gave changes nothing in a command that
/// is shown.
pub proof fn lemma_command_boundary(
    t: Transport,
    command: Seq<char>,
    upload: Option<Seq<char>>,
    other: Option<Seq<char>>,
)
    ensures
        command_size(command) == Size::Inline <==> byte_len(command) < PART_LIMIT,
        byte_len(command) == PART_LIMIT - 1 ==> command_size(command) == Size::Inline,
        byte_len(command) == PART_LIMIT ==> command_size(command) == Size::Artifact,
        byte_len(command) == PART_LIMIT + 1 ==> command_size(command) == Size::Artifact,
        byte_len(command) < PART_LIMIT ==> command_section(t, command, upload) == block_line(
            t,
            trim(command),
        ),
        byte_len(command) < PART_LIMIT ==> command_section(t, command, upload) == command_section(
            t,
            command,
            other,
        ),
        byte_len(command) < PART_LIMIT ==> !command_uploaded(t, command) && !command_attached(
            t,
            command,
        ),
{
}

/// A stream that is well-formed text of fewer bytes than `PART_LIMIT` is
/// shown as it is: its section holds the decoded text, whose encoding is the
/// stream again; nothing is uploaded or attached for it.
pub proof fn lemma_short_text_inlined(
    t: Transport,
    stream: Stream,
    bytes: Seq<u8>,
    upload: Option<Seq<char>>,
)
    requires
        0 < bytes.len() < PART_LIMIT,
        valid_utf8(bytes),
    ensures
        stream_section(t, stream, bytes, upload) == "\n"@ + marked(t, stream.label_spec()) + ("\n"@
            + block(t, decode_utf8(bytes))),
        !t.markdown ==> stream_section(t, stream, bytes, upload) == "\n"@ + stream.label_spec() + (
        "\n"@ + decode_utf8(bytes)),
        encode_utf8(decode_utf8(bytes)) == bytes,
        !stream_uploaded(bytes),
        !stream_attached(t, bytes),
{
    decode_utf8_encode_utf8(bytes);
}

/// A stream of `FILE_LIMIT` bytes or more is dropped: its section ends in
/// the notice whatever the uploads gave, and nothing is uploaded or attached
/// for it.
pub proof fn lemma_oversized_stream_dropped(
    t: Transport,
    stream: Stream,
    bytes: Seq<u8>,
    upload: Option<Seq<char>>,
)
    requires
        bytes.len() >= FILE_LIMIT,
    ensures
        stream_section(t, stream, bytes, upload) == "\n"@ + marked(t, stream.label_spec()) + ("\n"@
            + notice_spec()),
        !stream_uploaded(bytes),
        !stream_attached(t, bytes),
{
}

/// Nothing is uploaded for a stream of `FILE_LIMIT` bytes or more, whatever
/// else the execution left behind: no request names its slot.
pub proof fn lemma_oversized_never_uploaded(
    t: Transport,
    command: Seq<char>,
    stdout: Seq<u8>,
    stderr: Seq<u8>,
)
    ensures
        stdout.len() >= FILE_LIMIT ==> forall|i: int|
            0 <= i < upload_requests_spec(t, command, stdout, stderr).len()
                ==> #[trigger] upload_requests_spec(t, command, stdout, stderr)[i].slot
                != Slot::Stdout,
        stderr.len() >= FILE_LIMIT ==> forall|i: int|
            0 <= i < upload_requests_spec(t, command, stdout, stderr).len()
                ==> #[trigger] upload_requests_spec(t, command, stdout, stderr)[i].slot
                != Slot::Stderr,
{
}

/// The message of an execution whose streams are both dropped does not
/// depend on what the uploads for them gave.
pub proof fn lemma_dropped_streams_ignore_uploads(
    t: Transport,
    user: Seq<char>,
    mode: Option<Mode>,
    command: Seq<char>,
    status: ExitStatus,
    stdout: Seq<u8>,
    stderr: Seq<u8>,
    a: UploadsView,
    b: UploadsView,
)
    requires
        stdout.len() >= FILE_LIMIT,
        stderr.len() >= FILE_LIMIT || stderr.len() == 0,
        a.command == b.command,
    ensures
        message_spec(t, user, mode, command, status, stdout, stderr, a) == message_spec(
            t,
            user,
            mode,
            command,
            status,
            stdout,
            stderr,
            b,
        ),
        documents_spec(t, command, stdout, stderr) == documents_spec(
            t,
            command,
            Seq::empty(),
            Seq::empty(),
        ),
{
    assert(documents_spec(t, command, stdout, stderr) =~= documents_spec(
        t,
        command,
        Seq::empty(),
        Seq::empty(),
    ));
}

} // verus!
