//! Newline-delimited framing of JSON-RPC messages.
//!
//! Each message is one line: the JSON text of the message followed by `\n`.
//! On reading, surrounding whitespace of a line is removed and blank lines
//! are skipped; an empty read is the end of the input. stdout is the protocol
//! channel only: plugin logs must go to stderr, otherwise they corrupt the
//! stream.
use vstd::prelude::*;

use crate::io_error::io_error_text;
use crate::rpc::Message;
use crate::text::{is_ws, lemma_trim_bounds, trim, trim_chars};

verus! {

/// Transport failures (broken pipe, bad UTF-8, a line that is no message).
#[derive(Debug)]
pub enum TransportError {
    Io(std::io::Error),
    /// A line was received but is not valid JSON for a message.
    BadMessage { line: String, reason: String },
}

/// What `{:?}` (`Debug`) shows of a string: the string in double quotes,
/// with quotes, backslashes and unprintable characters escaped.
pub uninterp spec fn debug_quoted(s: Seq<char>) -> Seq<char>;

/// The `Debug` text of a string, by `format!("{:?}", s)` of std.
///
/// The result depends on the string alone; its exact escaping rules (those of
/// `char::escape_debug`) are left to the name `debug_quoted`.
#[verifier::external_body]
fn debug_text(s: &str) -> (r: String)
    ensures
        r@ == debug_quoted(s@),
{
    format!("{:?}", s)
}

impl TransportError {
    /// The message of the error (what `Display` shows of it).
    pub fn describe(&self) -> (r: String)
        ensures
            match self {
                TransportError::Io(_) => "transport io: "@.is_prefix_of(r@),
                TransportError::BadMessage { line, reason } => r@ == "bad message "@ + debug_quoted(
                    line@,
                ) + ": "@ + reason@,
            },
    {
        match self {
            TransportError::Io(e) => {
                let text = io_error_text(e);
                String::from_str("transport io: ").concat(text.as_str())
            },
            TransportError::BadMessage { line, reason } => {
                let quoted = debug_text(line.as_str());
                String::from_str("bad message ").concat(quoted.as_str()).concat(": ").concat(
                    reason.as_str(),
                )
            },
        }
    }
}

/// Newline-delimited JSON-RPC over a buffered reader and a writer.
pub struct StdioTransport<R, W> {
    reader: R,
    writer: W,
}

impl<R, W> StdioTransport<R, W> {
    /// The reader that messages come from.
    pub closed spec fn reader_spec(self) -> R {
        self.reader
    }

    /// The writer that messages go to.
    pub closed spec fn writer_spec(self) -> W {
        self.writer
    }

    pub fn new(reader: R, writer: W) -> (r: Self)
        ensures
            r.reader_spec() == reader,
            r.writer_spec() == writer,
    {
        StdioTransport { reader, writer }
    }

    /// The reader, to read the next line from.
    pub fn reader_mut(&mut self) -> (r: &mut R)
        ensures
            *r == old(self).reader_spec(),
            final(self).reader_spec() == *final(r),
            final(self).writer_spec() == old(self).writer_spec(),
    {
        &mut self.reader
    }

    /// The writer, to write the next line to.
    pub fn writer_mut(&mut self) -> (r: &mut W)
        ensures
            *r == old(self).writer_spec(),
            final(self).writer_spec() == *final(r),
            final(self).reader_spec() == old(self).reader_spec(),
    {
        &mut self.writer
    }
}

/// What one read of a line gave.
#[derive(Debug, PartialEq, Eq)]
pub enum Line<'a> {
    /// Nothing was read: the input has ended.
    EndOfInput,
    /// A line of whitespace only; it is skipped.
    Blank,
    /// A line that should hold one message, without its surrounding
    /// whitespace (the line end among it).
    Payload(&'a str),
}

/// Classifies what one read of a line gave (the text up to and including the
/// next `\n`, or what was left before the end of the input).
pub fn classify_line(line: &str) -> (r: Line<'_>)
    ensures
        line@.len() == 0 ==> r == Line::EndOfInput,
        line@.len() > 0 && trim_chars(line@).len() == 0 ==> r == Line::Blank,
        line@.len() > 0 && trim_chars(line@).len() > 0 ==> (r matches Line::Payload(p) && p@
            == trim_chars(line@)),
{
    if line.is_empty() {
        return Line::EndOfInput;
    }
    let trimmed = trim(line);
    if trimmed.is_empty() {
        Line::Blank
    } else {
        Line::Payload(trimmed)
    }
}

/// The outcome of reading a payload line, given what decoding its JSON text
/// gave (the message, or the decoder's reason for refusing it): a line that
/// is no message is reported with the line itself, never swallowed.
pub fn decoded(line: &str, parsed: Result<Message, String>) -> (r: Result<
    Option<Message>,
    TransportError,
>)
    ensures
        parsed matches Ok(m) ==> r == Ok::<Option<Message>, TransportError>(Some(m)),
        parsed matches Err(reason) ==> (r matches Err(TransportError::BadMessage { line: l, reason: why })
            && l@ == line@ && why == reason),
{
    match parsed {
        Ok(m) => Ok(Some(m)),
        Err(reason) => Err(TransportError::BadMessage { line: String::from_str(line), reason }),
    }
}

/// One message line: the message's JSON text followed by `\n`.
pub fn frame(payload: &str) -> (r: String)
    ensures
        r@ == payload@.push('\n'),
{
    proof {
        reveal_strlit("\n");
    }
    String::from_str(payload).concat("\n")
}

/// What a read gives back of a written frame: a payload that neither starts
/// nor ends with whitespace (as the JSON text of a message never does) is
/// read back exactly, as a payload line.
pub proof fn lemma_frame_reads_back(payload: Seq<char>)
    requires
        payload.len() > 0,
        !is_ws(payload[0]),
        !is_ws(payload.last()),
    ensures
        payload.push('\n').len() > 0,
        trim_chars(payload.push('\n')) == payload,
{
    let line = payload.push('\n');
    assert(crate::text::trim_bounds(line, 0, payload.len() as int)) by {
        assert(is_ws(line[payload.len() as int]));
        assert(line[0] == payload[0]);
        assert(line[payload.len() - 1] == payload.last());
    }
    lemma_trim_bounds(line, 0, payload.len() as int);
    assert(line.subrange(0, payload.len() as int) =~= payload);
}

} // verus!
