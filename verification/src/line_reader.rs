//! Framing of the command stream: bytes in, text lines out.
//!
//! A line ends at a newline byte. The stream ends at an end-of-transmission
//! byte, at a read failure, or at a line that is not valid UTF-8; bytes after
//! the last newline are not a line.

use vstd::prelude::*;
use vstd::utf8::decode_utf8;
use vstd::utf8::valid_utf8;

verus! {

/// The byte that terminates a line.
pub const NEWLINE: u8 = 10;

/// The byte that ends the stream.
pub const END_OF_TRANSMISSION: u8 = 0;

/// Whether `byte` ends the current line or the stream.
pub open spec fn is_terminator(byte: u8) -> bool {
    byte == NEWLINE || byte == END_OF_TRANSMISSION
}

/// Whether no byte of `bytes` is a terminator.
pub open spec fn terminator_free(bytes: Seq<u8>) -> bool {
    forall|i: int| 0 <= i < bytes.len() ==> !is_terminator(#[trigger] bytes[i])
}

/// Number of bytes in front of the first terminator of `stream`, or the
/// length of `stream` where it holds none.
pub open spec fn line_len(stream: Seq<u8>) -> nat
    decreases stream.len(),
{
    if stream.len() == 0 || is_terminator(stream[0]) {
        0
    } else {
        1 + line_len(stream.skip(1))
    }
}

/// The text lines that a reader hands out for `stream`, where the end of
/// `stream` stands for a read failure.
pub open spec fn lines_of(stream: Seq<u8>) -> Seq<Seq<char>>
    decreases stream.len(),
{
    let n = line_len(stream) as int;
    if n < stream.len() && stream[n] == NEWLINE && valid_utf8(stream.take(n)) {
        seq![decode_utf8(stream.take(n))] + lines_of(stream.skip(n + 1))
    } else {
        Seq::empty()
    }
}

/// What a reader reports for one byte of input.
#[derive(Debug, PartialEq, Eq)]
pub enum ReadStep {
    /// The byte was stored; the line is not complete yet.
    Pending,
    /// The byte completed this line.
    Line(String),
    /// The stream has ended; no further line will be reported.
    End,
}

/// Abstract state of a [`LineReader`].
pub struct LineReaderView {
    /// The bytes of the line that is being collected.
    pub pending: Seq<u8>,
    /// Whether the stream has ended.
    pub done: bool,
}

impl LineReaderView {
    /// A reader at the start of a stream.
    pub open spec fn start() -> LineReaderView {
        LineReaderView { pending: Seq::empty(), done: false }
    }

    /// A reader whose stream has ended.
    pub open spec fn ended() -> LineReaderView {
        LineReaderView { pending: Seq::empty(), done: true }
    }

    /// Whether `byte` completes a line of text.
    pub open spec fn completes_line(self, byte: u8) -> bool {
        !self.done && byte == NEWLINE && valid_utf8(self.pending)
    }

    /// Whether the stream is over once `byte` has been taken: it was over
    /// before, `byte` is the end-of-transmission byte, or `byte` terminates a
    /// line that is not valid UTF-8.
    pub open spec fn ends_stream(self, byte: u8) -> bool {
        self.done || byte == END_OF_TRANSMISSION || (byte == NEWLINE && !valid_utf8(self.pending))
    }

    /// The reader after it has taken `byte`.
    pub open spec fn after(self, byte: u8) -> LineReaderView {
        if self.done {
            self
        } else if self.ends_stream(byte) {
            LineReaderView::ended()
        } else if byte == NEWLINE {
            LineReaderView::start()
        } else {
            LineReaderView { pending: self.pending.push(byte), done: false }
        }
    }

    /// The line that the reader reports as it takes `byte`: one line or none.
    pub open spec fn line_at(self, byte: u8) -> Seq<Seq<char>> {
        if self.completes_line(byte) {
            seq![decode_utf8(self.pending)]
        } else {
            Seq::empty()
        }
    }

    /// The reader after it has taken `bytes` one by one.
    pub open spec fn after_all(self, bytes: Seq<u8>) -> LineReaderView
        decreases bytes.len(),
    {
        if bytes.len() == 0 {
            self
        } else {
            self.after_all(bytes.drop_last()).after(bytes.last())
        }
    }

    /// The lines that the reader reports while it takes `bytes` one by one.
    pub open spec fn reported(self, bytes: Seq<u8>) -> Seq<Seq<char>>
        decreases bytes.len(),
    {
        if bytes.len() == 0 {
            Seq::empty()
        } else {
            self.reported(bytes.drop_last()) + self.after_all(bytes.drop_last()).line_at(
                bytes.last(),
            )
        }
    }
}

/// Collects the bytes of the stream into lines.
pub struct LineReader {
    buf: Vec<u8>,
    done: bool,
}

impl View for LineReader {
    type V = LineReaderView;

    closed spec fn view(&self) -> LineReaderView {
        LineReaderView { pending: self.buf@, done: self.done }
    }
}

/// Decodes bytes as UTF-8 through `String::from_utf8`.
///
/// Trusted: the conversion succeeds exactly on well-formed UTF-8 and then
/// yields the characters that the bytes encode.
#[verifier::external_body]
fn utf8_text(bytes: Vec<u8>) -> (r: Option<String>)
    ensures
        r is Some <==> valid_utf8(bytes@),
        r is Some ==> r->Some_0@ == decode_utf8(bytes@),
{
    match String::from_utf8(bytes) {
        Ok(text) => Some(text),
        Err(_) => None,
    }
}

impl LineReader {
    /// A reader at the start of a stream.
    pub fn new() -> (r: LineReader)
        ensures
            r@ == LineReaderView::start(),
    {
        LineReader { buf: Vec::new(), done: false }
    }

    /// Whether the stream has ended.
    pub fn is_done(&self) -> (r: bool)
        ensures
            r == self@.done,
    {
        self.done
    }

    /// Takes the next byte of the stream and reports the line that it
    /// completes, if any.
    pub fn push(&mut self, byte: u8) -> (r: ReadStep)
        ensures
            final(self)@ == old(self)@.after(byte),
            match r {
                ReadStep::Pending => !old(self)@.done && !is_terminator(byte),
                ReadStep::Line(text) => old(self)@.completes_line(byte) && text@ == decode_utf8(
                    old(self)@.pending,
                ),
                ReadStep::End => old(self)@.ends_stream(byte),
            },
    {
        if self.done {
            ReadStep::End
        } else if byte == END_OF_TRANSMISSION {
            self.buf.clear();
            self.done = true;
            ReadStep::End
        } else if byte == NEWLINE {
            let mut line: Vec<u8> = Vec::new();
            std::mem::swap(&mut self.buf, &mut line);
            match utf8_text(line) {
                Some(text) => ReadStep::Line(text),
                None => {
                    self.done = true;
                    ReadStep::End
                },
            }
        } else {
            self.buf.push(byte);
            ReadStep::Pending
        }
    }

    /// Records that reading the stream failed: the stream has ended and the
    /// bytes of an unfinished line are dropped.
    pub fn fail(&mut self)
        ensures
            final(self)@ == LineReaderView::ended(),
    {
        self.buf.clear();
        self.done = true;
    }
}

/// `line_len` marks the first terminator: no terminator stands in front of
/// it, and one stands at it unless the stream holds none.
pub proof fn lemma_line_len_marks_first_terminator(stream: Seq<u8>)
    ensures
        line_len(stream) <= stream.len(),
        terminator_free(stream.take(line_len(stream) as int)),
        line_len(stream) < stream.len() ==> is_terminator(stream[line_len(stream) as int]),
    decreases stream.len(),
{
    if stream.len() == 0 || is_terminator(stream[0]) {
    } else {
        let tail = stream.skip(1);
        lemma_line_len_marks_first_terminator(tail);
        let n = line_len(stream) as int;
        let line = stream.take(n);
        assert forall|i: int| 0 <= i < line.len() implies !is_terminator(#[trigger] line[i]) by {
            if i > 0 {
                assert(line[i] == tail.take(n - 1)[i - 1]);
            }
        }
    }
}

/// In front of the first terminator of `pending + rest` stand the bytes of
/// `pending` and those in front of the first terminator of `rest`.
proof fn lemma_line_len_append(pending: Seq<u8>, rest: Seq<u8>)
    requires
        terminator_free(pending),
    ensures
        line_len(pending + rest) == pending.len() + line_len(rest),
    decreases pending.len(),
{
    if pending.len() > 0 {
        let tail = pending.skip(1);
        assert((pending + rest).skip(1) =~= tail + rest);
        assert forall|i: int| 0 <= i < tail.len() implies !is_terminator(#[trigger] tail[i]) by {}
        lemma_line_len_append(tail, rest);
    }
}

/// How the lines of a stream unfold at the first byte behind a collected,
/// terminator-free prefix.
proof fn lemma_lines_step(pending: Seq<u8>, rest: Seq<u8>)
    requires
        terminator_free(pending),
        rest.len() > 0,
    ensures
        rest[0] == NEWLINE && valid_utf8(pending) ==> lines_of(pending + rest) == seq![
            decode_utf8(pending),
        ] + lines_of(rest.skip(1)),
        rest[0] == NEWLINE && !valid_utf8(pending) ==> lines_of(pending + rest) == Seq::<
            Seq<char>,
        >::empty(),
        rest[0] == END_OF_TRANSMISSION ==> lines_of(pending + rest) == Seq::<Seq<char>>::empty(),
        !is_terminator(rest[0]) ==> pending + rest == pending.push(rest[0]) + rest.skip(1)
            && terminator_free(pending.push(rest[0])),
{
    let whole = pending + rest;
    let n = pending.len() as int;
    lemma_line_len_append(pending, rest);
    if is_terminator(rest[0]) {
        assert(whole.take(n) =~= pending);
        assert(whole.skip(n + 1) =~= rest.skip(1));
    }
}

/// After any prefix of a stream, the lines of the whole stream are those
/// that a reader has reported for the prefix, and then those of what it has
/// collected followed by the rest of the stream, if the stream has not ended.
proof fn lemma_reader_keeps_pace(prefix: Seq<u8>, rest: Seq<u8>)
    ensures
        terminator_free(LineReaderView::start().after_all(prefix).pending),
        lines_of(prefix + rest) == LineReaderView::start().reported(prefix) + if LineReaderView::start().after_all(
            prefix,
        ).done {
            Seq::<Seq<char>>::empty()
        } else {
            lines_of(LineReaderView::start().after_all(prefix).pending + rest)
        },
    decreases prefix.len(),
{
    if prefix.len() > 0 {
        let byte = prefix.last();
        let front = prefix.drop_last();
        let tail = seq![byte] + rest;
        lemma_reader_keeps_pace(front, tail);
        assert(front + tail =~= prefix + rest);
        let before = LineReaderView::start().after_all(front);
        if !before.done {
            assert(tail.skip(1) =~= rest);
            lemma_lines_step(before.pending, tail);
        }
    }
}

/// A reader that takes a stream byte by byte reports the lines of the
/// stream, in order.
pub proof fn lemma_reader_frames_stream(stream: Seq<u8>)
    ensures
        LineReaderView::start().reported(stream) == lines_of(stream),
{
    lemma_reader_keeps_pace(stream, Seq::empty());
}

/// Splits a whole stream into its text lines; the end of `input` stands for
/// a read failure.
pub fn read_lines(input: &[u8]) -> (lines: Vec<String>)
    ensures
        lines.deep_view() == lines_of(input@),
{
    let mut reader = LineReader::new();
    let mut lines: Vec<String> = Vec::new();
    let mut i: usize = 0;
    while i < input.len()
        invariant
            i <= input.len(),
            reader@ == LineReaderView::start().after_all(input@.take(i as int)),
            lines.deep_view() == LineReaderView::start().reported(input@.take(i as int)),
        decreases input.len() - i,
    {
        assert(input@.take(i + 1).drop_last() =~= input@.take(i as int));
        match reader.push(input[i]) {
            ReadStep::Line(text) => lines.push(text),
            ReadStep::Pending => {},
            ReadStep::End => {},
        }
        i += 1;
    }
    proof {
        assert(input@.take(i as int) =~= input@);
        lemma_reader_frames_stream(input@);
    }
    lines
}

} // verus!
