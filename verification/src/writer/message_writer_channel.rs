//! Sinks: where a message goes once it has been written, and when.
//!
//! A sink frames each message as one line, its compact JSON encoding followed
//! by a line feed, and decides when that line leaves the process. It sends
//! nothing itself: what is due is handed out as a [`Delivery`], which names
//! the destination and holds the bytes to append to it.

use vstd::prelude::*;

use crate::writer::json::{encode, encoded_view, json_encoding};
use crate::writer::StdStream;

verus! {

/// The byte that ends a line.
pub const LINE_END: u8 = 10;

/// Why a message cannot be written.
#[derive(Clone, Copy, Debug, PartialEq, Eq, Structural)]
pub enum WriteError {
    /// The message has no JSON encoding.
    NotEncodable,
    /// The encoding of the message does not fit on one line.
    EmbeddedNewline,
}

impl WriteError {
    /// The words in which the error is reported.
    pub fn message(&self) -> (words: &'static str)
        ensures
            words@ == match *self {
                WriteError::NotEncodable => "The message has no JSON encoding"@,
                WriteError::EmbeddedNewline => "The encoding of the message does not fit on one line"@,
            },
    {
        match self {
            WriteError::NotEncodable => "The message has no JSON encoding",
            WriteError::EmbeddedNewline => "The encoding of the message does not fit on one line",
        }
    }
}

/// The line that carries an encoded message: the encoding followed by a line
/// feed. There is none for a message without an encoding, nor for an encoding
/// that holds a line feed itself.
pub open spec fn line_of(encoded: Option<Seq<u8>>) -> Result<Seq<u8>, WriteError> {
    match encoded {
        None => Err(WriteError::NotEncodable),
        Some(bytes) => if bytes.contains(LINE_END) {
            Err(WriteError::EmbeddedNewline)
        } else {
            Ok(bytes.push(LINE_END))
        },
    }
}

/// The line that carries `message`.
pub open spec fn message_line(message: serde_json::Value) -> Result<Seq<u8>, WriteError> {
    line_of(json_encoding(message))
}

/// The mathematical value of a framed line, or of the refusal to frame one.
pub open spec fn line_view(line: Result<Vec<u8>, WriteError>) -> Result<Seq<u8>, WriteError> {
    match line {
        Ok(bytes) => Ok(bytes@),
        Err(error) => Err(error),
    }
}

/// Frames what the JSON crate returned for a message as one line.
///
/// Returns the encoding followed by a line feed;
/// [`WriteError::NotEncodable`] where the crate refused to encode the
/// message; [`WriteError::EmbeddedNewline`] where the encoding holds a line
/// feed.
pub fn frame_line(encoded: Result<Vec<u8>, serde_json::Error>) -> (line: Result<Vec<u8>, WriteError>)
    ensures
        line_view(line) == line_of(encoded_view(encoded)),
{
    let mut line = match encoded {
        Ok(bytes) => bytes,
        Err(_) => {
            return Err(WriteError::NotEncodable);
        },
    };
    let mut i: usize = 0;
    while i < line.len()
        invariant
            encoded_view(encoded) == Some(line@),
            i <= line.len(),
            forall|j: int| 0 <= j < i ==> line@[j] != LINE_END,
        decreases line.len() - i,
    {
        if line[i] == LINE_END {
            assert(line@[i as int] == LINE_END);
            return Err(WriteError::EmbeddedNewline);
        }
        i += 1;
    }
    line.push(LINE_END);
    Ok(line)
}

/// Encodes `message` as JSON and frames the encoding as one line.
pub fn format_message(message: &serde_json::Value) -> (line: Result<Vec<u8>, WriteError>)
    ensures
        line_view(line) == message_line(*message),
{
    frame_line(encode(message))
}

/// Where bytes are sent.
#[derive(Debug, PartialEq, Eq)]
pub enum Destination {
    /// The file at this path, to be appended to.
    File(String),
    /// A standard stream of the process.
    Stream(StdStream),
}

/// The mathematical value of a `Destination`.
pub ghost enum DestinationView {
    File(Seq<char>),
    Stream(StdStream),
}

impl View for Destination {
    type V = DestinationView;

    open spec fn view(&self) -> DestinationView {
        match self {
            Destination::File(path) => DestinationView::File(path@),
            Destination::Stream(stream) => DestinationView::Stream(*stream),
        }
    }
}

/// Bytes that are due at a destination: whole lines, in the order in which
/// their messages were written.
#[derive(Debug, PartialEq, Eq)]
pub struct Delivery {
    pub destination: Destination,
    pub bytes: Vec<u8>,
}

/// The mathematical value of a `Delivery`.
pub ghost struct DeliveryView {
    pub destination: DestinationView,
    pub bytes: Seq<u8>,
}

impl View for Delivery {
    type V = DeliveryView;

    open spec fn view(&self) -> DeliveryView {
        DeliveryView { destination: self.destination@, bytes: self.bytes@ }
    }
}

/// The lines of `lines`, one after the other.
pub open spec fn joined(lines: Seq<Seq<u8>>) -> Seq<u8>
    decreases lines.len(),
{
    if lines.len() == 0 {
        Seq::empty()
    } else {
        joined(lines.drop_last()) + lines.last()
    }
}

/// What a write returns, as a mathematical value: the delivery that is due
/// at once, if any, or the reason why the message was refused.
pub open spec fn outcome_view(outcome: Result<Option<Delivery>, WriteError>) -> Result<
    Option<DeliveryView>,
    WriteError,
> {
    match outcome {
        Ok(Some(delivery)) => Ok(Some(delivery@)),
        Ok(None) => Ok(None),
        Err(error) => Err(error),
    }
}

/// The mathematical value of an optional delivery.
pub open spec fn due_view(due: Option<Delivery>) -> Option<DeliveryView> {
    match due {
        Some(delivery) => Some(delivery@),
        None => None,
    }
}

/// A sink as a mathematical value: one of three kinds, each with the
/// destination it is bound to, and the buffered kind with the lines that it
/// holds back, oldest first.
pub ghost enum SinkModel {
    AppendFile { path: Seq<char> },
    ImmediateStream { target: StdStream },
    BufferedStream { target: StdStream, pending: Seq<Seq<u8>> },
}

impl SinkModel {
    /// Where the sink delivers.
    pub open spec fn destination(self) -> DestinationView {
        match self {
            SinkModel::AppendFile { path } => DestinationView::File(path),
            SinkModel::ImmediateStream { target } => DestinationView::Stream(target),
            SinkModel::BufferedStream { target, .. } => DestinationView::Stream(target),
        }
    }

    /// The lines that the sink holds back.
    pub open spec fn pending(self) -> Seq<Seq<u8>> {
        match self {
            SinkModel::BufferedStream { pending, .. } => pending,
            _ => Seq::empty(),
        }
    }

    /// The sink after it has taken `line`: a buffered sink holds the line
    /// back behind those it already holds, any other sink is as before.
    pub open spec fn after_line(self, line: Seq<u8>) -> SinkModel {
        match self {
            SinkModel::BufferedStream { target, pending } => SinkModel::BufferedStream {
                target,
                pending: pending.push(line),
            },
            _ => self,
        }
    }

    /// What is due at once when the sink takes `line`: nothing from a
    /// buffered sink, the line itself from any other.
    pub open spec fn due_on_line(self, line: Seq<u8>) -> Option<DeliveryView> {
        match self {
            SinkModel::BufferedStream { .. } => None,
            _ => Some(DeliveryView { destination: self.destination(), bytes: line }),
        }
    }

    /// The sink after a write of a message whose line is `line`: unchanged
    /// where the message has no line.
    pub open spec fn after_write(self, line: Result<Seq<u8>, WriteError>) -> SinkModel {
        match line {
            Ok(bytes) => self.after_line(bytes),
            Err(_) => self,
        }
    }

    /// What a write of a message whose line is `line` returns.
    pub open spec fn write_outcome(self, line: Result<Seq<u8>, WriteError>) -> Result<
        Option<DeliveryView>,
        WriteError,
    > {
        match line {
            Ok(bytes) => Ok(self.due_on_line(bytes)),
            Err(error) => Err(error),
        }
    }

    /// The sink after a flush: it holds nothing back.
    pub open spec fn after_flush(self) -> SinkModel {
        match self {
            SinkModel::BufferedStream { target, .. } => SinkModel::BufferedStream {
                target,
                pending: Seq::empty(),
            },
            _ => self,
        }
    }

    /// What a flush hands out: every line held back, oldest first.
    pub open spec fn due_on_flush(self) -> DeliveryView {
        DeliveryView { destination: self.destination(), bytes: joined(self.pending()) }
    }

    /// What is due when the sink is disposed of: the flush of a buffered
    /// sink, nothing from any other.
    pub open spec fn due_on_close(self) -> Option<DeliveryView> {
        match self {
            SinkModel::BufferedStream { .. } => Some(self.due_on_flush()),
            _ => None,
        }
    }
}

/// A sink for messages.
pub trait MessageWriterChannel {
    /// Takes one message. Returns what is due at once, if anything, or the
    /// reason why the message was refused.
    fn write_message(&mut self, message: serde_json::Value) -> Result<Option<Delivery>, WriteError>;
}

/// A sink that appends each message to a file as soon as it is written.
#[derive(Debug, PartialEq, Eq)]
pub struct FileChannel {
    path: String,
}

impl View for FileChannel {
    type V = SinkModel;

    closed spec fn view(&self) -> SinkModel {
        SinkModel::AppendFile { path: self.path@ }
    }
}

impl FileChannel {
    /// A sink bound to the file at `path`. Nothing is opened or written yet.
    pub fn new(path: String) -> (channel: Self)
        ensures
            channel@ == (SinkModel::AppendFile { path: path@ }),
    {
        Self { path }
    }
}

impl MessageWriterChannel for FileChannel {
    /// Hands out the line of `message`, to be appended to the file.
    fn write_message(&mut self, message: serde_json::Value) -> (outcome: Result<Option<Delivery>, WriteError>)
        ensures
            final(self)@ == old(self)@,
            outcome_view(outcome) == old(self)@.write_outcome(message_line(message)),
    {
        match format_message(&message) {
            Ok(bytes) => Ok(
                Some(Delivery { destination: Destination::File(self.path.clone()), bytes }),
            ),
            Err(error) => Err(error),
        }
    }
}

/// A sink that writes each message to a standard stream as soon as it is
/// written.
#[derive(Debug, PartialEq, Eq)]
pub struct StreamChannel {
    stream: StdStream,
}

impl View for StreamChannel {
    type V = SinkModel;

    closed spec fn view(&self) -> SinkModel {
        SinkModel::ImmediateStream { target: self.stream }
    }
}

impl StreamChannel {
    /// A sink bound to `stream`.
    pub fn new(stream: StdStream) -> (channel: Self)
        ensures
            channel@ == (SinkModel::ImmediateStream { target: stream }),
    {
        Self { stream }
    }
}

impl MessageWriterChannel for StreamChannel {
    /// Hands out the line of `message`, to be written to the stream.
    fn write_message(&mut self, message: serde_json::Value) -> (outcome: Result<Option<Delivery>, WriteError>)
        ensures
            final(self)@ == old(self)@,
            outcome_view(outcome) == old(self)@.write_outcome(message_line(message)),
    {
        match format_message(&message) {
            Ok(bytes) => Ok(Some(Delivery { destination: Destination::Stream(self.stream), bytes })),
            Err(error) => Err(error),
        }
    }
}

/// A sink that holds every message back until it is flushed, and then
/// writes them all to a standard stream, oldest first.
#[derive(Debug, PartialEq, Eq)]
pub struct BufferedStreamChannel {
    buffer: Vec<Vec<u8>>,
    stream: StdStream,
}

impl View for BufferedStreamChannel {
    type V = SinkModel;

    closed spec fn view(&self) -> SinkModel {
        SinkModel::BufferedStream {
            target: self.stream,
            pending: Seq::new(self.buffer@.len(), |i: int| self.buffer@[i]@),
        }
    }
}

impl BufferedStreamChannel {
    /// A sink bound to `stream` that holds nothing back yet.
    pub fn new(stream: StdStream) -> (channel: Self)
        ensures
            channel@ == (SinkModel::BufferedStream { target: stream, pending: Seq::empty() }),
    {
        let channel = Self { buffer: vec![], stream };
        assert(channel@.pending() =~= Seq::empty());
        channel
    }

    /// Hands out every line held back, oldest first, as one delivery to the
    /// stream, and holds nothing back afterwards. The owner of the sink
    /// flushes it once when done with it: lines still held back when the
    /// sink is dropped are lost.
    pub fn flush(&mut self) -> (delivery: Delivery)
        ensures
            delivery@ == old(self)@.due_on_flush(),
            final(self)@ == old(self)@.after_flush(),
    {
        let ghost pending = self@.pending();
        let mut bytes: Vec<u8> = Vec::new();
        let mut i: usize = 0;
        while i < self.buffer.len()
            invariant
                *self == *old(self),
                pending == self@.pending(),
                i <= self.buffer.len(),
                bytes@ == joined(pending.take(i as int)),
            decreases self.buffer.len() - i,
        {
            proof {
                let upto = pending.take(i + 1);
                assert(upto.drop_last() =~= pending.take(i as int));
                assert(upto.last() == self.buffer@[i as int]@);
            }
            bytes.extend_from_slice(self.buffer[i].as_slice());
            i += 1;
        }
        assert(pending.take(i as int) =~= pending);
        self.buffer.clear();
        assert(self@.pending() =~= Seq::empty());
        Delivery { destination: Destination::Stream(self.stream), bytes }
    }
}

impl MessageWriterChannel for BufferedStreamChannel {
    /// Holds the line of `message` back behind those already held. Nothing
    /// is due before the sink is flushed.
    fn write_message(&mut self, message: serde_json::Value) -> (outcome: Result<Option<Delivery>, WriteError>)
        ensures
            final(self)@ == old(self)@.after_write(message_line(message)),
            outcome_view(outcome) == old(self)@.write_outcome(message_line(message)),
    {
        match format_message(&message) {
            Ok(bytes) => {
                self.buffer.push(bytes);
                assert(self@.pending() =~= old(self)@.pending().push(bytes@));
                Ok(None)
            },
            Err(error) => Err(error),
        }
    }
}

/// The sink that a writer opens: one of the three kinds.
#[derive(Debug, PartialEq, Eq)]
pub enum Sink {
    File(FileChannel),
    Stream(StreamChannel),
    Buffered(BufferedStreamChannel),
}

impl View for Sink {
    type V = SinkModel;

    open spec fn view(&self) -> SinkModel {
        match self {
            Sink::File(channel) => channel@,
            Sink::Stream(channel) => channel@,
            Sink::Buffered(channel) => channel@,
        }
    }
}

impl Sink {
    /// Disposes of the sink. A buffered sink is flushed, and what it held
    /// back is returned; from any other sink nothing is due.
    pub fn close(self) -> (due: Option<Delivery>)
        ensures
            due_view(due) == self@.due_on_close(),
    {
        match self {
            Sink::File(_) => None,
            Sink::Stream(_) => None,
            Sink::Buffered(channel) => {
                let mut channel = channel;
                Some(channel.flush())
            },
        }
    }
}

impl MessageWriterChannel for Sink {
    /// Hands the message to the sink inside.
    fn write_message(&mut self, message: serde_json::Value) -> (outcome: Result<Option<Delivery>, WriteError>)
        ensures
            final(self)@ == old(self)@.after_write(message_line(message)),
            outcome_view(outcome) == old(self)@.write_outcome(message_line(message)),
    {
        match self {
            Sink::File(channel) => channel.write_message(message),
            Sink::Stream(channel) => channel.write_message(message),
            Sink::Buffered(channel) => channel.write_message(message),
        }
    }
}

} // verus!
