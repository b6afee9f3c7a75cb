//! What a sink hands out over a run of writes, and what that makes of the
//! destination.

use vstd::prelude::*;

use crate::writer::json::json_encoding;
use crate::writer::message_writer_channel::{
    joined, line_of, message_line, DeliveryView, DestinationView, SinkModel, WriteError, LINE_END,
};
use crate::writer::StdStream;

verus! {

/// The lines of the messages of `messages` that have one, in order.
pub open spec fn lines_of(messages: Seq<serde_json::Value>) -> Seq<Seq<u8>>
    decreases messages.len(),
{
    if messages.len() == 0 {
        Seq::empty()
    } else {
        match message_line(messages.last()) {
            Ok(line) => lines_of(messages.drop_last()).push(line),
            Err(_) => lines_of(messages.drop_last()),
        }
    }
}

/// Whether every message of `messages` has a line.
pub open spec fn all_writable(messages: Seq<serde_json::Value>) -> bool {
    forall|i: int| 0 <= i < messages.len() ==> (#[trigger] message_line(messages[i])) is Ok
}

/// How many lines end in `bytes`.
pub open spec fn line_ends(bytes: Seq<u8>) -> nat
    decreases bytes.len(),
{
    if bytes.len() == 0 {
        0
    } else if bytes.last() == LINE_END {
        line_ends(bytes.drop_last()) + 1
    } else {
        line_ends(bytes.drop_last())
    }
}

/// The content of a destination after `bytes` were delivered to it: what
/// it held before, followed by the bytes.
pub open spec fn appended(before: Seq<u8>, bytes: Seq<u8>) -> Seq<u8> {
    before + bytes
}

impl SinkModel {
    /// The sink after the messages of `messages` were written to it, in
    /// order.
    pub open spec fn after_writes(self, messages: Seq<serde_json::Value>) -> SinkModel
        decreases messages.len(),
    {
        if messages.len() == 0 {
            self
        } else {
            self.after_writes(messages.drop_last()).after_write(message_line(messages.last()))
        }
    }

    /// The bytes that a write of `message` hands out at once.
    pub open spec fn due_on_write(self, message: serde_json::Value) -> Seq<u8> {
        match self.write_outcome(message_line(message)) {
            Ok(Some(delivery)) => delivery.bytes,
            _ => Seq::empty(),
        }
    }

    /// The bytes that the writes of `messages`, in order, hand out at
    /// once, one write after the other.
    pub open spec fn due_on_writes(self, messages: Seq<serde_json::Value>) -> Seq<u8>
        decreases messages.len(),
    {
        if messages.len() == 0 {
            Seq::empty()
        } else {
            self.due_on_writes(messages.drop_last()) + self.after_writes(
                messages.drop_last(),
            ).due_on_write(messages.last())
        }
    }
}

/// The line ends of two runs of bytes add up when one follows the other.
pub proof fn lemma_line_ends_add(left: Seq<u8>, right: Seq<u8>)
    ensures
        line_ends(left + right) == line_ends(left) + line_ends(right),
    decreases right.len(),
{
    if right.len() == 0 {
        assert(left + right =~= left);
    } else {
        assert((left + right).drop_last() =~= left + right.drop_last());
        assert((left + right).last() == right.last());
        lemma_line_ends_add(left, right.drop_last());
    }
}

/// Bytes among which there is no line feed end no line.
pub proof fn lemma_no_line_end(bytes: Seq<u8>)
    requires
        !bytes.contains(LINE_END),
    ensures
        line_ends(bytes) == 0,
    decreases bytes.len(),
{
    if bytes.len() > 0 {
        assert(bytes[bytes.len() - 1] == bytes.last());
        assert forall|i: int| 0 <= i < bytes.drop_last().len() implies bytes.drop_last()[i]
            != LINE_END by {
            assert(bytes[i] == bytes.drop_last()[i]);
        }
        lemma_no_line_end(bytes.drop_last());
    }
}

/// The line of an encoded message is one line: it ends in the one line
/// feed that it holds.
pub proof fn lemma_line_is_one_line(encoded: Option<Seq<u8>>)
    requires
        line_of(encoded) is Ok,
    ensures
        encoded is Some,
        line_of(encoded)->Ok_0 == encoded->Some_0.push(LINE_END),
        !encoded->Some_0.contains(LINE_END),
        line_ends(line_of(encoded)->Ok_0) == 1,
{
    let bytes = encoded->Some_0;
    lemma_no_line_end(bytes);
    assert(bytes.push(LINE_END).drop_last() =~= bytes);
}

/// As many lines end in the lines of any messages, one after the other, as
/// there are lines: one for each message that has a line.
pub proof fn lemma_lines_are_counted(messages: Seq<serde_json::Value>)
    ensures
        line_ends(joined(lines_of(messages))) == lines_of(messages).len(),
        lines_of(messages).len() <= messages.len(),
        all_writable(messages) ==> lines_of(messages).len() == messages.len(),
    decreases messages.len(),
{
    if messages.len() > 0 {
        let rest = messages.drop_last();
        lemma_lines_are_counted(rest);
        assert(all_writable(messages) ==> all_writable(rest)) by {
            if all_writable(messages) {
                assert forall|i: int| 0 <= i < rest.len() implies (#[trigger] message_line(
                    rest[i],
                )) is Ok by {
                    assert(rest[i] == messages[i]);
                }
            }
        }
        assert(all_writable(messages) ==> message_line(messages.last()) is Ok) by {
            if all_writable(messages) {
                assert(messages.last() == messages[messages.len() - 1]);
            }
        }
        match message_line(messages.last()) {
            Ok(line) => {
                let lines = lines_of(rest).push(line);
                assert(lines.drop_last() =~= lines_of(rest));
                lemma_line_is_one_line(json_encoding(messages.last()));
                lemma_line_ends_add(joined(lines_of(rest)), line);
            },
            Err(_) => {},
        }
    }
}

/// Where every message has a line, the lines of the messages are as many
/// as the messages, and each is the encoding of its message followed by a
/// line feed.
pub proof fn lemma_lines_follow_messages(messages: Seq<serde_json::Value>)
    requires
        all_writable(messages),
    ensures
        lines_of(messages).len() == messages.len(),
        forall|i: int|
            0 <= i < messages.len() ==> message_line(messages[i]) == Ok::<Seq<u8>, WriteError>(
                #[trigger] lines_of(messages)[i],
            ),
    decreases messages.len(),
{
    if messages.len() > 0 {
        let rest = messages.drop_last();
        assert(all_writable(rest)) by {
            assert forall|i: int| 0 <= i < rest.len() implies (#[trigger] message_line(
                rest[i],
            )) is Ok by {
                assert(rest[i] == messages[i]);
            }
        }
        assert(message_line(messages[messages.len() - 1]) is Ok);
        lemma_lines_follow_messages(rest);
        assert forall|i: int| 0 <= i < messages.len() implies message_line(messages[i]) == Ok::<
            Seq<u8>,
            WriteError,
        >(#[trigger] lines_of(messages)[i]) by {
            if i < rest.len() {
                assert(rest[i] == messages[i]);
                assert(lines_of(messages)[i] == lines_of(rest)[i]);
            }
        }
    }
}

/// A sink that does not buffer hands out the line of each message as the
/// message is written, and holds nothing back: over any writes it stays as
/// it was, and what it has handed out is the lines of the messages, in the
/// order of the writes.
pub proof fn lemma_unbuffered_writes(sink: SinkModel, messages: Seq<serde_json::Value>)
    requires
        !(sink is BufferedStream),
    ensures
        sink.after_writes(messages) == sink,
        sink.due_on_writes(messages) == joined(lines_of(messages)),
    decreases messages.len(),
{
    if messages.len() > 0 {
        let rest = messages.drop_last();
        lemma_unbuffered_writes(sink, rest);
        match message_line(messages.last()) {
            Ok(line) => {
                assert(lines_of(messages).drop_last() =~= lines_of(rest));
                assert(sink.due_on_write(messages.last()) == line);
            },
            Err(_) => {
                assert(sink.due_on_write(messages.last()) == Seq::<u8>::empty());
                assert(joined(lines_of(rest)) + Seq::<u8>::empty() =~= joined(lines_of(rest)));
            },
        }
    }
}

/// A buffered sink hands out nothing as messages are written: it holds
/// the line of each behind those it held before.
pub proof fn lemma_buffered_writes(sink: SinkModel, messages: Seq<serde_json::Value>)
    requires
        sink is BufferedStream,
    ensures
        sink.after_writes(messages) == (SinkModel::BufferedStream {
            target: sink->BufferedStream_target,
            pending: sink.pending() + lines_of(messages),
        }),
        sink.due_on_writes(messages) == Seq::<u8>::empty(),
    decreases messages.len(),
{
    if messages.len() == 0 {
        assert(sink.pending() + lines_of(messages) =~= sink.pending());
    } else {
        let rest = messages.drop_last();
        lemma_buffered_writes(sink, rest);
        match message_line(messages.last()) {
            Ok(line) => {
                assert((sink.pending() + lines_of(rest)).push(line) =~= sink.pending()
                    + lines_of(messages));
            },
            Err(_) => {},
        }
    }
}

/// Messages written to a file sink are appended to its file, one line
/// each, in the order of the writes.
///
/// Every write of a message that has a line hands out that line,
/// addressed to the file of the sink. After the writes the file holds what
/// it held before, followed by the lines of the messages in the order of
/// the writes: as many lines as messages where every message has a line.
/// Disposing of the sink adds nothing.
pub proof fn lemma_file_sink_appends_each_line(
    path: Seq<char>,
    messages: Seq<serde_json::Value>,
    before: Seq<u8>,
)
    ensures
        ({
            let sink = SinkModel::AppendFile { path };
            &&& forall|line: Seq<u8>| #[trigger]
                sink.due_on_line(line) == Some(
                    DeliveryView { destination: DestinationView::File(path), bytes: line },
                )
            &&& sink.after_writes(messages) == sink
            &&& appended(before, sink.due_on_writes(messages)) == before + joined(
                lines_of(messages),
            )
            &&& line_ends(sink.due_on_writes(messages)) == lines_of(messages).len()
            &&& line_ends(appended(before, sink.due_on_writes(messages))) == line_ends(before)
                + lines_of(messages).len()
            &&& all_writable(messages) ==> lines_of(messages).len() == messages.len()
            &&& all_writable(messages) ==> forall|i: int|
                0 <= i < messages.len() ==> #[trigger] lines_of(messages)[i] == json_encoding(
                    messages[i],
                )->Some_0.push(LINE_END)
            &&& sink.due_on_close() is None
        }),
{
    let sink = SinkModel::AppendFile { path };
    lemma_unbuffered_writes(sink, messages);
    lemma_lines_are_counted(messages);
    lemma_line_ends_add(before, joined(lines_of(messages)));
    if all_writable(messages) {
        lemma_lines_follow_messages(messages);
    }
}

/// Every write to an immediate stream sink of a message that has a line
/// hands out exactly that one line, addressed to the stream of the sink,
/// and leaves nothing behind in the sink.
pub proof fn lemma_stream_sink_writes_at_once(target: StdStream, message: serde_json::Value)
    requires
        message_line(message) is Ok,
    ensures
        ({
            let sink = SinkModel::ImmediateStream { target };
            let line = message_line(message)->Ok_0;
            &&& sink.write_outcome(message_line(message)) == Ok::<Option<DeliveryView>, WriteError>(
                Some(DeliveryView { destination: DestinationView::Stream(target), bytes: line }),
            )
            &&& sink.after_write(message_line(message)) == sink
            &&& line_ends(line) == 1
            &&& sink.due_on_close() is None
        }),
{
    lemma_line_is_one_line(json_encoding(message));
}

/// Messages written to a buffered stream sink reach the stream when the
/// sink is disposed of, and not before.
///
/// The writes hand out nothing. Disposing of the sink then hands out,
/// addressed to the stream of the sink, the lines of the messages in the
/// order of the writes, as many lines as messages where every message has
/// a line, and leaves the sink with nothing held back.
pub proof fn lemma_buffered_sink_delivers_on_close(
    target: StdStream,
    messages: Seq<serde_json::Value>,
)
    ensures
        ({
            let sink = SinkModel::BufferedStream { target, pending: Seq::empty() };
            let written = sink.after_writes(messages);
            &&& sink.due_on_writes(messages) == Seq::<u8>::empty()
            &&& forall|i: int|
                0 <= i <= messages.len() ==> (#[trigger] sink.due_on_writes(messages.take(i)))
                    == Seq::<u8>::empty()
            &&& written.due_on_close() == Some(
                DeliveryView {
                    destination: DestinationView::Stream(target),
                    bytes: joined(lines_of(messages)),
                },
            )
            &&& line_ends(joined(lines_of(messages))) == lines_of(messages).len()
            &&& all_writable(messages) ==> lines_of(messages).len() == messages.len()
            &&& all_writable(messages) ==> forall|i: int|
                0 <= i < messages.len() ==> #[trigger] lines_of(messages)[i] == json_encoding(
                    messages[i],
                )->Some_0.push(LINE_END)
            &&& written.after_flush().pending() == Seq::<Seq<u8>>::empty()
        }),
{
    if all_writable(messages) {
        lemma_lines_follow_messages(messages);
    }
    let sink = SinkModel::BufferedStream { target, pending: Seq::empty() };
    lemma_buffered_writes(sink, messages);
    assert(sink.pending() + lines_of(messages) =~= lines_of(messages));
    lemma_lines_are_counted(messages);
    assert forall|i: int| 0 <= i <= messages.len() implies (#[trigger] sink.due_on_writes(
        messages.take(i),
    )) == Seq::<u8>::empty() by {
        lemma_buffered_writes(sink, messages.take(i));
    }
}

} // verus!
