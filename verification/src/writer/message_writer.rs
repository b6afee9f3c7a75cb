//! Writers: how the connection parameters select a sink, and what a writer
//! reports once its channel is open.

use vstd::prelude::*;
use vstd::utf8::encode_utf8_decode_utf8;

use crate::writer::json::{
    into_object_value, lookup, lowercase, members, object_value, to_lowercase, Lookup, LookupView,
};
use crate::writer::message_writer_channel::{
    BufferedStreamChannel, FileChannel, MessageWriterChannel, Sink, SinkModel, StreamChannel,
};
use crate::writer::StdStream;

mod private;

use self::private::Token;

verus! {

/// The parameter that names the file to append to.
pub const FILE_PATH_KEY: &'static str = "path";

/// The parameter that names the stream to write to at once.
pub const STDIO_KEY: &'static str = "stdio";

/// The parameter that names the stream to write to on flush.
pub const BUFFERED_STDIO_KEY: &'static str = "buffered_stdio";

/// The name of the standard output stream.
pub const STDOUT: &'static str = "stdout";

/// The name of the standard error stream.
pub const STDERR: &'static str = "stderr";

/// The key of the opened payload under which the extras stand.
pub const EXTRAS_KEY: &'static str = "extras";

/// Why the connection parameters select no sink.
#[derive(Clone, Copy, Debug, PartialEq, Eq, Structural)]
pub enum ConfigurationError {
    /// The stream named for immediate writing is neither of the two
    /// standard streams.
    InvalidStream,
    /// The stream named for buffered writing is neither of the two standard
    /// streams.
    InvalidBufferedStream,
    /// The parameters name no file and no stream.
    NoChannel,
}

impl ConfigurationError {
    /// The words in which the error is reported.
    pub fn message(&self) -> (words: &'static str)
        ensures
            words@ == match *self {
                ConfigurationError::InvalidStream => "Invalid stream provided for stdio writer channel"@,
                ConfigurationError::InvalidBufferedStream => "Invalid stream provided for buffered stdio writer channel"@,
                ConfigurationError::NoChannel => "No way to write messages"@,
            },
    {
        match self {
            ConfigurationError::InvalidStream => "Invalid stream provided for stdio writer channel",
            ConfigurationError::InvalidBufferedStream => "Invalid stream provided for buffered stdio writer channel",
            ConfigurationError::NoChannel => "No way to write messages",
        }
    }
}

/// The standard stream that a name in lower case stands for.
pub open spec fn stream_named(lowered: Seq<char>) -> Option<StdStream> {
    if lowered == STDOUT@ {
        Some(StdStream::Stdout)
    } else if lowered == STDERR@ {
        Some(StdStream::Stderr)
    } else {
        None
    }
}

/// Whether two texts are the same, character by character.
fn same_text(left: &str, right: &str) -> (same: bool)
    ensures
        same == (left@ == right@),
{
    let a = left.as_bytes();
    let b = right.as_bytes();
    proof {
        encode_utf8_decode_utf8(left@);
        encode_utf8_decode_utf8(right@);
    }
    if a.len() != b.len() {
        return false;
    }
    let mut i: usize = 0;
    while i < a.len()
        invariant
            a@.len() == b@.len(),
            i <= a@.len(),
            forall|j: int| 0 <= j < i ==> a@[j] == b@[j],
            a@ == b@ ==> left@ == right@,
            left@ == right@ ==> a@ == b@,
        decreases a.len() - i,
    {
        if a[i] != b[i] {
            return false;
        }
        i += 1;
    }
    assert(a@ =~= b@);
    true
}

/// The standard stream that `lowered`, a name in lower case, stands for.
pub fn parse_stream(lowered: &str) -> (stream: Option<StdStream>)
    ensures
        stream == stream_named(lowered@),
{
    if same_text(lowered, STDOUT) {
        Some(StdStream::Stdout)
    } else if same_text(lowered, STDERR) {
        Some(StdStream::Stderr)
    } else {
        None
    }
}

/// The sink that three parameters select, each given as what the
/// connection parameters hold under its key.
///
/// A path given as text selects the file, whatever the other two are. With
/// no path at all, a stream name given as text selects immediate writing to
/// that stream. With neither of those two keys, a buffered stream name
/// given as text selects buffered writing to that stream. A stream is named
/// by "stdout" or "stderr" in any case of letters; any other name is
/// refused. Whatever else the parameters hold selects nothing.
pub open spec fn selected(path: LookupView, stdio: LookupView, buffered: LookupView) -> Result<SinkModel, ConfigurationError> {
    match (path, stdio, buffered) {
        (LookupView::Text(path), _, _) => Ok(SinkModel::AppendFile { path }),
        (LookupView::Absent, LookupView::Text(name), _) => match stream_named(lowercase(name)) {
            Some(target) => Ok(SinkModel::ImmediateStream { target }),
            None => Err(ConfigurationError::InvalidStream),
        },
        (LookupView::Absent, LookupView::Absent, LookupView::Text(name)) => match stream_named(
            lowercase(name),
        ) {
            Some(target) => Ok(SinkModel::BufferedStream { target, pending: Seq::empty() }),
            None => Err(ConfigurationError::InvalidBufferedStream),
        },
        _ => Err(ConfigurationError::NoChannel),
    }
}

/// The sink that connection parameters with the given members select.
pub open spec fn channel_for(params: Map<Seq<char>, Option<Seq<char>>>) -> Result<SinkModel, ConfigurationError> {
    selected(
        Lookup::of(params, FILE_PATH_KEY@),
        Lookup::of(params, STDIO_KEY@),
        Lookup::of(params, BUFFERED_STDIO_KEY@),
    )
}

/// A path always wins: connection parameters that give a path as text
/// select the file sink bound to exactly that path, whatever else they
/// hold.
pub proof fn lemma_path_selects_file(params: Map<Seq<char>, Option<Seq<char>>>, path: Seq<char>)
    requires
        params.contains_key(FILE_PATH_KEY@),
        params[FILE_PATH_KEY@] == Some(path),
    ensures
        channel_for(params) == Ok::<SinkModel, ConfigurationError>(SinkModel::AppendFile { path }),
{
}

/// Connection parameters without a path that give a stream name as text
/// select the immediate stream sink bound to the stream so named, in any
/// case of letters, whatever they hold for buffered writing. A name that is
/// neither "stdout" nor "stderr" is refused.
pub proof fn lemma_stdio_selects_stream(params: Map<Seq<char>, Option<Seq<char>>>, name: Seq<char>)
    requires
        !params.contains_key(FILE_PATH_KEY@),
        params.contains_key(STDIO_KEY@),
        params[STDIO_KEY@] == Some(name),
    ensures
        lowercase(name) == STDOUT@ ==> channel_for(params) == Ok::<SinkModel, ConfigurationError>(
            SinkModel::ImmediateStream { target: StdStream::Stdout },
        ),
        lowercase(name) == STDERR@ ==> channel_for(params) == Ok::<SinkModel, ConfigurationError>(
            SinkModel::ImmediateStream { target: StdStream::Stderr },
        ),
        lowercase(name) != STDOUT@ && lowercase(name) != STDERR@ ==> channel_for(params) == Err::<
            SinkModel,
            ConfigurationError,
        >(ConfigurationError::InvalidStream),
{
    lemma_stream_names_differ();
}

/// Connection parameters with neither a path nor a stream name that give
/// a buffered stream name as text select the buffered stream sink bound to
/// the stream so named, in any case of letters, with nothing held back. A
/// name that is neither "stdout" nor "stderr" is refused.
pub proof fn lemma_buffered_stdio_selects_buffer(
    params: Map<Seq<char>, Option<Seq<char>>>,
    name: Seq<char>,
)
    requires
        !params.contains_key(FILE_PATH_KEY@),
        !params.contains_key(STDIO_KEY@),
        params.contains_key(BUFFERED_STDIO_KEY@),
        params[BUFFERED_STDIO_KEY@] == Some(name),
    ensures
        lowercase(name) == STDOUT@ ==> channel_for(params) == Ok::<SinkModel, ConfigurationError>(
            SinkModel::BufferedStream { target: StdStream::Stdout, pending: Seq::empty() },
        ),
        lowercase(name) == STDERR@ ==> channel_for(params) == Ok::<SinkModel, ConfigurationError>(
            SinkModel::BufferedStream { target: StdStream::Stderr, pending: Seq::empty() },
        ),
        lowercase(name) != STDOUT@ && lowercase(name) != STDERR@ ==> channel_for(params) == Err::<
            SinkModel,
            ConfigurationError,
        >(ConfigurationError::InvalidBufferedStream),
{
    lemma_stream_names_differ();
}

/// Connection parameters with none of the three keys select nothing: so
/// do, in particular, empty ones.
pub proof fn lemma_no_key_selects_nothing(params: Map<Seq<char>, Option<Seq<char>>>)
    requires
        !params.contains_key(FILE_PATH_KEY@),
        !params.contains_key(STDIO_KEY@),
        !params.contains_key(BUFFERED_STDIO_KEY@),
    ensures
        channel_for(params) == Err::<SinkModel, ConfigurationError>(ConfigurationError::NoChannel),
        channel_for(Map::empty()) == Err::<SinkModel, ConfigurationError>(
            ConfigurationError::NoChannel,
        ),
{
}

/// The names of the two standard streams are two names.
pub proof fn lemma_stream_names_differ()
    ensures
        STDOUT@ != STDERR@,
{
    reveal_strlit("stdout");
    reveal_strlit("stderr");
    assert(STDOUT@[3] == 'o');
    assert(STDERR@[3] == 'e');
}

/// What opening a channel returns, as a mathematical value.
pub open spec fn opened_view(opened: Result<Sink, ConfigurationError>) -> Result<SinkModel, ConfigurationError> {
    match opened {
        Ok(sink) => Ok(sink@),
        Err(error) => Err(error),
    }
}

/// Selects and makes the sink for three parameters, each given as what the
/// connection parameters hold under its key.
pub fn select_channel(path: Lookup, stdio: Lookup, buffered: Lookup) -> (opened: Result<Sink, ConfigurationError>)
    ensures
        opened_view(opened) == selected(path@, stdio@, buffered@),
{
    match (path, stdio, buffered) {
        (Lookup::Text(path), _, _) => Ok(Sink::File(FileChannel::new(path))),
        (Lookup::Absent, Lookup::Text(name), _) => {
            let lowered = to_lowercase(name.as_str());
            match parse_stream(lowered.as_str()) {
                Some(target) => Ok(Sink::Stream(StreamChannel::new(target))),
                None => Err(ConfigurationError::InvalidStream),
            }
        },
        (Lookup::Absent, Lookup::Absent, Lookup::Text(name)) => {
            let lowered = to_lowercase(name.as_str());
            match parse_stream(lowered.as_str()) {
                Some(target) => Ok(Sink::Buffered(BufferedStreamChannel::new(target))),
                None => Err(ConfigurationError::InvalidBufferedStream),
            }
        },
        _ => Err(ConfigurationError::NoChannel),
    }
}

/// What a writer reports once its channel is open: entries of a key and
/// the JSON value under it, if any. No key occurs twice.
pub type OpenedPayload = Vec<(String, Option<serde_json::Value>)>;

/// The opened payload that reports `extras`: one entry, under the key
/// "extras", that holds the extras as a JSON object.
pub open spec fn opened_payload(extras: serde_json::Map<String, serde_json::Value>) -> Seq<(Seq<char>, Option<serde_json::Value>)> {
    seq![(EXTRAS_KEY@, Some(object_value(extras)))]
}

/// The mathematical value of a payload: its entries in order, each key as
/// its text.
pub open spec fn payload_view(payload: OpenedPayload) -> Seq<(Seq<char>, Option<serde_json::Value>)> {
    Seq::new(payload@.len(), |i: int| (payload@[i].0@, payload@[i].1))
}

/// Composes the opened payload that reports `extras`.
pub fn compose_opened_payload(extras: serde_json::Map<String, serde_json::Value>) -> (payload: OpenedPayload)
    ensures
        payload_view(payload) == opened_payload(extras),
{
    let mut payload: OpenedPayload = Vec::new();
    payload.push((EXTRAS_KEY.to_owned(), Some(into_object_value(extras))));
    assert(payload_view(payload) =~= opened_payload(extras));
    payload
}

/// Whether `extras` are extras that `writer` may supply: whether they are
/// as the writer's own `get_opened_extras` promises.
pub open spec fn supplies<W: MessageWriter + ?Sized>(writer: &W, extras: serde_json::Map<String, serde_json::Value>) -> bool {
    call_ensures(W::get_opened_extras, (writer,), extras)
}

/// Whether `payload` is what `writer` reports once its channel is open:
/// the opened payload for extras that the writer supplies.
pub open spec fn reports<W: MessageWriter + ?Sized>(writer: &W, payload: Seq<(Seq<char>, Option<serde_json::Value>)>) -> bool {
    exists|extras: serde_json::Map<String, serde_json::Value>| #[trigger] supplies(writer, extras) && payload == opened_payload(extras)
}

/// Opens the channel through which messages go back to the orchestrator,
/// and reports what the orchestrator can only learn once the channel is
/// open.
pub trait MessageWriter {
    type Channel: MessageWriterChannel;

    /// Makes the sink that the connection parameters ask for.
    fn open(&self, params: serde_json::Map<String, serde_json::Value>) -> Result<Self::Channel, ConfigurationError>;

    /// The payload that is reported once the channel is open: the extras of
    /// this writer under the key "extras". A writer does not replace this
    /// method; it supplies its own extras instead.
    fn get_opened_payload(&self, _token: Token) -> (payload: OpenedPayload)
        ensures
            exists|extras: serde_json::Map<String, serde_json::Value>| #[trigger] call_ensures(Self::get_opened_extras, (self,), extras) && payload_view(payload) == opened_payload(extras),
    {
        let extras = self.get_opened_extras();
        assert(call_ensures(Self::get_opened_extras, (self,), extras));
        compose_opened_payload(extras)
    }

    /// What this writer has to tell the orchestrator. A writer that has
    /// something to tell replaces this method; one that does not replace it
    /// supplies an object without members.
    fn get_opened_extras(&self) -> (extras: serde_json::Map<String, serde_json::Value>)
        default_ensures
            members(extras) =~= Map::empty(),
    {
        serde_json::Map::new()
    }
}

/// The payload that `writer` reports once its channel is open.
pub fn get_opened_payload<W: MessageWriter>(writer: &W) -> (payload: OpenedPayload)
    ensures
        reports(writer, payload_view(payload)),
{
    let payload = writer.get_opened_payload(Token);
    proof {
        let extras = choose|extras: serde_json::Map<String, serde_json::Value>| #[trigger] call_ensures(W::get_opened_extras, (writer,), extras) && payload_view(payload) == opened_payload(extras);
        assert(supplies(writer, extras));
    }
    payload
}

/// The writer that selects among a file, a standard stream and a buffered
/// standard stream, and has no extras to report.
#[derive(Debug)]
pub struct DefaultWriter;

impl DefaultWriter {
    pub fn new() -> (writer: Self)
        ensures
            writer == DefaultWriter,
    {
        Self
    }
}

impl Default for DefaultWriter {
    fn default() -> (writer: Self)
        ensures
            writer == DefaultWriter,
    {
        Self::new()
    }
}

impl MessageWriter for DefaultWriter {
    type Channel = Sink;

    /// Makes the sink that `params` select.
    fn open(&self, params: serde_json::Map<String, serde_json::Value>) -> (opened: Result<Sink, ConfigurationError>)
        ensures
            opened_view(opened) == channel_for(members(params)),
    {
        let path = lookup(&params, FILE_PATH_KEY);
        let stdio = lookup(&params, STDIO_KEY);
        let buffered = lookup(&params, BUFFERED_STDIO_KEY);
        select_channel(path, stdio, buffered)
    }

    /// The default writer has nothing to report: its extras are empty.
    fn get_opened_extras(&self) -> (extras: serde_json::Map<String, serde_json::Value>)
        ensures
            members(extras) =~= Map::empty(),
    {
        serde_json::Map::new()
    }
}

/// The default writer reports the opened payload for empty extras.
pub proof fn lemma_default_writer_reports_no_extras(writer: &DefaultWriter, payload: Seq<(Seq<char>, Option<serde_json::Value>)>)
    requires
        reports(writer, payload),
    ensures
        exists|extras: serde_json::Map<String, serde_json::Value>| members(extras) =~= Map::empty() && payload == #[trigger] opened_payload(extras),
{
    let extras = choose|extras: serde_json::Map<String, serde_json::Value>| #[trigger] supplies(writer, extras) && payload == opened_payload(extras);
    assert(members(extras) =~= Map::empty());
    assert(payload == opened_payload(extras));
}

} // verus!
