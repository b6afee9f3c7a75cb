use std::collections::HashMap;

use dagster_pipes_rust::{
    compose_opened_payload, get_opened_payload, parse_stream, select_channel,
    BufferedStreamChannel, ConfigurationError, DefaultWriter, FileChannel, Lookup, MessageWriter,
    Sink, StdStream, StreamChannel,
};
use serde_json::Value;

fn params(entries: Vec<(&str, Value)>) -> serde_json::Map<String, Value> {
    let mut object = serde_json::Map::new();
    for (key, value) in entries {
        object.insert(key.to_string(), value);
    }
    object
}

fn text(value: &str) -> Value {
    Value::String(value.to_string())
}

fn open(entries: Vec<(&str, Value)>) -> Result<Sink, ConfigurationError> {
    DefaultWriter::new().open(params(entries))
}

fn as_map(payload: Vec<(String, Option<Value>)>) -> HashMap<String, Option<Value>> {
    payload.into_iter().collect()
}

#[test]
fn path_selects_the_file_sink() {
    let opened = open(vec![("path", text("/tmp/messages.jsonl"))]);
    assert_eq!(
        opened,
        Ok(Sink::File(FileChannel::new("/tmp/messages.jsonl".to_string())))
    );
}

#[test]
fn path_wins_over_every_other_key() {
    let opened = open(vec![
        ("buffered_stdio", text("stdout")),
        ("stdio", text("no such stream")),
        ("path", text("out.log")),
        ("include_stdio_in_messages", Value::Bool(true)),
    ]);
    assert_eq!(opened, Ok(Sink::File(FileChannel::new("out.log".to_string()))));
}

#[test]
fn path_is_taken_letter_for_letter() {
    let opened = open(vec![("path", text(" ./Dir With Space/Ünï.LOG "))]);
    assert_eq!(
        opened,
        Ok(Sink::File(FileChannel::new(
            " ./Dir With Space/Ünï.LOG ".to_string()
        )))
    );
}

#[test]
fn empty_path_is_still_a_path() {
    let opened = open(vec![("path", text("")), ("stdio", text("stdout"))]);
    assert_eq!(opened, Ok(Sink::File(FileChannel::new(String::new()))));
}

#[test]
fn path_that_is_no_text_selects_nothing() {
    let opened = open(vec![("path", Value::from(5)), ("stdio", text("stdout"))]);
    assert_eq!(opened, Err(ConfigurationError::NoChannel));
    let opened = open(vec![("path", Value::Null), ("buffered_stdio", text("stderr"))]);
    assert_eq!(opened, Err(ConfigurationError::NoChannel));
}

#[test]
fn stdio_selects_the_stream_sink() {
    assert_eq!(
        open(vec![("stdio", text("stdout"))]),
        Ok(Sink::Stream(StreamChannel::new(StdStream::Stdout)))
    );
    assert_eq!(
        open(vec![("stdio", text("stderr"))]),
        Ok(Sink::Stream(StreamChannel::new(StdStream::Stderr)))
    );
}

#[test]
fn stdio_name_is_read_in_any_case() {
    assert_eq!(
        open(vec![("stdio", text("STDOUT"))]),
        Ok(Sink::Stream(StreamChannel::new(StdStream::Stdout)))
    );
    assert_eq!(
        open(vec![("stdio", text("StdErr"))]),
        Ok(Sink::Stream(StreamChannel::new(StdStream::Stderr)))
    );
}

#[test]
fn stdio_wins_over_buffered_stdio() {
    let opened = open(vec![
        ("buffered_stdio", text("stderr")),
        ("stdio", text("stdout")),
    ]);
    assert_eq!(opened, Ok(Sink::Stream(StreamChannel::new(StdStream::Stdout))));
}

#[test]
fn invalid_stdio_name_is_refused() {
    assert_eq!(
        open(vec![("stdio", text("stdin"))]),
        Err(ConfigurationError::InvalidStream)
    );
    assert_eq!(
        open(vec![("stdio", text("stdout "))]),
        Err(ConfigurationError::InvalidStream)
    );
    assert_eq!(
        open(vec![("stdio", text(""))]),
        Err(ConfigurationError::InvalidStream)
    );
    assert_eq!(
        open(vec![("stdio", text("nowhere")), ("buffered_stdio", text("stdout"))]),
        Err(ConfigurationError::InvalidStream)
    );
}

#[test]
fn stdio_that_is_no_text_selects_nothing() {
    let opened = open(vec![
        ("stdio", Value::Bool(true)),
        ("buffered_stdio", text("stdout")),
    ]);
    assert_eq!(opened, Err(ConfigurationError::NoChannel));
    let opened = open(vec![("stdio", Value::Array(vec![text("stdout")]))]);
    assert_eq!(opened, Err(ConfigurationError::NoChannel));
}

#[test]
fn buffered_stdio_selects_the_buffered_sink() {
    assert_eq!(
        open(vec![("buffered_stdio", text("stdout"))]),
        Ok(Sink::Buffered(BufferedStreamChannel::new(StdStream::Stdout)))
    );
    assert_eq!(
        open(vec![("buffered_stdio", text("STDERR"))]),
        Ok(Sink::Buffered(BufferedStreamChannel::new(StdStream::Stderr)))
    );
}

#[test]
fn invalid_buffered_stdio_name_is_refused() {
    assert_eq!(
        open(vec![("buffered_stdio", text("out"))]),
        Err(ConfigurationError::InvalidBufferedStream)
    );
}

#[test]
fn buffered_stdio_that_is_no_text_selects_nothing() {
    let opened = open(vec![("buffered_stdio", Value::Object(serde_json::Map::new()))]);
    assert_eq!(opened, Err(ConfigurationError::NoChannel));
}

#[test]
fn empty_params_select_nothing() {
    assert_eq!(open(vec![]), Err(ConfigurationError::NoChannel));
}

#[test]
fn unknown_keys_select_nothing() {
    let opened = open(vec![("Path", text("x")), ("stdout", text("stdio"))]);
    assert_eq!(opened, Err(ConfigurationError::NoChannel));
}

#[test]
fn select_channel_follows_the_precedence() {
    let name = |value: &str| Lookup::Text(value.to_string());
    assert_eq!(
        select_channel(name("a"), name("stdout"), name("stderr")),
        Ok(Sink::File(FileChannel::new("a".to_string())))
    );
    assert_eq!(
        select_channel(name("a"), Lookup::Other, Lookup::Absent),
        Ok(Sink::File(FileChannel::new("a".to_string())))
    );
    assert_eq!(
        select_channel(Lookup::Absent, name("Stderr"), Lookup::Other),
        Ok(Sink::Stream(StreamChannel::new(StdStream::Stderr)))
    );
    assert_eq!(
        select_channel(Lookup::Absent, Lookup::Absent, name("sTdOuT")),
        Ok(Sink::Buffered(BufferedStreamChannel::new(StdStream::Stdout)))
    );
    assert_eq!(
        select_channel(Lookup::Other, name("stdout"), Lookup::Absent),
        Err(ConfigurationError::NoChannel)
    );
    assert_eq!(
        select_channel(Lookup::Absent, Lookup::Other, name("stdout")),
        Err(ConfigurationError::NoChannel)
    );
    assert_eq!(
        select_channel(Lookup::Absent, Lookup::Absent, Lookup::Other),
        Err(ConfigurationError::NoChannel)
    );
    assert_eq!(
        select_channel(Lookup::Absent, Lookup::Absent, Lookup::Absent),
        Err(ConfigurationError::NoChannel)
    );
    assert_eq!(
        select_channel(Lookup::Absent, name("x"), Lookup::Absent),
        Err(ConfigurationError::InvalidStream)
    );
    assert_eq!(
        select_channel(Lookup::Absent, Lookup::Absent, name("x")),
        Err(ConfigurationError::InvalidBufferedStream)
    );
}

#[test]
fn parse_stream_knows_the_two_names_in_lower_case() {
    assert_eq!(parse_stream("stdout"), Some(StdStream::Stdout));
    assert_eq!(parse_stream("stderr"), Some(StdStream::Stderr));
    assert_eq!(parse_stream("STDOUT"), None);
    assert_eq!(parse_stream("stdou"), None);
    assert_eq!(parse_stream("stdoutt"), None);
    assert_eq!(parse_stream("stdeut"), None);
    assert_eq!(parse_stream("stdér"), None);
    assert_eq!(parse_stream(""), None);
}

#[test]
fn configuration_errors_have_their_words() {
    assert_eq!(
        ConfigurationError::InvalidStream.message(),
        "Invalid stream provided for stdio writer channel"
    );
    assert_eq!(
        ConfigurationError::InvalidBufferedStream.message(),
        "Invalid stream provided for buffered stdio writer channel"
    );
    assert_eq!(ConfigurationError::NoChannel.message(), "No way to write messages");
}

#[test]
fn default_writer_reports_empty_extras() {
    let payload = as_map(get_opened_payload(&DefaultWriter::new()));
    let mut expected = HashMap::new();
    expected.insert("extras".to_string(), Some(Value::Object(serde_json::Map::new())));
    assert_eq!(payload, expected);
    assert_eq!(
        serde_json::to_string(&payload).unwrap(),
        "{\"extras\":{}}"
    );
}

#[test]
fn default_writer_by_default_is_the_default_writer() {
    let payload = get_opened_payload(&DefaultWriter::default());
    assert_eq!(
        payload,
        vec![("extras".to_string(), Some(Value::Object(serde_json::Map::new())))]
    );
    assert_eq!(
        DefaultWriter::default().open(params(vec![("stdio", text("stderr"))])),
        Ok(Sink::Stream(StreamChannel::new(StdStream::Stderr)))
    );
}

#[test]
fn default_extras_are_empty() {
    assert_eq!(DefaultWriter::new().get_opened_extras(), serde_json::Map::new());
}

struct WriterWithExtras;

impl MessageWriter for WriterWithExtras {
    type Channel = Sink;

    fn open(&self, params: serde_json::Map<String, Value>) -> Result<Sink, ConfigurationError> {
        DefaultWriter::new().open(params)
    }

    fn get_opened_extras(&self) -> serde_json::Map<String, Value> {
        let mut extras = serde_json::Map::new();
        extras.insert("a".to_string(), Value::from(1));
        extras
    }
}

#[test]
fn custom_extras_stand_under_the_extras_key() {
    let payload = get_opened_payload(&WriterWithExtras);
    let mut extras = serde_json::Map::new();
    extras.insert("a".to_string(), Value::from(1));
    assert_eq!(
        payload,
        vec![("extras".to_string(), Some(Value::Object(extras)))]
    );
    assert_eq!(
        serde_json::to_string(&as_map(payload)).unwrap(),
        "{\"extras\":{\"a\":1}}"
    );
}

#[test]
fn compose_opened_payload_wraps_the_extras() {
    let mut extras = serde_json::Map::new();
    extras.insert("run".to_string(), text("42"));
    extras.insert("nested".to_string(), Value::Array(vec![Value::Null]));
    let payload = compose_opened_payload(extras.clone());
    assert_eq!(payload.len(), 1);
    assert_eq!(payload[0].0, "extras");
    assert_eq!(payload[0].1, Some(Value::Object(extras)));
}

struct WriterWithoutExtras;

impl MessageWriter for WriterWithoutExtras {
    type Channel = Sink;

    fn open(&self, params: serde_json::Map<String, Value>) -> Result<Sink, ConfigurationError> {
        DefaultWriter::new().open(params)
    }
}

#[test]
fn writer_that_keeps_the_default_supplies_empty_extras() {
    assert_eq!(WriterWithoutExtras.get_opened_extras(), serde_json::Map::new());
    assert!(WriterWithoutExtras.get_opened_extras().is_empty());
    assert_eq!(
        get_opened_payload(&WriterWithoutExtras),
        vec![(
            "extras".to_string(),
            Some(Value::Object(serde_json::Map::new()))
        )]
    );
}
