//! Channels through which a worker process reports structured messages back
//! to the process that orchestrates it.
//!
//! A writer reads the connection parameters handed over by the orchestrator
//! and selects one sink: a file that is appended to, a standard stream that is
//! written at once, or a standard stream that is written when the sink is
//! flushed. Sinks decide what leaves the process and when; the bytes they hand
//! out are sent by the caller.

pub mod writer;

pub use crate::writer::json::Lookup;
pub use crate::writer::message_writer::{
    compose_opened_payload, get_opened_payload, parse_stream, select_channel, ConfigurationError,
    DefaultWriter, MessageWriter, OpenedPayload,
};
pub use crate::writer::message_writer_channel::{
    format_message, frame_line, BufferedStreamChannel, Delivery, Destination, FileChannel,
    MessageWriterChannel, Sink, StreamChannel, WriteError,
};
pub use crate::writer::StdStream;
