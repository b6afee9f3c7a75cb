//! Message writers, the sinks they open, and the standard streams a sink can
//! be bound to.

use vstd::prelude::*;

pub mod json;
pub mod message_writer;
pub mod message_writer_channel;
pub mod trace;

verus! {

/// One of the two standard output streams of the process.
#[derive(Clone, Copy, Debug, PartialEq, Eq, Structural)]
pub enum StdStream {
    Stdout,
    Stderr,
}

} // verus!
