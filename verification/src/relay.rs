//! What the relay workers do with the output of a server.
//!
//! Each worker owns one output stream of one server and reads it line by line until the
//! stream ends; it needs no signal to stop, because the stream ends when the process does.
//! What the worker does with each read, and what it writes to the log, is decided here.

use vstd::prelude::*;
use crate::failure::StreamKind;

verus! {

/// What one read from a stream gave.
#[derive(Debug, Clone, PartialEq, Eq)]
pub enum StreamRead {
    /// A line, without its line ending.
    Line { text: String },
    /// Something that could not be read as a line.
    Unreadable,
    /// The stream has ended.
    End,
}

/// What the worker does after a read.
#[derive(Debug, Clone, PartialEq, Eq)]
pub enum RelayAction {
    /// Write the text to the log and read on.
    Write { text: String },
    /// Read on.
    Skip,
    /// Stop: the stream has ended.
    Stop,
}

/// A line of output, marked with the server's name and the stream it came from.
pub open spec fn relay_text(name: Seq<char>, stream: StreamKind, line: Seq<char>) -> Seq<char> {
    "["@ + name + "] "@ + stream.label_text() + ": "@ + line
}

/// Makes the log line for one line that a server wrote.
pub fn relay_line(name: &str, stream: StreamKind, line: &str) -> (text: String)
    ensures
        text@ == relay_text(name@, stream, line@),
{
    let mut text = String::from_str("[");
    text.append(name);
    text.append("] ");
    text.append(stream.label());
    text.append(": ");
    text.append(line);
    text
}

/// Decides what a worker does with one read: a line is written to the log with its mark,
/// what cannot be read is passed over, and the end of the stream ends the worker.
pub fn relay_step(name: &str, stream: StreamKind, read: StreamRead) -> (action: RelayAction)
    ensures
        match read {
            StreamRead::Line { text } => action matches RelayAction::Write { text: written }
                && written@ == relay_text(name@, stream, text@),
            StreamRead::Unreadable => action == RelayAction::Skip,
            StreamRead::End => action == RelayAction::Stop,
        },
{
    match read {
        StreamRead::Line { text } => RelayAction::Write {
            text: relay_line(name, stream, text.as_str()),
        },
        StreamRead::Unreadable => RelayAction::Skip,
        StreamRead::End => RelayAction::Stop,
    }
}

} // verus!
