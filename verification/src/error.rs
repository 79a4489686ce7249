//! Error taxonomy of the engine.
//!
//! `SpawnError` is fatal to a single session only; it becomes that session's
//! `Failed` state and never tears down the multiplexer. `IoError` values
//! describe the health of one pseudo-terminal stream. `WarpError` is the
//! application-level error that commands and managers report.

use vstd::prelude::*;

verus! {

/// Why a process could not be spawned. Fatal to its session only.
#[derive(Clone, Copy, Debug, PartialEq, Eq, Structural)]
pub enum SpawnError {
    /// The command does not resolve to an executable.
    NotFound,
    /// The command resolved but may not be executed.
    PermissionDenied,
    /// No pseudo-terminal device (or process slot) was available.
    ResourceExhausted,
}

/// Health of a pseudo-terminal stream, as the reader or writer reports it.
#[derive(Clone, Copy, Debug, PartialEq, Eq, Structural)]
pub enum IoError {
    /// The child exited and every buffered byte has been drained.
    Closed,
    /// The other end of the stream went away mid-write.
    BrokenPipe,
    /// Nothing is available right now; an internal signal, never surfaced.
    WouldBlock,
}

/// Application-level error reported by commands, managers and configuration.
#[derive(Clone, Debug, PartialEq)]
pub enum WarpError {
    IoError(String),
    ConfigError(String),
    TerminalError(String),
    PtyError(String),
    AIError(String),
    PluginError(String),
    SerializationError(String),
    CommandError(String),
}

impl WarpError {
    /// The category and text of the error as one line, for display.
    pub fn message(&self) -> (r: String)
        ensures
            r@ == self.message_spec(),
    {
        let (label, msg): (&str, &String) = match self {
            WarpError::IoError(m) => ("IO Error: ", m),
            WarpError::ConfigError(m) => ("Config Error: ", m),
            WarpError::TerminalError(m) => ("Terminal Error: ", m),
            WarpError::PtyError(m) => ("PTY Error: ", m),
            WarpError::AIError(m) => ("AI Error: ", m),
            WarpError::PluginError(m) => ("Plugin Error: ", m),
            WarpError::SerializationError(m) => ("Serialization Error: ", m),
            WarpError::CommandError(m) => ("Command Error: ", m),
        };
        let mut r = label.to_owned();
        r.append(msg.as_str());
        r
    }

    /// The line `message` promises: a fixed label followed by the payload.
    pub open spec fn message_spec(&self) -> Seq<char> {
        match self {
            WarpError::IoError(m) => "IO Error: "@ + m@,
            WarpError::ConfigError(m) => "Config Error: "@ + m@,
            WarpError::TerminalError(m) => "Terminal Error: "@ + m@,
            WarpError::PtyError(m) => "PTY Error: "@ + m@,
            WarpError::AIError(m) => "AI Error: "@ + m@,
            WarpError::PluginError(m) => "Plugin Error: "@ + m@,
            WarpError::SerializationError(m) => "Serialization Error: "@ + m@,
            WarpError::CommandError(m) => "Command Error: "@ + m@,
        }
    }
}

} // verus!
