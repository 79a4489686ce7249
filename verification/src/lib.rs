//! Terminal session engine: PTY process lifecycle bookkeeping, bounded
//! screen/history buffers, input routing, session (tab) multiplexing, and the
//! event-loop step logic that ties them together.
//!
//! The engine itself performs no I/O: it decides, and the surrounding
//! application carries the decisions out (spawning processes, reading and
//! writing pseudo-terminals, drawing the screen).

pub mod error;
pub mod text;
pub mod screen;
pub mod input;
pub mod clock;
pub mod pty;
pub mod multiplexer;
pub mod events;
pub mod commands;
pub mod terminal;
pub mod kvlist;
pub mod keysets;
pub mod themes;
pub mod workflows;
pub mod marketplace;
pub mod config;
pub mod visualization;
pub mod api;

pub use error::WarpError;
