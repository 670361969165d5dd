//! Coloured, status-formatted console output for command-line tools.
//!
//! A [`Shell`] is one output channel. It collects the bytes of everything it
//! is asked to print, colour and attribute control sequences included, in an
//! in-memory sink; the caller delivers them to the real stream. A
//! [`MultiShell`] pairs a standard and an error channel with a verbosity
//! flag and offers the usual helpers: status lines, warnings, errors with
//! their chain of causes, headers and comments.
//!
//! Every contract is stated over the bytes a channel has collected. What a
//! call adds to them is the rendering of a [`script::Piece`] sequence, so the
//! layout of a line and the discipline of resetting attributes can be read
//! off, and are proved, independently of any particular terminal.
//!
//! A coloured channel renders through the terminfo terminal of the `term`
//! crate, made with the entry that the caller loaded. String capabilities
//! that the terminal could not expand without risk are left out of the entry
//! first: see [`capability`].

pub mod capability;
pub mod channel;
pub mod error;
pub mod laws;
pub mod pair;
pub mod safe_terminal;
pub mod script;
pub mod style;
pub mod terminal;
pub mod terminfo;
pub mod text;

pub use channel::{Destination, Shell, ShellConfig};
pub use error::{first_failure, ErrorChain, ShellError};
pub use pair::{MultiShell, StreamProbe};
pub use style::{Attr, Color};
pub use terminfo::TerminfoEntry;
