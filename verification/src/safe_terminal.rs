//! A terminfo terminal that writes into memory and was made with an entry
//! that can be trusted to expand.

use crate::error::ShellError;
use crate::style::{Attr, Color};
use crate::terminal::{
    attr_outcome, fg_outcome, reset_outcome, terminal_attr, terminal_entry,
    terminal_fg, terminal_flush, terminal_new, terminal_reset, terminal_sink, terminal_sink_mut,
    terminal_supports_attr, terminal_write, terminal_write_all,
};
use crate::terminfo::{TerminfoEntry, TerminfoEntryView};
use term::TerminfoTerminal;
use vstd::prelude::*;

verus! {

/// A terminal over an in-memory sink. Its entry holds no string capability
/// that cannot be trusted to expand, so that none of its operations panics;
/// and since a vector takes whatever is written to it, none of them fails.
pub struct SafeTerminal {
    inner: TerminfoTerminal<Vec<u8>>,
}

/// What a [`SafeTerminal`] stands for.
pub struct SafeTerminalView {
    /// The entry that the terminal was made with.
    pub entry: TerminfoEntryView,
    /// The bytes in its sink.
    pub sink: Seq<u8>,
}

impl View for SafeTerminal {
    type V = SafeTerminalView;

    closed spec fn view(&self) -> SafeTerminalView {
        SafeTerminalView { entry: terminal_entry(self.inner), sink: terminal_sink(self.inner) }
    }
}

impl SafeTerminal {
    #[verifier::type_invariant]
    spec fn entry_is_safe(self) -> bool {
        terminal_entry(self.inner).is_safe()
    }

    /// A terminal with an empty sink, made with what is safe of `entry`.
    pub fn new(entry: TerminfoEntry) -> (terminal: SafeTerminal)
        ensures
            terminal@.entry == entry@.sanitized(),
            terminal@.sink == Seq::<u8>::empty(),
    {
        SafeTerminal { inner: terminal_new(Vec::new(), entry.sanitize()) }
    }

    /// Sets the foreground colour.
    pub fn fg(&mut self, color: Color) -> (r: Result<bool, ShellError>)
        ensures
            r is Ok,
            r matches Ok(set) ==> set == fg_outcome(old(self)@.entry, color).0,
            final(self)@.entry == old(self)@.entry,
            final(self)@.sink == old(self)@.sink + fg_outcome(old(self)@.entry, color).1,
    {
        proof {
            use_type_invariant(&*self);
        }
        ShellError::lift(terminal_fg(&mut self.inner, color))
    }

    /// Sets a text attribute.
    pub fn attr(&mut self, attr: Attr) -> (r: Result<bool, ShellError>)
        ensures
            r is Ok,
            r matches Ok(set) ==> set == attr_outcome(old(self)@.entry, attr).0,
            final(self)@.entry == old(self)@.entry,
            final(self)@.sink == old(self)@.sink + attr_outcome(old(self)@.entry, attr).1,
    {
        proof {
            use_type_invariant(&*self);
        }
        ShellError::lift(terminal_attr(&mut self.inner, attr))
    }

    /// Whether the terminal can render `attr`.
    pub fn supports_attr(&self, attr: Attr) -> (supported: bool)
        ensures
            supported == self@.entry.supports(attr),
    {
        terminal_supports_attr(&self.inner, attr)
    }

    /// Resets colour and attributes.
    pub fn reset(&mut self) -> (r: Result<bool, ShellError>)
        ensures
            r is Ok,
            r matches Ok(done) ==> done == reset_outcome(old(self)@.entry).0,
            final(self)@.entry == old(self)@.entry,
            final(self)@.sink == old(self)@.sink + reset_outcome(old(self)@.entry).1,
    {
        proof {
            use_type_invariant(&*self);
        }
        ShellError::lift(terminal_reset(&mut self.inner))
    }

    /// Hands `buf` to the sink, which takes all of it, and says how many
    /// bytes that was.
    pub fn write(&mut self, buf: &[u8]) -> (r: Result<usize, ShellError>)
        ensures
            r is Ok,
            r matches Ok(n) ==> n == buf@.len(),
            final(self)@.entry == old(self)@.entry,
            final(self)@.sink == old(self)@.sink + buf@,
    {
        proof {
            use_type_invariant(&*self);
        }
        ShellError::lift(terminal_write(&mut self.inner, buf))
    }

    /// Writes the whole of `buf` to the sink.
    pub fn write_all(&mut self, buf: &[u8]) -> (r: Result<(), ShellError>)
        ensures
            r is Ok,
            final(self)@.entry == old(self)@.entry,
            final(self)@.sink == old(self)@.sink + buf@,
    {
        proof {
            use_type_invariant(&*self);
        }
        ShellError::lift(terminal_write_all(&mut self.inner, buf))
    }

    /// Flushes the sink. Its bytes stay as they are.
    pub fn flush(&mut self) -> (r: Result<(), ShellError>)
        ensures
            r is Ok,
            final(self)@ == old(self)@,
    {
        proof {
            use_type_invariant(&*self);
        }
        ShellError::lift(terminal_flush(&mut self.inner))
    }

    /// Hands out the bytes of the sink and empties it.
    pub fn take(&mut self) -> (bytes: Vec<u8>)
        ensures
            bytes@ == old(self)@.sink,
            final(self)@.entry == old(self)@.entry,
            final(self)@.sink == Seq::<u8>::empty(),
    {
        proof {
            use_type_invariant(&*self);
        }
        let mut bytes: Vec<u8> = Vec::new();
        let sink = terminal_sink_mut(&mut self.inner);
        core::mem::swap(sink, &mut bytes);
        bytes
    }
}

} // verus!
