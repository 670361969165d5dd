//! The terminfo terminal of the `term` crate over an in-memory sink.
//!
//! Nothing in this file is proved. Each item states what the `term` crate, or
//! `std::io::Write` as `term` implements it, does; the rest of the library
//! is proved from these statements.
//!
//! The terminal expands a string capability whenever it sets a colour or an
//! attribute or resets, and the expansion can panic on a capability that
//! divides by zero, names the parameter zero, overflows a sum or asks for an
//! enormous field. These calls therefore take only terminals whose entry
//! holds none of that: see [`crate::capability`]. With such an entry none of
//! the calls here unwinds, which their headers record.
//!
//! The sink of every terminal here is a `Vec<u8>`. `std` implements `Write`
//! for it by appending to the vector, which grows as needed, and reports no
//! error. In `term`, the write to the sink is the only step of `fg`, `attr`
//! and `reset` that can fail, and `write` and `flush` hand over to the sink.
//! So each of these calls is stated to return `Ok`.

use crate::style::{Attr, Color};
use crate::terminfo::{TerminfoEntry, TerminfoEntryView};
use std::io::Write;
use term::Terminal;
use term::TerminfoTerminal;
use vstd::prelude::*;

verus! {

/// `term::TerminfoTerminal`, carried as an opaque value.
#[verifier::external_type_specification]
#[verifier::external_body]
#[verifier::reject_recursive_types(T)]
pub struct ExTerminfoTerminal<T>(TerminfoTerminal<T>);

/// `std::io::Error`, carried as an opaque value.
#[verifier::external_type_specification]
#[verifier::external_body]
pub struct ExIoError(std::io::Error);

/// The bytes in the writer that a terminal wraps: what `get_ref` shows.
pub uninterp spec fn terminal_sink(t: TerminfoTerminal<Vec<u8>>) -> Seq<u8>;

/// The terminfo entry that a terminal was made with: the lists as they were
/// handed to `terminal_new`, order and repeated names included. The terminal
/// itself holds maps made from them; everything it does is a function of
/// these lists, and it never changes them.
pub uninterp spec fn terminal_entry(t: TerminfoTerminal<Vec<u8>>) -> TerminfoEntryView;

/// What `Terminal::fg` does on a terminal made with `entry`: whether the
/// colour was set, and the bytes written to the sink.
pub uninterp spec fn fg_outcome(entry: TerminfoEntryView, color: Color) -> (bool, Seq<u8>);

/// What `Terminal::attr` does on a terminal made with `entry`: whether the
/// attribute was set, and the bytes written to the sink.
pub uninterp spec fn attr_outcome(entry: TerminfoEntryView, attr: Attr) -> (bool, Seq<u8>);

/// What `Terminal::reset` does on a terminal made with `entry`: whether the
/// terminal was reset, and the bytes written to the sink.
pub uninterp spec fn reset_outcome(entry: TerminfoEntryView) -> (bool, Seq<u8>);

/// `TerminfoTerminal::new_with_terminfo`: the terminal wraps `out` as it is
/// and keeps the entry. Each capability list becomes the map that `term`
/// holds.
#[verifier::external_body]
pub(crate) fn terminal_new(out: Vec<u8>, entry: TerminfoEntry) -> (t: TerminfoTerminal<Vec<u8>>)
    ensures
        terminal_sink(t) == out@,
        terminal_entry(t) == entry@,
{
    let info = term::terminfo::TermInfo {
        names: entry.names,
        bools: entry.bools.into_iter().collect(),
        numbers: entry.numbers.into_iter().collect(),
        strings: entry.strings.into_iter().collect(),
    };
    TerminfoTerminal::new_with_terminfo(out, info)
}

/// `Terminal::fg`: it returns `Ok`, the sink has grown by the bytes of the
/// colour's control sequence (by none where the colour was not set), and
/// the flag says whether it was set. The entry is never touched. Asked of a
/// terminal with a safe entry, so that expanding `setaf` cannot panic.
#[verifier::external_body]
pub(crate) fn terminal_fg(t: &mut TerminfoTerminal<Vec<u8>>, color: Color) -> (r: Result<
    bool,
    std::io::Error,
>)
    requires
        terminal_entry(*old(t)).is_safe(),
    ensures
        terminal_entry(*final(t)) == terminal_entry(*old(t)),
        r is Ok,
        r matches Ok(set) ==> set == fg_outcome(terminal_entry(*old(t)), color).0,
        terminal_sink(*final(t)) == terminal_sink(*old(t))
            + fg_outcome(terminal_entry(*old(t)), color).1,
    no_unwind
{
    t.fg(color)
}

/// `Terminal::attr`: it returns `Ok`, the sink has grown by the bytes of
/// the attribute's control sequence (by none where it was not set), and the
/// flag says whether it was set. The entry is never touched. Asked of a
/// terminal with a safe entry, so that expanding the attribute's capability
/// cannot panic.
#[verifier::external_body]
pub(crate) fn terminal_attr(t: &mut TerminfoTerminal<Vec<u8>>, attr: Attr) -> (r: Result<
    bool,
    std::io::Error,
>)
    requires
        terminal_entry(*old(t)).is_safe(),
    ensures
        terminal_entry(*final(t)) == terminal_entry(*old(t)),
        r is Ok,
        r matches Ok(set) ==> set == attr_outcome(terminal_entry(*old(t)), attr).0,
        terminal_sink(*final(t)) == terminal_sink(*old(t))
            + attr_outcome(terminal_entry(*old(t)), attr).1,
    no_unwind
{
    t.attr(match attr {
        Attr::Bold => term::Attr::Bold,
        Attr::Dim => term::Attr::Dim,
        Attr::Italic(on) => term::Attr::Italic(on),
        Attr::Underline(on) => term::Attr::Underline(on),
        Attr::Blink => term::Attr::Blink,
        Attr::Standout(on) => term::Attr::Standout(on),
        Attr::Reverse => term::Attr::Reverse,
        Attr::Secure => term::Attr::Secure,
        Attr::ForegroundColor(c) => term::Attr::ForegroundColor(c),
        Attr::BackgroundColor(c) => term::Attr::BackgroundColor(c),
    })
}

/// `Terminal::supports_attr`: for a colour, whether the terminal has any
/// colours; for another attribute, whether the entry has the string
/// capability that renders it.
#[verifier::external_body]
pub(crate) fn terminal_supports_attr(t: &TerminfoTerminal<Vec<u8>>, attr: Attr) -> (r: bool)
    ensures
        r == terminal_entry(*t).supports(attr),
{
    t.supports_attr(match attr {
        Attr::Bold => term::Attr::Bold,
        Attr::Dim => term::Attr::Dim,
        Attr::Italic(on) => term::Attr::Italic(on),
        Attr::Underline(on) => term::Attr::Underline(on),
        Attr::Blink => term::Attr::Blink,
        Attr::Standout(on) => term::Attr::Standout(on),
        Attr::Reverse => term::Attr::Reverse,
        Attr::Secure => term::Attr::Secure,
        Attr::ForegroundColor(c) => term::Attr::ForegroundColor(c),
        Attr::BackgroundColor(c) => term::Attr::BackgroundColor(c),
    })
}

/// `Terminal::reset`: it returns `Ok`, the sink has grown by the bytes of
/// the reset sequence (by none where the entry has none), and the flag says
/// whether the terminal was reset. The entry is never touched. Asked of
/// a terminal with a safe entry, so that expanding the reset capability
/// cannot panic.
#[verifier::external_body]
pub(crate) fn terminal_reset(t: &mut TerminfoTerminal<Vec<u8>>) -> (r: Result<bool, std::io::Error>)
    requires
        terminal_entry(*old(t)).is_safe(),
    ensures
        terminal_entry(*final(t)) == terminal_entry(*old(t)),
        r is Ok,
        r matches Ok(done) ==> done == reset_outcome(terminal_entry(*old(t))).0,
        terminal_sink(*final(t)) == terminal_sink(*old(t))
            + reset_outcome(terminal_entry(*old(t))).1,
    no_unwind
{
    t.reset()
}

/// `Write::write` of the terminal, which hands the buffer to the sink: the
/// vector appends the whole buffer and answers with its length.
#[verifier::external_body]
pub(crate) fn terminal_write(t: &mut TerminfoTerminal<Vec<u8>>, buf: &[u8]) -> (r: Result<
    usize,
    std::io::Error,
>)
    ensures
        terminal_entry(*final(t)) == terminal_entry(*old(t)),
        r is Ok,
        r matches Ok(n) ==> n == buf@.len(),
        terminal_sink(*final(t)) == terminal_sink(*old(t)) + buf@,
    no_unwind
{
    t.write(buf)
}

/// `Write::write_all` of the terminal: it returns `Ok`, and the whole
/// buffer was appended to the sink.
#[verifier::external_body]
pub(crate) fn terminal_write_all(t: &mut TerminfoTerminal<Vec<u8>>, buf: &[u8]) -> (r: Result<
    (),
    std::io::Error,
>)
    ensures
        terminal_entry(*final(t)) == terminal_entry(*old(t)),
        r is Ok,
        terminal_sink(*final(t)) == terminal_sink(*old(t)) + buf@,
    no_unwind
{
    t.write_all(buf)
}

/// `Write::flush` of the terminal, which flushes the sink: a vector holds
/// nothing back, so it returns `Ok` and its bytes stay as they are.
#[verifier::external_body]
pub(crate) fn terminal_flush(t: &mut TerminfoTerminal<Vec<u8>>) -> (r: Result<(), std::io::Error>)
    ensures
        r is Ok,
        terminal_entry(*final(t)) == terminal_entry(*old(t)),
        terminal_sink(*final(t)) == terminal_sink(*old(t)),
    no_unwind
{
    t.flush()
}

/// `Terminal::get_mut`: a mutable borrow of the sink itself. What the
/// borrower leaves in it is what the terminal's sink then holds.
#[verifier::external_body]
pub(crate) fn terminal_sink_mut(t: &mut TerminfoTerminal<Vec<u8>>) -> (sink: &mut Vec<u8>)
    ensures
        sink@ == terminal_sink(*old(t)),
        terminal_sink(*final(t)) == final(sink)@,
        terminal_entry(*final(t)) == terminal_entry(*old(t)),
    no_unwind
{
    t.get_mut()
}

} // verus!
