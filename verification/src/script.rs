//! What a call asks of a channel, as a sequence of pieces, and the bytes
//! that a channel makes of it.
//!
//! A plain channel writes the text pieces and nothing else. A coloured one
//! also writes, for a reset, a colour or an attribute, whatever its terminal
//! writes for it.

use crate::style::{Attr, Color, BLACK, BRIGHT_RED, BRIGHT_YELLOW};
use crate::terminal::{attr_outcome, fg_outcome, reset_outcome};
use crate::terminfo::TerminfoEntryView;
use crate::text::{line, maybe_line, status_label, status_tail};
use vstd::prelude::*;
use vstd::utf8::*;

verus! {

/// One step of a call.
pub enum Piece {
    /// Back to the default colour and attributes.
    Reset,
    /// Set the foreground colour.
    Foreground(Color),
    /// Set a text attribute.
    Attribute(Attr),
    /// Write these bytes.
    Text(Seq<u8>),
}

/// How a channel renders: as plain text, or through a terminal made with a
/// terminfo entry.
pub enum Rendering {
    Plain,
    Colored(TerminfoEntryView),
}

/// The bytes that one piece adds to the output.
pub open spec fn piece_bytes(rendering: Rendering, piece: Piece) -> Seq<u8> {
    match rendering {
        Rendering::Plain => match piece {
            Piece::Text(bytes) => bytes,
            _ => Seq::empty(),
        },
        Rendering::Colored(entry) => match piece {
            Piece::Reset => reset_outcome(entry).1,
            Piece::Foreground(color) => fg_outcome(entry, color).1,
            Piece::Attribute(attr) => attr_outcome(entry, attr).1,
            Piece::Text(bytes) => bytes,
        },
    }
}

/// The bytes that a script adds to the output, piece after piece.
pub open spec fn render(rendering: Rendering, script: Seq<Piece>) -> Seq<u8>
    decreases script.len(),
{
    if script.len() == 0 {
        Seq::empty()
    } else {
        render(rendering, script.drop_last()) + piece_bytes(rendering, script.last())
    }
}

/// The bytes that a piece holds as text: none unless it is a text piece.
pub open spec fn piece_text(piece: Piece) -> Seq<u8> {
    match piece {
        Piece::Text(bytes) => bytes,
        _ => Seq::empty(),
    }
}

/// The text of a script: the bytes of its text pieces, in order.
pub open spec fn text_of(script: Seq<Piece>) -> Seq<u8>
    decreases script.len(),
{
    if script.len() == 0 {
        Seq::empty()
    } else {
        text_of(script.drop_last()) + piece_text(script.last())
    }
}

/// Whether a channel carries out the reset, colour or attribute of `piece`:
/// a plain channel never does, a coloured one where its terminal does.
pub open spec fn piece_applies(rendering: Rendering, piece: Piece) -> bool {
    match rendering {
        Rendering::Plain => false,
        Rendering::Colored(entry) => match piece {
            Piece::Reset => reset_outcome(entry).0,
            Piece::Foreground(color) => fg_outcome(entry, color).0,
            Piece::Attribute(attr) => attr_outcome(entry, attr).0,
            Piece::Text(_) => false,
        },
    }
}

/// The state after one piece: a reset that is carried out brings the
/// default back, a colour or attribute that is carried out leaves it, and
/// whatever is not carried out, like text, leaves the state as it was.
pub open spec fn altered_by(rendering: Rendering, piece: Piece, altered: bool) -> bool {
    if !piece_applies(rendering, piece) {
        altered
    } else {
        !(piece is Reset)
    }
}

/// Whether the terminal's attributes differ from the default after a script
/// that began with them altered (`true`) or at the default (`false`).
pub open spec fn altered_after(rendering: Rendering, script: Seq<Piece>, altered: bool) -> bool
    decreases script.len(),
{
    if script.len() == 0 {
        altered
    } else {
        altered_by(rendering, script.last(), altered_after(rendering, script.drop_last(), altered))
    }
}

/// A script that starts with a reset, and whose last reset, colour or
/// attribute is a reset.
pub open spec fn resets_first_and_last(script: Seq<Piece>) -> bool {
    &&& script.len() > 0
    &&& script[0] is Reset
    &&& exists|i: int|
        0 <= i < script.len() && script[i] is Reset && forall|j: int|
            i < j < script.len() ==> script[j] is Text
}

/// A script that leaves the default state behind on this channel, whatever
/// state it is run in.
pub open spec fn self_contained(rendering: Rendering, script: Seq<Piece>) -> bool {
    forall|altered: bool| !altered_after(rendering, script, altered)
}

/// The colour step of a call: none for the default colour.
pub open spec fn color_pieces(color: Color) -> Seq<Piece> {
    if color != BLACK {
        seq![Piece::Foreground(color)]
    } else {
        Seq::empty()
    }
}

/// The bold step of a status line: taken only where the label is to be
/// bold.
pub open spec fn bold_pieces(bold: bool) -> Seq<Piece> {
    if bold {
        seq![Piece::Attribute(Attr::Bold)]
    } else {
        Seq::empty()
    }
}

/// A message in a colour, without a newline.
pub open spec fn say_write_script(message: Seq<char>, color: Color) -> Seq<Piece> {
    seq![Piece::Reset] + color_pieces(color) + seq![
        Piece::Text(encode_utf8(message)),
        Piece::Reset,
    ]
}

/// A message in a colour, on a line of its own.
pub open spec fn say_script(message: Seq<char>, color: Color) -> Seq<Piece> {
    seq![Piece::Reset] + color_pieces(color) + seq![
        Piece::Text(encode_utf8(line(message))),
        Piece::Reset,
    ]
}

/// A message with an attribute and a colour, with or without a newline.
pub open spec fn say_attr_script(
    message: Seq<char>,
    color: Color,
    attr: Attr,
    new_line: bool,
) -> Seq<Piece> {
    seq![Piece::Reset, Piece::Attribute(attr)] + color_pieces(color) + seq![
        Piece::Text(encode_utf8(maybe_line(message, new_line))),
        Piece::Reset,
    ]
}

/// A status line: the label in its field, in colour and, where `bold` is
/// set, in bold; then the message in the default style.
pub open spec fn say_status_script(
    bold: bool,
    status: Seq<char>,
    message: Seq<char>,
    color: Color,
) -> Seq<Piece> {
    seq![Piece::Reset] + color_pieces(color) + bold_pieces(bold) + seq![
        Piece::Text(encode_utf8(status_label(status))),
        Piece::Reset,
        Piece::Text(encode_utf8(status_tail(message))),
    ]
}

/// The first line of an error report: the prefix, then the description in
/// bold.
pub open spec fn error_head_script(description: Seq<char>) -> Seq<Piece> {
    say_write_script("error: "@, BRIGHT_RED) + say_attr_script(description, BLACK, Attr::Bold, true)
}

/// The line of one cause: the prefix, then the description.
pub open spec fn cause_script(description: Seq<char>) -> Seq<Piece> {
    say_write_script("caused by: "@, BRIGHT_YELLOW) + say_script(description, BLACK)
}

/// The lines of several causes, in order.
pub open spec fn causes_script(descriptions: Seq<Seq<char>>) -> Seq<Piece>
    decreases descriptions.len(),
{
    if descriptions.len() == 0 {
        Seq::empty()
    } else {
        causes_script(descriptions.drop_last()) + cause_script(descriptions.last())
    }
}

/// The script of a full error report: the first line, and one line for each
/// cause where causes are to be shown.
pub open spec fn error_full_script(
    description: Seq<char>,
    causes: Seq<Seq<char>>,
    show_cause: bool,
) -> Seq<Piece> {
    if show_cause {
        error_head_script(description) + causes_script(causes)
    } else {
        error_head_script(description)
    }
}

/// Rendering a script and one more piece.
pub proof fn lemma_render_push(rendering: Rendering, script: Seq<Piece>, piece: Piece)
    ensures
        render(rendering, script.push(piece)) == render(rendering, script) + piece_bytes(
            rendering,
            piece,
        ),
{
    assert(script.push(piece).drop_last() =~= script);
}

/// Rendering one script after another.
pub proof fn lemma_render_concat(rendering: Rendering, a: Seq<Piece>, b: Seq<Piece>)
    ensures
        render(rendering, a + b) == render(rendering, a) + render(rendering, b),
    decreases b.len(),
{
    if b.len() == 0 {
        assert(a + b =~= a);
        assert(render(rendering, a) + render(rendering, b) =~= render(rendering, a));
    } else {
        assert((a + b).drop_last() =~= a + b.drop_last());
        assert((a + b).last() == b.last());
        lemma_render_concat(rendering, a, b.drop_last());
        assert(render(rendering, a + b) =~= render(rendering, a) + render(rendering, b));
    }
}

/// The text of one script after another.
pub proof fn lemma_text_concat(a: Seq<Piece>, b: Seq<Piece>)
    ensures
        text_of(a + b) == text_of(a) + text_of(b),
    decreases b.len(),
{
    if b.len() == 0 {
        assert(a + b =~= a);
        assert(text_of(a) + text_of(b) =~= text_of(a));
    } else {
        assert((a + b).drop_last() =~= a + b.drop_last());
        assert((a + b).last() == b.last());
        lemma_text_concat(a, b.drop_last());
        assert(text_of(a + b) =~= text_of(a) + text_of(b));
    }
}

/// The state after one script and another is the state after the second,
/// begun where the first ended.
pub proof fn lemma_altered_concat(rendering: Rendering, a: Seq<Piece>, b: Seq<Piece>, altered: bool)
    ensures
        altered_after(rendering, a + b, altered) == altered_after(
            rendering,
            b,
            altered_after(rendering, a, altered),
        ),
    decreases b.len(),
{
    if b.len() == 0 {
        assert(a + b =~= a);
    } else {
        assert((a + b).drop_last() =~= a + b.drop_last());
        assert((a + b).last() == b.last());
        lemma_altered_concat(rendering, a, b.drop_last(), altered);
    }
}

/// Text leaves the state as it is.
pub proof fn lemma_text_keeps_state(rendering: Rendering, script: Seq<Piece>, altered: bool)
    requires
        forall|j: int| 0 <= j < script.len() ==> script[j] is Text,
    ensures
        altered_after(rendering, script, altered) == altered,
    decreases script.len(),
{
    if script.len() > 0 {
        lemma_text_keeps_state(rendering, script.drop_last(), altered);
    }
}

/// A plain channel never leaves the state it is in.
pub proof fn lemma_plain_keeps_state(script: Seq<Piece>, altered: bool)
    ensures
        altered_after(Rendering::Plain, script, altered) == altered,
    decreases script.len(),
{
    if script.len() > 0 {
        lemma_plain_keeps_state(script.drop_last(), altered);
    }
}

/// On a channel that carries out its resets, a script whose last reset,
/// colour or attribute is a reset leaves the default state behind.
pub proof fn lemma_last_reset_restores(rendering: Rendering, script: Seq<Piece>)
    requires
        resets_first_and_last(script),
        piece_applies(rendering, Piece::Reset),
    ensures
        self_contained(rendering, script),
{
    let i = choose|i: int|
        0 <= i < script.len() && script[i] is Reset && forall|j: int|
            i < j < script.len() ==> script[j] is Text;
    let head = script.subrange(0, i + 1);
    let tail = script.subrange(i + 1, script.len() as int);
    assert(head + tail =~= script);
    assert(head.last() == script[i]);
    assert forall|altered: bool| !altered_after(rendering, script, altered) by {
        lemma_altered_concat(rendering, head, tail, altered);
        lemma_text_keeps_state(rendering, tail, altered_after(rendering, head, altered));
        assert(!altered_after(rendering, head, altered));
    }
}

} // verus!
