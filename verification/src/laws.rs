//! What holds of every call, whatever the channel and the message.

use crate::channel::{created, lemma_run_concat, Destination, ShellConfig, ShellView};
use crate::error::ErrorChain;
use crate::script::{
    altered_after, bold_pieces, cause_script, causes_script, color_pieces, error_full_script,
    error_head_script, lemma_altered_concat, lemma_last_reset_restores, lemma_plain_keeps_state,
    lemma_text_concat, piece_applies, render, resets_first_and_last, say_attr_script, say_script,
    say_status_script, say_write_script, self_contained, text_of, Piece, Rendering,
};
use crate::style::{Attr, Color, BLACK, BRIGHT_RED, BRIGHT_YELLOW};
use crate::terminfo::TerminfoEntryView;
use crate::text::{
    lemma_encode_utf8_concat, lemma_pad_left_layout, line, maybe_line, status_label, status_line,
    status_tail,
};
use vstd::prelude::*;
use vstd::utf8::*;

verus! {

/// The lines of an error report: `error: ` and the description, then, where
/// causes are shown, `caused by: ` and the description for each cause.
pub open spec fn report_lines(
    description: Seq<char>,
    causes: Seq<Seq<char>>,
    show_cause: bool,
) -> Seq<Seq<char>> {
    if show_cause {
        seq!["error: "@ + description] + Seq::new(
            causes.len(),
            |i: int| "caused by: "@ + causes[i],
        )
    } else {
        seq!["error: "@ + description]
    }
}

/// The lines, each with a newline after it.
pub open spec fn join_lines(lines: Seq<Seq<char>>) -> Seq<char>
    decreases lines.len(),
{
    if lines.len() == 0 {
        Seq::empty()
    } else {
        join_lines(lines.drop_last()) + line(lines.last())
    }
}

/// A plain channel writes the text of a script and nothing else: no colour,
/// attribute or reset adds a byte.
pub proof fn lemma_plain_render_is_text(script: Seq<Piece>)
    ensures
        render(Rendering::Plain, script) == text_of(script),
    decreases script.len(),
{
    if script.len() > 0 {
        lemma_plain_render_is_text(script.drop_last());
    }
}

/// A channel created without colour, or for a stream that is no terminal,
/// is plain and keeps to its stream, whatever entry it is given; and a plain
/// channel adds to its output the text of what it is asked for, whatever
/// colours and attributes are asked for with it.
pub proof fn lemma_no_control_bytes_without_color_or_tty(
    config: ShellConfig,
    terminfo: Option<TerminfoEntryView>,
    channel: ShellView,
    script: Seq<Piece>,
)
    requires
        !config.color || !config.tty,
        channel.same_channel(created(config, terminfo)),
    ensures
        !created(config, terminfo).colored(),
        created(config, terminfo).destination == Destination::Given,
        channel.run(script).output == channel.output + text_of(script),
{
    lemma_plain_render_is_text(script);
}

/// The colour and bold steps hold no text.
proof fn lemma_style_steps_hold_no_text(bold: bool, color: Color)
    ensures
        text_of(color_pieces(color)) == Seq::<u8>::empty(),
        text_of(bold_pieces(bold)) == Seq::<u8>::empty(),
        text_of(seq![Piece::Reset] + color_pieces(color)) == Seq::<u8>::empty(),
        text_of(seq![Piece::Reset] + color_pieces(color) + bold_pieces(bold)) == Seq::<
            u8,
        >::empty(),
{
    reveal_with_fuel(text_of, 3);
    let reset = seq![Piece::Reset];
    assert(text_of(reset) =~= Seq::<u8>::empty());
    assert(text_of(color_pieces(color)) =~= Seq::<u8>::empty());
    assert(text_of(bold_pieces(bold)) =~= Seq::<u8>::empty());
    lemma_text_concat(reset, color_pieces(color));
    lemma_text_concat(reset + color_pieces(color), bold_pieces(bold));
}

/// The text of a message written in any colour is the message.
pub proof fn lemma_say_write_text(message: Seq<char>, color: Color)
    ensures
        text_of(say_write_script(message, color)) == encode_utf8(message),
{
    reveal_with_fuel(text_of, 3);
    lemma_style_steps_hold_no_text(false, color);
    let tail = seq![Piece::Text(encode_utf8(message)), Piece::Reset];
    lemma_text_concat(seq![Piece::Reset] + color_pieces(color), tail);
    assert(text_of(tail) =~= encode_utf8(message));
    assert(text_of(say_write_script(message, color)) =~= encode_utf8(message));
}

/// The text of a line said in any colour is the message and one newline.
pub proof fn lemma_say_text(message: Seq<char>, color: Color)
    ensures
        text_of(say_script(message, color)) == encode_utf8(line(message)),
{
    reveal_with_fuel(text_of, 3);
    lemma_style_steps_hold_no_text(false, color);
    let tail = seq![Piece::Text(encode_utf8(line(message))), Piece::Reset];
    lemma_text_concat(seq![Piece::Reset] + color_pieces(color), tail);
    assert(text_of(tail) =~= encode_utf8(line(message)));
    assert(text_of(say_script(message, color)) =~= encode_utf8(line(message)));
}

/// The text of a message said with any attribute and colour is the message,
/// with a newline where one was asked for.
pub proof fn lemma_say_attr_text(message: Seq<char>, color: Color, attr: Attr, new_line: bool)
    ensures
        text_of(say_attr_script(message, color, attr, new_line)) == encode_utf8(
            maybe_line(message, new_line),
        ),
{
    reveal_with_fuel(text_of, 3);
    lemma_style_steps_hold_no_text(false, color);
    let head = seq![Piece::Reset, Piece::Attribute(attr)];
    let tail = seq![Piece::Text(encode_utf8(maybe_line(message, new_line))), Piece::Reset];
    assert(text_of(head) =~= Seq::<u8>::empty());
    lemma_text_concat(head, color_pieces(color));
    lemma_text_concat(head + color_pieces(color), tail);
    assert(text_of(tail) =~= encode_utf8(maybe_line(message, new_line)));
    assert(text_of(say_attr_script(message, color, attr, new_line)) =~= encode_utf8(
        maybe_line(message, new_line),
    ));
}

/// On every channel and in every colour, the text of a status line is the
/// label right-aligned in a field of at least twelve characters, exactly one
/// space, the message and one newline.
pub proof fn lemma_status_line_text(
    bold: bool,
    status: Seq<char>,
    message: Seq<char>,
    color: Color,
)
    ensures
        text_of(say_status_script(bold, status, message, color)) == encode_utf8(
            status_line(status, message),
        ),
        status_line(status, message) == status_label(status) + seq![' '] + message + seq!['\n'],
        status_label(status).len() >= 12,
        status.len() <= 12 ==> status_label(status).len() == 12,
        status.len() >= 12 ==> status_label(status) == status,
        status_label(status).subrange(
            status_label(status).len() - status.len(),
            status_label(status).len() as int,
        ) == status,
        forall|i: int|
            0 <= i < status_label(status).len() - status.len() ==> status_label(status)[i] == ' ',
{
    lemma_pad_left_layout(status, 12);
    reveal_with_fuel(text_of, 4);
    lemma_style_steps_hold_no_text(bold, color);
    let head = seq![Piece::Reset] + color_pieces(color) + bold_pieces(bold);
    let tail = seq![
        Piece::Text(encode_utf8(status_label(status))),
        Piece::Reset,
        Piece::Text(encode_utf8(status_tail(message))),
    ];
    lemma_text_concat(head, tail);
    assert(text_of(tail) =~= encode_utf8(status_label(status)) + encode_utf8(
        status_tail(message),
    ));
    lemma_encode_utf8_concat(status_label(status), status_tail(message));
    assert(text_of(say_status_script(bold, status, message, color)) =~= encode_utf8(
        status_line(status, message),
    ));
    assert(status_line(status, message) =~= status_label(status) + seq![' '] + message
        + seq!['\n']);
    assert(status_label(status).subrange(
        status_label(status).len() - status.len(),
        status_label(status).len() as int,
    ) =~= status);
}

/// The text of the lines of the causes.
proof fn lemma_causes_text(causes: Seq<Seq<char>>)
    ensures
        text_of(causes_script(causes)) == encode_utf8(
            join_lines(Seq::new(causes.len(), |i: int| "caused by: "@ + causes[i])),
        ),
    decreases causes.len(),
{
    let lines = Seq::new(causes.len(), |i: int| "caused by: "@ + causes[i]);
    if causes.len() == 0 {
        assert(lines.len() == 0);
    } else {
        let rest = causes.drop_last();
        let last = causes.last();
        lemma_causes_text(rest);
        assert(lines.drop_last() =~= Seq::new(rest.len(), |i: int| "caused by: "@ + rest[i]));
        assert(lines.last() == "caused by: "@ + last);
        lemma_text_concat(causes_script(rest), cause_script(last));
        lemma_text_concat(say_write_script("caused by: "@, BRIGHT_YELLOW), say_script(last, BLACK));
        lemma_say_write_text("caused by: "@, BRIGHT_YELLOW);
        lemma_say_text(last, BLACK);
        lemma_encode_utf8_concat("caused by: "@, line(last));
        assert("caused by: "@ + line(last) =~= line("caused by: "@ + last));
        lemma_encode_utf8_concat(join_lines(lines.drop_last()), line(lines.last()));
    }
}

/// A full report of an error with a chain of `n` causes holds exactly one
/// `error: ` line and, where causes are shown, exactly `n` `caused by: `
/// lines, one for each link in order; where they are not shown, or where the
/// error has no cause, the `error: ` line is all there is. The text written
/// is these lines, each ended by a newline.
pub proof fn lemma_error_report_lines(e: ErrorChain, show_cause: bool)
    ensures
        report_lines(e.description@, e.causes(), true).len() == 1 + e.depth(),
        report_lines(e.description@, e.causes(), false).len() == 1,
        report_lines(e.description@, e.causes(), show_cause)[0] == "error: "@ + e.description@,
        forall|i: int|
            0 <= i < e.depth() ==> #[trigger] report_lines(e.description@, e.causes(), true)[i + 1]
                == "caused by: "@ + e.causes()[i],
        text_of(error_full_script(e.description@, e.causes(), show_cause)) == encode_utf8(
            join_lines(report_lines(e.description@, e.causes(), show_cause)),
        ),
{
    let description = e.description@;
    let causes = e.causes();
    e.lemma_causes_len();
    let head_line = seq!["error: "@ + description];
    let cause_lines = Seq::new(causes.len(), |i: int| "caused by: "@ + causes[i]);

    // The first line.
    lemma_text_concat(
        say_write_script("error: "@, BRIGHT_RED),
        say_attr_script(description, BLACK, Attr::Bold, true),
    );
    lemma_say_write_text("error: "@, BRIGHT_RED);
    lemma_say_attr_text(description, BLACK, Attr::Bold, true);
    lemma_encode_utf8_concat("error: "@, line(description));
    assert("error: "@ + line(description) =~= line("error: "@ + description));
    assert(head_line.drop_last() =~= Seq::<Seq<char>>::empty());
    assert(join_lines(head_line) =~= line("error: "@ + description)) by {
        reveal_with_fuel(join_lines, 2);
    }
    assert(text_of(error_head_script(description)) == encode_utf8(join_lines(head_line)));

    if show_cause {
        lemma_causes_text(causes);
        lemma_text_concat(error_head_script(description), causes_script(causes));
        lemma_join_lines_concat(head_line, cause_lines);
        lemma_encode_utf8_concat(join_lines(head_line), join_lines(cause_lines));
    }
}

/// Joining one list of lines and another.
proof fn lemma_join_lines_concat(a: Seq<Seq<char>>, b: Seq<Seq<char>>)
    ensures
        join_lines(a + b) == join_lines(a) + join_lines(b),
    decreases b.len(),
{
    if b.len() == 0 {
        assert(a + b =~= a);
        assert(join_lines(a) + join_lines(b) =~= join_lines(a));
    } else {
        assert((a + b).drop_last() =~= a + b.drop_last());
        assert((a + b).last() == b.last());
        lemma_join_lines_concat(a, b.drop_last());
        assert(join_lines(a + b) =~= join_lines(a) + join_lines(b));
    }
}

/// A script stays self-contained with any script before it: what it leaves
/// behind does not depend on what it found.
pub proof fn lemma_self_contained_concat(rendering: Rendering, a: Seq<Piece>, b: Seq<Piece>)
    requires
        self_contained(rendering, b),
    ensures
        self_contained(rendering, a + b),
{
    assert forall|altered: bool| !altered_after(rendering, a + b, altered) by {
        lemma_altered_concat(rendering, a, b, altered);
    }
}

/// Two calls in a row are the two scripts run as one, and the second call
/// leaves what it would have left after a call that ended in the default
/// state: nothing of the first reaches past it.
pub proof fn lemma_consecutive_calls(channel: ShellView, first: Seq<Piece>, second: Seq<Piece>)
    requires
        self_contained(channel.rendering, first),
        self_contained(channel.rendering, second),
    ensures
        channel.run(first).run(second) == channel.run(first + second),
        self_contained(channel.rendering, first + second),
        forall|altered: bool|
            altered_after(channel.rendering, first + second, altered) == altered_after(
                channel.rendering,
                second,
                false,
            ),
{
    lemma_run_concat(channel, first, second);
    lemma_self_contained_concat(channel.rendering, first, second);
    assert forall|altered: bool|
        altered_after(channel.rendering, first + second, altered) == altered_after(
            channel.rendering,
            second,
            false,
        ) by {
        lemma_altered_concat(channel.rendering, first, second, altered);
    }
}

/// Every printing call starts with a reset, and its last reset, colour or
/// attribute is a reset. So on a channel whose terminal carries out its
/// resets the call leaves the default state behind, whatever state it found;
/// and a plain channel, which carries out nothing, leaves the state as it
/// was. On a coloured channel whose terminal has no reset this does not
/// hold: there a colour, once set, stays.
pub proof fn lemma_calls_are_self_contained(
    rendering: Rendering,
    bold: bool,
    status: Seq<char>,
    message: Seq<char>,
    color: Color,
    attr: Attr,
    new_line: bool,
)
    ensures
        resets_first_and_last(say_write_script(message, color)),
        resets_first_and_last(say_script(message, color)),
        resets_first_and_last(say_attr_script(message, color, attr, new_line)),
        resets_first_and_last(say_status_script(bold, status, message, color)),
        piece_applies(rendering, Piece::Reset) ==> self_contained(
            rendering,
            say_write_script(message, color),
        ),
        piece_applies(rendering, Piece::Reset) ==> self_contained(
            rendering,
            say_script(message, color),
        ),
        piece_applies(rendering, Piece::Reset) ==> self_contained(
            rendering,
            say_attr_script(message, color, attr, new_line),
        ),
        piece_applies(rendering, Piece::Reset) ==> self_contained(
            rendering,
            say_status_script(bold, status, message, color),
        ),
        rendering is Plain ==> forall|script: Seq<Piece>, altered: bool|
            #[trigger] altered_after(rendering, script, altered) == altered,
{
    let w = say_write_script(message, color);
    assert(w[0] is Reset && w[w.len() - 1] is Reset);
    let s = say_script(message, color);
    assert(s[0] is Reset && s[s.len() - 1] is Reset);
    let a = say_attr_script(message, color, attr, new_line);
    assert(a[0] is Reset && a[a.len() - 1] is Reset);
    let t = say_status_script(bold, status, message, color);
    assert(t[0] is Reset && t[t.len() - 2] is Reset && t[t.len() - 1] is Text);
    if piece_applies(rendering, Piece::Reset) {
        lemma_last_reset_restores(rendering, w);
        lemma_last_reset_restores(rendering, s);
        lemma_last_reset_restores(rendering, a);
        lemma_last_reset_restores(rendering, t);
    }
    if rendering is Plain {
        assert forall|script: Seq<Piece>, altered: bool|
            #[trigger] altered_after(rendering, script, altered) == altered by {
            lemma_plain_keeps_state(script, altered);
        }
    }
}

/// On a channel whose terminal carries out its resets, a full error report
/// starts with a reset and leaves the default state behind, with or without
/// its causes.
pub proof fn lemma_error_report_is_self_contained(
    rendering: Rendering,
    e: ErrorChain,
    show_cause: bool,
)
    requires
        piece_applies(rendering, Piece::Reset),
    ensures
        error_full_script(e.description@, e.causes(), show_cause)[0] is Reset,
        self_contained(rendering, error_full_script(e.description@, e.causes(), show_cause)),
{
    let description = e.description@;
    let causes = e.causes();
    let prefix = say_write_script("error: "@, BRIGHT_RED);
    let line = say_attr_script(description, BLACK, Attr::Bold, true);
    let none = Seq::<char>::empty();
    lemma_calls_are_self_contained(rendering, false, none, description, BLACK, Attr::Bold, true);
    lemma_self_contained_concat(rendering, prefix, line);
    assert(prefix[0] is Reset);
    assert((prefix + line)[0] == prefix[0]);
    assert((prefix + line + causes_script(causes))[0] == prefix[0]);
    if show_cause && causes.len() > 0 {
        let last = causes.last();
        let before = error_head_script(description) + causes_script(causes.drop_last())
            + say_write_script("caused by: "@, BRIGHT_YELLOW);
        lemma_calls_are_self_contained(rendering, false, none, last, BLACK, Attr::Bold, true);
        lemma_self_contained_concat(rendering, before, say_script(last, BLACK));
        assert(before + say_script(last, BLACK) =~= error_head_script(description)
            + causes_script(causes));
    } else if show_cause {
        assert(error_head_script(description) + causes_script(causes) =~= error_head_script(
            description,
        ));
    }
}

/// On a plain channel a colour or an attribute is not carried out and adds
/// no byte: the channel is after the step what it was before.
pub proof fn lemma_plain_skips_styles(channel: ShellView, color: Color, attr: Attr)
    requires
        !channel.colored(),
    ensures
        !channel.applies(Piece::Foreground(color)),
        !channel.applies(Piece::Attribute(attr)),
        !channel.applies(Piece::Reset),
        !channel.supports(attr),
        channel.step(Piece::Foreground(color)) == channel,
        channel.step(Piece::Attribute(attr)) == channel,
        channel.step(Piece::Reset) == channel,
{
    assert(channel.output + Seq::<u8>::empty() =~= channel.output);
}

} // verus!
