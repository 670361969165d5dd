//! One output channel.

use crate::error::{first_failure, ShellError};
use crate::script::{
    bold_pieces, color_pieces, lemma_render_concat, lemma_render_push, piece_applies, piece_bytes,
    render, say_attr_script, say_script, say_status_script, say_write_script, Piece, Rendering,
};
use crate::style::{Attr, Color, BLACK};
use crate::safe_terminal::SafeTerminal;
use crate::terminfo::{entry_view, TerminfoEntry, TerminfoEntryView};
use crate::text::{line_bytes, status_label_bytes, status_tail_bytes};
use vstd::prelude::*;
use vstd::string::*;
use vstd::utf8::*;

verus! {

/// What a channel is set up with. It stays as it is for the life of the
/// channel.
#[derive(Clone, Copy, Debug, PartialEq, Eq)]
pub struct ShellConfig {
    /// Whether colours and attributes are wanted.
    pub color: bool,
    /// Whether the channel is verbose.
    pub verbose: bool,
    /// Whether the stream behind the channel is an interactive terminal.
    pub tty: bool,
}

/// Where the bytes that a channel collects are to be delivered.
#[derive(Clone, Copy, Debug, PartialEq, Eq)]
pub enum Destination {
    /// The stream that the channel was created for.
    Given,
    /// The standard error stream of the process, whatever the channel was
    /// created for.
    StandardError,
}

enum AdequateTerminal {
    NoColor(Vec<u8>),
    Colored(SafeTerminal),
}

/// One output channel: a sink that collects bytes, a way of rendering, and
/// its configuration.
pub struct Shell {
    terminal: AdequateTerminal,
    config: ShellConfig,
    destination: Destination,
}

/// What a [`Shell`] stands for.
pub struct ShellView {
    /// The configuration it was created with.
    pub config: ShellConfig,
    /// How it renders.
    pub rendering: Rendering,
    /// The bytes collected and not yet taken.
    pub output: Seq<u8>,
    /// Where they are to go.
    pub destination: Destination,
}

impl ShellView {
    /// Whether the channel renders through a terminal.
    pub open spec fn colored(self) -> bool {
        self.rendering is Colored
    }

    /// The channel with `bytes` added to its output.
    pub open spec fn emit(self, bytes: Seq<u8>) -> ShellView {
        ShellView { output: self.output + bytes, ..self }
    }

    /// The channel after one piece.
    pub open spec fn step(self, piece: Piece) -> ShellView {
        self.emit(piece_bytes(self.rendering, piece))
    }

    /// The channel after a script.
    pub open spec fn run(self, script: Seq<Piece>) -> ShellView {
        self.emit(render(self.rendering, script))
    }

    /// Whether `other` is the same channel, whatever it has collected.
    pub open spec fn same_channel(self, other: ShellView) -> bool {
        &&& self.config == other.config
        &&& self.rendering == other.rendering
        &&& self.destination == other.destination
    }

    /// Whether the channel can render `attr`.
    pub open spec fn supports(self, attr: Attr) -> bool {
        match self.rendering {
            Rendering::Plain => false,
            Rendering::Colored(entry) => entry.supports(attr),
        }
    }

    /// Whether the channel carries out the reset, colour or attribute of
    /// `piece`: a plain channel never does, a coloured one where its
    /// terminal does.
    pub open spec fn applies(self, piece: Piece) -> bool {
        piece_applies(self.rendering, piece)
    }
}

/// The channel that [`Shell::create`] makes: coloured where the stream is a
/// terminal, colour is wanted and the terminal's entry was found; plain
/// otherwise. A coloured channel renders by the entry without the string
/// capabilities that cannot be trusted to expand. Where the entry was wanted
/// and not found, the channel sends its output to standard error.
pub open spec fn created(config: ShellConfig, terminfo: Option<TerminfoEntryView>) -> ShellView {
    if config.tty && config.color {
        match terminfo {
            Some(entry) => ShellView {
                config,
                rendering: Rendering::Colored(entry.sanitized()),
                output: Seq::empty(),
                destination: Destination::Given,
            },
            None => ShellView {
                config,
                rendering: Rendering::Plain,
                output: Seq::empty(),
                destination: Destination::StandardError,
            },
        }
    } else {
        ShellView {
            config,
            rendering: Rendering::Plain,
            output: Seq::empty(),
            destination: Destination::Given,
        }
    }
}

/// Stepping after a script is running the script with the step added.
pub proof fn lemma_run_step(start: ShellView, script: Seq<Piece>, piece: Piece)
    ensures
        start.run(script).step(piece) == start.run(script.push(piece)),
        start.run(Seq::empty()) == start,
{
    lemma_render_push(start.rendering, script, piece);
    assert(start.output + render(start.rendering, script) + piece_bytes(start.rendering, piece)
        =~= start.output + (render(start.rendering, script) + piece_bytes(
        start.rendering,
        piece,
    )));
    assert(start.output + render(start.rendering, Seq::empty()) =~= start.output);
}

/// One step is the script of that step.
pub proof fn lemma_run_one(start: ShellView, piece: Piece)
    ensures
        start.step(piece) == start.run(seq![piece]),
{
    lemma_run_step(start, Seq::empty(), piece);
    assert(Seq::<Piece>::empty().push(piece) =~= seq![piece]);
}

/// Running one script and another is running the two in a row.
pub proof fn lemma_run_concat(start: ShellView, a: Seq<Piece>, b: Seq<Piece>)
    ensures
        start.run(a).run(b) == start.run(a + b),
{
    lemma_render_concat(start.rendering, a, b);
    assert(start.output + render(start.rendering, a) + render(start.rendering, b) =~= start.output
        + (render(start.rendering, a) + render(start.rendering, b)));
}

impl View for Shell {
    type V = ShellView;

    closed spec fn view(&self) -> ShellView {
        ShellView {
            config: self.config,
            rendering: match self.terminal {
                AdequateTerminal::NoColor(_) => Rendering::Plain,
                AdequateTerminal::Colored(t) => Rendering::Colored(t@.entry),
            },
            output: match self.terminal {
                AdequateTerminal::NoColor(sink) => sink@,
                AdequateTerminal::Colored(t) => t@.sink,
            },
            destination: self.destination,
        }
    }
}

impl Shell {
    /// Makes a channel with an empty sink. `terminfo` is the entry of the
    /// terminal behind the stream, or `None` where none could be loaded.
    pub fn create(config: ShellConfig, terminfo: Option<TerminfoEntry>) -> (shell: Shell)
        ensures
            shell@ == created(config, entry_view(terminfo)),
    {
        if config.tty && config.color {
            match terminfo {
                Some(entry) => Shell {
                    terminal: AdequateTerminal::Colored(SafeTerminal::new(entry)),
                    config,
                    destination: Destination::Given,
                },
                None => Shell {
                    terminal: AdequateTerminal::NoColor(Vec::new()),
                    config,
                    destination: Destination::StandardError,
                },
            }
        } else {
            Shell {
                terminal: AdequateTerminal::NoColor(Vec::new()),
                config,
                destination: Destination::Given,
            }
        }
    }

    /// The configuration of the channel.
    pub fn config(&self) -> (config: ShellConfig)
        ensures
            config == self@.config,
    {
        self.config
    }

    /// Where the collected bytes are to go.
    pub fn destination(&self) -> (destination: Destination)
        ensures
            destination == self@.destination,
    {
        self.destination
    }

    /// Whether the channel renders through a terminal.
    pub fn is_colored(&self) -> (colored: bool)
        ensures
            colored == self@.colored(),
    {
        match &self.terminal {
            AdequateTerminal::NoColor(_) => false,
            AdequateTerminal::Colored(_) => true,
        }
    }

    /// Hands out the bytes collected so far and empties the sink.
    pub fn take_output(&mut self) -> (bytes: Vec<u8>)
        ensures
            bytes@ == old(self)@.output,
            final(self)@ == (ShellView { output: Seq::empty(), ..old(self)@ }),
    {
        let mut bytes: Vec<u8> = Vec::new();
        match &mut self.terminal {
            AdequateTerminal::NoColor(sink) => {
                core::mem::swap(sink, &mut bytes);
            },
            AdequateTerminal::Colored(t) => {
                bytes = t.take();
            },
        }
        bytes
    }

    /// Runs `callback` on the channel if the channel is verbose, and does
    /// nothing otherwise.
    pub fn verbose<F>(&mut self, callback: F) -> (r: Result<(), ShellError>) where
        F: FnOnce(&mut Shell) -> Result<(), ShellError>,

        requires
            old(self)@.config.verbose ==> forall|shell: &mut Shell|
                *shell == *old(self) ==> call_requires(callback, (shell,)),
        ensures
            !old(self)@.config.verbose ==> r is Ok && *final(self) == *old(self),
            old(self)@.config.verbose ==> exists|shell: &mut Shell|
                *shell == *old(self) && *final(shell) == *final(self) && call_ensures(
                    callback,
                    (shell,),
                    r,
                ),
    {
        if self.config.verbose {
            return callback(self);
        }
        Ok(())
    }

    /// Runs `callback` on the channel unless the channel is verbose.
    pub fn concise<F>(&mut self, callback: F) -> (r: Result<(), ShellError>) where
        F: FnOnce(&mut Shell) -> Result<(), ShellError>,

        requires
            !old(self)@.config.verbose ==> forall|shell: &mut Shell|
                *shell == *old(self) ==> call_requires(callback, (shell,)),
        ensures
            old(self)@.config.verbose ==> r is Ok && *final(self) == *old(self),
            !old(self)@.config.verbose ==> exists|shell: &mut Shell|
                *shell == *old(self) && *final(shell) == *final(self) && call_ensures(
                    callback,
                    (shell,),
                    r,
                ),
    {
        if !self.config.verbose {
            return callback(self);
        }
        Ok(())
    }

    /// Writes `message` in `color`, without a newline.
    ///
    /// The sink is in memory, so every step succeeds and so does the call.
    /// The steps are still taken as for a sink that may fail: after the
    /// first reset the closing reset and the flush are attempted whatever
    /// became of the steps in between, and the first error is the one
    /// returned.
    pub fn say_write(&mut self, message: &str, color: Color) -> (r: Result<(), ShellError>)
        ensures
            r is Ok,
            final(self)@ == old(self)@.run(say_write_script(message@, color)),
    {
        let ghost start = self@;
        self.reset()?;
        let written = self.write_colored(message.as_bytes(), color);
        proof {
            let body = color_pieces(color).push(Piece::Text(encode_utf8(message@)));
            lemma_run_one(start, Piece::Reset);
            lemma_run_concat(start, seq![Piece::Reset], body);
            lemma_run_step(start, seq![Piece::Reset] + body, Piece::Reset);
            assert((seq![Piece::Reset] + body).push(Piece::Reset) =~= say_write_script(
                message@,
                color,
            ));
        }
        self.finish(written)
    }

    /// Writes `message` with `attr` and in `color`, and a newline after it
    /// where `new_line` is set.
    ///
    /// The sink is in memory, so every step succeeds and so does the call.
    /// The steps are still taken as for a sink that may fail: after the
    /// first reset the closing reset and the flush are attempted whatever
    /// became of the steps in between, and the first error is the one
    /// returned.
    pub fn say_attr(&mut self, message: &str, color: Color, attr: Attr, new_line: bool) -> (r:
        Result<(), ShellError>)
        ensures
            r is Ok,
            final(self)@ == old(self)@.run(
                say_attr_script(message@, color, attr, new_line),
            ),
    {
        let ghost start = self@;
        self.reset()?;
        let bytes = line_bytes(message, new_line);
        let written = match self.attr(attr) {
            Ok(_) => self.write_colored(bytes.as_slice(), color),
            Err(e) => Err(e),
        };
        proof {
            let head = seq![Piece::Reset, Piece::Attribute(attr)];
            let body = color_pieces(color).push(Piece::Text(bytes@));
            lemma_run_one(start, Piece::Reset);
            lemma_run_step(start, seq![Piece::Reset], Piece::Attribute(attr));
            assert(seq![Piece::Reset].push(Piece::Attribute(attr)) =~= head);
            lemma_run_concat(start, head, body);
            lemma_run_step(start, head + body, Piece::Reset);
            assert((head + body).push(Piece::Reset) =~= say_attr_script(
                message@,
                color,
                attr,
                new_line,
            ));
        }
        self.finish(written)
    }

    /// Writes `message` in `color`, on a line of its own.
    ///
    /// The sink is in memory, so every step succeeds and so does the call.
    /// The steps are still taken as for a sink that may fail: after the
    /// first reset the closing reset and the flush are attempted whatever
    /// became of the steps in between, and the first error is the one
    /// returned.
    pub fn say(&mut self, message: &str, color: Color) -> (r: Result<(), ShellError>)
        ensures
            r is Ok,
            final(self)@ == old(self)@.run(say_script(message@, color)),
    {
        let ghost start = self@;
        self.reset()?;
        let bytes = line_bytes(message, true);
        let written = self.write_colored(bytes.as_slice(), color);
        proof {
            let body = color_pieces(color).push(Piece::Text(bytes@));
            lemma_run_one(start, Piece::Reset);
            lemma_run_concat(start, seq![Piece::Reset], body);
            lemma_run_step(start, seq![Piece::Reset] + body, Piece::Reset);
            assert((seq![Piece::Reset] + body).push(Piece::Reset) =~= say_script(message@, color));
        }
        self.finish(written)
    }

    /// Writes a status line: `status` right-aligned in a field of twelve
    /// characters, in `color` and, where the channel can render it, in bold;
    /// then, in the default style, a space, `message` and a newline.
    pub fn say_status(&mut self, status: &str, message: &str, color: Color) -> (r: Result<
        (),
        ShellError,
    >)
        ensures
            r is Ok,
            final(self)@ == old(self)@.run(
                say_status_script(old(self)@.supports(Attr::Bold), status@, message@, color),
            ),
    {
        let bold = self.supports_attr(Attr::Bold);
        self.say_status_with(status, message, color, bold)
    }

    /// Writes a status line whose label is bold if `bold` is set:
    /// `status` right-aligned in a field of twelve characters, in `color`;
    /// then, in the default style, a space, `message` and a newline.
    ///
    /// The sink is in memory, so every step succeeds and so does the call.
    /// The steps are still taken as for a sink that may fail: after the
    /// first reset the reset after the label and the flush are attempted
    /// whatever became of the steps before them, and the first error is the
    /// one returned.
    pub fn say_status_with(&mut self, status: &str, message: &str, color: Color, bold: bool) -> (r:
        Result<(), ShellError>)
        ensures
            r is Ok,
            final(self)@ == old(self)@.run(
                say_status_script(bold, status@, message@, color),
            ),
    {
        let ghost start = self@;
        self.reset()?;
        let label = status_label_bytes(status);
        let tail = status_tail_bytes(message);
        let labelled = self.write_label(label.as_slice(), color, bold);
        let reset = self.reset();
        let written = match first_failure(labelled, reset) {
            Ok(()) => self.write_text(tail.as_slice()),
            Err(e) => Err(e),
        };
        let flushed = self.flush();
        proof {
            let body = (color_pieces(color) + bold_pieces(bold)).push(Piece::Text(label@));
            lemma_run_one(start, Piece::Reset);
            lemma_run_concat(start, seq![Piece::Reset], body);
            lemma_run_step(start, seq![Piece::Reset] + body, Piece::Reset);
            lemma_run_step(
                start,
                (seq![Piece::Reset] + body).push(Piece::Reset),
                Piece::Text(tail@),
            );
            assert((seq![Piece::Reset] + body).push(Piece::Reset).push(Piece::Text(tail@))
                =~= say_status_script(bold, status@, message@, color));
        }
        first_failure(written, flushed)
    }

    /// Whether the channel can render `attr`: never on a plain channel, and
    /// on a coloured one as its terminal says.
    pub fn supports_attr(&self, attr: Attr) -> (supported: bool)
        ensures
            supported == self@.supports(attr),
    {
        match &self.terminal {
            AdequateTerminal::Colored(t) => t.supports_attr(attr),
            AdequateTerminal::NoColor(_) => false,
        }
    }

    /// Hands `buf` to the sink, which takes all of it, and says how many
    /// bytes that was.
    pub fn write(&mut self, buf: &[u8]) -> (r: Result<usize, ShellError>)
        ensures
            r is Ok,
            r matches Ok(n) ==> n == buf@.len(),
            final(self)@ == old(self)@.emit(buf@),
    {
        match &mut self.terminal {
            AdequateTerminal::Colored(t) => t.write(buf),
            AdequateTerminal::NoColor(sink) => {
                sink.extend_from_slice(buf);
                assert(sink@ =~= old(self)@.output + buf@);
                Ok(buf.len())
            },
        }
    }

    /// Flushes the sink. The collected bytes stay as they are.
    pub fn flush(&mut self) -> (r: Result<(), ShellError>)
        ensures
            r is Ok,
            final(self)@ == old(self)@,
    {
        match &mut self.terminal {
            AdequateTerminal::Colored(t) => t.flush(),
            AdequateTerminal::NoColor(_) => Ok(()),
        }
    }

    /// Sets the foreground colour: a step that a plain channel skips.
    fn fg(&mut self, color: Color) -> (r: Result<bool, ShellError>)
        ensures
            r is Ok,
            r matches Ok(set) ==> set == old(self)@.applies(Piece::Foreground(color)),
            final(self)@ == old(self)@.step(Piece::Foreground(color)),
    {
        match &mut self.terminal {
            AdequateTerminal::Colored(t) => t.fg(color),
            AdequateTerminal::NoColor(sink) => {
                assert(sink@ + Seq::<u8>::empty() =~= sink@);
                Ok(false)
            },
        }
    }

    /// Sets a text attribute: a step that a plain channel skips.
    fn attr(&mut self, attr: Attr) -> (r: Result<bool, ShellError>)
        ensures
            r is Ok,
            r matches Ok(set) ==> set == old(self)@.applies(Piece::Attribute(attr)),
            final(self)@ == old(self)@.step(Piece::Attribute(attr)),
    {
        match &mut self.terminal {
            AdequateTerminal::Colored(t) => t.attr(attr),
            AdequateTerminal::NoColor(sink) => {
                assert(sink@ + Seq::<u8>::empty() =~= sink@);
                Ok(false)
            },
        }
    }

    /// Resets colour and attributes: a step that a plain channel skips.
    fn reset(&mut self) -> (r: Result<(), ShellError>)
        ensures
            r is Ok,
            final(self)@ == old(self)@.step(Piece::Reset),
    {
        match &mut self.terminal {
            AdequateTerminal::Colored(t) => match t.reset() {
                Ok(_) => Ok(()),
                Err(e) => Err(e),
            },
            AdequateTerminal::NoColor(sink) => {
                assert(sink@ + Seq::<u8>::empty() =~= sink@);
                Ok(())
            },
        }
    }

    /// Sets `color` unless it is the default, then writes `bytes`.
    fn write_colored(&mut self, bytes: &[u8], color: Color) -> (r: Result<(), ShellError>)
        ensures
            r is Ok,
            final(self)@ == old(self)@.run(
                color_pieces(color).push(Piece::Text(bytes@)),
            ),
    {
        let ghost start = self@;
        proof {
            lemma_run_step(start, Seq::empty(), Piece::Foreground(color));
            lemma_run_step(start, color_pieces(color), Piece::Text(bytes@));
            assert(Seq::<Piece>::empty().push(Piece::Foreground(color)) =~= seq![
                Piece::Foreground(color),
            ]);
        }
        if color != BLACK {
            self.fg(color)?;
        }
        self.write_text(bytes)
    }

    /// Sets `color` unless it is the default and bold where `bold` is set,
    /// then writes `bytes`.
    fn write_label(&mut self, bytes: &[u8], color: Color, bold: bool) -> (r: Result<
        (),
        ShellError,
    >)
        ensures
            r is Ok,
            final(self)@ == old(self)@.run(
                (color_pieces(color) + bold_pieces(bold)).push(Piece::Text(bytes@)),
            ),
    {
        let ghost start = self@;
        let ghost style = color_pieces(color) + bold_pieces(bold);
        proof {
            lemma_run_step(start, Seq::empty(), Piece::Foreground(color));
            lemma_run_step(start, color_pieces(color), Piece::Attribute(Attr::Bold));
            lemma_run_step(start, style, Piece::Text(bytes@));
            assert(Seq::<Piece>::empty().push(Piece::Foreground(color)) =~= seq![
                Piece::Foreground(color),
            ]);
            assert(color_pieces(color).push(Piece::Attribute(Attr::Bold)) =~= color_pieces(color)
                + seq![Piece::Attribute(Attr::Bold)]);
            assert(color_pieces(color) + Seq::<Piece>::empty() =~= color_pieces(color));
        }
        if color != BLACK {
            self.fg(color)?;
        }
        if bold {
            self.attr(Attr::Bold)?;
        }
        self.write_text(bytes)
    }

    /// Ends a call: resets and flushes, whatever `written` says of the steps
    /// before, and returns the first error among the three. Reset and flush
    /// succeed, so the result is an error only where `written` is one.
    fn finish(&mut self, written: Result<(), ShellError>) -> (r: Result<(), ShellError>)
        ensures
            written is Ok ==> r is Ok,
            written is Err ==> r == written,
            final(self)@ == old(self)@.step(Piece::Reset),
    {
        let reset = self.reset();
        let flushed = self.flush();
        first_failure(written, first_failure(reset, flushed))
    }

    /// Writes the whole of `bytes`.
    fn write_text(&mut self, bytes: &[u8]) -> (r: Result<(), ShellError>)
        ensures
            r is Ok,
            final(self)@ == old(self)@.step(Piece::Text(bytes@)),
    {
        match &mut self.terminal {
            AdequateTerminal::Colored(t) => t.write_all(bytes),
            AdequateTerminal::NoColor(sink) => {
                sink.extend_from_slice(bytes);
                assert(sink@ =~= old(self)@.output + bytes@);
                Ok(())
            },
        }
    }
}

} // verus!
