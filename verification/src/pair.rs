//! A standard and an error channel with a shared verbosity flag.

use crate::channel::{created, lemma_run_concat, Shell, ShellConfig, ShellView};
use crate::error::{ErrorChain, ShellError};
use crate::script::{
    cause_script, causes_script, error_full_script, error_head_script, say_attr_script,
    say_script, say_status_script, say_write_script,
};
use crate::style::{Attr, Color, BLACK, BRIGHT_RED, BRIGHT_YELLOW, GREEN, GREY, RED, YELLOW};
use crate::terminfo::{entry_view, TerminfoEntry};
use vstd::prelude::*;

verus! {

/// What is known of the stream behind a channel: whether it is an
/// interactive terminal, and the terminfo entry of that terminal where one
/// could be loaded.
pub struct StreamProbe {
    /// Whether the stream is an interactive terminal.
    pub tty: bool,
    /// The entry of the terminal, if it was found.
    pub terminfo: Option<TerminfoEntry>,
}

/// The standard channel, the error channel and the verbosity flag.
pub struct MultiShell {
    out: Shell,
    err: Shell,
    verbose: bool,
}

/// What a [`MultiShell`] stands for.
pub struct MultiShellView {
    /// The standard channel.
    pub out: ShellView,
    /// The error channel.
    pub err: ShellView,
    /// Whether the pair is verbose.
    pub verbose: bool,
}

/// The configuration of a channel for a standard stream: colour is wanted.
pub open spec fn stdio_config(verbose: bool, tty: bool) -> ShellConfig {
    ShellConfig { color: true, verbose, tty }
}

impl View for MultiShell {
    type V = MultiShellView;

    closed spec fn view(&self) -> MultiShellView {
        MultiShellView { out: self.out@, err: self.err@, verbose: self.verbose }
    }
}

impl MultiShell {
    /// The pair for the standard streams of a process: colour is wanted on
    /// both, and each channel is created from what is known of its stream.
    pub fn new_stdio(verbose: bool, out: StreamProbe, err: StreamProbe) -> (shell: MultiShell)
        ensures
            shell@.verbose == verbose,
            shell@.out == created(stdio_config(verbose, out.tty), entry_view(out.terminfo)),
            shell@.err == created(stdio_config(verbose, err.tty), entry_view(err.terminfo)),
    {
        let config = ShellConfig { color: true, verbose, tty: err.tty };
        let err = Shell::create(config, err.terminfo);
        let config = ShellConfig { color: true, verbose, tty: out.tty };
        let out = Shell::create(config, out.terminfo);
        MultiShell::new(out, err, verbose)
    }

    /// The pair of two channels.
    pub fn new(out: Shell, err: Shell, verbose: bool) -> (shell: MultiShell)
        ensures
            shell@ == (MultiShellView { out: out@, err: err@, verbose }),
    {
        MultiShell { out, err, verbose }
    }

    /// The standard channel.
    pub fn out(&mut self) -> (out: &mut Shell)
        ensures
            out@ == old(self)@.out,
            final(self)@ == (MultiShellView { out: final(out)@, ..old(self)@ }),
    {
        &mut self.out
    }

    /// The error channel.
    pub fn err(&mut self) -> (err: &mut Shell)
        ensures
            err@ == old(self)@.err,
            final(self)@ == (MultiShellView { err: final(err)@, ..old(self)@ }),
    {
        &mut self.err
    }

    /// Writes `message` in `color` on a line of the standard channel.
    pub fn say(&mut self, message: &str, color: Color) -> (r: Result<(), ShellError>)
        ensures
            final(self)@.err == old(self)@.err,
            final(self)@.verbose == old(self)@.verbose,
            r is Ok,
            final(self)@.out == old(self)@.out.run(say_script(message@, color)),
    {
        self.out().say(message, color)
    }

    /// Writes a status line with a green label on the standard channel.
    pub fn status(&mut self, status: &str, message: &str) -> (r: Result<(), ShellError>)
        ensures
            final(self)@.err == old(self)@.err,
            final(self)@.verbose == old(self)@.verbose,
            r is Ok,
            final(self)@.out == old(self)@.out.run(
                say_status_script(old(self)@.out.supports(Attr::Bold), status@, message@, GREEN),
            ),
    {
        self.out().say_status(status, message, GREEN)
    }

    /// Runs `callback` on the pair if the pair is verbose, and does nothing
    /// otherwise.
    pub fn verbose<F>(&mut self, callback: F) -> (r: Result<(), ShellError>) where
        F: FnOnce(&mut MultiShell) -> Result<(), ShellError>,

        requires
            old(self)@.verbose ==> forall|shell: &mut MultiShell|
                *shell == *old(self) ==> call_requires(callback, (shell,)),
        ensures
            !old(self)@.verbose ==> r is Ok && *final(self) == *old(self),
            old(self)@.verbose ==> exists|shell: &mut MultiShell|
                *shell == *old(self) && *final(shell) == *final(self) && call_ensures(
                    callback,
                    (shell,),
                    r,
                ),
    {
        if self.verbose {
            return callback(self);
        }
        Ok(())
    }

    /// Runs `callback` on the pair unless the pair is verbose.
    pub fn concise<F>(&mut self, callback: F) -> (r: Result<(), ShellError>) where
        F: FnOnce(&mut MultiShell) -> Result<(), ShellError>,

        requires
            !old(self)@.verbose ==> forall|shell: &mut MultiShell|
                *shell == *old(self) ==> call_requires(callback, (shell,)),
        ensures
            old(self)@.verbose ==> r is Ok && *final(self) == *old(self),
            !old(self)@.verbose ==> exists|shell: &mut MultiShell|
                *shell == *old(self) && *final(shell) == *final(self) && call_ensures(
                    callback,
                    (shell,),
                    r,
                ),
    {
        if !self.verbose {
            return callback(self);
        }
        Ok(())
    }

    /// Writes `message` in red on a line of the error channel.
    pub fn error(&mut self, message: &str) -> (r: Result<(), ShellError>)
        ensures
            final(self)@.out == old(self)@.out,
            final(self)@.verbose == old(self)@.verbose,
            r is Ok,
            final(self)@.err == old(self)@.err.run(say_script(message@, RED)),
    {
        self.err().say(message, RED)
    }

    /// Writes `message` in yellow on a line of the error channel.
    pub fn warn(&mut self, message: &str) -> (r: Result<(), ShellError>)
        ensures
            final(self)@.out == old(self)@.out,
            final(self)@.verbose == old(self)@.verbose,
            r is Ok,
            final(self)@.err == old(self)@.err.run(say_script(message@, YELLOW)),
    {
        self.err().say(message, YELLOW)
    }

    /// Makes the pair verbose or concise. The channels stay as they are.
    pub fn set_verbose(&mut self, verbose: bool)
        ensures
            final(self)@ == (MultiShellView { verbose, ..old(self)@ }),
    {
        self.verbose = verbose;
    }

    /// Whether the pair is verbose.
    pub fn get_verbose(&self) -> (verbose: bool)
        ensures
            verbose == self@.verbose,
    {
        self.verbose
    }

    /// Writes a status line with `tag` as its label, in the default colour,
    /// on the standard channel.
    pub fn tag(&mut self, tag: &str, message: &str) -> (r: Result<(), ShellError>)
        ensures
            final(self)@.err == old(self)@.err,
            final(self)@.verbose == old(self)@.verbose,
            r is Ok,
            final(self)@.out == old(self)@.out.run(
                say_status_script(old(self)@.out.supports(Attr::Bold), tag@, message@, BLACK),
            ),
    {
        self.out().say_status(tag, message, BLACK)
    }

    /// Writes `message` underlined on a line of the standard channel.
    pub fn header(&mut self, message: &str) -> (r: Result<(), ShellError>)
        ensures
            final(self)@.err == old(self)@.err,
            final(self)@.verbose == old(self)@.verbose,
            r is Ok,
            final(self)@.out == old(self)@.out.run(
                say_attr_script(message@, BLACK, Attr::Underline(true), true),
            ),
    {
        self.out().say_attr(message, BLACK, Attr::Underline(true), true)
    }

    /// Writes `message` dim and grey on a line of the standard channel.
    pub fn comment(&mut self, message: &str) -> (r: Result<(), ShellError>)
        ensures
            final(self)@.err == old(self)@.err,
            final(self)@.verbose == old(self)@.verbose,
            r is Ok,
            final(self)@.out == old(self)@.out.run(
                say_attr_script(message@, GREY, Attr::Dim, true),
            ),
    {
        self.out().say_attr(message, GREY, Attr::Dim, true)
    }

    /// Writes a status line with `tag` as its label, in `color`, on the
    /// standard channel.
    pub fn tag_color(&mut self, tag: &str, message: &str, color: Color) -> (r: Result<
        (),
        ShellError,
    >)
        ensures
            final(self)@.err == old(self)@.err,
            final(self)@.verbose == old(self)@.verbose,
            r is Ok,
            final(self)@.out == old(self)@.out.run(
                say_status_script(old(self)@.out.supports(Attr::Bold), tag@, message@, color),
            ),
    {
        self.out().say_status(tag, message, color)
    }

    /// Reports an error on the error channel: `error: ` in bright red and
    /// the description in bold on the first line; then, where `show_cause`
    /// is set, one line for each cause down the chain, `caused by: ` in
    /// bright yellow and the description of the cause.
    pub fn error_full(&mut self, e: &ErrorChain, show_cause: bool) -> (r: Result<(), ShellError>)
        ensures
            final(self)@.out == old(self)@.out,
            final(self)@.verbose == old(self)@.verbose,
            r is Ok,
            final(self)@.err == old(self)@.err.run(
                error_full_script(e.description@, e.causes(), show_cause),
            ),
    {
        let ghost start = self@.err;
        self.err().say_write("error: ", BRIGHT_RED)?;
        self.err().say_attr(e.description.as_str(), BLACK, Attr::Bold, true)?;
        proof {
            lemma_run_concat(
                start,
                say_write_script("error: "@, BRIGHT_RED),
                say_attr_script(e.description@, BLACK, Attr::Bold, true),
            );
        }
        if !show_cause {
            return Ok(());
        }
        let mut link: &ErrorChain = e;
        let ghost mut shown: Seq<Seq<char>> = Seq::empty();
        proof {
            lemma_run_concat(start, error_head_script(e.description@), causes_script(shown));
            assert(error_head_script(e.description@) + causes_script(shown) =~= error_head_script(
                e.description@,
            ));
            assert(shown + link.causes() =~= e.causes());
        }
        loop
            invariant
                self@.out == old(self)@.out,
                self@.verbose == old(self)@.verbose,
                start == old(self)@.err,
                self@.err == start.run(error_head_script(e.description@) + causes_script(shown)),
                shown + link.causes() == e.causes(),
            ensures
                self@.out == old(self)@.out,
                self@.verbose == old(self)@.verbose,
                self@.err == start.run(
                    error_head_script(e.description@) + causes_script(e.causes()),
                ),
            decreases link.depth(),
        {
            match &link.cause {
                Some(cause) => {
                    let ghost before = self@.err;
                    let ghost description = cause.description@;
                    self.err().say_write("caused by: ", BRIGHT_YELLOW)?;
                    self.err().say(cause.description.as_str(), BLACK)?;
                    proof {
                        lemma_run_concat(
                            before,
                            say_write_script("caused by: "@, BRIGHT_YELLOW),
                            say_script(description, BLACK),
                        );
                        lemma_run_concat(
                            start,
                            error_head_script(e.description@) + causes_script(shown),
                            cause_script(description),
                        );
                        assert(shown.push(description).drop_last() =~= shown);
                        assert(error_head_script(e.description@) + causes_script(shown)
                            + cause_script(description) =~= error_head_script(e.description@)
                            + causes_script(shown.push(description)));
                        assert(shown.push(description) + cause.causes() =~= shown + link.causes());
                        shown = shown.push(description);
                    }
                    link = &**cause;
                },
                None => {
                    assert(shown =~= e.causes());
                    break ;
                },
            }
        }
        Ok(())
    }
}

} // verus!
