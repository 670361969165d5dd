use shell::style::{BLACK, RED};
use shell::{Destination, ErrorChain, MultiShell, Shell, ShellConfig, StreamProbe};

fn no_terminal() -> StreamProbe {
    StreamProbe { tty: false, terminfo: None }
}

fn plain_pair(verbose: bool) -> MultiShell {
    MultiShell::new_stdio(verbose, no_terminal(), no_terminal())
}

fn chain(descriptions: &[&str]) -> ErrorChain {
    let mut link: Option<Box<ErrorChain>> = None;
    for description in descriptions.iter().rev() {
        link = Some(Box::new(ErrorChain { description: description.to_string(), cause: link }));
    }
    *link.unwrap()
}

#[test]
fn create_multishell() {
    MultiShell::new_stdio(false, no_terminal(), no_terminal());
}

#[test]
fn create_multishell_verbose() {
    MultiShell::new_stdio(true, no_terminal(), no_terminal());
}

#[test]
fn new_stdio_wants_color_and_keeps_the_flags() {
    let mut pair = MultiShell::new_stdio(
        true,
        StreamProbe { tty: false, terminfo: None },
        StreamProbe { tty: true, terminfo: None },
    );
    assert!(pair.get_verbose());
    assert_eq!(pair.out().config(), ShellConfig { color: true, verbose: true, tty: false });
    assert_eq!(pair.err().config(), ShellConfig { color: true, verbose: true, tty: true });
    assert!(!pair.out().is_colored());
    assert!(!pair.err().is_colored());
    assert_eq!(pair.out().destination(), Destination::Given);
    assert_eq!(pair.err().destination(), Destination::StandardError);
}

#[test]
fn status_on_plain_streams_is_the_padded_line() {
    let mut pair = plain_pair(false);
    pair.status("Compiling", "foo v0.1.0").unwrap();
    assert_eq!(pair.out().take_output(), b"   Compiling foo v0.1.0\n".to_vec());
    assert_eq!(pair.err().take_output(), Vec::<u8>::new());
}

#[test]
fn error_full_without_cause_is_one_line() {
    let mut pair = plain_pair(false);
    pair.error_full(&chain(&["bad input"]), true).unwrap();
    assert_eq!(pair.err().take_output(), b"error: bad input\n".to_vec());
    assert_eq!(pair.out().take_output(), Vec::<u8>::new());
}

#[test]
fn error_full_prints_one_line_for_each_cause() {
    let mut pair = plain_pair(false);
    pair.error_full(&chain(&["top", "middle", "root"]), true).unwrap();
    assert_eq!(
        pair.err().take_output(),
        b"error: top\ncaused by: middle\ncaused by: root\n".to_vec()
    );
}

#[test]
fn error_full_hides_the_causes_unless_asked() {
    let mut pair = plain_pair(false);
    pair.error_full(&chain(&["top", "middle", "root"]), false).unwrap();
    assert_eq!(pair.err().take_output(), b"error: top\n".to_vec());
}

#[test]
fn error_chain_depth_counts_the_lines() {
    let mut pair = plain_pair(false);
    for depth in 0..5usize {
        let mut descriptions = vec!["e"];
        for _ in 0..depth {
            descriptions.push("c");
        }
        pair.error_full(&chain(&descriptions), true).unwrap();
        let text = String::from_utf8(pair.err().take_output()).unwrap();
        assert_eq!(text.lines().count(), 1 + depth);
        assert_eq!(text.lines().filter(|l| l.starts_with("error: ")).count(), 1);
        assert_eq!(text.lines().filter(|l| l.starts_with("caused by: ")).count(), depth);
    }
}

#[test]
fn say_goes_to_the_standard_channel() {
    let mut pair = plain_pair(false);
    pair.say("hello", RED).unwrap();
    assert_eq!(pair.out().take_output(), b"hello\n".to_vec());
    assert_eq!(pair.err().take_output(), Vec::<u8>::new());
}

#[test]
fn error_and_warn_go_to_the_error_channel() {
    let mut pair = plain_pair(false);
    pair.error("broken").unwrap();
    pair.warn("careful").unwrap();
    assert_eq!(pair.err().take_output(), b"broken\ncareful\n".to_vec());
    assert_eq!(pair.out().take_output(), Vec::<u8>::new());
}

#[test]
fn tag_header_and_comment_on_plain_streams() {
    let mut pair = plain_pair(false);
    pair.tag("Note", "x").unwrap();
    pair.tag_color("Updating", "registry", RED).unwrap();
    pair.header("Title").unwrap();
    pair.comment("aside").unwrap();
    assert_eq!(
        pair.out().take_output(),
        b"        Note x\n    Updating registry\nTitle\naside\n".to_vec()
    );
}

#[test]
fn verbose_runs_the_callback_only_when_verbose() {
    let mut pair = plain_pair(false);
    let mut calls = 0;
    pair.verbose(|shell| {
        calls += 1;
        shell.say("loud", BLACK)
    })
    .unwrap();
    assert_eq!(calls, 0);
    assert_eq!(pair.out().take_output(), Vec::<u8>::new());

    let mut pair = plain_pair(true);
    let mut calls = 0;
    pair.verbose(|shell| {
        calls += 1;
        shell.say("loud", BLACK)
    })
    .unwrap();
    assert_eq!(calls, 1);
    assert_eq!(pair.out().take_output(), b"loud\n".to_vec());
}

#[test]
fn concise_runs_the_callback_only_when_not_verbose() {
    let mut pair = plain_pair(true);
    let mut calls = 0;
    pair.concise(|shell| {
        calls += 1;
        shell.say("short", BLACK)
    })
    .unwrap();
    assert_eq!(calls, 0);
    assert_eq!(pair.out().take_output(), Vec::<u8>::new());

    let mut pair = plain_pair(false);
    let mut calls = 0;
    pair.concise(|shell| {
        calls += 1;
        shell.say("short", BLACK)
    })
    .unwrap();
    assert_eq!(calls, 1);
    assert_eq!(pair.out().take_output(), b"short\n".to_vec());
}

#[test]
fn set_verbose_changes_what_runs_next() {
    let mut pair = plain_pair(false);
    assert!(!pair.get_verbose());
    pair.set_verbose(true);
    assert!(pair.get_verbose());
    pair.verbose(|shell| shell.say("now", BLACK)).unwrap();
    pair.concise(|shell| shell.say("never", BLACK)).unwrap();
    pair.set_verbose(false);
    assert!(!pair.get_verbose());
    pair.verbose(|shell| shell.say("never", BLACK)).unwrap();
    pair.concise(|shell| shell.say("again", BLACK)).unwrap();
    assert_eq!(pair.out().take_output(), b"now\nagain\n".to_vec());
}

#[test]
fn set_verbose_leaves_the_channels_alone() {
    let mut pair = plain_pair(false);
    pair.say("kept", BLACK).unwrap();
    pair.set_verbose(true);
    assert_eq!(pair.out().config().verbose, false);
    assert_eq!(pair.out().take_output(), b"kept\n".to_vec());
}

#[test]
fn new_pairs_the_given_channels() {
    let config = ShellConfig { color: false, verbose: false, tty: false };
    let mut out = Shell::create(config, None);
    out.say("before", BLACK).unwrap();
    let err = Shell::create(config, None);
    let mut pair = MultiShell::new(out, err, true);
    assert!(pair.get_verbose());
    assert_eq!(pair.out().take_output(), b"before\n".to_vec());
    assert_eq!(pair.err().take_output(), Vec::<u8>::new());
}
