use shell::style::{BLACK, BRIGHT_RED, BRIGHT_YELLOW, GREEN, GREY, RED, YELLOW};
use shell::text::{line_bytes, status_label_bytes, status_tail_bytes, STATUS_WIDTH};
use shell::{Attr, Destination, Shell, ShellConfig, TerminfoEntry};

fn ansi_entry() -> TerminfoEntry {
    TerminfoEntry {
        names: vec!["ansi".to_string()],
        bools: vec![],
        numbers: vec![("colors".to_string(), 8)],
        strings: vec![
            ("setaf".to_string(), b"\x1b[3%p1%dm".to_vec()),
            ("setab".to_string(), b"\x1b[4%p1%dm".to_vec()),
            ("op".to_string(), b"\x1b[39;49m".to_vec()),
            ("bold".to_string(), b"\x1b[1m".to_vec()),
        ],
    }
}

fn plain() -> Shell {
    Shell::create(ShellConfig { color: false, verbose: false, tty: false }, None)
}

#[test]
fn colors_are_the_terminal_colors() {
    assert_eq!(BLACK, term::color::BLACK);
    assert_eq!(RED, term::color::RED);
    assert_eq!(GREEN, term::color::GREEN);
    assert_eq!(YELLOW, term::color::YELLOW);
    assert_eq!(GREY, term::color::BRIGHT_BLACK);
    assert_eq!(BRIGHT_RED, term::color::BRIGHT_RED);
    assert_eq!(BRIGHT_YELLOW, term::color::BRIGHT_YELLOW);
}

#[test]
fn create_is_plain_without_color_or_without_a_terminal() {
    for &(color, tty) in [(false, false), (false, true), (true, false)].iter() {
        for with_entry in [false, true] {
            let config = ShellConfig { color, verbose: false, tty };
            let entry = if with_entry { Some(ansi_entry()) } else { None };
            let mut shell = Shell::create(config, entry);
            assert!(!shell.is_colored());
            assert_eq!(shell.destination(), Destination::Given);
            assert_eq!(shell.config(), config);
            assert_eq!(shell.take_output(), Vec::<u8>::new());
        }
    }
}

#[test]
fn create_is_colored_on_a_terminal_with_an_entry() {
    let config = ShellConfig { color: true, verbose: false, tty: true };
    let mut shell = Shell::create(config, Some(ansi_entry()));
    assert!(shell.is_colored());
    assert_eq!(shell.destination(), Destination::Given);
    assert_eq!(shell.config(), config);
    assert_eq!(shell.take_output(), Vec::<u8>::new());
}

#[test]
fn create_falls_back_to_plain_on_standard_error_without_an_entry() {
    let config = ShellConfig { color: true, verbose: true, tty: true };
    let mut shell = Shell::create(config, None);
    assert!(!shell.is_colored());
    assert_eq!(shell.destination(), Destination::StandardError);
    assert_eq!(shell.config(), config);
    shell.say_status("Running", "x", GREEN).unwrap();
    assert_eq!(shell.take_output(), b"     Running x\n".to_vec());
}

#[test]
fn plain_channels_never_write_control_bytes() {
    for &(color, tty) in [(false, false), (false, true), (true, false)].iter() {
        let config = ShellConfig { color, verbose: false, tty };
        let mut shell = Shell::create(config, Some(ansi_entry()));
        shell.say_write("a", RED).unwrap();
        shell.say("b", BRIGHT_YELLOW).unwrap();
        shell.say_attr("c", GREEN, Attr::Bold, false).unwrap();
        shell.say_attr("d", GREY, Attr::Underline(true), true).unwrap();
        shell.say_status("E", "f", BRIGHT_RED).unwrap();
        assert_eq!(shell.take_output(), b"ab\ncd\n           E f\n".to_vec());
        assert!(!shell.supports_attr(Attr::Bold));
        assert!(!shell.supports_attr(Attr::ForegroundColor(RED)));
    }
}

#[test]
fn say_write_has_no_newline() {
    let mut shell = plain();
    shell.say_write("error: ", BRIGHT_RED).unwrap();
    assert_eq!(shell.take_output(), b"error: ".to_vec());
}

#[test]
fn say_ends_the_line() {
    let mut shell = plain();
    shell.say("", BLACK).unwrap();
    shell.say("two words", BLACK).unwrap();
    assert_eq!(shell.take_output(), b"\ntwo words\n".to_vec());
}

#[test]
fn say_attr_ends_the_line_only_when_asked() {
    let mut shell = plain();
    shell.say_attr("x", BLACK, Attr::Dim, false).unwrap();
    shell.say_attr("y", BLACK, Attr::Dim, true).unwrap();
    assert_eq!(shell.take_output(), b"xy\n".to_vec());
}

#[test]
fn status_label_is_right_aligned_in_twelve_characters() {
    assert_eq!(STATUS_WIDTH, 12);
    let mut shell = plain();
    shell.say_status("", "m", GREEN).unwrap();
    assert_eq!(shell.take_output(), b"             m\n".to_vec());
    shell.say_status("a", "m", GREEN).unwrap();
    assert_eq!(shell.take_output(), b"           a m\n".to_vec());
    shell.say_status("elevenchars", "m", GREEN).unwrap();
    assert_eq!(shell.take_output(), b" elevenchars m\n".to_vec());
    shell.say_status("twelve chars", "m", GREEN).unwrap();
    assert_eq!(shell.take_output(), b"twelve chars m\n".to_vec());
    shell.say_status("thirteen char", "m", GREEN).unwrap();
    assert_eq!(shell.take_output(), b"thirteen char m\n".to_vec());
    shell.say_status("a label that is much longer", "", GREEN).unwrap();
    assert_eq!(shell.take_output(), b"a label that is much longer \n".to_vec());
}

#[test]
fn status_label_is_padded_by_characters_not_bytes() {
    let mut shell = plain();
    shell.say_status("h\u{e9}llo", "w\u{f6}rld", GREEN).unwrap();
    let expected = format!("{:>12} {}\n", "h\u{e9}llo", "w\u{f6}rld");
    assert_eq!(expected, "       h\u{e9}llo w\u{f6}rld\n");
    assert_eq!(shell.take_output(), expected.into_bytes());
    let label = status_label_bytes("\u{65e5}\u{672c}");
    assert_eq!(label, "          \u{65e5}\u{672c}".as_bytes().to_vec());
}

#[test]
fn status_matches_the_standard_formatter() {
    let labels = ["", "x", "Compiling", "Downloading", "Documenting!", "A very long label"];
    for label in labels.iter() {
        let mut shell = plain();
        shell.say_status(label, "pkg v1.0", GREEN).unwrap();
        assert_eq!(shell.take_output(), format!("{:>12} {}\n", label, "pkg v1.0").into_bytes());
    }
}

#[test]
fn text_helpers_give_exact_bytes() {
    assert_eq!(line_bytes("abc", false), b"abc".to_vec());
    assert_eq!(line_bytes("abc", true), b"abc\n".to_vec());
    assert_eq!(line_bytes("", true), b"\n".to_vec());
    assert_eq!(status_label_bytes("Compiling"), b"   Compiling".to_vec());
    assert_eq!(status_label_bytes(""), b"            ".to_vec());
    assert_eq!(status_tail_bytes("foo v0.1.0"), b" foo v0.1.0\n".to_vec());
    assert_eq!(status_tail_bytes(""), b" \n".to_vec());
}

#[test]
fn write_hands_the_bytes_over() {
    let mut shell = plain();
    assert_eq!(shell.write(b"raw \xff bytes").unwrap(), 11);
    assert_eq!(shell.write(b"").unwrap(), 0);
    shell.flush().unwrap();
    assert_eq!(shell.take_output(), b"raw \xff bytes".to_vec());
}

#[test]
fn take_output_empties_the_sink() {
    let mut shell = plain();
    shell.say("one", BLACK).unwrap();
    assert_eq!(shell.take_output(), b"one\n".to_vec());
    assert_eq!(shell.take_output(), Vec::<u8>::new());
    shell.say("two", BLACK).unwrap();
    assert_eq!(shell.take_output(), b"two\n".to_vec());
}

#[test]
fn channel_verbose_and_concise_follow_the_configuration() {
    let mut quiet = Shell::create(ShellConfig { color: false, verbose: false, tty: false }, None);
    quiet.verbose(|shell| shell.say("v", BLACK)).unwrap();
    quiet.concise(|shell| shell.say("c", BLACK)).unwrap();
    assert_eq!(quiet.take_output(), b"c\n".to_vec());

    let mut loud = Shell::create(ShellConfig { color: false, verbose: true, tty: false }, None);
    loud.verbose(|shell| shell.say("v", BLACK)).unwrap();
    loud.concise(|shell| shell.say("c", BLACK)).unwrap();
    assert_eq!(loud.take_output(), b"v\n".to_vec());
}
