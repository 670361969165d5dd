use shell::capability::{is_safe_capability, MAX_ADDITIVE};
use shell::style::{BLACK, BRIGHT_RED, RED};
use shell::{Attr, Shell, ShellConfig, TerminfoEntry};

const XTERM_256_SETAF: &[u8] =
    b"\x1b[%?%p1%{8}%<%t3%p1%d%e%p1%{16}%<%t9%p1%{8}%-%d%e38;5;%p1%d%;m";
const XTERM_SGR: &[u8] = b"%?%p9%t\x1b(0%e\x1b(B%;\x1b[0%?%p6%t;1%;%?%p5%t;2%;\
%?%p2%t;4%;%?%p1%p3%|%t;7%;%?%p4%t;5%;%?%p7%t;8%;m";

fn colored_with(strings: Vec<(&str, &[u8])>, colors: u16) -> Shell {
    let entry = TerminfoEntry {
        names: vec![],
        bools: vec![],
        numbers: vec![("colors".to_string(), colors)],
        strings: strings.into_iter().map(|(name, cap)| (name.to_string(), cap.to_vec())).collect(),
    };
    let shell = Shell::create(ShellConfig { color: true, verbose: false, tty: true }, Some(entry));
    assert!(shell.is_colored());
    shell
}

#[test]
fn text_without_instructions_is_safe() {
    assert!(is_safe_capability(b""));
    assert!(is_safe_capability(b"\x1b[1m"));
    assert!(is_safe_capability(b"1234"));
    assert!(is_safe_capability(b"1234;5678"));
    assert!(is_safe_capability(b"a/b*c+d-e i m ~ . : #"));
    assert!(is_safe_capability(b"%"));
    assert!(is_safe_capability(b"100%"));
}

#[test]
fn capabilities_of_real_terminals_are_safe() {
    assert!(is_safe_capability(b"\x1b[3%p1%dm"));
    assert!(is_safe_capability(b"\x1b[4%p1%dm"));
    assert!(is_safe_capability(b"\x1b[39;49m"));
    assert!(is_safe_capability(b"\x1b(B\x1b[m"));
    assert!(is_safe_capability(XTERM_256_SETAF));
    assert!(is_safe_capability(XTERM_SGR));
}

#[test]
fn instructions_that_may_fail_are_refused() {
    let refused: [&[u8]; 21] = [
        b"%*", b"%/", b"%m", b"%~", b"%i", b"%:", b"%#", b"% ", b"%.", b"%0", b"%1", b"%2",
        b"%3", b"%4", b"%5", b"%6", b"%7", b"%8", b"%9", b"%p0", b"12345",
    ];
    for cap in refused.iter() {
        assert!(!is_safe_capability(cap));
        let mut around = b"\x1b[%p1%d".to_vec();
        around.extend_from_slice(cap);
        around.extend_from_slice(b"m");
        assert!(!is_safe_capability(&around));
    }
    assert!(!is_safe_capability(b"%{1}%{0}%/%d"));
    assert!(!is_safe_capability(b"%p1%{12345}%+%d"));
}

#[test]
fn what_stands_next_to_a_refusal_is_safe() {
    assert!(is_safe_capability(b"%p1"));
    assert!(is_safe_capability(b"%p9"));
    assert!(is_safe_capability(b"%{1234}"));
    assert!(is_safe_capability(b"%%"));
    assert!(is_safe_capability(b"%d%o%x%X%s%c%l"));
    assert!(is_safe_capability(b"%Pa%ga%'x'"));
    assert!(is_safe_capability(b"%=%>%<%A%O%!%&%|%^"));
    assert!(is_safe_capability(b"p0"));
    assert!(is_safe_capability(b"%+"));
    assert!(is_safe_capability(b"%-"));
}

#[test]
fn additions_and_subtractions_are_counted() {
    assert_eq!(MAX_ADDITIVE, 8);
    for n in 0..12usize {
        let mut cap = Vec::new();
        for k in 0..n {
            cap.extend_from_slice(if k % 2 == 0 { b"%p1%p1%+" } else { b"%p1%{1}%-" });
        }
        assert_eq!(is_safe_capability(&cap), n <= 8);
    }
    assert!(is_safe_capability(b"+-+-+-+-+-+-+-+-+-"));
}

#[test]
fn sanitize_drops_what_is_refused_and_keeps_the_order() {
    let entry = TerminfoEntry {
        names: vec!["t".to_string()],
        bools: vec![("am".to_string(), true)],
        numbers: vec![("colors".to_string(), 8)],
        strings: vec![
            ("setaf".to_string(), b"\x1b[3%p1%dm".to_vec()),
            ("cup".to_string(), b"\x1b[%i%p1%d;%p2%dH".to_vec()),
            ("bold".to_string(), b"\x1b[1m".to_vec()),
            ("dim".to_string(), b"%{1}%{0}%/%d".to_vec()),
            ("op".to_string(), b"\x1b[39;49m".to_vec()),
        ],
    };
    let clean = entry.sanitize();
    assert_eq!(clean.names, vec!["t".to_string()]);
    assert_eq!(clean.bools, vec![("am".to_string(), true)]);
    assert_eq!(clean.numbers, vec![("colors".to_string(), 8)]);
    assert_eq!(
        clean.strings,
        vec![
            ("setaf".to_string(), b"\x1b[3%p1%dm".to_vec()),
            ("bold".to_string(), b"\x1b[1m".to_vec()),
            ("op".to_string(), b"\x1b[39;49m".to_vec()),
        ]
    );
}

#[test]
fn a_refused_capability_counts_as_missing() {
    let mut shell = colored_with(
        vec![
            ("setaf", b"\x1b[3%p1%dm"),
            ("setab", b"\x1b[4%p1%dm"),
            ("bold", b"%{1}%{0}%/%d"),
            ("dim", b"%p0%d"),
            ("op", b"<r>"),
        ],
        8,
    );
    assert!(!shell.supports_attr(Attr::Bold));
    assert!(!shell.supports_attr(Attr::Dim));
    shell.say_attr("x", RED, Attr::Bold, false).unwrap();
    assert_eq!(shell.take_output(), b"<r>\x1b[31mx<r>".to_vec());
    shell.say_attr("y", BLACK, Attr::Dim, true).unwrap();
    assert_eq!(shell.take_output(), b"<r>y\n<r>".to_vec());
}

#[test]
fn a_refused_color_capability_leaves_no_colors() {
    let mut shell = colored_with(
        vec![("setaf", b"\x1b[3%p1%{1}%{0}%/%dm"), ("setab", b"\x1b[4%p1%dm"), ("op", b"<r>")],
        8,
    );
    assert!(!shell.supports_attr(Attr::ForegroundColor(RED)));
    shell.say("x", RED).unwrap();
    assert_eq!(shell.take_output(), b"<r>x\n<r>".to_vec());
}

#[test]
fn an_earlier_capability_counts_where_the_later_is_refused() {
    let mut shell = colored_with(vec![("bold", b"<b>"), ("bold", b"%p0")], 0);
    shell.say_attr("", BLACK, Attr::Bold, false).unwrap();
    assert_eq!(shell.take_output(), b"<b>".to_vec());
}

#[test]
fn colors_of_a_256_color_terminal() {
    let mut shell = colored_with(
        vec![("setaf", XTERM_256_SETAF), ("setab", b"\x1b[4%p1%dm"), ("op", b"<r>")],
        256,
    );
    shell.say_write("a", RED).unwrap();
    assert_eq!(shell.take_output(), b"<r>\x1b[31ma<r>".to_vec());
    shell.say_write("b", BRIGHT_RED).unwrap();
    assert_eq!(shell.take_output(), b"<r>\x1b[91mb<r>".to_vec());
    shell.say_write("c", 200).unwrap();
    assert_eq!(shell.take_output(), b"<r>\x1b[38;5;200mc<r>".to_vec());
}

#[test]
fn no_short_capability_makes_the_terminal_panic() {
    let alphabet: &[u8] = b"%p019+-*/mi{}'cdt;e?Pgal=~.:# x";
    let mut caps: Vec<Vec<u8>> = vec![vec![]];
    let mut longest: Vec<Vec<u8>> = vec![vec![]];
    for _ in 0..3 {
        let mut next = Vec::new();
        for cap in longest.iter() {
            for &b in alphabet.iter() {
                let mut longer = cap.clone();
                longer.push(b);
                next.push(longer);
            }
        }
        caps.extend(next.iter().cloned());
        longest = next;
    }
    let mut accepted = 0usize;
    for cap in caps.iter() {
        if is_safe_capability(cap) {
            accepted += 1;
        }
        let mut shell = colored_with(
            vec![("setaf", cap), ("setab", cap), ("bold", cap), ("op", cap)],
            8,
        );
        shell.say_attr("", BRIGHT_RED, Attr::Bold, false).unwrap();
        shell.say_attr("", BLACK, Attr::BackgroundColor(RED), false).unwrap();
        shell.take_output();
    }
    assert!(accepted > 0 && accepted < caps.len());
}
