use shell::{first_failure, ShellError};
use std::io;

fn failure(kind: io::ErrorKind, text: &str) -> Result<(), ShellError> {
    Err(ShellError::from_io(io::Error::new(kind, text.to_string())))
}

#[test]
fn from_io_keeps_the_error() {
    let e = ShellError::from_io(io::Error::new(io::ErrorKind::BrokenPipe, "gone"));
    assert_eq!(e.source.kind(), io::ErrorKind::BrokenPipe);
    assert_eq!(e.source.to_string(), "gone");
}

#[test]
fn first_failure_is_ok_when_both_are() {
    assert!(first_failure(Ok(()), Ok(())).is_ok());
}

#[test]
fn first_failure_reports_the_later_error_after_a_success() {
    let r = first_failure(Ok(()), failure(io::ErrorKind::WriteZero, "later"));
    assert_eq!(r.unwrap_err().source.to_string(), "later");
}

#[test]
fn first_failure_reports_the_earlier_error_before_a_success() {
    let r = first_failure(failure(io::ErrorKind::BrokenPipe, "earlier"), Ok(()));
    let e = r.unwrap_err();
    assert_eq!(e.source.kind(), io::ErrorKind::BrokenPipe);
    assert_eq!(e.source.to_string(), "earlier");
}

#[test]
fn first_failure_does_not_hide_the_earlier_error() {
    let r = first_failure(
        failure(io::ErrorKind::BrokenPipe, "earlier"),
        failure(io::ErrorKind::WriteZero, "later"),
    );
    let e = r.unwrap_err();
    assert_eq!(e.source.kind(), io::ErrorKind::BrokenPipe);
    assert_eq!(e.source.to_string(), "earlier");
}

#[test]
fn lift_keeps_a_value_as_it_is() {
    assert_eq!(ShellError::lift(Ok::<usize, io::Error>(7)).unwrap(), 7);
    assert_eq!(ShellError::lift(Ok::<bool, io::Error>(false)).unwrap(), false);
    assert!(ShellError::lift(Ok::<(), io::Error>(())).is_ok());
}

#[test]
fn lift_holds_the_error_of_the_sink() {
    let r: Result<usize, io::Error> = Err(io::Error::new(io::ErrorKind::WriteZero, "full"));
    let e = ShellError::lift(r).unwrap_err();
    assert_eq!(e.source.kind(), io::ErrorKind::WriteZero);
    assert_eq!(e.source.to_string(), "full");
}
