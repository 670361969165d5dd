//! Errors: the one that a channel reports, and the ones it is asked to print.

use vstd::prelude::*;

verus! {

/// A failure to write to, or to flush, a sink. The sink of a channel is in
/// memory and does not fail; the error is met where what a channel
/// collected is delivered to a real stream.
#[derive(Debug)]
pub struct ShellError {
    /// The I/O error that the sink gave.
    pub source: std::io::Error,
}

/// What a channel returns for what its sink returned: the value as it is,
/// and an I/O error as the error of the channel that holds it.
pub open spec fn lifted<T>(r: Result<T, std::io::Error>) -> Result<T, ShellError> {
    match r {
        Ok(value) => Ok(value),
        Err(source) => Err(ShellError { source }),
    }
}

impl ShellError {
    /// The error of a channel for an I/O error of its sink.
    pub fn from_io(source: std::io::Error) -> (e: ShellError)
        ensures
            e.source == source,
    {
        ShellError { source }
    }

    /// Carries the result of a sink over to the channel: a value stays as
    /// it is, an I/O error becomes the error of the channel that holds it.
    pub fn lift<T>(r: Result<T, std::io::Error>) -> (out: Result<T, ShellError>)
        ensures
            out == lifted(r),
    {
        match r {
            Ok(value) => Ok(value),
            Err(source) => Err(ShellError::from_io(source)),
        }
    }
}

/// The outcome of two steps taken one after the other: the error of the
/// earlier step if it failed, and the outcome of the later step otherwise.
pub open spec fn first_failure_of(
    earlier: Result<(), ShellError>,
    later: Result<(), ShellError>,
) -> Result<(), ShellError> {
    if earlier is Err {
        earlier
    } else {
        later
    }
}

/// The outcome of two steps taken one after the other, where the later was
/// attempted whatever became of the earlier: an error of the earlier step is
/// not hidden by the later one.
pub fn first_failure(earlier: Result<(), ShellError>, later: Result<(), ShellError>) -> (r: Result<
    (),
    ShellError,
>)
    ensures
        r == first_failure_of(earlier, later),
{
    match earlier {
        Ok(()) => later,
        Err(e) => Err(e),
    }
}

/// An error to report: its description, and the error that caused it, if
/// there is one.
#[derive(Debug)]
pub struct ErrorChain {
    /// What went wrong.
    pub description: String,
    /// The error underneath.
    pub cause: Option<Box<ErrorChain>>,
}

impl ErrorChain {
    /// How many causes lie under this error.
    pub open spec fn depth(&self) -> nat
        decreases self,
    {
        match self.cause {
            Some(c) => 1 + c.depth(),
            None => 0,
        }
    }

    /// The descriptions of the causes, the nearest first, down to the root.
    pub open spec fn causes(&self) -> Seq<Seq<char>>
        decreases self,
    {
        match self.cause {
            Some(c) => seq![c.description@] + c.causes(),
            None => Seq::empty(),
        }
    }

    /// There is one description for each link of the chain.
    pub proof fn lemma_causes_len(&self)
        ensures
            self.causes().len() == self.depth(),
        decreases self,
    {
        match self.cause {
            Some(c) => {
                c.lemma_causes_len();
            },
            None => {},
        }
    }
}

} // verus!
