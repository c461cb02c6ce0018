use vstd::prelude::*;

verus! {

/// The class of a failure reported by a job.
#[derive(PartialEq, Eq, Structural, Clone, Copy, Debug)]
pub enum ErrorKind {
    /// The input file or its parent directory is missing.
    NotFound,
    /// The operating system could not start the process.
    SpawnFailure,
    /// Reading the process's output or waiting for its exit failed.
    StreamFailure,
    /// The codec table could not be read or understood.
    ConfigFailure,
    /// The system clock could not be read as a calendar date.
    ClockFailure,
}

/// A failure with its class and a human-readable message.
#[derive(Debug)]
pub struct JobError {
    pub kind: ErrorKind,
    pub message: String,
}

/// The `std::io::ErrorKind` variants under which the library's errors are
/// reported.
#[derive(PartialEq, Eq, Structural, Clone, Copy, Debug)]
pub enum IoKind {
    NotFound,
    InvalidData,
    Other,
}

/// The I/O error kind that reports an error of class `kind`: a missing file is
/// `NotFound`, an unreadable codec table `InvalidData`, the rest `Other`.
pub open spec fn io_kind_of(kind: ErrorKind) -> IoKind {
    match kind {
        ErrorKind::NotFound => IoKind::NotFound,
        ErrorKind::ConfigFailure => IoKind::InvalidData,
        ErrorKind::SpawnFailure => IoKind::Other,
        ErrorKind::StreamFailure => IoKind::Other,
        ErrorKind::ClockFailure => IoKind::Other,
    }
}

/// The I/O error kind that reports an error of class `kind`.
pub fn io_kind(kind: ErrorKind) -> (r: IoKind)
    ensures
        r == io_kind_of(kind),
{
    match kind {
        ErrorKind::NotFound => IoKind::NotFound,
        ErrorKind::ConfigFailure => IoKind::InvalidData,
        ErrorKind::SpawnFailure => IoKind::Other,
        ErrorKind::StreamFailure => IoKind::Other,
        ErrorKind::ClockFailure => IoKind::Other,
    }
}

/// Names the `Debug` text of a `std::io::Error` made from `kind` and `message`.
pub uninterp spec fn io_error_debug(kind: IoKind, message: Seq<char>) -> Seq<char>;

/// Relies on `std::io::Error::new` and its `Debug` formatting, each `IoKind`
/// passed as the `std::io::ErrorKind` variant of the same name. The text
/// depends on the kind and the message alone.
#[verifier::external_body]
fn io_error_text(kind: IoKind, message: &str) -> (r: String)
    ensures
        r@ == io_error_debug(kind, message@),
{
    let k = match kind {
        IoKind::NotFound => std::io::ErrorKind::NotFound,
        IoKind::InvalidData => std::io::ErrorKind::InvalidData,
        IoKind::Other => std::io::ErrorKind::Other,
    };
    format!("{:?}", std::io::Error::new(k, message))
}

impl JobError {
    /// The payload under which this error is reported to the event sink: the
    /// debug text of the I/O error of the matching kind.
    pub fn describe(&self) -> (r: String)
        ensures
            r@ == io_error_debug(io_kind_of(self.kind), self.message@),
    {
        io_error_text(io_kind(self.kind), self.message.as_str())
    }
}

/// Builds an error of the given class carrying `message`.
pub fn io_error_maker(kind: ErrorKind, message: &str) -> (r: JobError)
    ensures
        r.kind == kind,
        r.message@ == message@,
{
    JobError { kind, message: message.to_owned() }
}

} // verus!
