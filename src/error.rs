use vstd::prelude::*;

verus! {

/// What went wrong, independent of the layer that noticed it.
#[derive(Clone, Copy, Debug, PartialEq, Eq, Structural)]
pub enum ErrorKind {
    /// A collection, column or model handle does not exist.
    NotFound,
    /// A collection name is taken and overwriting was not asked for.
    AlreadyExists,
    /// A request value is out of its allowed range.
    InvalidArgument,
    /// Filesystem, database or network failure.
    Io,
    /// A malformed hub manifest or an unsupported serialisation version.
    Protocol,
    /// A vector's length differs from the index's dimensions.
    DimensionMismatch,
    /// A model variant or output type that is not available.
    Unsupported,
    /// The operation was stopped before it completed.
    Cancelled,
    /// The native vector index refused an operation.
    Index,
}

/// An error kind with a human-readable message.
#[derive(Clone, Debug)]
pub struct Error {
    pub kind: ErrorKind,
    pub message: String,
}

impl Error {
    pub fn new(kind: ErrorKind, message: &str) -> (r: Error)
        ensures
            r.kind == kind,
            r.message@ == message@,
    {
        Error { kind, message: String::from_str(message) }
    }

    pub fn kind(&self) -> (r: ErrorKind)
        ensures
            r == self.kind,
    {
        self.kind
    }
}

/// The HTTP status that the search endpoint reports for an error kind.
pub open spec fn status_of(kind: ErrorKind) -> u16 {
    match kind {
        ErrorKind::InvalidArgument => 400,
        ErrorKind::NotFound => 404,
        _ => 500,
    }
}

/// Maps an error kind to its HTTP status: 400 for invalid arguments, 404 for
/// missing resources, 500 for everything else.
pub fn http_status(kind: ErrorKind) -> (r: u16)
    ensures
        r == status_of(kind),
{
    match kind {
        ErrorKind::InvalidArgument => 400,
        ErrorKind::NotFound => 404,
        _ => 500,
    }
}

} // verus!
