//! The failures that this layer reports to its callers.

use vstd::prelude::*;

verus! {

/// The kind of an I/O failure, as far as callers tell kinds apart. Every kind
/// without a variant of its own is `Other`.
#[derive(Clone, Copy, Debug, PartialEq, Eq, Structural)]
pub enum IoErrorKind {
    NotFound,
    PermissionDenied,
    AlreadyExists,
    InvalidInput,
    InvalidData,
    UnexpectedEof,
    WriteZero,
    Interrupted,
    Other,
}

/// What the binary codec reports when it cannot encode or decode a value.
#[derive(Clone, Debug, PartialEq, Eq)]
pub enum CodecFailure {
    /// The reader or writer under the codec failed.
    Io(IoErrorKind),
    /// A string's bytes are not valid UTF-8.
    InvalidUtf8Encoding,
    /// A boolean was encoded as this byte, neither 0 nor 1.
    InvalidBoolEncoding(u8),
    /// A character is not in the expected form.
    InvalidCharEncoding,
    /// An enum's tag, given here, is out of range.
    InvalidTagEncoding(usize),
    /// The value's type wants to see the data before it says what it expects.
    DeserializeAnyNotSupported,
    /// The value takes more bytes than the codec's limit.
    SizeLimit,
    /// A sequence does not know its length before it is walked.
    SequenceMustHaveLength,
    /// A message from the value's own encoding or decoding code.
    Custom(String),
}

/// A failure of this layer.
#[derive(Clone, Debug, PartialEq, Eq)]
pub enum Error {
    /// A file or an operating-system path could not be reached.
    Io(IoErrorKind),
    /// A value could not be encoded, or bytes do not decode to the expected
    /// value.
    Serialisation(CodecFailure),
    /// The operation is not available as the library is configured or built.
    Configuration(String),
}

/// The result of the library's fallible operations.
pub type R<T> = Result<T, Error>;

impl From<IoErrorKind> for Error {
    fn from(kind: IoErrorKind) -> (e: Error)
        ensures
            e == Error::Io(kind),
    {
        Error::Io(kind)
    }
}

impl vstd::std_specs::convert::FromSpecImpl<IoErrorKind> for Error {
    open spec fn obeys_from_spec() -> bool {
        true
    }

    open spec fn from_spec(kind: IoErrorKind) -> Error {
        Error::Io(kind)
    }
}

} // verus!
