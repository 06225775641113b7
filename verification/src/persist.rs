//! Which failure a caller sees when a record cannot be loaded from, or stored
//! to, a file.
//!
//! A record is one binary-encoded value in a file of its own. Loading opens
//! the file and decodes one value from it; storing creates the file and
//! encodes one value into it. Either step can fail. The functions here take
//! what the two steps reported and say what the caller is told.

use crate::error::{CodecFailure, Error, IoErrorKind, R};
use vstd::prelude::*;

verus! {

/// How an attempt to load or store a record went: `Err` when the file could
/// not be opened or created, else what the codec made of it.
pub type Attempt<T> = Result<Result<T, CodecFailure>, IoErrorKind>;

/// What the caller of a load is told.
///
/// A file that cannot be opened is an I/O error. Everything the codec
/// reports is a serialisation error: the bytes do not hold one whole value
/// of the expected shape, be it that they are malformed or that they end too
/// early.
pub open spec fn load_result<D>(attempt: Attempt<D>) -> R<D> {
    match attempt {
        Err(kind) => Err(Error::Io(kind)),
        Ok(Err(failure)) => Err(Error::Serialisation(failure)),
        Ok(Ok(value)) => Ok(value),
    }
}

/// What the caller of a store is told.
///
/// A file that cannot be created, or that cannot be written while the codec
/// encodes into it, is an I/O error. Anything else the codec reports is a
/// serialisation error: the value cannot be encoded.
pub open spec fn store_result(attempt: Attempt<()>) -> R<()> {
    match attempt {
        Err(kind) => Err(Error::Io(kind)),
        Ok(Err(CodecFailure::Io(kind))) => Err(Error::Io(kind)),
        Ok(Err(failure)) => Err(Error::Serialisation(failure)),
        Ok(Ok(())) => Ok(()),
    }
}

/// Turns the outcome of a load into the caller's result.
pub fn read_outcome<D>(attempt: Attempt<D>) -> (res: R<D>)
    ensures
        res == load_result(attempt),
{
    match attempt {
        Err(kind) => Err(Error::from(kind)),
        Ok(Err(failure)) => Err(Error::Serialisation(failure)),
        Ok(Ok(value)) => Ok(value),
    }
}

/// Turns the outcome of a store into the caller's result.
pub fn write_outcome(attempt: Attempt<()>) -> (res: R<()>)
    ensures
        res == store_result(attempt),
{
    match attempt {
        Err(kind) => Err(Error::from(kind)),
        Ok(Err(CodecFailure::Io(kind))) => Err(Error::from(kind)),
        Ok(Err(failure)) => Err(Error::Serialisation(failure)),
        Ok(Ok(())) => Ok(()),
    }
}

/// A load succeeds exactly when the file opened and the codec decoded a value,
/// and then hands that value on unchanged. What the codec could not decode is
/// a serialisation error and never a value; a file that did not open is an
/// I/O error.
pub proof fn lemma_load_succeeds_iff_decoded<D>(attempt: Attempt<D>)
    ensures
        load_result(attempt) is Ok <==> attempt matches Ok(Ok(_)),
        attempt matches Ok(Ok(value)) ==> load_result(attempt) == Ok::<D, Error>(value),
        attempt matches Ok(Err(_)) ==> load_result(attempt) matches Err(Error::Serialisation(_)),
        attempt is Err ==> load_result(attempt) matches Err(Error::Io(_)),
{
}

/// A store never reports a configuration error, and reports an I/O error
/// exactly when the file system failed, before or under the codec.
pub proof fn lemma_store_io_iff_file_failed(attempt: Attempt<()>)
    ensures
        store_result(attempt) is Ok <==> attempt matches Ok(Ok(_)),
        store_result(attempt) matches Err(Error::Io(_)) <==> (attempt is Err
            || attempt matches Ok(Err(CodecFailure::Io(_)))),
        !(store_result(attempt) matches Err(Error::Configuration(_))),
{
}

} // verus!
