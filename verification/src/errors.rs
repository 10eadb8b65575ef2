//! Enumerates all possible errors returned by this library.
use vstd::prelude::*;

verus! {

/// Errors surfaced by key discovery and conversion.
#[derive(Clone, Copy, Debug, PartialEq, Eq, Structural)]
pub enum Error {
    /// No algorithm was provided where one is required.
    MissingAlg,
    /// Unknown or unsupported algorithm.
    UnknownAlg,
    /// No document format was provided where one is required.
    MissingFormat,
    /// Unknown or unsupported document format.
    UnknownFormat,
    /// No encoding was provided where one is required.
    MissingEncoding,
    /// Unknown or unsupported encoding.
    UnknownEncoding,
    /// No discovery probe recognized the input buffer.
    UnknownKeyType,
    /// The key type of the source cannot yield the requested key type.
    TypeMismatch,
    /// The requested conversion is not supported.
    NotSupported,
    /// A badly formed password argument.
    BadPasswordArg,
    /// A container matched its outer schema but its inner structure was
    /// rejected by the codec.
    BadContainer,
    /// A required input (such as a password for an encrypted container)
    /// was absent.
    MissingInput,
}

} // verus!
