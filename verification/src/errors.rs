//! The closed error taxonomy produced by every layer of the library.

use vstd::prelude::*;

verus! {

/// PQC error types.
///
/// Every fallible operation of the library reports its failure through
/// exactly one of these kinds. Native backend failures carry the raw
/// (nonzero) status code; resolution failures carry a descriptive
/// message; size mismatches carry the expected and actual byte counts.
#[derive(Debug, Clone, PartialEq, Eq)]
pub enum PqcError {
    /// The backend shared library was not found at its resolved path.
    LibraryNotFound(String),
    /// The backend keypair entry point returned a nonzero status code.
    KeyGeneration(i32),
    /// The backend encapsulation entry point returned a nonzero status code.
    Encapsulation(i32),
    /// The backend decapsulation entry point returned a nonzero status code.
    Decapsulation(i32),
    /// The backend signing entry point returned a nonzero status code.
    Signing(i32),
    /// The backend verification entry point reported a malformed input.
    Verification(i32),
    /// A caller-supplied buffer did not have the exact required length.
    InvalidKeySize { expected: usize, actual: usize },
    /// The running operating system / architecture combination has no backend.
    UnsupportedPlatform(String),
    /// A filesystem error during backend resolution, as a message.
    Io(String),
}

/// Result type for PQC operations
pub type PqcResult<T> = Result<T, PqcError>;

} // verus!
