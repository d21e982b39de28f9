//! Buffer-length validation, run before every backend invocation that
//! accepts caller-supplied buffers.

use vstd::prelude::*;
use crate::errors::{PqcError, PqcResult};

verus! {

/// The outcome of checking a byte sequence against an exact expected
/// length: success when the lengths agree, `InvalidKeySize` otherwise.
pub open spec fn length_check(data: Seq<u8>, expected: usize) -> Result<(), PqcError> {
    if data.len() == expected {
        Ok(())
    } else {
        Err(PqcError::InvalidKeySize { expected, actual: data.len() as usize })
    }
}

/// Validate that a slice has the expected length.
///
/// Pure and content-blind: only the length is inspected, never the
/// bytes themselves. The field name is diagnostic only and does not
/// influence the outcome.
pub fn validate_length(data: &[u8], expected: usize, _name: &str) -> (r: PqcResult<()>)
    ensures
        r == length_check(data@, expected),
{
    if data.len() != expected {
        Err(PqcError::InvalidKeySize { expected, actual: data.len() })
    } else {
        Ok(())
    }
}

} // verus!
