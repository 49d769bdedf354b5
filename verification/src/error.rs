//! Failure values returned by the decoder.

use vstd::prelude::*;

verus! {

/// Everything that can go wrong while decoding one record.
#[derive(Debug, Copy, Clone, PartialEq, Eq)]
pub enum DecodeError {
    /// The requested field, or the requested day index, lies past the end of
    /// the record, or the day index is above 30.
    OutOfBounds,
    /// A numeric field does not hold a base-10 integer literal.
    MalformedNumber,
    /// A code field holds a code outside the classifier's known set.
    UnknownCode,
}

} // verus!
