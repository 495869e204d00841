//! Error kinds raised by the public-area buffer and its conversions.

use vstd::prelude::*;

verus! {

/// A recoverable failure of buffer construction, conversion or (un)marshalling.
#[derive(Clone, Copy, Debug, PartialEq, Eq, Structural)]
pub enum WrapperError {
    /// A given or declared length exceeds the fixed-layout size bound.
    WrongParamSize,
    /// A numeric conversion between length representations does not fit.
    InvalidParam,
    /// The encode service reported a non-success status code.
    MarshallFailure(u32),
    /// The decode service reported a non-success status code.
    UnmarshallFailure(u32),
    /// The structured public-area value rejected its input.
    InvalidPublic,
}

} // verus!
