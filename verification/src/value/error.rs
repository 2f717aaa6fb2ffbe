//! The error taxonomy of casts between tagged-union values and typed
//! data.  Every failure here is recoverable and reported to the caller;
//! none aborts the process.

use super::FrcType;
use vstd::prelude::*;

verus! {

/// Why a cast failed.
#[derive(Debug, Clone, Copy, PartialEq, Eq, Structural)]
pub enum CastErrorReason {
    Type,
    Overflow,
    Underflow,
    Deserialization,
}

/// An error when casting between a tagged-union value and another type:
/// either from a tagged variant to a named type, or the other way.  The
/// `String` names the concrete type involved.
#[derive(Debug, Clone, PartialEq)]
pub enum FrcValueCastError {
    InvalidCastTo(FrcType, String, CastErrorReason),
    InvalidCastFrom(String, FrcType, CastErrorReason),
    UnrepresentableCast,
}

} // verus!
