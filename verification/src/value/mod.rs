//! The type tags and error taxonomy of the tagged-union value layer, and
//! the typed view of a value's static type.
//!
//! The tagged-union value type itself carries floating-point payloads and
//! lives with the unverified shell around this library; the pieces here
//! are what the packing subsystem and its callers need: the `FrcType`
//! tag, the cast-error taxonomy, and the static-type trait.

mod error;
mod traits;

pub use error::CastErrorReason;
pub use error::FrcValueCastError;
pub use traits::StaticallyFrcTyped;

use vstd::prelude::*;

verus! {

/// A timestamp in microseconds; depending on the source it counts from
/// the unix epoch or from an arbitrary start.
pub type FrcTimestamp = u64;

/// The type tag of a tagged-union value.
#[derive(Debug, Clone, Copy, PartialEq, Eq, Hash, Structural)]
pub enum FrcType {
    Void,
    Raw,
    Boolean,
    Int,
    Double,
    Float,
    String,
    BooleanArray,
    IntArray,
    FloatArray,
    DoubleArray,
    StringArray,
    Struct,
    StructArray,
}

} // verus!
