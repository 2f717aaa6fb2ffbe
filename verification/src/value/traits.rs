//! Static type information for values that carry a fixed tagged-union
//! type.

use super::FrcType;
use vstd::prelude::*;

verus! {

/// A type whose tagged-union representation always carries the same type
/// tag.
pub trait StaticallyFrcTyped {
    /// The tag this type's values always carry.
    fn frc_type() -> FrcType;

    /// Whether a value of this type may also be represented as `Void`.
    fn could_be_void() -> bool {
        false
    }
}

impl StaticallyFrcTyped for bool {
    fn frc_type() -> FrcType {
        FrcType::Boolean
    }
}

impl StaticallyFrcTyped for i64 {
    fn frc_type() -> FrcType {
        FrcType::Int
    }
}

impl StaticallyFrcTyped for String {
    fn frc_type() -> FrcType {
        FrcType::String
    }
}

impl StaticallyFrcTyped for Vec<u8> {
    fn frc_type() -> FrcType {
        FrcType::Raw
    }
}

impl StaticallyFrcTyped for Vec<bool> {
    fn frc_type() -> FrcType {
        FrcType::BooleanArray
    }
}

impl StaticallyFrcTyped for Vec<i64> {
    fn frc_type() -> FrcType {
        FrcType::IntArray
    }
}

} // verus!
