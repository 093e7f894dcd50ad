//! Errors raised while constructing schema elements. Rendering itself never
//! fails: a value that was constructed through the checked constructors is
//! always renderable.

use vstd::prelude::*;

verus! {

/// A construction-time error. No partially built value is ever handed out:
/// a constructor either returns a valid element or one of these.
#[derive(Clone, Copy, Debug, PartialEq, Eq, Structural)]
pub enum SdlError {
    /// An empty or malformed identifier was supplied as the name of a named
    /// type.
    InvalidTypeName,
    /// An empty or malformed field name, or an argument list that would
    /// contain two arguments of the same name.
    InvalidFieldDefinition,
}

impl SdlError {
    /// A short human-readable account of the error.
    pub fn message(&self) -> (r: String)
        ensures
            *self is InvalidTypeName ==> r@ == "invalid type name"@,
            *self is InvalidFieldDefinition ==> r@ == "invalid field definition"@,
    {
        match self {
            SdlError::InvalidTypeName => String::from_str("invalid type name"),
            SdlError::InvalidFieldDefinition => String::from_str("invalid field definition"),
        }
    }
}

} // verus!
