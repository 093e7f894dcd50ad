//! Encoder for the field fragment of the GraphQL Schema Definition Language
//! (SDL): a recursive type descriptor (named type, list wrapper, non-null
//! wrapper), field arguments with deprecation and default values, and fields
//! with descriptions, arguments and deprecation. Rendering is a pure fold over
//! the tree and every renderer carries a contract that pins the produced text
//! down to the character.

pub mod error;
pub mod name;
pub mod field_type;
pub mod deprecation;
pub mod argument;
pub mod field;
pub mod profile;
