//! The recursive SDL type descriptor: a named type, a list wrapper, or a
//! non-null wrapper. `text` is the mathematical statement of the canonical
//! SDL spelling of a type; `render` produces it.

use vstd::prelude::*;
use crate::error::SdlError;
use crate::name::is_sdl_name;

verus! {

/// An SDL type reference. A `Named` leaf may carry a literal default value,
/// which is rendered only where the type stands as the direct type of an
/// argument; `List` and `NonNull` wrap an inner type.
#[derive(Debug, PartialEq)]
pub enum FieldType {
    Named { name: String, default: Option<String> },
    List { inner: Box<FieldType> },
    NonNull { inner: Box<FieldType> },
}

impl FieldType {
    /// The canonical SDL spelling of this type in field position: the bare
    /// name for a leaf, `[inner]` for a list, `inner!` for a non-null type.
    /// A default value is never part of a field's type.
    pub open spec fn text(self) -> Seq<char>
        decreases self,
    {
        match self {
            FieldType::Named { name, default } => name@,
            FieldType::List { inner } => "["@ + inner.text() + "]"@,
            FieldType::NonNull { inner } => inner.text() + "!"@,
        }
    }

    /// The canonical SDL spelling of this type in argument position: as in
    /// field position, except that a `Named` leaf with a default value `d`
    /// is followed by ` = d`.
    pub open spec fn argument_text(self) -> Seq<char> {
        match self {
            FieldType::Named { name, default: Some(d) } => name@ + " = "@ + d@,
            _ => self.text(),
        }
    }

    /// Well-formedness: every named type is a valid SDL name, and no
    /// non-null wrapper sits directly inside another (a double non-null is
    /// meaningless in SDL). The checked constructors establish this and
    /// never produce anything else.
    pub open spec fn wf(self) -> bool
        decreases self,
    {
        match self {
            FieldType::Named { name, default } => is_sdl_name(name@),
            FieldType::List { inner } => inner.wf(),
            FieldType::NonNull { inner } => !(*inner is NonNull) && inner.wf(),
        }
    }

    /// Builds a named leaf type. Returns `InvalidTypeName` exactly when
    /// `name` is not a valid SDL name.
    pub fn named(name: String, default: Option<String>) -> (r: Result<FieldType, SdlError>)
        ensures
            is_sdl_name(name@) ==> r == Ok::<FieldType, SdlError>(
                FieldType::Named { name, default },
            ),
            !is_sdl_name(name@) ==> r == Err::<FieldType, SdlError>(SdlError::InvalidTypeName),
            r matches Ok(t) ==> t.wf(),
    {
        if crate::name::is_valid_name(name.as_str()) {
            Ok(FieldType::Named { name, default })
        } else {
            Err(SdlError::InvalidTypeName)
        }
    }

    /// Wraps a type in a list wrapper.
    pub fn list(inner: FieldType) -> (r: FieldType)
        ensures
            r matches FieldType::List { inner: i } && *i == inner,
            inner.wf() ==> r.wf(),
    {
        FieldType::List { inner: Box::new(inner) }
    }

    /// Wraps a type in a non-null wrapper. A type that is already non-null
    /// is returned unchanged, so a double non-null is unreachable through
    /// this constructor.
    pub fn non_null(inner: FieldType) -> (r: FieldType)
        ensures
            !(inner is NonNull) ==> (r matches FieldType::NonNull { inner: i } && *i == inner),
            inner is NonNull ==> r == inner,
            inner.wf() ==> r.wf(),
    {
        match inner {
            FieldType::NonNull { .. } => inner,
            _ => FieldType::NonNull { inner: Box::new(inner) },
        }
    }

    /// Renders this type as it appears after a field's colon.
    pub fn render(&self) -> (r: String)
        ensures
            r@ == self.text(),
        decreases *self,
    {
        match self {
            FieldType::Named { name, default: _ } => name.clone(),
            FieldType::List { inner } => {
                let mut out = String::from_str("[");
                let t = inner.render();
                out.append(t.as_str());
                out.append("]");
                out
            },
            FieldType::NonNull { inner } => {
                let mut out = inner.render();
                out.append("!");
                out
            },
        }
    }

    /// Renders this type as it appears after an argument's colon: a leaf
    /// default value, when present, follows the name as ` = default`.
    pub fn render_as_argument(&self) -> (r: String)
        ensures
            r@ == self.argument_text(),
    {
        match self {
            FieldType::Named { name, default: Some(d) } => {
                let mut out = name.clone();
                out.append(" = ");
                out.append(d.as_str());
                out
            },
            _ => self.render(),
        }
    }
}

/// A named type with no default renders as exactly its name.
pub proof fn lemma_named_text_is_name(name: String, default: Option<String>)
    ensures
        (FieldType::Named { name, default }).text() == name@,
{
}

/// A list wrapper renders as its inner type between square brackets,
/// whatever the inner type is.
pub proof fn lemma_list_text_brackets(inner: Box<FieldType>)
    ensures
        (FieldType::List { inner }).text() == "["@ + inner.text() + "]"@,
{
}

/// A non-null wrapper renders as its inner type followed by a bang,
/// whatever the inner type is. Together with the bracket law this pins the
/// spelling of every nesting: wrappers render inside out, in order.
pub proof fn lemma_non_null_text_bang(inner: Box<FieldType>)
    ensures
        (FieldType::NonNull { inner }).text() == inner.text() + "!"@,
{
}

} // verus!
