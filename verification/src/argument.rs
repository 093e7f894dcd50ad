//! A field argument: one named, typed parameter of a field, rendered inline
//! inside the field's parenthesized argument list.

use vstd::prelude::*;
use crate::deprecation::deprecation_text;
use crate::deprecation::push_deprecation;
use crate::field_type::FieldType;

verus! {

/// A named, typed argument of a field. A description may be attached to the
/// value but is never rendered: arguments render on a single line, so the
/// field-level description block has no counterpart here.
#[derive(Debug, PartialEq)]
pub struct FieldArgument {
    pub name: String,
    pub type_: FieldType,
    pub description: Option<String>,
    pub deprecated: bool,
    pub deprecation_reason: Option<String>,
}

impl FieldArgument {
    /// The canonical inline spelling of this argument: `name: type`, the
    /// type in argument position (so a leaf default value shows), then the
    /// deprecation suffix. The description takes no part in it.
    pub open spec fn text(self) -> Seq<char> {
        self.name@ + ": "@ + self.type_.argument_text() + deprecation_text(
            self.deprecated,
            self.deprecation_reason,
        )
    }

    /// Creates an argument of the given name and type, not deprecated and
    /// without a description.
    pub fn new(name: String, type_: FieldType) -> (r: FieldArgument)
        ensures
            r.name == name,
            r.type_ == type_,
            r.description is None,
            !r.deprecated,
            r.deprecation_reason is None,
    {
        FieldArgument { name, type_, description: None, deprecated: false, deprecation_reason: None }
    }

    /// Sets the argument's description. The value is kept on the argument
    /// but never rendered.
    pub fn description(&mut self, description: Option<String>)
        ensures
            final(self).description == description,
            final(self).name == old(self).name,
            final(self).type_ == old(self).type_,
            final(self).deprecated == old(self).deprecated,
            final(self).deprecation_reason == old(self).deprecation_reason,
    {
        self.description = description;
    }

    /// Marks the argument deprecated, with an optional reason.
    pub fn deprecated(&mut self, reason: Option<String>)
        ensures
            final(self).deprecated,
            final(self).deprecation_reason == reason,
            final(self).name == old(self).name,
            final(self).type_ == old(self).type_,
            final(self).description == old(self).description,
    {
        self.deprecated = true;
        self.deprecation_reason = reason;
    }

    /// Renders the argument for embedding in an argument list, with no
    /// surrounding whitespace.
    pub fn render(&self) -> (r: String)
        ensures
            r@ == self.text(),
    {
        let mut out = String::new();
        out.append(self.name.as_str());
        out.append(": ");
        let t = self.type_.render_as_argument();
        out.append(t.as_str());
        proof {
            assert(out@ =~= self.name@ + ": "@ + self.type_.argument_text());
        }
        push_deprecation(&mut out, self.deprecated, &self.deprecation_reason);
        out
    }
}

/// An argument's description is absent from its rendering: two arguments
/// that differ only in their descriptions render as the same text.
pub proof fn lemma_description_not_rendered(a: FieldArgument, b: FieldArgument)
    requires
        a.name == b.name,
        a.type_ == b.type_,
        a.deprecated == b.deprecated,
        a.deprecation_reason == b.deprecation_reason,
    ensures
        a.text() == b.text(),
{
}

} // verus!
