//! A field in a given SDL type: name, type, optional description, optional
//! deprecation, and an ordered argument list. `text` states the exact block
//! the field contributes to a type body; `render` produces it.

use vstd::prelude::*;
use crate::argument::FieldArgument;
use crate::deprecation::deprecation_text;
use crate::deprecation::push_deprecation;
use crate::error::SdlError;
use crate::field_type::FieldType;
use crate::name::is_sdl_name;
use crate::name::is_valid_name;

verus! {

/// The description block preceding a field line: nothing without a
/// description, and with one a three-line `"""`-delimited block, each line
/// indented by two spaces, closed by the newline that separates it from the
/// field line.
pub open spec fn description_text(description: Option<String>) -> Seq<char> {
    match description {
        Some(d) => "  \"\"\"\n  "@ + d@ + "\n  \"\"\"\n"@,
        None => Seq::<char>::empty(),
    }
}

/// The rendered arguments joined by `, ` in insertion order.
pub open spec fn arguments_body_text(args: Seq<FieldArgument>) -> Seq<char>
    decreases args.len(),
{
    if args.len() == 0 {
        Seq::<char>::empty()
    } else if args.len() == 1 {
        args[0].text()
    } else {
        arguments_body_text(args.drop_last()) + ", "@ + args.last().text()
    }
}

/// The parenthesized argument list of a field: nothing for an empty list,
/// else the joined arguments between parentheses.
pub open spec fn arguments_text(args: Seq<FieldArgument>) -> Seq<char> {
    if args.len() == 0 {
        Seq::<char>::empty()
    } else {
        "("@ + arguments_body_text(args) + ")"@
    }
}

/// Whether some argument in `args` is named `name`.
pub open spec fn has_argument_named(args: Seq<FieldArgument>, name: Seq<char>) -> bool {
    exists|j: int| 0 <= j < args.len() && #[trigger] args[j].name@ == name
}

/// Field in a given SDL type.
#[derive(Debug, PartialEq)]
pub struct Field {
    pub description: Option<String>,
    pub name: String,
    pub type_: FieldType,
    pub deprecated: bool,
    pub deprecation_reason: Option<String>,
    pub arguments: Vec<FieldArgument>,
}

impl Field {
    /// The exact block this field contributes to an SDL type body: the
    /// description block when there is one, then the two-space indent, the
    /// name, the parenthesized argument list when non-empty, `: `, the type,
    /// and the deprecation suffix. No trailing newline.
    pub open spec fn text(self) -> Seq<char> {
        description_text(self.description) + "  "@ + self.name@ + arguments_text(self.arguments@)
            + ": "@ + self.type_.text() + deprecation_text(self.deprecated, self.deprecation_reason)
    }

    /// Well-formedness of what the field's constructors enforce: the name
    /// is a valid SDL name and no two arguments share a name. The types
    /// inside carry their own invariant, `FieldType::wf`.
    pub open spec fn wf(self) -> bool {
        &&& is_sdl_name(self.name@)
        &&& forall|i: int, j: int|
            #![trigger self.arguments@[i].name@, self.arguments@[j].name@]
            0 <= i < j < self.arguments@.len() ==> self.arguments@[i].name@
                != self.arguments@[j].name@
    }

    /// Creates a field of the given name and type, with no description, no
    /// deprecation and no arguments. Returns `InvalidFieldDefinition`
    /// exactly when `name` is not a valid SDL name.
    pub fn new(name: String, type_: FieldType) -> (r: Result<Field, SdlError>)
        ensures
            r matches Ok(f) ==> {
                &&& is_sdl_name(name@)
                &&& f.name == name
                &&& f.type_ == type_
                &&& f.description is None
                &&& !f.deprecated
                &&& f.deprecation_reason is None
                &&& f.arguments@ == Seq::<FieldArgument>::empty()
                &&& f.wf()
            },
            r matches Err(e) ==> !is_sdl_name(name@) && e == SdlError::InvalidFieldDefinition,
    {
        if is_valid_name(name.as_str()) {
            Ok(
                Field {
                    description: None,
                    name,
                    type_,
                    deprecated: false,
                    deprecation_reason: None,
                    arguments: Vec::new(),
                },
            )
        } else {
            Err(SdlError::InvalidFieldDefinition)
        }
    }

    /// Sets the field's description.
    pub fn description(&mut self, description: Option<String>)
        ensures
            final(self).description == description,
            final(self).name == old(self).name,
            final(self).type_ == old(self).type_,
            final(self).deprecated == old(self).deprecated,
            final(self).deprecation_reason == old(self).deprecation_reason,
            final(self).arguments == old(self).arguments,
            old(self).wf() ==> final(self).wf(),
    {
        self.description = description;
    }

    /// Sets the field's deprecation properties: the field becomes
    /// deprecated, with the given optional reason.
    pub fn deprecated(&mut self, reason: Option<String>)
        ensures
            final(self).deprecated,
            final(self).deprecation_reason == reason,
            final(self).name == old(self).name,
            final(self).type_ == old(self).type_,
            final(self).description == old(self).description,
            final(self).arguments == old(self).arguments,
            old(self).wf() ==> final(self).wf(),
    {
        self.deprecated = true;
        self.deprecation_reason = reason;
    }

    /// Appends an argument to the field's argument list, keeping insertion
    /// order. Returns `InvalidFieldDefinition`, and leaves the field
    /// unchanged, exactly when an argument of the same name is already
    /// present: SDL forbids repeated argument names on one field.
    pub fn arg(&mut self, argument: FieldArgument) -> (r: Result<(), SdlError>)
        ensures
            !has_argument_named(old(self).arguments@, argument.name@) ==> {
                &&& r is Ok
                &&& final(self).arguments@ == old(self).arguments@.push(argument)
                &&& final(self).name == old(self).name
                &&& final(self).type_ == old(self).type_
                &&& final(self).description == old(self).description
                &&& final(self).deprecated == old(self).deprecated
                &&& final(self).deprecation_reason == old(self).deprecation_reason
            },
            has_argument_named(old(self).arguments@, argument.name@) ==> {
                &&& r == Err::<(), SdlError>(SdlError::InvalidFieldDefinition)
                &&& *final(self) == *old(self)
            },
            old(self).wf() ==> final(self).wf(),
    {
        let n = self.arguments.len();
        let mut i: usize = 0;
        while i < n
            invariant
                n == self.arguments.len(),
                i <= n,
                forall|j: int| 0 <= j < i ==> #[trigger] self.arguments@[j].name@ != argument.name@,
            decreases n - i,
        {
            if self.arguments[i].name == argument.name {
                return Err(SdlError::InvalidFieldDefinition);
            }
            i += 1;
        }
        self.arguments.push(argument);
        Ok(())
    }

    /// Renders the full field block, description first, field line last.
    pub fn render(&self) -> (r: String)
        ensures
            r@ == self.text(),
    {
        let mut out = String::new();
        if let Some(d) = &self.description {
            out.append("  \"\"\"\n  ");
            out.append(d.as_str());
            out.append("\n  \"\"\"\n");
        }
        proof {
            assert(out@ =~= description_text(self.description));
        }
        out.append("  ");
        out.append(self.name.as_str());
        let ghost before_args = out@;
        let n = self.arguments.len();
        if n > 0 {
            out.append("(");
            let mut i: usize = 0;
            while i < n
                invariant
                    n == self.arguments.len(),
                    i <= n,
                    out@ == before_args + "("@ + arguments_body_text(self.arguments@.take(i as int)),
                decreases n - i,
            {
                if i > 0 {
                    out.append(", ");
                }
                let rendered = self.arguments[i].render();
                out.append(rendered.as_str());
                proof {
                    let args = self.arguments@;
                    let k = i as int;
                    assert(args.take(k + 1).drop_last() =~= args.take(k));
                    assert(args.take(k + 1).last() == args[k]);
                    assert(out@ =~= before_args + "("@ + arguments_body_text(args.take(k + 1)));
                }
                i += 1;
            }
            out.append(")");
            proof {
                assert(self.arguments@.take(n as int) =~= self.arguments@);
                assert(out@ =~= before_args + arguments_text(self.arguments@));
            }
        } else {
            proof {
                assert(out@ =~= before_args + arguments_text(self.arguments@));
            }
        }
        out.append(": ");
        let t = self.type_.render();
        out.append(t.as_str());
        proof {
            assert(out@ =~= description_text(self.description) + "  "@ + self.name@
                + arguments_text(self.arguments@) + ": "@ + self.type_.text());
        }
        push_deprecation(&mut out, self.deprecated, &self.deprecation_reason);
        out
    }
}

/// A field with no description, no arguments and no deprecation renders as
/// exactly `  name: type`, with no trailing characters.
pub proof fn lemma_plain_field_text(f: Field)
    requires
        f.description is None,
        f.arguments@.len() == 0,
        !f.deprecated,
    ensures
        f.text() == "  "@ + f.name@ + ": "@ + f.type_.text(),
{
    assert(f.text() =~= "  "@ + f.name@ + ": "@ + f.type_.text());
}

/// Deprecation with a reason is a pure suffix: the field renders as the
/// same field without its deprecation, followed by exactly
/// ` @deprecated(reason: "…")`.
pub proof fn lemma_deprecated_with_reason_suffix(f: Field, r: String)
    requires
        f.deprecated,
        f.deprecation_reason == Some(r),
    ensures
        f.text() == (Field { deprecated: false, deprecation_reason: None, ..f }).text()
            + (" @deprecated(reason: \""@ + r@ + "\")"@),
{
    assert(f.text() =~= (Field { deprecated: false, deprecation_reason: None, ..f }).text() + (
    " @deprecated(reason: \""@ + r@ + "\")"@));
}

/// Deprecation without a reason is the bare suffix ` @deprecated`, with no
/// parenthesis.
pub proof fn lemma_deprecated_without_reason_suffix(f: Field)
    requires
        f.deprecated,
        f.deprecation_reason is None,
    ensures
        f.text() == (Field { deprecated: false, ..f }).text() + " @deprecated"@,
{
    assert(f.text() =~= (Field { deprecated: false, ..f }).text() + " @deprecated"@);
}

/// A description is a pure prefix: the three-line `"""`-delimited block,
/// two-space indented, then the single separating newline (already the last
/// character of the block), then the very field line the field would render
/// as without its description — no blank line in between.
pub proof fn lemma_description_block_prefix(f: Field, d: String)
    requires
        f.description == Some(d),
    ensures
        f.text() == "  \"\"\"\n  "@ + d@ + "\n  \"\"\"\n"@ + (Field {
            description: None,
            ..f
        }).text(),
{
    assert(f.text() =~= "  \"\"\"\n  "@ + d@ + "\n  \"\"\"\n"@ + (Field {
        description: None,
        ..f
    }).text());
}

/// Rendering is referentially transparent: the text is a function of the
/// field value alone, so rendering the same field twice yields
/// byte-identical strings.
pub proof fn lemma_render_deterministic(a: Field, b: Field)
    requires
        a == b,
    ensures
        a.text() == b.text(),
{
}

} // verus!
