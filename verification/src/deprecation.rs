//! The `@deprecated` directive suffix shared by fields and arguments. The
//! reason string is interpolated into the quoted directive argument exactly
//! as given: supplying SDL-safe text is the caller's responsibility.

use vstd::prelude::*;

verus! {

/// The text appended to a rendered field or argument for its deprecation
/// state: nothing while `deprecated` is false (a reason set without the flag
/// is ignored, never promoted), ` @deprecated` alone without a reason, and
/// ` @deprecated(reason: "…")` with one.
pub open spec fn deprecation_text(deprecated: bool, reason: Option<String>) -> Seq<char> {
    if deprecated {
        match reason {
            Some(r) => " @deprecated(reason: \""@ + r@ + "\")"@,
            None => " @deprecated"@,
        }
    } else {
        Seq::<char>::empty()
    }
}

/// Appends the deprecation suffix for this state to `out`.
pub fn push_deprecation(out: &mut String, deprecated: bool, reason: &Option<String>)
    ensures
        final(out)@ == old(out)@ + deprecation_text(deprecated, *reason),
{
    if deprecated {
        match reason {
            Some(r) => {
                out.append(" @deprecated(reason: \"");
                out.append(r.as_str());
                out.append("\")");
                proof {
                    assert(out@ =~= old(out)@ + deprecation_text(deprecated, *reason));
                }
            },
            None => {
                out.append(" @deprecated");
            },
        }
    } else {
        proof {
            assert(out@ =~= old(out)@ + deprecation_text(deprecated, *reason));
        }
    }
}

} // verus!
