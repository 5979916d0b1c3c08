//! Changing the case of identifiers.
//!
//! The two conversions are done by the `ident_case` crate. What they return is
//! not proved here: it is named, and every name that the schema compiler
//! derives is stated over these two names.

use vstd::prelude::*;

verus! {

/// What `ident_case` makes of a `PascalCase` identifier under its snake-case
/// rule: the characters of the result, for the characters of the identifier.
pub uninterp spec fn snake_case_of(ident: Seq<char>) -> Seq<char>;

/// What `ident_case` makes of a `snake_case` identifier under its pascal-case
/// rule: the characters of the result, for the characters of the identifier.
pub uninterp spec fn pascal_case_of(ident: Seq<char>) -> Seq<char>;

/// Calls `ident_case::RenameRule::SnakeCase.apply_to_variant`. The contract
/// claims only that the result depends on nothing but the characters handed
/// in; the crate computes it from them, character by character, and does not
/// panic on any string.
#[verifier::external_body]
pub(crate) fn snake_case(ident: &str) -> (out: String)
    ensures
        out@ == snake_case_of(ident@),
{
    ident_case::RenameRule::SnakeCase.apply_to_variant(ident)
}

/// Calls `ident_case::RenameRule::PascalCase.apply_to_field`. The contract
/// claims only that the result depends on nothing but the characters handed
/// in; the crate computes it from them, character by character, and does not
/// panic on any string.
#[verifier::external_body]
pub(crate) fn pascal_case(ident: &str) -> (out: String)
    ensures
        out@ == pascal_case_of(ident@),
{
    ident_case::RenameRule::PascalCase.apply_to_field(ident)
}

/// The pascal-case form of every identifier of `idents`, in the same order.
pub fn pascal_case_all(idents: &Vec<String>) -> (out: Vec<String>)
    ensures
        crate::text::str_views(out@) == crate::text::str_views(idents@).map_values(
            |s: Seq<char>| pascal_case_of(s),
        ),
{
    let mut out: Vec<String> = Vec::new();
    let mut i: usize = 0;
    while i < idents.len()
        invariant
            i <= idents.len(),
            out.len() == i,
            forall|j: int| 0 <= j < i ==> out@[j]@ == pascal_case_of(idents@[j]@),
        decreases idents.len() - i,
    {
        let p = pascal_case(idents[i].as_str());
        out.push(p);
        i += 1;
    }
    proof {
        assert(crate::text::str_views(out@) =~= crate::text::str_views(idents@).map_values(
            |s: Seq<char>| pascal_case_of(s),
        ));
    }
    out
}

} // verus!
