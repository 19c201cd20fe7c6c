//! The crate's trusted boundary: thin wrappers around functions of outside
//! code whose contracts Verus believes without reading their bodies.

use vstd::prelude::*;

verus! {

/// The canonical word-boundary (class-case) form of a name: what
/// `inflector`'s class-case conversion returns for it.  The result is a
/// function of the characters alone.
pub uninterp spec fn class_case_of(s: Seq<char>) -> Seq<char>;

/// Relies on inflector's `to_class_case`: the canonical word-boundary
/// casing of a name, computed from the characters alone.
#[verifier::external_body]
pub(crate) fn class_case(s: &str) -> (r: String)
    ensures
        r@ == class_case_of(s@),
{
    inflector::cases::classcase::to_class_case(s)
}

/// Relies on `String::from` for `char`: a string holding exactly the one
/// character.
#[verifier::external_body]
pub(crate) fn char_to_string(c: char) -> (r: String)
    ensures
        r@ =~= seq![c],
{
    String::from(c)
}

} // verus!
