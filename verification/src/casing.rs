//! Name casing for the rendering collaborator: module names become
//! Pascal-case file and interface names, and template filters expose both
//! Pascal-case and camel-case forms.

use convert_case::{Case, Casing};
use vstd::prelude::*;

verus! {

/// The Pascal-case form of a string.
pub uninterp spec fn pascal_of(s: Seq<char>) -> Seq<char>;

/// The camel-case form of a string.
pub uninterp spec fn camel_of(s: Seq<char>) -> Seq<char>;

/// Relies on convert_case's `Casing::to_case` with `Case::Pascal`: the
/// result is a function of the input characters alone.
#[verifier::external_body]
pub(crate) fn to_pascal_case(s: &str) -> (r: String)
    ensures
        r@ == pascal_of(s@),
{
    s.to_case(Case::Pascal)
}

/// Relies on convert_case's `Casing::to_case` with `Case::Camel`: the
/// result is a function of the input characters alone.
#[verifier::external_body]
pub(crate) fn to_camel_case(s: &str) -> (r: String)
    ensures
        r@ == camel_of(s@),
{
    s.to_case(Case::Camel)
}

/// A renderer filter that converts a string value to PascalCase.
pub struct PascalCaseFilter;

impl PascalCaseFilter {
    /// The filtered value: the input in PascalCase.
    pub fn filter(&self, value: &String) -> (r: String)
        ensures
            r@ == pascal_of(value@),
    {
        to_pascal_case(value.as_str())
    }
}

/// A renderer filter that converts a string value to camelCase.
pub struct CamelCaseFilter;

impl CamelCaseFilter {
    /// The filtered value: the input in camelCase.
    pub fn filter(&self, value: &String) -> (r: String)
        ensures
            r@ == camel_of(value@),
    {
        to_camel_case(value.as_str())
    }
}

} // verus!
