//! The calls into outside code that the validator relies on, each behind a
//! trusted declaration: Unicode lowercasing, the Unicode white-space test,
//! the reserved runtime-module dataset, and URI-component encoding.

use vstd::prelude::*;
use crate::model::url_safe;

verus! {

/// The Unicode lowercase form that `str::to_lowercase` produces; it is a
/// function of the characters of its argument alone.
pub uninterp spec fn lower_of(s: Seq<char>) -> Seq<char>;

/// Whether `char::is_whitespace` accepts the character, that is, whether the
/// character has the Unicode `White_Space` property.
pub uninterp spec fn is_space_char(c: char) -> bool;

/// Whether the reserved runtime-module dataset of the `builtin_modules` crate
/// holds the string; the dataset is a list fixed at compile time, so
/// membership is a function of the string alone.
pub uninterp spec fn is_builtin_name(s: Seq<char>) -> bool;

/// Relies on `str::to_lowercase`: it returns the Unicode lowercase equivalent
/// of its receiver, named here by `lower_of`.
pub assume_specification[ str::to_lowercase ](s: &str) -> (r: String)
    ensures
        r@ == lower_of(s@),
;

/// Relies on `char::is_whitespace`: it tests the Unicode `White_Space`
/// property, named here by `is_space_char`.
pub assume_specification[ char::is_whitespace ](c: char) -> (r: bool)
    ensures
        r == is_space_char(c),
;

/// Relies on `builtin_modules::is_builtin_module`: membership in the crate's
/// fixed set of runtime module names, named here by `is_builtin_name`.
#[verifier::external_body]
pub(crate) fn lookup_builtin(s: &str) -> (r: bool)
    ensures
        r == is_builtin_name(s@),
{
    builtin_modules::is_builtin_module(s)
}

/// Relies on `uri_encode::encode_uri_component`: every byte of the input that
/// is an unreserved character passes through unchanged, and every other byte
/// becomes a three-character `%xx` escape, so the result equals the input
/// exactly when every character of the input is unreserved.
#[verifier::external_body]
pub(crate) fn encode_component(s: &str) -> (r: String)
    ensures
        (r@ == s@) <==> url_safe(s@),
{
    uri_encode::encode_uri_component(s)
}

} // verus!
