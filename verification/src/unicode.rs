//! Character classes and case mappings, which std takes from the Unicode tables.

use crate::text::WString;
use vstd::prelude::*;

verus! {

/// The Unicode `White_Space` property.
pub uninterp spec fn whitespace(c: char) -> bool;

/// The Unicode properties `Alphabetic` and `Numeric`, either of them.
pub uninterp spec fn alphanumeric(c: char) -> bool;

/// The Unicode `Lowercase` property.
pub uninterp spec fn lowercase(c: char) -> bool;

/// The Unicode `Uppercase` property.
pub uninterp spec fn uppercase(c: char) -> bool;

/// The lowercase mapping, which may hold more than one character.
pub uninterp spec fn lowercased(c: char) -> Seq<char>;

/// The uppercase mapping, which may hold more than one character.
pub uninterp spec fn uppercased(c: char) -> Seq<char>;

/// `char::is_whitespace` of std: whether the character has the property, by the name
/// [`whitespace`].
pub assume_specification[ char::is_whitespace ](c: char) -> (r: bool)
    ensures
        r == whitespace(c),
;

/// `char::is_alphanumeric` of std: whether the character has one of the properties, by the name
/// [`alphanumeric`].
pub assume_specification[ char::is_alphanumeric ](c: char) -> (r: bool)
    ensures
        r == alphanumeric(c),
;

/// `char::is_lowercase` of std: whether the character has the property, by the name
/// [`lowercase`].
pub assume_specification[ char::is_lowercase ](c: char) -> (r: bool)
    ensures
        r == lowercase(c),
;

/// `char::is_uppercase` of std: whether the character has the property, by the name
/// [`uppercase`].
pub assume_specification[ char::is_uppercase ](c: char) -> (r: bool)
    ensures
        r == uppercase(c),
;

/// Collects what `char::to_lowercase` of std yields: the mapping named [`lowercased`], which is
/// documented to be one or more characters.
#[verifier::external_body]
pub(crate) fn to_lowercase(c: char) -> (r: WString)
    ensures
        r@ == lowercased(c),
        r@.len() >= 1,
{
    c.to_lowercase().collect()
}

/// Collects what `char::to_uppercase` of std yields: the mapping named [`uppercased`], which is
/// documented to be one or more characters.
#[verifier::external_body]
pub(crate) fn to_uppercase(c: char) -> (r: WString)
    ensures
        r@ == uppercased(c),
        r@.len() >= 1,
{
    c.to_uppercase().collect()
}

} // verus!
