//! Case folding of category names.

use vstd::prelude::*;

verus! {

/// The lower-case form of a text, as `str::to_lowercase` computes it from the
/// Unicode tables.
pub uninterp spec fn lowercase(text: Seq<char>) -> Seq<char>;

/// A category is normalized when it is the lower-case form of some text.
pub open spec fn is_normalized(category: Seq<char>) -> bool {
    exists|text: Seq<char>| category == lowercase(text)
}

/// `str::to_lowercase`: the result is the lower-case form of `text` and
/// depends on nothing else.
#[verifier::external_body]
pub(crate) fn to_lowercase(text: &str) -> (lower: String)
    ensures
        lower@ == lowercase(text@),
{
    text.to_lowercase()
}

} // verus!
