use vstd::prelude::*;

verus! {

/// The upper-case form of a text, as `str::to_uppercase` of the standard
/// library gives it: each character replaced by its upper-case mapping in
/// Unicode, which may be more than one character. The library takes this
/// form from the standard library and does not define it.
pub uninterp spec fn uppercase(text: Seq<char>) -> Seq<char>;

/// Calls `str::to_uppercase`. Taken on trust, not proved: the result is the
/// upper-case form of `text`, which depends on the text alone.
#[verifier::external_body]
pub(crate) fn to_uppercase(text: &String) -> (upper: String)
    ensures
        upper@ == uppercase(text@),
{
    text.to_uppercase()
}

} // verus!
