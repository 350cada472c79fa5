//! Building strings, where vstd says nothing of the std function needed.

use vstd::prelude::*;

verus! {

/// Calls `String::push` of std. The contract claims what its documentation
/// says: the character is appended to the end of the string.
#[verifier::external_body]
pub(crate) fn push_char(text: &mut String, c: char)
    ensures
        final(text)@ == old(text)@.push(c),
{
    text.push(c);
}

} // verus!
