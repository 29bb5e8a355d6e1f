//! Texts as sequences of characters.

use vstd::prelude::*;
use vstd::string::StrSliceExecFns;

verus! {

/// The characters of `text`, in their order.
pub fn chars_of(text: &str) -> (chars: Vec<char>)
    ensures
        chars@ == text@,
{
    let length = text.unicode_len();
    let mut chars: Vec<char> = Vec::new();
    let mut next: usize = 0;
    while next < length
        invariant
            next <= length,
            length == text@.len(),
            chars@ == text@.subrange(0, next as int),
        decreases length - next,
    {
        chars.push(text.get_char(next));
        assert(chars@ =~= text@.subrange(0, next + 1));
        next += 1;
    }
    assert(text@.subrange(0, length as int) =~= text@);
    chars
}

/// `String::from_iter` over the characters of a vector: the text that is made
/// of exactly these characters, in their order.
#[verifier::external_body]
pub(crate) fn text_of(chars: &Vec<char>) -> (text: String)
    ensures
        text@ == chars@,
{
    String::from_iter(chars.iter())
}

} // verus!
