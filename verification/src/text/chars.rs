//! Texts as rows of characters: taking a text apart and putting one
//! together.

use vstd::prelude::*;

verus! {

/// `String::push` appends one character to the string.
pub assume_specification[ std::string::String::push ](text: &mut std::string::String, c: char)
    ensures
        final(text)@ == old(text)@.push(c),
;

/// The characters of a text, in order.
pub(crate) fn to_chars(input: &str) -> (chars: Vec<char>)
    ensures
        chars@ == input@,
{
    let mut chars: Vec<char> = Vec::new();
    for c in walk: input.chars()
        invariant
            chars@ == walk.seq().take(walk.index()),
            walk.seq() == input@,
            walk.index() == walk.seq().len() ==> chars@ == input@,
    {
        chars.push(c);
        assert(walk.seq().take(walk.seq().len() as int) =~= walk.seq());
    }
    chars
}

/// Appends the characters of `more` to `text`.
pub(crate) fn push_all(text: &mut String, more: &str)
    ensures
        final(text)@ == old(text)@ + more@,
{
    let ghost before = text@;
    for c in walk: more.chars()
        invariant
            walk.seq() == more@,
            text@ == before + walk.seq().take(walk.index()),
            walk.index() == walk.seq().len() ==> text@ == before + more@,
    {
        text.push(c);
        assert(text@ =~= before + walk.seq().take(walk.index() + 1));
        assert(walk.seq().take(walk.seq().len() as int) =~= walk.seq());
    }
}

} // verus!
