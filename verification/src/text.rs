//! Characters and strings: what the scanner and the checker need from the standard library.

use vstd::prelude::*;

verus! {

/// Whether `character` is numeric in the sense of Unicode (general categories Nd, Nl, No).
pub uninterp spec fn numeric(character: char) -> bool;

/// Whether `character` has Unicode's `Alphabetic` property.
pub uninterp spec fn alphabetic(character: char) -> bool;

/// `char::is_numeric`: the answer depends on the character alone, and is what Unicode's
/// tables say of it. Those tables are not restated here; the answer goes by the name
/// `numeric`.
#[verifier::external_body]
pub(crate) fn is_numeric(character: char) -> (answer: bool)
    ensures
        answer == numeric(character),
{
    character.is_numeric()
}

/// `char::is_alphabetic`: the answer depends on the character alone, and is what Unicode's
/// tables say of it. Those tables are not restated here; the answer goes by the name
/// `alphabetic`.
#[verifier::external_body]
pub(crate) fn is_alphabetic(character: char) -> (answer: bool)
    ensures
        answer == alphabetic(character),
{
    character.is_alphabetic()
}

/// `str == str`: two string slices are equal exactly when they hold the same characters in
/// the same order.
#[verifier::external_body]
pub(crate) fn text_eq(left: &str, right: &str) -> (equal: bool)
    ensures
        equal == (left@ == right@),
{
    left == right
}

/// `String::from_iter` over characters: the string holds exactly the characters that it
/// was collected from, in their order.
#[verifier::external_body]
pub(crate) fn string_from(characters: Vec<char>) -> (text: String)
    ensures
        text@ == characters@,
{
    characters.into_iter().collect()
}

/// The characters of `text`, in order.
pub fn chars_of(text: &str) -> (characters: Vec<char>)
    ensures
        characters@ == text@,
{
    let mut characters: Vec<char> = Vec::new();
    for character in walk: text.chars()
        invariant
            walk.seq() == text@,
            characters@ == walk.seq().take(walk.index()),
    {
        characters.push(character);
    }
    characters
}

/// The value of a decimal digit, for the ten characters `0` to `9` and no others.
pub open spec fn digit_value(character: char) -> Option<u32> {
    if '0' <= character && character <= '9' {
        Some((character as u32 - '0' as u32) as u32)
    } else {
        None
    }
}

/// The value of `character` as a decimal digit, if it is one.
pub fn decimal_digit(character: char) -> (value: Option<u32>)
    ensures
        value == digit_value(character),
        value matches Some(digit) ==> digit <= 9,
{
    if character >= '0' && character <= '9' {
        Some(character as u32 - '0' as u32)
    } else {
        None
    }
}

} // verus!
