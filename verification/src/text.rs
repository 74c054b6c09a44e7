//! Input buffers: text that grows and shrinks one character at a time and is
//! taken whole when it is submitted.

use vstd::prelude::*;

verus! {

/// `String::push` appends the character to the end of the text.
pub assume_specification[ String::push ](text: &mut String, ch: char)
    ensures
        final(text)@ == old(text)@.push(ch),
;

/// `String::pop` removes the last character and returns it; of an empty text
/// it returns `None` and changes nothing.
pub assume_specification[ String::pop ](text: &mut String) -> (last: Option<char>)
    ensures
        old(text)@.len() == 0 ==> last.is_none() && final(text)@ == old(text)@,
        old(text)@.len() > 0 ==> last == Some(old(text)@.last()) && final(text)@ == old(
            text,
        )@.drop_last(),
;

/// What is left of a text after its last character is removed, if it has
/// one.
pub open spec fn without_last(text: Seq<char>) -> Seq<char> {
    if text.len() == 0 {
        text
    } else {
        text.drop_last()
    }
}

/// Hands out the whole buffer and leaves it empty.
pub fn take_text(buffer: &mut String) -> (taken: String)
    ensures
        taken@ == old(buffer)@,
        final(buffer)@ == Seq::<char>::empty(),
{
    let mut taken = String::new();
    core::mem::swap(buffer, &mut taken);
    taken
}

/// Removes the last character of the buffer, if it has one.
pub fn erase_last(buffer: &mut String)
    ensures
        final(buffer)@ == without_last(old(buffer)@),
{
    let _ = buffer.pop();
}

} // verus!
