//! Editing the text that the labels show.
//!
//! The text grows by the characters that the keyboard sends. Backspace
//! takes the last character away, and the delete control character is
//! passed over.

use vstd::prelude::*;

verus! {

/// The backspace control character.
pub const BACKSPACE: char = '\u{8}';

/// The delete control character.
pub const DELETE: char = '\u{7f}';

/// The text after the keyboard sent `typed`.
pub open spec fn text_after(text: Seq<char>, typed: char) -> Seq<char> {
    if typed == BACKSPACE {
        if text.len() > 0 {
            text.drop_last()
        } else {
            text
        }
    } else if typed == DELETE {
        text
    } else {
        text.push(typed)
    }
}

/// The text after the keyboard sent the characters of `typed`, the first
/// first.
pub open spec fn text_after_all(text: Seq<char>, typed: Seq<char>) -> Seq<char>
    decreases typed.len(),
{
    if typed.len() == 0 {
        text
    } else {
        text_after(text_after_all(text, typed.drop_last()), typed.last())
    }
}

/// Appends a character with `String::push`.
#[verifier::external_body]
fn push_char(text: &mut String, typed: char)
    ensures
        final(text)@ == old(text)@.push(typed),
{
    text.push(typed);
}

/// Takes the last character away with `String::pop`, which leaves an empty
/// string as it is.
#[verifier::external_body]
fn pop_char(text: &mut String)
    ensures
        final(text)@ == if old(text)@.len() > 0 {
            old(text)@.drop_last()
        } else {
            old(text)@
        },
{
    text.pop();
}

/// Changes the text by one character that the keyboard sent.
pub fn type_char(text: &mut String, typed: char)
    ensures
        final(text)@ == text_after(old(text)@, typed),
{
    if typed == BACKSPACE {
        pop_char(text);
    } else if typed != DELETE {
        push_char(text, typed);
    }
}

/// Changes the text by the characters that the keyboard sent, the first
/// first.
pub fn type_all(text: &mut String, typed: &Vec<char>)
    ensures
        final(text)@ == text_after_all(old(text)@, typed@),
{
    let mut i: usize = 0;
    while i < typed.len()
        invariant
            i <= typed@.len(),
            text@ == text_after_all(old(text)@, typed@.take(i as int)),
        decreases typed@.len() - i,
    {
        proof {
            let upto = typed@.take(i as int + 1);
            assert(upto.drop_last() == typed@.take(i as int));
        }
        type_char(text, typed[i]);
        i = i + 1;
    }
    proof {
        assert(typed@.take(i as int) == typed@);
    }
}

/// Backspace undoes a character that was typed.
pub proof fn lemma_backspace_undoes(text: Seq<char>, typed: char)
    requires
        typed != BACKSPACE,
        typed != DELETE,
    ensures
        text_after(text_after(text, typed), BACKSPACE) == text,
{
}

/// The text never grows by more than one character at a time, and an empty
/// text stays empty under backspace.
pub proof fn lemma_text_length(text: Seq<char>, typed: char)
    ensures
        text_after(text, typed).len() <= text.len() + 1,
        text_after(text, typed).len() + 1 >= text.len(),
        text.len() == 0 ==> text_after(text, BACKSPACE) == text,
{
}

} // verus!
