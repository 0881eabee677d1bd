//! The escaper: a pure map from text to its HTML-escaped form.

use crate::lemmas::{lemma_escaped_inert, lemma_escaped_plain};
use vstd::prelude::*;
use vstd::string::StringExecFns;

verus! {

/// The characters that are replaced by an entity.
pub open spec fn is_reserved(c: char) -> bool {
    c == '&' || c == '<' || c == '>' || c == '"' || c == '\'' || c == '/' || c == '`'
}

/// No character of the text is reserved.
pub open spec fn is_plain(s: Seq<char>) -> bool {
    forall|i: int| 0 <= i < s.len() ==> !is_reserved(#[trigger] s[i])
}

/// What one character of the input becomes in the output: its entity for a
/// reserved character, the character itself for any other.
pub open spec fn entity_of(c: char) -> Seq<char> {
    if c == '&' {
        "&amp;"@
    } else if c == '<' {
        "&lt;"@
    } else if c == '>' {
        "&gt;"@
    } else if c == '"' {
        "&quot;"@
    } else if c == '\'' {
        "&#x27;"@
    } else if c == '/' {
        "&#x2F;"@
    } else if c == '`' {
        "&#96;"@
    } else {
        seq![c]
    }
}

/// The escaped form of a text: the images of its characters, in order.
pub open spec fn escaped(s: Seq<char>) -> Seq<char>
    decreases s.len(),
{
    if s.len() == 0 {
        Seq::empty()
    } else {
        escaped(s.drop_last()) + entity_of(s.last())
    }
}

/// An empty output buffer with room for twice `len` bytes, which spares
/// most texts a reallocation. An input too long for that to be asked of the
/// allocator starts from a buffer without reserved room.
fn buffer_for(len: usize) -> (buffer: String)
    ensures
        buffer@ == Seq::<char>::empty(),
{
    if len <= usize::MAX / 4 {
        String::with_capacity(len * 2)
    } else {
        String::new()
    }
}

/// Escapes `input` for inclusion in HTML: each reserved character is
/// replaced by its entity, every other character is kept.
pub fn escape(input: String) -> (output: String)
    ensures
        output@ == escaped(input@),
        is_plain(input@) ==> output@ == input@,
        forall|i: int|
            #![trigger output@[i]]
            0 <= i < output@.len() ==> output@[i] != '<' && output@[i] != '>',
{
    let mut output = buffer_for(input.as_str().len());
    for c in it: input.as_str().chars()
        invariant
            it.seq() == input@,
            output@ == escaped(input@.take(it.index())),
    {
        proof {
            let done = input@.take(it.index());
            let next = input@.take(it.index() + 1);
            assert(next.drop_last() == done);
            assert(next.last() == c);
        }
        match c {
            '&' => output.append("&amp;"),
            '<' => output.append("&lt;"),
            '>' => output.append("&gt;"),
            '"' => output.append("&quot;"),
            '\'' => output.append("&#x27;"),
            '/' => output.append("&#x2F;"),
            '`' => output.append("&#96;"),
            _ => output.push(c),
        }
    }
    proof {
        assert(input@.take(input@.len() as int) == input@);
        if is_plain(input@) {
            lemma_escaped_plain(input@);
        }
        lemma_escaped_inert(input@);
    }
    output
}

} // verus!
