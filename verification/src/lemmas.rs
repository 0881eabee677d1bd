//! What holds of escaped text, whatever the input.

use crate::escaper::{entity_of, escaped, is_plain, is_reserved};
use vstd::prelude::*;

verus! {

/// The shape of one character's image: a reserved character becomes four to
/// six characters that start with `&`, any other stays a single character;
/// and no image holds a reserved character other than `&`.
pub proof fn lemma_entity_of(c: char)
    ensures
        is_reserved(c) ==> 4 <= entity_of(c).len() <= 6 && entity_of(c)[0] == '&',
        !is_reserved(c) ==> entity_of(c) == seq![c],
        forall|i: int|
            #![trigger entity_of(c)[i]]
            0 <= i < entity_of(c).len() ==> entity_of(c)[i] == '&' || !is_reserved(
                entity_of(c)[i],
            ),
{
    reveal_strlit("&amp;");
    reveal_strlit("&lt;");
    reveal_strlit("&gt;");
    reveal_strlit("&quot;");
    reveal_strlit("&#x27;");
    reveal_strlit("&#x2F;");
    reveal_strlit("&#96;");
}

/// A text is plain exactly when its last character and all before it are.
proof fn lemma_plain_drop_last(s: Seq<char>)
    requires
        s.len() > 0,
    ensures
        is_plain(s) <==> is_plain(s.drop_last()) && !is_reserved(s.last()),
{
    if is_plain(s) {
        assert forall|i: int| 0 <= i < s.drop_last().len() implies !is_reserved(
            #[trigger] s.drop_last()[i],
        ) by {
            assert(s.drop_last()[i] == s[i]);
        }
    } else {
        let i = choose|i: int| 0 <= i < s.len() && is_reserved(#[trigger] s[i]);
        if i < s.len() - 1 {
            assert(s.drop_last()[i] == s[i]);
        }
    }
}

/// Escaping never shortens a text, and lengthens it exactly when the text
/// holds a reserved character.
pub proof fn lemma_escaped_len(s: Seq<char>)
    ensures
        escaped(s).len() >= s.len(),
        escaped(s).len() == s.len() <==> is_plain(s),
    decreases s.len(),
{
    if s.len() > 0 {
        lemma_escaped_len(s.drop_last());
        lemma_entity_of(s.last());
        lemma_plain_drop_last(s);
    }
}

/// A text without reserved characters is its own escaped form.
pub proof fn lemma_escaped_plain(s: Seq<char>)
    requires
        is_plain(s),
    ensures
        escaped(s) == s,
    decreases s.len(),
{
    if s.len() > 0 {
        lemma_plain_drop_last(s);
        lemma_escaped_plain(s.drop_last());
        lemma_entity_of(s.last());
        assert(s.drop_last().push(s.last()) == s);
    }
}

/// Of the reserved characters only `&` occurs in escaped text: no `<`, no
/// `>`, no quote, no slash, no backtick.
pub proof fn lemma_escaped_inert(s: Seq<char>)
    ensures
        forall|i: int|
            #![trigger escaped(s)[i]]
            0 <= i < escaped(s).len() ==> escaped(s)[i] == '&' || !is_reserved(escaped(s)[i]),
    decreases s.len(),
{
    if s.len() > 0 {
        let front = escaped(s.drop_last());
        let tail = entity_of(s.last());
        lemma_escaped_inert(s.drop_last());
        lemma_entity_of(s.last());
        assert forall|i: int|
            #![trigger escaped(s)[i]]
            0 <= i < escaped(s).len() implies escaped(s)[i] == '&' || !is_reserved(
            escaped(s)[i],
        ) by {
            if i < front.len() {
                assert(escaped(s)[i] == front[i]);
            } else {
                assert(escaped(s)[i] == tail[i - front.len()]);
            }
        }
    }
}

/// Escaped text holds `&` wherever the input held a reserved character, so
/// it is plain only if the input was.
pub proof fn lemma_escaped_keeps_reserved(s: Seq<char>)
    ensures
        is_plain(escaped(s)) <==> is_plain(s),
    decreases s.len(),
{
    if is_plain(s) {
        lemma_escaped_plain(s);
    } else {
        let front = s.drop_last();
        lemma_plain_drop_last(s);
        lemma_entity_of(s.last());
        if is_reserved(s.last()) {
            let at = escaped(front).len() as int;
            assert(escaped(s)[at] == entity_of(s.last())[0]);
        } else {
            lemma_escaped_keeps_reserved(front);
            let j = choose|j: int|
                0 <= j < escaped(front).len() && is_reserved(#[trigger] escaped(front)[j]);
            assert(escaped(s)[j] == escaped(front)[j]);
        }
    }
}

/// Escaping is not idempotent: escaping escaped text changes it again,
/// unless the input held no reserved character at all.
pub proof fn lemma_escaped_twice(s: Seq<char>)
    ensures
        escaped(escaped(s)) == escaped(s) <==> is_plain(s),
{
    lemma_escaped_keeps_reserved(s);
    lemma_escaped_len(escaped(s));
    if is_plain(s) {
        lemma_escaped_plain(escaped(s));
    }
}

} // verus!
