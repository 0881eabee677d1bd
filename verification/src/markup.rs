//! A displayable value together with the knowledge of whether it still has
//! to be escaped before it is written out.

use crate::escaper::{escape, escaped};
use std::fmt::Display;
use vstd::prelude::*;
use vstd::std_specs::convert::FromSpecImpl;
use vstd::string::to_string_from_display_ensures;

verus! {

/// A value that is written into markup either as it is (`Safe`) or escaped
/// (`Unsafe`). A freshly wrapped value is `Unsafe`; only `mark_safe` makes
/// it `Safe`, and nothing turns it back.
#[derive(Debug, PartialEq)]
pub enum MarkupDisplay<T> where T: Display {
    Safe(T),
    Unsafe(T),
}

/// `text` is what `value` displays as.
pub open spec fn is_text_of<T: Display>(value: &T, text: String) -> bool {
    to_string_from_display_ensures::<T>(value, text)
}

impl<T> MarkupDisplay<T> where T: Display {
    /// The wrapped value, whatever the state.
    pub open spec fn value(self) -> T {
        match self {
            MarkupDisplay::Safe(t) | MarkupDisplay::Unsafe(t) => t,
        }
    }

    /// The same value in the `Safe` state.
    pub open spec fn marked_safe(self) -> Self {
        MarkupDisplay::Safe(self.value())
    }

    /// What is written out when the wrapped value displays as `text`.
    pub open spec fn rendering(self, text: Seq<char>) -> Seq<char> {
        match self {
            MarkupDisplay::Safe(_) => text,
            MarkupDisplay::Unsafe(_) => escaped(text),
        }
    }

    /// Declares the value safe to write out without escaping.
    pub fn mark_safe(self) -> (marked: MarkupDisplay<T>)
        ensures
            marked == self.marked_safe(),
    {
        match self {
            MarkupDisplay::Unsafe(t) => MarkupDisplay::Safe(t),
            _ => self,
        }
    }

    /// The wrapped value's own text, not escaped, whatever the state.
    pub fn unsafe_string(&self) -> (text: String)
        ensures
            is_text_of(&self.value(), text),
    {
        match self {
            MarkupDisplay::Safe(t) | MarkupDisplay::Unsafe(t) => t.to_string(),
        }
    }

    /// Writes out `text`, the wrapped value's own text, as the state asks:
    /// untouched for `Safe`, escaped for `Unsafe`.
    pub fn render_text(&self, text: String) -> (out: String)
        ensures
            self is Safe ==> out == text,
            out@ == self.rendering(text@),
    {
        match self {
            MarkupDisplay::Safe(_) => text,
            MarkupDisplay::Unsafe(_) => escape(text),
        }
    }

    /// The text that stands for the value in markup: the value's own text
    /// for `Safe`, the escaped form of the value's own text for `Unsafe`.
    pub fn render(&self) -> (out: String)
        ensures
            self is Safe ==> is_text_of(&self.value(), out),
            self is Unsafe ==> exists|text: String|
                is_text_of(&self.value(), text) && out@ == escaped(text@),
    {
        let text = self.unsafe_string();
        self.render_text(text)
    }
}

/// Marking safe twice is marking safe once. Either way the state is `Safe`
/// and the value is the one that was wrapped.
pub proof fn lemma_mark_safe_idempotent<T: Display>(wrapped: MarkupDisplay<T>)
    ensures
        wrapped.marked_safe().marked_safe() == wrapped.marked_safe(),
        wrapped.marked_safe() is Safe,
        wrapped.marked_safe().value() == wrapped.value(),
{
}

impl<T> From<T> for MarkupDisplay<T> where T: Display {
    fn from(t: T) -> (wrapped: MarkupDisplay<T>) {
        MarkupDisplay::Unsafe(t)
    }
}

impl<T> FromSpecImpl<T> for MarkupDisplay<T> where T: Display {
    open spec fn obeys_from_spec() -> bool {
        true
    }

    open spec fn from_spec(t: T) -> Self {
        MarkupDisplay::Unsafe(t)
    }
}

} // verus!
