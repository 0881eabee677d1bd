//! Contracts for the two `String` operations of the standard library that
//! the escaper needs and vstd does not specify. Verus takes them on trust.

use vstd::prelude::*;

verus! {

/// `String::with_capacity` returns an empty string, whatever room it sets
/// aside. The standard library panics when asked for more than `isize::MAX`
/// bytes, so a caller has to stay at or below that.
pub assume_specification[ String::with_capacity ](capacity: usize) -> (s: String)
    requires
        capacity <= isize::MAX,
    ensures
        s@ == Seq::<char>::empty(),
;

/// `String::push` appends one character to the end of the string and leaves
/// what was there as it was. As in vstd's contract for `Vec::push`, the
/// allocator's limits are not part of it: a string that would have to grow
/// beyond `isize::MAX` bytes makes the standard library panic.
pub assume_specification[ String::push ](s: &mut String, ch: char)
    ensures
        final(s)@ == old(s)@.push(ch),
;

} // verus!
