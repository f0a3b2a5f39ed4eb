//! Specifications for the few functions of the standard library that this
//! crate calls and that `vstd` does not specify. Nothing here is proved:
//! each contract restates the documentation of the function it names.

use vstd::prelude::*;

verus! {

/// What `char::is_alphabetic` answers for `c`: whether `c` has the Unicode
/// property `Alphabetic`. The property is a table of the Unicode standard,
/// so it is named here rather than written out.
pub uninterp spec fn alphabetic(c: char) -> bool;

/// `char::is_alphabetic` depends on its argument alone; its answer is the
/// one that [`alphabetic`] names.
pub assume_specification[ char::is_alphabetic ](c: char) -> (b: bool)
    ensures
        b == alphabetic(c),
;

/// `String::push` appends the one character `ch` to the end of the string
/// and leaves the characters before it as they were.
pub assume_specification[ String::push ](s: &mut String, ch: char)
    ensures
        final(s)@ == old(s)@.push(ch),
;

} // verus!
