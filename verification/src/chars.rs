//! Character classes, and what else the crate takes from the standard
//! library on trust.
//!
//! The scanner sorts characters with the Unicode predicates of the standard
//! library. Their tables are far too large to restate, so each predicate gets
//! a name here and the contracts of the crate speak of these names.

use vstd::prelude::*;

verus! {

/// Whether `c` has the Unicode property `White_Space`.
pub uninterp spec fn white_space(c: char) -> bool;

/// Whether `c` has the Unicode property `Alphabetic`.
pub uninterp spec fn alphabetic(c: char) -> bool;

/// Whether `c` belongs to one of the Unicode general categories for numbers
/// (`Nd`, `Nl`, `No`).
pub uninterp spec fn numeric(c: char) -> bool;

/// `char::is_whitespace` of the standard library: its answer is a function of
/// the character alone, named [`white_space`]. Not proved.
pub assume_specification[ char::is_whitespace ](c: char) -> (b: bool)
    ensures
        b == white_space(c),
;

/// `char::is_alphabetic` of the standard library: its answer is a function of
/// the character alone, named [`alphabetic`]. Not proved.
pub assume_specification[ char::is_alphabetic ](c: char) -> (b: bool)
    ensures
        b == alphabetic(c),
;

/// `char::is_numeric` of the standard library: its answer is a function of
/// the character alone, named [`numeric`]. Not proved.
pub assume_specification[ char::is_numeric ](c: char) -> (b: bool)
    ensures
        b == numeric(c),
;

/// `char::is_alphanumeric` of the standard library, which is documented to
/// hold exactly when `is_alphabetic` or `is_numeric` does. Not proved.
pub assume_specification[ char::is_alphanumeric ](c: char) -> (b: bool)
    ensures
        b == (alphabetic(c) || numeric(c)),
;

/// `String::push` of the standard library appends one character to the end
/// of the string. Not proved.
pub assume_specification[ String::push ](s: &mut String, c: char)
    ensures
        final(s)@ == old(s)@.push(c),
;

/// Whether `c` may continue an identifier: a letter, a number or `_`.
pub open spec fn word_char(c: char) -> bool {
    alphabetic(c) || numeric(c) || c == '_'
}

} // verus!
