//! Contracts for the pieces of `std`'s string API that the library builds
//! its output with and that vstd leaves unspecified.
use vstd::prelude::*;

verus! {

/// Relies on `std::string::String::push`: appends the given character to the
/// end of the string.
pub assume_specification[ String::push ](s: &mut String, c: char)
    ensures
        final(s)@ == old(s)@.push(c),
;

/// Relies on `char::from_u32`: the character with the given code point, for
/// exactly the values that are Unicode scalars.
pub assume_specification[ char::from_u32 ](v: u32) -> (r: Option<char>)
    ensures
        r is Some <==> vstd::utf8::is_scalar(v),
        r matches Some(c) ==> c as u32 == v,
;

} // verus!
