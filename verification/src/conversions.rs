//! Two conversions of the standard library, as the constructors of a table
//! name meet them when they are called with a `&str` or with a `String`.
//!
//! Both contracts are assumed, not proved: they say what the standard
//! library documents of the two functions.

use vstd::prelude::*;

verus! {

/// `<String as From<&str>>::from`: the new string holds the characters of the
/// slice, in the same order.
pub assume_specification<'a>[ <String as core::convert::From<&'a str>>::from ](s: &str) -> (text:
    String)
    ensures
        text@ == s@,
;

/// `<T as From<T>>::from`, the conversion of a value into its own type: it
/// hands the value back unchanged.
pub assume_specification<A>[ <A as core::convert::From<A>>::from ](value: A) -> (same: A)
    ensures
        same == value,
;

} // verus!
