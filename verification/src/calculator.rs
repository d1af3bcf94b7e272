//! A calculator value built through static constructors.

use vstd::prelude::*;

verus! {

pub struct Calculator {
    pub value: i32,
}

impl Calculator {
    /// The integer stand-in for pi that the calculator works with.
    pub fn pi() -> (r: i64)
        ensures
            r == 3,
    {
        3
    }

    /// A calculator starting from the given value.
    pub fn new(initial: i32) -> (c: Self)
        ensures
            c.value == initial,
    {
        Calculator { value: initial }
    }

    /// A calculator starting from zero.
    pub fn zero() -> (c: Self)
        ensures
            c.value == 0,
    {
        Calculator { value: 0 }
    }
}

} // verus!
