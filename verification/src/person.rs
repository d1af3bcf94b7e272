//! A person and a rectangle that describe themselves in words.

use vstd::prelude::*;

use crate::text::dec_text;
use crate::text::i32_to_string;

verus! {

pub struct Person {
    pub name: String,
    pub age: i32,
}

impl Person {
    /// A person with the given name and age.
    pub fn new(name: String, age: i32) -> (p: Self)
        ensures
            p.name == name,
            p.age == age,
    {
        Person { name, age }
    }

    /// A greeting carrying the person's name.
    pub fn greeting(&self) -> (r: String)
        ensures
            r@ == "Hello, my name is "@ + self.name@,
    {
        let mut s = String::from_str("Hello, my name is ");
        s.append(self.name.as_str());
        s
    }

    /// The person's name and age in words.
    pub fn describe(&self) -> (r: String)
        ensures
            r@ == "Person: "@ + self.name@ + ", Age: "@ + dec_text(self.age as int),
    {
        let mut s = String::from_str("Person: ");
        s.append(self.name.as_str());
        s.append(", Age: ");
        let age = i32_to_string(self.age);
        s.append(age.as_str());
        s
    }
}

pub struct Rectangle {
    pub width: i32,
    pub height: i32,
}

impl Rectangle {
    /// The rectangle's area.
    pub fn area(&self) -> (r: i32)
        requires
            i32::MIN <= self.width * self.height <= i32::MAX,
        ensures
            r == self.width * self.height,
    {
        self.width * self.height
    }

    /// The rectangle's sides in words.
    pub fn describe(&self) -> (r: String)
        ensures
            r@ == "Rectangle "@ + dec_text(self.width as int) + "x"@ + dec_text(
                self.height as int,
            ),
    {
        let mut s = String::from_str("Rectangle ");
        let w = i32_to_string(self.width);
        s.append(w.as_str());
        s.append("x");
        let h = i32_to_string(self.height);
        s.append(h.as_str());
        s
    }
}

} // verus!
