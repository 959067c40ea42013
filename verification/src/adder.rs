//! Small arithmetic and greeting helpers.

use vstd::prelude::*;

verus! {

/// Sum of two sizes.
pub fn add(left: usize, right: usize) -> (sum: usize)
    requires
        left + right <= usize::MAX,
    ensures
        sum == left + right,
{
    left + right
}

/// The number two above `a`.
pub fn add_two(a: i32) -> (sum: i32)
    requires
        a + 2 <= i32::MAX,
    ensures
        sum == a + 2,
{
    a + 2
}

/// A greeting for `name`: the word of welcome, then the name as given.
pub fn greeting(name: String) -> (text: String)
    ensures
        text@ == "Hello, "@ + name@,
{
    String::from_str("Hello, ").concat(name.as_str())
}

/// A rectangle with sides along the axes.
#[derive(Debug)]
pub struct Rectangle {
    pub width: u32,
    pub height: u32,
}

impl Rectangle {
    /// Whether `other` fits inside `self` with room to spare on both axes.
    pub fn can_hold(&self, other: &Rectangle) -> (fits: bool)
        ensures
            fits == (self.width > other.width && self.height > other.height),
    {
        self.width > other.width && self.height > other.height
    }
}

} // verus!
