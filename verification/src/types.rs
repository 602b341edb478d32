use vstd::prelude::*;

use crate::error::{BacklogError, BacklogResult};

verus! {

/// Display string of an item. Any content is accepted; the wrapped string is
/// never changed after construction.
#[derive(Debug, PartialEq, Eq)]
pub struct Title(String);

impl View for Title {
    type V = Seq<char>;

    closed spec fn view(&self) -> Seq<char> {
        self.0@
    }
}

impl Title {
    pub fn new(title: &str) -> (r: Self)
        ensures
            r@ == title@,
    {
        Title(title.to_string())
    }

    pub fn as_str(&self) -> (r: &str)
        ensures
            r@ == self@,
    {
        self.0.as_str()
    }
}

impl Clone for Title {
    fn clone(&self) -> (r: Self)
        ensures
            r == *self,
    {
        Title(self.0.clone())
    }
}

/// Display name of the person an item is assigned to.
#[derive(Debug, PartialEq, Eq)]
pub struct Assignee(String);

impl View for Assignee {
    type V = Seq<char>;

    closed spec fn view(&self) -> Seq<char> {
        self.0@
    }
}

impl Assignee {
    pub fn new(name: &str) -> (r: Self)
        ensures
            r@ == name@,
    {
        Assignee(name.to_string())
    }

    pub fn as_str(&self) -> (r: &str)
        ensures
            r@ == self@,
    {
        self.0.as_str()
    }
}

impl Clone for Assignee {
    fn clone(&self) -> (r: Self)
        ensures
            r == *self,
    {
        Assignee(self.0.clone())
    }
}

/// The point values an estimate may take: the Fibonacci-like scale up to 21.
pub open spec fn fibonacci_scale(n: u8) -> bool {
    n == 1 || n == 2 || n == 3 || n == 5 || n == 8 || n == 13 || n == 21
}

/// An estimate in story points, constrained to the Fibonacci-like scale
/// {1, 2, 3, 5, 8, 13, 21}. Immutable and totally ordered.
#[derive(Debug, Clone, Copy, PartialEq, Eq, PartialOrd, Ord)]
pub struct StoryPoint(u8);

impl View for StoryPoint {
    type V = u8;

    closed spec fn view(&self) -> u8 {
        self.0
    }
}

impl StoryPoint {
    /// Accepts exactly the values of the Fibonacci-like scale; everything
    /// else is a type error.
    pub fn new(point: u8) -> (r: BacklogResult<Self>)
        ensures
            fibonacci_scale(point) ==> (r matches Ok(p) && p@ == point),
            !fibonacci_scale(point) ==> (r matches Err(e) && e is TypeError),
    {
        match point {
            1 | 2 | 3 | 5 | 8 | 13 | 21 => Ok(StoryPoint(point)),
            _ => Err(BacklogError::type_error("StoryPoint must take 1 to 21 fibonacci number")),
        }
    }

    pub fn value(&self) -> (r: u8)
        ensures
            r == self@,
    {
        self.0
    }
}

} // verus!
