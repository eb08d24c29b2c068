//! Alert messages and the configuration of notification backends.

use vstd::prelude::*;

verus! {

/// An alert message: a title and a body, immutable once constructed and
/// cloned for fan-out to several notification backends.
#[derive(Debug)]
pub struct Message {
    pub title: String,
    pub body: String,
}

impl Message {
    pub fn new(title: String, body: String) -> (m: Self)
        ensures
            m.title == title,
            m.body == body,
    {
        Self { title, body }
    }
}

impl Clone for Message {
    fn clone(&self) -> (m: Self)
        ensures
            m == self,
    {
        let m = Message { title: self.title.clone(), body: self.body.clone() };
        m
    }
}

} // verus!
