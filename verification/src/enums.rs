//! Messages of several shapes, and what is said when one is delivered.

use vstd::prelude::*;

verus! {

/// A message to a running program.
pub enum Message {
    /// Stop.
    Quit,
    /// Go to a place.
    Move { x: i32, y: i32 },
    /// Show a text.
    Write(String),
    /// Take on a colour, given as red, green and blue.
    ChangeColor(i32, i32, i32),
}

impl Message {
    /// Delivers the message: the answer to say aloud, if there is one.
    /// Only a request to stop is answered.
    pub fn call(&self) -> (answer: Option<&'static str>)
        ensures
            self is Quit <==> answer is Some,
            answer matches Some(text) ==> text@ == "QUITTER"@,
    {
        match self {
            Message::Quit => Some("QUITTER"),
            _ => None,
        }
    }
}

} // verus!
