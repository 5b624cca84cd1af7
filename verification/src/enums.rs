//! An enum whose variants carry different payloads, with a method on it.

use vstd::prelude::*;
use vstd::string::StringExecFns;

verus! {

/// A message: either a bare request to quit, or a payload to write.
pub enum Message {
    /// Stop whatever is running.
    Quit,
    /// Write this text somewhere.
    Write(String),
}

impl Message {
    /// The text this message carries: the payload of a `Write`, nothing
    /// for a `Quit`.
    pub open spec fn payload(&self) -> Seq<char> {
        match self {
            Message::Write(text) => text@,
            Message::Quit => Seq::empty(),
        }
    }

    /// Handles the message, handing back the text it carried.
    pub fn call(&self) -> (r: String)
        ensures
            r@ == self.payload(),
    {
        match self {
            Message::Write(text) => text.clone(),
            Message::Quit => String::new(),
        }
    }
}

/// Builds one message of each variant and handles both.
pub fn run() {
    let m1 = Message::Write(String::from_str("hello"));
    let _text = m1.call();
    let m1 = Message::Quit;
    let _text = m1.call();
}

} // verus!
