use vstd::prelude::*;

verus! {

/// A message to a window.
#[derive(Debug, PartialEq, Eq)]
pub enum Message {
    Quit,
    Move { x: i32, y: i32 },
    Write(String),
    ChangeColor(i32, i32, i32),
}

impl Message {
    /// Handles the message: as yet, no message asks for anything.
    pub fn call(&self) {
    }
}

/// Builds the message that writes `hello` and has it handled.
pub fn run() {
    let m = Message::Write("hello".to_owned());
    m.call();
}

} // verus!
