//! The one error kind that a command can hand back.

use vstd::prelude::*;

verus! {

/// An error of a command. The only kind there is wraps an error of the
/// hosting shell, kept here as the message that the caller is shown.
#[derive(Debug)]
pub enum Error {
    Tauri(String),
}

impl View for Error {
    type V = Seq<char>;

    open spec fn view(&self) -> Seq<char> {
        match self {
            Error::Tauri(message) => message@,
        }
    }
}

impl Error {
    /// The text under which the error reaches the caller: the wrapped
    /// error's own message, with nothing added.
    pub fn message(&self) -> (r: String)
        ensures
            r@ == self@,
    {
        match self {
            Error::Tauri(message) => message.clone(),
        }
    }
}

} // verus!
