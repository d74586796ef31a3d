//! The library's error type.
use vstd::prelude::*;

verus! {

/// An error reported by the library, carrying a human-readable message.
#[derive(Debug)]
pub enum PortCellarError {
    Message(String),
}

/// `Ok(v)` or an error with a message.
pub type Result<T> = core::result::Result<T, PortCellarError>;

impl PortCellarError {
    /// The message's characters.
    pub open spec fn text(&self) -> Seq<char> {
        match self {
            PortCellarError::Message(m) => m@,
        }
    }

    /// An error with `message`.
    pub fn message(message: String) -> (r: Self)
        ensures r.text() == message@,
    {
        PortCellarError::Message(message)
    }

    /// The message, as text.
    pub fn to_string(&self) -> (r: String)
        ensures r@ == self.text(),
    {
        match self {
            PortCellarError::Message(m) => m.clone(),
        }
    }
}

} // verus!
