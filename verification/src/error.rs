//! The gateway's error type.
use vstd::prelude::*;
use crate::text::join;

verus! {

/// An error of the network stack, by its text, or one of the gateway itself.
#[derive(Debug)]
pub enum Error {
    Stack(String),
    Network(String),
}

pub type Result<T> = core::result::Result<T, Error>;

impl Clone for Error {
    fn clone(&self) -> (copy: Self)
        ensures
            copy == *self,
    {
        match self {
            Error::Stack(reason) => Error::Stack(reason.clone()),
            Error::Network(message) => Error::Network(message.clone()),
        }
    }
}

impl Error {
    /// The text that the error is shown as.
    pub open spec fn text(&self) -> Seq<char> {
        match self {
            Error::Stack(reason) => "Network error: "@ + reason@,
            Error::Network(message) => message@,
        }
    }

    /// Whether this is an error of the gateway with `message` as its text.
    pub open spec fn says(&self, message: Seq<char>) -> bool {
        self matches Error::Network(text) && text@ == message
    }

    /// Shows the error. An error of the stack is introduced as one.
    pub fn to_string(&self) -> (text: String)
        ensures
            text@ == self.text(),
    {
        match self {
            Error::Stack(reason) => join("Network error: ", reason.as_str()),
            Error::Network(message) => message.clone(),
        }
    }
}

/// An error of the stack is shown as one, with its reason; one of the gateway as its
/// message. A clone is the same error.
pub proof fn errors_are_shown(reason: String, shown: String, plain: String, error: Error, copy: Error)
    requires
        call_ensures(Error::to_string, (&Error::Stack(reason),), shown),
        call_ensures(Error::to_string, (&Error::Network(reason),), plain),
        cloned(error, copy),
    ensures
        shown@ == "Network error: "@ + reason@,
        plain@ == reason@,
        copy == error,
{
}

} // verus!
