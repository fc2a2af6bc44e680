//! The errors a request to a provider ends in.

use vstd::prelude::*;

verus! {

/// Why a request failed.
pub enum Error {
    /// The provider or the connection to it reported an error; here is its
    /// message.
    Hafas(String),
    /// No answer came in time.
    Timeout,
}

/// The message of an error.
pub open spec fn error_message(e: Error) -> Seq<char> {
    match e {
        Error::Hafas(m) => "Backend error: "@ + m@,
        Error::Timeout => "Timed Out"@,
    }
}

impl Error {
    /// The message of the error.
    pub fn message(&self) -> (r: String)
        ensures
            r@ == error_message(*self),
    {
        match self {
            Error::Hafas(m) => {
                let mut r = String::from_str("Backend error: ");
                r.append(m.as_str());
                r
            },
            Error::Timeout => String::from_str("Timed Out"),
        }
    }
}

} // verus!
