use vstd::prelude::*;

verus! {

/// A failure while talking to the completion engine.
#[derive(Debug, Clone)]
pub enum Error {
    /// The request did not reach the engine, or its answer could not be read.
    Surf(String),
}

impl Error {
    /// The text shown to operators.
    pub fn message(&self) -> (r: String)
        ensures
            match self {
                Error::Surf(why) => r@ == "Network error: "@ + why@,
            },
    {
        match self {
            Error::Surf(why) => {
                let mut r = String::from_str("Network error: ");
                r.append(why.as_str());
                r
            },
        }
    }
}

/// A refusal of an administrative command, in words for whoever issued it.
#[derive(Debug, Clone)]
pub struct StringError(pub String);

impl StringError {
    pub fn new(message: &str) -> (r: StringError)
        ensures
            r.0@ == message@,
    {
        StringError(String::from_str(message))
    }
}

} // verus!
