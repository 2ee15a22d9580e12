use vstd::prelude::*;

verus! {

/// Error raised by the library, carrying a human-readable message.
#[derive(Debug)]
pub struct AIError {
    details: String,
}

impl View for AIError {
    type V = Seq<char>;

    closed spec fn view(&self) -> Seq<char> {
        self.details@
    }
}

impl AIError {
    /// Build an error carrying the given message.
    pub fn new(msg: &str) -> (r: AIError)
        ensures
            r@ == msg@,
    {
        AIError { details: msg.to_owned() }
    }

    /// The message this error carries.
    pub fn description(&self) -> (r: String)
        ensures
            r@ == self@,
    {
        self.details.clone()
    }
}

} // verus!
