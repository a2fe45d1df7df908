//! The error type of the proxy: a message.
use vstd::prelude::*;

verus! {

/// An error of the proxy, carrying its message.
#[derive(Debug)]
pub struct JoshError(pub String);

/// The error with message `s`.
pub fn josh_error(s: &str) -> (e: JoshError)
    ensures
        e.0@ == s@,
{
    JoshError(s.to_owned())
}

impl View for JoshError {
    type V = Seq<char>;

    /// The message of the error.
    open spec fn view(&self) -> Seq<char> {
        self.0@
    }
}

impl JoshError {
    /// The message of the error.
    pub fn message(&self) -> (m: &str)
        ensures
            m@ == self.0@,
    {
        self.0.as_str()
    }
}

} // verus!
