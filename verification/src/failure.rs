//! Errors that carry a message.

use vstd::prelude::*;

verus! {

/// Something went wrong; the message says what.
#[derive(Debug)]
pub struct Failure {
    pub message: String,
}

impl View for Failure {
    type V = Seq<char>;

    open spec fn view(&self) -> Seq<char> {
        self.message@
    }
}

impl Failure {
    /// A failure with this message.
    pub fn new(message: &str) -> (r: Self)
        ensures
            r@ == message@,
    {
        Failure { message: message.to_owned() }
    }

    /// The message.
    pub fn to_string(&self) -> (s: String)
        ensures
            s@ == self@,
    {
        self.message.clone()
    }
}

/// The model of a result: the message where it failed.
pub open spec fn verdict<T>(r: Result<T, Failure>) -> Result<T, Seq<char>> {
    match r {
        Ok(x) => Ok(x),
        Err(e) => Err(e@),
    }
}

} // verus!
