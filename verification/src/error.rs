//! The error value that every fallible operation of the library returns:
//! a machine-readable code and a message for people.

use vstd::prelude::*;

verus! {

/// An error: `code` is stable and meant for branching, `message` is meant
/// to be shown to the user.
#[derive(Debug)]
pub struct AppError {
    pub code: &'static str,
    pub message: String,
}

/// The form in which an error is handed to the front end.
#[derive(Debug)]
pub struct ErrorPayload {
    pub code: String,
    pub message: String,
}

impl AppError {
    /// An error with the given code and message.
    pub fn new(code: &'static str, message: String) -> (r: Self)
        ensures
            r.code == code,
            r.message == message,
    {
        AppError { code, message }
    }

    /// The payload sent to the front end: the code and the message.
    pub fn payload(&self) -> (r: ErrorPayload)
        ensures
            r.code@ == self.code@,
            r.message == self.message,
    {
        ErrorPayload { code: crate::text::owned(self.code), message: self.message.clone() }
    }

    /// The error as one line of text: `[code] message`.
    pub fn describe(&self) -> (r: String)
        ensures
            r@ == "["@ + self.code@ + "] "@ + self.message@,
    {
        let mut out = crate::text::owned("[");
        crate::text::push_str(&mut out, self.code);
        crate::text::push_str(&mut out, "] ");
        crate::text::push_str(&mut out, self.message.as_str());
        proof {
            assert(out@ =~= "["@ + self.code@ + "] "@ + self.message@);
        }
        out
    }
}

} // verus!
