//! Error values of the channel.
//!
//! Every failure of a channel operation comes from the shared lock being
//! broken (poisoned), never from the queue being empty or full. Each error
//! carries a human-readable diagnostic, and `SendError` additionally hands
//! the rejected value back so nothing is lost on failure.

use vstd::prelude::*;

verus! {

/// Generic channel failure: the shared lock could not be used.
#[derive(Debug)]
pub struct Error {
    message: String,
}

impl Error {
    /// The diagnostic the error carries.
    pub closed spec fn spec_message(&self) -> Seq<char> {
        self.message@
    }

    /// Builds an error carrying `message`.
    pub fn new(message: String) -> (e: Error)
        ensures
            e.spec_message() == message@,
    {
        Error { message }
    }

    /// The diagnostic the error carries.
    pub fn message(&self) -> (m: &str)
        ensures
            m@ == self.spec_message(),
    {
        self.message.as_str()
    }
}

/// A failed push. The rejected value rides back to the caller in the
/// public field.
#[derive(Debug)]
pub struct SendError<T>(pub T);

/// A failed pop, with a diagnostic of why the queue was unusable.
#[derive(Debug)]
pub struct RecvError {
    message: String,
}

impl RecvError {
    /// The diagnostic the error carries.
    pub closed spec fn spec_message(&self) -> Seq<char> {
        self.message@
    }

    /// Builds an error carrying `message`.
    pub fn new(message: String) -> (e: RecvError)
        ensures
            e.spec_message() == message@,
    {
        RecvError { message }
    }

    /// The diagnostic the error carries.
    pub fn message(&self) -> (m: &str)
        ensures
            m@ == self.spec_message(),
    {
        self.message.as_str()
    }
}

} // verus!
