//! The failures that end a server's run.

use vstd::prelude::*;

verus! {

/// What a handler reports when its action failed.
#[derive(Debug)]
pub struct HandlerError {
    pub message: String,
}

/// Why a command server stopped.
#[derive(Debug)]
pub enum ServerError {
    /// A received payload was not valid UTF-8.
    Decode,
    /// A registered handler reported a failure.
    Handler(HandlerError),
    /// The transport failed and the binding does not reconnect; the text
    /// describes the failure.
    Transport(String),
    /// The driver reported an event that the session's phase does not admit.
    Protocol,
}

impl HandlerError {
    /// A failure with the given description.
    pub fn new(message: &str) -> (e: HandlerError)
        ensures
            e.message@ == message@,
    {
        HandlerError { message: message.to_owned() }
    }

    /// The description of the failure.
    pub fn to_string(&self) -> (text: String)
        ensures
            text@ == self.message@,
    {
        self.message.clone()
    }
}

impl Clone for HandlerError {
    fn clone(&self) -> (copy: Self)
        ensures
            copy == *self,
    {
        HandlerError { message: self.message.clone() }
    }
}

impl Clone for ServerError {
    fn clone(&self) -> (copy: Self)
        ensures
            copy == *self,
    {
        match self {
            ServerError::Decode => ServerError::Decode,
            ServerError::Handler(failure) => ServerError::Handler(failure.clone()),
            ServerError::Transport(reason) => ServerError::Transport(reason.clone()),
            ServerError::Protocol => ServerError::Protocol,
        }
    }
}

} // verus!
