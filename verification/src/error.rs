use vstd::prelude::*;

verus! {

/// An error that carries a human readable message.
#[derive(Debug, Clone)]
pub struct MessageError {
    pub msg: String,
}

impl MessageError {
    /// Builds an error whose message is a copy of `msg`.
    pub fn new(msg: &str) -> (e: MessageError)
        ensures
            e.msg@ == msg@,
    {
        MessageError { msg: msg.to_owned() }
    }

    /// Builds an error that takes ownership of `msg`.
    pub fn new_with(msg: String) -> (e: MessageError)
        ensures
            e.msg@ == msg@,
    {
        MessageError { msg }
    }
}

} // verus!
