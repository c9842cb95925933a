//! Actor identity and the results of sending.
use vstd::prelude::*;

pub mod uri;

verus! {

/// A message that could not be delivered, handed back to its sender.
pub struct MsgError<T> {
    pub msg: T,
}

impl<T> MsgError<T> {
    /// The error that hands `msg` back.
    pub fn new(msg: T) -> (e: Self)
        ensures
            e.msg == msg,
    {
        MsgError { msg }
    }
}

/// What sending a message returns.
pub type MsgResult<T> = Result<(), MsgError<T>>;

} // verus!
