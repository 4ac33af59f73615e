//! The failure kinds the dispatcher's caller must keep apart: a reply that
//! could not be delivered, and a store that could not be updated. The
//! in-memory `Store` of this crate never fails, so the second kind is only
//! ever produced by a fallible replacement backing; both are defined here so
//! the driver can tell "state not updated" from "reply not delivered".

use vstd::prelude::*;

verus! {

/// A failure of one dispatcher step, by where it arose.
pub enum CoreError {
    /// The outbound reply sink could not deliver the reply.
    SendFailure,
    /// The state store could not record the next state.
    StoreFailure,
}

impl CoreError {
    /// A short description of the failure kind.
    pub fn message(&self) -> (s: String)
        ensures
            *self is SendFailure ==> s@ == "the reply could not be sent"@,
            *self is StoreFailure ==> s@ == "the dialogue state could not be stored"@,
    {
        match self {
            CoreError::SendFailure => String::from_str("the reply could not be sent"),
            CoreError::StoreFailure => String::from_str("the dialogue state could not be stored"),
        }
    }
}

} // verus!
