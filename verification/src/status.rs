//! A status that carries one detail.

use vstd::prelude::*;

verus! {

/// The status of a finished step, holding the single detail that tells how
/// it ended.
#[derive(Debug)]
pub struct HandshakeStatus<T> {
    details: T,
}

impl<T> View for HandshakeStatus<T> {
    type V = T;

    closed spec fn view(&self) -> T {
        self.details
    }
}

impl<T> HandshakeStatus<T> {
    /// A status with the given detail.
    pub fn new(details: T) -> (status: Self)
        ensures
            status@ == details,
    {
        HandshakeStatus { details }
    }

    /// The detail this status holds.
    pub fn details(&self) -> (details: &T)
        ensures
            *details == self@,
    {
        &self.details
    }
}

} // verus!
