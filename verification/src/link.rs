//! What can go wrong on the serial link, and what it means.
//!
//! A read or write that did not complete within the link's deadline is not
//! a failure: nothing happened, and the caller tries again later. Any other
//! error is fatal for the whole run.

use vstd::prelude::*;

verus! {

/// Why a read or write on the link did not complete.
#[derive(Clone, Copy, Debug, PartialEq, Eq, Structural)]
pub enum LinkError {
    /// The deadline passed. Recoverable.
    TimedOut,
    /// The device is gone, or access was refused, or anything else. Fatal.
    Hard,
}

impl LinkError {
    /// Whether the caller may simply try again.
    pub open spec fn recoverable(&self) -> bool {
        *self == LinkError::TimedOut
    }

    /// Whether the caller may simply try again.
    pub fn is_recoverable(&self) -> (again: bool)
        ensures
            again == self.recoverable(),
    {
        match self {
            LinkError::TimedOut => true,
            LinkError::Hard => false,
        }
    }
}

} // verus!
