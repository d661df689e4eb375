//! The reasons for which a bridge call can fail on the host side.

use vstd::prelude::*;

verus! {

/// Why a bridge call did not produce a descriptor.
///
/// Only the host sees these; the guest is handed one sentinel for all of the
/// guest-induced ones.
#[derive(Clone, Copy, Debug, PartialEq, Eq, Structural)]
pub enum BridgeError {
    /// A guest-supplied range does not lie inside the guest's memory, or a
    /// string runs to the end of memory without a terminator.
    OutOfBounds,
    /// The bytes of a guest string are not valid UTF-8.
    InvalidEncoding,
    /// The handle does not name a live object.
    InvalidHandle,
    /// The object holds no map of that name.
    NotFound,
    /// The invocation context gives no access to the guest's memory.
    ContextResolutionFailure,
}

/// The value handed to the guest for every guest-induced failure.
pub const FAILURE_SENTINEL: i32 = -1;

impl BridgeError {
    /// True of the failures that a guest can cause by what it passes in.
    pub open spec fn guest_induced(self) -> bool {
        self != BridgeError::ContextResolutionFailure
    }

    /// Tells whether a guest can cause this failure by what it passes in.
    pub fn is_guest_induced(&self) -> (r: bool)
        ensures
            r == self.guest_induced(),
    {
        match self {
            BridgeError::ContextResolutionFailure => false,
            _ => true,
        }
    }
}

} // verus!
