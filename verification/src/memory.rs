//! A bounds-checked view of the guest's linear memory.

use vstd::prelude::*;
use crate::error::BridgeError;

verus! {

/// True when the range of `length` bytes at `offset` lies inside a memory of
/// `size` bytes. The sum is taken over the integers, so it cannot wrap.
pub open spec fn in_bounds(size: nat, offset: nat, length: nat) -> bool {
    offset + length <= size
}

/// The guest's linear memory, as the host sees it during one call.
pub struct GuestMemory {
    bytes: Vec<u8>,
}

impl View for GuestMemory {
    type V = Seq<u8>;

    closed spec fn view(&self) -> Seq<u8> {
        self.bytes@
    }
}

impl GuestMemory {
    /// A view over the given bytes.
    pub fn new(bytes: Vec<u8>) -> (m: GuestMemory)
        ensures
            m@ == bytes@,
    {
        GuestMemory { bytes }
    }

    /// The current size of the memory in bytes.
    pub fn size(&self) -> (n: usize)
        ensures
            n == self@.len(),
    {
        self.bytes.len()
    }

    /// The `length` bytes at `offset`, or `OutOfBounds` when the range does
    /// not lie inside the memory.
    pub fn read(&self, offset: usize, length: usize) -> (r: Result<&[u8], BridgeError>)
        ensures
            in_bounds(self@.len(), offset as nat, length as nat) ==> r is Ok && r->Ok_0@
                == self@.subrange(offset as int, offset + length),
            !in_bounds(self@.len(), offset as nat, length as nat) ==> r
                == Err::<&[u8], BridgeError>(BridgeError::OutOfBounds),
    {
        let size = self.bytes.len();
        if offset > size || length > size - offset {
            return Err(BridgeError::OutOfBounds);
        }
        let end: usize = offset + length;
        Ok(&self.bytes.as_slice()[offset..end])
    }

    /// The byte at `offset`, or `OutOfBounds` when `offset` lies outside the
    /// memory.
    pub fn read_byte(&self, offset: usize) -> (r: Result<u8, BridgeError>)
        ensures
            offset < self@.len() ==> r == Ok::<u8, BridgeError>(self@[offset as int]),
            offset >= self@.len() ==> r == Err::<u8, BridgeError>(BridgeError::OutOfBounds),
    {
        if offset < self.bytes.len() {
            Ok(self.bytes[offset])
        } else {
            Err(BridgeError::OutOfBounds)
        }
    }
}

} // verus!
