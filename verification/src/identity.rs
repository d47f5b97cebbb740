//! Opaque 32-byte identity tokens and membership in lists of them.

use vstd::prelude::*;

verus! {

/// Width of an identity token in bytes.
pub const IDENTITY_BYTES: usize = 32;

/// An authenticated caller identity: an opaque token of 32 bytes.
///
/// Two identities are the same exactly when all their bytes agree.
#[derive(Clone, Copy, Debug, PartialEq, Eq, Hash)]
pub struct Identity {
    pub bytes: [u8; 32],
}

impl Identity {
    /// Wraps 32 raw bytes as an identity.
    pub fn new(bytes: [u8; 32]) -> (id: Identity)
        ensures
            id.bytes == bytes,
    {
        Identity { bytes }
    }

    /// Tells whether `self` and `other` name the same caller.
    pub fn same_as(&self, other: &Identity) -> (same: bool)
        ensures
            same == (*self == *other),
    {
        let mut i: usize = 0;
        while i < 32
            invariant
                i <= 32,
                forall|j: int| 0 <= j < i ==> self.bytes[j] == other.bytes[j],
            decreases 32 - i,
        {
            if self.bytes[i] != other.bytes[i] {
                return false;
            }
            i += 1;
        }
        assert(self.bytes =~= other.bytes);
        true
    }
}

/// Scans `list` front to back for `id`.
pub fn contains_identity(list: &Vec<Identity>, id: &Identity) -> (found: bool)
    ensures
        found == list@.contains(*id),
{
    let mut i: usize = 0;
    while i < list.len()
        invariant
            i <= list.len(),
            forall|j: int| 0 <= j < i ==> list@[j] != *id,
        decreases list.len() - i,
    {
        if list[i].same_as(id) {
            return true;
        }
        i += 1;
    }
    false
}

} // verus!
