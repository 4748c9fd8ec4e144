use vstd::prelude::*;

verus! {

/// The 32-byte public identity of a participant (a player or the admin).
#[derive(Clone, Copy, Debug)]
pub struct Identity {
    pub bytes: [u8; 32],
}

impl Identity {
    /// Two identities are the same participant when their bytes agree.
    pub open spec fn same_as(self, other: Identity) -> bool {
        self.bytes@ == other.bytes@
    }

    pub fn new(bytes: [u8; 32]) -> (r: Identity)
        ensures
            r.bytes@ == bytes@,
    {
        Identity { bytes }
    }

    /// Compares two identities byte by byte.
    pub fn is_same(&self, other: &Identity) -> (r: bool)
        ensures
            r == self.same_as(*other),
    {
        let mut i: usize = 0;
        while i < 32
            invariant
                i <= 32,
                forall|j: int| 0 <= j < i ==> self.bytes@[j] == other.bytes@[j],
            decreases 32 - i,
        {
            if self.bytes[i] != other.bytes[i] {
                return false;
            }
            i = i + 1;
        }
        assert(self.bytes@ =~= other.bytes@);
        true
    }
}

} // verus!
