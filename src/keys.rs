//! Participant identities.

use vstd::prelude::*;

verus! {

broadcast use vstd::array::group_array_axioms;

/// The 32-byte public identity of a participant or of a fee collector.
#[derive(Clone, Copy, Debug)]
pub struct PlayerKey {
    pub bytes: [u8; 32],
}

impl PlayerKey {
    /// A key made of the given bytes.
    pub fn new(bytes: [u8; 32]) -> (r: PlayerKey)
        ensures
            r.bytes == bytes,
    {
        PlayerKey { bytes }
    }
}

impl PartialEq for PlayerKey {
    fn eq(&self, other: &PlayerKey) -> (r: bool) {
        let mut i: usize = 0;
        while i < 32
            invariant
                i <= 32,
                forall|j: int| 0 <= j < i ==> self.bytes[j] == other.bytes[j],
            decreases 32 - i,
        {
            if self.bytes[i] != other.bytes[i] {
                return false;
            }
            i = i + 1;
        }
        assert(self.bytes =~= other.bytes);
        true
    }
}

impl Eq for PlayerKey {}

impl vstd::std_specs::cmp::PartialEqSpecImpl for PlayerKey {
    open spec fn obeys_eq_spec() -> bool {
        true
    }

    open spec fn eq_spec(&self, other: &PlayerKey) -> bool {
        self.bytes == other.bytes
    }
}

} // verus!
