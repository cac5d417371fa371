//! The identity of a caller: the 32 bytes of a public key.

use vstd::prelude::*;

verus! {

/// Who administers a poll or casts a vote. Two identities are the same one
/// exactly when their bytes agree.
#[derive(Clone, Copy, Debug, PartialEq, Eq)]
pub struct Identity {
    pub bytes: [u8; 32],
}

impl View for Identity {
    type V = Seq<u8>;

    open spec fn view(&self) -> Seq<u8> {
        self.bytes@
    }
}

impl Identity {
    /// The identity with the given key bytes.
    pub fn new(bytes: [u8; 32]) -> (id: Identity)
        ensures
            id@ == bytes@,
    {
        Identity { bytes }
    }

    /// The key bytes.
    pub fn to_bytes(&self) -> (bytes: [u8; 32])
        ensures
            bytes@ == self@,
    {
        self.bytes
    }

    /// The key bytes as a list.
    pub fn to_vec(&self) -> (bytes: Vec<u8>)
        ensures
            bytes@ == self@,
    {
        let mut bytes: Vec<u8> = Vec::new();
        let mut i: usize = 0;
        while i < 32
            invariant
                i <= 32,
                bytes@ == self@.subrange(0, i as int),
            decreases 32 - i,
        {
            bytes.push(self.bytes[i]);
            assert(bytes@ =~= self@.subrange(0, i + 1));
            i += 1;
        }
        assert(bytes@ =~= self@);
        bytes
    }

    /// Whether `self` and `other` are the same identity.
    pub fn same(&self, other: &Identity) -> (r: bool)
        ensures
            r == (self@ == other@),
    {
        let mut i: usize = 0;
        while i < 32
            invariant
                i <= 32,
                forall|j: int| 0 <= j < i ==> self.bytes@[j] == other.bytes@[j],
            decreases 32 - i,
        {
            if self.bytes[i] != other.bytes[i] {
                return false;
            }
            i += 1;
        }
        assert(self@ =~= other@);
        true
    }
}

/// The key bytes of each identity of a list, in order.
pub open spec fn identities_view(ids: Seq<Identity>) -> Seq<Seq<u8>> {
    Seq::new(ids.len(), |i: int| ids[i]@)
}

/// Whether `who` is one of `list`.
pub fn contains_identity(list: &Vec<Identity>, who: &Identity) -> (r: bool)
    ensures
        r == identities_view(list@).contains(who@),
{
    let mut i: usize = 0;
    while i < list.len()
        invariant
            i <= list.len(),
            forall|j: int| 0 <= j < i ==> identities_view(list@)[j] != who@,
        decreases list.len() - i,
    {
        if list[i].same(who) {
            assert(identities_view(list@)[i as int] == who@);
            return true;
        }
        i += 1;
    }
    false
}

} // verus!
