//! Identifiers: the public key of an author and the hash of a header or an entry.

use vstd::prelude::*;

verus! {

/// The public key that names an author. It is compared byte for byte and never
/// looked into.
#[derive(Clone, Debug, PartialEq, Eq, Hash)]
pub struct AgentKey {
    pub bytes: Vec<u8>,
}

impl View for AgentKey {
    type V = Seq<u8>;

    open spec fn view(&self) -> Seq<u8> {
        self.bytes@
    }
}

/// The hash of a header or of an entry.
#[derive(Clone, Debug, PartialEq, Eq, Hash)]
pub struct DhtHash {
    pub bytes: Vec<u8>,
}

impl View for DhtHash {
    type V = Seq<u8>;

    open spec fn view(&self) -> Seq<u8> {
        self.bytes@
    }
}

/// Whether two byte strings have the same length and the same byte at every place.
pub fn same_bytes(left: &Vec<u8>, right: &Vec<u8>) -> (same: bool)
    ensures
        same == (left@ == right@),
{
    if left.len() != right.len() {
        return false;
    }
    let mut at: usize = 0;
    while at < left.len()
        invariant
            left.len() == right.len(),
            at <= left.len(),
            forall|k: int| 0 <= k < at ==> left@[k] == right@[k],
        decreases left.len() - at,
    {
        if left[at] != right[at] {
            return false;
        }
        at += 1;
    }
    assert(left@ =~= right@);
    true
}

impl AgentKey {
    pub fn new(bytes: Vec<u8>) -> (key: AgentKey)
        ensures
            key@ == bytes@,
    {
        AgentKey { bytes }
    }

    /// Byte-for-byte equality: no normalisation, no partial match.
    pub fn same_as(&self, other: &AgentKey) -> (same: bool)
        ensures
            same == (self@ == other@),
    {
        same_bytes(&self.bytes, &other.bytes)
    }
}

impl DhtHash {
    pub fn new(bytes: Vec<u8>) -> (hash: DhtHash)
        ensures
            hash@ == bytes@,
    {
        DhtHash { bytes }
    }

    pub fn same_as(&self, other: &DhtHash) -> (same: bool)
        ensures
            same == (self@ == other@),
    {
        same_bytes(&self.bytes, &other.bytes)
    }

    /// A second hash with the same bytes.
    pub fn duplicate(&self) -> (copy: DhtHash)
        ensures
            copy@ == self@,
    {
        let bytes = self.bytes.clone();
        assert(bytes@ =~= self.bytes@);
        DhtHash { bytes }
    }
}

} // verus!
