//! Entries and the byte strings that content is made of.

use std::sync::Arc;

use vstd::prelude::*;

use crate::address::AgentPubKey;

verus! {

/// `Arc::clone`: the new pointer points to the same value.
#[verifier::external_body]
fn share(data: &Arc<Vec<u8>>) -> (shared: Arc<Vec<u8>>)
    ensures
        shared == *data,
{
    Arc::clone(data)
}

/// An immutable byte string that is shared, not copied, when it is cloned.
#[derive(Debug, PartialEq, Eq, Hash)]
pub struct SharedBytes {
    pub data: Arc<Vec<u8>>,
}

impl View for SharedBytes {
    type V = Seq<u8>;

    open spec fn view(&self) -> Seq<u8> {
        self.data@
    }
}

impl Clone for SharedBytes {
    fn clone(&self) -> (res: Self)
        ensures
            res == *self,
    {
        SharedBytes { data: share(&self.data) }
    }
}

impl SharedBytes {
    pub fn new(bytes: Vec<u8>) -> (res: Self)
        ensures
            res@ == bytes@,
    {
        SharedBytes { data: Arc::new(bytes) }
    }

    /// Whether the two byte strings hold the same bytes.
    pub fn same_bytes(&self, other: &SharedBytes) -> (same: bool)
        ensures
            same == (self@ == other@),
    {
        if self.data.len() != other.data.len() {
            return false;
        }
        let len: usize = self.data.len();
        for i in 0..len
            invariant
                len == self@.len(),
                len == other@.len(),
                forall|j: int| 0 <= j < i ==> self@[j] == other@[j],
        {
            if self.data[i] != other.data[i] {
                return false;
            }
        }
        assert(self@ =~= other@);
        true
    }
}

/// The data of an entry. Nothing here looks inside: an entry is known by its address.
#[derive(Debug, PartialEq, Eq, Hash)]
pub enum Entry {
    Agent(AgentPubKey),
    App(SharedBytes),
    CapClaim(SharedBytes),
    CapGrant(SharedBytes),
}

impl Clone for Entry {
    fn clone(&self) -> (res: Self)
        ensures
            res == *self,
    {
        match self {
            Entry::Agent(key) => Entry::Agent(*key),
            Entry::App(bytes) => Entry::App(bytes.clone()),
            Entry::CapClaim(bytes) => Entry::CapClaim(bytes.clone()),
            Entry::CapGrant(bytes) => Entry::CapGrant(bytes.clone()),
        }
    }
}

/// The signature of a header by its author.
#[derive(Clone, Copy, Debug, PartialEq, Eq, Hash)]
pub struct Signature(pub [u8; 64]);

} // verus!
