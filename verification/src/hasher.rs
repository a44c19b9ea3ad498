//! The hash functions that give content its address.
//!
//! The functions are the caller's. Everything here holds for any of them, as long as equal content
//! always gets the same address.

use vstd::prelude::*;

use crate::address::{DhtOpHash, EntryHash, HeaderHash};
use crate::content::Entry;
use crate::header::Header;
use crate::op::DhtOp;

verus! {

/// `f` may be called on anything and gives equal arguments equal results.
pub open spec fn is_function<X, Y, F: Fn(&X) -> Y>(f: F) -> bool {
    &&& forall|x: &X| #[trigger] call_requires(f, (x,))
    &&& forall|x: &X, a: Y, b: Y|
        #[trigger] call_ensures(f, (x,), a) && #[trigger] call_ensures(f, (x,), b) ==> a == b
}

/// What `f` returns, as a mathematical function.
pub open spec fn image<X, Y, F: Fn(&X) -> Y>(f: F) -> spec_fn(X) -> Y {
    |x: X| choose|y: Y| call_ensures(f, (&x,), y)
}

/// The three address functions.
pub struct Addresses {
    pub entry: spec_fn(Entry) -> EntryHash,
    pub header: spec_fn(Header) -> HeaderHash,
    pub op: spec_fn(DhtOp) -> DhtOpHash,
}

impl Addresses {
    /// The address of the header that an operation carries.
    pub open spec fn header_of(self, op: DhtOp) -> HeaderHash {
        (self.header)(op.spec_header())
    }
}

/// The hash functions for entries, headers and operations.
pub struct ContentHasher<E, H, O> {
    pub entry: E,
    pub header: H,
    pub op: O,
}

impl<E, H, O> ContentHasher<E, H, O> where
    E: Fn(&Entry) -> EntryHash,
    H: Fn(&Header) -> HeaderHash,
    O: Fn(&DhtOp) -> DhtOpHash,
 {
    /// Each of the three depends on its argument alone.
    pub open spec fn valid(&self) -> bool {
        &&& is_function::<Entry, EntryHash, E>(self.entry)
        &&& is_function::<Header, HeaderHash, H>(self.header)
        &&& is_function::<DhtOp, DhtOpHash, O>(self.op)
    }

    /// The address functions that the hash functions compute.
    pub open spec fn view(&self) -> Addresses {
        Addresses { entry: image(self.entry), header: image(self.header), op: image(self.op) }
    }

    pub fn entry_hash(&self, entry: &Entry) -> (hash: EntryHash)
        requires
            self.valid(),
        ensures
            hash == (self@.entry)(*entry),
    {
        (self.entry)(entry)
    }

    pub fn header_hash(&self, header: &Header) -> (hash: HeaderHash)
        requires
            self.valid(),
        ensures
            hash == (self@.header)(*header),
    {
        (self.header)(header)
    }

    pub fn op_hash(&self, op: &DhtOp) -> (hash: DhtOpHash)
        requires
            self.valid(),
        ensures
            hash == (self@.op)(*op),
    {
        (self.op)(op)
    }
}

} // verus!
