//! Content addresses: the keys under which entries, headers, agents and operations are stored.

use vstd::prelude::*;

verus! {

/// The 36 bytes that follow a hash's type prefix, read as big-endian numbers: the 32 bytes of the
/// digest in two halves, then the 4 bytes of the location.
#[derive(Clone, Copy, Debug, PartialEq, Eq, Structural, Hash)]
pub struct Digest {
    pub high: u128,
    pub low: u128,
    pub location: u32,
}

/// The address of an entry.
#[derive(Clone, Copy, Debug, PartialEq, Eq, Structural, Hash)]
pub struct EntryHash(pub Digest);

/// The address of a header.
#[derive(Clone, Copy, Debug, PartialEq, Eq, Structural, Hash)]
pub struct HeaderHash(pub Digest);

/// The address of a DHT operation.
#[derive(Clone, Copy, Debug, PartialEq, Eq, Structural, Hash)]
pub struct DhtOpHash(pub Digest);

/// The address of a DNA.
#[derive(Clone, Copy, Debug, PartialEq, Eq, Structural, Hash)]
pub struct DnaHash(pub Digest);

/// The public key of an agent, which is also the agent's address.
#[derive(Clone, Copy, Debug, PartialEq, Eq, Structural, Hash)]
pub struct AgentPubKey(pub Digest);

/// Any address that can be the basis of a DHT operation. The kind of address is part of it: an
/// entry's address and a header's address are never the same basis.
#[derive(Clone, Copy, Debug, PartialEq, Eq, Structural, Hash)]
pub enum AnyDhtHash {
    Entry(EntryHash),
    Header(HeaderHash),
    Agent(AgentPubKey),
}

/// A point in time: whole seconds and nanoseconds.
#[derive(Clone, Copy, Debug, PartialEq, Eq, Structural, Hash)]
pub struct Timestamp(pub i64, pub u32);

} // verus!
