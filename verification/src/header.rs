//! Headers: the records of an agent's source chain.

use vstd::prelude::*;

use crate::address::{AgentPubKey, DnaHash, EntryHash, HeaderHash, Timestamp};
use crate::content::SharedBytes;

verus! {

/// The position of a zome in its DNA.
#[derive(Clone, Copy, Debug, PartialEq, Eq, Structural, Hash)]
pub struct ZomeId(pub u8);

/// The bytes by which an application tells links apart.
#[derive(Debug, PartialEq, Eq, Hash)]
pub struct LinkTag(pub SharedBytes);

impl View for LinkTag {
    type V = Seq<u8>;

    open spec fn view(&self) -> Seq<u8> {
        self.0@
    }
}

impl Clone for LinkTag {
    fn clone(&self) -> (res: Self)
        ensures
            res == *self,
    {
        LinkTag(self.0.clone())
    }
}

/// Who may read an entry.
#[derive(Clone, Copy, Debug, PartialEq, Eq, Structural, Hash)]
pub enum EntryVisibility {
    Public,
    Private,
}

/// What kind of entry a header speaks of.
#[derive(Clone, Copy, Debug, PartialEq, Eq, Structural, Hash)]
pub enum EntryType {
    AgentPubKey,
    App { id: u8, zome_id: ZomeId, visibility: EntryVisibility },
    CapClaim,
    CapGrant,
}

/// Who wrote a header, when, and where in the author's chain it stands.
#[derive(Clone, Copy, Debug, PartialEq, Eq, Structural, Hash)]
pub struct ChainLink {
    pub author: AgentPubKey,
    pub timestamp: Timestamp,
    pub header_seq: u32,
    pub prev_header: HeaderHash,
}

/// The first header of a chain: it names the DNA and has no predecessor.
#[derive(Clone, Copy, Debug, PartialEq, Eq, Structural, Hash)]
pub struct Dna {
    pub author: AgentPubKey,
    pub timestamp: Timestamp,
    pub hash: DnaHash,
}

/// The header that carries the agent's proof of membership.
#[derive(Debug, PartialEq, Eq, Hash)]
pub struct AgentValidationPkg {
    pub chain: ChainLink,
    pub membrane_proof: Option<SharedBytes>,
}

/// The header that marks the end of the zomes' initialisation.
#[derive(Clone, Copy, Debug, PartialEq, Eq, Structural, Hash)]
pub struct InitZomesComplete {
    pub chain: ChainLink,
}

/// The header that links one entry to another.
#[derive(Debug, PartialEq, Eq, Hash)]
pub struct CreateLink {
    pub chain: ChainLink,
    pub base_address: EntryHash,
    pub target_address: EntryHash,
    pub zome_id: ZomeId,
    pub tag: LinkTag,
}

/// The header that removes a link.
#[derive(Clone, Copy, Debug, PartialEq, Eq, Structural, Hash)]
pub struct DeleteLink {
    pub chain: ChainLink,
    pub base_address: EntryHash,
    pub link_add_address: HeaderHash,
}

/// The header that continues a chain of another DNA.
#[derive(Clone, Copy, Debug, PartialEq, Eq, Structural, Hash)]
pub struct OpenChain {
    pub chain: ChainLink,
    pub prev_dna_hash: DnaHash,
}

/// The header that ends a chain in favour of another DNA.
#[derive(Clone, Copy, Debug, PartialEq, Eq, Structural, Hash)]
pub struct CloseChain {
    pub chain: ChainLink,
    pub new_dna_hash: DnaHash,
}

/// The header that creates an entry.
#[derive(Clone, Copy, Debug, PartialEq, Eq, Structural, Hash)]
pub struct Create {
    pub chain: ChainLink,
    pub entry_type: EntryType,
    pub entry_hash: EntryHash,
}

/// The header that replaces an entry by another.
#[derive(Clone, Copy, Debug, PartialEq, Eq, Structural, Hash)]
pub struct Update {
    pub chain: ChainLink,
    pub original_header_address: HeaderHash,
    pub original_entry_address: EntryHash,
    pub entry_type: EntryType,
    pub entry_hash: EntryHash,
}

/// The header that deletes another header and, with it, its entry.
#[derive(Clone, Copy, Debug, PartialEq, Eq, Structural, Hash)]
pub struct Delete {
    pub chain: ChainLink,
    pub deletes_address: HeaderHash,
    pub deletes_entry_address: EntryHash,
}

/// Any header.
#[derive(Debug, PartialEq, Eq, Hash)]
pub enum Header {
    Dna(Dna),
    AgentValidationPkg(AgentValidationPkg),
    InitZomesComplete(InitZomesComplete),
    CreateLink(CreateLink),
    DeleteLink(DeleteLink),
    OpenChain(OpenChain),
    CloseChain(CloseChain),
    Create(Create),
    Update(Update),
    Delete(Delete),
}

/// A header that brings a new entry.
#[derive(Clone, Copy, Debug, PartialEq, Eq, Structural, Hash)]
pub enum NewEntryHeader {
    Create(Create),
    Update(Update),
}

impl Clone for AgentValidationPkg {
    fn clone(&self) -> (res: Self)
        ensures
            res == *self,
    {
        let membrane_proof = match &self.membrane_proof {
            Some(proof) => Some(proof.clone()),
            None => None,
        };
        AgentValidationPkg { chain: self.chain, membrane_proof }
    }
}

impl Clone for CreateLink {
    fn clone(&self) -> (res: Self)
        ensures
            res == *self,
    {
        CreateLink {
            chain: self.chain,
            base_address: self.base_address,
            target_address: self.target_address,
            zome_id: self.zome_id,
            tag: self.tag.clone(),
        }
    }
}

impl Clone for Header {
    fn clone(&self) -> (res: Self)
        ensures
            res == *self,
    {
        match self {
            Header::Dna(h) => Header::Dna(*h),
            Header::AgentValidationPkg(h) => Header::AgentValidationPkg(h.clone()),
            Header::InitZomesComplete(h) => Header::InitZomesComplete(*h),
            Header::CreateLink(h) => Header::CreateLink(h.clone()),
            Header::DeleteLink(h) => Header::DeleteLink(*h),
            Header::OpenChain(h) => Header::OpenChain(*h),
            Header::CloseChain(h) => Header::CloseChain(*h),
            Header::Create(h) => Header::Create(*h),
            Header::Update(h) => Header::Update(*h),
            Header::Delete(h) => Header::Delete(*h),
        }
    }
}

impl Header {
    /// The agent that wrote the header.
    pub open spec fn spec_author(self) -> AgentPubKey {
        match self {
            Header::Dna(h) => h.author,
            Header::AgentValidationPkg(h) => h.chain.author,
            Header::InitZomesComplete(h) => h.chain.author,
            Header::CreateLink(h) => h.chain.author,
            Header::DeleteLink(h) => h.chain.author,
            Header::OpenChain(h) => h.chain.author,
            Header::CloseChain(h) => h.chain.author,
            Header::Create(h) => h.chain.author,
            Header::Update(h) => h.chain.author,
            Header::Delete(h) => h.chain.author,
        }
    }

    pub fn author(&self) -> (author: AgentPubKey)
        ensures
            author == self.spec_author(),
    {
        match self {
            Header::Dna(h) => h.author,
            Header::AgentValidationPkg(h) => h.chain.author,
            Header::InitZomesComplete(h) => h.chain.author,
            Header::CreateLink(h) => h.chain.author,
            Header::DeleteLink(h) => h.chain.author,
            Header::OpenChain(h) => h.chain.author,
            Header::CloseChain(h) => h.chain.author,
            Header::Create(h) => h.chain.author,
            Header::Update(h) => h.chain.author,
            Header::Delete(h) => h.chain.author,
        }
    }

    /// The address of the entry that the header brings, if it brings one.
    pub open spec fn spec_entry_hash(self) -> Option<EntryHash> {
        match self {
            Header::Create(h) => Some(h.entry_hash),
            Header::Update(h) => Some(h.entry_hash),
            _ => None,
        }
    }

    pub fn entry_hash(&self) -> (hash: Option<EntryHash>)
        ensures
            hash == self.spec_entry_hash(),
    {
        match self {
            Header::Create(h) => Some(h.entry_hash),
            Header::Update(h) => Some(h.entry_hash),
            _ => None,
        }
    }

    /// The address of the header that this one deletes, if it deletes one.
    pub open spec fn spec_deletes_header_hash(self) -> Option<HeaderHash> {
        match self {
            Header::Delete(h) => Some(h.deletes_address),
            _ => None,
        }
    }

    pub fn deletes_header_hash(&self) -> (hash: Option<HeaderHash>)
        ensures
            hash == self.spec_deletes_header_hash(),
    {
        match self {
            Header::Delete(h) => Some(h.deletes_address),
            _ => None,
        }
    }

    /// The header with the address of its entry replaced; a header that brings no entry is left as
    /// it is.
    pub open spec fn spec_with_entry_hash(self, hash: EntryHash) -> Header {
        match self {
            Header::Create(h) => Header::Create(Create { entry_hash: hash, ..h }),
            Header::Update(h) => Header::Update(Update { entry_hash: hash, ..h }),
            _ => self,
        }
    }

    pub fn with_entry_hash(self, hash: EntryHash) -> (res: Header)
        ensures
            res == self.spec_with_entry_hash(hash),
    {
        match self {
            Header::Create(h) => Header::Create(Create { entry_hash: hash, ..h }),
            Header::Update(h) => Header::Update(Update { entry_hash: hash, ..h }),
            other => other,
        }
    }
}

impl NewEntryHeader {
    /// The same header as one of the general kind.
    pub open spec fn spec_to_header(self) -> Header {
        match self {
            NewEntryHeader::Create(h) => Header::Create(h),
            NewEntryHeader::Update(h) => Header::Update(h),
        }
    }

    pub fn to_header(&self) -> (header: Header)
        ensures
            header == self.spec_to_header(),
    {
        match self {
            NewEntryHeader::Create(h) => Header::Create(*h),
            NewEntryHeader::Update(h) => Header::Update(*h),
        }
    }

    /// The address of the entry that the header brings.
    pub open spec fn spec_entry_hash(self) -> EntryHash {
        match self {
            NewEntryHeader::Create(h) => h.entry_hash,
            NewEntryHeader::Update(h) => h.entry_hash,
        }
    }

    pub fn entry_hash(&self) -> (hash: EntryHash)
        ensures
            hash == self.spec_entry_hash(),
    {
        match self {
            NewEntryHeader::Create(h) => h.entry_hash,
            NewEntryHeader::Update(h) => h.entry_hash,
        }
    }

    /// The header with the address of its entry replaced.
    pub open spec fn spec_with_entry_hash(self, hash: EntryHash) -> NewEntryHeader {
        match self {
            NewEntryHeader::Create(h) => NewEntryHeader::Create(Create { entry_hash: hash, ..h }),
            NewEntryHeader::Update(h) => NewEntryHeader::Update(Update { entry_hash: hash, ..h }),
        }
    }

    pub fn with_entry_hash(self, hash: EntryHash) -> (res: NewEntryHeader)
        ensures
            res == self.spec_with_entry_hash(hash),
    {
        match self {
            NewEntryHeader::Create(h) => NewEntryHeader::Create(Create { entry_hash: hash, ..h }),
            NewEntryHeader::Update(h) => NewEntryHeader::Update(Update { entry_hash: hash, ..h }),
        }
    }
}

} // verus!
