//! DHT operations: what the holders of an address are asked to store.

use vstd::prelude::*;

use crate::address::{AnyDhtHash, DhtOpHash, HeaderHash};
use crate::content::{Entry, Signature};
use crate::header::{CreateLink, Delete, DeleteLink, Header, NewEntryHeader, Update};

verus! {

/// An operation, with the signature of its header.
#[derive(Debug, PartialEq, Eq, Hash)]
pub enum DhtOp {
    StoreElement(Signature, Header, Option<Entry>),
    StoreEntry(Signature, NewEntryHeader, Entry),
    RegisterAgentActivity(Signature, Header),
    RegisterUpdatedContent(Signature, Update, Option<Entry>),
    RegisterUpdatedElement(Signature, Update, Option<Entry>),
    RegisterDeletedBy(Signature, Delete),
    RegisterDeletedEntryHeader(Signature, Delete),
    RegisterAddLink(Signature, CreateLink),
    RegisterRemoveLink(Signature, DeleteLink),
}

/// The kind of an operation.
#[derive(Clone, Copy, Debug, PartialEq, Eq, Structural, Hash)]
pub enum DhtOpType {
    StoreElement,
    StoreEntry,
    RegisterAgentActivity,
    RegisterUpdatedContent,
    RegisterUpdatedElement,
    RegisterDeletedBy,
    RegisterDeletedEntryHeader,
    RegisterAddLink,
    RegisterRemoveLink,
}

/// An operation together with its address.
#[derive(Debug, PartialEq, Eq, Hash)]
pub struct DhtOpHashed {
    pub content: DhtOp,
    pub hash: DhtOpHash,
}

/// The same entry, if there is one.
pub(crate) fn clone_entry(entry: &Option<Entry>) -> (res: Option<Entry>)
    ensures
        res == *entry,
{
    match entry {
        Some(entry) => Some(entry.clone()),
        None => None,
    }
}

impl Clone for DhtOp {
    fn clone(&self) -> (res: Self)
        ensures
            res == *self,
    {
        match self {
            DhtOp::StoreElement(s, h, e) => DhtOp::StoreElement(*s, h.clone(), clone_entry(e)),
            DhtOp::StoreEntry(s, h, e) => DhtOp::StoreEntry(*s, *h, e.clone()),
            DhtOp::RegisterAgentActivity(s, h) => DhtOp::RegisterAgentActivity(*s, h.clone()),
            DhtOp::RegisterUpdatedContent(s, h, e) => DhtOp::RegisterUpdatedContent(
                *s,
                *h,
                clone_entry(e),
            ),
            DhtOp::RegisterUpdatedElement(s, h, e) => DhtOp::RegisterUpdatedElement(
                *s,
                *h,
                clone_entry(e),
            ),
            DhtOp::RegisterDeletedBy(s, h) => DhtOp::RegisterDeletedBy(*s, *h),
            DhtOp::RegisterDeletedEntryHeader(s, h) => DhtOp::RegisterDeletedEntryHeader(*s, *h),
            DhtOp::RegisterAddLink(s, h) => DhtOp::RegisterAddLink(*s, h.clone()),
            DhtOp::RegisterRemoveLink(s, h) => DhtOp::RegisterRemoveLink(*s, *h),
        }
    }
}

impl Clone for DhtOpHashed {
    fn clone(&self) -> (res: Self)
        ensures
            res == *self,
    {
        DhtOpHashed { content: self.content.clone(), hash: self.hash }
    }
}

impl DhtOp {
    pub open spec fn spec_op_type(self) -> DhtOpType {
        match self {
            DhtOp::StoreElement(..) => DhtOpType::StoreElement,
            DhtOp::StoreEntry(..) => DhtOpType::StoreEntry,
            DhtOp::RegisterAgentActivity(..) => DhtOpType::RegisterAgentActivity,
            DhtOp::RegisterUpdatedContent(..) => DhtOpType::RegisterUpdatedContent,
            DhtOp::RegisterUpdatedElement(..) => DhtOpType::RegisterUpdatedElement,
            DhtOp::RegisterDeletedBy(..) => DhtOpType::RegisterDeletedBy,
            DhtOp::RegisterDeletedEntryHeader(..) => DhtOpType::RegisterDeletedEntryHeader,
            DhtOp::RegisterAddLink(..) => DhtOpType::RegisterAddLink,
            DhtOp::RegisterRemoveLink(..) => DhtOpType::RegisterRemoveLink,
        }
    }

    /// The kind of the operation.
    pub fn op_type(&self) -> (op_type: DhtOpType)
        ensures
            op_type == self.spec_op_type(),
    {
        match self {
            DhtOp::StoreElement(_, _, _) => DhtOpType::StoreElement,
            DhtOp::StoreEntry(_, _, _) => DhtOpType::StoreEntry,
            DhtOp::RegisterAgentActivity(_, _) => DhtOpType::RegisterAgentActivity,
            DhtOp::RegisterUpdatedContent(_, _, _) => DhtOpType::RegisterUpdatedContent,
            DhtOp::RegisterUpdatedElement(_, _, _) => DhtOpType::RegisterUpdatedElement,
            DhtOp::RegisterDeletedBy(_, _) => DhtOpType::RegisterDeletedBy,
            DhtOp::RegisterDeletedEntryHeader(_, _) => DhtOpType::RegisterDeletedEntryHeader,
            DhtOp::RegisterAddLink(_, _) => DhtOpType::RegisterAddLink,
            DhtOp::RegisterRemoveLink(_, _) => DhtOpType::RegisterRemoveLink,
        }
    }

    pub open spec fn spec_header(self) -> Header {
        match self {
            DhtOp::StoreElement(_, h, _) => h,
            DhtOp::StoreEntry(_, h, _) => h.spec_to_header(),
            DhtOp::RegisterAgentActivity(_, h) => h,
            DhtOp::RegisterUpdatedContent(_, h, _) => Header::Update(h),
            DhtOp::RegisterUpdatedElement(_, h, _) => Header::Update(h),
            DhtOp::RegisterDeletedBy(_, h) => Header::Delete(h),
            DhtOp::RegisterDeletedEntryHeader(_, h) => Header::Delete(h),
            DhtOp::RegisterAddLink(_, h) => Header::CreateLink(h),
            DhtOp::RegisterRemoveLink(_, h) => Header::DeleteLink(h),
        }
    }

    /// The header that the operation carries.
    pub fn header(&self) -> (header: Header)
        ensures
            header == self.spec_header(),
    {
        match self {
            DhtOp::StoreElement(_, h, _) => h.clone(),
            DhtOp::StoreEntry(_, h, _) => h.to_header(),
            DhtOp::RegisterAgentActivity(_, h) => h.clone(),
            DhtOp::RegisterUpdatedContent(_, h, _) => Header::Update(*h),
            DhtOp::RegisterUpdatedElement(_, h, _) => Header::Update(*h),
            DhtOp::RegisterDeletedBy(_, h) => Header::Delete(*h),
            DhtOp::RegisterDeletedEntryHeader(_, h) => Header::Delete(*h),
            DhtOp::RegisterAddLink(_, h) => Header::CreateLink(h.clone()),
            DhtOp::RegisterRemoveLink(_, h) => Header::DeleteLink(*h),
        }
    }

    pub open spec fn spec_entry(self) -> Option<Entry> {
        match self {
            DhtOp::StoreElement(_, _, e) => e,
            DhtOp::StoreEntry(_, _, e) => Some(e),
            DhtOp::RegisterUpdatedContent(_, _, e) => e,
            DhtOp::RegisterUpdatedElement(_, _, e) => e,
            _ => None,
        }
    }

    /// The entry that the operation carries, if it carries one.
    pub fn entry(&self) -> (entry: Option<Entry>)
        ensures
            entry == self.spec_entry(),
    {
        match self {
            DhtOp::StoreElement(_, _, e) => clone_entry(e),
            DhtOp::StoreEntry(_, _, e) => Some(e.clone()),
            DhtOp::RegisterUpdatedContent(_, _, e) => clone_entry(e),
            DhtOp::RegisterUpdatedElement(_, _, e) => clone_entry(e),
            _ => None,
        }
    }

    /// The address whose holders store the operation, where `header_hash` is the address of the
    /// operation's own header: that header, its entry, its author, or the address that it refers
    /// to.
    pub open spec fn spec_basis(self, header_hash: HeaderHash) -> AnyDhtHash {
        match self {
            DhtOp::StoreElement(..) => AnyDhtHash::Header(header_hash),
            DhtOp::StoreEntry(_, h, _) => AnyDhtHash::Entry(h.spec_entry_hash()),
            DhtOp::RegisterAgentActivity(_, h) => AnyDhtHash::Agent(h.spec_author()),
            DhtOp::RegisterUpdatedContent(_, h, _) => AnyDhtHash::Entry(h.original_entry_address),
            DhtOp::RegisterUpdatedElement(_, h, _) => AnyDhtHash::Header(h.original_header_address),
            DhtOp::RegisterDeletedBy(_, h) => AnyDhtHash::Header(h.deletes_address),
            DhtOp::RegisterDeletedEntryHeader(_, h) => AnyDhtHash::Entry(h.deletes_entry_address),
            DhtOp::RegisterAddLink(_, h) => AnyDhtHash::Entry(h.base_address),
            DhtOp::RegisterRemoveLink(_, h) => AnyDhtHash::Entry(h.base_address),
        }
    }

    pub fn basis(&self, header_hash: HeaderHash) -> (basis: AnyDhtHash)
        ensures
            basis == self.spec_basis(header_hash),
    {
        match self {
            DhtOp::StoreElement(_, _, _) => AnyDhtHash::Header(header_hash),
            DhtOp::StoreEntry(_, h, _) => AnyDhtHash::Entry(h.entry_hash()),
            DhtOp::RegisterAgentActivity(_, h) => AnyDhtHash::Agent(h.author()),
            DhtOp::RegisterUpdatedContent(_, h, _) => AnyDhtHash::Entry(h.original_entry_address),
            DhtOp::RegisterUpdatedElement(_, h, _) => AnyDhtHash::Header(h.original_header_address),
            DhtOp::RegisterDeletedBy(_, h) => AnyDhtHash::Header(h.deletes_address),
            DhtOp::RegisterDeletedEntryHeader(_, h) => AnyDhtHash::Entry(h.deletes_entry_address),
            DhtOp::RegisterAddLink(_, h) => AnyDhtHash::Entry(h.base_address),
            DhtOp::RegisterRemoveLink(_, h) => AnyDhtHash::Entry(h.base_address),
        }
    }
}

} // verus!
