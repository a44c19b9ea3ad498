//! Content that refers to each other: two entries, and headers that create, update, delete and
//! link them.

use vstd::prelude::*;

use crate::address::{DhtOpHash, EntryHash, HeaderHash};
use crate::content::{Entry, Signature};
use crate::hasher::{Addresses, ContentHasher};
use crate::header::{
    CreateLink, Delete, DeleteLink, Dna, Header, LinkTag, NewEntryHeader, Update, ZomeId,
};
use crate::op::DhtOp;

verus! {

/// Arbitrary values to start from. Their references to other content lead nowhere yet.
#[derive(Debug, PartialEq, Eq, Hash)]
pub struct Fixtures {
    pub signature: Signature,
    pub original_header: NewEntryHeader,
    pub entry_update_header: Update,
    pub entry_update_entry: Update,
    pub entry_delete: Delete,
    pub link_add: CreateLink,
    pub zome_id: ZomeId,
    pub tag: LinkTag,
    pub link_remove: DeleteLink,
    pub any_header: Header,
    pub dna_header: Dna,
}

/// The content that scenarios are made of.
#[derive(Debug, PartialEq, Eq, Hash)]
pub struct TestData {
    pub signature: Signature,
    pub original_entry: Entry,
    pub new_entry: Entry,
    pub any_header: Header,
    pub dna_header: Header,
    pub entry_update_header: Update,
    pub entry_update_entry: Update,
    pub original_header_hash: HeaderHash,
    pub original_entry_hash: EntryHash,
    pub new_entry_hash: EntryHash,
    pub original_header: NewEntryHeader,
    pub entry_delete: Delete,
    pub link_add: CreateLink,
    pub link_remove: DeleteLink,
}

impl Clone for TestData {
    fn clone(&self) -> (res: Self)
        ensures
            res == *self,
    {
        TestData {
            signature: self.signature,
            original_entry: self.original_entry.clone(),
            new_entry: self.new_entry.clone(),
            any_header: self.any_header.clone(),
            dna_header: self.dna_header.clone(),
            entry_update_header: self.entry_update_header,
            entry_update_entry: self.entry_update_entry,
            original_header_hash: self.original_header_hash,
            original_entry_hash: self.original_entry_hash,
            new_entry_hash: self.new_entry_hash,
            original_header: self.original_header,
            entry_delete: self.entry_delete,
            link_add: self.link_add.clone(),
            link_remove: self.link_remove,
        }
    }
}

impl TestData {
    /// The content for two entries, made from fixtures by filling in the addresses.
    pub open spec fn spec_new(
        original_entry: Entry,
        new_entry: Entry,
        fixtures: Fixtures,
        at: Addresses,
    ) -> TestData {
        let original_entry_hash = (at.entry)(original_entry);
        let new_entry_hash = (at.entry)(new_entry);
        let original_header = fixtures.original_header.spec_with_entry_hash(original_entry_hash);
        let original_header_hash = (at.header)(original_header.spec_to_header());
        let link_add = CreateLink {
            base_address: original_entry_hash,
            target_address: new_entry_hash,
            zome_id: fixtures.zome_id,
            tag: fixtures.tag,
            ..fixtures.link_add
        };
        TestData {
            signature: fixtures.signature,
            original_entry,
            new_entry,
            any_header: fixtures.any_header.spec_with_entry_hash(original_entry_hash),
            dna_header: Header::Dna(fixtures.dna_header),
            entry_update_header: Update {
                entry_hash: new_entry_hash,
                original_header_address: original_header_hash,
                ..fixtures.entry_update_header
            },
            entry_update_entry: Update {
                entry_hash: new_entry_hash,
                original_entry_address: original_entry_hash,
                original_header_address: original_header_hash,
                ..fixtures.entry_update_entry
            },
            original_header_hash,
            original_entry_hash,
            new_entry_hash,
            original_header,
            entry_delete: Delete {
                deletes_address: original_header_hash,
                ..fixtures.entry_delete
            },
            link_add,
            link_remove: DeleteLink {
                base_address: original_entry_hash,
                link_add_address: (at.header)(Header::CreateLink(link_add)),
                ..fixtures.link_remove
            },
        }
    }

    /// Every reference from one piece of the content to another is the other's address.
    pub open spec fn linked(self, at: Addresses) -> bool {
        &&& self.original_entry_hash == (at.entry)(self.original_entry)
        &&& self.new_entry_hash == (at.entry)(self.new_entry)
        &&& self.original_header.spec_entry_hash() == self.original_entry_hash
        &&& self.original_header_hash == (at.header)(self.original_header.spec_to_header())
        &&& self.any_header.spec_entry_hash() matches Some(hash) ==> hash
            == self.original_entry_hash
        &&& self.dna_header is Dna
        &&& self.entry_update_header.entry_hash == self.new_entry_hash
        &&& self.entry_update_header.original_header_address == self.original_header_hash
        &&& self.entry_update_entry.entry_hash == self.new_entry_hash
        &&& self.entry_update_entry.original_entry_address == self.original_entry_hash
        &&& self.entry_update_entry.original_header_address == self.original_header_hash
        &&& self.entry_delete.deletes_address == self.original_header_hash
        &&& self.link_add.base_address == self.original_entry_hash
        &&& self.link_add.target_address == self.new_entry_hash
        &&& self.link_remove.base_address == self.original_entry_hash
        &&& self.link_remove.link_add_address == (at.header)(Header::CreateLink(self.link_add))
    }

    /// Fills the addresses of two entries, and of the headers that follow from them, into
    /// fixtures.
    pub fn new_inner<E, H, O>(
        original_entry: Entry,
        new_entry: Entry,
        fixtures: Fixtures,
        hasher: &ContentHasher<E, H, O>,
    ) -> (data: TestData) where
        E: Fn(&Entry) -> EntryHash,
        H: Fn(&Header) -> HeaderHash,
        O: Fn(&DhtOp) -> DhtOpHash,

        requires
            hasher.valid(),
        ensures
            data == TestData::spec_new(original_entry, new_entry, fixtures, hasher@),
            data.linked(hasher@),
    {
        // original entry
        let original_entry_hash = hasher.entry_hash(&original_entry);
        // new entry
        let new_entry_hash = hasher.entry_hash(&new_entry);

        // header for the original entry
        let original_header = fixtures.original_header.with_entry_hash(original_entry_hash);
        let original_header_hash = hasher.header_hash(&original_header.to_header());

        // update of the original header
        let mut entry_update_header = fixtures.entry_update_header;
        entry_update_header.entry_hash = new_entry_hash;
        entry_update_header.original_header_address = original_header_hash;

        // update of the original entry
        let mut entry_update_entry = fixtures.entry_update_entry;
        entry_update_entry.entry_hash = new_entry_hash;
        entry_update_entry.original_entry_address = original_entry_hash;
        entry_update_entry.original_header_address = original_header_hash;

        // delete of the original header
        let mut entry_delete = fixtures.entry_delete;
        entry_delete.deletes_address = original_header_hash;

        // link from the original entry to the new one
        let mut link_add = fixtures.link_add;
        link_add.base_address = original_entry_hash;
        link_add.target_address = new_entry_hash;
        link_add.zome_id = fixtures.zome_id;
        link_add.tag = fixtures.tag;
        let link_add_hash = hasher.header_hash(&Header::CreateLink(link_add.clone()));

        // removal of the link
        let mut link_remove = fixtures.link_remove;
        link_remove.base_address = original_entry_hash;
        link_remove.link_add_address = link_add_hash;

        // any header, for the original entry if it brings one
        let any_header = fixtures.any_header.with_entry_hash(original_entry_hash);

        TestData {
            signature: fixtures.signature,
            original_entry,
            new_entry,
            any_header,
            dna_header: Header::Dna(fixtures.dna_header),
            entry_update_header,
            entry_update_entry,
            original_header_hash,
            original_entry_hash,
            new_entry_hash,
            original_header,
            entry_delete,
            link_add,
            link_remove,
        }
    }
}

} // verus!
