//! What holds of headers, operations and test data: what each carries, and what filling in an
//! address leaves as it was.

use vstd::prelude::*;

use crate::address::{AnyDhtHash, DhtOpHash, EntryHash, HeaderHash};
use crate::content::{Entry, SharedBytes, Signature};
use crate::hasher::{Addresses, ContentHasher};
use crate::header::{
    AgentValidationPkg, CloseChain, Create, CreateLink, Delete, DeleteLink, Dna, Header,
    InitZomesComplete, NewEntryHeader, OpenChain, Update,
};
use crate::op::{DhtOp, DhtOpType};
use crate::test_data::{Fixtures, TestData};

verus! {

/// Byte strings are told apart by their bytes, and by nothing else.
pub proof fn law_bytes_are_what_is_seen(a: SharedBytes, b: SharedBytes)
    ensures
        a@ == b@ <==> (a.data@.len() == b.data@.len() && forall|i: int|
            0 <= i < a.data@.len() ==> a.data@[i] == b.data@[i]),
{
    if a.data@.len() == b.data@.len() && (forall|i: int|
        0 <= i < a.data@.len() ==> a.data@[i] == b.data@[i]) {
        assert(a.data@ =~= b.data@);
    }
}

/// The address of content is what the caller's hash function returned for it.
pub proof fn law_addresses_are_the_callers<E, H, O>(
    hasher: ContentHasher<E, H, O>,
    entry: Entry,
    entry_hash: EntryHash,
    header: Header,
    header_hash: HeaderHash,
    op: DhtOp,
    op_hash: DhtOpHash,
) where
    E: Fn(&Entry) -> EntryHash,
    H: Fn(&Header) -> HeaderHash,
    O: Fn(&DhtOp) -> DhtOpHash,

    requires
        hasher.valid(),
    ensures
        call_ensures(hasher.entry, (&entry,), entry_hash) ==> (hasher@.entry)(entry) == entry_hash,
        call_ensures(hasher.header, (&header,), header_hash) ==> (hasher@.header)(header)
            == header_hash,
        call_ensures(hasher.op, (&op,), op_hash) ==> (hasher@.op)(op) == op_hash,
{
}

/// The author of a header is the agent that the header itself names: the first header of a chain
/// by its own field, every other by its place in the chain.
pub proof fn law_author_is_named_by_header()
    ensures
        forall|h: Dna| #[trigger] Header::Dna(h).spec_author() == h.author,
        forall|h: AgentValidationPkg|
            #[trigger] Header::AgentValidationPkg(h).spec_author() == h.chain.author,
        forall|h: InitZomesComplete|
            #[trigger] Header::InitZomesComplete(h).spec_author() == h.chain.author,
        forall|h: CreateLink| #[trigger] Header::CreateLink(h).spec_author() == h.chain.author,
        forall|h: DeleteLink| #[trigger] Header::DeleteLink(h).spec_author() == h.chain.author,
        forall|h: OpenChain| #[trigger] Header::OpenChain(h).spec_author() == h.chain.author,
        forall|h: CloseChain| #[trigger] Header::CloseChain(h).spec_author() == h.chain.author,
        forall|h: Create| #[trigger] Header::Create(h).spec_author() == h.chain.author,
        forall|h: Update| #[trigger] Header::Update(h).spec_author() == h.chain.author,
        forall|h: Delete| #[trigger] Header::Delete(h).spec_author() == h.chain.author,
{
}

/// A header brings an entry exactly if it creates or updates one, and it names that entry's
/// address. A header deletes another exactly if it is a delete, and it names the other's address.
pub proof fn law_header_names_what_it_brings_and_deletes(header: Header)
    ensures
        header.spec_entry_hash() is Some <==> header is Create || header is Update,
        header matches Header::Create(h) ==> header.spec_entry_hash() == Some(
            h.entry_hash,
        ),
        header matches Header::Update(h) ==> header.spec_entry_hash() == Some(
            h.entry_hash,
        ),
        header.spec_deletes_header_hash() is Some <==> header is Delete,
        header matches Header::Delete(h) ==> header.spec_deletes_header_hash() == Some(
            h.deletes_address,
        ),
{
}

/// An address that was filled into a header is the one that is read from it afterwards; filling
/// in another replaces it; and filling in the one that is there changes nothing. A header that
/// brings no entry is not changed at all.
pub proof fn law_entry_address_is_filled_in(header: Header, first: EntryHash, second: EntryHash)
    ensures
        header.spec_entry_hash() is Some ==> header.spec_with_entry_hash(first).spec_entry_hash()
            == Some(first),
        header.spec_entry_hash() is None ==> header.spec_with_entry_hash(first) == header,
        header.spec_with_entry_hash(first).spec_with_entry_hash(second)
            == header.spec_with_entry_hash(second),
        header.spec_entry_hash() == Some(first) ==> header.spec_with_entry_hash(first) == header,
{
}

/// Filling an entry's address into a header keeps the header's kind and all that it says besides.
pub proof fn law_filling_in_keeps_the_rest(header: Header, hash: EntryHash)
    ensures
        match (header, header.spec_with_entry_hash(hash)) {
            (Header::Create(was), Header::Create(is)) => {
                &&& is.entry_hash == hash
                &&& is.chain == was.chain
                &&& is.entry_type == was.entry_type
            },
            (Header::Update(was), Header::Update(is)) => {
                &&& is.entry_hash == hash
                &&& is.chain == was.chain
                &&& is.entry_type == was.entry_type
                &&& is.original_header_address == was.original_header_address
                &&& is.original_entry_address == was.original_entry_address
            },
            (was, is) => is == was && !(was is Create) && !(was is Update),
        },
{
}

/// The same of a header that brings a new entry: what was filled in is read, filling in anew
/// replaces it, and what is there already may be filled in again. The header's kind and all that
/// it says besides is kept.
pub proof fn law_new_entry_header_is_filled_in(
    header: NewEntryHeader,
    first: EntryHash,
    second: EntryHash,
)
    ensures
        header.spec_with_entry_hash(first).spec_entry_hash() == first,
        header.spec_with_entry_hash(first).spec_with_entry_hash(second)
            == header.spec_with_entry_hash(second),
        header.spec_with_entry_hash(header.spec_entry_hash()) == header,
        match (header, header.spec_with_entry_hash(first)) {
            (NewEntryHeader::Create(was), NewEntryHeader::Create(is)) => {
                &&& is.entry_hash == first
                &&& is.chain == was.chain
                &&& is.entry_type == was.entry_type
            },
            (NewEntryHeader::Update(was), NewEntryHeader::Update(is)) => {
                &&& is.entry_hash == first
                &&& is.chain == was.chain
                &&& is.entry_type == was.entry_type
                &&& is.original_header_address == was.original_header_address
                &&& is.original_entry_address == was.original_entry_address
            },
            _ => false,
        },
{
}

/// A header that brings a new entry stays itself as a header of the general kind: a create is a
/// create and an update is an update, with the same entry and the same author, and it makes no
/// difference whether an address is filled in before or afterwards.
pub proof fn law_new_entry_header_is_a_header(
    header: NewEntryHeader,
    other: NewEntryHeader,
    hash: EntryHash,
)
    ensures
        header matches NewEntryHeader::Create(h) ==> header.spec_to_header()
            == Header::Create(h),
        header matches NewEntryHeader::Update(h) ==> header.spec_to_header()
            == Header::Update(h),
        header.spec_to_header() == other.spec_to_header() ==> header == other,
        header.spec_to_header().spec_entry_hash() == Some(header.spec_entry_hash()),
        header.spec_with_entry_hash(hash).spec_to_header()
            == header.spec_to_header().spec_with_entry_hash(hash),
        header matches NewEntryHeader::Create(h) ==> header.spec_entry_hash()
            == h.entry_hash,
        header matches NewEntryHeader::Update(h) ==> header.spec_entry_hash()
            == h.entry_hash,
{
}

/// Operations are of the same kind exactly if they were made in the same way, and an operation is
/// known by its kind, its header and its entry, but for the signature.
pub proof fn law_op_is_known_by_its_parts(a: DhtOp, b: DhtOp)
    ensures
        a.spec_op_type() == b.spec_op_type() <==> {
            ||| a is StoreElement && b is StoreElement
            ||| a is StoreEntry && b is StoreEntry
            ||| a is RegisterAgentActivity && b is RegisterAgentActivity
            ||| a is RegisterUpdatedContent && b is RegisterUpdatedContent
            ||| a is RegisterUpdatedElement && b is RegisterUpdatedElement
            ||| a is RegisterDeletedBy && b is RegisterDeletedBy
            ||| a is RegisterDeletedEntryHeader && b is RegisterDeletedEntryHeader
            ||| a is RegisterAddLink && b is RegisterAddLink
            ||| a is RegisterRemoveLink && b is RegisterRemoveLink
        },
        a.spec_op_type() == b.spec_op_type() && a.spec_header() == b.spec_header()
            && a.spec_entry() == b.spec_entry() ==> match (a, b) {
            (DhtOp::StoreElement(_, h, e), DhtOp::StoreElement(_, k, f)) => h == k && e == f,
            (DhtOp::StoreEntry(_, h, e), DhtOp::StoreEntry(_, k, f)) => h == k && e == f,
            (DhtOp::RegisterAgentActivity(_, h), DhtOp::RegisterAgentActivity(_, k)) => h == k,
            (DhtOp::RegisterUpdatedContent(_, h, e), DhtOp::RegisterUpdatedContent(_, k, f)) => h
                == k && e == f,
            (DhtOp::RegisterUpdatedElement(_, h, e), DhtOp::RegisterUpdatedElement(_, k, f)) => h
                == k && e == f,
            (DhtOp::RegisterDeletedBy(_, h), DhtOp::RegisterDeletedBy(_, k)) => h == k,
            (
                DhtOp::RegisterDeletedEntryHeader(_, h),
                DhtOp::RegisterDeletedEntryHeader(_, k),
            ) => h == k,
            (DhtOp::RegisterAddLink(_, h), DhtOp::RegisterAddLink(_, k)) => h == k,
            (DhtOp::RegisterRemoveLink(_, h), DhtOp::RegisterRemoveLink(_, k)) => h == k,
            _ => false,
        },
{
}

/// An operation that stores an element gives back the header and the entry that it was made of. It
/// is for the holders of the header.
pub proof fn law_store_element_carries(
    signature: Signature,
    header: Header,
    entry: Option<Entry>,
    hash: HeaderHash,
)
    ensures
        ({
            let op = DhtOp::StoreElement(signature, header, entry);
            &&& op.spec_op_type() == DhtOpType::StoreElement
            &&& op.spec_header() == header
            &&& op.spec_entry() == entry
            &&& op.spec_basis(hash) == AnyDhtHash::Header(hash)
        }),
{
}

/// An operation that stores an entry gives back the header and the entry that it was made of. It is
/// for the holders of the entry that the header names.
pub proof fn law_store_entry_carries(
    signature: Signature,
    create: Create,
    update: Update,
    entry: Entry,
    hash: HeaderHash,
)
    ensures
        ({
            let op = DhtOp::StoreEntry(signature, NewEntryHeader::Create(create), entry);
            &&& op.spec_op_type() == DhtOpType::StoreEntry
            &&& op.spec_header() == Header::Create(create)
            &&& op.spec_entry() == Some(entry)
            &&& op.spec_basis(hash) == AnyDhtHash::Entry(create.entry_hash)
        }),
        ({
            let op = DhtOp::StoreEntry(signature, NewEntryHeader::Update(update), entry);
            &&& op.spec_op_type() == DhtOpType::StoreEntry
            &&& op.spec_header() == Header::Update(update)
            &&& op.spec_entry() == Some(entry)
            &&& op.spec_basis(hash) == AnyDhtHash::Entry(update.entry_hash)
        }),
{
}

/// Both operations that register an update give back the update and the entry that they were made
/// of. One is for the holders of the entry that is replaced, the other for those of the header.
pub proof fn law_register_update_carries(
    signature: Signature,
    update: Update,
    entry: Option<Entry>,
    hash: HeaderHash,
)
    ensures
        ({
            let op = DhtOp::RegisterUpdatedContent(signature, update, entry);
            &&& op.spec_op_type() == DhtOpType::RegisterUpdatedContent
            &&& op.spec_header() == Header::Update(update)
            &&& op.spec_entry() == entry
            &&& op.spec_basis(hash) == AnyDhtHash::Entry(update.original_entry_address)
        }),
        ({
            let op = DhtOp::RegisterUpdatedElement(signature, update, entry);
            &&& op.spec_op_type() == DhtOpType::RegisterUpdatedElement
            &&& op.spec_header() == Header::Update(update)
            &&& op.spec_entry() == entry
            &&& op.spec_basis(hash) == AnyDhtHash::Header(update.original_header_address)
        }),
{
}

/// Both operations that register a delete give back the delete, and no entry. One is for the
/// holders of the header that is deleted, the other for those of its entry.
pub proof fn law_register_delete_carries(signature: Signature, delete: Delete, hash: HeaderHash)
    ensures
        ({
            let op = DhtOp::RegisterDeletedBy(signature, delete);
            &&& op.spec_op_type() == DhtOpType::RegisterDeletedBy
            &&& op.spec_header() == Header::Delete(delete)
            &&& op.spec_entry() is None
            &&& op.spec_basis(hash) == AnyDhtHash::Header(delete.deletes_address)
        }),
        ({
            let op = DhtOp::RegisterDeletedEntryHeader(signature, delete);
            &&& op.spec_op_type() == DhtOpType::RegisterDeletedEntryHeader
            &&& op.spec_header() == Header::Delete(delete)
            &&& op.spec_entry() is None
            &&& op.spec_basis(hash) == AnyDhtHash::Entry(delete.deletes_entry_address)
        }),
{
}

/// The operations that register a link and its removal give back the header that they were made
/// of, and no entry. Both are for the holders of the link's base.
pub proof fn law_register_link_carries(
    signature: Signature,
    link: CreateLink,
    removal: DeleteLink,
    hash: HeaderHash,
)
    ensures
        ({
            let op = DhtOp::RegisterAddLink(signature, link);
            &&& op.spec_op_type() == DhtOpType::RegisterAddLink
            &&& op.spec_header() == Header::CreateLink(link)
            &&& op.spec_entry() is None
            &&& op.spec_basis(hash) == AnyDhtHash::Entry(link.base_address)
        }),
        ({
            let op = DhtOp::RegisterRemoveLink(signature, removal);
            &&& op.spec_op_type() == DhtOpType::RegisterRemoveLink
            &&& op.spec_header() == Header::DeleteLink(removal)
            &&& op.spec_entry() is None
            &&& op.spec_basis(hash) == AnyDhtHash::Entry(removal.base_address)
        }),
{
}

/// An operation that registers activity gives back its header, and no entry. It is for the holders
/// of the agent that the header names as its author.
pub proof fn law_register_activity_carries(signature: Signature, header: Header, hash: HeaderHash)
    ensures
        ({
            let op = DhtOp::RegisterAgentActivity(signature, header);
            &&& op.spec_op_type() == DhtOpType::RegisterAgentActivity
            &&& op.spec_header() == header
            &&& op.spec_entry() is None
            &&& op.spec_basis(hash) == match header {
                Header::Dna(h) => AnyDhtHash::Agent(h.author),
                Header::AgentValidationPkg(h) => AnyDhtHash::Agent(h.chain.author),
                Header::InitZomesComplete(h) => AnyDhtHash::Agent(h.chain.author),
                Header::CreateLink(h) => AnyDhtHash::Agent(h.chain.author),
                Header::DeleteLink(h) => AnyDhtHash::Agent(h.chain.author),
                Header::OpenChain(h) => AnyDhtHash::Agent(h.chain.author),
                Header::CloseChain(h) => AnyDhtHash::Agent(h.chain.author),
                Header::Create(h) => AnyDhtHash::Agent(h.chain.author),
                Header::Update(h) => AnyDhtHash::Agent(h.chain.author),
                Header::Delete(h) => AnyDhtHash::Agent(h.chain.author),
            }
        }),
{
}

/// Test data keeps its two entries, and its references lead from one piece of it to another: the
/// headers bring the entries, the updates and the delete are of the original, the link leads from
/// the original entry to the new one, and the removal is of that link.
pub proof fn law_test_data_refers_to_itself(
    original_entry: Entry,
    new_entry: Entry,
    fixtures: Fixtures,
    at: Addresses,
)
    ensures
        ({
            let data = TestData::spec_new(original_entry, new_entry, fixtures, at);
            &&& data.original_entry == original_entry
            &&& data.new_entry == new_entry
            &&& data.original_entry_hash == (at.entry)(original_entry)
            &&& data.new_entry_hash == (at.entry)(new_entry)
            &&& match data.original_header {
                NewEntryHeader::Create(h) => {
                    &&& h.entry_hash == (at.entry)(original_entry)
                    &&& data.original_header_hash == (at.header)(Header::Create(h))
                },
                NewEntryHeader::Update(h) => {
                    &&& h.entry_hash == (at.entry)(original_entry)
                    &&& data.original_header_hash == (at.header)(Header::Update(h))
                },
            }
            &&& match data.any_header {
                Header::Create(h) => h.entry_hash == (at.entry)(original_entry),
                Header::Update(h) => h.entry_hash == (at.entry)(original_entry),
                _ => true,
            }
            &&& data.entry_update_header.entry_hash == (at.entry)(new_entry)
            &&& data.entry_update_header.original_header_address == data.original_header_hash
            &&& data.entry_update_entry.entry_hash == (at.entry)(new_entry)
            &&& data.entry_update_entry.original_header_address == data.original_header_hash
            &&& data.entry_update_entry.original_entry_address == (at.entry)(original_entry)
            &&& data.entry_delete.deletes_address == data.original_header_hash
            &&& data.link_add.base_address == (at.entry)(original_entry)
            &&& data.link_add.target_address == (at.entry)(new_entry)
            &&& data.link_remove.base_address == (at.entry)(original_entry)
            &&& data.link_remove.link_add_address == (at.header)(Header::CreateLink(data.link_add))
        }),
{
}

/// All that is not a reference, test data takes from the fixtures as it is. The headers keep their
/// kinds: the original header is an update exactly if the fixture is, and still of what the
/// fixture updates.
pub proof fn law_test_data_keeps_fixtures(
    original_entry: Entry,
    new_entry: Entry,
    fixtures: Fixtures,
    at: Addresses,
)
    ensures
        ({
            let data = TestData::spec_new(original_entry, new_entry, fixtures, at);
            &&& data.signature == fixtures.signature
            &&& data.dna_header == Header::Dna(fixtures.dna_header)
            &&& match (fixtures.original_header, data.original_header) {
                (NewEntryHeader::Create(was), NewEntryHeader::Create(is)) => {
                    &&& is.chain == was.chain
                    &&& is.entry_type == was.entry_type
                },
                (NewEntryHeader::Update(was), NewEntryHeader::Update(is)) => {
                    &&& is.chain == was.chain
                    &&& is.entry_type == was.entry_type
                    &&& is.original_header_address == was.original_header_address
                    &&& is.original_entry_address == was.original_entry_address
                },
                _ => false,
            }
            &&& match (fixtures.any_header, data.any_header) {
                (Header::Create(was), Header::Create(is)) => {
                    &&& is.chain == was.chain
                    &&& is.entry_type == was.entry_type
                },
                (Header::Update(was), Header::Update(is)) => {
                    &&& is.chain == was.chain
                    &&& is.entry_type == was.entry_type
                    &&& is.original_header_address == was.original_header_address
                    &&& is.original_entry_address == was.original_entry_address
                },
                (was, is) => is == was && !(was is Create) && !(was is Update),
            }
            &&& data.entry_update_header.chain == fixtures.entry_update_header.chain
            &&& data.entry_update_header.entry_type == fixtures.entry_update_header.entry_type
            &&& data.entry_update_header.original_entry_address
                == fixtures.entry_update_header.original_entry_address
            &&& data.entry_update_entry.chain == fixtures.entry_update_entry.chain
            &&& data.entry_update_entry.entry_type == fixtures.entry_update_entry.entry_type
            &&& data.entry_delete.chain == fixtures.entry_delete.chain
            &&& data.entry_delete.deletes_entry_address
                == fixtures.entry_delete.deletes_entry_address
            &&& data.link_add.chain == fixtures.link_add.chain
            &&& data.link_add.zome_id == fixtures.zome_id
            &&& data.link_add.tag == fixtures.tag
            &&& data.link_remove.chain == fixtures.link_remove.chain
        }),
{
}

} // verus!
