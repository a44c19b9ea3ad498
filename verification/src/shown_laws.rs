//! What shows of one integrated operation: what a check finds in a database that was set to it, and
//! what it does not.

use vstd::prelude::*;

use crate::address::{AnyDhtHash, HeaderHash, Timestamp};
use crate::content::{Entry, Signature};
use crate::db::Db;
use crate::env::Tables;
use crate::hasher::Addresses;
use crate::header::{Header, NewEntryHeader};
use crate::laws::set_states;
use crate::op::DhtOp;
use crate::query::{ElementQuery, Link, OpQuery};
use crate::store_laws::lemma_alone;

verus! {

/// Of operations, the integrated one is found, and any other that has its address; none is queued.
/// The other way round, the queued one is found, and none is integrated.
pub proof fn law_one_op_is_found(
    op: DhtOp,
    other: DhtOp,
    clock: Seq<Timestamp>,
    links: Seq<Link>,
    at: Addresses,
)
    ensures
        ({
            let db = set_states(Tables::empty(), seq![Db::Integrated(op)], clock, at);
            &&& Db::Integrated(other).spec_failure(db, links, at) is None <==> (at.op)(other)
                == (at.op)(op)
            &&& Db::IntQueue(other).spec_failure(db, links, at) is Some
            &&& Db::IntQueueEmpty.spec_failure(db, links, at) is None
            &&& Db::IntegratedEmpty.spec_failure(db, links, at) is Some
            &&& Db::MetaEmpty.spec_failure(db, links, at) is Some
        }),
        ({
            let db = set_states(Tables::empty(), seq![Db::IntQueue(op)], clock, at);
            &&& Db::IntQueue(other).spec_failure(db, links, at) is None <==> (at.op)(other)
                == (at.op)(op)
            &&& Db::Integrated(other).spec_failure(db, links, at) is Some
            &&& Db::IntQueueEmpty.spec_failure(db, links, at) is Some
            &&& Db::IntegratedEmpty.spec_failure(db, links, at) is None
            &&& Db::MetaEmpty.spec_failure(db, links, at) is None
        }),
{
    let db = set_states(Tables::empty(), seq![Db::Integrated(op)], clock, at);
    lemma_alone(Db::Integrated(op), clock, at);
    assert(OpQuery::Integrated { hash: (at.op)(op) }.spec_selects(db.dht_ops[0]));
    assert(OpQuery::AnyIntegrated.spec_selects(db.dht_ops[0]));
    let db = set_states(Tables::empty(), seq![Db::IntQueue(op)], clock, at);
    lemma_alone(Db::IntQueue(op), clock, at);
    assert(OpQuery::AwaitingIntegration { hash: (at.op)(op) }.spec_selects(db.dht_ops[0]));
    assert(OpQuery::AnyNotIntegrated.spec_selects(db.dht_ops[0]));
}

/// A header is found stored exactly if the operation stores an element or an entry, and the header
/// has the address of the operation's own.
pub proof fn law_only_its_own_header_is_found(
    op: DhtOp,
    header: Header,
    signature: Option<Signature>,
    clock: Seq<Timestamp>,
    links: Seq<Link>,
    at: Addresses,
)
    ensures
        Db::CasHeader(header, signature).spec_failure(
            set_states(Tables::empty(), seq![Db::Integrated(op)], clock, at),
            links,
            at,
        ) is None <==> match op {
            DhtOp::StoreElement(_, own, _) => (at.header)(header) == (at.header)(own),
            DhtOp::StoreEntry(_, NewEntryHeader::Create(own), _) => (at.header)(header)
                == (at.header)(Header::Create(own)),
            DhtOp::StoreEntry(_, NewEntryHeader::Update(own), _) => (at.header)(header)
                == (at.header)(Header::Update(own)),
            _ => false,
        },
{
    let db = set_states(Tables::empty(), seq![Db::Integrated(op)], clock, at);
    lemma_alone(Db::Integrated(op), clock, at);
    let query = OpQuery::StoredHeader { header: (at.header)(header) };
    assert(db.any_op(query) <==> query.spec_selects(db.dht_ops[0]));
}

/// An entry is found stored exactly if the operation stores an element or an entry, and its header
/// names that entry's address.
pub proof fn law_only_its_own_entry_is_found(
    op: DhtOp,
    entry: Entry,
    header: Option<Header>,
    signature: Option<Signature>,
    clock: Seq<Timestamp>,
    links: Seq<Link>,
    at: Addresses,
)
    ensures
        Db::CasEntry(entry, header, signature).spec_failure(
            set_states(Tables::empty(), seq![Db::Integrated(op)], clock, at),
            links,
            at,
        ) is None <==> match op {
            DhtOp::StoreElement(_, Header::Create(own), _) => own.entry_hash == (at.entry)(entry),
            DhtOp::StoreElement(_, Header::Update(own), _) => own.entry_hash == (at.entry)(entry),
            DhtOp::StoreEntry(_, NewEntryHeader::Create(own), _) => own.entry_hash == (at.entry)(
                entry,
            ),
            DhtOp::StoreEntry(_, NewEntryHeader::Update(own), _) => own.entry_hash == (at.entry)(
                entry,
            ),
            _ => false,
        },
{
    let db = set_states(Tables::empty(), seq![Db::Integrated(op)], clock, at);
    lemma_alone(Db::Integrated(op), clock, at);
    let query = ElementQuery::StoredEntry {
        entry: (at.entry)(entry),
        basis: AnyDhtHash::Entry((at.entry)(entry)),
    };
    assert(db.any_element(query) <==> query.spec_selects(db.dht_ops[0], db.headers[0]));
}

/// A header is found as metadata on an entry exactly if the operation stores an entry, its header
/// names that entry's address, and the header has the address of the operation's own.
pub proof fn law_only_its_own_entry_header_is_found(
    op: DhtOp,
    entry: Entry,
    header: Header,
    clock: Seq<Timestamp>,
    links: Seq<Link>,
    at: Addresses,
)
    ensures
        Db::MetaHeader(entry, header).spec_failure(
            set_states(Tables::empty(), seq![Db::Integrated(op)], clock, at),
            links,
            at,
        ) is None <==> match op {
            DhtOp::StoreEntry(_, NewEntryHeader::Create(own), _) => own.entry_hash == (at.entry)(
                entry,
            ) && (at.header)(header) == (at.header)(Header::Create(own)),
            DhtOp::StoreEntry(_, NewEntryHeader::Update(own), _) => own.entry_hash == (at.entry)(
                entry,
            ) && (at.header)(header) == (at.header)(Header::Update(own)),
            _ => false,
        },
{
    let db = set_states(Tables::empty(), seq![Db::Integrated(op)], clock, at);
    lemma_alone(Db::Integrated(op), clock, at);
    let query = OpQuery::EntryHeader {
        basis: AnyDhtHash::Entry((at.entry)(entry)),
        header: (at.header)(header),
    };
    assert(db.any_op(query) <==> query.spec_selects(db.dht_ops[0]));
}

/// Activity is found exactly if the operation registers it, the header has the address of the
/// operation's own, and both have the same author. So a header's own activity is always found.
pub proof fn law_only_its_own_activity_is_found(
    op: DhtOp,
    header: Header,
    clock: Seq<Timestamp>,
    links: Seq<Link>,
    at: Addresses,
)
    ensures
        Db::MetaActivity(header).spec_failure(
            set_states(Tables::empty(), seq![Db::Integrated(op)], clock, at),
            links,
            at,
        ) is None <==> match op {
            DhtOp::RegisterAgentActivity(_, own) => (at.header)(header) == (at.header)(own)
                && header.spec_author() == own.spec_author(),
            _ => false,
        },
{
    let db = set_states(Tables::empty(), seq![Db::Integrated(op)], clock, at);
    lemma_alone(Db::Integrated(op), clock, at);
    let query = OpQuery::Activity {
        basis: AnyDhtHash::Agent(header.spec_author()),
        header: (at.header)(header),
    };
    assert(db.any_op(query) <==> query.spec_selects(db.dht_ops[0]));
}

/// An update is found exactly if the operation registers one, the header has the address of the
/// operation's own, and the address asked for is the one that the operation is registered with.
pub proof fn law_only_its_own_update_is_found(
    op: DhtOp,
    base: AnyDhtHash,
    header: Header,
    clock: Seq<Timestamp>,
    links: Seq<Link>,
    at: Addresses,
)
    ensures
        Db::MetaUpdate(base, header).spec_failure(
            set_states(Tables::empty(), seq![Db::Integrated(op)], clock, at),
            links,
            at,
        ) is None <==> match op {
            DhtOp::RegisterUpdatedContent(_, own, _) => (at.header)(header) == (at.header)(
                Header::Update(own),
            ) && base == AnyDhtHash::Entry(own.original_entry_address),
            DhtOp::RegisterUpdatedElement(_, own, _) => (at.header)(header) == (at.header)(
                Header::Update(own),
            ) && base == AnyDhtHash::Header(own.original_header_address),
            _ => false,
        },
{
    let db = set_states(Tables::empty(), seq![Db::Integrated(op)], clock, at);
    lemma_alone(Db::Integrated(op), clock, at);
    let query = OpQuery::UpdateOf { basis: base, header: (at.header)(header) };
    assert(db.any_op(query) <==> query.spec_selects(db.dht_ops[0]));
}

/// A delete is found exactly if the operation registers one: with an entry, where it deletes the
/// header asked for, or with a header, where the delete asked for has its address.
pub proof fn law_only_its_own_delete_is_found(
    op: DhtOp,
    deleted: HeaderHash,
    header: Header,
    clock: Seq<Timestamp>,
    links: Seq<Link>,
    at: Addresses,
)
    ensures
        Db::MetaDelete(deleted, header).spec_failure(
            set_states(Tables::empty(), seq![Db::Integrated(op)], clock, at),
            links,
            at,
        ) is None <==> match op {
            DhtOp::RegisterDeletedEntryHeader(_, own) => deleted == own.deletes_address,
            DhtOp::RegisterDeletedBy(_, own) => (at.header)(header) == (at.header)(
                Header::Delete(own),
            ),
            _ => false,
        },
{
    let db = set_states(Tables::empty(), seq![Db::Integrated(op)], clock, at);
    lemma_alone(Db::Integrated(op), clock, at);
    let query = ElementQuery::DeleteOf { deleted, header: (at.header)(header) };
    assert(db.any_element(query) <==> query.spec_selects(db.dht_ops[0], db.headers[0]));
}

} // verus!
