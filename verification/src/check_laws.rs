//! What a check finds: which rows make a state hold, and how several states are judged.

use vstd::prelude::*;

use crate::address::{AnyDhtHash, EntryHash, HeaderHash};
use crate::content::{Entry, Signature};
use crate::db::{all_hold, first_failure, CheckError, Db, Failure};
use crate::env::{Tables, ValidationStatus};
use crate::hasher::Addresses;
use crate::header::{CreateLink, Header};
use crate::op::{DhtOp, DhtOpType};
use crate::query::{Link, OpQuery};

verus! {

/// An operation is integrated exactly if a row under its own address has a time of integration and
/// is valid. Otherwise it is missing.
pub proof fn law_integrated_op_has_a_row(db: Tables, op: DhtOp, links: Seq<Link>, at: Addresses)
    ensures
        Db::Integrated(op).spec_failure(db, links, at) is None <==> exists|i: int|
            0 <= i < db.dht_ops.len() && {
                let row = #[trigger] db.dht_ops[i];
                &&& row.hash == (at.op)(op)
                &&& row.when_integrated is Some
                &&& row.validation_status == Some(ValidationStatus::Valid)
            },
        Db::Integrated(op).spec_failure(db, links, at) matches Some(failure) ==> failure
            == Failure::Missing,
{
}

/// An operation waits to be integrated exactly if a row under its own address has no time of
/// integration, is valid, and has come to the third stage. Otherwise it is missing.
pub proof fn law_queued_op_has_a_row(db: Tables, op: DhtOp, links: Seq<Link>, at: Addresses)
    ensures
        Db::IntQueue(op).spec_failure(db, links, at) is None <==> exists|i: int|
            0 <= i < db.dht_ops.len() && {
                let row = #[trigger] db.dht_ops[i];
                &&& row.hash == (at.op)(op)
                &&& row.when_integrated is None
                &&& row.validation_stage == Some(3u8)
                &&& row.validation_status == Some(ValidationStatus::Valid)
            },
        Db::IntQueue(op).spec_failure(db, links, at) matches Some(failure) ==> failure
            == Failure::Missing,
{
}

/// A header is stored exactly if a valid, integrated operation that stores an element or an entry
/// has the address of that very header. Otherwise it is missing. The signature plays no part.
pub proof fn law_stored_header_has_a_row(
    db: Tables,
    header: Header,
    signature: Option<Signature>,
    links: Seq<Link>,
    at: Addresses,
)
    ensures
        Db::CasHeader(header, signature).spec_failure(db, links, at) is None <==> exists|i: int|
            0 <= i < db.dht_ops.len() && {
                let row = #[trigger] db.dht_ops[i];
                &&& row.header_hash == (at.header)(header)
                &&& row.when_integrated is Some
                &&& row.validation_status == Some(ValidationStatus::Valid)
                &&& row.op_type == DhtOpType::StoreElement || row.op_type == DhtOpType::StoreEntry
            },
        Db::CasHeader(header, signature).spec_failure(db, links, at) matches Some(failure)
            ==> failure == Failure::Missing,
{
}

/// An entry is stored exactly if there is a valid, integrated operation whose header is stored too,
/// and which either stores an element whose header names that very entry, or stores an entry and
/// has that entry's address as its basis. Otherwise it is missing. The header and the signature
/// play no part.
pub proof fn law_stored_entry_has_a_row(
    db: Tables,
    entry: Entry,
    header: Option<Header>,
    signature: Option<Signature>,
    links: Seq<Link>,
    at: Addresses,
)
    ensures
        Db::CasEntry(entry, header, signature).spec_failure(db, links, at) is None <==> exists|
            i: int,
            j: int,
        |
            0 <= i < db.dht_ops.len() && 0 <= j < db.headers.len() && {
                let row = #[trigger] db.dht_ops[i];
                let header_row = #[trigger] db.headers[j];
                &&& row.header_hash == header_row.hash
                &&& row.when_integrated is Some
                &&& row.validation_status == Some(ValidationStatus::Valid)
                &&& {
                    ||| row.op_type == DhtOpType::StoreElement && header_row.entry_hash == Some(
                        (at.entry)(entry),
                    )
                    ||| row.op_type == DhtOpType::StoreEntry && row.basis_hash
                        == AnyDhtHash::Entry((at.entry)(entry))
                }
            },
        Db::CasEntry(entry, header, signature).spec_failure(db, links, at) matches Some(failure)
            ==> failure == Failure::Missing,
{
}

/// A header is metadata on an entry exactly if a valid, integrated operation that stores an entry
/// has the entry's address as its basis and the address of that very header. Otherwise it is
/// missing.
pub proof fn law_entry_header_has_a_row(
    db: Tables,
    entry: Entry,
    header: Header,
    links: Seq<Link>,
    at: Addresses,
)
    ensures
        Db::MetaHeader(entry, header).spec_failure(db, links, at) is None <==> exists|i: int|
            0 <= i < db.dht_ops.len() && {
                let row = #[trigger] db.dht_ops[i];
                &&& row.basis_hash == AnyDhtHash::Entry((at.entry)(entry))
                &&& row.header_hash == (at.header)(header)
                &&& row.when_integrated is Some
                &&& row.validation_status == Some(ValidationStatus::Valid)
                &&& row.op_type == DhtOpType::StoreEntry
            },
        Db::MetaHeader(entry, header).spec_failure(db, links, at) matches Some(failure) ==> failure
            == Failure::Missing,
{
}

/// A header is metadata on its author exactly if a valid, integrated operation that registers
/// activity has as its basis the agent that the header names as its author, and the address of
/// that very header. Otherwise it is missing.
pub proof fn law_activity_has_a_row(db: Tables, header: Header, links: Seq<Link>, at: Addresses)
    ensures
        Db::MetaActivity(header).spec_failure(db, links, at) is None <==> exists|i: int|
            0 <= i < db.dht_ops.len() && {
                let row = #[trigger] db.dht_ops[i];
                &&& row.basis_hash == match header {
                    Header::Dna(h) => AnyDhtHash::Agent(h.author),
                    Header::AgentValidationPkg(h) => AnyDhtHash::Agent(h.chain.author),
                    Header::InitZomesComplete(h) => AnyDhtHash::Agent(h.chain.author),
                    Header::CreateLink(h) => AnyDhtHash::Agent(h.chain.author),
                    Header::DeleteLink(h) => AnyDhtHash::Agent(h.chain.author),
                    Header::OpenChain(h) => AnyDhtHash::Agent(h.chain.author),
                    Header::CloseChain(h) => AnyDhtHash::Agent(h.chain.author),
                    Header::Create(h) => AnyDhtHash::Agent(h.chain.author),
                    Header::Update(h) => AnyDhtHash::Agent(h.chain.author),
                    Header::Delete(h) => AnyDhtHash::Agent(h.chain.author),
                }
                &&& row.header_hash == (at.header)(header)
                &&& row.when_integrated is Some
                &&& row.validation_status == Some(ValidationStatus::Valid)
                &&& row.op_type == DhtOpType::RegisterAgentActivity
            },
        Db::MetaActivity(header).spec_failure(db, links, at) matches Some(failure) ==> failure
            == Failure::Missing,
{
}

/// A header is metadata on an address as an update exactly if a valid, integrated operation that
/// registers an update has that address as its basis and the address of that very header.
/// Otherwise it is missing.
pub proof fn law_update_has_a_row(
    db: Tables,
    base: AnyDhtHash,
    header: Header,
    links: Seq<Link>,
    at: Addresses,
)
    ensures
        Db::MetaUpdate(base, header).spec_failure(db, links, at) is None <==> exists|i: int|
            0 <= i < db.dht_ops.len() && {
                let row = #[trigger] db.dht_ops[i];
                &&& row.basis_hash == base
                &&& row.header_hash == (at.header)(header)
                &&& row.when_integrated is Some
                &&& row.validation_status == Some(ValidationStatus::Valid)
                &&& row.op_type == DhtOpType::RegisterUpdatedContent || row.op_type
                    == DhtOpType::RegisterUpdatedElement
            },
        Db::MetaUpdate(base, header).spec_failure(db, links, at) matches Some(failure) ==> failure
            == Failure::Missing,
{
}

/// A delete is found exactly if there is a valid, integrated operation whose header is stored too,
/// and which either registers a delete with an entry, where the stored header deletes the given
/// one, or registers with a header the very delete that is given. Otherwise it is missing.
pub proof fn law_delete_has_a_row(
    db: Tables,
    deleted: HeaderHash,
    header: Header,
    links: Seq<Link>,
    at: Addresses,
)
    ensures
        Db::MetaDelete(deleted, header).spec_failure(db, links, at) is None <==> exists|
            i: int,
            j: int,
        |
            0 <= i < db.dht_ops.len() && 0 <= j < db.headers.len() && {
                let row = #[trigger] db.dht_ops[i];
                let header_row = #[trigger] db.headers[j];
                &&& row.header_hash == header_row.hash
                &&& row.when_integrated is Some
                &&& row.validation_status == Some(ValidationStatus::Valid)
                &&& {
                    ||| row.op_type == DhtOpType::RegisterDeletedEntryHeader
                        && header_row.deletes_header_hash == Some(deleted)
                    ||| row.op_type == DhtOpType::RegisterDeletedBy && row.header_hash
                        == (at.header)(header)
                }
            },
        Db::MetaDelete(deleted, header).spec_failure(db, links, at) matches Some(failure)
            ==> failure == Failure::Missing,
{
}

/// The states of emptiness hold exactly if no row has a time of integration, or if every row has
/// one, whatever else the rows say. Otherwise something is there that should not be.
pub proof fn law_emptiness_is_of_all_rows(db: Tables, links: Seq<Link>, at: Addresses)
    ensures
        Db::IntegratedEmpty.spec_failure(db, links, at) is None <==> forall|i: int|
            0 <= i < db.dht_ops.len() ==> (#[trigger] db.dht_ops[i]).when_integrated is None,
        Db::MetaEmpty.spec_failure(db, links, at) is None <==> forall|i: int|
            0 <= i < db.dht_ops.len() ==> (#[trigger] db.dht_ops[i]).when_integrated is None,
        Db::IntQueueEmpty.spec_failure(db, links, at) is None <==> forall|i: int|
            0 <= i < db.dht_ops.len() ==> (#[trigger] db.dht_ops[i]).when_integrated is Some,
        Db::IntegratedEmpty.spec_failure(db, links, at) matches Some(failure) ==> failure
            == Failure::NotEmpty,
        Db::MetaEmpty.spec_failure(db, links, at) matches Some(failure) ==> failure
            == Failure::NotEmpty,
        Db::IntQueueEmpty.spec_failure(db, links, at) matches Some(failure) ==> failure
            == Failure::NotEmpty,
{
    assert forall|i: int| 0 <= i < db.dht_ops.len() implies {
        &&& OpQuery::AnyIntegrated.spec_selects(#[trigger] db.dht_ops[i]) <==> db.dht_ops[
            i].when_integrated is Some
        &&& OpQuery::AnyNotIntegrated.spec_selects(db.dht_ops[i]) <==> db.dht_ops[
            i].when_integrated is None
    } by {}
}

/// A link leads to a target exactly if the question for it was answered with one link, created by
/// the link's own header, that leads there and has the link's tag. Where it fails, the count is
/// told before the address, the address before the target, and the target before the tag.
pub proof fn law_link_is_the_one_found(
    db: Tables,
    link_add: CreateLink,
    target: EntryHash,
    links: Seq<Link>,
    at: Addresses,
)
    ensures
        ({
            let failure = Db::MetaLink(link_add, target).spec_failure(db, links, at);
            let right_address = links[0].create_link_hash == (at.header)(
                Header::CreateLink(link_add),
            );
            let right_target = links[0].target == target;
            let right_tag = links[0].tag@ == link_add.tag@;
            &&& failure is None <==> links.len() == 1 && right_address && right_target && right_tag
            &&& failure == Some(Failure::LinkCount) <==> links.len() != 1
            &&& failure == Some(Failure::LinkAddress) <==> links.len() == 1 && !right_address
            &&& failure == Some(Failure::LinkTarget) <==> links.len() == 1 && right_address
                && !right_target
            &&& failure == Some(Failure::LinkTag) <==> links.len() == 1 && right_address
                && right_target && !right_tag
        }),
{
}

/// There is no link like the given one exactly if the question for it was answered with none.
pub proof fn law_no_link_is_found(
    db: Tables,
    link_add: CreateLink,
    links: Seq<Link>,
    at: Addresses,
)
    ensures
        Db::MetaLinkEmpty(link_add).spec_failure(db, links, at) is None <==> links.len() == 0,
        Db::MetaLinkEmpty(link_add).spec_failure(db, links, at) is Some
            ==> Db::MetaLinkEmpty(link_add).spec_failure(db, links, at) == Some(Failure::LinkCount),
{
}

/// Only the states of links need a question answered. Both ask for the links from the link's base,
/// with its zome and its tag, and of one answer they never both hold. They are judged by the
/// answer alone, and all other states by the tables alone.
pub proof fn law_links_are_asked_for(
    state: Db,
    link_add: CreateLink,
    target: EntryHash,
    db: Tables,
    other_db: Tables,
    links: Seq<Link>,
    other_links: Seq<Link>,
    at: Addresses,
)
    ensures
        state.spec_links_query() is Some <==> state is MetaLink || state is MetaLinkEmpty,
        Db::MetaLink(link_add, target).spec_links_query() matches Some(query) && {
            &&& query.base == link_add.base_address
            &&& query.zome_id == link_add.zome_id
            &&& query.tag == Some(link_add.tag)
        },
        Db::MetaLinkEmpty(link_add).spec_links_query() == Db::MetaLink(
            link_add,
            target,
        ).spec_links_query(),
        !(Db::MetaLink(link_add, target).spec_failure(db, links, at) is None && Db::MetaLinkEmpty(
            link_add,
        ).spec_failure(other_db, links, at) is None),
        if state is MetaLink || state is MetaLinkEmpty {
            state.spec_failure(db, links, at) == state.spec_failure(other_db, links, at)
        } else {
            state.spec_failure(db, links, at) == state.spec_failure(db, other_links, at)
        },
{
}

/// Only an operation that is integrated, or one that is queued, can be set.
pub proof fn law_only_operations_are_settable(state: Db)
    ensures
        match state {
            Db::Integrated(_) => state.settable(),
            Db::IntQueue(_) => state.settable(),
            _ => !state.settable(),
        },
{
}

/// Several states hold exactly if each of them does, judged by its own answer for links: none
/// always do, one does as it does alone, and two lists do exactly if the first and the second do.
pub proof fn law_states_are_judged_one_by_one(
    state: Db,
    first: Seq<Db>,
    second: Seq<Db>,
    links: Vec<Link>,
    first_links: Seq<Vec<Link>>,
    second_links: Seq<Vec<Link>>,
    db: Tables,
    at: Addresses,
)
    requires
        first_links.len() == first.len(),
        second_links.len() == second.len(),
    ensures
        all_hold(Seq::empty(), db, Seq::empty(), at),
        all_hold(seq![state], db, seq![links], at) <==> state.spec_failure(db, links@, at) is None,
        all_hold(first + second, db, first_links + second_links, at) <==> all_hold(
            first,
            db,
            first_links,
            at,
        ) && all_hold(second, db, second_links, at),
{
    if state.spec_failure(db, links@, at) is None {
        assert(all_hold(seq![state], db, seq![links], at));
    } else {
        assert(seq![state][0].spec_failure(db, seq![links][0]@, at) is Some);
    }
    let both = first + second;
    let both_links = first_links + second_links;
    assert forall|i: int| 0 <= i < first.len() implies (#[trigger] first[i]).spec_failure(
        db,
        first_links[i]@,
        at,
    ) == both[i].spec_failure(db, both_links[i]@, at) by {}
    assert forall|i: int| 0 <= i < second.len() implies (#[trigger] second[i]).spec_failure(
        db,
        second_links[i]@,
        at,
    ) == both[i + first.len()].spec_failure(db, both_links[i + first.len()]@, at) by {}
}

/// What a check tells of is the first state that fails, with its own failure: all states before it
/// hold, it does not, and there is no other answer. It tells of one only where not all hold.
pub proof fn law_first_failure_is_told(
    expects: Seq<Db>,
    db: Tables,
    links: Seq<Vec<Link>>,
    error: CheckError,
    other: CheckError,
    at: Addresses,
)
    requires
        links.len() == expects.len(),
        first_failure(expects, db, links, at, error),
    ensures
        error.index < expects.len(),
        all_hold(expects.take(error.index as int), db, links.take(error.index as int), at),
        expects[error.index as int].spec_failure(db, links[error.index as int]@, at) == Some(
            error.failure,
        ),
        !all_hold(expects, db, links, at),
        first_failure(expects, db, links, at, other) ==> other == error,
{
    let before = expects.take(error.index as int);
    let links_before = links.take(error.index as int);
    assert forall|i: int| 0 <= i < before.len() implies (#[trigger] before[i]).spec_failure(
        db,
        links_before[i]@,
        at,
    ) is None by {
        assert(before[i] == expects[i]);
    }
}

} // verus!
