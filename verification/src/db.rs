//! States of the database: how to bring one about, and how to tell whether it holds.

use vstd::prelude::*;

use crate::address::{AnyDhtHash, DhtOpHash, EntryHash, HeaderHash, Timestamp};
use crate::content::{Entry, Signature};
use crate::env::{Env, Mutation, Tables, ValidationStatus, AWAITING_INTEGRATION};
use crate::hasher::{Addresses, ContentHasher};
use crate::header::{CreateLink, Header};
use crate::op::{DhtOp, DhtOpHashed};
use crate::query::{ElementQuery, GetLinksQuery, Link, OpQuery};

verus! {

/// Something that can be said of the database.
#[derive(Debug, PartialEq, Eq, Hash)]
pub enum Db {
    /// The operation is integrated.
    Integrated(DhtOp),
    /// No operation is integrated.
    IntegratedEmpty,
    /// The operation waits to be integrated.
    IntQueue(DhtOp),
    /// Every operation is integrated.
    IntQueueEmpty,
    /// The header is stored.
    CasHeader(Header, Option<Signature>),
    /// The entry is stored.
    CasEntry(Entry, Option<Header>, Option<Signature>),
    /// There is no metadata, because no operation is integrated.
    MetaEmpty,
    /// The header is metadata on the entry that it brought.
    MetaHeader(Entry, Header),
    /// The header is metadata on its author.
    MetaActivity(Header),
    /// The header is metadata on the address that it updates.
    MetaUpdate(AnyDhtHash, Header),
    /// Some delete of the first header is registered with that header's entry, or the second
    /// header is registered as a delete with a header.
    MetaDelete(HeaderHash, Header),
    /// The link, and no other like it, leads to the target.
    MetaLink(CreateLink, EntryHash),
    /// There is no link like this one.
    MetaLinkEmpty(CreateLink),
}

impl Clone for Db {
    fn clone(&self) -> (res: Self)
        ensures
            res == *self,
    {
        match self {
            Db::Integrated(op) => Db::Integrated(op.clone()),
            Db::IntegratedEmpty => Db::IntegratedEmpty,
            Db::IntQueue(op) => Db::IntQueue(op.clone()),
            Db::IntQueueEmpty => Db::IntQueueEmpty,
            Db::CasHeader(header, signature) => Db::CasHeader(header.clone(), *signature),
            Db::CasEntry(entry, header, signature) => {
                let header = match header {
                    Some(header) => Some(header.clone()),
                    None => None,
                };
                Db::CasEntry(entry.clone(), header, *signature)
            },
            Db::MetaEmpty => Db::MetaEmpty,
            Db::MetaHeader(entry, header) => Db::MetaHeader(entry.clone(), header.clone()),
            Db::MetaActivity(header) => Db::MetaActivity(header.clone()),
            Db::MetaUpdate(base, header) => Db::MetaUpdate(*base, header.clone()),
            Db::MetaDelete(deleted, header) => Db::MetaDelete(*deleted, header.clone()),
            Db::MetaLink(link_add, target) => Db::MetaLink(link_add.clone(), *target),
            Db::MetaLinkEmpty(link_add) => Db::MetaLinkEmpty(link_add.clone()),
        }
    }
}

/// In what way the database differs from what was said of it.
#[derive(Clone, Copy, Debug, PartialEq, Eq, Structural, Hash)]
pub enum Failure {
    /// What should be there is not.
    Missing,
    /// What should be empty is not.
    NotEmpty,
    /// There are too many links or too few.
    LinkCount,
    /// The link was created by another header.
    LinkAddress,
    /// The link leads elsewhere.
    LinkTarget,
    /// The link has another tag.
    LinkTag,
}

/// Which of several expectations is the first that fails, and how.
#[derive(Clone, Copy, Debug, PartialEq, Eq, Structural, Hash)]
pub struct CheckError {
    pub index: usize,
    pub failure: Failure,
}

/// `Missing`, unless it was found.
pub open spec fn unless_found(found: bool) -> Option<Failure> {
    if found {
        None
    } else {
        Some(Failure::Missing)
    }
}

/// `NotEmpty`, if anything was found.
pub open spec fn if_found(found: bool) -> Option<Failure> {
    if found {
        Some(Failure::NotEmpty)
    } else {
        None
    }
}

impl Db {
    /// The state can be brought about by `set`.
    pub open spec fn settable(self) -> bool {
        self is Integrated || self is IntQueue
    }

    pub open spec fn spec_links_query(self) -> Option<GetLinksQuery> {
        match self {
            Db::MetaLink(link, _) | Db::MetaLinkEmpty(link) => Some(
                GetLinksQuery {
                    base: link.base_address,
                    zome_id: link.zome_id,
                    tag: Some(link.tag),
                },
            ),
            _ => None,
        }
    }

    /// The writes that bring the state about, where `now` is the time of integration.
    pub open spec fn spec_mutations(self, now: Timestamp, at: Addresses) -> Seq<Mutation>
        recommends
            self.settable(),
    {
        match self {
            Db::Integrated(op) => {
                let hash = (at.op)(op);
                seq![
                    Mutation::InsertOp(DhtOpHashed { content: op, hash }, false),
                    Mutation::SetWhenIntegrated(hash, now),
                    Mutation::SetValidationStatus(hash, ValidationStatus::Valid),
                ]
            },
            Db::IntQueue(op) => {
                let hash = (at.op)(op);
                seq![
                    Mutation::InsertOp(DhtOpHashed { content: op, hash }, false),
                    Mutation::SetValidationStage(hash, AWAITING_INTEGRATION),
                    Mutation::SetValidationStatus(hash, ValidationStatus::Valid),
                ]
            },
            _ => Seq::empty(),
        }
    }

    /// In what way the database differs from the state, if it does. `links` is what the question
    /// of `links_query` was answered.
    pub open spec fn spec_failure(self, db: Tables, links: Seq<Link>, at: Addresses) -> Option<
        Failure,
    > {
        match self {
            Db::Integrated(op) => unless_found(
                db.any_op(OpQuery::Integrated { hash: (at.op)(op) }),
            ),
            Db::IntQueue(op) => unless_found(
                db.any_op(OpQuery::AwaitingIntegration { hash: (at.op)(op) }),
            ),
            Db::CasHeader(header, _) => unless_found(
                db.any_op(OpQuery::StoredHeader { header: (at.header)(header) }),
            ),
            Db::CasEntry(entry, _, _) => unless_found(
                db.any_element(
                    ElementQuery::StoredEntry {
                        entry: (at.entry)(entry),
                        basis: AnyDhtHash::Entry((at.entry)(entry)),
                    },
                ),
            ),
            Db::MetaHeader(entry, header) => unless_found(
                db.any_op(
                    OpQuery::EntryHeader {
                        basis: AnyDhtHash::Entry((at.entry)(entry)),
                        header: (at.header)(header),
                    },
                ),
            ),
            Db::MetaActivity(header) => unless_found(
                db.any_op(
                    OpQuery::Activity {
                        basis: AnyDhtHash::Agent(header.spec_author()),
                        header: (at.header)(header),
                    },
                ),
            ),
            Db::MetaUpdate(base, header) => unless_found(
                db.any_op(OpQuery::UpdateOf { basis: base, header: (at.header)(header) }),
            ),
            Db::MetaDelete(deleted, header) => unless_found(
                db.any_element(ElementQuery::DeleteOf { deleted, header: (at.header)(header) }),
            ),
            Db::IntegratedEmpty => if_found(db.any_op(OpQuery::AnyIntegrated)),
            Db::IntQueueEmpty => if_found(db.any_op(OpQuery::AnyNotIntegrated)),
            Db::MetaEmpty => if_found(db.any_op(OpQuery::AnyIntegrated)),
            Db::MetaLink(link_add, target) => {
                if links.len() != 1 {
                    Some(Failure::LinkCount)
                } else if links[0].create_link_hash != (at.header)(Header::CreateLink(link_add)) {
                    Some(Failure::LinkAddress)
                } else if links[0].target != target {
                    Some(Failure::LinkTarget)
                } else if links[0].tag@ != link_add.tag@ {
                    Some(Failure::LinkTag)
                } else {
                    None
                }
            },
            Db::MetaLinkEmpty(_) => {
                if links.len() != 0 {
                    Some(Failure::LinkCount)
                } else {
                    None
                }
            },
        }
    }
}

/// The writes that bring several states about, one after the other; `clock[i]` is the time at
/// which the `i`th is.
pub open spec fn plan(states: Seq<Db>, clock: Seq<Timestamp>, at: Addresses) -> Seq<Mutation>
    decreases states.len(),
{
    if states.len() == 0 {
        Seq::empty()
    } else {
        plan(states.drop_last(), clock, at) + states.last().spec_mutations(
            clock[states.len() - 1],
            at,
        )
    }
}

/// Every one of the expectations holds.
pub open spec fn all_hold(
    expects: Seq<Db>,
    db: Tables,
    links: Seq<Vec<Link>>,
    at: Addresses,
) -> bool {
    forall|i: int|
        0 <= i < expects.len() ==> (#[trigger] expects[i]).spec_failure(db, links[i]@, at) is None
}

/// `error` tells of the first expectation that fails.
pub open spec fn first_failure(
    expects: Seq<Db>,
    db: Tables,
    links: Seq<Vec<Link>>,
    at: Addresses,
    error: CheckError,
) -> bool {
    &&& error.index < expects.len()
    &&& expects[error.index as int].spec_failure(db, links[error.index as int]@, at) == Some(
        error.failure,
    )
    &&& forall|i: int|
        0 <= i < error.index ==> (#[trigger] expects[i]).spec_failure(db, links[i]@, at) is None
}

fn unless(found: bool) -> (failure: Option<Failure>)
    ensures
        failure == unless_found(found),
{
    if found {
        None
    } else {
        Some(Failure::Missing)
    }
}

fn when(found: bool) -> (failure: Option<Failure>)
    ensures
        failure == if_found(found),
{
    if found {
        Some(Failure::NotEmpty)
    } else {
        None
    }
}

impl Db {
    /// Whether `set` can bring the state about.
    pub fn is_settable(&self) -> (settable: bool)
        ensures
            settable == self.settable(),
    {
        match self {
            Db::Integrated(_) => true,
            Db::IntQueue(_) => true,
            _ => false,
        }
    }

    /// The question for links that has to be answered before the state can be judged: the one for
    /// links with the base, the zome and the tag of the link that it speaks of.
    pub fn links_query(&self) -> (query: Option<GetLinksQuery>)
        ensures
            query == self.spec_links_query(),
    {
        match self {
            Db::MetaLink(link, _) => Some(
                GetLinksQuery::new(link.base_address, link.zome_id, Some(link.tag.clone())),
            ),
            Db::MetaLinkEmpty(link) => Some(
                GetLinksQuery::new(link.base_address, link.zome_id, Some(link.tag.clone())),
            ),
            _ => None,
        }
    }

    /// The writes that bring the states about: each operation is stored, as one that another agent
    /// wrote, and marked valid, and it is marked either as integrated or as awaiting integration.
    pub fn mutations<E, H, O>(
        states: &Vec<Db>,
        clock: &Vec<Timestamp>,
        hasher: &ContentHasher<E, H, O>,
    ) -> (mutations: Vec<Mutation>) where
        E: Fn(&Entry) -> EntryHash,
        H: Fn(&Header) -> HeaderHash,
        O: Fn(&DhtOp) -> DhtOpHash,

        requires
            hasher.valid(),
            clock.len() == states.len(),
            forall|i: int| 0 <= i < states.len() ==> (#[trigger] states[i]).settable(),
        ensures
            mutations@ == plan(states@, clock@, hasher@),
    {
        let mut mutations: Vec<Mutation> = Vec::new();
        assert(states@.take(0) =~= Seq::empty());
        for i in 0..states.len()
            invariant
                hasher.valid(),
                clock.len() == states.len(),
                mutations@ == plan(states@.take(i as int), clock@, hasher@),
        {
            let ghost before = mutations@;
            match &states[i] {
                Db::Integrated(op) => {
                    let hash = hasher.op_hash(op);
                    mutations.push(
                        Mutation::InsertOp(DhtOpHashed { content: op.clone(), hash }, false),
                    );
                    mutations.push(Mutation::SetWhenIntegrated(hash, clock[i]));
                    mutations.push(Mutation::SetValidationStatus(hash, ValidationStatus::Valid));
                },
                Db::IntQueue(op) => {
                    let hash = hasher.op_hash(op);
                    mutations.push(
                        Mutation::InsertOp(DhtOpHashed { content: op.clone(), hash }, false),
                    );
                    mutations.push(Mutation::SetValidationStage(hash, AWAITING_INTEGRATION));
                    mutations.push(Mutation::SetValidationStatus(hash, ValidationStatus::Valid));
                },
                _ => {},
            }
            assert(mutations@ =~= before + states[i as int].spec_mutations(
                clock[i as int],
                hasher@,
            ));
            assert(states@.take(i + 1).drop_last() =~= states@.take(i as int));
        }
        assert(states@.take(states.len() as int) =~= states@);
        mutations
    }

    /// Sets the database to the states, in order.
    pub fn set<E, H, O>(
        pre_state: &Vec<Db>,
        env: &mut Env,
        clock: &Vec<Timestamp>,
        hasher: &ContentHasher<E, H, O>,
    ) where
        E: Fn(&Entry) -> EntryHash,
        H: Fn(&Header) -> HeaderHash,
        O: Fn(&DhtOp) -> DhtOpHash,

        requires
            hasher.valid(),
            clock.len() == pre_state.len(),
            forall|i: int| 0 <= i < pre_state.len() ==> (#[trigger] pre_state[i]).settable(),
        ensures
            final(env)@ == old(env)@.apply_all(plan(pre_state@, clock@, hasher@), hasher@),
    {
        let mutations = Db::mutations(pre_state, clock, hasher);
        env.apply_all(&mutations, hasher);
    }

    /// In what way the database differs from the state, if it does. `links` is what the question
    /// of `links_query` was answered; it matters for the two states of links alone.
    pub fn failure<E, H, O>(
        &self,
        env: &Env,
        links: &Vec<Link>,
        hasher: &ContentHasher<E, H, O>,
    ) -> (failure: Option<Failure>) where
        E: Fn(&Entry) -> EntryHash,
        H: Fn(&Header) -> HeaderHash,
        O: Fn(&DhtOp) -> DhtOpHash,

        requires
            hasher.valid(),
        ensures
            failure == self.spec_failure(env@, links@, hasher@),
    {
        match self {
            Db::Integrated(op) => {
                let hash = hasher.op_hash(op);
                unless(env.any_op(&OpQuery::Integrated { hash }))
            },
            Db::IntQueue(op) => {
                let hash = hasher.op_hash(op);
                unless(env.any_op(&OpQuery::AwaitingIntegration { hash }))
            },
            Db::CasHeader(header, _) => {
                let header = hasher.header_hash(header);
                unless(env.any_op(&OpQuery::StoredHeader { header }))
            },
            Db::CasEntry(entry, _, _) => {
                let entry = hasher.entry_hash(entry);
                let basis = AnyDhtHash::Entry(entry);
                unless(env.any_element(&ElementQuery::StoredEntry { entry, basis }))
            },
            Db::MetaHeader(entry, header) => {
                let header = hasher.header_hash(header);
                let basis = AnyDhtHash::Entry(hasher.entry_hash(entry));
                unless(env.any_op(&OpQuery::EntryHeader { basis, header }))
            },
            Db::MetaActivity(header) => {
                let basis = AnyDhtHash::Agent(header.author());
                let header = hasher.header_hash(header);
                unless(env.any_op(&OpQuery::Activity { basis, header }))
            },
            Db::MetaUpdate(base, header) => {
                let header = hasher.header_hash(header);
                unless(env.any_op(&OpQuery::UpdateOf { basis: *base, header }))
            },
            Db::MetaDelete(deleted, header) => {
                let header = hasher.header_hash(header);
                unless(env.any_element(&ElementQuery::DeleteOf { deleted: *deleted, header }))
            },
            Db::IntegratedEmpty => when(env.any_op(&OpQuery::AnyIntegrated)),
            Db::IntQueueEmpty => when(env.any_op(&OpQuery::AnyNotIntegrated)),
            Db::MetaEmpty => when(env.any_op(&OpQuery::AnyIntegrated)),
            Db::MetaLink(link_add, target) => {
                let link_add_hash = hasher.header_hash(&Header::CreateLink(link_add.clone()));
                if links.len() != 1 {
                    Some(Failure::LinkCount)
                } else if links[0].create_link_hash != link_add_hash {
                    Some(Failure::LinkAddress)
                } else if links[0].target != *target {
                    Some(Failure::LinkTarget)
                } else if !links[0].tag.0.same_bytes(&link_add.tag.0) {
                    Some(Failure::LinkTag)
                } else {
                    None
                }
            },
            Db::MetaLinkEmpty(_) => {
                if links.len() != 0 {
                    Some(Failure::LinkCount)
                } else {
                    None
                }
            },
        }
    }

    /// Checks that the database is in every one of the states; tells of the first that it is not
    /// in. `links[i]` is what the question of the `i`th state's `links_query` was answered.
    pub fn check<E, H, O>(
        expects: &Vec<Db>,
        env: &Env,
        links: &Vec<Vec<Link>>,
        hasher: &ContentHasher<E, H, O>,
    ) -> (res: Result<(), CheckError>) where
        E: Fn(&Entry) -> EntryHash,
        H: Fn(&Header) -> HeaderHash,
        O: Fn(&DhtOp) -> DhtOpHash,

        requires
            hasher.valid(),
            links.len() == expects.len(),
        ensures
            res is Ok <==> all_hold(expects@, env@, links@, hasher@),
            res matches Err(error) ==> first_failure(expects@, env@, links@, hasher@, error),
    {
        for i in 0..expects.len()
            invariant
                hasher.valid(),
                links.len() == expects.len(),
                forall|j: int|
                    0 <= j < i ==> (#[trigger] expects@[j]).spec_failure(
                        env@,
                        links@[j]@,
                        hasher@,
                    ) is None,
        {
            match expects[i].failure(env, &links[i], hasher) {
                Some(failure) => {
                    assert(expects@[i as int].spec_failure(env@, links@[i as int]@, hasher@) is Some);
                    return Err(CheckError { index: i, failure });
                },
                None => {},
            }
        }
        Ok(())
    }
}

/// Clears the data of an earlier use from the database.
pub fn clear_dbs(env: &mut Env)
    ensures
        final(env)@ == Tables::empty(),
{
    env.dht_ops.clear();
    env.headers.clear();
    env.entries.clear();
}

} // verus!
