//! What each scenario sets up, what a database has to hold to meet it, and when playing it
//! succeeds.

use vstd::prelude::*;

use crate::address::{AnyDhtHash, Timestamp};
use crate::db::{all_hold, Db};
use crate::env::{Mutation, Tables};
use crate::hasher::Addresses;
use crate::header::{Header, NewEntryHeader};
use crate::laws::{follows_from, outcome};
use crate::op::DhtOp;
use crate::play::{as_expected, queued_op};
use crate::query::Link;
use crate::scenarios::{
    register_add_link, register_agent_activity, register_delete_link,
    register_delete_link_missing_base, register_deleted_by, register_deleted_header_by,
    register_replaced_by_for_entry, register_updated_element, scenarios, store_element,
    store_entry, Scenario,
};
use crate::test_data::TestData;

verus! {

/// An element whose header brings an entry waits, and is to be integrated: the header and the entry
/// that it was made with have to be found stored.
pub proof fn law_scenario_of_storing_an_element_with_entry(
    a: TestData,
    db: Tables,
    links: Seq<Vec<Link>>,
    at: Addresses,
)
    requires
        a.any_header is Create || a.any_header is Update,
    ensures
        ({
            let states = Scenario::StoreElement.spec_states(a);
            let op = DhtOp::StoreElement(a.signature, a.any_header, Some(a.original_entry));
            &&& Scenario::StoreElement.queued(a) == op
            &&& states.pre_state.len() == 1
            &&& states.pre_state[0] == Db::IntQueue(op)
            &&& states.expect.len() == 3
            &&& states.expect[0] == Db::Integrated(op)
            &&& states.expect[1] == Db::CasHeader(a.any_header, None)
            &&& states.expect[2] == Db::CasEntry(a.original_entry, None, None)
            &&& all_hold(states.expect, db, links, at) <==> {
                &&& Db::Integrated(op).spec_failure(db, links[0]@, at) is None
                &&& Db::CasHeader(a.any_header, None).spec_failure(db, links[1]@, at) is None
                &&& Db::CasEntry(a.original_entry, None, None).spec_failure(
                    db,
                    links[2]@,
                    at,
                ) is None
            }
        }),
{
}

/// An element whose header brings no entry waits, and is to be integrated: the header has to be
/// found stored, and no entry is carried or asked for.
pub proof fn law_scenario_of_storing_an_element_alone(
    a: TestData,
    db: Tables,
    links: Seq<Vec<Link>>,
    at: Addresses,
)
    requires
        !(a.any_header is Create) && !(a.any_header is Update),
    ensures
        ({
            let states = Scenario::StoreElement.spec_states(a);
            let op = DhtOp::StoreElement(a.signature, a.any_header, None);
            &&& Scenario::StoreElement.queued(a) == op
            &&& states.pre_state.len() == 1
            &&& states.pre_state[0] == Db::IntQueue(op)
            &&& states.expect.len() == 2
            &&& states.expect[0] == Db::Integrated(op)
            &&& states.expect[1] == Db::CasHeader(a.any_header, None)
            &&& all_hold(states.expect, db, links, at) <==> {
                &&& Db::Integrated(op).spec_failure(db, links[0]@, at) is None
                &&& Db::CasHeader(a.any_header, None).spec_failure(db, links[1]@, at) is None
            }
        }),
{
}

/// An entry waits, and is to be integrated: its header and the entry have to be found stored, and
/// the header as metadata on the entry.
pub proof fn law_scenario_of_storing_an_entry(
    a: TestData,
    db: Tables,
    links: Seq<Vec<Link>>,
    at: Addresses,
)
    ensures
        ({
            let states = Scenario::StoreEntry.spec_states(a);
            let op = DhtOp::StoreEntry(a.signature, a.original_header, a.original_entry);
            let header = match a.original_header {
                NewEntryHeader::Create(h) => Header::Create(h),
                NewEntryHeader::Update(h) => Header::Update(h),
            };
            &&& Scenario::StoreEntry.queued(a) == op
            &&& states.pre_state.len() == 1
            &&& states.pre_state[0] == Db::IntQueue(op)
            &&& states.expect.len() == 4
            &&& states.expect[0] == Db::Integrated(op)
            &&& states.expect[1] == Db::CasHeader(header, None)
            &&& states.expect[2] == Db::CasEntry(a.original_entry, None, None)
            &&& states.expect[3] == Db::MetaHeader(a.original_entry, header)
            &&& all_hold(states.expect, db, links, at) <==> {
                &&& Db::Integrated(op).spec_failure(db, links[0]@, at) is None
                &&& Db::CasHeader(header, None).spec_failure(db, links[1]@, at) is None
                &&& Db::CasEntry(a.original_entry, None, None).spec_failure(
                    db,
                    links[2]@,
                    at,
                ) is None
                &&& Db::MetaHeader(a.original_entry, header).spec_failure(db, links[3]@, at) is None
            }
        }),
{
}

/// The activity of the first header of a chain waits, and is to be integrated: the header has to be
/// found as metadata on its author.
pub proof fn law_scenario_of_activity(
    a: TestData,
    db: Tables,
    links: Seq<Vec<Link>>,
    at: Addresses,
)
    ensures
        ({
            let states = Scenario::RegisterAgentActivity.spec_states(a);
            let op = DhtOp::RegisterAgentActivity(a.signature, a.dna_header);
            &&& Scenario::RegisterAgentActivity.queued(a) == op
            &&& states.pre_state.len() == 1
            &&& states.pre_state[0] == Db::IntQueue(op)
            &&& states.expect.len() == 2
            &&& states.expect[0] == Db::Integrated(op)
            &&& states.expect[1] == Db::MetaActivity(a.dna_header)
            &&& all_hold(states.expect, db, links, at) <==> {
                &&& Db::Integrated(op).spec_failure(db, links[0]@, at) is None
                &&& Db::MetaActivity(a.dna_header).spec_failure(db, links[1]@, at) is None
            }
        }),
{
}

/// The original entry is stored and its update waits, to be integrated: the update has to be found
/// as metadata on the original entry.
pub proof fn law_scenario_of_replacing_an_entry(
    a: TestData,
    db: Tables,
    links: Seq<Vec<Link>>,
    at: Addresses,
)
    ensures
        ({
            let states = Scenario::RegisterReplacedByForEntry.spec_states(a);
            let original_op = DhtOp::StoreEntry(a.signature, a.original_header, a.original_entry);
            let op = DhtOp::RegisterUpdatedContent(
                a.signature,
                a.entry_update_entry,
                Some(a.new_entry),
            );
            let update = Header::Update(a.entry_update_entry);
            let base = AnyDhtHash::Entry(a.original_entry_hash);
            &&& Scenario::RegisterReplacedByForEntry.queued(a) == op
            &&& states.pre_state.len() == 2
            &&& states.pre_state[0] == Db::Integrated(original_op)
            &&& states.pre_state[1] == Db::IntQueue(op)
            &&& states.expect.len() == 2
            &&& states.expect[0] == Db::Integrated(op)
            &&& states.expect[1] == Db::MetaUpdate(base, update)
            &&& all_hold(states.expect, db, links, at) <==> {
                &&& Db::Integrated(op).spec_failure(db, links[0]@, at) is None
                &&& Db::MetaUpdate(base, update).spec_failure(db, links[1]@, at) is None
            }
        }),
{
}

/// The original element is stored and its update waits, to be integrated: the update has to be
/// found as metadata on the original header.
pub proof fn law_scenario_of_updating_an_element(
    a: TestData,
    db: Tables,
    links: Seq<Vec<Link>>,
    at: Addresses,
)
    ensures
        ({
            let states = Scenario::RegisterUpdatedElement.spec_states(a);
            let header = match a.original_header {
                NewEntryHeader::Create(h) => Header::Create(h),
                NewEntryHeader::Update(h) => Header::Update(h),
            };
            let original_op = DhtOp::StoreElement(a.signature, header, Some(a.original_entry));
            let op = DhtOp::RegisterUpdatedElement(
                a.signature,
                a.entry_update_header,
                Some(a.new_entry),
            );
            let update = Header::Update(a.entry_update_header);
            let base = AnyDhtHash::Header(a.original_header_hash);
            &&& Scenario::RegisterUpdatedElement.queued(a) == op
            &&& states.pre_state.len() == 2
            &&& states.pre_state[0] == Db::Integrated(original_op)
            &&& states.pre_state[1] == Db::IntQueue(op)
            &&& states.expect.len() == 2
            &&& states.expect[0] == Db::Integrated(op)
            &&& states.expect[1] == Db::MetaUpdate(base, update)
            &&& all_hold(states.expect, db, links, at) <==> {
                &&& Db::Integrated(op).spec_failure(db, links[0]@, at) is None
                &&& Db::MetaUpdate(base, update).spec_failure(db, links[1]@, at) is None
            }
        }),
{
}

/// The original entry is stored and a delete of its header waits with the entry, to be integrated:
/// the queue has to be empty, and the delete has to be found.
pub proof fn law_scenario_of_deleting_from_an_entry(
    a: TestData,
    db: Tables,
    links: Seq<Vec<Link>>,
    at: Addresses,
)
    ensures
        ({
            let states = Scenario::RegisterDeletedBy.spec_states(a);
            let original_op = DhtOp::StoreEntry(a.signature, a.original_header, a.original_entry);
            let op = DhtOp::RegisterDeletedEntryHeader(a.signature, a.entry_delete);
            let delete = Header::Delete(a.entry_delete);
            &&& Scenario::RegisterDeletedBy.queued(a) == op
            &&& states.pre_state.len() == 2
            &&& states.pre_state[0] == Db::Integrated(original_op)
            &&& states.pre_state[1] == Db::IntQueue(op)
            &&& states.expect.len() == 3
            &&& states.expect[0] == Db::IntQueueEmpty
            &&& states.expect[1] == Db::Integrated(op)
            &&& states.expect[2] == Db::MetaDelete(a.original_header_hash, delete)
            &&& all_hold(states.expect, db, links, at) <==> {
                &&& Db::IntQueueEmpty.spec_failure(db, links[0]@, at) is None
                &&& Db::Integrated(op).spec_failure(db, links[1]@, at) is None
                &&& Db::MetaDelete(a.original_header_hash, delete).spec_failure(
                    db,
                    links[2]@,
                    at,
                ) is None
            }
        }),
{
}

/// The original element is stored and a delete of it waits with the header, to be integrated: the
/// delete has to be found.
pub proof fn law_scenario_of_deleting_a_header(
    a: TestData,
    db: Tables,
    links: Seq<Vec<Link>>,
    at: Addresses,
)
    ensures
        ({
            let states = Scenario::RegisterDeletedHeaderBy.spec_states(a);
            let header = match a.original_header {
                NewEntryHeader::Create(h) => Header::Create(h),
                NewEntryHeader::Update(h) => Header::Update(h),
            };
            let original_op = DhtOp::StoreElement(a.signature, header, Some(a.original_entry));
            let op = DhtOp::RegisterDeletedBy(a.signature, a.entry_delete);
            let delete = Header::Delete(a.entry_delete);
            &&& Scenario::RegisterDeletedHeaderBy.queued(a) == op
            &&& states.pre_state.len() == 2
            &&& states.pre_state[0] == Db::IntQueue(op)
            &&& states.pre_state[1] == Db::Integrated(original_op)
            &&& states.expect.len() == 2
            &&& states.expect[0] == Db::Integrated(op)
            &&& states.expect[1] == Db::MetaDelete(a.original_header_hash, delete)
            &&& all_hold(states.expect, db, links, at) <==> {
                &&& Db::Integrated(op).spec_failure(db, links[0]@, at) is None
                &&& Db::MetaDelete(a.original_header_hash, delete).spec_failure(
                    db,
                    links[1]@,
                    at,
                ) is None
            }
        }),
{
}

/// The base of a link is stored and the link waits, to be integrated: it has to be found. So the
/// scenario is met only if the question for links with the link's base, zome and tag was answered
/// with one link, created by the link's header, that leads to the new entry and has the link's tag.
pub proof fn law_scenario_of_adding_a_link(
    a: TestData,
    db: Tables,
    links: Seq<Vec<Link>>,
    at: Addresses,
)
    ensures
        ({
            let states = Scenario::RegisterAddLink.spec_states(a);
            let original_op = DhtOp::StoreEntry(a.signature, a.original_header, a.original_entry);
            let op = DhtOp::RegisterAddLink(a.signature, a.link_add);
            &&& Scenario::RegisterAddLink.queued(a) == op
            &&& states.pre_state.len() == 2
            &&& states.pre_state[0] == Db::Integrated(original_op)
            &&& states.pre_state[1] == Db::IntQueue(op)
            &&& states.expect.len() == 2
            &&& states.expect[0] == Db::Integrated(op)
            &&& states.expect[1] == Db::MetaLink(a.link_add, a.new_entry_hash)
            &&& all_hold(states.expect, db, links, at) <==> {
                &&& Db::Integrated(op).spec_failure(db, links[0]@, at) is None
                &&& Db::MetaLink(a.link_add, a.new_entry_hash).spec_failure(
                    db,
                    links[1]@,
                    at,
                ) is None
            }
            &&& states.expect[1].spec_links_query() matches Some(query) && {
                &&& query.base == a.link_add.base_address
                &&& query.zome_id == a.link_add.zome_id
                &&& query.tag == Some(a.link_add.tag)
            }
            &&& all_hold(states.expect, db, links, at) ==> {
                &&& links[1]@.len() == 1
                &&& links[1]@[0].create_link_hash == (at.header)(Header::CreateLink(a.link_add))
                &&& links[1]@[0].target == a.new_entry_hash
                &&& links[1]@[0].tag@ == a.link_add.tag@
            }
        }),
{
}

/// A link and its base are stored and the link's removal waits, to be integrated: no such link may
/// be found. So the scenario is met only if the question for links with the link's base, zome and
/// tag was answered with none.
pub proof fn law_scenario_of_removing_a_link(
    a: TestData,
    db: Tables,
    links: Seq<Vec<Link>>,
    at: Addresses,
)
    ensures
        ({
            let states = Scenario::RegisterDeleteLink.spec_states(a);
            let original_op = DhtOp::StoreEntry(a.signature, a.original_header, a.original_entry);
            let link_op = DhtOp::RegisterAddLink(a.signature, a.link_add);
            let op = DhtOp::RegisterRemoveLink(a.signature, a.link_remove);
            &&& Scenario::RegisterDeleteLink.queued(a) == op
            &&& states.pre_state.len() == 3
            &&& states.pre_state[0] == Db::Integrated(original_op)
            &&& states.pre_state[1] == Db::Integrated(link_op)
            &&& states.pre_state[2] == Db::IntQueue(op)
            &&& states.expect.len() == 2
            &&& states.expect[0] == Db::Integrated(op)
            &&& states.expect[1] == Db::MetaLinkEmpty(a.link_add)
            &&& all_hold(states.expect, db, links, at) <==> {
                &&& Db::Integrated(op).spec_failure(db, links[0]@, at) is None
                &&& Db::MetaLinkEmpty(a.link_add).spec_failure(db, links[1]@, at) is None
            }
            &&& states.expect[1].spec_links_query() matches Some(query) && {
                &&& query.base == a.link_add.base_address
                &&& query.zome_id == a.link_add.zome_id
                &&& query.tag == Some(a.link_add.tag)
            }
            &&& all_hold(states.expect, db, links, at) ==> links[1]@.len() == 0
        }),
{
}

/// The removal of a link waits where neither the link nor its base is stored: it has to stay in the
/// queue, and nothing may be integrated.
pub proof fn law_scenario_of_removing_a_missing_link(
    a: TestData,
    db: Tables,
    links: Seq<Vec<Link>>,
    at: Addresses,
)
    ensures
        ({
            let states = Scenario::RegisterDeleteLinkMissingBase.spec_states(a);
            let op = DhtOp::RegisterRemoveLink(a.signature, a.link_remove);
            &&& Scenario::RegisterDeleteLinkMissingBase.queued(a) == op
            &&& states.pre_state.len() == 1
            &&& states.pre_state[0] == Db::IntQueue(op)
            &&& states.expect.len() == 3
            &&& states.expect[0] == Db::IntegratedEmpty
            &&& states.expect[1] == Db::IntQueue(op)
            &&& states.expect[2] == Db::MetaEmpty
            &&& all_hold(states.expect, db, links, at) <==> {
                &&& Db::IntegratedEmpty.spec_failure(db, links[0]@, at) is None
                &&& Db::IntQueue(op).spec_failure(db, links[1]@, at) is None
                &&& Db::MetaEmpty.spec_failure(db, links[2]@, at) is None
            }
        }),
{
}

/// A scenario expects all that follows from the integration of its operation: where what it expects
/// is met, every such state holds. Of a delete, that is the one that names both the header that is
/// deleted and the delete itself.
pub proof fn law_scenario_expects_all_that_follows(
    scenario: Scenario,
    a: TestData,
    state: Db,
    db: Tables,
    links: Seq<Vec<Link>>,
    no_links: Seq<Link>,
    at: Addresses,
)
    requires
        a.linked(at),
        scenario != Scenario::RegisterDeleteLinkMissingBase,
        follows_from(state, scenario.queued(a), at),
        state matches Db::MetaDelete(deleted, header) ==> header matches Header::Delete(delete)
            && delete.deletes_address == deleted && scenario.queued(a).spec_header() == header,
        all_hold(scenario.spec_states(a).expect, db, links, at),
    ensures
        state.spec_failure(db, no_links, at) is None,
{
    let expect = scenario.spec_states(a).expect;
    assert forall|i: int| 0 <= i < expect.len() implies (#[trigger] expect[i]).spec_failure(
        db,
        links[i]@,
        at,
    ) is None by {}
    assert(expect[0].spec_failure(db, links[0]@, at) is None);
    assert(expect[1].spec_failure(db, links[1]@, at) is None);
    if expect.len() > 2 {
        assert(expect[2].spec_failure(db, links[2]@, at) is None);
    }
    if expect.len() > 3 {
        assert(expect[3].spec_failure(db, links[3]@, at) is None);
    }
}

/// A scenario gives the same states and the same name whether it is asked for by its own function
/// or as one of all the scenarios.
pub proof fn law_scenario_is_what_its_function_gives(
    scenario: Scenario,
    a: TestData,
    own: (Vec<Db>, Vec<Db>, &'static str),
    states: (Vec<Db>, Vec<Db>, &'static str),
)
    requires
        call_ensures(Scenario::states, (&scenario, a), states),
        match scenario {
            Scenario::StoreElement => call_ensures(store_element, (a,), own),
            Scenario::StoreEntry => call_ensures(store_entry, (a,), own),
            Scenario::RegisterAgentActivity => call_ensures(register_agent_activity, (a,), own),
            Scenario::RegisterReplacedByForEntry => call_ensures(
                register_replaced_by_for_entry,
                (a,),
                own,
            ),
            Scenario::RegisterUpdatedElement => call_ensures(register_updated_element, (a,), own),
            Scenario::RegisterDeletedBy => call_ensures(register_deleted_by, (a,), own),
            Scenario::RegisterDeletedHeaderBy => call_ensures(
                register_deleted_header_by,
                (a,),
                own,
            ),
            Scenario::RegisterAddLink => call_ensures(register_add_link, (a,), own),
            Scenario::RegisterDeleteLink => call_ensures(register_delete_link, (a,), own),
            Scenario::RegisterDeleteLinkMissingBase => call_ensures(
                register_delete_link_missing_base,
                (a,),
                own,
            ),
        },
    ensures
        own.0@ == scenario.spec_states(a).pre_state,
        own.1@ == scenario.spec_states(a).expect,
        states.0@ == own.0@,
        states.1@ == own.1@,
        states.2@ == own.2@,
        own.2@ == match scenario {
            Scenario::StoreElement => "store element"@,
            Scenario::StoreEntry => "store entry"@,
            Scenario::RegisterAgentActivity => "register agent activity"@,
            Scenario::RegisterReplacedByForEntry => "register replaced by for entry"@,
            Scenario::RegisterUpdatedElement => "register updated element"@,
            Scenario::RegisterDeletedBy => "register deleted by"@,
            Scenario::RegisterDeletedHeaderBy => "register deleted header by"@,
            Scenario::RegisterAddLink => "register link add"@,
            Scenario::RegisterDeleteLink => "register link remove"@,
            Scenario::RegisterDeleteLinkMissingBase => "register remove link remove missing base"@,
        },
{
}

/// Every scenario is played, and none of them twice.
pub proof fn law_every_scenario_is_played_once(scenario: Scenario, all: Vec<Scenario>)
    requires
        call_ensures(scenarios, (), all),
    ensures
        all@.contains(scenario),
        all@.no_duplicates(),
{
    let i: int = match scenario {
        Scenario::StoreElement => 0,
        Scenario::StoreEntry => 1,
        Scenario::RegisterAgentActivity => 2,
        Scenario::RegisterReplacedByForEntry => 3,
        Scenario::RegisterUpdatedElement => 4,
        Scenario::RegisterDeletedBy => 5,
        Scenario::RegisterDeletedHeaderBy => 6,
        Scenario::RegisterAddLink => 7,
        Scenario::RegisterDeleteLink => 8,
        Scenario::RegisterDeleteLinkMissingBase => 9,
    };
    assert(all@[i] == scenario);
}

/// A scenario is played with success exactly if its operation was integrated; where a link is
/// added, if besides that link alone was found; where one is removed, if besides none was; and
/// where the base is missing, if the operation was left where it was.
pub proof fn law_play_is_judged_by_outcome_and_links(
    scenario: Scenario,
    a: TestData,
    integrated: Option<Timestamp>,
    links: Seq<Vec<Link>>,
    at: Addresses,
)
    ensures
        as_expected(scenario, a, integrated, links, at) <==> match scenario {
            Scenario::RegisterDeleteLinkMissingBase => integrated is None,
            Scenario::RegisterDeleteLink => integrated is Some && links[1]@.len() == 0,
            Scenario::RegisterAddLink => {
                &&& integrated is Some
                &&& links[1]@.len() == 1
                &&& links[1]@[0].create_link_hash == (at.header)(Header::CreateLink(a.link_add))
                &&& links[1]@[0].target == a.new_entry_hash
                &&& links[1]@[0].tag@ == a.link_add.tag@
            },
            _ => integrated is Some,
        },
{
    let expect = scenario.spec_states(a).expect;
    if scenario == Scenario::RegisterAddLink || scenario == Scenario::RegisterDeleteLink {
        assert(expect[1].spec_links_query() is Some);
    }
}

/// An operation that the workflow leaves alone changes nothing; one that it integrates is written
/// as integrated at that time, and nothing else is.
pub proof fn law_outcome_is_one_write_or_none(
    before: Tables,
    op: DhtOp,
    when: Timestamp,
    at: Addresses,
)
    ensures
        outcome(before, op, false, when, at) == before,
        outcome(before, op, true, when, at) == before.apply(
            Mutation::SetWhenIntegrated((at.op)(op), when),
            at,
        ),
{
}

/// The operation that waits is the first that is queued, whatever comes before it that is not; and
/// there is none exactly if nothing is queued.
pub proof fn law_first_queued_op_is_taken(
    states: Vec<Db>,
    k: int,
    op: DhtOp,
    res: Option<DhtOp>,
)
    requires
        call_ensures(queued_op, (&states,), res),
    ensures
        0 <= k < states@.len() && states@[k] == Db::IntQueue(op) && (forall|j: int|
            0 <= j < k ==> !((#[trigger] states@[j]) is IntQueue)) ==> res == Some(op),
        (forall|j: int| 0 <= j < states@.len() ==> !((#[trigger] states@[j]) is IntQueue)) <==> res
            is None,
{
}

} // verus!
