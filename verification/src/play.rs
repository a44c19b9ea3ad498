//! Playing a scenario, whatever the workflow that integrates operations does.

use vstd::prelude::*;

use crate::address::{DhtOpHash, EntryHash, HeaderHash, Timestamp};
use crate::content::Entry;
use crate::db::{all_hold, clear_dbs, first_failure, CheckError, Db};
use crate::env::{Env, Tables};
use crate::hasher::{Addresses, ContentHasher};
use crate::header::Header;
use crate::laws::{
    law_scenario_is_met_by_integration, links_as_expected, outcome, queued_at, queues_one,
    set_states, told_apart,
};
use crate::op::DhtOp;
use crate::query::Link;
use crate::scenarios::Scenario;
use crate::test_data::TestData;

verus! {

/// Records what the workflow did to an operation: integrated it at a time, or left it where it
/// was.
pub fn call_workflow(env: &mut Env, hash: DhtOpHash, integrated: Option<Timestamp>)
    ensures
        final(env)@ == match integrated {
            Some(when) => old(env)@.set_when_integrated(hash, when),
            None => old(env)@,
        },
{
    match integrated {
        Some(when) => env.set_when_integrated(hash, when),
        None => {},
    }
}

/// The first operation that waits to be integrated, if there is one.
pub fn queued_op(states: &Vec<Db>) -> (res: Option<DhtOp>)
    ensures
        match res {
            Some(op) => exists|k: int|
                0 <= k < states@.len() && #[trigger] states@[k] == Db::IntQueue(op) && forall|j: int|
                    0 <= j < k ==> !((#[trigger] states@[j]) is IntQueue),
            None => forall|j: int|
                0 <= j < states@.len() ==> !((#[trigger] states@[j]) is IntQueue),
        },
{
    for i in 0..states.len()
        invariant
            forall|j: int| 0 <= j < i ==> !((#[trigger] states@[j]) is IntQueue),
    {
        match &states[i] {
            Db::IntQueue(op) => {
                assert(states@[i as int] == Db::IntQueue(*op));
                return Some(op.clone());
            },
            _ => {},
        }
    }
    None
}

/// The scenario expects of the workflow what it did, and of the links what they are: the queued
/// operation is to be integrated, or left in the queue where the link that it removes is missing.
pub open spec fn as_expected(
    scenario: Scenario,
    a: TestData,
    integrated: Option<Timestamp>,
    links: Seq<Vec<Link>>,
    at: Addresses,
) -> bool {
    if scenario == Scenario::RegisterDeleteLinkMissingBase {
        integrated is None
    } else {
        integrated is Some && links_as_expected(scenario.spec_states(a).expect, links, at)
    }
}

/// Plays a scenario: clears the database, sets it to the scenario's first state, records what the
/// workflow did to the queued operation, and checks what the scenario expects. Where the test data
/// is linked and the queued operation can be told from the others, it succeeds exactly if the
/// workflow and the links are as expected.
pub fn play<E, H, O>(
    scenario: Scenario,
    a: TestData,
    env: &mut Env,
    clock: &Vec<Timestamp>,
    integrated: Option<Timestamp>,
    links: &Vec<Vec<Link>>,
    hasher: &ContentHasher<E, H, O>,
) -> (res: Result<(), CheckError>) where
    E: Fn(&Entry) -> EntryHash,
    H: Fn(&Header) -> HeaderHash,
    O: Fn(&DhtOp) -> DhtOpHash,

    requires
        hasher.valid(),
        clock.len() == scenario.spec_states(a).pre_state.len(),
        links.len() == scenario.spec_states(a).expect.len(),
    ensures
        final(env)@ == outcome(
            set_states(Tables::empty(), scenario.spec_states(a).pre_state, clock@, hasher@),
            scenario.queued(a),
            integrated is Some,
            integrated->0,
            hasher@,
        ),
        res is Ok <==> all_hold(scenario.spec_states(a).expect, final(env)@, links@, hasher@),
        res matches Err(error) ==> first_failure(
            scenario.spec_states(a).expect,
            final(env)@,
            links@,
            hasher@,
            error,
        ),
        a.linked(hasher@) && told_apart(
            scenario.spec_states(a).pre_state,
            scenario.spec_states(a).expect,
            queued_at(scenario, a),
            scenario.queued(a),
            hasher@,
        ) ==> (res is Ok <==> as_expected(scenario, a, integrated, links@, hasher@)),
{
    let (pre_state, expect, _name) = scenario.states(a);
    assert(queues_one(pre_state@, queued_at(scenario, a), scenario.queued(a)));
    let queued = queued_op(&pre_state).unwrap();
    let hash = hasher.op_hash(&queued);
    clear_dbs(env);
    Db::set(&pre_state, env, clock, hasher);
    call_workflow(env, hash, integrated);
    proof {
        if a.linked(hasher@) && told_apart(
            scenario.spec_states(a).pre_state,
            scenario.spec_states(a).expect,
            queued_at(scenario, a),
            scenario.queued(a),
            hasher@,
        ) {
            law_scenario_is_met_by_integration(
                scenario,
                a,
                clock@,
                integrated is Some,
                integrated->0,
                links@,
                hasher@,
            );
        }
    }
    Db::check(&expect, env, links, hasher)
}

} // verus!
