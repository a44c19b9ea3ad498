//! What holds of setting, integrating and checking taken together.

use vstd::prelude::*;

use crate::address::{AnyDhtHash, DhtOpHash, Timestamp};
use crate::db::{all_hold, plan, Db, Failure};
use crate::env::{
    new_header_row, new_op_row, DhtOpRow, Mutation, Tables, ValidationStatus, AWAITING_INTEGRATION,
};
use crate::hasher::Addresses;
use crate::header::Header;
use crate::host_calls::{has_entry_to_commit, is_entry_to_commit, spec_entry_to_commit};
use crate::op::{DhtOp, DhtOpHashed};
use crate::query::{ElementQuery, Link, OpQuery};
use crate::scenarios::Scenario;
use crate::test_data::TestData;

verus! {

/// The tables after `set`.
pub open spec fn set_states(
    db: Tables,
    states: Seq<Db>,
    clock: Seq<Timestamp>,
    at: Addresses,
) -> Tables {
    db.apply_all(plan(states, clock, at), at)
}

/// Every one of the states can be brought about by `set`.
pub open spec fn all_settable(states: Seq<Db>) -> bool {
    forall|i: int| 0 <= i < states.len() ==> (#[trigger] states[i]).settable()
}

/// The operation that a state speaks of.
pub open spec fn op_of(state: Db) -> DhtOp
    recommends
        state.settable(),
{
    match state {
        Db::Integrated(op) => op,
        Db::IntQueue(op) => op,
        _ => arbitrary(),
    }
}

/// The address of the operation that a state speaks of.
pub open spec fn hash_of(state: Db, at: Addresses) -> DhtOpHash {
    (at.op)(op_of(state))
}

/// The columns that describe an operation are those of `op`.
pub open spec fn describes(row: DhtOpRow, op: DhtOp, at: Addresses) -> bool {
    &&& row.op_type == op.spec_op_type()
    &&& row.basis_hash == op.spec_basis(at.header_of(op))
    &&& row.header_hash == at.header_of(op)
}

/// The row is that of a valid operation, which is integrated or else waits to be.
pub open spec fn marked(row: DhtOpRow, integrated: bool) -> bool {
    &&& row.validation_status == Some(ValidationStatus::Valid)
    &&& row.when_integrated is Some <==> integrated
    &&& !integrated ==> row.validation_stage == Some(AWAITING_INTEGRATION)
}

impl Tables {
    /// The address is one of a stored operation, which is valid and is integrated or else waits to
    /// be.
    pub open spec fn has_marked_op(self, hash: DhtOpHash, integrated: bool) -> bool {
        &&& self.has_op(hash)
        &&& forall|i: int|
            0 <= i < self.dht_ops.len() && (#[trigger] self.dht_ops[i]).hash == hash ==> marked(
                self.dht_ops[i],
                integrated,
            )
    }

    /// The address is one of an operation that has a time of integration.
    pub open spec fn has_integrated_op(self, hash: DhtOpHash) -> bool {
        exists|i: int|
            0 <= i < self.dht_ops.len() && (#[trigger] self.dht_ops[i]).hash == hash
                && self.dht_ops[i].when_integrated is Some
    }

    /// The operation is stored with its header, is valid, and is integrated or else waits to be.
    pub open spec fn holds(self, op: DhtOp, integrated: bool, at: Addresses) -> bool {
        &&& self.has_marked_op((at.op)(op), integrated)
        &&& self.has_header(at.header_of(op))
        &&& forall|i: int|
            0 <= i < self.dht_ops.len() && (#[trigger] self.dht_ops[i]).hash == (at.op)(op)
                ==> describes(self.dht_ops[i], op, at)
    }

    /// What is stored under the address of the operation's header is that header.
    pub open spec fn holds_header(self, op: DhtOp, at: Addresses) -> bool {
        forall|i: int|
            0 <= i < self.headers.len() && (#[trigger] self.headers[i]).hash == at.header_of(op)
                ==> self.headers[i] == new_header_row(op.spec_header(), at)
    }
}

pub(crate) proof fn lemma_apply_all_concat(
    db: Tables,
    a: Seq<Mutation>,
    b: Seq<Mutation>,
    at: Addresses,
)
    ensures
        db.apply_all(a + b, at) == db.apply_all(a, at).apply_all(b, at),
    decreases b.len(),
{
    if b.len() == 0 {
        assert(a + b =~= a);
    } else {
        assert((a + b).drop_last() =~= a + b.drop_last());
        lemma_apply_all_concat(db, a, b.drop_last(), at);
    }
}

pub(crate) proof fn lemma_last_state(
    db: Tables,
    states: Seq<Db>,
    clock: Seq<Timestamp>,
    at: Addresses,
)
    requires
        states.len() > 0,
    ensures
        set_states(db, states, clock, at) == set_states(
            db,
            states.drop_last(),
            clock,
            at,
        ).apply_all(states.last().spec_mutations(clock[states.len() - 1], at), at),
{
    lemma_apply_all_concat(
        db,
        plan(states.drop_last(), clock, at),
        states.last().spec_mutations(clock[states.len() - 1], at),
        at,
    );
}

/// The row of an operation once it was set to a state.
pub open spec fn settled(row: DhtOpRow, state: Db, now: Timestamp) -> DhtOpRow {
    if state is Integrated {
        DhtOpRow {
            when_integrated: Some(now),
            validation_status: Some(ValidationStatus::Valid),
            ..row
        }
    } else {
        DhtOpRow {
            validation_stage: Some(AWAITING_INTEGRATION),
            validation_status: Some(ValidationStatus::Valid),
            ..row
        }
    }
}

/// What the writes for one state do to the rows.
pub(crate) proof fn lemma_one_state(db: Tables, state: Db, now: Timestamp, at: Addresses)
    requires
        state.settable(),
    ensures
        ({
            let op = op_of(state);
            let hash = (at.op)(op);
            let after = db.apply_all(state.spec_mutations(now, at), at);
            let n = db.dht_ops.len();
            &&& after.dht_ops.len() == if db.has_op(hash) {
                n
            } else {
                n + 1
            }
            &&& forall|i: int|
                0 <= i < n ==> #[trigger] after.dht_ops[i] == if db.dht_ops[i].hash == hash {
                    settled(db.dht_ops[i], state, now)
                } else {
                    db.dht_ops[i]
                }
            &&& !db.has_op(hash) ==> after.dht_ops[n as int] == settled(
                new_op_row(DhtOpHashed { content: op, hash }, false, at),
                state,
                now,
            )
            &&& after.headers == if db.has_header(at.header_of(op)) {
                db.headers
            } else {
                db.headers.push(new_header_row(op.spec_header(), at))
            }
            &&& after.has_op(hash)
            &&& after.has_header(at.header_of(op))
        }),
{
    reveal_with_fuel(Tables::apply_all, 4);
    let op = op_of(state);
    let hash = (at.op)(op);
    let after = db.apply_all(state.spec_mutations(now, at), at);
    let m = state.spec_mutations(now, at);
    assert(m.drop_last().last() == m[1]);
    assert(m.drop_last().drop_last().last() == m[0]);
    assert(m.drop_last().drop_last().drop_last().len() == 0);
    if db.has_op(hash) {
        let i = choose|i: int|
            0 <= i < db.dht_ops.len() && (#[trigger] db.dht_ops[i]).hash == hash;
        assert(after.dht_ops[i].hash == hash);
    } else {
        assert(after.dht_ops[db.dht_ops.len() as int].hash == hash);
    }
    if !db.has_header(at.header_of(op)) {
        assert(after.headers[db.headers.len() as int].hash == at.header_of(op));
    }
}

/// What `set` is given can be found again: nothing is both to be integrated and to be queued, and
/// nothing that is to be queued is integrated already.
pub open spec fn consistent(db: Tables, states: Seq<Db>, at: Addresses) -> bool {
    &&& all_settable(states)
    &&& forall|i: int, j: int|
        0 <= i < states.len() && 0 <= j < states.len() && (#[trigger] states[i]) is IntQueue && (
        #[trigger] states[j]) is Integrated ==> hash_of(states[i], at) != hash_of(states[j], at)
    &&& forall|i: int|
        0 <= i < states.len() && (#[trigger] states[i]) is IntQueue ==> !db.has_integrated_op(
            hash_of(states[i], at),
        )
}

proof fn lemma_states_are_marked(
    db: Tables,
    states: Seq<Db>,
    clock: Seq<Timestamp>,
    at: Addresses,
)
    requires
        consistent(db, states, at),
    ensures
        forall|i: int|
            0 <= i < states.len() ==> set_states(db, states, clock, at).has_marked_op(
                hash_of(#[trigger] states[i], at),
                states[i] is Integrated,
            ),
        forall|hash: DhtOpHash| #[trigger]
            set_states(db, states, clock, at).has_integrated_op(hash) ==> {
                ||| db.has_integrated_op(hash)
                ||| exists|k: int|
                    0 <= k < states.len() && (#[trigger] states[k]) is Integrated && hash_of(
                        states[k],
                        at,
                    ) == hash
            },
    decreases states.len(),
{
    if states.len() > 0 {
        let n = states.len() - 1;
        let state = states[n];
        let rest = states.drop_last();
        let before = set_states(db, rest, clock, at);
        let after = set_states(db, states, clock, at);
        assert forall|i: int| 0 <= i < rest.len() implies (#[trigger] rest[i]) == states[i] by {}
        lemma_states_are_marked(db, rest, clock, at);
        lemma_last_state(db, states, clock, at);
        lemma_one_state(before, state, clock[n], at);
        let hash = hash_of(state, at);
        assert forall|h: DhtOpHash| #[trigger] after.has_integrated_op(h) implies {
            ||| db.has_integrated_op(h)
            ||| exists|k: int|
                0 <= k < states.len() && (#[trigger] states[k]) is Integrated && hash_of(
                    states[k],
                    at,
                ) == h
        } by {
            let i = choose|i: int|
                0 <= i < after.dht_ops.len() && (#[trigger] after.dht_ops[i]).hash == h
                    && after.dht_ops[i].when_integrated is Some;
            if h == hash && state is Integrated {
                assert(states[n] is Integrated && hash_of(states[n], at) == h);
            } else {
                assert(before.dht_ops[i].hash == h);
                assert(before.has_integrated_op(h));
                if !db.has_integrated_op(h) {
                    let k = choose|k: int|
                        0 <= k < rest.len() && (#[trigger] rest[k]) is Integrated && hash_of(
                            rest[k],
                            at,
                        ) == h;
                    assert(states[k] is Integrated && hash_of(states[k], at) == h);
                }
            }
        }
        assert forall|i: int| 0 <= i < states.len() implies after.has_marked_op(
            hash_of(#[trigger] states[i], at),
            states[i] is Integrated,
        ) by {
            let h = hash_of(states[i], at);
            let integrated = states[i] is Integrated;
            if i < n {
                assert(rest[i] == states[i]);
                let k = choose|k: int|
                    0 <= k < before.dht_ops.len() && (#[trigger] before.dht_ops[k]).hash == h;
                assert(after.dht_ops[k].hash == h);
            }
            assert(after.has_op(h));
            if state is IntQueue {
                assert(!before.has_integrated_op(hash));
            }
            assert forall|k: int|
                0 <= k < after.dht_ops.len() && (#[trigger] after.dht_ops[k]).hash
                    == h implies marked(after.dht_ops[k], integrated) by {
                if k < before.dht_ops.len() {
                    assert(before.dht_ops[k].hash == h);
                }
            }
        }
    }
}

/// What a stored operation answers.
proof fn lemma_marked_op_is_found(db: Tables, hash: DhtOpHash, integrated: bool)
    requires
        db.has_marked_op(hash, integrated),
    ensures
        db.any_op(OpQuery::Integrated { hash }) <==> integrated,
        db.any_op(OpQuery::AwaitingIntegration { hash }) <==> !integrated,
{
    let i = choose|i: int| 0 <= i < db.dht_ops.len() && (#[trigger] db.dht_ops[i]).hash == hash;
    if integrated {
        assert(OpQuery::Integrated { hash }.spec_selects(db.dht_ops[i]));
    } else {
        assert(OpQuery::AwaitingIntegration { hash }.spec_selects(db.dht_ops[i]));
    }
}

/// What `set` was given, `check` finds: after the database is set to states, every one of them
/// holds, unless an operation is both to be queued and to be integrated.
pub proof fn law_check_finds_what_was_set(
    db: Tables,
    states: Seq<Db>,
    clock: Seq<Timestamp>,
    links: Seq<Vec<Link>>,
    at: Addresses,
)
    requires
        consistent(db, states, at),
    ensures
        all_hold(states, set_states(db, states, clock, at), links, at),
{
    let after = set_states(db, states, clock, at);
    lemma_states_are_marked(db, states, clock, at);
    assert forall|i: int| 0 <= i < states.len() implies (#[trigger] states[i]).spec_failure(
        after,
        links[i]@,
        at,
    ) is None by {
        lemma_marked_op_is_found(after, hash_of(states[i], at), states[i] is Integrated);
    }
}

/// `set` leaves the operations that it is not given as they are: whether another operation is
/// queued or integrated is answered as before.
pub proof fn law_set_leaves_others_alone(
    db: Tables,
    states: Seq<Db>,
    clock: Seq<Timestamp>,
    other: DhtOp,
    links: Seq<Link>,
    at: Addresses,
)
    requires
        all_settable(states),
        forall|i: int|
            0 <= i < states.len() ==> hash_of(#[trigger] states[i], at) != (at.op)(other),
    ensures
        ({
            let after = set_states(db, states, clock, at);
            &&& Db::Integrated(other).spec_failure(after, links, at) == Db::Integrated(
                other,
            ).spec_failure(db, links, at)
            &&& Db::IntQueue(other).spec_failure(after, links, at) == Db::IntQueue(
                other,
            ).spec_failure(db, links, at)
        }),
    decreases states.len(),
{
    if states.len() > 0 {
        let n = states.len() - 1;
        let rest = states.drop_last();
        let before = set_states(db, rest, clock, at);
        let after = set_states(db, states, clock, at);
        assert forall|i: int| 0 <= i < rest.len() implies (#[trigger] rest[i]) == states[i] by {}
        law_set_leaves_others_alone(db, rest, clock, other, links, at);
        lemma_last_state(db, states, clock, at);
        lemma_one_state(before, states[n], clock[n], at);
        let hash = (at.op)(other);
        assert forall|query: OpQuery|
            query == (OpQuery::Integrated { hash }) || query == (OpQuery::AwaitingIntegration {
                hash,
            }) implies #[trigger] after.any_op(query) == before.any_op(query) by {
            if after.any_op(query) {
                let i = choose|i: int|
                    0 <= i < after.dht_ops.len() && query.spec_selects(#[trigger] after.dht_ops[i]);
                assert(before.dht_ops[i] == after.dht_ops[i]);
            }
            if before.any_op(query) {
                let i = choose|i: int|
                    0 <= i < before.dht_ops.len() && query.spec_selects(
                        #[trigger] before.dht_ops[i],
                    );
                assert(before.dht_ops[i] == after.dht_ops[i]);
            }
        }
    }
}

/// States can be set in parts: setting two lists of states one after the other is setting them as
/// one list.
pub proof fn law_set_in_parts(
    db: Tables,
    first: Seq<Db>,
    first_clock: Seq<Timestamp>,
    second: Seq<Db>,
    second_clock: Seq<Timestamp>,
    at: Addresses,
)
    requires
        first_clock.len() == first.len(),
        second_clock.len() == second.len(),
    ensures
        set_states(db, first + second, first_clock + second_clock, at) == set_states(
            set_states(db, first, first_clock, at),
            second,
            second_clock,
            at,
        ),
{
    lemma_plan_concat(first, first_clock, second, second_clock, at);
    lemma_apply_all_concat(
        db,
        plan(first, first_clock, at),
        plan(second, second_clock, at),
        at,
    );
}

proof fn lemma_plan_prefix(
    states: Seq<Db>,
    clock: Seq<Timestamp>,
    longer: Seq<Timestamp>,
    at: Addresses,
)
    requires
        states.len() <= clock.len() <= longer.len(),
        forall|i: int| 0 <= i < states.len() ==> clock[i] == longer[i],
    ensures
        plan(states, clock, at) == plan(states, longer, at),
    decreases states.len(),
{
    if states.len() > 0 {
        lemma_plan_prefix(states.drop_last(), clock, longer, at);
    }
}

proof fn lemma_plan_concat(
    first: Seq<Db>,
    first_clock: Seq<Timestamp>,
    second: Seq<Db>,
    second_clock: Seq<Timestamp>,
    at: Addresses,
)
    requires
        first_clock.len() == first.len(),
        second.len() <= second_clock.len(),
    ensures
        plan(first + second, first_clock + second_clock, at) == plan(first, first_clock, at) + plan(
            second,
            second_clock,
            at,
        ),
    decreases second.len(),
{
    let clock = first_clock + second_clock;
    if second.len() == 0 {
        assert(first + second =~= first);
        lemma_plan_prefix(first, first_clock, clock, at);
        assert(plan(first, clock, at) + plan(second, second_clock, at) =~= plan(first, clock, at));
    } else {
        assert((first + second).drop_last() =~= first + second.drop_last());
        lemma_plan_concat(first, first_clock, second.drop_last(), second_clock, at);
        let m = second.last().spec_mutations(second_clock[second.len() - 1], at);
        assert((plan(first, first_clock, at) + plan(second.drop_last(), second_clock, at)) + m
            =~= plan(first, first_clock, at) + (plan(second.drop_last(), second_clock, at) + m));
    }
}

/// The state says that something is there, and something that only integration brings there.
pub open spec fn says_integrated(state: Db) -> bool {
    match state {
        Db::Integrated(_) => true,
        Db::CasHeader(..) => true,
        Db::CasEntry(..) => true,
        Db::MetaHeader(..) => true,
        Db::MetaActivity(_) => true,
        Db::MetaUpdate(..) => true,
        Db::MetaDelete(..) => true,
        _ => false,
    }
}

/// The state follows from the integration of `op`.
pub open spec fn follows_from(state: Db, op: DhtOp, at: Addresses) -> bool {
    let stores = op is StoreElement || op is StoreEntry;
    match state {
        Db::Integrated(other) => other == op,
        Db::CasHeader(header, _) => stores && header == op.spec_header(),
        Db::CasEntry(entry, _, _) => stores && op.spec_header().spec_entry_hash() == Some(
            (at.entry)(entry),
        ),
        Db::MetaHeader(entry, header) => {
            &&& op is StoreEntry
            &&& header == op.spec_header()
            &&& header.spec_entry_hash() == Some((at.entry)(entry))
        },
        Db::MetaActivity(header) => op is RegisterAgentActivity && header == op.spec_header(),
        Db::MetaUpdate(base, header) => match op {
            DhtOp::RegisterUpdatedContent(_, update, _) => {
                &&& base == AnyDhtHash::Entry(update.original_entry_address)
                &&& header == Header::Update(update)
            },
            DhtOp::RegisterUpdatedElement(_, update, _) => {
                &&& base == AnyDhtHash::Header(update.original_header_address)
                &&& header == Header::Update(update)
            },
            _ => false,
        },
        Db::MetaDelete(deleted, header) => match op {
            DhtOp::RegisterDeletedEntryHeader(_, delete) => deleted == delete.deletes_address,
            DhtOp::RegisterDeletedBy(_, delete) => header == Header::Delete(delete),
            _ => false,
        },
        _ => false,
    }
}

/// Whether the state is found on an integrated `op` is read off its header's row.
pub open spec fn read_off_header(state: Db, op: DhtOp) -> bool {
    ||| state is CasEntry && op is StoreElement
    ||| state is MetaDelete && op is RegisterDeletedEntryHeader
}

/// An integrated operation shows: the headers, entries and metadata that it carries are found.
pub proof fn law_integrated_op_shows(
    db: Tables,
    op: DhtOp,
    state: Db,
    links: Seq<Link>,
    at: Addresses,
)
    requires
        db.holds(op, true, at),
        follows_from(state, op, at),
        read_off_header(state, op) ==> db.holds_header(op, at),
    ensures
        state.spec_failure(db, links, at) is None,
{
    let i = choose|i: int|
        0 <= i < db.dht_ops.len() && (#[trigger] db.dht_ops[i]).hash == (at.op)(op);
    let j = choose|j: int|
        0 <= j < db.headers.len() && (#[trigger] db.headers[j]).hash == at.header_of(op);
    let row = db.dht_ops[i];
    let header_row = db.headers[j];
    assert(describes(row, op, at));
    match state {
        Db::Integrated(_) => {
            assert(OpQuery::Integrated { hash: (at.op)(op) }.spec_selects(row));
        },
        Db::CasHeader(header, _) => {
            assert(OpQuery::StoredHeader { header: (at.header)(header) }.spec_selects(row));
        },
        Db::CasEntry(entry, _, _) => {
            let query = ElementQuery::StoredEntry {
                entry: (at.entry)(entry),
                basis: AnyDhtHash::Entry((at.entry)(entry)),
            };
            assert(query.spec_selects(row, header_row));
        },
        Db::MetaHeader(entry, header) => {
            let query = OpQuery::EntryHeader {
                basis: AnyDhtHash::Entry((at.entry)(entry)),
                header: (at.header)(header),
            };
            assert(query.spec_selects(row));
        },
        Db::MetaActivity(header) => {
            let query = OpQuery::Activity {
                basis: AnyDhtHash::Agent(header.spec_author()),
                header: (at.header)(header),
            };
            assert(query.spec_selects(row));
        },
        Db::MetaUpdate(base, header) => {
            let query = OpQuery::UpdateOf { basis: base, header: (at.header)(header) };
            assert(query.spec_selects(row));
        },
        Db::MetaDelete(deleted, header) => {
            let query = ElementQuery::DeleteOf { deleted, header: (at.header)(header) };
            assert(query.spec_selects(row, header_row));
        },
        _ => {},
    }
}

/// Integration moves an operation out of the queue and touches no other: once it is marked, the
/// operation is found integrated and not queued, where before it was the other way round.
pub proof fn law_integration_moves_out_of_queue(
    db: Tables,
    op: DhtOp,
    when: Timestamp,
    other: DhtOp,
    other_integrated: bool,
    links: Seq<Link>,
    at: Addresses,
)
    requires
        db.holds(op, false, at),
    ensures
        ({
            let after = db.set_when_integrated((at.op)(op), when);
            &&& Db::IntQueue(op).spec_failure(db, links, at) is None
            &&& Db::Integrated(op).spec_failure(db, links, at) is Some
            &&& Db::IntQueue(op).spec_failure(after, links, at) is Some
            &&& Db::Integrated(op).spec_failure(after, links, at) is None
            &&& after.holds(op, true, at)
            &&& (at.op)(other) != (at.op)(op) && db.holds(other, other_integrated, at)
                ==> after.holds(other, other_integrated, at)
        }),
{
    let hash = (at.op)(op);
    let after = db.set_when_integrated(hash, when);
    let i = choose|i: int| 0 <= i < db.dht_ops.len() && (#[trigger] db.dht_ops[i]).hash == hash;
    assert(after.dht_ops[i].hash == hash);
    assert forall|k: int|
        0 <= k < after.dht_ops.len() && (#[trigger] after.dht_ops[k]).hash == hash implies {
        &&& describes(after.dht_ops[k], op, at)
        &&& marked(after.dht_ops[k], true)
    } by {
        assert(db.dht_ops[k].hash == hash);
    }
    assert(after.has_header(at.header_of(op)));
    assert(after.holds(op, true, at));
    lemma_marked_op_is_found(db, hash, false);
    lemma_marked_op_is_found(after, hash, true);
    if (at.op)(other) != hash && db.holds(other, other_integrated, at) {
        let i = choose|i: int|
            0 <= i < db.dht_ops.len() && (#[trigger] db.dht_ops[i]).hash == (at.op)(other);
        assert(after.dht_ops[i].hash == (at.op)(other));
        assert forall|k: int|
            0 <= k < after.dht_ops.len() && (#[trigger] after.dht_ops[k]).hash == (at.op)(
                other,
            ) implies after.dht_ops[k] == db.dht_ops[k] by {}
        assert(after.has_header(at.header_of(other)));
    }
}

/// The tables after the workflow has, or has not, integrated an operation.
pub open spec fn outcome(
    before: Tables,
    op: DhtOp,
    integrated: bool,
    when: Timestamp,
    at: Addresses,
) -> Tables {
    if integrated {
        before.set_when_integrated((at.op)(op), when)
    } else {
        before
    }
}

/// The questions for links were answered as the states expect.
pub open spec fn links_as_expected(
    expect: Seq<Db>,
    links: Seq<Vec<Link>>,
    at: Addresses,
) -> bool {
    forall|i: int|
        0 <= i < expect.len() && (#[trigger] expect[i]).spec_links_query() is Some
            ==> expect[i].spec_failure(Tables::empty(), links[i]@, at) is None
}

/// One operation is queued, at `q`; everything else is integrated.
pub open spec fn queues_one(pre_state: Seq<Db>, q: int, op: DhtOp) -> bool {
    &&& 0 <= q < pre_state.len()
    &&& pre_state[q] == Db::IntQueue(op)
    &&& forall|k: int|
        0 <= k < pre_state.len() && k != q ==> (#[trigger] pre_state[k]) is Integrated
}

/// The states are those that the integration of `op`, and nothing less, brings about: that it is
/// integrated, what follows from that, that the queue is empty, and links.
pub open spec fn expects_integration(expect: Seq<Db>, op: DhtOp, at: Addresses) -> bool {
    &&& expect.contains(Db::Integrated(op))
    &&& forall|i: int|
        0 <= i < expect.len() ==> {
            ||| follows_from(#[trigger] expect[i], op, at)
            ||| expect[i] == Db::IntQueueEmpty
            ||| expect[i].spec_links_query() is Some
        }
}

/// The queued operation can be told from the others: its address is its own, and so is that of
/// its header, where an expectation is read off the header's row.
pub open spec fn told_apart(
    pre_state: Seq<Db>,
    expect: Seq<Db>,
    q: int,
    op: DhtOp,
    at: Addresses,
) -> bool {
    &&& forall|k: int|
        0 <= k < pre_state.len() && k != q ==> hash_of(#[trigger] pre_state[k], at) != (at.op)(op)
    &&& (exists|i: int| 0 <= i < expect.len() && read_off_header(#[trigger] expect[i], op))
        ==> forall|k: int|
        0 <= k < pre_state.len() && at.header_of(op_of(#[trigger] pre_state[k])) == at.header_of(op)
            ==> new_header_row(op_of(pre_state[k]).spec_header(), at) == new_header_row(
            op.spec_header(),
            at,
        )
}

/// Follows one operation through the setting of an empty database.
proof fn lemma_follow(states: Seq<Db>, op: DhtOp, clock: Seq<Timestamp>, at: Addresses)
    requires
        all_settable(states),
        forall|k: int|
            0 <= k < states.len() ==> {
                ||| #[trigger] states[k] == Db::IntQueue(op)
                ||| states[k] is Integrated && hash_of(states[k], at) != (at.op)(op)
            },
    ensures
        ({
            let db = set_states(Tables::empty(), states, clock, at);
            &&& forall|i: int|
                0 <= i < db.dht_ops.len() ==> if (#[trigger] db.dht_ops[i]).hash == (at.op)(op) {
                    &&& states.contains(Db::IntQueue(op))
                    &&& describes(db.dht_ops[i], op, at)
                    &&& marked(db.dht_ops[i], false)
                } else {
                    db.dht_ops[i].when_integrated is Some
                }
            &&& states.contains(Db::IntQueue(op)) ==> db.holds(op, false, at)
            &&& (forall|k: int|
                0 <= k < states.len() && at.header_of(op_of(#[trigger] states[k])) == at.header_of(
                    op,
                ) ==> new_header_row(op_of(states[k]).spec_header(), at) == new_header_row(
                    op.spec_header(),
                    at,
                )) ==> db.holds_header(op, at)
        }),
    decreases states.len(),
{
    let db = set_states(Tables::empty(), states, clock, at);
    let hash = (at.op)(op);
    if states.len() > 0 {
        let n = states.len() - 1;
        let state = states[n];
        let rest = states.drop_last();
        let before = set_states(Tables::empty(), rest, clock, at);
        assert forall|i: int| 0 <= i < rest.len() implies (#[trigger] rest[i]) == states[i] by {}
        lemma_follow(rest, op, clock, at);
        lemma_last_state(Tables::empty(), states, clock, at);
        lemma_one_state(before, state, clock[n], at);
        assert(rest.contains(Db::IntQueue(op)) ==> states.contains(Db::IntQueue(op))) by {
            if rest.contains(Db::IntQueue(op)) {
                let k = choose|k: int| 0 <= k < rest.len() && rest[k] == Db::IntQueue(op);
                assert(states[k] == Db::IntQueue(op));
            }
        }
        assert(states[n] == state);
        assert forall|i: int| 0 <= i < db.dht_ops.len() implies if (
        #[trigger] db.dht_ops[i]).hash == hash {
            &&& states.contains(Db::IntQueue(op))
            &&& describes(db.dht_ops[i], op, at)
            &&& marked(db.dht_ops[i], false)
        } else {
            db.dht_ops[i].when_integrated is Some
        } by {
            if i < before.dht_ops.len() {
                assert(db.dht_ops[i].hash == before.dht_ops[i].hash);
            }
        }
        if states.contains(Db::IntQueue(op)) {
            if state != Db::IntQueue(op) {
                let k = choose|k: int| 0 <= k < states.len() && states[k] == Db::IntQueue(op);
                assert(rest[k] == Db::IntQueue(op));
                let i = choose|i: int|
                    0 <= i < before.dht_ops.len() && (#[trigger] before.dht_ops[i]).hash == hash;
                assert(db.dht_ops[i].hash == hash);
                let j = choose|j: int|
                    0 <= j < before.headers.len() && (#[trigger] before.headers[j]).hash
                        == at.header_of(op);
                assert(db.headers[j].hash == at.header_of(op));
            }
        }
        if forall|k: int|
            0 <= k < states.len() && at.header_of(op_of(#[trigger] states[k])) == at.header_of(op)
                ==> new_header_row(op_of(states[k]).spec_header(), at) == new_header_row(
                op.spec_header(),
                at,
            ) {
            assert forall|k: int|
                0 <= k < rest.len() && at.header_of(op_of(#[trigger] rest[k])) == at.header_of(
                    op,
                ) implies new_header_row(op_of(rest[k]).spec_header(), at) == new_header_row(
                op.spec_header(),
                at,
            ) by {
                assert(rest[k] == states[k]);
            }
            assert forall|j: int|
                0 <= j < db.headers.len() && (#[trigger] db.headers[j]).hash == at.header_of(
                    op,
                ) implies db.headers[j] == new_header_row(op.spec_header(), at) by {
                if j < before.headers.len() {
                    assert(before.headers[j] == db.headers[j]);
                }
            }
        }
    }
}

/// Where one operation is queued and all else is integrated, expectations of its integration are
/// met exactly if it was integrated and the links found are the expected ones.
pub proof fn law_expectations_are_met_by_integration(
    pre_state: Seq<Db>,
    expect: Seq<Db>,
    q: int,
    op: DhtOp,
    clock: Seq<Timestamp>,
    integrated: bool,
    when: Timestamp,
    links: Seq<Vec<Link>>,
    at: Addresses,
)
    requires
        queues_one(pre_state, q, op),
        expects_integration(expect, op, at),
        told_apart(pre_state, expect, q, op, at),
    ensures
        all_hold(
            expect,
            outcome(
                set_states(Tables::empty(), pre_state, clock, at),
                op,
                integrated,
                when,
                at,
            ),
            links,
            at,
        ) <==> integrated && links_as_expected(expect, links, at),
{
    let before = set_states(Tables::empty(), pre_state, clock, at);
    let after = outcome(before, op, integrated, when, at);
    assert(all_settable(pre_state)) by {
        assert forall|k: int| 0 <= k < pre_state.len() implies (
        #[trigger] pre_state[k]).settable() by {
            assert(k == q || pre_state[k] is Integrated);
        }
    }
    lemma_follow(pre_state, op, clock, at);
    assert(pre_state.contains(Db::IntQueue(op)));
    law_integration_moves_out_of_queue(before, op, when, op, false, Seq::empty(), at);
    lemma_marked_op_is_found(after, (at.op)(op), integrated);
    let p = choose|p: int| 0 <= p < expect.len() && expect[p] == Db::Integrated(op);
    if !integrated {
        assert(expect[p].spec_failure(after, links[p]@, at) is Some);
    } else {
        assert forall|k: int| 0 <= k < after.dht_ops.len() implies (
        #[trigger] after.dht_ops[k]).when_integrated is Some by {
            assert(after.dht_ops[k].hash == before.dht_ops[k].hash);
        }
        assert forall|i: int| 0 <= i < expect.len() implies {
            let failure = (#[trigger] expect[i]).spec_failure(after, links[i]@, at);
            if expect[i].spec_links_query() is Some {
                failure == expect[i].spec_failure(Tables::empty(), links[i]@, at)
            } else {
                failure is None
            }
        } by {
            if follows_from(expect[i], op, at) {
                law_integrated_op_shows(after, op, expect[i], links[i]@, at);
            }
        }
    }
}

/// What an empty database holds after it was set to one state.
proof fn lemma_single_state(state: Db, clock: Seq<Timestamp>, at: Addresses)
    requires
        state.settable(),
    ensures
        ({
            let db = set_states(Tables::empty(), seq![state], clock, at);
            &&& db.dht_ops.len() == 1
            &&& describes(db.dht_ops[0], op_of(state), at)
            &&& db.holds(op_of(state), state is Integrated, at)
            &&& db.holds_header(op_of(state), at)
        }),
{
    let states = seq![state];
    assert(states.drop_last() =~= Seq::empty());
    lemma_last_state(Tables::empty(), states, clock, at);
    lemma_one_state(Tables::empty(), states[0], clock[0], at);
}

/// Where the one operation that is stored waits in the queue, expectations that nothing is
/// integrated are met exactly if the operation was left there.
pub proof fn law_queue_is_kept_without_integration(
    op: DhtOp,
    clock: Seq<Timestamp>,
    integrated: bool,
    when: Timestamp,
    links: Seq<Vec<Link>>,
    at: Addresses,
)
    ensures
        all_hold(
            seq![Db::IntegratedEmpty, Db::IntQueue(op), Db::MetaEmpty],
            outcome(
                set_states(Tables::empty(), seq![Db::IntQueue(op)], clock, at),
                op,
                integrated,
                when,
                at,
            ),
            links,
            at,
        ) <==> !integrated,
{
    let pre_state = seq![Db::IntQueue(op)];
    let expect = seq![Db::IntegratedEmpty, Db::IntQueue(op), Db::MetaEmpty];
    let before = set_states(Tables::empty(), pre_state, clock, at);
    let after = outcome(before, op, integrated, when, at);
    lemma_single_state(Db::IntQueue(op), clock, at);
    law_integration_moves_out_of_queue(before, op, when, op, false, Seq::empty(), at);
    lemma_marked_op_is_found(after, (at.op)(op), integrated);
    if integrated {
        assert(expect[1].spec_failure(after, links[1]@, at) is Some);
    }
}

/// The place of the queued operation in a scenario's first state.
pub open spec fn queued_at(scenario: Scenario, a: TestData) -> int {
    if scenario == Scenario::RegisterDeletedHeaderBy {
        0
    } else {
        scenario.spec_states(a).pre_state.len() - 1
    }
}

proof fn lemma_scenario_expects_integration(scenario: Scenario, a: TestData, at: Addresses)
    requires
        a.linked(at),
        scenario != Scenario::RegisterDeleteLinkMissingBase,
    ensures
        expects_integration(scenario.spec_states(a).expect, scenario.queued(a), at),
{
    let expect = scenario.spec_states(a).expect;
    let op = scenario.queued(a);
    if scenario == Scenario::RegisterDeletedBy {
        assert(expect[1] == Db::Integrated(op));
    } else {
        assert(expect[0] == Db::Integrated(op));
    }
}

/// What a scenario expects of a cleared database that was set to its first state is met exactly
/// if its operation was integrated, and the links found are the expected ones. Where the base is
/// missing, it is met exactly if the operation was left in the queue.
pub proof fn law_scenario_is_met_by_integration(
    scenario: Scenario,
    a: TestData,
    clock: Seq<Timestamp>,
    integrated: bool,
    when: Timestamp,
    links: Seq<Vec<Link>>,
    at: Addresses,
)
    requires
        a.linked(at),
        told_apart(
            scenario.spec_states(a).pre_state,
            scenario.spec_states(a).expect,
            queued_at(scenario, a),
            scenario.queued(a),
            at,
        ),
    ensures
        all_hold(
            scenario.spec_states(a).expect,
            outcome(
                set_states(Tables::empty(), scenario.spec_states(a).pre_state, clock, at),
                scenario.queued(a),
                integrated,
                when,
                at,
            ),
            links,
            at,
        ) <==> if scenario == Scenario::RegisterDeleteLinkMissingBase {
            !integrated
        } else {
            integrated && links_as_expected(scenario.spec_states(a).expect, links, at)
        },
{
    let op = scenario.queued(a);
    let pre_state = scenario.spec_states(a).pre_state;
    if scenario == Scenario::RegisterDeleteLinkMissingBase {
        law_queue_is_kept_without_integration(op, clock, integrated, when, links, at);
    } else {
        let q = queued_at(scenario, a);
        lemma_scenario_expects_integration(scenario, a, at);
        assert(queues_one(pre_state, q, op));
        law_expectations_are_met_by_integration(
            pre_state,
            scenario.spec_states(a).expect,
            q,
            op,
            clock,
            integrated,
            when,
            links,
            at,
        );
    }
}

/// No two of the operations that the states speak of, and no two of their headers, share an
/// address unless they are the same.
pub open spec fn collision_free(states: Seq<Db>, at: Addresses) -> bool {
    forall|i: int, j: int|
        0 <= i < states.len() && 0 <= j < states.len() ==> {
            let a = op_of(#[trigger] states[i]);
            let b = op_of(#[trigger] states[j]);
            &&& (at.op)(a) == (at.op)(b) ==> a == b
            &&& at.header_of(a) == at.header_of(b) ==> a.spec_header() == b.spec_header()
        }
}

/// Where addresses do not collide, a scenario's queued operation can be told from the others, and
/// its first state can be set.
pub proof fn law_scenario_is_told_apart_without_collisions(
    scenario: Scenario,
    a: TestData,
    at: Addresses,
)
    requires
        collision_free(scenario.spec_states(a).pre_state, at),
    ensures
        told_apart(
            scenario.spec_states(a).pre_state,
            scenario.spec_states(a).expect,
            queued_at(scenario, a),
            scenario.queued(a),
            at,
        ),
        consistent(Tables::empty(), scenario.spec_states(a).pre_state, at),
{
    let pre_state = scenario.spec_states(a).pre_state;
    let q = queued_at(scenario, a);
    assert(pre_state[q] == Db::IntQueue(scenario.queued(a)));
}

/// The base of a link can be committed from the first state of the link's scenario: the entry to
/// commit is the original one, whose address is the link's base.
pub proof fn law_base_of_link_is_committed(a: TestData, at: Addresses)
    requires
        a.linked(at),
    ensures
        ({
            let pre_state = Scenario::RegisterAddLink.spec_states(a).pre_state;
            &&& has_entry_to_commit(pre_state)
            &&& spec_entry_to_commit(pre_state) == a.original_entry
            &&& (at.entry)(spec_entry_to_commit(pre_state)) == a.original_entry_hash
            &&& a.original_entry_hash == a.link_add.base_address
        }),
{
    let pre_state = Scenario::RegisterAddLink.spec_states(a).pre_state;
    assert(is_entry_to_commit(pre_state, 0));
    let k = choose|k: int| is_entry_to_commit(pre_state, k);
    if k > 0 {
        assert(pre_state[0] is IntQueue);
    }
}

/// A scenario's first state is found as it was set, before anything is integrated.
pub proof fn law_scenario_starts_as_set(
    scenario: Scenario,
    a: TestData,
    clock: Seq<Timestamp>,
    links: Seq<Vec<Link>>,
    at: Addresses,
)
    requires
        consistent(Tables::empty(), scenario.spec_states(a).pre_state, at),
    ensures
        all_hold(
            scenario.spec_states(a).pre_state,
            set_states(Tables::empty(), scenario.spec_states(a).pre_state, clock, at),
            links,
            at,
        ),
{
    law_check_finds_what_was_set(
        Tables::empty(),
        scenario.spec_states(a).pre_state,
        clock,
        links,
        at,
    );
}

/// A cleared database is empty in every respect: the three states of emptiness hold, and no state
/// that says something is there does.
pub proof fn law_cleared_database_is_empty(state: Db, links: Seq<Link>, at: Addresses)
    requires
        state.spec_links_query() is None,
    ensures
        state.spec_failure(Tables::empty(), links, at) is None <==> {
            ||| state is IntegratedEmpty
            ||| state is IntQueueEmpty
            ||| state is MetaEmpty
        },
{
}

/// Without integration there is no metadata: while no operation is integrated, no state that only
/// integration brings about holds.
pub proof fn law_nothing_shows_without_integration(
    db: Tables,
    state: Db,
    links: Seq<Link>,
    at: Addresses,
)
    requires
        Db::IntegratedEmpty.spec_failure(db, links, at) is None,
        says_integrated(state),
    ensures
        state.spec_failure(db, links, at) == Some(Failure::Missing),
        Db::MetaEmpty.spec_failure(db, links, at) is None,
{
    assert forall|i: int| 0 <= i < db.dht_ops.len() implies (
    #[trigger] db.dht_ops[i]).when_integrated is None by {
        assert(!OpQuery::AnyIntegrated.spec_selects(db.dht_ops[i]));
    }
}

/// An operation is integrated or waits to be, never both.
pub proof fn law_queued_or_integrated(db: Tables, op: DhtOp, links: Seq<Link>, at: Addresses)
    requires
        db.keys_unique(),
        Db::IntQueue(op).spec_failure(db, links, at) is None,
    ensures
        Db::Integrated(op).spec_failure(db, links, at) is Some,
{
    let hash = (at.op)(op);
    let waiting = OpQuery::AwaitingIntegration { hash };
    let i = choose|i: int|
        0 <= i < db.dht_ops.len() && waiting.spec_selects(#[trigger] db.dht_ops[i]);
    if db.any_op(OpQuery::Integrated { hash }) {
        let integrated = OpQuery::Integrated { hash };
        let j = choose|j: int|
            0 <= j < db.dht_ops.len() && integrated.spec_selects(#[trigger] db.dht_ops[j]);
        assert(db.dht_ops[i].hash == db.dht_ops[j].hash);
    }
}

/// Every write keeps each table keyed by its hash column.
pub proof fn law_writes_keep_keys_unique(db: Tables, mutations: Seq<Mutation>, at: Addresses)
    requires
        db.keys_unique(),
    ensures
        db.apply_all(mutations, at).keys_unique(),
    decreases mutations.len(),
{
    if mutations.len() > 0 {
        let before = db.apply_all(mutations.drop_last(), at);
        let after = db.apply_all(mutations, at);
        law_writes_keep_keys_unique(db, mutations.drop_last(), at);
        match mutations.last() {
            Mutation::InsertOp(op, is_authored) => {},
            _ => {
                assert forall|i: int| 0 <= i < after.dht_ops.len() implies (
                #[trigger] after.dht_ops[i]).hash == before.dht_ops[i].hash by {}
            },
        }
    }
}

/// The write does not take an operation's validity away.
pub open spec fn keeps_validity(mutation: Mutation) -> bool {
    mutation matches Mutation::SetValidationStatus(_, status) ==> status == ValidationStatus::Valid
}

/// What integration brought about stays: as long as no write takes an operation's validity away,
/// a state that says something is there goes on to hold.
pub proof fn law_integrated_stays(
    db: Tables,
    mutations: Seq<Mutation>,
    state: Db,
    links: Seq<Link>,
    at: Addresses,
)
    requires
        forall|i: int| 0 <= i < mutations.len() ==> keeps_validity(#[trigger] mutations[i]),
        says_integrated(state),
        state.spec_failure(db, links, at) is None,
    ensures
        state.spec_failure(db.apply_all(mutations, at), links, at) is None,
    decreases mutations.len(),
{
    if mutations.len() > 0 {
        let rest = mutations.drop_last();
        assert forall|i: int| 0 <= i < rest.len() implies keeps_validity(
            #[trigger] rest[i],
        ) by {
            assert(rest[i] == mutations[i]);
        }
        law_integrated_stays(db, rest, state, links, at);
        lemma_write_keeps_integrated(db.apply_all(rest, at), mutations.last(), at);
    }
}

proof fn lemma_write_keeps_integrated(db: Tables, mutation: Mutation, at: Addresses)
    requires
        keeps_validity(mutation),
    ensures
        forall|query: OpQuery|
            !(query is AwaitingIntegration) && !(query is AnyNotIntegrated)
                && #[trigger] db.any_op(query) ==> db.apply(mutation, at).any_op(query),
        forall|query: ElementQuery| #[trigger]
            db.any_element(query) ==> db.apply(mutation, at).any_element(query),
{
    let after = db.apply(mutation, at);
    assert forall|query: OpQuery|
        !(query is AwaitingIntegration) && !(query is AnyNotIntegrated) && #[trigger] db.any_op(
            query,
        ) implies after.any_op(query) by {
        let i = choose|i: int|
            0 <= i < db.dht_ops.len() && query.spec_selects(#[trigger] db.dht_ops[i]);
        assert(query.spec_selects(after.dht_ops[i]));
    }
    assert forall|query: ElementQuery| #[trigger] db.any_element(query) implies after.any_element(
        query,
    ) by {
        let (i, j) = choose|i: int, j: int|
            0 <= i < db.dht_ops.len() && 0 <= j < db.headers.len() && query.spec_selects(
                #[trigger] db.dht_ops[i],
                #[trigger] db.headers[j],
            );
        assert(after.headers[j] == db.headers[j]);
        assert(query.spec_selects(after.dht_ops[i], after.headers[j]));
    }
}

/// An update is metadata on one address alone. Integrated by itself, an update of an element is
/// found on the header that it updates and on no entry.
pub proof fn law_updated_element_is_on_header(
    op: DhtOp,
    base: AnyDhtHash,
    clock: Seq<Timestamp>,
    links: Seq<Link>,
    at: Addresses,
)
    requires
        op is RegisterUpdatedElement,
    ensures
        ({
            let update = op->RegisterUpdatedElement_1;
            let db = set_states(Tables::empty(), seq![Db::Integrated(op)], clock, at);
            Db::MetaUpdate(base, Header::Update(update)).spec_failure(db, links, at) is None
                <==> base == AnyDhtHash::Header(update.original_header_address)
        }),
{
    lemma_single_update(op, base, clock, links, at);
}

/// An update is metadata on one address alone. Integrated by itself, an update of content is found
/// on the entry that it replaces and on no header.
pub proof fn law_updated_content_is_on_entry(
    op: DhtOp,
    base: AnyDhtHash,
    clock: Seq<Timestamp>,
    links: Seq<Link>,
    at: Addresses,
)
    requires
        op is RegisterUpdatedContent,
    ensures
        ({
            let update = op->RegisterUpdatedContent_1;
            let db = set_states(Tables::empty(), seq![Db::Integrated(op)], clock, at);
            Db::MetaUpdate(base, Header::Update(update)).spec_failure(db, links, at) is None
                <==> base == AnyDhtHash::Entry(update.original_entry_address)
        }),
{
    lemma_single_update(op, base, clock, links, at);
}

proof fn lemma_single_update(
    op: DhtOp,
    base: AnyDhtHash,
    clock: Seq<Timestamp>,
    links: Seq<Link>,
    at: Addresses,
)
    requires
        op is RegisterUpdatedElement || op is RegisterUpdatedContent,
    ensures
        Db::MetaUpdate(base, op.spec_header()).spec_failure(
            set_states(Tables::empty(), seq![Db::Integrated(op)], clock, at),
            links,
            at,
        ) is None <==> base == op.spec_basis(at.header_of(op)),
{
    let db = set_states(Tables::empty(), seq![Db::Integrated(op)], clock, at);
    lemma_single_state(Db::Integrated(op), clock, at);
    if base == op.spec_basis(at.header_of(op)) {
        law_integrated_op_shows(db, op, Db::MetaUpdate(base, op.spec_header()), links, at);
    }
}

/// A delete can be registered with the header that it deletes: integrated by itself, it is stored
/// with that header as its basis, and it is found.
pub proof fn law_delete_is_on_header(
    op: DhtOp,
    clock: Seq<Timestamp>,
    links: Seq<Link>,
    at: Addresses,
)
    requires
        op is RegisterDeletedBy,
    ensures
        ({
            let delete = op->RegisterDeletedBy_1;
            let db = set_states(Tables::empty(), seq![Db::Integrated(op)], clock, at);
            &&& db.dht_ops.len() == 1
            &&& db.dht_ops[0].op_type == op.spec_op_type()
            &&& db.dht_ops[0].basis_hash == AnyDhtHash::Header(delete.deletes_address)
            &&& Db::MetaDelete(delete.deletes_address, Header::Delete(delete)).spec_failure(
                db,
                links,
                at,
            ) is None
        }),
{
    let delete = op->RegisterDeletedBy_1;
    let db = set_states(Tables::empty(), seq![Db::Integrated(op)], clock, at);
    lemma_single_state(Db::Integrated(op), clock, at);
    law_integrated_op_shows(
        db,
        op,
        Db::MetaDelete(delete.deletes_address, Header::Delete(delete)),
        links,
        at,
    );
}

/// A link, and the removal of one, is registered with the entry that is the link's base.
pub proof fn law_link_is_on_base(op: DhtOp, clock: Seq<Timestamp>, at: Addresses)
    requires
        op is RegisterAddLink || op is RegisterRemoveLink,
    ensures
        ({
            let base = match op {
                DhtOp::RegisterAddLink(_, link) => link.base_address,
                DhtOp::RegisterRemoveLink(_, link) => link.base_address,
                _ => arbitrary(),
            };
            let db = set_states(Tables::empty(), seq![Db::Integrated(op)], clock, at);
            &&& db.dht_ops.len() == 1
            &&& db.dht_ops[0].op_type == op.spec_op_type()
            &&& db.dht_ops[0].basis_hash == AnyDhtHash::Entry(base)
        }),
{
    lemma_single_state(Db::Integrated(op), clock, at);
}

} // verus!
