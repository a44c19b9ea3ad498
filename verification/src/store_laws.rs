//! What is stored: what each write does to the tables, and what is in them once states were set.

use vstd::prelude::*;

use crate::address::{AnyDhtHash, DhtOpHash, Timestamp};
use crate::content::{Entry, Signature};
use crate::db::{plan, Db};
use crate::env::{DhtOpRow, EntryRow, Mutation, Tables, ValidationStatus};
use crate::hasher::Addresses;
use crate::header::{CreateLink, Delete, DeleteLink, Header, NewEntryHeader, Update};
use crate::laws::{
    all_settable, lemma_apply_all_concat, lemma_last_state, lemma_one_state, op_of, set_states,
};
use crate::op::{DhtOp, DhtOpHashed, DhtOpType};

verus! {

/// An empty database has no operation, no header and no entry.
pub proof fn law_empty_tables_have_no_rows()
    ensures
        Tables::empty().dht_ops.len() == 0,
        Tables::empty().headers.len() == 0,
        Tables::empty().entries.len() == 0,
{
}

/// Writes are made one after the other: none leave the tables as they are, one is made as it is
/// alone, and two lists are made by making the first and then the second.
pub proof fn law_writes_are_made_in_order(
    db: Tables,
    mutation: Mutation,
    first: Seq<Mutation>,
    second: Seq<Mutation>,
    at: Addresses,
)
    ensures
        db.apply_all(Seq::empty(), at) == db,
        db.apply_all(seq![mutation], at) == db.apply(mutation, at),
        db.apply_all(first + second, at) == db.apply_all(first, at).apply_all(second, at),
{
    reveal_with_fuel(Tables::apply_all, 2);
    assert(seq![mutation].drop_last() =~= Seq::empty());
    lemma_apply_all_concat(db, first, second, at);
}

/// A write that marks an operation changes one column of the rows under its address, to the value
/// that is written. The other columns, the other rows and the other tables stay as they are.
pub proof fn law_marking_changes_one_column(
    db: Tables,
    hash: DhtOpHash,
    when: Timestamp,
    status: ValidationStatus,
    stage: u8,
    at: Addresses,
)
    ensures
        ({
            let after = db.apply(Mutation::SetWhenIntegrated(hash, when), at);
            &&& after.headers == db.headers
            &&& after.entries == db.entries
            &&& after.dht_ops.len() == db.dht_ops.len()
            &&& forall|i: int|
                0 <= i < db.dht_ops.len() && db.dht_ops[i].hash != hash
                    ==> #[trigger] after.dht_ops[i] == db.dht_ops[i]
            &&& forall|i: int|
                0 <= i < db.dht_ops.len() && db.dht_ops[i].hash == hash
                    ==> #[trigger] after.dht_ops[i] == (DhtOpRow {
                    when_integrated: Some(when),
                    ..db.dht_ops[i]
                })
        }),
        ({
            let after = db.apply(Mutation::SetValidationStatus(hash, status), at);
            &&& after.headers == db.headers
            &&& after.entries == db.entries
            &&& after.dht_ops.len() == db.dht_ops.len()
            &&& forall|i: int|
                0 <= i < db.dht_ops.len() && db.dht_ops[i].hash != hash
                    ==> #[trigger] after.dht_ops[i] == db.dht_ops[i]
            &&& forall|i: int|
                0 <= i < db.dht_ops.len() && db.dht_ops[i].hash == hash
                    ==> #[trigger] after.dht_ops[i] == (DhtOpRow {
                    validation_status: Some(status),
                    ..db.dht_ops[i]
                })
        }),
        ({
            let after = db.apply(Mutation::SetValidationStage(hash, stage), at);
            &&& after.headers == db.headers
            &&& after.entries == db.entries
            &&& after.dht_ops.len() == db.dht_ops.len()
            &&& forall|i: int|
                0 <= i < db.dht_ops.len() && db.dht_ops[i].hash != hash
                    ==> #[trigger] after.dht_ops[i] == db.dht_ops[i]
            &&& forall|i: int|
                0 <= i < db.dht_ops.len() && db.dht_ops[i].hash == hash
                    ==> #[trigger] after.dht_ops[i] == (DhtOpRow {
                    validation_stage: Some(stage),
                    ..db.dht_ops[i]
                })
        }),
{
}

/// An operation is stored with its header and its entry, each in its own table: what it puts into
/// empty tables it adds to any others, behind what is there, except where there is a row under
/// the same address already. A new row is neither validated nor integrated, and it keeps the
/// address and the authorship that it was stored with.
pub proof fn law_inserting_adds_what_is_not_there(
    db: Tables,
    op: DhtOp,
    hash: DhtOpHash,
    is_authored: bool,
    at: Addresses,
)
    ensures
        ({
            let write = Mutation::InsertOp(DhtOpHashed { content: op, hash }, is_authored);
            let alone = Tables::empty().apply(write, at);
            let after = db.apply(write, at);
            &&& alone.dht_ops.len() == 1
            &&& alone.dht_ops[0].hash == hash
            &&& alone.dht_ops[0].is_authored == is_authored
            &&& alone.dht_ops[0].when_integrated is None
            &&& alone.dht_ops[0].validation_status is None
            &&& alone.dht_ops[0].validation_stage is None
            &&& alone.headers.len() == 1
            &&& alone.headers[0].hash == alone.dht_ops[0].header_hash
            &&& alone.entries.len() <= 1
            &&& after.dht_ops == if exists|i: int|
                0 <= i < db.dht_ops.len() && (#[trigger] db.dht_ops[i]).hash == hash {
                db.dht_ops
            } else {
                db.dht_ops + alone.dht_ops
            }
            &&& after.headers == if exists|i: int|
                0 <= i < db.headers.len() && (#[trigger] db.headers[i]).hash
                    == alone.headers[0].hash {
                db.headers
            } else {
                db.headers + alone.headers
            }
            &&& after.entries == if alone.entries.len() == 0 || exists|i: int|
                0 <= i < db.entries.len() && (#[trigger] db.entries[i]).hash
                    == alone.entries[0].hash {
                db.entries
            } else {
                db.entries + alone.entries
            }
        }),
{
}

/// Three writes bring about each state, in the order of the states: the operation is stored under
/// its own address, as one that another agent wrote; it is marked as integrated at the time given,
/// or as come to the third stage; and it is marked valid.
pub proof fn law_three_writes_for_each_state(
    states: Seq<Db>,
    clock: Seq<Timestamp>,
    k: int,
    op: DhtOp,
    at: Addresses,
)
    requires
        all_settable(states),
        0 <= k < states.len(),
        states[k] == Db::Integrated(op) || states[k] == Db::IntQueue(op),
    ensures
        ({
            let writes = plan(states, clock, at);
            let hash = (at.op)(op);
            &&& writes.len() == 3 * states.len()
            &&& writes[3 * k] == Mutation::InsertOp(DhtOpHashed { content: op, hash }, false)
            &&& states[k] is Integrated ==> writes[3 * k + 1] == Mutation::SetWhenIntegrated(
                hash,
                clock[k],
            )
            &&& states[k] is IntQueue ==> writes[3 * k + 1] == Mutation::SetValidationStage(
                hash,
                3u8,
            )
            &&& writes[3 * k + 2] == Mutation::SetValidationStatus(hash, ValidationStatus::Valid)
        }),
    decreases states.len(),
{
    let rest = states.drop_last();
    assert(all_settable(rest)) by {
        assert forall|i: int| 0 <= i < rest.len() implies (#[trigger] rest[i]).settable() by {
            assert(rest[i] == states[i]);
        }
    }
    lemma_plan_len(rest, clock, at);
    assert(states.last() == states[states.len() - 1]);
    assert(states.last().settable());
    if k < rest.len() {
        assert(rest[k] == states[k]);
        law_three_writes_for_each_state(rest, clock, k, op, at);
    }
}

proof fn lemma_plan_len(states: Seq<Db>, clock: Seq<Timestamp>, at: Addresses)
    requires
        all_settable(states),
    ensures
        plan(states, clock, at).len() == 3 * states.len(),
    decreases states.len(),
{
    if states.len() > 0 {
        let rest = states.drop_last();
        assert forall|i: int| 0 <= i < rest.len() implies (#[trigger] rest[i]).settable() by {
            assert(rest[i] == states[i]);
        }
        lemma_plan_len(rest, clock, at);
        assert(states[states.len() - 1].settable());
    }
}

/// What the writes for one state leave in the tables of headers and entries, beside what they do
/// to the operations.
proof fn lemma_one_state_contents(db: Tables, state: Db, now: Timestamp, at: Addresses)
    requires
        state.settable(),
    ensures
        ({
            let after = db.apply_all(state.spec_mutations(now, at), at);
            &&& after.headers == db.insert_header(op_of(state).spec_header(), at).headers
            &&& after.entries == db.insert_entry(op_of(state).spec_entry(), at).entries
        }),
{
    reveal_with_fuel(Tables::apply_all, 4);
    let m = state.spec_mutations(now, at);
    assert(m.drop_last().last() == m[1]);
    assert(m.drop_last().drop_last().last() == m[0]);
    assert(m.drop_last().drop_last().drop_last().len() == 0);
}

/// What one state leaves in empty tables.
pub(crate) proof fn lemma_alone(state: Db, clock: Seq<Timestamp>, at: Addresses)
    requires
        state.settable(),
    ensures
        ({
            let db = set_states(Tables::empty(), seq![state], clock, at);
            let op = op_of(state);
            let header = op.spec_header();
            &&& db.dht_ops.len() == 1
            &&& db.dht_ops[0] == (DhtOpRow {
                hash: (at.op)(op),
                op_type: op.spec_op_type(),
                basis_hash: op.spec_basis((at.header)(header)),
                header_hash: (at.header)(header),
                is_authored: false,
                when_integrated: if state is Integrated {
                    Some(clock[0])
                } else {
                    None
                },
                validation_status: Some(ValidationStatus::Valid),
                validation_stage: if state is IntQueue {
                    Some(3u8)
                } else {
                    None
                },
            })
            &&& db.headers.len() == 1
            &&& db.headers[0].hash == (at.header)(header)
            &&& db.headers[0].entry_hash == header.spec_entry_hash()
            &&& db.headers[0].deletes_header_hash == header.spec_deletes_header_hash()
            &&& db.entries == match op.spec_entry() {
                Some(entry) => seq![EntryRow { hash: (at.entry)(entry), entry }],
                None => Seq::empty(),
            }
        }),
{
    let states = seq![state];
    assert(states.drop_last() =~= Seq::empty());
    lemma_last_state(Tables::empty(), states, clock, at);
    lemma_one_state(Tables::empty(), states[0], clock[0], at);
    lemma_one_state_contents(Tables::empty(), states[0], clock[0], at);
}

/// A state that is set alone leaves one operation, under its own address, written by another agent
/// and valid. It has the time of integration if it is to be integrated, and else has come to the
/// third stage. One header is left beside it, the operation's.
pub proof fn law_one_op_is_set(op: DhtOp, clock: Seq<Timestamp>, at: Addresses)
    ensures
        ({
            let db = set_states(Tables::empty(), seq![Db::Integrated(op)], clock, at);
            &&& db.dht_ops.len() == 1
            &&& db.dht_ops[0].hash == (at.op)(op)
            &&& !db.dht_ops[0].is_authored
            &&& db.dht_ops[0].when_integrated == Some(clock[0])
            &&& db.dht_ops[0].validation_status == Some(ValidationStatus::Valid)
            &&& db.dht_ops[0].validation_stage is None
            &&& db.headers.len() == 1
            &&& db.headers[0].hash == db.dht_ops[0].header_hash
        }),
        ({
            let db = set_states(Tables::empty(), seq![Db::IntQueue(op)], clock, at);
            &&& db.dht_ops.len() == 1
            &&& db.dht_ops[0].hash == (at.op)(op)
            &&& !db.dht_ops[0].is_authored
            &&& db.dht_ops[0].when_integrated is None
            &&& db.dht_ops[0].validation_status == Some(ValidationStatus::Valid)
            &&& db.dht_ops[0].validation_stage == Some(3u8)
            &&& db.headers.len() == 1
            &&& db.headers[0].hash == db.dht_ops[0].header_hash
        }),
{
    lemma_alone(Db::Integrated(op), clock, at);
    lemma_alone(Db::IntQueue(op), clock, at);
}

/// An element is stored on its header, with its entry if there is one. The row of the header names
/// the entry if the header brings one, and the header that it deletes if it deletes one.
pub proof fn law_element_is_stored(
    signature: Signature,
    header: Header,
    entry: Option<Entry>,
    state: Db,
    clock: Seq<Timestamp>,
    at: Addresses,
)
    requires
        ({
            let op = DhtOp::StoreElement(signature, header, entry);
            state == Db::Integrated(op) || state == Db::IntQueue(op)
        }),
    ensures
        ({
            let db = set_states(Tables::empty(), seq![state], clock, at);
            &&& db.dht_ops[0].op_type == DhtOpType::StoreElement
            &&& db.dht_ops[0].basis_hash == AnyDhtHash::Header((at.header)(header))
            &&& db.dht_ops[0].header_hash == (at.header)(header)
            &&& db.headers[0].entry_hash == match header {
                Header::Create(h) => Some(h.entry_hash),
                Header::Update(h) => Some(h.entry_hash),
                _ => None,
            }
            &&& db.headers[0].deletes_header_hash == match header {
                Header::Delete(h) => Some(h.deletes_address),
                _ => None,
            }
            &&& entry is None ==> db.entries.len() == 0
            &&& entry matches Some(entry) ==> {
                &&& db.entries.len() == 1
                &&& db.entries[0].hash == (at.entry)(entry)
                &&& db.entries[0].entry == entry
            }
        }),
{
    lemma_alone(state, clock, at);
}

/// An entry is stored on the address that its header names, with the entry and the header.
pub proof fn law_entry_is_stored(
    signature: Signature,
    header: NewEntryHeader,
    entry: Entry,
    state: Db,
    clock: Seq<Timestamp>,
    at: Addresses,
)
    requires
        ({
            let op = DhtOp::StoreEntry(signature, header, entry);
            state == Db::Integrated(op) || state == Db::IntQueue(op)
        }),
    ensures
        ({
            let db = set_states(Tables::empty(), seq![state], clock, at);
            &&& db.dht_ops[0].op_type == DhtOpType::StoreEntry
            &&& match header {
                NewEntryHeader::Create(h) => {
                    &&& db.dht_ops[0].basis_hash == AnyDhtHash::Entry(h.entry_hash)
                    &&& db.dht_ops[0].header_hash == (at.header)(Header::Create(h))
                    &&& db.headers[0].entry_hash == Some(h.entry_hash)
                },
                NewEntryHeader::Update(h) => {
                    &&& db.dht_ops[0].basis_hash == AnyDhtHash::Entry(h.entry_hash)
                    &&& db.dht_ops[0].header_hash == (at.header)(Header::Update(h))
                    &&& db.headers[0].entry_hash == Some(h.entry_hash)
                },
            }
            &&& db.headers[0].deletes_header_hash is None
            &&& db.entries.len() == 1
            &&& db.entries[0].hash == (at.entry)(entry)
            &&& db.entries[0].entry == entry
        }),
{
    lemma_alone(state, clock, at);
}

/// Activity is stored on the agent that the header names as its author, without an entry.
pub proof fn law_activity_is_stored_on_author(
    signature: Signature,
    header: Header,
    state: Db,
    clock: Seq<Timestamp>,
    at: Addresses,
)
    requires
        ({
            let op = DhtOp::RegisterAgentActivity(signature, header);
            state == Db::Integrated(op) || state == Db::IntQueue(op)
        }),
    ensures
        ({
            let db = set_states(Tables::empty(), seq![state], clock, at);
            &&& db.dht_ops[0].op_type == DhtOpType::RegisterAgentActivity
            &&& db.dht_ops[0].basis_hash == match header {
                Header::Dna(h) => AnyDhtHash::Agent(h.author),
                Header::AgentValidationPkg(h) => AnyDhtHash::Agent(h.chain.author),
                Header::InitZomesComplete(h) => AnyDhtHash::Agent(h.chain.author),
                Header::CreateLink(h) => AnyDhtHash::Agent(h.chain.author),
                Header::DeleteLink(h) => AnyDhtHash::Agent(h.chain.author),
                Header::OpenChain(h) => AnyDhtHash::Agent(h.chain.author),
                Header::CloseChain(h) => AnyDhtHash::Agent(h.chain.author),
                Header::Create(h) => AnyDhtHash::Agent(h.chain.author),
                Header::Update(h) => AnyDhtHash::Agent(h.chain.author),
                Header::Delete(h) => AnyDhtHash::Agent(h.chain.author),
            }
            &&& db.dht_ops[0].header_hash == (at.header)(header)
            &&& db.headers[0].entry_hash == match header {
                Header::Create(h) => Some(h.entry_hash),
                Header::Update(h) => Some(h.entry_hash),
                _ => None,
            }
            &&& db.headers[0].deletes_header_hash == match header {
                Header::Delete(h) => Some(h.deletes_address),
                _ => None,
            }
            &&& db.entries.len() == 0
        }),
{
    lemma_alone(state, clock, at);
}

/// An update is stored on the entry that it replaces, or on the header that it updates, with the
/// new entry if there is one.
pub proof fn law_update_is_stored(
    signature: Signature,
    update: Update,
    entry: Option<Entry>,
    of_content: bool,
    state: Db,
    clock: Seq<Timestamp>,
    at: Addresses,
)
    requires
        ({
            let op = if of_content {
                DhtOp::RegisterUpdatedContent(signature, update, entry)
            } else {
                DhtOp::RegisterUpdatedElement(signature, update, entry)
            };
            state == Db::Integrated(op) || state == Db::IntQueue(op)
        }),
    ensures
        ({
            let db = set_states(Tables::empty(), seq![state], clock, at);
            &&& of_content ==> {
                &&& db.dht_ops[0].op_type == DhtOpType::RegisterUpdatedContent
                &&& db.dht_ops[0].basis_hash == AnyDhtHash::Entry(update.original_entry_address)
            }
            &&& !of_content ==> {
                &&& db.dht_ops[0].op_type == DhtOpType::RegisterUpdatedElement
                &&& db.dht_ops[0].basis_hash == AnyDhtHash::Header(update.original_header_address)
            }
            &&& db.dht_ops[0].header_hash == (at.header)(Header::Update(update))
            &&& db.headers[0].entry_hash == Some(update.entry_hash)
            &&& db.headers[0].deletes_header_hash is None
            &&& entry is None ==> db.entries.len() == 0
            &&& entry matches Some(entry) ==> {
                &&& db.entries.len() == 1
                &&& db.entries[0].hash == (at.entry)(entry)
                &&& db.entries[0].entry == entry
            }
        }),
{
    lemma_alone(state, clock, at);
}

/// A delete is stored on the header that it deletes, or on that header's entry. The row of its
/// header names the header that it deletes, and there is no entry.
pub proof fn law_delete_is_stored(
    signature: Signature,
    delete: Delete,
    of_header: bool,
    state: Db,
    clock: Seq<Timestamp>,
    at: Addresses,
)
    requires
        ({
            let op = if of_header {
                DhtOp::RegisterDeletedBy(signature, delete)
            } else {
                DhtOp::RegisterDeletedEntryHeader(signature, delete)
            };
            state == Db::Integrated(op) || state == Db::IntQueue(op)
        }),
    ensures
        ({
            let db = set_states(Tables::empty(), seq![state], clock, at);
            &&& of_header ==> {
                &&& db.dht_ops[0].op_type == DhtOpType::RegisterDeletedBy
                &&& db.dht_ops[0].basis_hash == AnyDhtHash::Header(delete.deletes_address)
            }
            &&& !of_header ==> {
                &&& db.dht_ops[0].op_type == DhtOpType::RegisterDeletedEntryHeader
                &&& db.dht_ops[0].basis_hash == AnyDhtHash::Entry(delete.deletes_entry_address)
            }
            &&& db.dht_ops[0].header_hash == (at.header)(Header::Delete(delete))
            &&& db.headers[0].entry_hash is None
            &&& db.headers[0].deletes_header_hash == Some(delete.deletes_address)
            &&& db.entries.len() == 0
        }),
{
    lemma_alone(state, clock, at);
}

/// A link is stored on the entry that is its base, without an entry.
pub proof fn law_link_is_stored(
    signature: Signature,
    link: CreateLink,
    state: Db,
    clock: Seq<Timestamp>,
    at: Addresses,
)
    requires
        ({
            let op = DhtOp::RegisterAddLink(signature, link);
            state == Db::Integrated(op) || state == Db::IntQueue(op)
        }),
    ensures
        ({
            let db = set_states(Tables::empty(), seq![state], clock, at);
            &&& db.dht_ops[0].op_type == DhtOpType::RegisterAddLink
            &&& db.dht_ops[0].basis_hash == AnyDhtHash::Entry(link.base_address)
            &&& db.dht_ops[0].header_hash == (at.header)(Header::CreateLink(link))
            &&& db.headers[0].entry_hash is None
            &&& db.headers[0].deletes_header_hash is None
            &&& db.entries.len() == 0
        }),
{
    lemma_alone(state, clock, at);
}

/// The removal of a link is stored on the entry that is the link's base, without an entry.
pub proof fn law_link_removal_is_stored(
    signature: Signature,
    removal: DeleteLink,
    state: Db,
    clock: Seq<Timestamp>,
    at: Addresses,
)
    requires
        ({
            let op = DhtOp::RegisterRemoveLink(signature, removal);
            state == Db::Integrated(op) || state == Db::IntQueue(op)
        }),
    ensures
        ({
            let db = set_states(Tables::empty(), seq![state], clock, at);
            &&& db.dht_ops[0].op_type == DhtOpType::RegisterRemoveLink
            &&& db.dht_ops[0].basis_hash == AnyDhtHash::Entry(removal.base_address)
            &&& db.dht_ops[0].header_hash == (at.header)(Header::DeleteLink(removal))
            &&& db.headers[0].entry_hash is None
            &&& db.headers[0].deletes_header_hash is None
            &&& db.entries.len() == 0
        }),
{
    lemma_alone(state, clock, at);
}

/// Writes keep every entry under its own address, and take away no header and no entry: what is in
/// those two tables stays, in its place and as it is.
pub proof fn law_writes_keep_contents(db: Tables, mutations: Seq<Mutation>, at: Addresses)
    ensures
        ({
            let after = db.apply_all(mutations, at);
            &&& (forall|i: int|
                0 <= i < db.entries.len() ==> (#[trigger] db.entries[i]).hash == (at.entry)(
                    db.entries[i].entry,
                )) ==> forall|i: int|
                0 <= i < after.entries.len() ==> (#[trigger] after.entries[i]).hash == (at.entry)(
                    after.entries[i].entry,
                )
            &&& db.entries.len() <= after.entries.len()
            &&& forall|i: int|
                0 <= i < db.entries.len() ==> #[trigger] after.entries[i] == db.entries[i]
            &&& db.headers.len() <= after.headers.len()
            &&& forall|i: int|
                0 <= i < db.headers.len() ==> #[trigger] after.headers[i] == db.headers[i]
        }),
    decreases mutations.len(),
{
    if mutations.len() > 0 {
        law_writes_keep_contents(db, mutations.drop_last(), at);
    }
}

/// What an operation carries is stored with it: after the database was set to states, the entry of
/// each operation that was made with one is found under the entry's address. If no other entry
/// shares that address, it is this very entry.
pub proof fn law_carried_entry_is_stored(
    db: Tables,
    states: Seq<Db>,
    clock: Seq<Timestamp>,
    k: int,
    op: DhtOp,
    signature: Signature,
    header: Header,
    new_entry_header: NewEntryHeader,
    update: Update,
    entry: Entry,
    at: Addresses,
)
    requires
        all_settable(states),
        0 <= k < states.len(),
        states[k] == Db::Integrated(op) || states[k] == Db::IntQueue(op),
        ({
            ||| op == DhtOp::StoreElement(signature, header, Some(entry))
            ||| op == DhtOp::StoreEntry(signature, new_entry_header, entry)
            ||| op == DhtOp::RegisterUpdatedContent(signature, update, Some(entry))
            ||| op == DhtOp::RegisterUpdatedElement(signature, update, Some(entry))
        }),
    ensures
        ({
            let after = set_states(db, states, clock, at);
            &&& exists|i: int|
                0 <= i < after.entries.len() && (#[trigger] after.entries[i]).hash == (at.entry)(
                    entry,
                )
            &&& (forall|other: Entry| #[trigger] (at.entry)(other) == (at.entry)(entry) ==> other
                == entry) && (forall|i: int|
                0 <= i < db.entries.len() ==> (#[trigger] db.entries[i]).hash == (at.entry)(
                    db.entries[i].entry,
                )) ==> after.entries.contains(EntryRow { hash: (at.entry)(entry), entry })
        }),
    decreases states.len(),
{
    let n = states.len() - 1;
    let rest = states.drop_last();
    let before = set_states(db, rest, clock, at);
    let after = set_states(db, states, clock, at);
    assert(states[n].settable());
    assert forall|i: int| 0 <= i < rest.len() implies (#[trigger] rest[i]).settable() by {
        assert(rest[i] == states[i]);
    }
    lemma_last_state(db, states, clock, at);
    lemma_one_state_contents(before, states[n], clock[n], at);
    if k < n {
        assert(rest[k] == states[k]);
        law_carried_entry_is_stored(
            db,
            rest,
            clock,
            k,
            op,
            signature,
            header,
            new_entry_header,
            update,
            entry,
            at,
        );
        let i = choose|i: int|
            0 <= i < before.entries.len() && (#[trigger] before.entries[i]).hash == (at.entry)(
                entry,
            );
        assert(after.entries[i] == before.entries[i]);
    } else {
        assert(op_of(states[n]).spec_entry() == Some(entry));
        if before.has_entry((at.entry)(entry)) {
            let i = choose|i: int|
                0 <= i < before.entries.len() && (#[trigger] before.entries[i]).hash == (at.entry)(
                    entry,
                );
            assert(after.entries[i] == before.entries[i]);
        } else {
            let i = before.entries.len() as int;
            assert(after.entries[i] == EntryRow { hash: (at.entry)(entry), entry });
        }
    }
    law_writes_keep_contents(db, plan(states, clock, at), at);
    let i = choose|i: int|
        0 <= i < after.entries.len() && (#[trigger] after.entries[i]).hash == (at.entry)(entry);
    if (forall|other: Entry| #[trigger] (at.entry)(other) == (at.entry)(entry) ==> other == entry)
        && (forall|i: int|
        0 <= i < db.entries.len() ==> (#[trigger] db.entries[i]).hash == (at.entry)(
            db.entries[i].entry,
        )) {
        assert((at.entry)(after.entries[i].entry) == (at.entry)(entry));
        assert(after.entries[i] == EntryRow { hash: (at.entry)(entry), entry });
    }
}

/// Nothing is stored that no state asks for: a header or an entry that was not there before is one
/// that some state leaves where it is set alone.
pub proof fn law_nothing_else_is_stored(
    db: Tables,
    states: Seq<Db>,
    clock: Seq<Timestamp>,
    i: int,
    at: Addresses,
)
    requires
        all_settable(states),
    ensures
        ({
            let after = set_states(db, states, clock, at);
            &&& db.headers.len() <= i < after.headers.len() ==> exists|k: int|
                0 <= k < states.len() && set_states(
                    Tables::empty(),
                    seq![#[trigger] states[k]],
                    seq![clock[k]],
                    at,
                ).headers == seq![after.headers[i]]
            &&& db.entries.len() <= i < after.entries.len() ==> exists|k: int|
                0 <= k < states.len() && set_states(
                    Tables::empty(),
                    seq![#[trigger] states[k]],
                    seq![clock[k]],
                    at,
                ).entries == seq![after.entries[i]]
        }),
    decreases states.len(),
{
    if states.len() > 0 {
        let n = states.len() - 1;
        let rest = states.drop_last();
        let before = set_states(db, rest, clock, at);
        let after = set_states(db, states, clock, at);
        assert(states[n].settable());
        assert forall|j: int| 0 <= j < rest.len() implies (#[trigger] rest[j]).settable() by {
            assert(rest[j] == states[j]);
        }
        law_nothing_else_is_stored(db, rest, clock, i, at);
        lemma_last_state(db, states, clock, at);
        lemma_one_state_contents(before, states[n], clock[n], at);
        lemma_alone(states[n], seq![clock[n]], at);
        if db.headers.len() <= i < before.headers.len() {
            let k = choose|k: int|
                0 <= k < rest.len() && set_states(
                    Tables::empty(),
                    seq![#[trigger] rest[k]],
                    seq![clock[k]],
                    at,
                ).headers == seq![before.headers[i]];
            assert(states[k] == rest[k]);
            assert(after.headers[i] == before.headers[i]);
        } else if db.headers.len() <= i < after.headers.len() {
            assert(set_states(
                Tables::empty(),
                seq![states[n]],
                seq![clock[n]],
                at,
            ).headers =~= seq![after.headers[i]]);
        }
        if db.entries.len() <= i < before.entries.len() {
            let k = choose|k: int|
                0 <= k < rest.len() && set_states(
                    Tables::empty(),
                    seq![#[trigger] rest[k]],
                    seq![clock[k]],
                    at,
                ).entries == seq![before.entries[i]];
            assert(states[k] == rest[k]);
            assert(after.entries[i] == before.entries[i]);
        } else if db.entries.len() <= i < after.entries.len() {
            assert(set_states(
                Tables::empty(),
                seq![states[n]],
                seq![clock[n]],
                at,
            ).entries =~= seq![after.entries[i]]);
        }
    }
}

/// A state is set among others as it is alone: its operation and its header are found under their
/// addresses, and if neither the database nor another state speaks of the operation, its row is the
/// one that the state leaves alone.
pub proof fn law_each_state_is_set(
    db: Tables,
    states: Seq<Db>,
    clock: Seq<Timestamp>,
    k: int,
    at: Addresses,
)
    requires
        all_settable(states),
        0 <= k < states.len(),
    ensures
        ({
            let after = set_states(db, states, clock, at);
            let alone = set_states(Tables::empty(), seq![states[k]], seq![clock[k]], at);
            &&& exists|i: int|
                0 <= i < after.dht_ops.len() && (#[trigger] after.dht_ops[i]).hash
                    == alone.dht_ops[0].hash
            &&& exists|i: int|
                0 <= i < after.headers.len() && (#[trigger] after.headers[i]).hash
                    == alone.headers[0].hash
            &&& (forall|i: int|
                0 <= i < db.dht_ops.len() ==> (#[trigger] db.dht_ops[i]).hash
                    != alone.dht_ops[0].hash) && (forall|j: int|
                0 <= j < states.len() && j != k ==> (at.op)(op_of(#[trigger] states[j]))
                    != alone.dht_ops[0].hash) ==> forall|i: int|
                0 <= i < after.dht_ops.len() && (#[trigger] after.dht_ops[i]).hash
                    == alone.dht_ops[0].hash ==> after.dht_ops[i] == alone.dht_ops[0]
        }),
    decreases states.len(),
{
    let n = states.len() - 1;
    let rest = states.drop_last();
    let before = set_states(db, rest, clock, at);
    let after = set_states(db, states, clock, at);
    let alone = set_states(Tables::empty(), seq![states[k]], seq![clock[k]], at);
    let hash = alone.dht_ops[0].hash;
    assert(states[n].settable());
    assert forall|j: int| 0 <= j < rest.len() implies (#[trigger] rest[j]).settable() by {
        assert(rest[j] == states[j]);
    }
    lemma_last_state(db, states, clock, at);
    lemma_one_state(before, states[n], clock[n], at);
    lemma_alone(states[k], seq![clock[k]], at);
    if k < n {
        assert(rest[k] == states[k]);
        law_each_state_is_set(db, rest, clock, k, at);
        let i = choose|i: int|
            0 <= i < before.dht_ops.len() && (#[trigger] before.dht_ops[i]).hash == hash;
        assert(after.dht_ops[i].hash == hash);
        let i = choose|i: int|
            0 <= i < before.headers.len() && (#[trigger] before.headers[i]).hash
                == alone.headers[0].hash;
        assert(after.headers[i] == before.headers[i]);
        if forall|j: int|
            0 <= j < states.len() && j != k ==> (at.op)(op_of(#[trigger] states[j])) != hash {
            assert forall|j: int| 0 <= j < rest.len() && j != k implies (at.op)(
                op_of(#[trigger] rest[j]),
            ) != hash by {
                assert(rest[j] == states[j]);
            }
            assert((at.op)(op_of(states[n])) != hash);
        }
    } else if forall|j: int|
        0 <= j < states.len() && j != k ==> (at.op)(op_of(#[trigger] states[j])) != hash {
        lemma_no_row(db, rest, clock, hash, at);
    }
}

/// An operation that neither the database nor a state speaks of has no row.
proof fn lemma_no_row(
    db: Tables,
    states: Seq<Db>,
    clock: Seq<Timestamp>,
    hash: DhtOpHash,
    at: Addresses,
)
    requires
        all_settable(states),
    ensures
        !db.has_op(hash) && (forall|j: int|
            0 <= j < states.len() ==> (at.op)(op_of(#[trigger] states[j])) != hash)
            ==> !set_states(db, states, clock, at).has_op(hash),
    decreases states.len(),
{
    if states.len() > 0 {
        let n = states.len() - 1;
        let rest = states.drop_last();
        let before = set_states(db, rest, clock, at);
        let after = set_states(db, states, clock, at);
        assert(states[n].settable());
        assert forall|j: int| 0 <= j < rest.len() implies (#[trigger] rest[j]) == states[j] by {}
        lemma_no_row(db, rest, clock, hash, at);
        lemma_last_state(db, states, clock, at);
        lemma_one_state(before, states[n], clock[n], at);
        if !db.has_op(hash) && (forall|j: int|
            0 <= j < states.len() ==> (at.op)(op_of(#[trigger] states[j])) != hash) {
            assert((at.op)(op_of(states[n])) != hash);
            assert forall|i: int| 0 <= i < after.dht_ops.len() implies (
            #[trigger] after.dht_ops[i]).hash != hash by {
                if i < before.dht_ops.len() {
                    assert(before.dht_ops[i].hash != hash);
                }
            }
        }
    }
}

} // verus!
