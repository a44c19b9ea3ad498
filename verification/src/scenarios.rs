//! Scenarios of integration.
//!
//! Each names the state that the database is in before the operations are integrated and the
//! state that is expected of it afterwards.

use vstd::prelude::*;

use crate::address::AnyDhtHash;
use crate::db::Db;
use crate::header::Header;
use crate::op::DhtOp;
use crate::test_data::TestData;

verus! {

/// What a scenario sets up and what it expects.
pub struct States {
    pub pre_state: Seq<Db>,
    pub expect: Seq<Db>,
}

/// The scenarios.
#[derive(Clone, Copy, Debug, PartialEq, Eq, Structural, Hash)]
pub enum Scenario {
    StoreElement,
    StoreEntry,
    RegisterAgentActivity,
    RegisterReplacedByForEntry,
    RegisterUpdatedElement,
    RegisterDeletedBy,
    RegisterDeletedHeaderBy,
    RegisterAddLink,
    RegisterDeleteLink,
    RegisterDeleteLinkMissingBase,
}

/// The operation that stores the original entry under its own address.
pub open spec fn store_original_entry(a: TestData) -> DhtOp {
    DhtOp::StoreEntry(a.signature, a.original_header, a.original_entry)
}

/// The operation that stores the original header with its entry.
pub open spec fn store_original_element(a: TestData) -> DhtOp {
    DhtOp::StoreElement(
        a.signature,
        a.original_header.spec_to_header(),
        Some(a.original_entry),
    )
}

impl Scenario {
    /// The operation that waits to be integrated.
    pub open spec fn queued(self, a: TestData) -> DhtOp {
        match self {
            Scenario::StoreElement => DhtOp::StoreElement(
                a.signature,
                a.any_header,
                if a.any_header.spec_entry_hash() is Some {
                    Some(a.original_entry)
                } else {
                    None
                },
            ),
            Scenario::StoreEntry => store_original_entry(a),
            Scenario::RegisterAgentActivity => DhtOp::RegisterAgentActivity(
                a.signature,
                a.dna_header,
            ),
            Scenario::RegisterReplacedByForEntry => DhtOp::RegisterUpdatedContent(
                a.signature,
                a.entry_update_entry,
                Some(a.new_entry),
            ),
            Scenario::RegisterUpdatedElement => DhtOp::RegisterUpdatedElement(
                a.signature,
                a.entry_update_header,
                Some(a.new_entry),
            ),
            Scenario::RegisterDeletedBy => DhtOp::RegisterDeletedEntryHeader(
                a.signature,
                a.entry_delete,
            ),
            Scenario::RegisterDeletedHeaderBy => DhtOp::RegisterDeletedBy(
                a.signature,
                a.entry_delete,
            ),
            Scenario::RegisterAddLink => DhtOp::RegisterAddLink(a.signature, a.link_add),
            Scenario::RegisterDeleteLink => DhtOp::RegisterRemoveLink(a.signature, a.link_remove),
            Scenario::RegisterDeleteLinkMissingBase => DhtOp::RegisterRemoveLink(
                a.signature,
                a.link_remove,
            ),
        }
    }

    /// The state before and the state that is expected afterwards.
    pub open spec fn spec_states(self, a: TestData) -> States {
        let op = self.queued(a);
        match self {
            Scenario::StoreElement => States {
                pre_state: seq![Db::IntQueue(op)],
                expect: if a.any_header.spec_entry_hash() is Some {
                    seq![
                        Db::Integrated(op),
                        Db::CasHeader(a.any_header, None),
                        Db::CasEntry(a.original_entry, None, None),
                    ]
                } else {
                    seq![Db::Integrated(op), Db::CasHeader(a.any_header, None)]
                },
            },
            Scenario::StoreEntry => States {
                pre_state: seq![Db::IntQueue(op)],
                expect: seq![
                    Db::Integrated(op),
                    Db::CasHeader(a.original_header.spec_to_header(), None),
                    Db::CasEntry(a.original_entry, None, None),
                    Db::MetaHeader(a.original_entry, a.original_header.spec_to_header()),
                ],
            },
            Scenario::RegisterAgentActivity => States {
                pre_state: seq![Db::IntQueue(op)],
                expect: seq![Db::Integrated(op), Db::MetaActivity(a.dna_header)],
            },
            Scenario::RegisterReplacedByForEntry => States {
                pre_state: seq![Db::Integrated(store_original_entry(a)), Db::IntQueue(op)],
                expect: seq![
                    Db::Integrated(op),
                    Db::MetaUpdate(
                        AnyDhtHash::Entry(a.original_entry_hash),
                        Header::Update(a.entry_update_entry),
                    ),
                ],
            },
            Scenario::RegisterUpdatedElement => States {
                pre_state: seq![Db::Integrated(store_original_element(a)), Db::IntQueue(op)],
                expect: seq![
                    Db::Integrated(op),
                    Db::MetaUpdate(
                        AnyDhtHash::Header(a.original_header_hash),
                        Header::Update(a.entry_update_header),
                    ),
                ],
            },
            Scenario::RegisterDeletedBy => States {
                pre_state: seq![Db::Integrated(store_original_entry(a)), Db::IntQueue(op)],
                expect: seq![
                    Db::IntQueueEmpty,
                    Db::Integrated(op),
                    Db::MetaDelete(a.original_header_hash, Header::Delete(a.entry_delete)),
                ],
            },
            Scenario::RegisterDeletedHeaderBy => States {
                pre_state: seq![Db::IntQueue(op), Db::Integrated(store_original_element(a))],
                expect: seq![
                    Db::Integrated(op),
                    Db::MetaDelete(a.original_header_hash, Header::Delete(a.entry_delete)),
                ],
            },
            Scenario::RegisterAddLink => States {
                pre_state: seq![Db::Integrated(store_original_entry(a)), Db::IntQueue(op)],
                expect: seq![Db::Integrated(op), Db::MetaLink(a.link_add, a.new_entry_hash)],
            },
            Scenario::RegisterDeleteLink => States {
                pre_state: seq![
                    Db::Integrated(store_original_entry(a)),
                    Db::Integrated(DhtOp::RegisterAddLink(a.signature, a.link_add)),
                    Db::IntQueue(op),
                ],
                expect: seq![Db::Integrated(op), Db::MetaLinkEmpty(a.link_add)],
            },
            Scenario::RegisterDeleteLinkMissingBase => States {
                pre_state: seq![Db::IntQueue(op)],
                expect: seq![Db::IntegratedEmpty, Db::IntQueue(op), Db::MetaEmpty],
            },
        }
    }
}

/// The scenarios, in the order in which they are played.
pub fn scenarios() -> (all: Vec<Scenario>)
    ensures
        all@ == seq![
            Scenario::StoreElement,
            Scenario::StoreEntry,
            Scenario::RegisterAgentActivity,
            Scenario::RegisterReplacedByForEntry,
            Scenario::RegisterUpdatedElement,
            Scenario::RegisterDeletedBy,
            Scenario::RegisterDeletedHeaderBy,
            Scenario::RegisterAddLink,
            Scenario::RegisterDeleteLink,
            Scenario::RegisterDeleteLinkMissingBase,
        ],
{
    let all = vec![
        Scenario::StoreElement,
        Scenario::StoreEntry,
        Scenario::RegisterAgentActivity,
        Scenario::RegisterReplacedByForEntry,
        Scenario::RegisterUpdatedElement,
        Scenario::RegisterDeletedBy,
        Scenario::RegisterDeletedHeaderBy,
        Scenario::RegisterAddLink,
        Scenario::RegisterDeleteLink,
        Scenario::RegisterDeleteLinkMissingBase,
    ];
    all
}

/// A header is stored, with its entry if it brings one.
pub fn store_element(a: TestData) -> (res: (Vec<Db>, Vec<Db>, &'static str))
    ensures
        res.0@ == Scenario::StoreElement.spec_states(a).pre_state,
        res.1@ == Scenario::StoreElement.spec_states(a).expect,
        res.2@ == "store element"@,
{
    let entry = match &a.any_header {
        Header::Create(_) => Some(a.original_entry.clone()),
        Header::Update(_) => Some(a.original_entry.clone()),
        _ => None,
    };
    let brings_entry: bool = entry.is_some();
    let op = DhtOp::StoreElement(a.signature, a.any_header.clone(), entry);
    let pre_state = vec![Db::IntQueue(op.clone())];
    let mut expect = vec![Db::Integrated(op), Db::CasHeader(a.any_header, None)];
    if brings_entry {
        expect.push(Db::CasEntry(a.original_entry, None, None));
    }
    (pre_state, expect, "store element")
}

/// An entry is stored under its own address.
pub fn store_entry(a: TestData) -> (res: (Vec<Db>, Vec<Db>, &'static str))
    ensures
        res.0@ == Scenario::StoreEntry.spec_states(a).pre_state,
        res.1@ == Scenario::StoreEntry.spec_states(a).expect,
        res.2@ == "store entry"@,
{
    let op = DhtOp::StoreEntry(a.signature, a.original_header, a.original_entry.clone());
    let header = a.original_header.to_header();
    let pre_state = vec![Db::IntQueue(op.clone())];
    let expect = vec![
        Db::Integrated(op),
        Db::CasHeader(header.clone(), None),
        Db::CasEntry(a.original_entry.clone(), None, None),
        Db::MetaHeader(a.original_entry, header),
    ];
    (pre_state, expect, "store entry")
}

/// A header is registered with its author.
pub fn register_agent_activity(a: TestData) -> (res: (Vec<Db>, Vec<Db>, &'static str))
    ensures
        res.0@ == Scenario::RegisterAgentActivity.spec_states(a).pre_state,
        res.1@ == Scenario::RegisterAgentActivity.spec_states(a).expect,
        res.2@ == "register agent activity"@,
{
    let op = DhtOp::RegisterAgentActivity(a.signature, a.dna_header.clone());
    let pre_state = vec![Db::IntQueue(op.clone())];
    let expect = vec![Db::Integrated(op), Db::MetaActivity(a.dna_header)];
    (pre_state, expect, "register agent activity")
}

/// An update is registered with the header that it updates.
pub fn register_updated_element(a: TestData) -> (res: (Vec<Db>, Vec<Db>, &'static str))
    ensures
        res.0@ == Scenario::RegisterUpdatedElement.spec_states(a).pre_state,
        res.1@ == Scenario::RegisterUpdatedElement.spec_states(a).expect,
        res.2@ == "register updated element"@,
{
    let original_op = DhtOp::StoreElement(
        a.signature,
        a.original_header.to_header(),
        Some(a.original_entry),
    );
    let op = DhtOp::RegisterUpdatedElement(a.signature, a.entry_update_header, Some(a.new_entry));
    let pre_state = vec![Db::Integrated(original_op), Db::IntQueue(op.clone())];
    let expect = vec![
        Db::Integrated(op),
        Db::MetaUpdate(
            AnyDhtHash::Header(a.original_header_hash),
            Header::Update(a.entry_update_header),
        ),
    ];
    (pre_state, expect, "register updated element")
}

/// An update is registered with the entry that it replaces.
pub fn register_replaced_by_for_entry(a: TestData) -> (res: (Vec<Db>, Vec<Db>, &'static str))
    ensures
        res.0@ == Scenario::RegisterReplacedByForEntry.spec_states(a).pre_state,
        res.1@ == Scenario::RegisterReplacedByForEntry.spec_states(a).expect,
        res.2@ == "register replaced by for entry"@,
{
    let original_op = DhtOp::StoreEntry(a.signature, a.original_header, a.original_entry);
    let op = DhtOp::RegisterUpdatedContent(a.signature, a.entry_update_entry, Some(a.new_entry));
    let pre_state = vec![Db::Integrated(original_op), Db::IntQueue(op.clone())];
    let expect = vec![
        Db::Integrated(op),
        Db::MetaUpdate(
            AnyDhtHash::Entry(a.original_entry_hash),
            Header::Update(a.entry_update_entry),
        ),
    ];
    (pre_state, expect, "register replaced by for entry")
}

/// A delete is registered with the entry whose header it deletes.
pub fn register_deleted_by(a: TestData) -> (res: (Vec<Db>, Vec<Db>, &'static str))
    ensures
        res.0@ == Scenario::RegisterDeletedBy.spec_states(a).pre_state,
        res.1@ == Scenario::RegisterDeletedBy.spec_states(a).expect,
        res.2@ == "register deleted by"@,
{
    let original_op = DhtOp::StoreEntry(a.signature, a.original_header, a.original_entry);
    let op = DhtOp::RegisterDeletedEntryHeader(a.signature, a.entry_delete);
    let pre_state = vec![Db::Integrated(original_op), Db::IntQueue(op.clone())];
    let expect = vec![
        Db::IntQueueEmpty,
        Db::Integrated(op),
        Db::MetaDelete(a.original_header_hash, Header::Delete(a.entry_delete)),
    ];
    (pre_state, expect, "register deleted by")
}

/// A delete is registered with the header that it deletes.
pub fn register_deleted_header_by(a: TestData) -> (res: (Vec<Db>, Vec<Db>, &'static str))
    ensures
        res.0@ == Scenario::RegisterDeletedHeaderBy.spec_states(a).pre_state,
        res.1@ == Scenario::RegisterDeletedHeaderBy.spec_states(a).expect,
        res.2@ == "register deleted header by"@,
{
    let original_op = DhtOp::StoreElement(
        a.signature,
        a.original_header.to_header(),
        Some(a.original_entry),
    );
    let op = DhtOp::RegisterDeletedBy(a.signature, a.entry_delete);
    let pre_state = vec![Db::IntQueue(op.clone()), Db::Integrated(original_op)];
    let expect = vec![
        Db::Integrated(op),
        Db::MetaDelete(a.original_header_hash, Header::Delete(a.entry_delete)),
    ];
    (pre_state, expect, "register deleted header by")
}

/// A link is registered with its base.
pub fn register_add_link(a: TestData) -> (res: (Vec<Db>, Vec<Db>, &'static str))
    ensures
        res.0@ == Scenario::RegisterAddLink.spec_states(a).pre_state,
        res.1@ == Scenario::RegisterAddLink.spec_states(a).expect,
        res.2@ == "register link add"@,
{
    let original_op = DhtOp::StoreEntry(a.signature, a.original_header, a.original_entry);
    let op = DhtOp::RegisterAddLink(a.signature, a.link_add.clone());
    let pre_state = vec![Db::Integrated(original_op), Db::IntQueue(op.clone())];
    let expect = vec![Db::Integrated(op), Db::MetaLink(a.link_add, a.new_entry_hash)];
    (pre_state, expect, "register link add")
}

/// The removal of a link is registered with the link's base.
pub fn register_delete_link(a: TestData) -> (res: (Vec<Db>, Vec<Db>, &'static str))
    ensures
        res.0@ == Scenario::RegisterDeleteLink.spec_states(a).pre_state,
        res.1@ == Scenario::RegisterDeleteLink.spec_states(a).expect,
        res.2@ == "register link remove"@,
{
    let original_op = DhtOp::StoreEntry(a.signature, a.original_header, a.original_entry);
    let original_link_op = DhtOp::RegisterAddLink(a.signature, a.link_add.clone());
    let op = DhtOp::RegisterRemoveLink(a.signature, a.link_remove);
    let pre_state = vec![
        Db::Integrated(original_op),
        Db::Integrated(original_link_op),
        Db::IntQueue(op.clone()),
    ];
    let expect = vec![Db::Integrated(op), Db::MetaLinkEmpty(a.link_add)];
    (pre_state, expect, "register link remove")
}

/// The removal of a link comes before the link: it stays in the queue.
pub fn register_delete_link_missing_base(a: TestData) -> (res: (Vec<Db>, Vec<Db>, &'static str))
    ensures
        res.0@ == Scenario::RegisterDeleteLinkMissingBase.spec_states(a).pre_state,
        res.1@ == Scenario::RegisterDeleteLinkMissingBase.spec_states(a).expect,
        res.2@ == "register remove link remove missing base"@,
{
    let op = DhtOp::RegisterRemoveLink(a.signature, a.link_remove);
    let pre_state = vec![Db::IntQueue(op.clone())];
    let expect = vec![Db::IntegratedEmpty, Db::IntQueue(op), Db::MetaEmpty];
    (pre_state, expect, "register remove link remove missing base")
}

impl Scenario {
    /// The scenario's name.
    pub open spec fn spec_name(self) -> Seq<char> {
        match self {
            Scenario::StoreElement => "store element"@,
            Scenario::StoreEntry => "store entry"@,
            Scenario::RegisterAgentActivity => "register agent activity"@,
            Scenario::RegisterUpdatedElement => "register updated element"@,
            Scenario::RegisterReplacedByForEntry => "register replaced by for entry"@,
            Scenario::RegisterDeletedBy => "register deleted by"@,
            Scenario::RegisterDeletedHeaderBy => "register deleted header by"@,
            Scenario::RegisterAddLink => "register link add"@,
            Scenario::RegisterDeleteLink => "register link remove"@,
            Scenario::RegisterDeleteLinkMissingBase => "register remove link remove missing base"@,
        }
    }

    /// The state before, the state that is expected afterwards, and the scenario's name.
    pub fn states(&self, a: TestData) -> (res: (Vec<Db>, Vec<Db>, &'static str))
        ensures
            res.0@ == self.spec_states(a).pre_state,
            res.1@ == self.spec_states(a).expect,
            res.2@ == self.spec_name(),
    {
        match self {
            Scenario::StoreElement => store_element(a),
            Scenario::StoreEntry => store_entry(a),
            Scenario::RegisterAgentActivity => register_agent_activity(a),
            Scenario::RegisterUpdatedElement => register_updated_element(a),
            Scenario::RegisterReplacedByForEntry => register_replaced_by_for_entry(a),
            Scenario::RegisterDeletedBy => register_deleted_by(a),
            Scenario::RegisterDeletedHeaderBy => register_deleted_header_by(a),
            Scenario::RegisterAddLink => register_add_link(a),
            Scenario::RegisterDeleteLink => register_delete_link(a),
            Scenario::RegisterDeleteLinkMissingBase => register_delete_link_missing_base(a),
        }
    }
}

} // verus!
