//! The questions that are asked of the database.

use vstd::prelude::*;

use crate::address::{AnyDhtHash, DhtOpHash, EntryHash, HeaderHash};
use crate::env::{DhtOpRow, Env, HeaderRow, Tables, ValidationStatus, AWAITING_INTEGRATION};
use crate::header::{LinkTag, ZomeId};
use crate::op::DhtOpType;

verus! {

/// A question whether the table of operations holds a row of some kind.
#[derive(Clone, Copy, Debug, PartialEq, Eq, Structural, Hash)]
pub enum OpQuery {
    /// The operation is integrated, and valid.
    Integrated { hash: DhtOpHash },
    /// The operation is valid and waits to be integrated.
    AwaitingIntegration { hash: DhtOpHash },
    /// The header is stored, by itself or with its entry.
    StoredHeader { header: HeaderHash },
    /// The header is known as one that brought the entry.
    EntryHeader { basis: AnyDhtHash, header: HeaderHash },
    /// The header is part of the agent's activity.
    Activity { basis: AnyDhtHash, header: HeaderHash },
    /// The header is known as an update of the address.
    UpdateOf { basis: AnyDhtHash, header: HeaderHash },
    /// Any operation is integrated.
    AnyIntegrated,
    /// Any operation is not integrated.
    AnyNotIntegrated,
}

/// A question whether an operation of some kind is stored together with its header.
#[derive(Clone, Copy, Debug, PartialEq, Eq, Structural, Hash)]
pub enum ElementQuery {
    /// The entry is stored, with an element or under its own address.
    StoredEntry { entry: EntryHash, basis: AnyDhtHash },
    /// A header is known as deleted, or the header is known as one that deletes.
    DeleteOf { deleted: HeaderHash, header: HeaderHash },
}

/// The row is integrated, and its operation was found valid.
pub open spec fn valid_and_integrated(row: DhtOpRow) -> bool {
    row.when_integrated is Some && row.validation_status == Some(ValidationStatus::Valid)
}

impl OpQuery {
    /// Whether a row answers the question.
    pub open spec fn spec_selects(self, row: DhtOpRow) -> bool {
        match self {
            OpQuery::Integrated { hash } => valid_and_integrated(row) && row.hash == hash,
            OpQuery::AwaitingIntegration { hash } => {
                &&& row.when_integrated is None
                &&& row.validation_stage == Some(AWAITING_INTEGRATION)
                &&& row.hash == hash
                &&& row.validation_status == Some(ValidationStatus::Valid)
            },
            OpQuery::StoredHeader { header } => {
                &&& valid_and_integrated(row)
                &&& row.header_hash == header
                &&& row.op_type == DhtOpType::StoreEntry || row.op_type == DhtOpType::StoreElement
            },
            OpQuery::EntryHeader { basis, header } => {
                &&& valid_and_integrated(row)
                &&& row.basis_hash == basis
                &&& row.header_hash == header
                &&& row.op_type == DhtOpType::StoreEntry
            },
            OpQuery::Activity { basis, header } => {
                &&& valid_and_integrated(row)
                &&& row.basis_hash == basis
                &&& row.header_hash == header
                &&& row.op_type == DhtOpType::RegisterAgentActivity
            },
            OpQuery::UpdateOf { basis, header } => {
                &&& valid_and_integrated(row)
                &&& row.basis_hash == basis
                &&& row.header_hash == header
                &&& row.op_type == DhtOpType::RegisterUpdatedContent || row.op_type
                    == DhtOpType::RegisterUpdatedElement
            },
            OpQuery::AnyIntegrated => row.when_integrated is Some,
            OpQuery::AnyNotIntegrated => row.when_integrated is None,
        }
    }

    fn selects(&self, row: &DhtOpRow) -> (selected: bool)
        ensures
            selected == self.spec_selects(*row),
    {
        let integrated: bool = row.when_integrated.is_some();
        let valid: bool = match row.validation_status {
            Some(ValidationStatus::Valid) => true,
            _ => false,
        };
        match self {
            OpQuery::Integrated { hash } => integrated && valid && row.hash == *hash,
            OpQuery::AwaitingIntegration { hash } => {
                let awaiting: bool = match row.validation_stage {
                    Some(stage) => stage == AWAITING_INTEGRATION,
                    None => false,
                };
                !integrated && awaiting && row.hash == *hash && valid
            },
            OpQuery::StoredHeader { header } => integrated && valid && row.header_hash == *header
                && (row.op_type == DhtOpType::StoreEntry || row.op_type == DhtOpType::StoreElement),
            OpQuery::EntryHeader { basis, header } => integrated && valid && row.basis_hash
                == *basis && row.header_hash == *header && row.op_type == DhtOpType::StoreEntry,
            OpQuery::Activity { basis, header } => integrated && valid && row.basis_hash == *basis
                && row.header_hash == *header && row.op_type == DhtOpType::RegisterAgentActivity,
            OpQuery::UpdateOf { basis, header } => integrated && valid && row.basis_hash == *basis
                && row.header_hash == *header && (row.op_type == DhtOpType::RegisterUpdatedContent
                || row.op_type == DhtOpType::RegisterUpdatedElement),
            OpQuery::AnyIntegrated => integrated,
            OpQuery::AnyNotIntegrated => !integrated,
        }
    }
}

impl ElementQuery {
    /// Whether an operation's row and the row of its header answer the question.
    pub open spec fn spec_selects(self, row: DhtOpRow, header_row: HeaderRow) -> bool {
        &&& row.header_hash == header_row.hash
        &&& valid_and_integrated(row)
        &&& match self {
            ElementQuery::StoredEntry { entry, basis } => {
                ||| header_row.entry_hash == Some(entry) && row.op_type == DhtOpType::StoreElement
                ||| row.basis_hash == basis && row.op_type == DhtOpType::StoreEntry
            },
            ElementQuery::DeleteOf { deleted, header } => {
                ||| row.op_type == DhtOpType::RegisterDeletedEntryHeader
                    && header_row.deletes_header_hash == Some(deleted)
                ||| row.op_type == DhtOpType::RegisterDeletedBy && row.header_hash == header
            },
        }
    }

    fn selects(&self, row: &DhtOpRow, header_row: &HeaderRow) -> (selected: bool)
        ensures
            selected == self.spec_selects(*row, *header_row),
    {
        let integrated: bool = row.when_integrated.is_some();
        let valid: bool = match row.validation_status {
            Some(ValidationStatus::Valid) => true,
            _ => false,
        };
        row.header_hash == header_row.hash && integrated && valid && match self {
            ElementQuery::StoredEntry { entry, basis } => {
                let brings: bool = match header_row.entry_hash {
                    Some(hash) => hash == *entry,
                    None => false,
                };
                (brings && row.op_type == DhtOpType::StoreElement) || (row.basis_hash == *basis
                    && row.op_type == DhtOpType::StoreEntry)
            },
            ElementQuery::DeleteOf { deleted, header } => {
                let deletes: bool = match header_row.deletes_header_hash {
                    Some(hash) => hash == *deleted,
                    None => false,
                };
                (row.op_type == DhtOpType::RegisterDeletedEntryHeader && deletes) || (row.op_type
                    == DhtOpType::RegisterDeletedBy && row.header_hash == *header)
            },
        }
    }
}

impl Tables {
    /// Some operation answers the question.
    pub open spec fn any_op(self, query: OpQuery) -> bool {
        exists|i: int|
            0 <= i < self.dht_ops.len() && query.spec_selects(#[trigger] self.dht_ops[i])
    }

    /// Some operation and its header answer the question.
    pub open spec fn any_element(self, query: ElementQuery) -> bool {
        exists|i: int, j: int|
            0 <= i < self.dht_ops.len() && 0 <= j < self.headers.len() && query.spec_selects(
                #[trigger] self.dht_ops[i],
                #[trigger] self.headers[j],
            )
    }
}

impl Env {
    /// Whether some operation answers the question.
    pub fn any_op(&self, query: &OpQuery) -> (found: bool)
        ensures
            found == self@.any_op(*query),
    {
        for i in 0..self.dht_ops.len()
            invariant
                forall|k: int|
                    0 <= k < i ==> !query.spec_selects(#[trigger] self@.dht_ops[k]),
        {
            if query.selects(&self.dht_ops[i]) {
                assert(query.spec_selects(self@.dht_ops[i as int]));
                return true;
            }
        }
        false
    }

    /// Whether some operation and its header answer the question.
    pub fn any_element(&self, query: &ElementQuery) -> (found: bool)
        ensures
            found == self@.any_element(*query),
    {
        for i in 0..self.dht_ops.len()
            invariant
                forall|k: int, j: int|
                    0 <= k < i && 0 <= j < self@.headers.len() ==> !query.spec_selects(
                        #[trigger] self@.dht_ops[k],
                        #[trigger] self@.headers[j],
                    ),
        {
            for j in 0..self.headers.len()
                invariant
                    i < self.dht_ops.len(),
                    forall|k: int|
                        0 <= k < j ==> !query.spec_selects(
                            self@.dht_ops[i as int],
                            #[trigger] self@.headers[k],
                        ),
            {
                if query.selects(&self.dht_ops[i], &self.headers[j]) {
                    assert(query.spec_selects(self@.dht_ops[i as int], self@.headers[j as int]));
                    return true;
                }
            }
        }
        false
    }
}

/// A question for the links that lead from a base, by zome and, if given, by tag.
#[derive(Debug, PartialEq, Eq, Hash)]
pub struct GetLinksQuery {
    pub base: EntryHash,
    pub zome_id: ZomeId,
    pub tag: Option<LinkTag>,
}

impl GetLinksQuery {
    pub fn new(base: EntryHash, zome_id: ZomeId, tag: Option<LinkTag>) -> (query: GetLinksQuery)
        ensures
            query == (GetLinksQuery { base, zome_id, tag }),
    {
        GetLinksQuery { base, zome_id, tag }
    }
}

/// A link, as it is answered to a question for links.
#[derive(Debug, PartialEq, Eq, Hash)]
pub struct Link {
    pub target: EntryHash,
    pub tag: LinkTag,
    pub create_link_hash: HeaderHash,
}

} // verus!
