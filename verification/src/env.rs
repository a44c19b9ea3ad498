//! The database of a cell, as far as integration reads and writes it.

use vstd::prelude::*;

use crate::address::{AnyDhtHash, DhtOpHash, EntryHash, HeaderHash, Timestamp};
use crate::content::Entry;
use crate::hasher::{Addresses, ContentHasher};
use crate::header::Header;
use crate::op::{DhtOp, DhtOpHashed, DhtOpType};

verus! {

/// The validation stage of an operation that only waits to be integrated.
pub const AWAITING_INTEGRATION: u8 = 3;

/// The outcome of validation.
#[derive(Clone, Copy, Debug, PartialEq, Eq, Structural, Hash)]
pub enum ValidationStatus {
    Valid,
    Rejected,
    Abandoned,
}

/// A row of the table of operations. `None` stands for a column without a value.
#[derive(Clone, Copy, Debug, PartialEq, Eq, Structural, Hash)]
pub struct DhtOpRow {
    pub hash: DhtOpHash,
    pub op_type: DhtOpType,
    pub basis_hash: AnyDhtHash,
    pub header_hash: HeaderHash,
    pub is_authored: bool,
    pub when_integrated: Option<Timestamp>,
    pub validation_status: Option<ValidationStatus>,
    pub validation_stage: Option<u8>,
}

/// A row of the table of headers.
#[derive(Clone, Copy, Debug, PartialEq, Eq, Structural, Hash)]
pub struct HeaderRow {
    pub hash: HeaderHash,
    pub entry_hash: Option<EntryHash>,
    pub deletes_header_hash: Option<HeaderHash>,
}

/// A row of the table of entries.
#[derive(Debug, PartialEq, Eq, Hash)]
pub struct EntryRow {
    pub hash: EntryHash,
    pub entry: Entry,
}

/// A write to the database.
#[derive(Debug, PartialEq, Eq, Hash)]
pub enum Mutation {
    /// Store an operation with its header and its entry; the flag tells whether this agent wrote
    /// it.
    InsertOp(DhtOpHashed, bool),
    SetWhenIntegrated(DhtOpHash, Timestamp),
    SetValidationStatus(DhtOpHash, ValidationStatus),
    SetValidationStage(DhtOpHash, u8),
}

/// The contents of the three tables.
#[verifier::ext_equal]
pub struct Tables {
    pub dht_ops: Seq<DhtOpRow>,
    pub headers: Seq<HeaderRow>,
    pub entries: Seq<EntryRow>,
}

/// The row of an operation that has just been stored: neither validated nor integrated.
pub open spec fn new_op_row(op: DhtOpHashed, is_authored: bool, at: Addresses) -> DhtOpRow {
    DhtOpRow {
        hash: op.hash,
        op_type: op.content.spec_op_type(),
        basis_hash: op.content.spec_basis(at.header_of(op.content)),
        header_hash: at.header_of(op.content),
        is_authored,
        when_integrated: None,
        validation_status: None,
        validation_stage: None,
    }
}

/// The row of a header.
pub open spec fn new_header_row(header: Header, at: Addresses) -> HeaderRow {
    HeaderRow {
        hash: (at.header)(header),
        entry_hash: header.spec_entry_hash(),
        deletes_header_hash: header.spec_deletes_header_hash(),
    }
}

impl Tables {
    pub open spec fn empty() -> Tables {
        Tables { dht_ops: Seq::empty(), headers: Seq::empty(), entries: Seq::empty() }
    }

    pub open spec fn has_op(self, hash: DhtOpHash) -> bool {
        exists|i: int| 0 <= i < self.dht_ops.len() && (#[trigger] self.dht_ops[i]).hash == hash
    }

    pub open spec fn has_header(self, hash: HeaderHash) -> bool {
        exists|i: int| 0 <= i < self.headers.len() && (#[trigger] self.headers[i]).hash == hash
    }

    pub open spec fn has_entry(self, hash: EntryHash) -> bool {
        exists|i: int| 0 <= i < self.entries.len() && (#[trigger] self.entries[i]).hash == hash
    }

    /// Each table is keyed by its hash column.
    pub open spec fn keys_unique(self) -> bool {
        &&& forall|i: int, j: int|
            0 <= i < j < self.dht_ops.len() ==> (#[trigger] self.dht_ops[i]).hash != (
            #[trigger] self.dht_ops[j]).hash
        &&& forall|i: int, j: int|
            0 <= i < j < self.headers.len() ==> (#[trigger] self.headers[i]).hash != (
            #[trigger] self.headers[j]).hash
        &&& forall|i: int, j: int|
            0 <= i < j < self.entries.len() ==> (#[trigger] self.entries[i]).hash != (
            #[trigger] self.entries[j]).hash
    }

    /// The tables with an entry stored, unless there is one under its address already.
    pub open spec fn insert_entry(self, entry: Option<Entry>, at: Addresses) -> Tables {
        match entry {
            Some(entry) if !self.has_entry((at.entry)(entry)) => Tables {
                entries: self.entries.push(EntryRow { hash: (at.entry)(entry), entry }),
                ..self
            },
            _ => self,
        }
    }

    /// The tables with a header stored, unless there is one under its address already.
    pub open spec fn insert_header(self, header: Header, at: Addresses) -> Tables {
        if self.has_header((at.header)(header)) {
            self
        } else {
            Tables { headers: self.headers.push(new_header_row(header, at)), ..self }
        }
    }

    /// The tables with a row stored for an operation, unless there is one under its address
    /// already.
    pub open spec fn insert_op_row(
        self,
        op: DhtOpHashed,
        is_authored: bool,
        at: Addresses,
    ) -> Tables {
        if self.has_op(op.hash) {
            self
        } else {
            Tables { dht_ops: self.dht_ops.push(new_op_row(op, is_authored, at)), ..self }
        }
    }

    /// The tables with an operation, its header and its entry stored.
    pub open spec fn insert_op(self, op: DhtOpHashed, is_authored: bool, at: Addresses) -> Tables {
        self.insert_entry(op.content.spec_entry(), at).insert_header(
            op.content.spec_header(),
            at,
        ).insert_op_row(op, is_authored, at)
    }

    pub open spec fn set_when_integrated(self, hash: DhtOpHash, when: Timestamp) -> Tables {
        Tables {
            dht_ops: self.dht_ops.map_values(
                |row: DhtOpRow|
                    if row.hash == hash {
                        DhtOpRow { when_integrated: Some(when), ..row }
                    } else {
                        row
                    },
            ),
            ..self
        }
    }

    pub open spec fn set_validation_status(
        self,
        hash: DhtOpHash,
        status: ValidationStatus,
    ) -> Tables {
        Tables {
            dht_ops: self.dht_ops.map_values(
                |row: DhtOpRow|
                    if row.hash == hash {
                        DhtOpRow { validation_status: Some(status), ..row }
                    } else {
                        row
                    },
            ),
            ..self
        }
    }

    pub open spec fn set_validation_stage(self, hash: DhtOpHash, stage: u8) -> Tables {
        Tables {
            dht_ops: self.dht_ops.map_values(
                |row: DhtOpRow|
                    if row.hash == hash {
                        DhtOpRow { validation_stage: Some(stage), ..row }
                    } else {
                        row
                    },
            ),
            ..self
        }
    }

    /// The tables after one write.
    pub open spec fn apply(self, mutation: Mutation, at: Addresses) -> Tables {
        match mutation {
            Mutation::InsertOp(op, is_authored) => self.insert_op(op, is_authored, at),
            Mutation::SetWhenIntegrated(hash, when) => self.set_when_integrated(hash, when),
            Mutation::SetValidationStatus(hash, status) => self.set_validation_status(hash, status),
            Mutation::SetValidationStage(hash, stage) => self.set_validation_stage(hash, stage),
        }
    }

    /// The tables after a list of writes, made in order.
    pub open spec fn apply_all(self, mutations: Seq<Mutation>, at: Addresses) -> Tables
        decreases mutations.len(),
    {
        if mutations.len() == 0 {
            self
        } else {
            self.apply_all(mutations.drop_last(), at).apply(mutations.last(), at)
        }
    }
}

/// The database itself.
#[derive(Debug, PartialEq, Eq)]
pub struct Env {
    pub dht_ops: Vec<DhtOpRow>,
    pub headers: Vec<HeaderRow>,
    pub entries: Vec<EntryRow>,
}

impl View for Env {
    type V = Tables;

    open spec fn view(&self) -> Tables {
        Tables { dht_ops: self.dht_ops@, headers: self.headers@, entries: self.entries@ }
    }
}

impl Env {
    /// A database with empty tables.
    pub fn new() -> (env: Env)
        ensures
            env@ == Tables::empty(),
    {
        Env { dht_ops: Vec::new(), headers: Vec::new(), entries: Vec::new() }
    }

    fn contains_op(&self, hash: &DhtOpHash) -> (found: bool)
        ensures
            found == self@.has_op(*hash),
    {
        for i in 0..self.dht_ops.len()
            invariant
                forall|j: int| 0 <= j < i ==> (#[trigger] self@.dht_ops[j]).hash != *hash,
        {
            if self.dht_ops[i].hash == *hash {
                assert(self@.dht_ops[i as int].hash == *hash);
                return true;
            }
        }
        false
    }

    fn contains_header(&self, hash: &HeaderHash) -> (found: bool)
        ensures
            found == self@.has_header(*hash),
    {
        for i in 0..self.headers.len()
            invariant
                forall|j: int| 0 <= j < i ==> (#[trigger] self@.headers[j]).hash != *hash,
        {
            if self.headers[i].hash == *hash {
                assert(self@.headers[i as int].hash == *hash);
                return true;
            }
        }
        false
    }

    fn contains_entry(&self, hash: &EntryHash) -> (found: bool)
        ensures
            found == self@.has_entry(*hash),
    {
        for i in 0..self.entries.len()
            invariant
                forall|j: int| 0 <= j < i ==> (#[trigger] self@.entries[j]).hash != *hash,
        {
            if self.entries[i].hash == *hash {
                assert(self@.entries[i as int].hash == *hash);
                return true;
            }
        }
        false
    }

    /// Stores an operation, its header and its entry. What is stored already under one of their
    /// addresses stays as it is.
    pub fn insert_op<E, H, O>(
        &mut self,
        op: &DhtOpHashed,
        is_authored: bool,
        hasher: &ContentHasher<E, H, O>,
    ) where
        E: Fn(&Entry) -> EntryHash,
        H: Fn(&Header) -> HeaderHash,
        O: Fn(&DhtOp) -> DhtOpHash,

        requires
            hasher.valid(),
        ensures
            final(self)@ == old(self)@.insert_op(*op, is_authored, hasher@),
    {
        match op.content.entry() {
            Some(entry) => {
                let hash = hasher.entry_hash(&entry);
                if !self.contains_entry(&hash) {
                    self.entries.push(EntryRow { hash, entry });
                }
            },
            None => {},
        }
        assert(self@ == old(self)@.insert_entry(op.content.spec_entry(), hasher@));
        let header = op.content.header();
        let header_hash = hasher.header_hash(&header);
        if !self.contains_header(&header_hash) {
            self.headers.push(
                HeaderRow {
                    hash: header_hash,
                    entry_hash: header.entry_hash(),
                    deletes_header_hash: header.deletes_header_hash(),
                },
            );
        }
        if !self.contains_op(&op.hash) {
            self.dht_ops.push(
                DhtOpRow {
                    hash: op.hash,
                    op_type: op.content.op_type(),
                    basis_hash: op.content.basis(header_hash),
                    header_hash,
                    is_authored,
                    when_integrated: None,
                    validation_status: None,
                    validation_stage: None,
                },
            );
        }
    }

    /// Marks an operation as integrated.
    pub fn set_when_integrated(&mut self, hash: DhtOpHash, when: Timestamp)
        ensures
            final(self)@ == old(self)@.set_when_integrated(hash, when),
    {
        let ghost want = self@.set_when_integrated(hash, when).dht_ops;
        let len: usize = self.dht_ops.len();
        for i in 0..len
            invariant
                len == self.dht_ops.len(),
                want == old(self)@.set_when_integrated(hash, when).dht_ops,
                want.len() == len,
                self.headers == old(self).headers,
                self.entries == old(self).entries,
                forall|j: int| 0 <= j < i ==> self.dht_ops[j] == want[j],
                forall|j: int| i <= j < len ==> self.dht_ops[j] == old(self).dht_ops[j],
        {
            let row = self.dht_ops[i];
            if row.hash == hash {
                self.dht_ops[i] = DhtOpRow { when_integrated: Some(when), ..row };
            }
        }
        assert(self.dht_ops@ =~= want);
    }

    /// Records the outcome of an operation's validation.
    pub fn set_validation_status(&mut self, hash: DhtOpHash, status: ValidationStatus)
        ensures
            final(self)@ == old(self)@.set_validation_status(hash, status),
    {
        let ghost want = self@.set_validation_status(hash, status).dht_ops;
        let len: usize = self.dht_ops.len();
        for i in 0..len
            invariant
                len == self.dht_ops.len(),
                want == old(self)@.set_validation_status(hash, status).dht_ops,
                want.len() == len,
                self.headers == old(self).headers,
                self.entries == old(self).entries,
                forall|j: int| 0 <= j < i ==> self.dht_ops[j] == want[j],
                forall|j: int| i <= j < len ==> self.dht_ops[j] == old(self).dht_ops[j],
        {
            let row = self.dht_ops[i];
            if row.hash == hash {
                self.dht_ops[i] = DhtOpRow { validation_status: Some(status), ..row };
            }
        }
        assert(self.dht_ops@ =~= want);
    }

    /// Records how far an operation has come in its validation.
    pub fn set_validation_stage(&mut self, hash: DhtOpHash, stage: u8)
        ensures
            final(self)@ == old(self)@.set_validation_stage(hash, stage),
    {
        let ghost want = self@.set_validation_stage(hash, stage).dht_ops;
        let len: usize = self.dht_ops.len();
        for i in 0..len
            invariant
                len == self.dht_ops.len(),
                want == old(self)@.set_validation_stage(hash, stage).dht_ops,
                want.len() == len,
                self.headers == old(self).headers,
                self.entries == old(self).entries,
                forall|j: int| 0 <= j < i ==> self.dht_ops[j] == want[j],
                forall|j: int| i <= j < len ==> self.dht_ops[j] == old(self).dht_ops[j],
        {
            let row = self.dht_ops[i];
            if row.hash == hash {
                self.dht_ops[i] = DhtOpRow { validation_stage: Some(stage), ..row };
            }
        }
        assert(self.dht_ops@ =~= want);
    }

    /// Makes one write.
    pub fn apply<E, H, O>(&mut self, mutation: &Mutation, hasher: &ContentHasher<E, H, O>) where
        E: Fn(&Entry) -> EntryHash,
        H: Fn(&Header) -> HeaderHash,
        O: Fn(&DhtOp) -> DhtOpHash,

        requires
            hasher.valid(),
        ensures
            final(self)@ == old(self)@.apply(*mutation, hasher@),
    {
        match mutation {
            Mutation::InsertOp(op, is_authored) => self.insert_op(op, *is_authored, hasher),
            Mutation::SetWhenIntegrated(hash, when) => self.set_when_integrated(*hash, *when),
            Mutation::SetValidationStatus(hash, status) => self.set_validation_status(
                *hash,
                *status,
            ),
            Mutation::SetValidationStage(hash, stage) => self.set_validation_stage(*hash, *stage),
        }
    }

    /// Makes a list of writes, in order.
    pub fn apply_all<E, H, O>(
        &mut self,
        mutations: &Vec<Mutation>,
        hasher: &ContentHasher<E, H, O>,
    ) where
        E: Fn(&Entry) -> EntryHash,
        H: Fn(&Header) -> HeaderHash,
        O: Fn(&DhtOp) -> DhtOpHash,

        requires
            hasher.valid(),
        ensures
            final(self)@ == old(self)@.apply_all(mutations@, hasher@),
    {
        assert(mutations@.take(0) =~= Seq::empty());
        for i in 0..mutations.len()
            invariant
                hasher.valid(),
                self@ == old(self)@.apply_all(mutations@.take(i as int), hasher@),
        {
            self.apply(&mutations[i], hasher);
            assert(mutations@.take(i + 1).drop_last() =~= mutations@.take(i as int));
        }
        assert(mutations@.take(mutations.len() as int) =~= mutations@);
    }
}

} // verus!
