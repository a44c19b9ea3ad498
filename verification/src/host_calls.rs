//! Calls of the host functions by which an application writes and reads its data: what each is
//! called with, and what is made of its answer.

use vstd::prelude::*;

use crate::address::{AnyDhtHash, DhtOpHash, Digest, EntryHash, HeaderHash};
use crate::content::{Entry, SharedBytes};
use crate::db::Db;
use crate::hasher::ContentHasher;
use crate::header::{EntryVisibility, Header, LinkTag, ZomeId};
use crate::op::{clone_entry, DhtOp};
use crate::query::Link;

verus! {

/// The name of a zome, in UTF-8.
#[derive(Debug, PartialEq, Eq, Hash)]
pub struct ZomeName(pub SharedBytes);

/// The name of a kind of entry: one of the application's own, in UTF-8, or one of the system's.
#[derive(Debug, PartialEq, Eq, Hash)]
pub enum EntryDefId {
    App(SharedBytes),
    CapClaim,
    CapGrant,
}

/// The definition of a kind of entry.
#[derive(Debug, PartialEq, Eq, Hash)]
pub struct EntryDef {
    pub id: EntryDefId,
    pub visibility: EntryVisibility,
    pub required_validations: u8,
}

/// The code of a zome, by its address.
#[derive(Clone, Copy, Debug, PartialEq, Eq, Structural, Hash)]
pub struct ZomeDef {
    pub wasm_hash: Digest,
}

/// A zome: a name and the code behind it.
#[derive(Debug, PartialEq, Eq, Hash)]
pub struct Zome {
    pub name: ZomeName,
    pub def: ZomeDef,
}

/// The definition of a DNA.
#[derive(Debug, PartialEq, Eq, Hash)]
pub struct DnaDef {
    pub name: SharedBytes,
    pub uid: SharedBytes,
    pub properties: SharedBytes,
    pub zomes: Vec<Zome>,
}

impl Clone for ZomeName {
    fn clone(&self) -> (res: Self)
        ensures
            res == *self,
    {
        ZomeName(self.0.clone())
    }
}

impl Clone for EntryDefId {
    fn clone(&self) -> (res: Self)
        ensures
            res == *self,
    {
        match self {
            EntryDefId::App(name) => EntryDefId::App(name.clone()),
            EntryDefId::CapClaim => EntryDefId::CapClaim,
            EntryDefId::CapGrant => EntryDefId::CapGrant,
        }
    }
}

impl Clone for Zome {
    fn clone(&self) -> (res: Self)
        ensures
            res == *self,
    {
        Zome { name: self.name.clone(), def: self.def }
    }
}

/// The id that every zome is given in the calls: they are made in a DNA of one zome.
pub const CALLED_ZOME_ID: u8 = 1;

/// What the code of the DNA answers while a host function runs.
#[derive(Debug, PartialEq, Eq, Hash)]
pub struct Ribosome {
    pub dna_def: DnaDef,
    pub zome_id: ZomeId,
    /// The kinds of entry by zome, where the call asks for them.
    pub entry_defs: Vec<(ZomeName, Vec<EntryDef>)>,
}

/// An entry and the kind of entry it is.
#[derive(Debug, PartialEq, Eq, Hash)]
pub struct EntryWithDefId {
    pub entry_def_id: EntryDefId,
    pub entry: Entry,
}

/// A call that creates an entry.
#[derive(Debug, PartialEq, Eq, Hash)]
pub struct CommitEntryCall {
    pub ribosome: Ribosome,
    pub zome: Zome,
    pub input: EntryWithDefId,
    /// The address that the entry has once it is created.
    pub entry_hash: EntryHash,
}

/// What a link is created from.
#[derive(Debug, PartialEq, Eq, Hash)]
pub struct CreateLinkInput {
    pub base_address: EntryHash,
    pub target_address: EntryHash,
    pub tag: LinkTag,
}

/// A call that creates a link.
#[derive(Debug, PartialEq, Eq, Hash)]
pub struct CreateLinkCall {
    pub ribosome: Ribosome,
    pub zome: Zome,
    pub input: CreateLinkInput,
}

/// What links are asked for by.
#[derive(Debug, PartialEq, Eq, Hash)]
pub struct GetLinksInput {
    pub base_address: EntryHash,
    pub tag: Option<LinkTag>,
}

/// A call that asks for links.
#[derive(Debug, PartialEq, Eq, Hash)]
pub struct GetLinksCall {
    pub ribosome: Ribosome,
    pub zome: Zome,
    pub input: GetLinksInput,
}

/// Which version of some content to get.
#[derive(Clone, Copy, Debug, PartialEq, Eq, Structural, Hash)]
pub enum GetStrategy {
    Latest,
    Content,
}

/// What content is asked for by.
#[derive(Clone, Copy, Debug, PartialEq, Eq, Structural, Hash)]
pub struct GetInput {
    pub any_dht_hash: AnyDhtHash,
    pub strategy: GetStrategy,
}

/// A header and its entry, as far as they are known.
#[derive(Debug, PartialEq, Eq, Hash)]
pub struct Element {
    pub header: Header,
    pub entry: Option<Entry>,
}

/// The entry that a state says is stored: by itself, or by an operation that is integrated.
pub open spec fn stored_entry(state: Db) -> Option<Entry> {
    match state {
        Db::CasEntry(entry, _, _) => Some(entry),
        Db::Integrated(DhtOp::StoreEntry(_, _, entry)) => Some(entry),
        _ => None,
    }
}

/// The first state other than a queued operation says that an entry is stored.
pub open spec fn has_entry_to_commit(pre_state: Seq<Db>) -> bool {
    exists|k: int| is_entry_to_commit(pre_state, k)
}

/// The `k`th state says that an entry is stored, and only queued operations come before it.
pub open spec fn is_entry_to_commit(pre_state: Seq<Db>, k: int) -> bool {
    &&& 0 <= k < pre_state.len()
    &&& stored_entry(pre_state[k]) is Some
    &&& forall|j: int| 0 <= j < k ==> (#[trigger] pre_state[j]) is IntQueue
}

/// The entry that a state asks to have committed: the first that is stored.
pub open spec fn spec_entry_to_commit(pre_state: Seq<Db>) -> Entry {
    let k = choose|k: int| is_entry_to_commit(pre_state, k);
    stored_entry(pre_state[k])->0
}

/// Looks in a state for the entry that has to be committed to bring it about. Queued operations
/// are passed over: they come about by themselves. There is none to commit if the states end
/// before an entry is stored, or if one of another kind comes first.
pub fn find_entry_to_commit(pre_state: &Vec<Db>) -> (res: Option<Entry>)
    ensures
        res is Some <==> has_entry_to_commit(pre_state@),
        res matches Some(entry) ==> entry == spec_entry_to_commit(pre_state@),
{
    for i in 0..pre_state.len()
        invariant
            forall|j: int| 0 <= j < i ==> (#[trigger] pre_state@[j]) is IntQueue,
    {
        match &pre_state[i] {
            Db::IntQueue(_) => {},
            Db::CasEntry(entry, _, _) => {
                assert(is_entry_to_commit(pre_state@, i as int));
                return Some(entry.clone());
            },
            Db::Integrated(DhtOp::StoreEntry(_, _, entry)) => {
                assert(is_entry_to_commit(pre_state@, i as int));
                return Some(entry.clone());
            },
            _ => {
                assert(!(pre_state@[i as int] is IntQueue));
                return None;
            },
        }
    }
    None
}

/// The entry that has to be committed to bring a state about.
pub fn entry_to_commit(pre_state: &Vec<Db>) -> (entry: Entry)
    requires
        has_entry_to_commit(pre_state@),
    ensures
        entry == spec_entry_to_commit(pre_state@),
{
    find_entry_to_commit(pre_state).unwrap()
}

/// A DNA with the zome, and no other, in it.
pub fn single_zome_dna(dna_def: DnaDef, zome: &Zome) -> (res: DnaDef)
    ensures
        res.zomes@ == seq![*zome],
        res.name == dna_def.name,
        res.uid == dna_def.uid,
        res.properties == dna_def.properties,
{
    DnaDef {
        name: dna_def.name,
        uid: dna_def.uid,
        properties: dna_def.properties,
        zomes: vec![zome.clone()],
    }
}

/// The call is made from the zome, in a DNA that holds it alone and is otherwise `dna_def`.
pub open spec fn called_from(
    ribosome: Ribosome,
    zome: Zome,
    zome_name: ZomeName,
    zome_def: ZomeDef,
    dna_def: DnaDef,
) -> bool {
    &&& zome == Zome { name: zome_name, def: zome_def }
    &&& ribosome.zome_id == ZomeId(CALLED_ZOME_ID)
    &&& ribosome.dna_def.zomes@ == seq![zome]
    &&& ribosome.dna_def.name == dna_def.name
    &&& ribosome.dna_def.uid == dna_def.uid
    &&& ribosome.dna_def.properties == dna_def.properties
}

/// The call that commits the entry of a state, in a zome that defines one kind of entry: `entry_def`
/// under the id `entry_def_id`.
pub fn commit_entry<E, H, O>(
    pre_state: &Vec<Db>,
    zome_name: ZomeName,
    entry_def_id: EntryDefId,
    entry_def: EntryDef,
    dna_def: DnaDef,
    zome_def: ZomeDef,
    hasher: &ContentHasher<E, H, O>,
) -> (call: CommitEntryCall) where
    E: Fn(&Entry) -> EntryHash,
    H: Fn(&Header) -> HeaderHash,
    O: Fn(&DhtOp) -> DhtOpHash,

    requires
        hasher.valid(),
        has_entry_to_commit(pre_state@),
    ensures
        called_from(call.ribosome, call.zome, zome_name, zome_def, dna_def),
        call.ribosome.entry_defs@.len() == 1,
        call.ribosome.entry_defs@[0].0 == zome_name,
        call.ribosome.entry_defs@[0].1@ == seq![EntryDef { id: entry_def_id, ..entry_def }],
        call.input == (EntryWithDefId { entry_def_id, entry: spec_entry_to_commit(pre_state@) }),
        call.entry_hash == (hasher@.entry)(spec_entry_to_commit(pre_state@)),
{
    // one kind of entry, under the zome's name
    let entry_def = EntryDef {
        id: entry_def_id.clone(),
        visibility: entry_def.visibility,
        required_validations: entry_def.required_validations,
    };
    let entry_defs = vec![(zome_name.clone(), vec![entry_def])];

    // the zome, alone in its DNA
    let zome = Zome { name: zome_name, def: zome_def };
    let dna_def = single_zome_dna(dna_def, &zome);

    let entry = entry_to_commit(pre_state);
    let entry_hash = hasher.entry_hash(&entry);
    CommitEntryCall {
        ribosome: Ribosome { dna_def, zome_id: ZomeId(CALLED_ZOME_ID), entry_defs },
        zome,
        input: EntryWithDefId { entry_def_id, entry },
        entry_hash,
    }
}

/// The call that links a base to a target.
pub fn create_link(
    base_address: EntryHash,
    target_address: EntryHash,
    zome_name: ZomeName,
    link_tag: LinkTag,
    dna_def: DnaDef,
    zome_def: ZomeDef,
) -> (call: CreateLinkCall)
    ensures
        called_from(call.ribosome, call.zome, zome_name, zome_def, dna_def),
        call.ribosome.entry_defs@ == Seq::<(ZomeName, Vec<EntryDef>)>::empty(),
        call.input == (CreateLinkInput { base_address, target_address, tag: link_tag }),
{
    let zome = Zome { name: zome_name, def: zome_def };
    let dna_def = single_zome_dna(dna_def, &zome);
    CreateLinkCall {
        ribosome: Ribosome { dna_def, zome_id: ZomeId(CALLED_ZOME_ID), entry_defs: Vec::new() },
        zome,
        input: CreateLinkInput { base_address, target_address, tag: link_tag },
    }
}

/// The call that asks for the links from a base with a tag.
pub fn get_links(
    base_address: EntryHash,
    zome_name: ZomeName,
    link_tag: LinkTag,
    dna_def: DnaDef,
    zome_def: ZomeDef,
) -> (call: GetLinksCall)
    ensures
        called_from(call.ribosome, call.zome, zome_name, zome_def, dna_def),
        call.ribosome.entry_defs@ == Seq::<(ZomeName, Vec<EntryDef>)>::empty(),
        call.input == (GetLinksInput { base_address, tag: Some(link_tag) }),
{
    let zome = Zome { name: zome_name, def: zome_def };
    let dna_def = single_zome_dna(dna_def, &zome);
    GetLinksCall {
        ribosome: Ribosome { dna_def, zome_id: ZomeId(CALLED_ZOME_ID), entry_defs: Vec::new() },
        zome,
        input: GetLinksInput { base_address, tag: Some(link_tag) },
    }
}

/// What is asked for to get the latest version of an entry.
pub fn get_entry(entry_hash: EntryHash) -> (input: GetInput)
    ensures
        input == (GetInput {
            any_dht_hash: AnyDhtHash::Entry(entry_hash),
            strategy: GetStrategy::Latest,
        }),
{
    GetInput { any_dht_hash: AnyDhtHash::Entry(entry_hash), strategy: GetStrategy::Latest }
}

/// The entry in an answer: none if there was no element, or none known with it.
pub fn entry_in(output: &Option<Element>) -> (entry: Option<Entry>)
    ensures
        entry == (match *output {
            Some(element) => element.entry,
            None => None,
        }),
{
    match output {
        Some(element) => clone_entry(&element.entry),
        None => None,
    }
}

/// Where links lead to, in their order.
pub fn link_targets(links: &Vec<Link>) -> (targets: Vec<EntryHash>)
    ensures
        targets@ == links@.map_values(|link: Link| link.target),
{
    let mut targets: Vec<EntryHash> = Vec::new();
    for i in 0..links.len()
        invariant
            targets.len() == i,
            forall|j: int| 0 <= j < i ==> targets[j] == links[j].target,
    {
        targets.push(links[i].target);
    }
    assert(targets@ =~= links@.map_values(|link: Link| link.target));
    targets
}

} // verus!
