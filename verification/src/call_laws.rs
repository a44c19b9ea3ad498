//! What holds of calls of the host functions, and of what is made of their answers.

use vstd::prelude::*;

use crate::address::{AnyDhtHash, DhtOpHash, EntryHash, HeaderHash};
use crate::content::{Entry, Signature};
use crate::db::Db;
use crate::hasher::ContentHasher;
use crate::header::{Header, LinkTag, NewEntryHeader, ZomeId};
use crate::host_calls::{
    commit_entry, create_link, entry_in, entry_to_commit, find_entry_to_commit, get_entry,
    get_links, has_entry_to_commit, is_entry_to_commit, link_targets, CommitEntryCall,
    CreateLinkCall, DnaDef, Element, EntryDef, EntryDefId, GetInput, GetLinksCall, GetStrategy,
    ZomeDef, ZomeName,
};
use crate::op::DhtOp;
use crate::query::Link;

verus! {

/// The entry to commit is the one that the first state other than a queued operation says is
/// stored, by itself or by an integrated operation that stores it.
pub proof fn law_first_stored_entry_is_committed(
    pre_state: Vec<Db>,
    k: int,
    entry: Entry,
    header: Option<Header>,
    signature: Option<Signature>,
    op_signature: Signature,
    op_header: NewEntryHeader,
    found: Option<Entry>,
    committed: Entry,
)
    requires
        0 <= k < pre_state@.len(),
        forall|j: int| 0 <= j < k ==> (#[trigger] pre_state@[j]) is IntQueue,
        ({
            ||| pre_state@[k] == Db::CasEntry(entry, header, signature)
            ||| pre_state@[k] == Db::Integrated(DhtOp::StoreEntry(op_signature, op_header, entry))
        }),
    ensures
        has_entry_to_commit(pre_state@),
        call_ensures(find_entry_to_commit, (&pre_state,), found) ==> found == Some(entry),
        call_ensures(entry_to_commit, (&pre_state,), committed) ==> committed == entry,
{
    assert(is_entry_to_commit(pre_state@, k));
    let c = choose|c: int| is_entry_to_commit(pre_state@, c);
    if c < k {
        assert(pre_state@[c] is IntQueue);
    }
    if k < c {
        assert(pre_state@[k] is IntQueue);
    }
}

/// There is no entry to commit if there are only queued operations, or if the first state other
/// than those is of another kind.
pub proof fn law_no_entry_is_committed(pre_state: Vec<Db>, k: int, found: Option<Entry>)
    requires
        0 <= k <= pre_state@.len(),
        forall|j: int| 0 <= j < k ==> (#[trigger] pre_state@[j]) is IntQueue,
        k < pre_state@.len() ==> match pre_state@[k] {
            Db::IntQueue(_) => false,
            Db::CasEntry(..) => false,
            Db::Integrated(DhtOp::StoreEntry(..)) => false,
            _ => true,
        },
    ensures
        !has_entry_to_commit(pre_state@),
        call_ensures(find_entry_to_commit, (&pre_state,), found) ==> found is None,
{
    if has_entry_to_commit(pre_state@) {
        let c = choose|c: int| is_entry_to_commit(pre_state@, c);
        if c < k {
            assert(pre_state@[c] is IntQueue);
        }
        if k < c {
            assert(pre_state@[k] is IntQueue);
        }
    }
}

/// An entry is committed as it stands in the state, under its own address and as the one kind of
/// entry that is defined, in the zome that is named: the only one of its DNA, with the id one.
pub proof fn law_commit_is_of_the_entry<E, H, O>(
    pre_state: Vec<Db>,
    zome_name: ZomeName,
    entry_def_id: EntryDefId,
    entry_def: EntryDef,
    dna_def: DnaDef,
    zome_def: ZomeDef,
    hasher: ContentHasher<E, H, O>,
    entry: Entry,
    call: CommitEntryCall,
) where
    E: Fn(&Entry) -> EntryHash,
    H: Fn(&Header) -> HeaderHash,
    O: Fn(&DhtOp) -> DhtOpHash,

    requires
        call_ensures(entry_to_commit, (&pre_state,), entry),
        call_ensures(
            commit_entry::<E, H, O>,
            (&pre_state, zome_name, entry_def_id, entry_def, dna_def, zome_def, &hasher),
            call,
        ),
    ensures
        call.input.entry == entry,
        call.input.entry_def_id == entry_def_id,
        call.entry_hash == (hasher@.entry)(entry),
        call.zome.name == zome_name,
        call.zome.def == zome_def,
        call.ribosome.zome_id == ZomeId(1),
        call.ribosome.dna_def.zomes@.len() == 1,
        call.ribosome.dna_def.zomes@[0] == call.zome,
        call.ribosome.dna_def.name == dna_def.name,
        call.ribosome.dna_def.uid == dna_def.uid,
        call.ribosome.dna_def.properties == dna_def.properties,
        call.ribosome.entry_defs@.len() == 1,
        call.ribosome.entry_defs@[0].0 == zome_name,
        call.ribosome.entry_defs@[0].1@.len() == 1,
        call.ribosome.entry_defs@[0].1@[0].id == entry_def_id,
        call.ribosome.entry_defs@[0].1@[0].visibility == entry_def.visibility,
        call.ribosome.entry_defs@[0].1@[0].required_validations == entry_def.required_validations,
{
}

/// A link is created from the base to the target, with the tag, in the zome that is named. Links
/// are asked for by the base and the tag that one was created with, in a zome made in the same
/// way.
pub proof fn law_link_is_asked_for_as_created(
    base_address: EntryHash,
    target_address: EntryHash,
    zome_name: ZomeName,
    link_tag: LinkTag,
    dna_def: DnaDef,
    zome_def: ZomeDef,
    create: CreateLinkCall,
    get: GetLinksCall,
)
    requires
        call_ensures(
            create_link,
            (base_address, target_address, zome_name, link_tag, dna_def, zome_def),
            create,
        ),
        call_ensures(get_links, (base_address, zome_name, link_tag, dna_def, zome_def), get),
    ensures
        create.input.base_address == base_address,
        create.input.target_address == target_address,
        create.input.tag == link_tag,
        get.input.base_address == create.input.base_address,
        get.input.tag == Some(create.input.tag),
        create.zome.name == zome_name,
        create.zome.def == zome_def,
        create.ribosome.zome_id == ZomeId(1),
        create.ribosome.entry_defs@.len() == 0,
        create.ribosome.dna_def.zomes@.len() == 1,
        create.ribosome.dna_def.zomes@[0] == create.zome,
        create.ribosome.dna_def.name == dna_def.name,
        create.ribosome.dna_def.uid == dna_def.uid,
        create.ribosome.dna_def.properties == dna_def.properties,
        get.zome == create.zome,
        get.ribosome.zome_id == create.ribosome.zome_id,
        get.ribosome.entry_defs@ == create.ribosome.entry_defs@,
        get.ribosome.dna_def.zomes@ == create.ribosome.dna_def.zomes@,
        get.ribosome.dna_def.name == create.ribosome.dna_def.name,
        get.ribosome.dna_def.uid == create.ribosome.dna_def.uid,
        get.ribosome.dna_def.properties == create.ribosome.dna_def.properties,
{
}

/// An entry is asked for by its own address, in its latest version. What is read from the answer is
/// the entry that came with the element: nothing, if no element came or none came with it.
pub proof fn law_entry_is_asked_for_and_read(
    entry_hash: EntryHash,
    input: GetInput,
    output: Option<Element>,
    entry: Option<Entry>,
)
    requires
        call_ensures(get_entry, (entry_hash,), input),
        call_ensures(entry_in, (&output,), entry),
    ensures
        input.any_dht_hash == AnyDhtHash::Entry(entry_hash),
        input.strategy == GetStrategy::Latest,
        output is None ==> entry is None,
        output matches Some(element) ==> entry == element.entry,
{
}

/// Every link gives the place that it leads to, in the order of the links.
pub proof fn law_each_link_gives_its_target(links: Vec<Link>, targets: Vec<EntryHash>, i: int)
    requires
        call_ensures(link_targets, (&links,), targets),
    ensures
        targets@.len() == links@.len(),
        0 <= i < links@.len() ==> targets@[i] == links@[i].target,
{
}

} // verus!
