//! The parts that scenarios are made of.

use integrate_dht_ops::address::{
    AgentPubKey, AnyDhtHash, DhtOpHash, Digest, EntryHash, HeaderHash, Timestamp,
};
use integrate_dht_ops::content::{Entry, SharedBytes, Signature};
use integrate_dht_ops::db::{clear_dbs, CheckError, Db, Failure};
use integrate_dht_ops::env::{Env, Mutation, ValidationStatus, AWAITING_INTEGRATION};
use integrate_dht_ops::hasher::ContentHasher;
use integrate_dht_ops::header::{
    ChainLink, Create, CreateLink, Delete, DeleteLink, EntryType, EntryVisibility, Header, LinkTag,
    NewEntryHeader, Update, ZomeId,
};
use integrate_dht_ops::host_calls::{
    commit_entry, create_link, entry_in, entry_to_commit, find_entry_to_commit, get_entry,
    get_links, link_targets, single_zome_dna, DnaDef, Element, EntryDef, EntryDefId, GetStrategy, Zome, ZomeDef, ZomeName,
};
use integrate_dht_ops::op::{DhtOp, DhtOpHashed, DhtOpType};
use integrate_dht_ops::query::{ElementQuery, GetLinksQuery, Link, OpQuery};

type Hasher = ContentHasher<fn(&Entry) -> EntryHash, fn(&Header) -> HeaderHash, fn(&DhtOp) -> DhtOpHash>;

fn digest(text: &str) -> Digest {
    let mut hash: u64 = 0xcbf2_9ce4_8422_2325;
    for byte in text.bytes() {
        hash = (hash ^ u64::from(byte)).wrapping_mul(0x0000_0100_0000_01b3);
    }
    Digest { high: u128::from(hash), low: u128::from(text.len() as u64), location: hash as u32 }
}

fn hash_entry(entry: &Entry) -> EntryHash {
    EntryHash(digest(&format!("{:?}", entry)))
}

fn hash_header(header: &Header) -> HeaderHash {
    HeaderHash(digest(&format!("{:?}", header)))
}

fn hash_op(op: &DhtOp) -> DhtOpHash {
    DhtOpHash(digest(&format!("{:?}", op)))
}

fn hasher() -> Hasher {
    ContentHasher { entry: hash_entry, header: hash_header, op: hash_op }
}

fn chain(seq: u32) -> ChainLink {
    ChainLink {
        author: AgentPubKey(digest("alice")),
        timestamp: Timestamp(i64::from(seq), 0),
        header_seq: seq,
        prev_header: HeaderHash(digest("before")),
    }
}

fn bytes(text: &str) -> SharedBytes {
    SharedBytes::new(text.as_bytes().to_vec())
}

fn signature() -> Signature {
    Signature([1; 64])
}

fn app_entry(text: &str) -> Entry {
    Entry::App(bytes(text))
}

fn create(seq: u32, entry: &Entry) -> Create {
    Create { chain: chain(seq), entry_type: EntryType::CapGrant, entry_hash: hash_entry(entry) }
}

fn update(seq: u32, entry: &Entry) -> Update {
    Update {
        chain: chain(seq),
        original_header_address: HeaderHash(digest("updated header")),
        original_entry_address: EntryHash(digest("updated entry")),
        entry_type: EntryType::AgentPubKey,
        entry_hash: hash_entry(entry),
    }
}

fn delete(seq: u32) -> Delete {
    Delete {
        chain: chain(seq),
        deletes_address: HeaderHash(digest("deleted header")),
        deletes_entry_address: EntryHash(digest("deleted entry")),
    }
}

fn link(seq: u32) -> CreateLink {
    CreateLink {
        chain: chain(seq),
        base_address: EntryHash(digest("base")),
        target_address: EntryHash(digest("target")),
        zome_id: ZomeId(4),
        tag: LinkTag(bytes("tag")),
    }
}

fn unlink(seq: u32) -> DeleteLink {
    DeleteLink {
        chain: chain(seq),
        base_address: EntryHash(digest("base")),
        link_add_address: hash_header(&Header::CreateLink(link(1))),
    }
}

fn all_ops() -> Vec<DhtOp> {
    let entry = app_entry("entry");
    vec![
        DhtOp::StoreElement(signature(), Header::Create(create(1, &entry)), Some(entry.clone())),
        DhtOp::StoreEntry(signature(), NewEntryHeader::Create(create(2, &entry)), entry.clone()),
        DhtOp::RegisterAgentActivity(signature(), Header::Create(create(3, &entry))),
        DhtOp::RegisterUpdatedContent(signature(), update(4, &entry), Some(entry.clone())),
        DhtOp::RegisterUpdatedElement(signature(), update(5, &entry), None),
        DhtOp::RegisterDeletedBy(signature(), delete(6)),
        DhtOp::RegisterDeletedEntryHeader(signature(), delete(7)),
        DhtOp::RegisterAddLink(signature(), link(8)),
        DhtOp::RegisterRemoveLink(signature(), unlink(9)),
    ]
}

fn set(env: &mut Env, states: Vec<Db>) {
    let clock: Vec<Timestamp> = states.iter().map(|_| Timestamp(77, 5)).collect();
    Db::set(&states, env, &clock, &hasher());
}

fn failure(env: &Env, state: Db) -> Option<Failure> {
    state.failure(env, &Vec::new(), &hasher())
}

fn positive_states(op: &DhtOp) -> Vec<Db> {
    let entry = app_entry("entry");
    let header = op.header();
    match op {
        DhtOp::StoreElement(_, _, _) => {
            vec![Db::CasHeader(header, None), Db::CasEntry(entry, None, None)]
        }
        DhtOp::StoreEntry(_, _, _) => vec![
            Db::CasHeader(header.clone(), Some(signature())),
            Db::CasEntry(entry.clone(), Some(header.clone()), None),
            Db::MetaHeader(entry, header),
        ],
        DhtOp::RegisterAgentActivity(_, _) => vec![Db::MetaActivity(header)],
        DhtOp::RegisterUpdatedContent(_, h, _) => {
            vec![Db::MetaUpdate(AnyDhtHash::Entry(h.original_entry_address), header)]
        }
        DhtOp::RegisterUpdatedElement(_, h, _) => {
            vec![Db::MetaUpdate(AnyDhtHash::Header(h.original_header_address), header)]
        }
        DhtOp::RegisterDeletedBy(_, h) => vec![Db::MetaDelete(h.deletes_address, header)],
        DhtOp::RegisterDeletedEntryHeader(_, h) => vec![Db::MetaDelete(h.deletes_address, header)],
        _ => Vec::new(),
    }
}

#[test]
fn bytes_are_compared_by_content() {
    assert!(bytes("abc").same_bytes(&bytes("abc")));
    assert!(!bytes("abc").same_bytes(&bytes("abd")));
    assert!(!bytes("abc").same_bytes(&bytes("ab")));
    assert!(bytes("").same_bytes(&bytes("")));
    let original = bytes("shared");
    let clone = original.clone();
    assert_eq!(*clone.data, b"shared".to_vec());
    assert!(std::sync::Arc::ptr_eq(&original.data, &clone.data));
}

#[test]
fn ops_have_a_kind_and_a_basis() {
    let ops = all_ops();
    let kinds: Vec<DhtOpType> = ops.iter().map(|op| op.op_type()).collect();
    assert_eq!(
        kinds,
        vec![
            DhtOpType::StoreElement,
            DhtOpType::StoreEntry,
            DhtOpType::RegisterAgentActivity,
            DhtOpType::RegisterUpdatedContent,
            DhtOpType::RegisterUpdatedElement,
            DhtOpType::RegisterDeletedBy,
            DhtOpType::RegisterDeletedEntryHeader,
            DhtOpType::RegisterAddLink,
            DhtOpType::RegisterRemoveLink,
        ]
    );
    let own = HeaderHash(digest("own header"));
    let bases: Vec<AnyDhtHash> = ops.iter().map(|op| op.basis(own)).collect();
    assert_eq!(
        bases,
        vec![
            AnyDhtHash::Header(own),
            AnyDhtHash::Entry(hash_entry(&app_entry("entry"))),
            AnyDhtHash::Agent(AgentPubKey(digest("alice"))),
            AnyDhtHash::Entry(EntryHash(digest("updated entry"))),
            AnyDhtHash::Header(HeaderHash(digest("updated header"))),
            AnyDhtHash::Header(HeaderHash(digest("deleted header"))),
            AnyDhtHash::Entry(EntryHash(digest("deleted entry"))),
            AnyDhtHash::Entry(EntryHash(digest("base"))),
            AnyDhtHash::Entry(EntryHash(digest("base"))),
        ]
    );
    for op in &ops {
        assert_eq!(op.clone(), *op);
        assert_eq!(op.header().author(), AgentPubKey(digest("alice")));
    }
    assert_eq!(ops[3].entry(), Some(app_entry("entry")));
    assert_eq!(ops[4].entry(), None);
    assert_eq!(ops[5].header().deletes_header_hash(), Some(HeaderHash(digest("deleted header"))));
    assert_eq!(ops[7].header().deletes_header_hash(), None);
}

#[test]
fn writes_for_the_two_settable_states() {
    let ops = all_ops();
    let states = vec![Db::Integrated(ops[0].clone()), Db::IntQueue(ops[5].clone())];
    let clock = vec![Timestamp(10, 1), Timestamp(20, 2)];
    let first = DhtOpHashed { content: ops[0].clone(), hash: hash_op(&ops[0]) };
    let second = DhtOpHashed { content: ops[5].clone(), hash: hash_op(&ops[5]) };
    assert_eq!(AWAITING_INTEGRATION, 3);
    assert_eq!(
        Db::mutations(&states, &clock, &hasher()),
        vec![
            Mutation::InsertOp(first.clone(), false),
            Mutation::SetWhenIntegrated(first.hash, Timestamp(10, 1)),
            Mutation::SetValidationStatus(first.hash, ValidationStatus::Valid),
            Mutation::InsertOp(second.clone(), false),
            Mutation::SetValidationStage(second.hash, 3),
            Mutation::SetValidationStatus(second.hash, ValidationStatus::Valid),
        ]
    );
    assert!(Db::Integrated(ops[0].clone()).is_settable());
    assert!(!Db::IntegratedEmpty.is_settable());
    assert!(!Db::CasHeader(ops[0].header(), None).is_settable());
}

#[test]
fn set_fills_the_tables() {
    let entry = app_entry("entry");
    let op = DhtOp::StoreEntry(signature(), NewEntryHeader::Create(create(2, &entry)), entry.clone());
    let mut env = Env::new();
    set(&mut env, vec![Db::Integrated(op.clone())]);
    assert_eq!(env.dht_ops.len(), 1);
    let row = env.dht_ops[0];
    assert_eq!(row.hash, hash_op(&op));
    assert_eq!(row.op_type, DhtOpType::StoreEntry);
    assert_eq!(row.basis_hash, AnyDhtHash::Entry(hash_entry(&entry)));
    assert_eq!(row.header_hash, hash_header(&Header::Create(create(2, &entry))));
    assert!(!row.is_authored);
    assert_eq!(row.when_integrated, Some(Timestamp(77, 5)));
    assert_eq!(row.validation_status, Some(ValidationStatus::Valid));
    assert_eq!(row.validation_stage, None);
    assert_eq!(env.headers.len(), 1);
    assert_eq!(env.headers[0].hash, row.header_hash);
    assert_eq!(env.headers[0].entry_hash, Some(hash_entry(&entry)));
    assert_eq!(env.headers[0].deletes_header_hash, None);
    assert_eq!(env.entries.len(), 1);
    assert_eq!(env.entries[0].hash, hash_entry(&entry));
    assert_eq!(env.entries[0].entry, entry);
}

#[test]
fn what_is_set_is_found() {
    let mut env = Env::new();
    let states: Vec<Db> = all_ops()
        .into_iter()
        .enumerate()
        .map(|(i, op)| if i % 2 == 0 { Db::Integrated(op) } else { Db::IntQueue(op) })
        .collect();
    set(&mut env, states.clone());
    let links: Vec<Vec<Link>> = states.iter().map(|_| Vec::new()).collect();
    assert_eq!(Db::check(&states, &env, &links, &hasher()), Ok(()));
    for (i, op) in all_ops().into_iter().enumerate() {
        let other = if i % 2 == 0 { Db::IntQueue(op) } else { Db::Integrated(op) };
        assert_eq!(failure(&env, other), Some(Failure::Missing));
    }
}

#[test]
fn what_is_integrated_is_not_queued_again() {
    let op = all_ops().remove(5);
    let mut env = Env::new();
    set(&mut env, vec![Db::Integrated(op.clone()), Db::IntQueue(op.clone())]);
    assert_eq!(failure(&env, Db::Integrated(op.clone())), None);
    assert_eq!(failure(&env, Db::IntQueue(op)), Some(Failure::Missing));
}

#[test]
fn integrated_ops_show() {
    for op in all_ops() {
        let mut env = Env::new();
        set(&mut env, vec![Db::IntQueue(op.clone())]);
        for state in positive_states(&op) {
            assert_eq!(failure(&env, state), Some(Failure::Missing));
        }
        assert_eq!(failure(&env, Db::MetaEmpty), None);
        env.set_when_integrated(hash_op(&op), Timestamp(9, 9));
        for state in positive_states(&op) {
            assert_eq!(failure(&env, state), None);
        }
        assert_eq!(failure(&env, Db::MetaEmpty), Some(Failure::NotEmpty));
        assert_eq!(failure(&env, Db::Integrated(op)), None);
    }
}

#[test]
fn integrated_ops_go_on_to_show() {
    let mut env = Env::new();
    let mut shown: Vec<Db> = Vec::new();
    for op in all_ops() {
        set(&mut env, vec![Db::Integrated(op.clone())]);
        shown.extend(positive_states(&op));
        for state in &shown {
            assert_eq!(failure(&env, state.clone()), None);
        }
    }
    assert_eq!(shown.len(), 10);
}

#[test]
fn cleared_database_is_empty() {
    let mut env = Env::new();
    for op in all_ops() {
        set(&mut env, vec![Db::Integrated(op)]);
    }
    clear_dbs(&mut env);
    assert_eq!(env, Env::new());
    assert_eq!(failure(&env, Db::IntegratedEmpty), None);
    assert_eq!(failure(&env, Db::IntQueueEmpty), None);
    assert_eq!(failure(&env, Db::MetaEmpty), None);
    for op in all_ops() {
        assert_eq!(failure(&env, Db::Integrated(op.clone())), Some(Failure::Missing));
        assert_eq!(failure(&env, Db::IntQueue(op.clone())), Some(Failure::Missing));
        for state in positive_states(&op) {
            assert_eq!(failure(&env, state), Some(Failure::Missing));
        }
    }
}

#[test]
fn keys_stay_unique() {
    let mut env = Env::new();
    for _ in 0..3 {
        for op in all_ops() {
            set(&mut env, vec![Db::IntQueue(op)]);
        }
    }
    assert_eq!(env.dht_ops.len(), 9);
    assert_eq!(env.headers.len(), 9);
    assert_eq!(env.entries.len(), 1);
}

#[test]
fn ops_of_one_header_share_its_row() {
    let entry = app_entry("entry");
    let header = create(1, &entry);
    let mut env = Env::new();
    set(
        &mut env,
        vec![
            Db::Integrated(DhtOp::StoreElement(signature(), Header::Create(header), None)),
            Db::Integrated(DhtOp::StoreEntry(signature(), NewEntryHeader::Create(header), entry)),
        ],
    );
    assert_eq!(env.dht_ops.len(), 2);
    assert_eq!(env.headers.len(), 1);
}

#[test]
fn deletes_are_found_by_what_they_delete_or_by_themselves() {
    let mut env = Env::new();
    let elsewhere = HeaderHash(digest("elsewhere"));
    let unrelated = Header::Delete(delete(99));
    set(&mut env, vec![Db::Integrated(DhtOp::RegisterDeletedEntryHeader(signature(), delete(7)))]);
    let deleted = delete(7).deletes_address;
    assert_eq!(failure(&env, Db::MetaDelete(deleted, unrelated.clone())), None);
    assert_eq!(
        failure(&env, Db::MetaDelete(elsewhere, Header::Delete(delete(7)))),
        Some(Failure::Missing)
    );
    clear_dbs(&mut env);
    set(&mut env, vec![Db::Integrated(DhtOp::RegisterDeletedBy(signature(), delete(7)))]);
    assert_eq!(failure(&env, Db::MetaDelete(elsewhere, Header::Delete(delete(7)))), None);
    assert_eq!(failure(&env, Db::MetaDelete(deleted, unrelated)), Some(Failure::Missing));
}

#[test]
fn a_header_row_is_needed_where_the_header_is_asked_for() {
    let entry = app_entry("entry");
    let mut env = Env::new();
    set(
        &mut env,
        vec![Db::Integrated(DhtOp::StoreEntry(
            signature(),
            NewEntryHeader::Create(create(1, &entry)),
            entry.clone(),
        ))],
    );
    let hash = hash_entry(&entry);
    let query = ElementQuery::StoredEntry { entry: hash, basis: AnyDhtHash::Entry(hash) };
    assert!(env.any_element(&query));
    env.headers.clear();
    assert!(!env.any_element(&query));
    assert!(env.any_op(&OpQuery::StoredHeader {
        header: hash_header(&Header::Create(create(1, &entry)))
    }));
}

#[test]
fn waiting_needs_the_last_stage() {
    let op = all_ops().remove(7);
    let mut env = Env::new();
    set(&mut env, vec![Db::IntQueue(op.clone())]);
    assert_eq!(failure(&env, Db::IntQueue(op.clone())), None);
    env.set_validation_stage(hash_op(&op), 2);
    assert_eq!(failure(&env, Db::IntQueue(op.clone())), Some(Failure::Missing));
    assert_eq!(failure(&env, Db::IntQueueEmpty), Some(Failure::NotEmpty));
}

#[test]
fn links_are_judged_by_the_answer() {
    let link_add = link(1);
    let target = EntryHash(digest("target"));
    let found = || Link {
        target,
        tag: LinkTag(bytes("tag")),
        create_link_hash: hash_header(&Header::CreateLink(link(1))),
    };
    let env = Env::new();
    let state = Db::MetaLink(link_add.clone(), target);
    let judge = |links: Vec<Link>| state.failure(&env, &links, &hasher());
    assert_eq!(judge(vec![found()]), None);
    assert_eq!(judge(vec![]), Some(Failure::LinkCount));
    assert_eq!(judge(vec![found(), found()]), Some(Failure::LinkCount));
    let mut other = found();
    other.create_link_hash = HeaderHash(digest("other"));
    other.target = EntryHash(digest("other"));
    assert_eq!(judge(vec![other]), Some(Failure::LinkAddress));
    let mut other = found();
    other.target = EntryHash(digest("other"));
    other.tag = LinkTag(bytes("other"));
    assert_eq!(judge(vec![other]), Some(Failure::LinkTarget));
    let mut other = found();
    other.tag = LinkTag(bytes("other"));
    assert_eq!(judge(vec![other]), Some(Failure::LinkTag));
    let none = Db::MetaLinkEmpty(link_add.clone());
    assert_eq!(none.failure(&env, &vec![], &hasher()), None);
    assert_eq!(none.failure(&env, &vec![found()], &hasher()), Some(Failure::LinkCount));
    let query = GetLinksQuery::new(link_add.base_address, ZomeId(4), Some(link_add.tag));
    assert_eq!(state.links_query(), Some(GetLinksQuery { ..query }));
    assert_eq!(none.links_query(), state.links_query());
    assert_eq!(Db::MetaEmpty.links_query(), None);
}

#[test]
fn check_tells_of_the_first_failure() {
    let ops = all_ops();
    let mut env = Env::new();
    set(&mut env, vec![Db::Integrated(ops[0].clone())]);
    let expects = vec![
        Db::Integrated(ops[0].clone()),
        Db::IntQueueEmpty,
        Db::IntegratedEmpty,
        Db::Integrated(ops[1].clone()),
    ];
    let links: Vec<Vec<Link>> = expects.iter().map(|_| Vec::new()).collect();
    assert_eq!(
        Db::check(&expects, &env, &links, &hasher()),
        Err(CheckError { index: 2, failure: Failure::NotEmpty })
    );
    assert_eq!(Db::check(&Vec::new(), &env, &Vec::new(), &hasher()), Ok(()));
}

fn dna_def() -> DnaDef {
    DnaDef {
        name: bytes("dna"),
        uid: bytes("uid"),
        properties: bytes("properties"),
        zomes: vec![
            Zome { name: ZomeName(bytes("old")), def: ZomeDef { wasm_hash: digest("old wasm") } },
            Zome { name: ZomeName(bytes("older")), def: ZomeDef { wasm_hash: digest("wasm") } },
        ],
    }
}

fn zome_def() -> ZomeDef {
    ZomeDef { wasm_hash: digest("zome wasm") }
}

#[test]
fn the_first_stored_entry_is_committed() {
    let ops = all_ops();
    let pre_state = vec![
        Db::IntQueue(ops[0].clone()),
        Db::IntQueue(ops[1].clone()),
        Db::CasEntry(app_entry("first"), None, None),
        Db::CasEntry(app_entry("second"), None, None),
        Db::MetaEmpty,
    ];
    assert_eq!(entry_to_commit(&pre_state), app_entry("first"));
    let call = commit_entry(
        &pre_state,
        ZomeName(bytes("posts")),
        EntryDefId::App(bytes("post")),
        EntryDef {
            id: EntryDefId::CapClaim,
            visibility: EntryVisibility::Private,
            required_validations: 5,
        },
        dna_def(),
        zome_def(),
        &hasher(),
    );
    let zome = Zome { name: ZomeName(bytes("posts")), def: zome_def() };
    assert_eq!(call.input.entry, app_entry("first"));
    assert_eq!(call.input.entry_def_id, EntryDefId::App(bytes("post")));
    assert_eq!(call.entry_hash, hash_entry(&app_entry("first")));
    assert_eq!(call.zome, zome);
    assert_eq!(call.ribosome.zome_id, ZomeId(1));
    assert_eq!(call.ribosome.dna_def.zomes, vec![zome]);
    assert_eq!(call.ribosome.dna_def.name, bytes("dna"));
    assert_eq!(
        call.ribosome.entry_defs,
        vec![(
            ZomeName(bytes("posts")),
            vec![EntryDef {
                id: EntryDefId::App(bytes("post")),
                visibility: EntryVisibility::Private,
                required_validations: 5,
            }]
        )]
    );
}

#[test]
fn a_dna_of_one_zome() {
    let zome = Zome { name: ZomeName(bytes("posts")), def: zome_def() };
    let dna = single_zome_dna(dna_def(), &zome);
    assert_eq!(dna.zomes, vec![zome]);
    assert_eq!(dna.uid, bytes("uid"));
    assert_eq!(dna.properties, bytes("properties"));
}

#[test]
fn calls_about_links() {
    let base = EntryHash(digest("base"));
    let target = EntryHash(digest("target"));
    let zome = Zome { name: ZomeName(bytes("posts")), def: zome_def() };
    let call = create_link(
        base,
        target,
        ZomeName(bytes("posts")),
        LinkTag(bytes("tag")),
        dna_def(),
        zome_def(),
    );
    assert_eq!(call.input.base_address, base);
    assert_eq!(call.input.target_address, target);
    assert_eq!(call.input.tag, LinkTag(bytes("tag")));
    assert_eq!(call.zome, zome);
    assert_eq!(call.ribosome.zome_id, ZomeId(1));
    assert!(call.ribosome.entry_defs.is_empty());
    let call =
        get_links(base, ZomeName(bytes("posts")), LinkTag(bytes("tag")), dna_def(), zome_def());
    assert_eq!(call.input.base_address, base);
    assert_eq!(call.input.tag, Some(LinkTag(bytes("tag"))));
    assert_eq!(call.ribosome.dna_def.zomes, vec![zome]);
    let link = |target: EntryHash| Link {
        target,
        tag: LinkTag(bytes("tag")),
        create_link_hash: HeaderHash(digest("link")),
    };
    assert_eq!(link_targets(&vec![link(target), link(base)]), vec![target, base]);
    assert_eq!(link_targets(&Vec::new()), Vec::<EntryHash>::new());
}

#[test]
fn the_latest_entry_is_asked_for() {
    let hash = EntryHash(digest("entry"));
    let input = get_entry(hash);
    assert_eq!(input.any_dht_hash, AnyDhtHash::Entry(hash));
    assert_eq!(input.strategy, GetStrategy::Latest);
    let entry = app_entry("entry");
    let header = Header::Create(create(1, &entry));
    let element = Element { header: header.clone(), entry: Some(entry.clone()) };
    assert_eq!(entry_in(&Some(element)), Some(entry));
    assert_eq!(entry_in(&Some(Element { header, entry: None })), None);
    assert_eq!(entry_in(&None), None);
}

#[test]
fn setting_leaves_other_ops_alone() {
    let ops = all_ops();
    let mut env = Env::new();
    set(&mut env, vec![Db::Integrated(ops[0].clone()), Db::IntQueue(ops[1].clone())]);
    let before = (env.dht_ops[0], env.dht_ops[1]);
    set(&mut env, ops[2..].iter().map(|op| Db::Integrated(op.clone())).collect());
    assert_eq!((env.dht_ops[0], env.dht_ops[1]), before);
    assert_eq!(failure(&env, Db::Integrated(ops[0].clone())), None);
    assert_eq!(failure(&env, Db::IntQueue(ops[1].clone())), None);
}

#[test]
fn states_can_be_set_in_parts() {
    let states: Vec<Db> = all_ops().into_iter().map(Db::IntQueue).collect();
    let mut whole = Env::new();
    set(&mut whole, states.clone());
    let mut parts = Env::new();
    set(&mut parts, states[..4].to_vec());
    set(&mut parts, states[4..].to_vec());
    assert_eq!(whole, parts);
}

#[test]
fn integration_moves_one_op_out_of_the_queue() {
    let ops = all_ops();
    let mut env = Env::new();
    set(&mut env, vec![Db::IntQueue(ops[5].clone()), Db::IntQueue(ops[6].clone())]);
    env.set_when_integrated(hash_op(&ops[5]), Timestamp(1, 0));
    assert_eq!(failure(&env, Db::Integrated(ops[5].clone())), None);
    assert_eq!(failure(&env, Db::IntQueue(ops[5].clone())), Some(Failure::Missing));
    assert_eq!(failure(&env, Db::IntQueue(ops[6].clone())), None);
    assert_eq!(failure(&env, Db::IntQueueEmpty), Some(Failure::NotEmpty));
}

#[test]
fn an_entry_to_commit_is_looked_for() {
    let ops = all_ops();
    let queued = Db::IntQueue(ops[7].clone());
    let stored = Db::Integrated(ops[1].clone());
    assert_eq!(
        find_entry_to_commit(&vec![queued.clone(), stored.clone()]),
        Some(app_entry("entry"))
    );
    assert_eq!(entry_to_commit(&vec![stored.clone(), queued.clone()]), app_entry("entry"));
    assert_eq!(find_entry_to_commit(&vec![queued.clone()]), None);
    assert_eq!(find_entry_to_commit(&Vec::new()), None);
    assert_eq!(find_entry_to_commit(&vec![Db::MetaEmpty, stored.clone()]), None);
    assert_eq!(find_entry_to_commit(&vec![Db::Integrated(ops[0].clone()), stored]), None);
}
