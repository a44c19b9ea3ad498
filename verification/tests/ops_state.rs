//! The scenarios of integration, played on a database in memory.

use integrate_dht_ops::address::{
    AgentPubKey, AnyDhtHash, DhtOpHash, Digest, DnaHash, EntryHash, HeaderHash, Timestamp,
};
use integrate_dht_ops::content::{Entry, SharedBytes, Signature};
use integrate_dht_ops::db::{clear_dbs, CheckError, Db, Failure};
use integrate_dht_ops::env::{Env, ValidationStatus};
use integrate_dht_ops::hasher::ContentHasher;
use integrate_dht_ops::header::{
    AgentValidationPkg, ChainLink, CloseChain, Create, CreateLink, Delete, DeleteLink, Dna,
    EntryType, EntryVisibility, Header, InitZomesComplete, LinkTag, NewEntryHeader, OpenChain,
    Update, ZomeId,
};
use integrate_dht_ops::host_calls::{commit_entry, DnaDef, EntryDef, EntryDefId, ZomeDef, ZomeName};
use integrate_dht_ops::op::{DhtOp, DhtOpType};
use integrate_dht_ops::play::{call_workflow, play, queued_op};
use integrate_dht_ops::query::{GetLinksQuery, Link};
use integrate_dht_ops::scenarios::{
    register_add_link, register_agent_activity, register_delete_link,
    register_delete_link_missing_base, register_deleted_by, register_deleted_header_by,
    register_replaced_by_for_entry, register_updated_element, scenarios, store_element,
    store_entry, Scenario,
};
use integrate_dht_ops::test_data::{Fixtures, TestData};

type Hasher = ContentHasher<fn(&Entry) -> EntryHash, fn(&Header) -> HeaderHash, fn(&DhtOp) -> DhtOpHash>;

fn digest(text: &str) -> Digest {
    let mut hash: u64 = 0xcbf2_9ce4_8422_2325;
    for byte in text.bytes() {
        hash = (hash ^ u64::from(byte)).wrapping_mul(0x0000_0100_0000_01b3);
    }
    Digest { high: u128::from(hash), low: u128::from(text.len() as u64), location: hash as u32 }
}

fn hash_entry(entry: &Entry) -> EntryHash {
    EntryHash(digest(&format!("{:?}", entry)))
}

fn hash_header(header: &Header) -> HeaderHash {
    HeaderHash(digest(&format!("{:?}", header)))
}

fn hash_op(op: &DhtOp) -> DhtOpHash {
    DhtOpHash(digest(&format!("{:?}", op)))
}

fn hasher() -> Hasher {
    ContentHasher { entry: hash_entry, header: hash_header, op: hash_op }
}

fn chain(seq: u32) -> ChainLink {
    ChainLink {
        author: AgentPubKey(digest("alice")),
        timestamp: Timestamp(1_600_000_000 + i64::from(seq), 7),
        header_seq: seq,
        prev_header: HeaderHash(digest(&format!("prev {}", seq))),
    }
}

fn app_entry_type() -> EntryType {
    EntryType::App { id: 2, zome_id: ZomeId(3), visibility: EntryVisibility::Public }
}

fn nowhere_entry() -> EntryHash {
    EntryHash(digest("no entry"))
}

fn nowhere_header() -> HeaderHash {
    HeaderHash(digest("no header"))
}

fn create(seq: u32) -> Create {
    Create { chain: chain(seq), entry_type: app_entry_type(), entry_hash: nowhere_entry() }
}

fn update(seq: u32) -> Update {
    Update {
        chain: chain(seq),
        original_header_address: nowhere_header(),
        original_entry_address: nowhere_entry(),
        entry_type: app_entry_type(),
        entry_hash: nowhere_entry(),
    }
}

fn tag(bytes: &[u8]) -> LinkTag {
    LinkTag(SharedBytes::new(bytes.to_vec()))
}

fn fixtures(original_header: NewEntryHeader, any_header: Header) -> Fixtures {
    Fixtures {
        signature: Signature([9; 64]),
        original_header,
        entry_update_header: update(11),
        entry_update_entry: update(12),
        entry_delete: Delete {
            chain: chain(13),
            deletes_address: nowhere_header(),
            deletes_entry_address: nowhere_entry(),
        },
        link_add: CreateLink {
            chain: chain(14),
            base_address: nowhere_entry(),
            target_address: nowhere_entry(),
            zome_id: ZomeId(0),
            tag: tag(b"old"),
        },
        zome_id: ZomeId(5),
        tag: tag(b"likes"),
        link_remove: DeleteLink {
            chain: chain(15),
            base_address: nowhere_entry(),
            link_add_address: nowhere_header(),
        },
        any_header,
        dna_header: Dna {
            author: AgentPubKey(digest("alice")),
            timestamp: Timestamp(1_500_000_000, 0),
            hash: DnaHash(digest("dna")),
        },
    }
}

fn app_entry(bytes: &[u8]) -> Entry {
    Entry::App(SharedBytes::new(bytes.to_vec()))
}

fn test_data_from(original_header: NewEntryHeader, any_header: Header) -> TestData {
    TestData::new_inner(
        app_entry(b"Bananas are good for you"),
        app_entry(b"Potassium is radioactive"),
        fixtures(original_header, any_header),
        &hasher(),
    )
}

fn test_data() -> TestData {
    test_data_from(NewEntryHeader::Create(create(1)), Header::Create(create(2)))
}

fn any_headers() -> Vec<Header> {
    vec![
        Header::Create(create(2)),
        Header::Update(update(2)),
        Header::Dna(Dna {
            author: AgentPubKey(digest("bob")),
            timestamp: Timestamp(3, 4),
            hash: DnaHash(digest("other dna")),
        }),
        Header::AgentValidationPkg(AgentValidationPkg { chain: chain(3), membrane_proof: None }),
        Header::InitZomesComplete(InitZomesComplete { chain: chain(4) }),
        Header::OpenChain(OpenChain { chain: chain(5), prev_dna_hash: DnaHash(digest("a")) }),
        Header::CloseChain(CloseChain { chain: chain(6), new_dna_hash: DnaHash(digest("b")) }),
    ]
}

/// A cell whose database is in memory.
struct Cell {
    env: Env,
    ops: Vec<DhtOp>,
}

impl Cell {
    fn new() -> Cell {
        Cell { env: Env::new(), ops: Vec::new() }
    }

    fn clear(&mut self) {
        clear_dbs(&mut self.env);
        self.ops.clear();
    }

    fn set(&mut self, states: &Vec<Db>) {
        for state in states {
            assert!(state.is_settable());
            if let Db::Integrated(op) | Db::IntQueue(op) = state {
                self.ops.push(op.clone());
            }
        }
        let clock: Vec<Timestamp> =
            (0..states.len()).map(|i| Timestamp(1_700_000_000 + i as i64, 0)).collect();
        Db::set(states, &mut self.env, &clock, &hasher());
    }

    fn is_integrated(&self, op: &DhtOp) -> bool {
        let expects = vec![Db::Integrated(op.clone())];
        Db::check(&expects, &self.env, &vec![Vec::new()], &hasher()).is_ok()
    }

    /// Integrates what is queued, but for the removal of a link that is not there.
    fn integrate(&mut self) {
        for op in self.ops.clone() {
            let ready = match &op {
                DhtOp::RegisterRemoveLink(_, remove) => self.ops.iter().any(|other| match other {
                    DhtOp::RegisterAddLink(_, add) => {
                        hash_header(&Header::CreateLink(add.clone())) == remove.link_add_address
                            && self.is_integrated(other)
                    }
                    _ => false,
                }),
                _ => true,
            };
            if ready && !self.is_integrated(&op) {
                self.env.set_when_integrated(hash_op(&op), Timestamp(1_800_000_000, 0));
            }
        }
    }

    fn links(&self, query: &GetLinksQuery) -> Vec<Link> {
        let mut links = Vec::new();
        for op in &self.ops {
            if let DhtOp::RegisterAddLink(_, add) = op {
                let hash = hash_header(&Header::CreateLink(add.clone()));
                let removed = self.ops.iter().any(|other| match other {
                    DhtOp::RegisterRemoveLink(_, remove) => {
                        remove.link_add_address == hash && self.is_integrated(other)
                    }
                    _ => false,
                });
                if self.is_integrated(op)
                    && !removed
                    && add.base_address == query.base
                    && add.zome_id == query.zome_id
                    && Some(&add.tag) == query.tag.as_ref()
                {
                    links.push(Link {
                        target: add.target_address,
                        tag: add.tag.clone(),
                        create_link_hash: hash,
                    });
                }
            }
        }
        links
    }

    fn check(&self, expects: &Vec<Db>) -> Result<(), CheckError> {
        let links: Vec<Vec<Link>> = expects
            .iter()
            .map(|expect| match expect.links_query() {
                Some(query) => self.links(&query),
                None => Vec::new(),
            })
            .collect();
        Db::check(expects, &self.env, &links, &hasher())
    }

    fn check_one(&self, expect: Db) -> Option<Failure> {
        match self.check(&vec![expect]) {
            Ok(()) => None,
            Err(error) => Some(error.failure),
        }
    }
}

#[test]
fn test_ops_state() {
    let tests: [fn(TestData) -> (Vec<Db>, Vec<Db>, &'static str); 10] = [
        store_element,
        store_entry,
        register_agent_activity,
        register_replaced_by_for_entry,
        register_updated_element,
        register_deleted_by,
        register_deleted_header_by,
        register_add_link,
        register_delete_link,
        register_delete_link_missing_base,
    ];
    let mut cell = Cell::new();
    for any_header in any_headers() {
        for original_header in [NewEntryHeader::Create(create(1)), NewEntryHeader::Update(update(1))] {
            for t in tests.iter() {
                cell.clear();
                let td = test_data_from(original_header, any_header.clone());
                let (pre_state, expect, name) = t(td);
                cell.set(&pre_state);
                cell.integrate();
                assert_eq!(cell.check(&expect), Ok(()), "{}", name);
            }
        }
    }
}

#[test]
fn scenarios_come_in_order_under_their_names() {
    let names: Vec<&'static str> =
        scenarios().iter().map(|scenario| scenario.states(test_data()).2).collect();
    assert_eq!(
        names,
        vec![
            "store element",
            "store entry",
            "register agent activity",
            "register replaced by for entry",
            "register updated element",
            "register deleted by",
            "register deleted header by",
            "register link add",
            "register link remove",
            "register remove link remove missing base",
        ]
    );
}

#[test]
fn scenarios_start_as_set_and_are_not_met_before_integration() {
    for scenario in scenarios() {
        let (pre_state, expect, name) = scenario.states(test_data());
        let mut cell = Cell::new();
        cell.set(&pre_state);
        assert_eq!(cell.check(&pre_state), Ok(()), "{}", name);
        if scenario == Scenario::RegisterDeleteLinkMissingBase {
            assert_eq!(cell.check(&expect), Ok(()));
        } else {
            let index = 0;
            let failure = if scenario == Scenario::RegisterDeletedBy {
                Failure::NotEmpty
            } else {
                Failure::Missing
            };
            assert_eq!(cell.check(&expect), Err(CheckError { index, failure }), "{}", name);
        }
    }
}

#[test]
fn missing_base_is_not_met_if_integrated() {
    let td = test_data();
    let op = DhtOp::RegisterRemoveLink(td.signature, td.link_remove);
    let (pre_state, expect, _) = register_delete_link_missing_base(td);
    let mut cell = Cell::new();
    cell.set(&pre_state);
    cell.env.set_when_integrated(hash_op(&op), Timestamp(1, 1));
    assert_eq!(
        cell.check(&expect),
        Err(CheckError { index: 0, failure: Failure::NotEmpty })
    );
    assert_eq!(cell.check_one(Db::IntQueue(op)), Some(Failure::Missing));
    assert_eq!(cell.check_one(Db::MetaEmpty), Some(Failure::NotEmpty));
}

#[test]
fn states_of_the_scenarios() {
    let td = test_data();
    let original = DhtOp::StoreEntry(td.signature, td.original_header, td.original_entry.clone());
    let add = DhtOp::RegisterAddLink(td.signature, td.link_add.clone());
    let remove = DhtOp::RegisterRemoveLink(td.signature, td.link_remove);
    let (pre_state, expect, _) = register_delete_link(td.clone());
    assert_eq!(
        pre_state,
        vec![Db::Integrated(original.clone()), Db::Integrated(add), Db::IntQueue(remove.clone())]
    );
    assert_eq!(expect, vec![Db::Integrated(remove), Db::MetaLinkEmpty(td.link_add.clone())]);

    let delete = DhtOp::RegisterDeletedEntryHeader(td.signature, td.entry_delete);
    let (pre_state, expect, _) = register_deleted_by(td.clone());
    assert_eq!(pre_state, vec![Db::Integrated(original), Db::IntQueue(delete.clone())]);
    assert_eq!(
        expect,
        vec![
            Db::IntQueueEmpty,
            Db::Integrated(delete),
            Db::MetaDelete(td.original_header_hash, Header::Delete(td.entry_delete)),
        ]
    );
}

#[test]
fn store_element_without_entry() {
    let header = Header::InitZomesComplete(InitZomesComplete { chain: chain(4) });
    let td = test_data_from(NewEntryHeader::Create(create(1)), header.clone());
    assert_eq!(td.any_header, header);
    let op = DhtOp::StoreElement(td.signature, header.clone(), None);
    let (pre_state, expect, _) = store_element(td.clone());
    assert_eq!(pre_state, vec![Db::IntQueue(op.clone())]);
    assert_eq!(expect, vec![Db::Integrated(op), Db::CasHeader(header, None)]);
    let mut cell = Cell::new();
    cell.set(&pre_state);
    cell.integrate();
    assert_eq!(cell.check_one(Db::CasEntry(td.original_entry, None, None)), Some(Failure::Missing));
}

#[test]
fn test_integrate_single_register_replaced_by_for_header() {
    // metadata has the update on the header's address but not on the entry's
    let td = test_data();
    let header = td.entry_update_header;
    let op = DhtOp::RegisterUpdatedElement(td.signature, header, Some(td.new_entry.clone()));
    let mut cell = Cell::new();
    cell.set(&vec![Db::IntQueue(op)]);
    cell.integrate();
    let update = Header::Update(header);
    let on_header = AnyDhtHash::Header(td.original_header_hash);
    let on_entry = AnyDhtHash::Entry(td.original_entry_hash);
    assert_eq!(cell.check_one(Db::MetaUpdate(on_header, update.clone())), None);
    assert_eq!(cell.check_one(Db::MetaUpdate(on_entry, update)), Some(Failure::Missing));
}

#[test]
fn test_integrate_single_register_replaced_by_for_entry() {
    // metadata has the update on the entry's address but not on the header's
    let td = test_data();
    let header = td.entry_update_entry;
    let op = DhtOp::RegisterUpdatedContent(td.signature, header, Some(td.new_entry.clone()));
    let mut cell = Cell::new();
    cell.set(&vec![Db::IntQueue(op)]);
    cell.integrate();
    let update = Header::Update(header);
    let on_header = AnyDhtHash::Header(td.original_header_hash);
    let on_entry = AnyDhtHash::Entry(td.original_entry_hash);
    assert_eq!(cell.check_one(Db::MetaUpdate(on_entry, update.clone())), None);
    assert_eq!(cell.check_one(Db::MetaUpdate(on_header, update)), Some(Failure::Missing));
}

#[test]
fn test_integrate_single_register_delete_on_headerd_by() {
    // metadata has the delete on the header's address
    let td = test_data();
    let op = DhtOp::RegisterDeletedBy(td.signature, td.entry_delete);
    let mut cell = Cell::new();
    cell.set(&vec![Db::IntQueue(op)]);
    let delete = Header::Delete(td.entry_delete);
    let expect = Db::MetaDelete(td.original_header_hash, delete);
    assert_eq!(cell.check_one(expect.clone()), Some(Failure::Missing));
    cell.integrate();
    assert_eq!(cell.check_one(expect), None);
    let row = cell.env.dht_ops[0];
    assert_eq!(row.op_type, DhtOpType::RegisterDeletedBy);
    assert_eq!(row.basis_hash, AnyDhtHash::Header(td.original_header_hash));
}

#[test]
fn test_integrate_single_register_add_link() {
    // metadata has the link on the entry's address
    let td = test_data();
    let op = DhtOp::RegisterAddLink(td.signature, td.link_add.clone());
    let mut cell = Cell::new();
    cell.set(&vec![Db::IntQueue(op)]);
    let expect = Db::MetaLink(td.link_add.clone(), td.new_entry_hash);
    assert_eq!(cell.check_one(expect.clone()), Some(Failure::LinkCount));
    assert_eq!(cell.check_one(Db::MetaLinkEmpty(td.link_add.clone())), None);
    cell.integrate();
    assert_eq!(cell.check_one(expect), None);
    assert_eq!(cell.check_one(Db::MetaLinkEmpty(td.link_add)), Some(Failure::LinkCount));
    assert_eq!(cell.env.dht_ops[0].basis_hash, AnyDhtHash::Entry(td.original_entry_hash));
}

#[test]
fn test_integrate_single_register_delete_link() {
    // metadata has no link on the entry's address once it is removed
    let td = test_data();
    let add = DhtOp::RegisterAddLink(td.signature, td.link_add.clone());
    let remove = DhtOp::RegisterRemoveLink(td.signature, td.link_remove);
    let mut cell = Cell::new();
    cell.set(&vec![Db::Integrated(add), Db::IntQueue(remove)]);
    assert_eq!(cell.check_one(Db::MetaLink(td.link_add.clone(), td.new_entry_hash)), None);
    cell.integrate();
    assert_eq!(cell.check_one(Db::MetaLinkEmpty(td.link_add)), None);
    assert_eq!(cell.env.dht_ops[1].basis_hash, AnyDhtHash::Entry(td.original_entry_hash));
}

#[test]
fn test_data_refers_to_itself() {
    let td = test_data();
    assert_eq!(td.original_entry_hash, hash_entry(&td.original_entry));
    assert_eq!(td.new_entry_hash, hash_entry(&td.new_entry));
    assert_eq!(td.original_header.entry_hash(), td.original_entry_hash);
    assert_eq!(td.original_header_hash, hash_header(&td.original_header.to_header()));
    assert_eq!(td.any_header.entry_hash(), Some(td.original_entry_hash));
    assert_eq!(td.entry_update_header.entry_hash, td.new_entry_hash);
    assert_eq!(td.entry_update_header.original_header_address, td.original_header_hash);
    assert_eq!(td.entry_update_header.original_entry_address, nowhere_entry());
    assert_eq!(td.entry_update_entry.entry_hash, td.new_entry_hash);
    assert_eq!(td.entry_update_entry.original_header_address, td.original_header_hash);
    assert_eq!(td.entry_update_entry.original_entry_address, td.original_entry_hash);
    assert_eq!(td.entry_delete.deletes_address, td.original_header_hash);
    assert_eq!(td.entry_delete.deletes_entry_address, nowhere_entry());
    assert_eq!(td.link_add.base_address, td.original_entry_hash);
    assert_eq!(td.link_add.target_address, td.new_entry_hash);
    assert_eq!(td.link_add.zome_id, ZomeId(5));
    assert_eq!(td.link_add.tag, tag(b"likes"));
    assert_eq!(td.link_remove.base_address, td.original_entry_hash);
    let link_add = Header::CreateLink(td.link_add.clone());
    assert_eq!(td.link_remove.link_add_address, hash_header(&link_add));
    assert!(matches!(td.dna_header, Header::Dna(_)));
    assert_eq!(td.clone(), td);
}

#[test]
fn integration_needs_validity_to_show() {
    let td = test_data();
    let op = DhtOp::RegisterAgentActivity(td.signature, td.dna_header.clone());
    let mut cell = Cell::new();
    cell.set(&vec![Db::Integrated(op.clone())]);
    assert_eq!(cell.check_one(Db::MetaActivity(td.dna_header.clone())), None);
    cell.env.set_validation_status(hash_op(&op), ValidationStatus::Rejected);
    assert_eq!(cell.check_one(Db::MetaActivity(td.dna_header)), Some(Failure::Missing));
    assert_eq!(cell.check_one(Db::Integrated(op)), Some(Failure::Missing));
    assert_eq!(cell.check_one(Db::IntegratedEmpty), Some(Failure::NotEmpty));
    assert_eq!(cell.check_one(Db::IntQueueEmpty), None);
}

#[test]
fn the_base_of_a_link_is_committed() {
    let td = test_data();
    let name = |text: &[u8]| SharedBytes::new(text.to_vec());
    let (pre_state, _, _) = register_add_link(td.clone());
    let call = commit_entry(
        &pre_state,
        ZomeName(name(b"posts")),
        EntryDefId::App(name(b"post")),
        EntryDef {
            id: EntryDefId::CapGrant,
            visibility: EntryVisibility::Public,
            required_validations: 1,
        },
        DnaDef {
            name: name(b"dna"),
            uid: name(b"uid"),
            properties: name(b""),
            zomes: Vec::new(),
        },
        ZomeDef { wasm_hash: digest("wasm") },
        &hasher(),
    );
    assert_eq!(call.entry_hash, td.original_entry_hash);
    assert_eq!(call.input.entry, td.original_entry);
}

#[test]
fn scenarios_are_played_for_either_outcome() {
    let td = test_data();
    let link = || Link {
        target: td.new_entry_hash,
        tag: td.link_add.tag.clone(),
        create_link_hash: hash_header(&Header::CreateLink(td.link_add.clone())),
    };
    for scenario in scenarios() {
        let (pre_state, expect, name) = scenario.states(td.clone());
        let clock: Vec<Timestamp> = pre_state.iter().map(|_| Timestamp(1, 2)).collect();
        for integrated in [None, Some(Timestamp(3, 4))] {
            let links: Vec<Vec<Link>> = expect
                .iter()
                .map(|state| match state {
                    Db::MetaLink(_, _) => vec![link()],
                    _ => Vec::new(),
                })
                .collect();
            let mut env = Env::new();
            let res = play(scenario, td.clone(), &mut env, &clock, integrated, &links, &hasher());
            let leave = scenario == Scenario::RegisterDeleteLinkMissingBase;
            assert_eq!(res.is_ok(), integrated.is_none() == leave, "{}", name);
        }
    }
}

#[test]
fn the_workflow_is_recorded() {
    let td = test_data();
    let (pre_state, expect, _) = register_deleted_header_by(td.clone());
    let op = DhtOp::RegisterDeletedBy(td.signature, td.entry_delete);
    assert_eq!(queued_op(&pre_state), Some(op.clone()));
    assert_eq!(queued_op(&expect), None);
    let mut cell = Cell::new();
    cell.set(&pre_state);
    call_workflow(&mut cell.env, hash_op(&op), None);
    assert_eq!(cell.check_one(Db::IntQueue(op.clone())), None);
    call_workflow(&mut cell.env, hash_op(&op), Some(Timestamp(8, 0)));
    assert_eq!(cell.check(&expect), Ok(()));
}
