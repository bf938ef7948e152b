use miner::address::find_metadata_address;
use miner::address::parse_identifier;
use miner::address::Address;
use miner::document::Attribute;
use miner::document::AttributeValue;
use miner::document::JsonNumber;
use miner::document::OffChainDocument;
use miner::driver::AccountAnswer;
use miner::driver::Action;
use miner::driver::DocumentAnswer;
use miner::driver::Driver;
use miner::driver::Event;
use miner::driver::PersistAnswer;
use miner::driver::Progress;
use miner::error::MineError;
use miner::error::Shape;
use miner::normalize::TraitRow;
use miner::record::OnChainRecord;
use miner::store::AssetRecord;
use miner::store::AttributeRow;
use miner::store::Store;
use std::collections::HashMap;

const A: &str = "So11111111111111111111111111111111111111112";
const B: &str = "metaqbxxUerdq28cj1RbAWkYQm3ybzjb6a8bt518x1s";
const C: &str = "TokenkegQfeZyiNwAJbNbGKPFXCWuBvf9Ss623VQ5DA";

/// What the ledger and the web answer in a test.
struct Surroundings {
    accounts: HashMap<[u8; 32], AccountAnswer>,
    documents: HashMap<String, DocumentAnswer>,
}

fn mint(text: &str) -> Address {
    parse_identifier(text).unwrap()
}

fn text_field(text: &str, width: usize) -> Vec<u8> {
    let mut bytes = text.as_bytes().to_vec();
    while bytes.len() < width {
        bytes.push(0);
    }
    let mut out = (bytes.len() as u32).to_le_bytes().to_vec();
    out.extend(bytes);
    out
}

fn account(name: &str, uri: &str) -> Vec<u8> {
    let mut data = vec![4u8];
    data.extend_from_slice(&[1u8; 64]);
    data.extend(text_field(name, 32));
    data.extend(text_field("SYM", 10));
    data.extend(text_field(uri, 200));
    while data.len() < 679 {
        data.push(0);
    }
    data
}

/// Reads a document the way a caller with a JSON reader does.
fn document(body: &str) -> OffChainDocument {
    let json: serde_json::Value = serde_json::from_str(body).unwrap();
    let attributes = json["attributes"]
        .as_array()
        .unwrap()
        .iter()
        .map(|entry| Attribute {
            trait_type: entry["trait_type"].as_str().unwrap().to_string(),
            value: match &entry["value"] {
                serde_json::Value::Null => AttributeValue::Null,
                serde_json::Value::Bool(flag) => AttributeValue::Bool(*flag),
                serde_json::Value::Number(number) => AttributeValue::Number(match (number.as_u64(), number.as_i64()) {
                    (Some(n), _) => JsonNumber::Unsigned(n),
                    (None, Some(n)) => JsonNumber::Signed(n),
                    (None, None) => JsonNumber::Real(number.to_string()),
                }),
                serde_json::Value::String(text) => AttributeValue::Text(text.clone()),
                serde_json::Value::Array(_) => AttributeValue::Array,
                serde_json::Value::Object(_) => AttributeValue::Object,
            },
        })
        .collect();
    OffChainDocument {
        name: json["name"].as_str().unwrap().to_string(),
        image: json["image"].as_str().unwrap().to_string(),
        attributes,
    }
}

fn uri_of(identifier: &str) -> String {
    format!("http://example/{}.json", identifier)
}

/// Surroundings in which each of `identifiers` has an account and a
/// document with one attribute.
fn surroundings(identifiers: &[&str]) -> Surroundings {
    let mut accounts = HashMap::new();
    let mut documents = HashMap::new();
    for identifier in identifiers {
        let address = find_metadata_address(mint(identifier));
        accounts.insert(address.bytes, AccountAnswer::Found(account("Asset", &uri_of(identifier))));
        documents.insert(
            uri_of(identifier),
            DocumentAnswer::Fetched(document(
                r#"{"name":"Foo","image":"http://img","attributes":[{"trait_type":"Power","value":7}]}"#,
            )),
        );
    }
    Surroundings { accounts, documents }
}

/// Runs the machine over `lines`, performing each action against the store
/// and the surroundings.
fn run(store: &mut Store, lines: &[&str], around: &Surroundings) -> (Vec<Progress>, Option<MineError>) {
    let mut progress = Vec::new();
    let mut position = 0;
    let mut driver = Driver::new();
    let mut event = match lines.first() {
        Some(line) => Event::Line(line.to_string()),
        None => Event::EndOfInput,
    };
    loop {
        assert!(driver.awaits(&event));
        let (state, action) = driver.step(event);
        driver = state;
        event = match action {
            Action::CountMint { mint_address } => Event::Counted(store.count(&mint_address)),
            Action::Proceed => Event::Proceed,
            Action::FetchAccount { address } => Event::Account(
                around.accounts.get(&address.bytes).cloned().unwrap_or(AccountAnswer::Missing),
            ),
            Action::FetchDocument { uri } => Event::Document(
                around.documents.get(&uri).cloned().unwrap_or(DocumentAnswer::Unreachable),
            ),
            Action::Persist { asset, attributes } => Event::Persisted(match store.persist(asset, &attributes) {
                Ok(()) => PersistAnswer::Stored,
                Err(_) => PersistAnswer::Conflict,
            }),
            Action::Report(how) => {
                progress.push(how);
                position += 1;
                match lines.get(position) {
                    Some(line) => Event::Line(line.to_string()),
                    None => Event::EndOfInput,
                }
            }
            Action::Stop => {
                assert_eq!(driver, Driver::Finished);
                assert!(driver.is_over());
                return (progress, None);
            }
            Action::Abort(failure) => {
                assert_eq!(driver, Driver::Aborted);
                assert!(driver.is_over());
                return (progress, Some(failure));
            }
        };
    }
}

fn placeholder(identifier: &str) -> AssetRecord {
    AssetRecord {
        mint_address: identifier.to_string(),
        metadata_address: format!("metadata of {}", identifier),
        on_chain_name: String::new(),
        on_chain_uri: String::new(),
        off_chain_name: String::new(),
        off_chain_image: String::new(),
    }
}

#[test]
fn one_identifier_is_mined_end_to_end() {
    let identifier = mint(A);
    let derived = find_metadata_address(identifier);
    let mut around = Surroundings { accounts: HashMap::new(), documents: HashMap::new() };
    around
        .accounts
        .insert(derived.bytes, AccountAnswer::Found(account("Asset One", "http://example/meta.json")));
    around.documents.insert(
        "http://example/meta.json".to_string(),
        DocumentAnswer::Fetched(document(
            r#"{"name":"Foo","image":"http://img","attributes":[{"trait_type":"Power","value":7},{"trait_type":"Color","value":"Red"}]}"#,
        )),
    );
    let mut store = Store::new();
    let (progress, failure) = run(&mut store, &[A], &around);
    assert_eq!(failure, None);
    assert_eq!(progress, vec![Progress::Mined]);
    assert_eq!(
        store.assets(),
        &vec![AssetRecord {
            mint_address: A.to_string(),
            metadata_address: derived.to_text(),
            on_chain_name: "Asset One".to_string(),
            on_chain_uri: "http://example/meta.json".to_string(),
            off_chain_name: "Foo".to_string(),
            off_chain_image: "http://img".to_string(),
        }]
    );
    assert_eq!(
        store.attributes(),
        &vec![
            AttributeRow { mint_address: A.to_string(), trait_type: "Power".to_string(), value: "7".to_string() },
            AttributeRow { mint_address: A.to_string(), trait_type: "Color".to_string(), value: "Red".to_string() },
        ]
    );
}

#[test]
fn held_identifiers_are_skipped_and_the_new_one_is_mined() {
    let around = surroundings(&[A, B, C]);
    let mut store = Store::new();
    store.insert_asset(placeholder(A)).unwrap();
    store.insert_asset(placeholder(B)).unwrap();
    let (progress, failure) = run(&mut store, &[A, B, C], &around);
    assert_eq!(failure, None);
    assert_eq!(progress, vec![Progress::Skipped, Progress::Skipped, Progress::Mined]);
    assert_eq!(store.assets().len(), 3);
    assert_eq!(store.assets()[0], placeholder(A));
    assert_eq!(store.assets()[1], placeholder(B));
    assert_eq!(store.assets()[2].mint_address, C);
    assert_eq!(
        store.attributes(),
        &vec![AttributeRow { mint_address: C.to_string(), trait_type: "Power".to_string(), value: "7".to_string() }]
    );
}

#[test]
fn a_second_run_skips_every_identifier_and_changes_nothing() {
    let around = surroundings(&[A, B, C]);
    let mut store = Store::new();
    let (progress, failure) = run(&mut store, &[A, B, C], &around);
    assert_eq!(failure, None);
    assert_eq!(progress, vec![Progress::Mined; 3]);
    let assets = store.assets().clone();
    let attributes = store.attributes().clone();
    assert_eq!(assets.len(), 3);
    assert_eq!(attributes.len(), 3);
    let (progress, failure) = run(&mut store, &[A, B, C], &around);
    assert_eq!(failure, None);
    assert_eq!(progress, vec![Progress::Skipped; 3]);
    assert_eq!(store.assets(), &assets);
    assert_eq!(store.attributes(), &attributes);
}

#[test]
fn a_second_run_after_a_failure_fails_the_same_way() {
    let around = surroundings(&[A, C]);
    let mut store = Store::new();
    let first = run(&mut store, &[A, B, C], &around);
    assert_eq!(first, (vec![Progress::Mined], Some(MineError::NotFound)));
    let assets = store.assets().clone();
    let second = run(&mut store, &[A, B, C], &around);
    assert_eq!(second, (vec![Progress::Skipped], Some(MineError::NotFound)));
    assert_eq!(store.assets(), &assets);
}

#[test]
fn an_identifier_listed_twice_is_mined_once() {
    let around = surroundings(&[A]);
    let mut store = Store::new();
    let (progress, failure) = run(&mut store, &[A, A], &around);
    assert_eq!(failure, None);
    assert_eq!(progress, vec![Progress::Mined, Progress::Skipped]);
    assert_eq!(store.assets().len(), 1);
}

#[test]
fn an_empty_input_completes_at_once() {
    let mut store = Store::new();
    let (progress, failure) = run(&mut store, &[], &surroundings(&[]));
    assert_eq!((progress, failure), (Vec::new(), None));
    assert!(store.assets().is_empty());
}

#[test]
fn a_malformed_line_aborts_the_run() {
    let around = surroundings(&[A, C]);
    let mut store = Store::new();
    let (progress, failure) = run(&mut store, &[A, "not an identifier", C], &around);
    assert_eq!(progress, vec![Progress::Mined]);
    assert_eq!(failure, Some(MineError::Input));
    assert_eq!(store.assets().len(), 1);
    assert!(!store.has_mint_address(C));
}

#[test]
fn an_unreachable_ledger_aborts_the_run() {
    let mut around = surroundings(&[A]);
    around.accounts.insert(find_metadata_address(mint(A)).bytes, AccountAnswer::Unreachable);
    let mut store = Store::new();
    assert_eq!(run(&mut store, &[A], &around), (Vec::new(), Some(MineError::Network)));
    assert!(store.assets().is_empty());
}

#[test]
fn a_missing_account_aborts_the_run() {
    let mut store = Store::new();
    assert_eq!(run(&mut store, &[A], &surroundings(&[])), (Vec::new(), Some(MineError::NotFound)));
    assert!(store.assets().is_empty());
}

#[test]
fn an_account_of_another_layout_aborts_the_run() {
    let mut around = surroundings(&[A]);
    let mut data = account("Asset", &uri_of(A));
    data[0] = 6;
    around.accounts.insert(find_metadata_address(mint(A)).bytes, AccountAnswer::Found(data));
    let mut store = Store::new();
    assert_eq!(run(&mut store, &[A], &around), (Vec::new(), Some(MineError::Decode)));
    assert!(store.assets().is_empty());
}

#[test]
fn an_unreachable_document_aborts_the_run() {
    let mut around = surroundings(&[A]);
    around.documents.insert(uri_of(A), DocumentAnswer::Unreachable);
    let mut store = Store::new();
    assert_eq!(run(&mut store, &[A], &around), (Vec::new(), Some(MineError::Network)));
    assert!(store.assets().is_empty());
}

#[test]
fn a_malformed_document_aborts_the_run() {
    let mut around = surroundings(&[A]);
    around.documents.insert(uri_of(A), DocumentAnswer::Malformed);
    let mut store = Store::new();
    assert_eq!(run(&mut store, &[A], &around), (Vec::new(), Some(MineError::Format)));
    assert!(store.assets().is_empty());
}

#[test]
fn a_refused_attribute_aborts_the_run_and_persists_nothing() {
    let bodies = [
        (r#"{"name":"Foo","image":"i","attributes":[{"trait_type":"Power","value":7},{"trait_type":"Gone","value":null}]}"#, Shape::Null),
        (r#"{"name":"Foo","image":"i","attributes":[{"trait_type":"Gone","value":true},{"trait_type":"Power","value":7}]}"#, Shape::Boolean),
        (r#"{"name":"Foo","image":"i","attributes":[{"trait_type":"Gone","value":[1,2]}]}"#, Shape::Array),
        (r#"{"name":"Foo","image":"i","attributes":[{"trait_type":"Gone","value":{"a":1}}]}"#, Shape::Object),
    ];
    for (body, shape) in bodies {
        let mut around = surroundings(&[A]);
        around.documents.insert(uri_of(A), DocumentAnswer::Fetched(document(body)));
        let mut store = Store::new();
        let (progress, failure) = run(&mut store, &[A], &around);
        assert_eq!(progress, Vec::new());
        assert_eq!(
            failure,
            Some(MineError::UnsupportedAttributeShape { trait_type: "Gone".to_string(), shape })
        );
        assert!(store.assets().is_empty());
        assert!(store.attributes().is_empty());
        assert!(!store.has_mint_address(A));
    }
}

#[test]
fn a_metadata_address_held_under_another_mint_aborts_the_run() {
    let around = surroundings(&[A]);
    let mut store = Store::new();
    let mut held = placeholder("another mint");
    held.metadata_address = find_metadata_address(mint(A)).to_text();
    store.insert_asset(held.clone()).unwrap();
    assert_eq!(run(&mut store, &[A], &around), (Vec::new(), Some(MineError::Constraint)));
    assert_eq!(store.assets(), &vec![held]);
    assert!(store.attributes().is_empty());
}

#[test]
fn attribute_rows_are_stored_in_document_order() {
    let mut around = surroundings(&[A]);
    around.documents.insert(
        uri_of(A),
        DocumentAnswer::Fetched(document(
            r#"{"name":"Foo","image":"i","attributes":[{"trait_type":"z","value":"1"},{"trait_type":"a","value":2},{"trait_type":"m","value":-3},{"trait_type":"a","value":1.5}]}"#,
        )),
    );
    let mut store = Store::new();
    store.insert_attributes("earlier", &vec![TraitRow { trait_type: "t".to_string(), value: "v".to_string() }]);
    assert_eq!(run(&mut store, &[A], &around), (vec![Progress::Mined], None));
    let rows: Vec<(&str, &str, &str)> = store
        .attributes()
        .iter()
        .map(|row| (row.mint_address.as_str(), row.trait_type.as_str(), row.value.as_str()))
        .collect();
    assert_eq!(
        rows,
        vec![("earlier", "t", "v"), (A, "z", "1"), (A, "a", "2"), (A, "m", "-3"), (A, "a", "1.5")]
    );
}

#[test]
fn the_machine_starts_ready_and_stops_at_the_end_of_input() {
    let driver = Driver::new();
    assert_eq!(driver, Driver::Ready);
    assert!(!driver.is_over());
    assert_eq!(driver.step(Event::EndOfInput), (Driver::Finished, Action::Stop));
    assert_eq!(Driver::Done.step(Event::EndOfInput), (Driver::Finished, Action::Stop));
}

#[test]
fn a_line_leads_to_the_existence_check() {
    let expected = (Driver::CheckExisting { mint: mint(A) }, Action::CountMint { mint_address: A.to_string() });
    assert_eq!(Driver::Ready.step(Event::Line(A.to_string())), expected);
    assert_eq!(Driver::Done.step(Event::Line(A.to_string())), expected);
}

#[test]
fn a_count_of_one_skips_and_any_other_count_goes_on() {
    let state = Driver::CheckExisting { mint: mint(A) };
    assert_eq!(state.clone().step(Event::Counted(1)), (Driver::Done, Action::Report(Progress::Skipped)));
    assert_eq!(state.clone().step(Event::Counted(0)), (Driver::Derive { mint: mint(A) }, Action::Proceed));
    assert_eq!(state.step(Event::Counted(2)), (Driver::Derive { mint: mint(A) }, Action::Proceed));
}

#[test]
fn derivation_leads_to_the_fetch_of_the_derived_address() {
    let metadata = find_metadata_address(mint(A));
    assert_eq!(
        Driver::Derive { mint: mint(A) }.step(Event::Proceed),
        (Driver::FetchOnChain { mint: mint(A), metadata }, Action::FetchAccount { address: metadata })
    );
}

#[test]
fn a_decoded_account_leads_to_the_fetch_of_its_stripped_uri() {
    let metadata = find_metadata_address(mint(A));
    let state = Driver::FetchOnChain { mint: mint(A), metadata };
    let record = OnChainRecord { name: "Asset".to_string(), uri: "http://example/meta.json".to_string() };
    assert_eq!(
        state.step(Event::Account(AccountAnswer::Found(account("Asset", "http://example/meta.json")))),
        (
            Driver::ResolveOffChain { mint: mint(A), metadata, record },
            Action::FetchDocument { uri: "http://example/meta.json".to_string() }
        )
    );
}

#[test]
fn a_stored_asset_is_reported_as_mined() {
    assert_eq!(
        Driver::Persist.step(Event::Persisted(PersistAnswer::Stored)),
        (Driver::Done, Action::Report(Progress::Mined))
    );
    assert_eq!(
        Driver::Persist.step(Event::Persisted(PersistAnswer::Conflict)),
        (Driver::Aborted, Action::Abort(MineError::Constraint))
    );
}

#[test]
fn each_state_waits_for_its_own_kind_of_event() {
    let metadata = find_metadata_address(mint(A));
    let record = OnChainRecord { name: String::new(), uri: String::new() };
    let document = OffChainDocument { name: String::new(), image: String::new(), attributes: Vec::new() };
    let states = [
        Driver::Ready,
        Driver::CheckExisting { mint: mint(A) },
        Driver::Derive { mint: mint(A) },
        Driver::FetchOnChain { mint: mint(A), metadata },
        Driver::ResolveOffChain { mint: mint(A), metadata, record: record.clone() },
        Driver::Normalize { mint: mint(A), metadata, record, document: document.clone() },
        Driver::Persist,
        Driver::Done,
        Driver::Finished,
        Driver::Aborted,
    ];
    let events = [
        Event::Line(A.to_string()),
        Event::EndOfInput,
        Event::Counted(0),
        Event::Proceed,
        Event::Account(AccountAnswer::Missing),
        Event::Document(DocumentAnswer::Fetched(document)),
        Event::Persisted(PersistAnswer::Stored),
    ];
    let awaited = [
        [true, true, false, false, false, false, false],
        [false, false, true, false, false, false, false],
        [false, false, false, true, false, false, false],
        [false, false, false, false, true, false, false],
        [false, false, false, false, false, true, false],
        [false, false, false, true, false, false, false],
        [false, false, false, false, false, false, true],
        [true, true, false, false, false, false, false],
        [false; 7],
        [false; 7],
    ];
    for (state, row) in states.iter().zip(awaited) {
        for (event, expected) in events.iter().zip(row) {
            assert_eq!(state.awaits(event), expected);
        }
    }
}

#[test]
fn each_progress_has_its_mark() {
    assert_eq!(Progress::Skipped.marker(), "-");
    assert_eq!(Progress::Mined.marker(), "+");
}

#[test]
fn the_document_is_asked_for_at_the_uri_without_its_trailing_padding() {
    let metadata = find_metadata_address(mint(A));
    let state = Driver::FetchOnChain { mint: mint(A), metadata };
    let (next, action) = state.step(Event::Account(AccountAnswer::Found(account("\0Asset", "\0http://example"))));
    assert_eq!(action, Action::FetchDocument { uri: "\0http://example".to_string() });
    assert_eq!(
        next,
        Driver::ResolveOffChain {
            mint: mint(A),
            metadata,
            record: OnChainRecord { name: "\0Asset".to_string(), uri: "\0http://example".to_string() },
        }
    );
}
