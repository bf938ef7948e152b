use miner::error::MineError;
use miner::normalize::TraitRow;
use miner::store::AssetRecord;
use miner::store::AttributeRow;
use miner::store::Store;

fn asset(mint: &str, metadata: &str) -> AssetRecord {
    AssetRecord {
        mint_address: mint.to_string(),
        metadata_address: metadata.to_string(),
        on_chain_name: format!("name of {}", mint),
        on_chain_uri: format!("http://example/{}", mint),
        off_chain_name: "Foo".to_string(),
        off_chain_image: "http://img".to_string(),
    }
}

fn row(trait_type: &str, value: &str) -> TraitRow {
    TraitRow { trait_type: trait_type.to_string(), value: value.to_string() }
}

fn kept(mint: &str, trait_type: &str, value: &str) -> AttributeRow {
    AttributeRow {
        mint_address: mint.to_string(),
        trait_type: trait_type.to_string(),
        value: value.to_string(),
    }
}

#[test]
fn new_store_is_empty() {
    let store = Store::new();
    assert!(store.assets().is_empty());
    assert!(store.attributes().is_empty());
    assert!(!store.has_mint_address("A"));
    assert_eq!(store.count("A"), 0);
    assert!(store.distinct_trait_names().is_empty());
}

#[test]
fn insert_asset_keeps_the_record() {
    let mut store = Store::new();
    assert_eq!(store.insert_asset(asset("A", "MA")), Ok(()));
    assert!(store.has_mint_address("A"));
    assert!(store.has_metadata_address("MA"));
    assert!(!store.has_mint_address("MA"));
    assert!(!store.has_metadata_address("A"));
    assert_eq!(store.count("A"), 1);
    assert_eq!(store.assets(), &vec![asset("A", "MA")]);
}

#[test]
fn insert_asset_refuses_a_mint_address_twice() {
    let mut store = Store::new();
    store.insert_asset(asset("A", "MA")).unwrap();
    assert_eq!(store.insert_asset(asset("A", "MB")), Err(MineError::Constraint));
    assert_eq!(store.assets(), &vec![asset("A", "MA")]);
    assert!(!store.has_metadata_address("MB"));
}

#[test]
fn insert_asset_refuses_a_metadata_address_twice() {
    let mut store = Store::new();
    store.insert_asset(asset("A", "MA")).unwrap();
    assert_eq!(store.insert_asset(asset("B", "MA")), Err(MineError::Constraint));
    assert_eq!(store.assets(), &vec![asset("A", "MA")]);
    assert!(!store.has_mint_address("B"));
}

#[test]
fn insert_asset_keeps_insertion_order() {
    let mut store = Store::new();
    store.insert_asset(asset("B", "MB")).unwrap();
    store.insert_asset(asset("A", "MA")).unwrap();
    store.insert_asset(asset("C", "MC")).unwrap();
    assert_eq!(store.assets(), &vec![asset("B", "MB"), asset("A", "MA"), asset("C", "MC")]);
}

#[test]
fn insert_attributes_appends_in_order() {
    let mut store = Store::new();
    store.insert_attributes("A", &vec![row("Power", "7"), row("Color", "Red")]);
    store.insert_attributes("B", &vec![row("Power", "9")]);
    store.insert_attributes("A", &Vec::new());
    assert_eq!(
        store.attributes(),
        &vec![kept("A", "Power", "7"), kept("A", "Color", "Red"), kept("B", "Power", "9")]
    );
    assert!(store.assets().is_empty());
}

#[test]
fn insert_attributes_has_no_constraint() {
    let mut store = Store::new();
    store.insert_attributes("A", &vec![row("Power", "7")]);
    store.insert_attributes("A", &vec![row("Power", "7")]);
    assert_eq!(store.attributes(), &vec![kept("A", "Power", "7"), kept("A", "Power", "7")]);
}

#[test]
fn persist_keeps_the_record_and_its_rows() {
    let mut store = Store::new();
    assert_eq!(store.persist(asset("A", "MA"), &vec![row("Power", "7"), row("Color", "Red")]), Ok(()));
    assert_eq!(store.assets(), &vec![asset("A", "MA")]);
    assert_eq!(store.attributes(), &vec![kept("A", "Power", "7"), kept("A", "Color", "Red")]);
}

#[test]
fn persist_of_a_refused_record_keeps_nothing() {
    let mut store = Store::new();
    store.persist(asset("A", "MA"), &vec![row("Power", "7")]).unwrap();
    assert_eq!(store.persist(asset("A", "MB"), &vec![row("Color", "Red")]), Err(MineError::Constraint));
    assert_eq!(store.persist(asset("B", "MA"), &vec![row("Color", "Red")]), Err(MineError::Constraint));
    assert_eq!(store.assets(), &vec![asset("A", "MA")]);
    assert_eq!(store.attributes(), &vec![kept("A", "Power", "7")]);
}

#[test]
fn distinct_trait_names_lists_each_name_once() {
    let mut store = Store::new();
    store.persist(asset("A", "MA"), &vec![row("Power", "7"), row("Color", "Red")]).unwrap();
    store.persist(asset("B", "MB"), &vec![row("Color", "Blue"), row("Power", "7")]).unwrap();
    store.persist(asset("C", "MC"), &vec![row("Power", "1"), row("Hat", "Top")]).unwrap();
    assert_eq!(
        store.distinct_trait_names(),
        vec!["Color".to_string(), "Hat".to_string(), "Power".to_string()]
    );
}

#[test]
fn distinct_trait_names_tells_names_apart_by_case() {
    let mut store = Store::new();
    store.insert_attributes("A", &vec![row("power", "7"), row("Power", "7"), row("power", "8")]);
    assert_eq!(store.distinct_trait_names(), vec!["Power".to_string(), "power".to_string()]);
}

#[test]
fn distinct_trait_names_come_in_the_order_of_the_relational_store() {
    let traits = ["b", "B", "a", "", "ab", "\u{e9}", "z", "a", "Z", "10", "9", "\u{1f600}", "b"];
    let mut store = Store::new();
    let db = rusqlite::Connection::open_in_memory().unwrap();
    let collection = miner::collection::Collection::Xalt;
    db.execute(&collection.create_attributes_statement(), []).unwrap();
    for name in traits {
        store.insert_attributes("A", &vec![row(name, "v")]);
        db.execute(&collection.insert_attribute_statement(), ["A", name, "v"]).unwrap();
    }
    let mut query = db.prepare(&collection.distinct_traits_query()).unwrap();
    let listed: Vec<String> = query.query_map([], |row| row.get(0)).unwrap().map(|name| name.unwrap()).collect();
    assert_eq!(store.distinct_trait_names(), listed);
    assert_eq!(listed.len(), 11);
}
