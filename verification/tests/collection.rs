use miner::collection::Collection;
use rusqlite::Connection;

#[test]
fn table_names_follow_the_collection() {
    assert_eq!(Collection::Xalt.assets_table_name(), "xalts");
    assert_eq!(Collection::Xalt.attributes_table_name(), "xalt_atts");
    assert_eq!(Collection::Xape.assets_table_name(), "xapes");
    assert_eq!(Collection::Xape.attributes_table_name(), "xape_atts");
}

#[test]
fn statements_of_the_xalt_collection() {
    let collection = Collection::Xalt;
    assert_eq!(
        collection.create_assets_statement(),
        "CREATE TABLE IF NOT EXISTS xalts (mint_address text primary key, metadata_address text unique, metadata_data_name text, metadata_data_uri text, metadata_json_name text, metadata_json_image text)"
    );
    assert_eq!(
        collection.create_attributes_statement(),
        "CREATE TABLE IF NOT EXISTS xalt_atts (mint_address text, trait_type text, value text)"
    );
    assert_eq!(collection.count_mint_query(), "SELECT COUNT(*) FROM xalts where mint_address = ?1");
    assert_eq!(
        collection.insert_asset_statement(),
        "INSERT INTO xalts (mint_address, metadata_address, metadata_data_name, metadata_data_uri, metadata_json_name, metadata_json_image) values (?1, ?2, ?3, ?4, ?5, ?6)"
    );
    assert_eq!(
        collection.insert_attribute_statement(),
        "INSERT INTO xalt_atts (mint_address, trait_type, value) values (?1, ?2, ?3)"
    );
    assert_eq!(collection.distinct_traits_query(), "select distinct(trait_type) from xalt_atts order by 1");
}

#[test]
fn statements_of_the_xape_collection() {
    let collection = Collection::Xape;
    assert_eq!(collection.count_mint_query(), "SELECT COUNT(*) FROM xapes where mint_address = ?1");
    assert_eq!(
        collection.insert_attribute_statement(),
        "INSERT INTO xape_atts (mint_address, trait_type, value) values (?1, ?2, ?3)"
    );
    assert_eq!(collection.distinct_traits_query(), "select distinct(trait_type) from xape_atts order by 1");
}

fn count(db: &Connection, collection: Collection, mint: &str) -> u8 {
    db.query_row(&collection.count_mint_query(), [mint], |row| row.get(0)).unwrap()
}

#[test]
fn statements_run_against_a_relational_store() {
    for collection in [Collection::Xalt, Collection::Xape] {
        let db = Connection::open_in_memory().unwrap();
        for _ in 0..2 {
            db.execute(&collection.create_assets_statement(), []).unwrap();
            db.execute(&collection.create_attributes_statement(), []).unwrap();
        }
        assert_eq!(count(&db, collection, "A"), 0);
        db.execute(&collection.insert_asset_statement(), ["A", "MA", "n", "u", "Foo", "http://img"]).unwrap();
        assert_eq!(count(&db, collection, "A"), 1);
        assert_eq!(count(&db, collection, "B"), 0);
        assert!(db.execute(&collection.insert_asset_statement(), ["A", "MB", "n", "u", "Foo", "i"]).is_err());
        assert!(db.execute(&collection.insert_asset_statement(), ["B", "MA", "n", "u", "Foo", "i"]).is_err());
        assert_eq!(count(&db, collection, "B"), 0);
        for (trait_type, value) in [("Power", "7"), ("Color", "Red"), ("Power", "9")] {
            db.execute(&collection.insert_attribute_statement(), ["A", trait_type, value]).unwrap();
        }
        let mut query = db.prepare(&collection.distinct_traits_query()).unwrap();
        let names: Vec<String> = query.query_map([], |row| row.get(0)).unwrap().map(|name| name.unwrap()).collect();
        assert_eq!(names, vec!["Color".to_string(), "Power".to_string()]);
    }
}
