//! The collections that can be mined and the layout of their tables.

use vstd::prelude::*;

verus! {

/// A family of assets with tables of its own in the store.
#[derive(Clone, Copy, Debug, PartialEq, Eq, Structural)]
pub enum Collection {
    Xalt,
    Xape,
}

impl Collection {
    /// The name from which the names of the collection's tables are made.
    pub open spec fn stem(self) -> Seq<char> {
        match self {
            Collection::Xalt => "xalt"@,
            Collection::Xape => "xape"@,
        }
    }

    /// Name of the table of asset records.
    pub open spec fn assets_table(self) -> Seq<char> {
        self.stem() + "s"@
    }

    /// Name of the table of attribute rows.
    pub open spec fn attributes_table(self) -> Seq<char> {
        self.stem() + "_atts"@
    }

    /// Text of the statement that creates the table of asset records where
    /// it is absent.
    pub open spec fn create_assets_text(self) -> Seq<char> {
        "CREATE TABLE IF NOT EXISTS "@ + self.assets_table()
            + " (mint_address text primary key, metadata_address text unique, metadata_data_name text, metadata_data_uri text, metadata_json_name text, metadata_json_image text)"@
    }

    /// Text of the statement that creates the table of attribute rows where
    /// it is absent.
    pub open spec fn create_attributes_text(self) -> Seq<char> {
        "CREATE TABLE IF NOT EXISTS "@ + self.attributes_table()
            + " (mint_address text, trait_type text, value text)"@
    }

    /// Text of the query that counts the asset records under one mint
    /// address.
    pub open spec fn count_mint_text(self) -> Seq<char> {
        "SELECT COUNT(*) FROM "@ + self.assets_table() + " where mint_address = ?1"@
    }

    /// Text of the statement that inserts one asset record.
    pub open spec fn insert_asset_text(self) -> Seq<char> {
        "INSERT INTO "@ + self.assets_table()
            + " (mint_address, metadata_address, metadata_data_name, metadata_data_uri, metadata_json_name, metadata_json_image) values (?1, ?2, ?3, ?4, ?5, ?6)"@
    }

    /// Text of the statement that inserts one attribute row.
    pub open spec fn insert_attribute_text(self) -> Seq<char> {
        "INSERT INTO "@ + self.attributes_table()
            + " (mint_address, trait_type, value) values (?1, ?2, ?3)"@
    }

    /// Text of the query that lists each trait name once, in ascending
    /// order.
    pub open spec fn distinct_traits_text(self) -> Seq<char> {
        "select distinct(trait_type) from "@ + self.attributes_table() + " order by 1"@
    }

    /// The name from which the names of the collection's tables are made.
    fn stem_name(&self) -> (name: &'static str)
        ensures
            name@ == self.stem(),
    {
        match self {
            Collection::Xalt => "xalt",
            Collection::Xape => "xape",
        }
    }

    /// Name of the table of asset records.
    pub fn assets_table_name(&self) -> (name: String)
        ensures
            name@ == self.assets_table(),
    {
        self.stem_name().to_owned().concat("s")
    }

    /// Name of the table of attribute rows.
    pub fn attributes_table_name(&self) -> (name: String)
        ensures
            name@ == self.attributes_table(),
    {
        self.stem_name().to_owned().concat("_atts")
    }

    /// The statement that creates the table of asset records where it is
    /// absent.
    pub fn create_assets_statement(&self) -> (sql: String)
        ensures
            sql@ == self.create_assets_text(),
    {
        "CREATE TABLE IF NOT EXISTS ".to_owned().concat(self.assets_table_name().as_str()).concat(
            " (mint_address text primary key, metadata_address text unique, metadata_data_name text, metadata_data_uri text, metadata_json_name text, metadata_json_image text)",
        )
    }

    /// The statement that creates the table of attribute rows where it is
    /// absent.
    pub fn create_attributes_statement(&self) -> (sql: String)
        ensures
            sql@ == self.create_attributes_text(),
    {
        "CREATE TABLE IF NOT EXISTS ".to_owned().concat(self.attributes_table_name().as_str()).concat(
            " (mint_address text, trait_type text, value text)",
        )
    }

    /// The query that counts the asset records under one mint address.
    pub fn count_mint_query(&self) -> (sql: String)
        ensures
            sql@ == self.count_mint_text(),
    {
        "SELECT COUNT(*) FROM ".to_owned().concat(self.assets_table_name().as_str()).concat(
            " where mint_address = ?1",
        )
    }

    /// The statement that inserts one asset record.
    pub fn insert_asset_statement(&self) -> (sql: String)
        ensures
            sql@ == self.insert_asset_text(),
    {
        "INSERT INTO ".to_owned().concat(self.assets_table_name().as_str()).concat(
            " (mint_address, metadata_address, metadata_data_name, metadata_data_uri, metadata_json_name, metadata_json_image) values (?1, ?2, ?3, ?4, ?5, ?6)",
        )
    }

    /// The statement that inserts one attribute row.
    pub fn insert_attribute_statement(&self) -> (sql: String)
        ensures
            sql@ == self.insert_attribute_text(),
    {
        "INSERT INTO ".to_owned().concat(self.attributes_table_name().as_str()).concat(
            " (mint_address, trait_type, value) values (?1, ?2, ?3)",
        )
    }

    /// The query that lists each trait name once, in ascending order.
    pub fn distinct_traits_query(&self) -> (sql: String)
        ensures
            sql@ == self.distinct_traits_text(),
    {
        "select distinct(trait_type) from ".to_owned().concat(
            self.attributes_table_name().as_str(),
        ).concat(" order by 1")
    }
}

} // verus!
