//! The store of one collection: its asset records, keyed by mint address,
//! and the attribute rows that belong to them.

use crate::error::MineError;
use crate::error::MineErrorView;
use crate::normalize::row_views;
use crate::normalize::TraitRow;
use crate::normalize::TraitRowView;
use crate::order::ascending;
use crate::order::insert_ascending;
use crate::order::lemma_insert_fresh;
use crate::text::holds_text;
use crate::text::texts;
use vstd::prelude::*;

verus! {

/// What is kept of one mined asset.
#[derive(Clone, Debug, PartialEq, Eq)]
pub struct AssetRecord {
    pub mint_address: String,
    pub metadata_address: String,
    pub on_chain_name: String,
    pub on_chain_uri: String,
    pub off_chain_name: String,
    pub off_chain_image: String,
}

/// Mathematical value of an [`AssetRecord`].
pub struct AssetRecordView {
    pub mint_address: Seq<char>,
    pub metadata_address: Seq<char>,
    pub on_chain_name: Seq<char>,
    pub on_chain_uri: Seq<char>,
    pub off_chain_name: Seq<char>,
    pub off_chain_image: Seq<char>,
}

impl View for AssetRecord {
    type V = AssetRecordView;

    open spec fn view(&self) -> AssetRecordView {
        AssetRecordView {
            mint_address: self.mint_address@,
            metadata_address: self.metadata_address@,
            on_chain_name: self.on_chain_name@,
            on_chain_uri: self.on_chain_uri@,
            off_chain_name: self.off_chain_name@,
            off_chain_image: self.off_chain_image@,
        }
    }
}

/// One attribute of one mined asset, as it is kept.
#[derive(Clone, Debug, PartialEq, Eq)]
pub struct AttributeRow {
    pub mint_address: String,
    pub trait_type: String,
    pub value: String,
}

/// Mathematical value of an [`AttributeRow`].
pub struct AttributeRowView {
    pub mint_address: Seq<char>,
    pub trait_type: Seq<char>,
    pub value: Seq<char>,
}

impl View for AttributeRow {
    type V = AttributeRowView;

    open spec fn view(&self) -> AttributeRowView {
        AttributeRowView {
            mint_address: self.mint_address@,
            trait_type: self.trait_type@,
            value: self.value@,
        }
    }
}

/// The values of the records of `assets`, in order.
pub open spec fn asset_views(assets: Seq<AssetRecord>) -> Seq<AssetRecordView> {
    Seq::new(assets.len(), |i: int| assets[i]@)
}

/// The values of the rows of `rows`, in order.
pub open spec fn attribute_row_views(rows: Seq<AttributeRow>) -> Seq<AttributeRowView> {
    Seq::new(rows.len(), |i: int| rows[i]@)
}

/// The rows of one asset as they are kept: each with the asset's mint
/// address, in the order given.
pub open spec fn rows_for(mint_address: Seq<char>, rows: Seq<TraitRowView>) -> Seq<AttributeRowView> {
    Seq::new(
        rows.len(),
        |i: int|
            AttributeRowView {
                mint_address: mint_address,
                trait_type: rows[i].trait_type,
                value: rows[i].value,
            },
    )
}

/// Mathematical value of a [`Store`]: both tables, in insertion order.
pub struct StoreView {
    pub assets: Seq<AssetRecordView>,
    pub attributes: Seq<AttributeRowView>,
}

impl StoreView {
    /// The store that holds nothing.
    pub open spec fn empty() -> StoreView {
        StoreView { assets: Seq::empty(), attributes: Seq::empty() }
    }

    /// Whether an asset with this mint address is kept.
    pub open spec fn has_mint(self, mint_address: Seq<char>) -> bool {
        exists|i: int| 0 <= i < self.assets.len() && (#[trigger] self.assets[i]).mint_address == mint_address
    }

    /// Whether an asset with this metadata address is kept.
    pub open spec fn has_metadata(self, metadata_address: Seq<char>) -> bool {
        exists|i: int|
            0 <= i < self.assets.len() && (#[trigger] self.assets[i]).metadata_address
                == metadata_address
    }

    /// No two assets share a mint address, and no two a metadata address.
    pub open spec fn wf(self) -> bool {
        forall|i: int, j: int|
            0 <= i < j < self.assets.len() ==> {
                &&& (#[trigger] self.assets[i]).mint_address != (#[trigger] self.assets[j]).mint_address
                &&& self.assets[i].metadata_address != self.assets[j].metadata_address
            }
    }

    /// Whether `record` can be inserted: neither of its addresses is kept.
    pub open spec fn accepts(self, record: AssetRecordView) -> bool {
        !self.has_mint(record.mint_address) && !self.has_metadata(record.metadata_address)
    }

    /// The store after `record` was inserted.
    pub open spec fn with_asset(self, record: AssetRecordView) -> StoreView {
        StoreView { assets: self.assets.push(record), attributes: self.attributes }
    }

    /// The store after `rows` were appended for the asset `mint_address`.
    pub open spec fn with_attributes(self, mint_address: Seq<char>, rows: Seq<TraitRowView>) -> StoreView {
        StoreView { assets: self.assets, attributes: self.attributes + rows_for(mint_address, rows) }
    }

    /// The store after `record` and its `rows` were inserted together.
    pub open spec fn persisted(self, record: AssetRecordView, rows: Seq<TraitRowView>) -> StoreView {
        self.with_asset(record).with_attributes(record.mint_address, rows)
    }

    /// Whether some attribute row carries this trait name.
    pub open spec fn has_trait(self, trait_type: Seq<char>) -> bool {
        exists|i: int|
            0 <= i < self.attributes.len() && (#[trigger] self.attributes[i]).trait_type == trait_type
    }
}

/// Inserting an acceptable record keeps the addresses unique.
pub proof fn lemma_with_asset_keeps_wf(store: StoreView, record: AssetRecordView)
    requires
        store.wf(),
        store.accepts(record),
    ensures
        store.with_asset(record).wf(),
{
    let after = store.with_asset(record);
    assert forall|i: int, j: int| 0 <= i < j < after.assets.len() implies {
        &&& (#[trigger] after.assets[i]).mint_address != (#[trigger] after.assets[j]).mint_address
        &&& after.assets[i].metadata_address != after.assets[j].metadata_address
    } by {
        if j == store.assets.len() {
            assert(after.assets[i] == store.assets[i]);
            assert(after.assets[j] == record);
        } else {
            assert(after.assets[i] == store.assets[i]);
            assert(after.assets[j] == store.assets[j]);
        }
    }
}

/// After an insertion the store keeps the mint address of the record, and
/// every mint address that it kept before.
pub proof fn lemma_with_asset_has_mint(store: StoreView, record: AssetRecordView, mint_address: Seq<char>)
    ensures
        store.with_asset(record).has_mint(record.mint_address),
        store.has_mint(mint_address) ==> store.with_asset(record).has_mint(mint_address),
{
    let after = store.with_asset(record);
    assert(after.assets[store.assets.len() as int] == record);
    if store.has_mint(mint_address) {
        let i = choose|i: int| 0 <= i < store.assets.len() && (#[trigger] store.assets[i]).mint_address == mint_address;
        assert(after.assets[i] == store.assets[i]);
    }
}

/// The two tables of one collection, held in memory: a stand-in for the
/// relational store, with the constraints of its tables. What is proved
/// here holds of this stand-in; the relational store itself is reached
/// through the statements of `Collection`.
#[derive(Debug, PartialEq, Eq)]
pub struct Store {
    assets: Vec<AssetRecord>,
    attributes: Vec<AttributeRow>,
}

impl View for Store {
    type V = StoreView;

    closed spec fn view(&self) -> StoreView {
        StoreView {
            assets: asset_views(self.assets@),
            attributes: attribute_row_views(self.attributes@),
        }
    }
}

impl Store {
    /// No two assets share a mint address, and no two a metadata address.
    pub open spec fn wf(&self) -> bool {
        self@.wf()
    }

    /// A store with both tables empty.
    pub fn new() -> (store: Store)
        ensures
            store@ == StoreView::empty(),
            store.wf(),
    {
        let store = Store { assets: Vec::new(), attributes: Vec::new() };
        assert(store@.assets =~= Seq::empty());
        assert(store@.attributes =~= Seq::empty());
        store
    }

    /// The number of assets kept under `mint_address`: one or none.
    pub fn count(&self, mint_address: &str) -> (n: u8)
        ensures
            n == if self@.has_mint(mint_address@) { 1u8 } else { 0u8 },
    {
        if self.has_mint_address(mint_address) {
            1
        } else {
            0
        }
    }

    /// Whether an asset with this mint address was mined already.
    pub fn has_mint_address(&self, mint_address: &str) -> (found: bool)
        ensures
            found == self@.has_mint(mint_address@),
    {
        let key = mint_address.to_owned();
        let mut i: usize = 0;
        while i < self.assets.len()
            invariant
                i <= self.assets.len(),
                key@ == mint_address@,
                forall|j: int| 0 <= j < i ==> (#[trigger] self@.assets[j]).mint_address != key@,
            decreases self.assets.len() - i,
        {
            if self.assets[i].mint_address == key {
                assert(self@.assets[i as int].mint_address == key@);
                return true;
            }
            i = i + 1;
        }
        false
    }

    /// Whether an asset with this metadata address is kept.
    pub fn has_metadata_address(&self, metadata_address: &str) -> (found: bool)
        ensures
            found == self@.has_metadata(metadata_address@),
    {
        let key = metadata_address.to_owned();
        let mut i: usize = 0;
        while i < self.assets.len()
            invariant
                i <= self.assets.len(),
                key@ == metadata_address@,
                forall|j: int| 0 <= j < i ==> (#[trigger] self@.assets[j]).metadata_address != key@,
            decreases self.assets.len() - i,
        {
            if self.assets[i].metadata_address == key {
                assert(self@.assets[i as int].metadata_address == key@);
                return true;
            }
            i = i + 1;
        }
        false
    }

    /// Inserts the record of one asset.
    ///
    /// Fails with a constraint failure, and changes nothing, exactly where
    /// the mint address or the metadata address is kept already.
    pub fn insert_asset(&mut self, record: AssetRecord) -> (r: Result<(), MineError>)
        requires
            old(self).wf(),
        ensures
            final(self).wf(),
            match r {
                Ok(_) => old(self)@.accepts(record@) && final(self)@ == old(self)@.with_asset(record@),
                Err(e) => !old(self)@.accepts(record@) && e@ == MineErrorView::Constraint
                    && final(self)@ == old(self)@,
            },
    {
        if self.has_mint_address(record.mint_address.as_str()) || self.has_metadata_address(
            record.metadata_address.as_str(),
        ) {
            return Err(MineError::Constraint);
        }
        proof {
            lemma_with_asset_keeps_wf(self@, record@);
        }
        self.assets.push(record);
        assert(self@.assets =~= old(self)@.assets.push(record@));
        Ok(())
    }

    /// Appends the rows of one asset, in the order given.
    pub fn insert_attributes(&mut self, mint_address: &str, rows: &Vec<TraitRow>)
        ensures
            final(self)@ == old(self)@.with_attributes(mint_address@, row_views(rows@)),
    {
        let ghost added = rows_for(mint_address@, row_views(rows@));
        let mut i: usize = 0;
        while i < rows.len()
            invariant
                i <= rows.len(),
                added == rows_for(mint_address@, row_views(rows@)),
                self@.assets == old(self)@.assets,
                self@.attributes == old(self)@.attributes + added.subrange(0, i as int),
            decreases rows.len() - i,
        {
            let row = AttributeRow {
                mint_address: mint_address.to_owned(),
                trait_type: rows[i].trait_type.clone(),
                value: rows[i].value.clone(),
            };
            assert(row@ == added[i as int]);
            let ghost before = self@.attributes;
            self.attributes.push(row);
            assert(self@.attributes =~= before.push(added[i as int]));
            assert(added.subrange(0, i + 1) =~= added.subrange(0, i as int).push(added[i as int]));
            i = i + 1;
        }
        assert(added.subrange(0, rows.len() as int) =~= added);
    }

    /// Inserts the record of one asset together with its rows: both, or
    /// neither where the record is refused.
    pub fn persist(&mut self, record: AssetRecord, rows: &Vec<TraitRow>) -> (r: Result<(), MineError>)
        requires
            old(self).wf(),
        ensures
            final(self).wf(),
            match r {
                Ok(_) => old(self)@.accepts(record@) && final(self)@ == old(self)@.persisted(
                    record@,
                    row_views(rows@),
                ),
                Err(e) => !old(self)@.accepts(record@) && e@ == MineErrorView::Constraint
                    && final(self)@ == old(self)@,
            },
    {
        let mint_address = record.mint_address.clone();
        match self.insert_asset(record) {
            Ok(()) => {
                self.insert_attributes(mint_address.as_str(), rows);
                Ok(())
            },
            Err(e) => Err(e),
        }
    }

    /// The trait names that the attribute rows carry, each once, in
    /// ascending order.
    pub fn distinct_trait_names(&self) -> (names: Vec<String>)
        ensures
            texts(names@).no_duplicates(),
            ascending(texts(names@)),
            forall|name: Seq<char>| texts(names@).contains(name) <==> self@.has_trait(name),
    {
        let mut names: Vec<String> = Vec::new();
        let mut i: usize = 0;
        while i < self.attributes.len()
            invariant
                i <= self.attributes.len(),
                texts(names@).no_duplicates(),
                ascending(texts(names@)),
                forall|name: Seq<char>|
                    texts(names@).contains(name) <==> exists|j: int|
                        0 <= j < i && (#[trigger] self@.attributes[j]).trait_type == name,
            decreases self.attributes.len() - i,
        {
            let ghost seen = texts(names@);
            let ghost fresh = self@.attributes[i as int].trait_type;
            assert(fresh == self.attributes@[i as int].trait_type@);
            if !holds_text(&names, self.attributes[i].trait_type.as_str()) {
                insert_ascending(&mut names, self.attributes[i].trait_type.clone());
                proof {
                    let at = choose|at: int| 0 <= at <= seen.len() && texts(names@) == #[trigger] seen.insert(at, fresh);
                    lemma_insert_fresh(seen, at, fresh);
                }
            }
            assert forall|name: Seq<char>|
                texts(names@).contains(name) <==> exists|j: int|
                    0 <= j < i + 1 && (#[trigger] self@.attributes[j]).trait_type == name by {
                if texts(names@).contains(name) {
                    if name == fresh {
                        assert(self@.attributes[i as int].trait_type == name);
                    } else {
                        assert(seen.contains(name));
                    }
                }
                if exists|j: int| 0 <= j < i + 1 && (#[trigger] self@.attributes[j]).trait_type == name {
                    let j = choose|j: int| 0 <= j < i + 1 && (#[trigger] self@.attributes[j]).trait_type == name;
                    if j < i {
                        assert(seen.contains(name));
                    }
                }
            }
            i = i + 1;
        }
        names
    }

    /// The asset records, in insertion order.
    pub fn assets(&self) -> (assets: &Vec<AssetRecord>)
        ensures
            asset_views(assets@) == self@.assets,
    {
        &self.assets
    }

    /// The attribute rows, in insertion order.
    pub fn attributes(&self) -> (rows: &Vec<AttributeRow>)
        ensures
            attribute_row_views(rows@) == self@.attributes,
    {
        &self.attributes
    }
}

} // verus!
