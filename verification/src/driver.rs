//! The mining driver: a state machine over the identifiers of one run.
//!
//! The machine decides; its caller performs. Each step takes the answer to
//! the action asked for last and gives the next action. An identifier that
//! the store holds is skipped; any other passes through derivation, the
//! on-chain fetch, the off-chain fetch, normalization and persistence, in
//! that order. The first failure aborts the run.

use crate::address::base58_decoded;
use crate::address::base58_text;
use crate::address::metadata_address_of;
use crate::address::parse_identifier;
use crate::address::try_find_metadata_address;
use crate::address::Address;
use crate::document::OffChainDocument;
use crate::document::OffChainDocumentView;
use crate::error::MineError;
use crate::error::MineErrorView;
use crate::normalize::normalize;
use crate::normalize::normalized;
use crate::normalize::row_views;
use crate::normalize::TraitRow;
use crate::normalize::TraitRowView;
use crate::record::decode_record;
use crate::record::decoded_record;
use crate::record::OnChainRecord;
use crate::record::OnChainRecordView;
use crate::store::AssetRecord;
use crate::store::AssetRecordView;
use vstd::prelude::*;

verus! {

/// How an identifier was completed.
#[derive(Clone, Copy, Debug, PartialEq, Eq, Structural)]
pub enum Progress {
    /// The store held it already.
    Skipped,
    /// It was mined and persisted.
    Mined,
}

impl Progress {
    /// The mark shown to the operator for an identifier completed this way.
    pub open spec fn mark(self) -> Seq<char> {
        match self {
            Progress::Skipped => "-"@,
            Progress::Mined => "+"@,
        }
    }

    /// The mark shown to the operator for an identifier completed this way.
    pub fn marker(&self) -> (text: &'static str)
        ensures
            text@ == self.mark(),
    {
        match self {
            Progress::Skipped => "-",
            Progress::Mined => "+",
        }
    }
}

/// The ledger's answer to a request for the account at an address.
#[derive(Clone, Debug, PartialEq, Eq)]
pub enum AccountAnswer {
    Found(Vec<u8>),
    Missing,
    Unreachable,
}

/// Mathematical value of an [`AccountAnswer`].
pub enum AccountAnswerView {
    Found(Seq<u8>),
    Missing,
    Unreachable,
}

impl View for AccountAnswer {
    type V = AccountAnswerView;

    open spec fn view(&self) -> AccountAnswerView {
        match *self {
            AccountAnswer::Found(data) => AccountAnswerView::Found(data@),
            AccountAnswer::Missing => AccountAnswerView::Missing,
            AccountAnswer::Unreachable => AccountAnswerView::Unreachable,
        }
    }
}

/// The answer to a request for the document at a location.
#[derive(Clone, Debug, PartialEq, Eq)]
pub enum DocumentAnswer {
    Fetched(OffChainDocument),
    Malformed,
    Unreachable,
}

/// Mathematical value of a [`DocumentAnswer`].
pub enum DocumentAnswerView {
    Fetched(OffChainDocumentView),
    Malformed,
    Unreachable,
}

impl View for DocumentAnswer {
    type V = DocumentAnswerView;

    open spec fn view(&self) -> DocumentAnswerView {
        match *self {
            DocumentAnswer::Fetched(document) => DocumentAnswerView::Fetched(document@),
            DocumentAnswer::Malformed => DocumentAnswerView::Malformed,
            DocumentAnswer::Unreachable => DocumentAnswerView::Unreachable,
        }
    }
}

/// The store's answer to a request to persist an asset.
#[derive(Clone, Copy, Debug, PartialEq, Eq, Structural)]
pub enum PersistAnswer {
    Stored,
    Conflict,
}

/// What the caller hands to the machine.
#[derive(Clone, Debug, PartialEq, Eq)]
pub enum Event {
    /// The next line of the identifier file.
    Line(String),
    /// The identifier file has no further line.
    EndOfInput,
    /// The number of assets that the store holds under the mint address.
    Counted(u8),
    /// Nothing was asked of the caller.
    Proceed,
    Account(AccountAnswer),
    Document(DocumentAnswer),
    Persisted(PersistAnswer),
}

/// Mathematical value of an [`Event`].
pub enum EventView {
    Line(Seq<char>),
    EndOfInput,
    Counted(u8),
    Proceed,
    Account(AccountAnswerView),
    Document(DocumentAnswerView),
    Persisted(PersistAnswer),
}

impl View for Event {
    type V = EventView;

    open spec fn view(&self) -> EventView {
        match *self {
            Event::Line(line) => EventView::Line(line@),
            Event::EndOfInput => EventView::EndOfInput,
            Event::Counted(n) => EventView::Counted(n),
            Event::Proceed => EventView::Proceed,
            Event::Account(answer) => EventView::Account(answer@),
            Event::Document(answer) => EventView::Document(answer@),
            Event::Persisted(answer) => EventView::Persisted(answer),
        }
    }
}

/// What the machine asks of its caller.
#[derive(Clone, Debug, PartialEq, Eq)]
pub enum Action {
    /// Count the assets that the store holds under this mint address.
    CountMint { mint_address: String },
    /// Nothing to perform: hand back `Event::Proceed`.
    Proceed,
    /// Fetch the account at this address from the ledger.
    FetchAccount { address: Address },
    /// Fetch the document at this location.
    FetchDocument { uri: String },
    /// Insert this record and these rows, both or neither.
    Persist { asset: AssetRecord, attributes: Vec<TraitRow> },
    /// Mark the identifier as completed, then hand over the next line.
    Report(Progress),
    /// The run is complete.
    Stop,
    /// The run is aborted with this failure.
    Abort(MineError),
}

/// Mathematical value of an [`Action`].
pub enum ActionView {
    CountMint { mint_address: Seq<char> },
    Proceed,
    FetchAccount { address: Seq<u8> },
    FetchDocument { uri: Seq<char> },
    Persist { asset: AssetRecordView, attributes: Seq<TraitRowView> },
    Report(Progress),
    Stop,
    Abort(MineErrorView),
}

impl View for Action {
    type V = ActionView;

    open spec fn view(&self) -> ActionView {
        match *self {
            Action::CountMint { mint_address } => ActionView::CountMint { mint_address: mint_address@ },
            Action::Proceed => ActionView::Proceed,
            Action::FetchAccount { address } => ActionView::FetchAccount { address: address@ },
            Action::FetchDocument { uri } => ActionView::FetchDocument { uri: uri@ },
            Action::Persist { asset, attributes } => ActionView::Persist {
                asset: asset@,
                attributes: row_views(attributes@),
            },
            Action::Report(progress) => ActionView::Report(progress),
            Action::Stop => ActionView::Stop,
            Action::Abort(failure) => ActionView::Abort(failure@),
        }
    }
}

/// The state of a run: where the identifier in hand stands, with what was
/// gathered for it so far.
#[derive(Clone, Debug, PartialEq, Eq)]
pub enum Driver {
    /// No identifier was read yet.
    Ready,
    /// The store is asked whether it holds the identifier.
    CheckExisting { mint: Address },
    /// The metadata address is to be derived.
    Derive { mint: Address },
    /// The ledger is asked for the account at the metadata address.
    FetchOnChain { mint: Address, metadata: Address },
    /// The document that the record points to is asked for.
    ResolveOffChain { mint: Address, metadata: Address, record: OnChainRecord },
    /// The attributes of the document are to be normalized.
    Normalize { mint: Address, metadata: Address, record: OnChainRecord, document: OffChainDocument },
    /// The store is asked to keep the asset.
    Persist,
    /// The identifier in hand is completed.
    Done,
    /// The input is exhausted: the run is complete.
    Finished,
    /// A failure ended the run.
    Aborted,
}

/// Mathematical value of a [`Driver`].
pub enum DriverView {
    Ready,
    CheckExisting { mint: Seq<u8> },
    Derive { mint: Seq<u8> },
    FetchOnChain { mint: Seq<u8>, metadata: Seq<u8> },
    ResolveOffChain { mint: Seq<u8>, metadata: Seq<u8>, record: OnChainRecordView },
    Normalize {
        mint: Seq<u8>,
        metadata: Seq<u8>,
        record: OnChainRecordView,
        document: OffChainDocumentView,
    },
    Persist,
    Done,
    Finished,
    Aborted,
}

impl View for Driver {
    type V = DriverView;

    open spec fn view(&self) -> DriverView {
        match *self {
            Driver::Ready => DriverView::Ready,
            Driver::CheckExisting { mint } => DriverView::CheckExisting { mint: mint@ },
            Driver::Derive { mint } => DriverView::Derive { mint: mint@ },
            Driver::FetchOnChain { mint, metadata } => DriverView::FetchOnChain {
                mint: mint@,
                metadata: metadata@,
            },
            Driver::ResolveOffChain { mint, metadata, record } => DriverView::ResolveOffChain {
                mint: mint@,
                metadata: metadata@,
                record: record@,
            },
            Driver::Normalize { mint, metadata, record, document } => DriverView::Normalize {
                mint: mint@,
                metadata: metadata@,
                record: record@,
                document: document@,
            },
            Driver::Persist => DriverView::Persist,
            Driver::Done => DriverView::Done,
            Driver::Finished => DriverView::Finished,
            Driver::Aborted => DriverView::Aborted,
        }
    }
}

/// The record that is kept of an asset: both addresses in their text
/// encoding, the two on-chain fields, and the document's name and image.
pub open spec fn asset_of(
    mint: Seq<u8>,
    metadata: Seq<u8>,
    record: OnChainRecordView,
    document: OffChainDocumentView,
) -> AssetRecordView {
    AssetRecordView {
        mint_address: base58_text(mint),
        metadata_address: base58_text(metadata),
        on_chain_name: record.name,
        on_chain_uri: record.uri,
        off_chain_name: document.name,
        off_chain_image: document.image,
    }
}

/// The step that aborts the run with `failure`.
pub open spec fn abort(failure: MineErrorView) -> (DriverView, ActionView) {
    (DriverView::Aborted, ActionView::Abort(failure))
}

/// The step taken when a line of input arrives: the store is asked about
/// the identifier that the line encodes, or the run is aborted where it
/// encodes none.
pub open spec fn on_line(line: Seq<char>) -> (DriverView, ActionView) {
    match base58_decoded(line) {
        Some(mint) => (
            DriverView::CheckExisting { mint },
            ActionView::CountMint { mint_address: base58_text(mint) },
        ),
        None => abort(MineErrorView::Input),
    }
}

/// The step taken when the store has counted the identifier: one asset
/// means that it was mined already.
pub open spec fn on_count(mint: Seq<u8>, count: u8) -> (DriverView, ActionView) {
    if count == 1 {
        (DriverView::Done, ActionView::Report(Progress::Skipped))
    } else {
        (DriverView::Derive { mint }, ActionView::Proceed)
    }
}

/// The step that derives the metadata address and asks for its account.
pub open spec fn on_derive(mint: Seq<u8>) -> (DriverView, ActionView) {
    match metadata_address_of(mint) {
        Some(metadata) => (
            DriverView::FetchOnChain { mint, metadata },
            ActionView::FetchAccount { address: metadata },
        ),
        None => abort(MineErrorView::Derivation),
    }
}

/// The step taken when the ledger has answered: the account is decoded and
/// the document that it points to is asked for.
pub open spec fn on_account(mint: Seq<u8>, metadata: Seq<u8>, answer: AccountAnswerView) -> (
    DriverView,
    ActionView,
) {
    match answer {
        AccountAnswerView::Unreachable => abort(MineErrorView::Network),
        AccountAnswerView::Missing => abort(MineErrorView::NotFound),
        AccountAnswerView::Found(data) => match decoded_record(data) {
            Some(record) => (
                DriverView::ResolveOffChain { mint, metadata, record },
                ActionView::FetchDocument { uri: record.uri },
            ),
            None => abort(MineErrorView::Decode),
        },
    }
}

/// The step taken when the document has arrived or failed to.
pub open spec fn on_document(
    mint: Seq<u8>,
    metadata: Seq<u8>,
    record: OnChainRecordView,
    answer: DocumentAnswerView,
) -> (DriverView, ActionView) {
    match answer {
        DocumentAnswerView::Unreachable => abort(MineErrorView::Network),
        DocumentAnswerView::Malformed => abort(MineErrorView::Format),
        DocumentAnswerView::Fetched(document) => (
            DriverView::Normalize { mint, metadata, record, document },
            ActionView::Proceed,
        ),
    }
}

/// The step that normalizes the attributes and asks the store to keep the
/// asset with its rows. A refused attribute aborts the run before anything
/// is asked of the store.
pub open spec fn on_normalize(
    mint: Seq<u8>,
    metadata: Seq<u8>,
    record: OnChainRecordView,
    document: OffChainDocumentView,
) -> (DriverView, ActionView) {
    match normalized(document.attributes) {
        Ok(rows) => (
            DriverView::Persist,
            ActionView::Persist { asset: asset_of(mint, metadata, record, document), attributes: rows },
        ),
        Err(failure) => abort(failure),
    }
}

/// The step taken when the store has answered the request to persist.
pub open spec fn on_persisted(answer: PersistAnswer) -> (DriverView, ActionView) {
    match answer {
        PersistAnswer::Stored => (DriverView::Done, ActionView::Report(Progress::Mined)),
        PersistAnswer::Conflict => abort(MineErrorView::Constraint),
    }
}

impl DriverView {
    /// Whether the machine, in this state, waits for an event of this kind.
    /// A run that is complete or aborted waits for none.
    pub open spec fn awaits(self, event: EventView) -> bool {
        match self {
            DriverView::Ready | DriverView::Done => event is Line || event is EndOfInput,
            DriverView::CheckExisting { .. } => event is Counted,
            DriverView::Derive { .. } | DriverView::Normalize { .. } => event is Proceed,
            DriverView::FetchOnChain { .. } => event is Account,
            DriverView::ResolveOffChain { .. } => event is Document,
            DriverView::Persist => event is Persisted,
            DriverView::Finished | DriverView::Aborted => false,
        }
    }

    /// The state that follows this one on `event`, with the action asked of
    /// the caller. It is meant for the events that the state waits for.
    pub open spec fn step(self, event: EventView) -> (DriverView, ActionView) {
        match (self, event) {
            (DriverView::Ready, EventView::Line(line)) => on_line(line),
            (DriverView::Done, EventView::Line(line)) => on_line(line),
            (DriverView::Ready, EventView::EndOfInput) => (DriverView::Finished, ActionView::Stop),
            (DriverView::Done, EventView::EndOfInput) => (DriverView::Finished, ActionView::Stop),
            (DriverView::CheckExisting { mint }, EventView::Counted(count)) => on_count(mint, count),
            (DriverView::Derive { mint }, EventView::Proceed) => on_derive(mint),
            (DriverView::FetchOnChain { mint, metadata }, EventView::Account(answer)) => on_account(
                mint,
                metadata,
                answer,
            ),
            (
                DriverView::ResolveOffChain { mint, metadata, record },
                EventView::Document(answer),
            ) => on_document(mint, metadata, record, answer),
            (DriverView::Normalize { mint, metadata, record, document }, EventView::Proceed) => on_normalize(
                mint,
                metadata,
                record,
                document,
            ),
            (DriverView::Persist, EventView::Persisted(answer)) => on_persisted(answer),
            _ => (self, ActionView::Stop),
        }
    }
}

/// The step that aborts the run with `failure`.
fn aborted(failure: MineError) -> (out: (Driver, Action))
    ensures
        (out.0@, out.1@) == abort(failure@),
{
    (Driver::Aborted, Action::Abort(failure))
}

/// Takes a line of input.
fn take_line(line: String) -> (out: (Driver, Action))
    ensures
        (out.0@, out.1@) == on_line(line@),
{
    match parse_identifier(line.as_str()) {
        Ok(mint) => {
            let mint_address = mint.to_text();
            (Driver::CheckExisting { mint }, Action::CountMint { mint_address })
        },
        Err(failure) => aborted(failure),
    }
}

/// Derives the metadata address of `mint`.
fn take_derive(mint: Address) -> (out: (Driver, Action))
    ensures
        (out.0@, out.1@) == on_derive(mint@),
{
    match try_find_metadata_address(mint) {
        Some(metadata) => (Driver::FetchOnChain { mint, metadata }, Action::FetchAccount { address: metadata }),
        None => aborted(MineError::Derivation),
    }
}

/// Takes the ledger's answer.
fn take_account(mint: Address, metadata: Address, answer: AccountAnswer) -> (out: (Driver, Action))
    ensures
        (out.0@, out.1@) == on_account(mint@, metadata@, answer@),
{
    match answer {
        AccountAnswer::Unreachable => aborted(MineError::Network),
        AccountAnswer::Missing => aborted(MineError::NotFound),
        AccountAnswer::Found(data) => match decode_record(data.as_slice()) {
            Ok(record) => {
                let uri = record.uri.clone();
                (Driver::ResolveOffChain { mint, metadata, record }, Action::FetchDocument { uri })
            },
            Err(failure) => aborted(failure),
        },
    }
}

/// Normalizes the attributes of `document` and builds the record to keep.
fn take_normalize(
    mint: Address,
    metadata: Address,
    record: OnChainRecord,
    document: OffChainDocument,
) -> (out: (Driver, Action))
    ensures
        (out.0@, out.1@) == on_normalize(mint@, metadata@, record@, document@),
{
    match normalize(&document.attributes) {
        Ok(attributes) => {
            let asset = AssetRecord {
                mint_address: mint.to_text(),
                metadata_address: metadata.to_text(),
                on_chain_name: record.name,
                on_chain_uri: record.uri,
                off_chain_name: document.name,
                off_chain_image: document.image,
            };
            (Driver::Persist, Action::Persist { asset, attributes })
        },
        Err(failure) => aborted(failure),
    }
}

impl Driver {
    /// The machine at the start of a run.
    pub fn new() -> (driver: Driver)
        ensures
            driver@ == DriverView::Ready,
    {
        Driver::Ready
    }

    /// Whether the machine waits for an event of this kind.
    pub fn awaits(&self, event: &Event) -> (fits: bool)
        ensures
            fits == self@.awaits(event@),
    {
        match self {
            Driver::Ready | Driver::Done => match event {
                Event::Line(_) | Event::EndOfInput => true,
                _ => false,
            },
            Driver::CheckExisting { .. } => match event {
                Event::Counted(_) => true,
                _ => false,
            },
            Driver::Derive { .. } | Driver::Normalize { .. } => match event {
                Event::Proceed => true,
                _ => false,
            },
            Driver::FetchOnChain { .. } => match event {
                Event::Account(_) => true,
                _ => false,
            },
            Driver::ResolveOffChain { .. } => match event {
                Event::Document(_) => true,
                _ => false,
            },
            Driver::Persist => match event {
                Event::Persisted(_) => true,
                _ => false,
            },
            Driver::Finished | Driver::Aborted => false,
        }
    }

    /// Whether the run has ended, complete or aborted.
    pub fn is_over(&self) -> (over: bool)
        ensures
            over == (self@ is Finished || self@ is Aborted),
    {
        match self {
            Driver::Finished | Driver::Aborted => true,
            _ => false,
        }
    }

    /// Takes one step: from this state and the event that the caller hands
    /// over to the next state and the action asked of the caller.
    pub fn step(self, event: Event) -> (out: (Driver, Action))
        requires
            self@.awaits(event@),
        ensures
            (out.0@, out.1@) == self@.step(event@),
    {
        match (self, event) {
            (Driver::Ready, Event::Line(line)) => take_line(line),
            (Driver::Done, Event::Line(line)) => take_line(line),
            (Driver::Ready, Event::EndOfInput) => (Driver::Finished, Action::Stop),
            (Driver::Done, Event::EndOfInput) => (Driver::Finished, Action::Stop),
            (Driver::CheckExisting { mint }, Event::Counted(count)) => {
                if count == 1 {
                    (Driver::Done, Action::Report(Progress::Skipped))
                } else {
                    (Driver::Derive { mint }, Action::Proceed)
                }
            },
            (Driver::Derive { mint }, Event::Proceed) => take_derive(mint),
            (Driver::FetchOnChain { mint, metadata }, Event::Account(answer)) => take_account(
                mint,
                metadata,
                answer,
            ),
            (Driver::ResolveOffChain { mint, metadata, record }, Event::Document(answer)) => {
                match answer {
                    DocumentAnswer::Unreachable => aborted(MineError::Network),
                    DocumentAnswer::Malformed => aborted(MineError::Format),
                    DocumentAnswer::Fetched(document) => (
                        Driver::Normalize { mint, metadata, record, document },
                        Action::Proceed,
                    ),
                }
            },
            (Driver::Normalize { mint, metadata, record, document }, Event::Proceed) => take_normalize(
                mint,
                metadata,
                record,
                document,
            ),
            (Driver::Persist, Event::Persisted(answer)) => match answer {
                PersistAnswer::Stored => (Driver::Done, Action::Report(Progress::Mined)),
                PersistAnswer::Conflict => aborted(MineError::Constraint),
            },
            (state, _) => (state, Action::Stop),
        }
    }
}

} // verus!
