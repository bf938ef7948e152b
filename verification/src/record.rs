//! The on-chain metadata record: decoding of account bytes and stripping of
//! the trailing padding of its text fields.

use crate::error::MineError;
use crate::error::MineErrorView;
use crate::text::nul;
use crate::text::trim_nul;
use crate::text::lemma_strip_trailing_is_unpadded;
use crate::text::strip_trailing;
use crate::text::unpadded;
use mpl_token_metadata::accounts::Metadata;
use vstd::prelude::*;

verus! {

#[verifier::external_type_specification]
#[verifier::external_body]
pub struct ExIoError(std::io::Error);

/// The `name` and `uri` fields, padding included, that account bytes hold
/// when they follow the metadata layout.
pub uninterp spec fn metadata_fields(data: Seq<u8>) -> Option<(Seq<char>, Seq<char>)>;

/// The first byte of every metadata account.
pub open spec fn metadata_key() -> u8 {
    4
}

/// Whether `data` starts with the discriminator of a metadata account.
pub open spec fn has_metadata_key(data: Seq<u8>) -> bool {
    data.len() > 0 && data[0] == metadata_key()
}

/// What the ledger says of an asset: its name and the location of its
/// off-chain document, both without their trailing padding.
#[derive(Clone, Debug, PartialEq, Eq)]
pub struct OnChainRecord {
    pub name: String,
    pub uri: String,
}

/// Mathematical value of an [`OnChainRecord`].
pub struct OnChainRecordView {
    pub name: Seq<char>,
    pub uri: Seq<char>,
}

impl View for OnChainRecord {
    type V = OnChainRecordView;

    open spec fn view(&self) -> OnChainRecordView {
        OnChainRecordView { name: self.name@, uri: self.uri@ }
    }
}

impl OnChainRecordView {
    /// Neither field ends with a NUL character.
    pub open spec fn wf(self) -> bool {
        unpadded(self.name, nul()) && unpadded(self.uri, nul())
    }
}

/// The record that the padded fields `name` and `uri` stand for.
pub open spec fn record_of(name: Seq<char>, uri: Seq<char>) -> OnChainRecordView {
    OnChainRecordView { name: strip_trailing(name, nul()), uri: strip_trailing(uri, nul()) }
}

/// The record that account bytes decode to, if they follow the layout.
pub open spec fn decoded_record(data: Seq<u8>) -> Option<OnChainRecordView> {
    match metadata_fields(data) {
        Some(fields) => Some(record_of(fields.0, fields.1)),
        None => None,
    }
}

/// Calls `Metadata::safe_deserialize` of mpl-token-metadata and keeps the
/// `name` and `uri` of what it returns. The contract claims that the outcome
/// depends on the bytes alone, and that the call fails on bytes that do not
/// start with the metadata discriminator.
#[verifier::external_body]
fn read_metadata(data: &[u8]) -> (r: Result<(String, String), std::io::Error>)
    ensures
        match r {
            Ok(fields) => metadata_fields(data@) == Some((fields.0@, fields.1@)),
            Err(_) => metadata_fields(data@) is None,
        },
        r is Ok ==> has_metadata_key(data@),
{
    Metadata::safe_deserialize(data).map(|metadata| (metadata.name, metadata.uri))
}

impl OnChainRecord {
    /// Neither field ends with a NUL character.
    pub open spec fn wf(&self) -> bool {
        self@.wf()
    }

    /// The record for the fields `name` and `uri` as the account holds them:
    /// the trailing padding is stripped from both, and nothing else.
    pub fn from_padded(name: &str, uri: &str) -> (record: OnChainRecord)
        ensures
            record@ == record_of(name@, uri@),
            record.wf(),
    {
        OnChainRecord { name: trim_nul(name), uri: trim_nul(uri) }
    }
}

/// Decodes account bytes into the record they hold.
///
/// Succeeds exactly on the bytes that follow the metadata layout; bytes with
/// another discriminator are among those that do not. Every failure is a
/// decode error.
pub fn decode_record(data: &[u8]) -> (r: Result<OnChainRecord, MineError>)
    ensures
        match decoded_record(data@) {
            Some(record) => r matches Ok(decoded) && decoded@ == record,
            None => r matches Err(e) && e@ == MineErrorView::Decode,
        },
        !has_metadata_key(data@) ==> r is Err,
        r matches Ok(decoded) ==> decoded.wf(),
{
    match read_metadata(data) {
        Ok(fields) => Ok(OnChainRecord::from_padded(fields.0.as_str(), fields.1.as_str())),
        Err(_) => Err(MineError::Decode),
    }
}

/// A decoded record holds no trailing padding: neither field ends with a
/// NUL character.
pub proof fn lemma_decoded_record_is_unpadded(data: Seq<u8>)
    requires
        decoded_record(data) is Some,
    ensures
        decoded_record(data)->0.wf(),
{
    let fields = metadata_fields(data)->0;
    lemma_strip_trailing_is_unpadded(fields.0, nul());
    lemma_strip_trailing_is_unpadded(fields.1, nul());
}

} // verus!
