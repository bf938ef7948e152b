//! Asset identifiers and the metadata addresses derived from them.

use crate::error::MineError;
use mpl_token_metadata::accounts::Metadata;
use solana_sdk::pubkey::ParsePubkeyError;
use solana_sdk::pubkey::Pubkey;
use std::str::FromStr;
use vstd::prelude::*;

verus! {

#[verifier::external_type_specification]
#[verifier::external_body]
pub struct ExParsePubkeyError(ParsePubkeyError);

/// A 32-byte ledger key: an asset identifier or an address derived from one.
#[derive(Clone, Copy, Debug, PartialEq, Eq)]
pub struct Address {
    pub bytes: [u8; 32],
}

impl View for Address {
    type V = Seq<u8>;

    open spec fn view(&self) -> Seq<u8> {
        self.bytes@
    }
}

/// The key that the ledger's text encoding `text` stands for, if it is one.
pub uninterp spec fn base58_decoded(text: Seq<char>) -> Option<Seq<u8>>;

/// The ledger's text encoding of the key `bytes`.
pub uninterp spec fn base58_text(bytes: Seq<u8>) -> Seq<char>;

/// The program-derived address for `seeds` under `program`, with the bump
/// byte that the search settled on, if the search finds one.
pub uninterp spec fn program_address(seeds: Seq<Seq<u8>>, program: Seq<u8>) -> Option<(Seq<u8>, u8)>;

/// The byte strings that the vectors of `seeds` hold, in order.
pub open spec fn seed_bytes(seeds: Seq<Vec<u8>>) -> Seq<Seq<u8>> {
    Seq::new(seeds.len(), |i: int| seeds[i]@)
}

/// Text encoding of the token-metadata program's key.
pub open spec fn metadata_program_text() -> Seq<char> {
    "metaqbxxUerdq28cj1RbAWkYQm3ybzjb6a8bt518x1s"@
}

/// Key of the token-metadata program.
pub open spec fn metadata_program_id() -> Seq<u8> {
    base58_decoded(metadata_program_text())->0
}

/// The fixed prefix seed: the ASCII bytes of `metadata`.
pub open spec fn metadata_prefix() -> Seq<u8> {
    seq![109u8, 101u8, 116u8, 97u8, 100u8, 97u8, 116u8, 97u8]
}

/// The seeds from which the address for `identifier` under `program` is
/// derived, in order: prefix, program, identifier.
pub open spec fn derivation_seeds(identifier: Seq<u8>, program: Seq<u8>) -> Seq<Seq<u8>> {
    seq![metadata_prefix(), program, identifier]
}

/// The address derived for `identifier` under `program`, if there is one.
pub open spec fn derived_address(identifier: Seq<u8>, program: Seq<u8>) -> Option<Seq<u8>> {
    match program_address(derivation_seeds(identifier, program), program) {
        Some(found) => Some(found.0),
        None => None,
    }
}

/// The metadata address of the asset `mint`, if there is one.
pub open spec fn metadata_address_of(mint: Seq<u8>) -> Option<Seq<u8>> {
    derived_address(mint, metadata_program_id())
}

/// Calls `Pubkey::from_str` of solana-sdk. The contract claims that the
/// outcome depends on the text alone: the key on success, none on failure.
#[verifier::external_body]
fn decode_base58(text: &str) -> (r: Result<[u8; 32], ParsePubkeyError>)
    ensures
        match r {
            Ok(bytes) => base58_decoded(text@) == Some(bytes@),
            Err(_) => base58_decoded(text@) is None,
        },
{
    Pubkey::from_str(text).map(|key| key.to_bytes())
}

/// Calls the `Display` rendering of solana-sdk's `Pubkey`. The contract
/// claims that the text depends on the bytes alone.
#[verifier::external_body]
fn encode_base58(bytes: &[u8; 32]) -> (text: String)
    ensures
        text@ == base58_text(bytes@),
{
    Pubkey::new_from_array(*bytes).to_string()
}

/// Calls `Pubkey::try_find_program_address` of solana-sdk. The contract
/// claims that the outcome depends on the seeds and the program key alone.
#[verifier::external_body]
fn search_program_address(seeds: &Vec<Vec<u8>>, program: &[u8; 32]) -> (r: Option<([u8; 32], u8)>)
    ensures
        match r {
            Some(found) => program_address(seed_bytes(seeds@), program@) == Some((found.0@, found.1)),
            None => program_address(seed_bytes(seeds@), program@) is None,
        },
{
    let parts: Vec<&[u8]> = seeds.iter().map(|seed| seed.as_slice()).collect();
    let key = Pubkey::new_from_array(*program);
    Pubkey::try_find_program_address(&parts, &key).map(|(address, bump)| (address.to_bytes(), bump))
}

/// Reads `mpl_token_metadata::ID`. The contract claims that it is the key
/// whose text encoding is `metadata_program_text()`.
#[verifier::external_body]
fn token_metadata_program() -> (id: Address)
    ensures
        base58_decoded(metadata_program_text()) == Some(id@),
{
    Address { bytes: mpl_token_metadata::ID.to_bytes() }
}

/// Reads `Metadata::PREFIX` of mpl-token-metadata. The contract claims that
/// it holds the ASCII bytes of `metadata`.
#[verifier::external_body]
fn token_metadata_prefix() -> (prefix: Vec<u8>)
    ensures
        prefix@ == metadata_prefix(),
{
    Metadata::PREFIX.to_vec()
}

impl Address {
    /// The address with the given bytes.
    pub fn new(bytes: [u8; 32]) -> (address: Address)
        ensures
            address@ == bytes@,
    {
        Address { bytes }
    }

    /// The bytes of the address, as a vector.
    pub fn to_vec(&self) -> (out: Vec<u8>)
        ensures
            out@ == self@,
    {
        let mut out: Vec<u8> = Vec::new();
        let mut i: usize = 0;
        while i < 32
            invariant
                i <= 32,
                out@ == self@.subrange(0, i as int),
            decreases 32 - i,
        {
            out.push(self.bytes[i]);
            assert(out@ =~= self@.subrange(0, i + 1));
            i = i + 1;
        }
        assert(self@.subrange(0, 32) =~= self@);
        out
    }

    /// The ledger's text encoding of the address.
    pub fn to_text(&self) -> (text: String)
        ensures
            text@ == base58_text(self@),
    {
        encode_base58(&self.bytes)
    }
}

/// Reads an asset identifier from one line of input.
///
/// Succeeds exactly on the lines that encode a key; every other line is
/// an input error.
pub fn parse_identifier(line: &str) -> (r: Result<Address, MineError>)
    ensures
        match base58_decoded(line@) {
            Some(bytes) => r matches Ok(address) && address@ == bytes,
            None => r matches Err(e) && e@ == crate::error::MineErrorView::Input,
        },
{
    match decode_base58(line) {
        Ok(bytes) => Ok(Address { bytes }),
        Err(_) => Err(MineError::Input),
    }
}

/// The outcome of the address search for `identifier` under `program`.
fn search_address(identifier: &Address, program: &Address) -> (r: Option<Address>)
    ensures
        match r {
            Some(address) => derived_address(identifier@, program@) == Some(address@),
            None => derived_address(identifier@, program@) is None,
        },
{
    let mut seeds: Vec<Vec<u8>> = Vec::new();
    seeds.push(token_metadata_prefix());
    seeds.push(program.to_vec());
    seeds.push(identifier.to_vec());
    assert(seed_bytes(seeds@) =~= derivation_seeds(identifier@, program@));
    match search_program_address(&seeds, &program.bytes) {
        Some(found) => Some(Address { bytes: found.0 }),
        None => None,
    }
}

/// Derives the address for `identifier` under `program`.
pub fn derive(identifier: Address, program: Address) -> (address: Address)
    requires
        derived_address(identifier@, program@) is Some,
    ensures
        derived_address(identifier@, program@) == Some(address@),
{
    search_address(&identifier, &program).unwrap()
}

/// Derives the address for `identifier` under `program` where the search
/// finds one, and says so where it does not.
pub fn try_derive(identifier: Address, program: Address) -> (r: Option<Address>)
    ensures
        match r {
            Some(address) => derived_address(identifier@, program@) == Some(address@),
            None => derived_address(identifier@, program@) is None,
        },
{
    if search_address(&identifier, &program).is_some() {
        Some(derive(identifier, program))
    } else {
        None
    }
}

/// Derives the metadata address of the asset `mint`.
pub fn find_metadata_address(mint: Address) -> (address: Address)
    requires
        metadata_address_of(mint@) is Some,
    ensures
        metadata_address_of(mint@) == Some(address@),
{
    derive(mint, token_metadata_program())
}

/// Derives the metadata address of the asset `mint` where the search finds
/// one, and says so where it does not.
pub fn try_find_metadata_address(mint: Address) -> (r: Option<Address>)
    ensures
        match r {
            Some(address) => metadata_address_of(mint@) == Some(address@),
            None => metadata_address_of(mint@) is None,
        },
{
    if try_derive(mint, token_metadata_program()).is_some() {
        Some(find_metadata_address(mint))
    } else {
        None
    }
}

/// Derivation is a function: equal inputs give equal addresses.
pub proof fn lemma_derivation_is_deterministic(
    first: Seq<u8>,
    second: Seq<u8>,
    first_program: Seq<u8>,
    second_program: Seq<u8>,
)
    requires
        first == second,
        first_program == second_program,
    ensures
        derived_address(first, first_program) == derived_address(second, second_program),
{
}

} // verus!
