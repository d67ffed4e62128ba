//! Token identifiers and the metadata address that belongs to each.
//!
//! An identifier is the 32-byte key of a mint account, written in base-58.
//! Its metadata address is the program-derived address that the
//! token-metadata program owns for the seeds `metadata`, the program's own
//! id and the mint key. The base-58 coding and the derivation are those of
//! `solana_program`; this module names their results and proves its own
//! functions against the names.

use crate::state::FetchError;
use mpl_token_metadata::pda::PREFIX;
use solana_program::pubkey::Pubkey;
use std::str::FromStr;
use vstd::prelude::*;

verus! {

/// The key that `Pubkey::from_str` reads from a text, or `None` where it
/// reports an error.
pub uninterp spec fn base58_key(text: Seq<char>) -> Option<Seq<u8>>;

/// The text that `Pubkey`'s `to_string` writes for a key.
pub uninterp spec fn base58_text(key: Seq<u8>) -> Seq<char>;

/// The address that `Pubkey::try_find_program_address` finds for a mint key
/// under the token-metadata program, or `None` where it finds none.
pub uninterp spec fn metadata_address(mint: Seq<u8>) -> Option<Seq<u8>>;

/// Calls `Pubkey::from_str` of `solana_program` and takes the bytes of the
/// key. The contract claims only that the outcome is a function of the text.
#[verifier::external_body]
fn key_from_base58(text: &str) -> (r: Option<[u8; 32]>)
    ensures
        match r {
            Some(key) => base58_key(text@) == Some(key@),
            None => base58_key(text@) is None,
        },
{
    Pubkey::from_str(text).ok().map(|key| key.to_bytes())
}

/// Calls `to_string` on the `Pubkey` of `solana_program` made from `key`.
/// The contract claims only that the text is a function of the key.
#[verifier::external_body]
pub(crate) fn key_to_base58(key: &[u8; 32]) -> (r: String)
    ensures
        r@ == base58_text(key@),
{
    Pubkey::new_from_array(*key).to_string()
}

/// Calls `Pubkey::try_find_program_address` of `solana_program` with the
/// seeds that `mpl_token_metadata::pda::find_metadata_account` uses: the
/// prefix `metadata`, the token-metadata program id and the mint key, under
/// that program id. It returns `None` where no bump seed gives an address,
/// which is where `find_metadata_account` panics. The contract claims only
/// that the outcome is a function of the mint key.
#[verifier::external_body]
fn find_metadata_address(mint: &[u8; 32]) -> (r: Option<[u8; 32]>)
    ensures
        match r {
            Some(address) => metadata_address(mint@) == Some(address@),
            None => metadata_address(mint@) is None,
        },
{
    let program = mpl_token_metadata::id();
    let seeds = [PREFIX.as_bytes(), program.as_ref(), mint.as_slice()];
    Pubkey::try_find_program_address(&seeds, &program).map(|found| found.0.to_bytes())
}

/// The key of a mint account.
#[derive(Clone, Copy, Debug, PartialEq, Eq)]
pub struct TokenIdentifier {
    bytes: [u8; 32],
}

impl View for TokenIdentifier {
    type V = Seq<u8>;

    closed spec fn view(&self) -> Seq<u8> {
        self.bytes@
    }
}

/// The address of the metadata account of a mint.
#[derive(Clone, Copy, Debug, PartialEq, Eq)]
pub struct MetadataAddress {
    bytes: [u8; 32],
}

impl View for MetadataAddress {
    type V = Seq<u8>;

    closed spec fn view(&self) -> Seq<u8> {
        self.bytes@
    }
}

/// Whether `r` is what parsing `text` owes: the identifier that the text
/// spells, or the failure `InvalidIdentifier` where it spells none.
pub open spec fn is_parsed(text: Seq<char>, r: Result<TokenIdentifier, FetchError>) -> bool {
    match r {
        Ok(identifier) => base58_key(text) == Some(identifier@),
        Err(error) => base58_key(text) is None && error == FetchError::InvalidIdentifier,
    }
}

/// Whether `r` is what deriving from `identifier` owes: the metadata address
/// of the identifier, or `None` where it has none.
pub open spec fn is_derived(identifier: Seq<u8>, r: Option<MetadataAddress>) -> bool {
    match r {
        Some(address) => metadata_address(identifier) == Some(address@),
        None => metadata_address(identifier) is None,
    }
}

impl TokenIdentifier {
    /// The identifier with the key `bytes`.
    pub fn from_bytes(bytes: [u8; 32]) -> (r: TokenIdentifier)
        ensures
            r@ == bytes@,
    {
        TokenIdentifier { bytes }
    }

    /// The key of the identifier.
    pub fn to_bytes(&self) -> (r: [u8; 32])
        ensures
            r@ == self@,
    {
        self.bytes
    }

    /// Reads an identifier from its base-58 text.
    pub fn parse(text: &str) -> (r: Result<TokenIdentifier, FetchError>)
        ensures
            is_parsed(text@, r),
    {
        match key_from_base58(text) {
            Some(bytes) => Ok(TokenIdentifier { bytes }),
            None => Err(FetchError::InvalidIdentifier),
        }
    }

    /// The identifier in base-58.
    pub fn to_text(&self) -> (r: String)
        ensures
            r@ == base58_text(self@),
    {
        key_to_base58(&self.bytes)
    }
}

impl MetadataAddress {
    /// The address with the key `bytes`.
    pub fn from_bytes(bytes: [u8; 32]) -> (r: MetadataAddress)
        ensures
            r@ == bytes@,
    {
        MetadataAddress { bytes }
    }

    /// The key of the address.
    pub fn to_bytes(&self) -> (r: [u8; 32])
        ensures
            r@ == self@,
    {
        self.bytes
    }

    /// The address in base-58.
    pub fn to_text(&self) -> (r: String)
        ensures
            r@ == base58_text(self@),
    {
        key_to_base58(&self.bytes)
    }
}

/// The metadata address of `identifier`, or `None` where the identifier has
/// none.
pub fn derive(identifier: &TokenIdentifier) -> (r: Option<MetadataAddress>)
    ensures
        is_derived(identifier@, r),
{
    match find_metadata_address(&identifier.bytes) {
        Some(bytes) => Some(MetadataAddress { bytes }),
        None => None,
    }
}

/// Derivation is a function of the identifier: whatever two derivations from
/// equal identifiers return, they return the same.
pub proof fn derive_is_deterministic(
    first: TokenIdentifier,
    second: TokenIdentifier,
    first_address: Option<MetadataAddress>,
    second_address: Option<MetadataAddress>,
)
    requires
        first@ == second@,
        is_derived(first@, first_address),
        is_derived(second@, second_address),
    ensures
        first_address is Some <==> second_address is Some,
        first_address is Some ==> first_address->0@ == second_address->0@,
{
}

} // verus!
