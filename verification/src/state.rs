//! The data that flows through the pipeline: the on-chain record, the
//! enrichment document, the response that joins them, and the failures that
//! end a request.

use vstd::prelude::*;

verus! {

/// A JSON value of arbitrary shape. The library carries such values from the
/// enrichment document into the response and never looks inside.
#[verifier::external_type_specification]
#[verifier::external_body]
pub struct ExJsonValue(serde_json::Value);

/// The kind of a token-metadata account, as its first byte tags it.
#[derive(Clone, Copy, Debug, PartialEq, Eq, Structural)]
pub enum Key {
    Uninitialized,
    EditionV1,
    MasterEditionV1,
    ReservationListV1,
    MetadataV1,
    ReservationListV2,
    MasterEditionV2,
    EditionMarker,
    UseAuthorityRecord,
    CollectionAuthorityRecord,
    TokenOwnedEscrow,
}

/// The standard that a token follows.
#[derive(Clone, Copy, Debug, PartialEq, Eq, Structural)]
pub enum TokenStandard {
    NonFungible,
    FungibleAsset,
    Fungible,
    NonFungibleEdition,
}

/// How a use of a token is counted.
#[derive(Clone, Copy, Debug, PartialEq, Eq, Structural)]
pub enum UseMethod {
    Burn,
    Multiple,
    Single,
}

/// The usage descriptor of a record.
#[derive(Clone, Copy, Debug, PartialEq, Eq, Structural)]
pub struct Uses {
    pub use_method: UseMethod,
    pub remaining: u64,
    pub total: u64,
}

/// The collection-size descriptor of a record.
#[derive(Clone, Copy, Debug, PartialEq, Eq, Structural)]
pub enum CollectionDetails {
    V1 { size: u64 },
}

/// One creator of a token. `share` is a percentage.
#[derive(Clone, Debug, PartialEq, Eq)]
pub struct Creator {
    pub address: String,
    pub verified: bool,
    pub share: u8,
}

/// The mathematical value of a [`Creator`].
pub struct CreatorView {
    pub address: Seq<char>,
    pub verified: bool,
    pub share: u8,
}

impl View for Creator {
    type V = CreatorView;

    open spec fn view(&self) -> CreatorView {
        CreatorView { address: self.address@, verified: self.verified, share: self.share }
    }
}

/// The descriptive part of a record. `seller_fee_basis_points` is the royalty
/// in hundredths of a percent.
#[derive(Clone, Debug, PartialEq, Eq)]
pub struct Data {
    pub name: String,
    pub symbol: String,
    pub uri: String,
    pub seller_fee_basis_points: u16,
    pub creators: Option<Vec<Creator>>,
}

/// The mathematical value of a [`Data`].
pub struct DataView {
    pub name: Seq<char>,
    pub symbol: Seq<char>,
    pub uri: Seq<char>,
    pub seller_fee_basis_points: u16,
    pub creators: Option<Seq<CreatorView>>,
}

/// The values of a list of creators, in order.
pub open spec fn creator_views(creators: Seq<Creator>) -> Seq<CreatorView> {
    Seq::new(creators.len(), |i: int| creators[i]@)
}

impl View for Data {
    type V = DataView;

    open spec fn view(&self) -> DataView {
        DataView {
            name: self.name@,
            symbol: self.symbol@,
            uri: self.uri@,
            seller_fee_basis_points: self.seller_fee_basis_points,
            creators: match self.creators {
                Some(list) => Some(creator_views(list@)),
                None => None,
            },
        }
    }
}

/// The collection that a token belongs to.
#[derive(Clone, Debug, PartialEq, Eq)]
pub struct Collection {
    pub verified: bool,
    pub key: String,
}

/// The mathematical value of a [`Collection`].
pub struct CollectionView {
    pub verified: bool,
    pub key: Seq<char>,
}

impl View for Collection {
    type V = CollectionView;

    open spec fn view(&self) -> CollectionView {
        CollectionView { verified: self.verified, key: self.key@ }
    }
}

/// The on-chain record of a token, with its texts sanitised and its account
/// addresses in base-58.
#[derive(Clone, Debug, PartialEq, Eq)]
pub struct MetadataWrapper {
    pub key: Key,
    pub update_authority: String,
    pub mint: String,
    pub data: Data,
    pub primary_sale_happened: bool,
    pub is_mutable: bool,
    pub edition_nonce: Option<u8>,
    pub token_standard: Option<TokenStandard>,
    pub collection: Option<Collection>,
    pub uses: Option<Uses>,
    pub collection_details: Option<CollectionDetails>,
}

/// The mathematical value of a [`MetadataWrapper`].
pub struct MetadataView {
    pub key: Key,
    pub update_authority: Seq<char>,
    pub mint: Seq<char>,
    pub data: DataView,
    pub primary_sale_happened: bool,
    pub is_mutable: bool,
    pub edition_nonce: Option<u8>,
    pub token_standard: Option<TokenStandard>,
    pub collection: Option<CollectionView>,
    pub uses: Option<Uses>,
    pub collection_details: Option<CollectionDetails>,
}

impl View for MetadataWrapper {
    type V = MetadataView;

    open spec fn view(&self) -> MetadataView {
        MetadataView {
            key: self.key,
            update_authority: self.update_authority@,
            mint: self.mint@,
            data: self.data@,
            primary_sale_happened: self.primary_sale_happened,
            is_mutable: self.is_mutable,
            edition_nonce: self.edition_nonce,
            token_standard: self.token_standard,
            collection: match self.collection {
                Some(collection) => Some(collection@),
                None => None,
            },
            uses: self.uses,
            collection_details: self.collection_details,
        }
    }
}

/// The enrichment document that a record's URI points to. `attributes` and
/// `properties` are of arbitrary shape.
#[derive(Debug)]
pub struct UriData {
    pub name: String,
    pub symbol: String,
    pub description: String,
    pub seller_fee_basis_points: u16,
    pub image: String,
    pub external_url: String,
    pub attributes: Vec<serde_json::Value>,
    pub properties: serde_json::Value,
}

/// The response to a request that succeeded: the network as the request
/// named it, the on-chain record and the enrichment document.
#[derive(Debug)]
pub struct FetchAccountResponse {
    pub network: String,
    pub metadata: MetadataWrapper,
    pub uri_data: UriData,
}

/// The ways in which a request ends without a response.
#[derive(Clone, Copy, Debug, PartialEq, Eq, Structural)]
pub enum FetchError {
    /// The identifier is no base-58 account key, or no metadata address
    /// belongs to it.
    InvalidIdentifier,
    /// The ledger node was not reached or holds no such account.
    FailedToGetAccountData,
    /// The account bytes are no metadata record.
    FailedToDeserializeData,
    /// The enrichment document was not reached, came with a status other
    /// than 200, or does not have the expected shape.
    FailedToFetchUriData,
    /// The base URL of the primary network was not configured.
    ConfigurationMissing,
}

/// The name under which a failure is reported.
pub open spec fn kind_text(error: FetchError) -> Seq<char> {
    match error {
        FetchError::InvalidIdentifier => "InvalidIdentifier"@,
        FetchError::FailedToGetAccountData => "AccountFetchFailed"@,
        FetchError::FailedToDeserializeData => "DecodeFailed"@,
        FetchError::FailedToFetchUriData => "EnrichmentFetchFailed"@,
        FetchError::ConfigurationMissing => "ConfigurationMissing"@,
    }
}

/// The sentence that tells a user which stage failed.
pub open spec fn message_text(error: FetchError) -> Seq<char> {
    match error {
        FetchError::InvalidIdentifier => "Failed to read the mint identifier."@,
        FetchError::FailedToGetAccountData => "Failed to get mint account data."@,
        FetchError::FailedToDeserializeData => "Failed to deserialize mint account data."@,
        FetchError::FailedToFetchUriData => "Failed to retrieve uri data."@,
        FetchError::ConfigurationMissing => "Failed to find the network configuration."@,
    }
}

/// The HTTP status that goes with a failure.
pub open spec fn status_of(error: FetchError) -> u16 {
    match error {
        FetchError::InvalidIdentifier => 400,
        _ => 500,
    }
}

impl FetchError {
    /// The name under which the failure is reported.
    pub fn kind(&self) -> (r: &'static str)
        ensures
            r@ == kind_text(*self),
    {
        match self {
            FetchError::InvalidIdentifier => "InvalidIdentifier",
            FetchError::FailedToGetAccountData => "AccountFetchFailed",
            FetchError::FailedToDeserializeData => "DecodeFailed",
            FetchError::FailedToFetchUriData => "EnrichmentFetchFailed",
            FetchError::ConfigurationMissing => "ConfigurationMissing",
        }
    }

    /// The sentence that tells a user which stage failed.
    pub fn message(&self) -> (r: &'static str)
        ensures
            r@ == message_text(*self),
    {
        match self {
            FetchError::InvalidIdentifier => "Failed to read the mint identifier.",
            FetchError::FailedToGetAccountData => "Failed to get mint account data.",
            FetchError::FailedToDeserializeData => "Failed to deserialize mint account data.",
            FetchError::FailedToFetchUriData => "Failed to retrieve uri data.",
            FetchError::ConfigurationMissing => "Failed to find the network configuration.",
        }
    }

    /// The HTTP status that goes with the failure.
    pub fn status_code(&self) -> (r: u16)
        ensures
            r == status_of(*self),
    {
        match self {
            FetchError::InvalidIdentifier => 400,
            _ => 500,
        }
    }
}

} // verus!
