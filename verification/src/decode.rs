//! Decoding of a metadata account.
//!
//! An account starts with the tag of its kind. The mandatory fields follow
//! in a fixed order: two keys, three texts that each declare their width,
//! the royalty, the creator list behind its flag, and two truth values.
//! After them come the optional fields, each behind a flag: edition nonce,
//! token standard, collection, uses and collection details.
//!
//! This module walks that layout in verified code. The mandatory fields
//! must be complete within the buffer. An optional field is read where its
//! bytes are there; where they run out, or where a flag is none that the
//! layout knows, that field and all after it are absent. A field that is
//! there must be well formed: its tag stands for a variant, its truth value
//! is 0 or 1. Bytes after the last field are ignored.
//!
//! What the mandatory bytes hold (texts, keys, creators) is read by the
//! token-metadata crate from exactly those bytes; this module names that
//! reading and proves what is made of it.

use crate::address::base58_text;
use crate::address::key_to_base58;
use crate::state::Collection;
use crate::state::CollectionDetails;
use crate::state::CollectionView;
use crate::state::Creator;
use crate::state::CreatorView;
use crate::state::Data;
use crate::state::DataView;
use crate::state::FetchError;
use crate::state::Key;
use crate::state::MetadataView;
use crate::state::MetadataWrapper;
use crate::state::TokenStandard;
use crate::state::UseMethod;
use crate::state::Uses;
use crate::state::creator_views;
use crate::text::is_clean;
use crate::text::sanitize;
use crate::text::sanitized;
use crate::text::sanitized_is_clean;
use mpl_token_metadata::utils::meta_deser_unchecked;
use vstd::prelude::*;
use vstd::slice::slice_subrange;
use vstd::slice::slice_to_vec;

verus! {

/// The tag with which a metadata account starts.
pub const METADATA_TAG: u8 = 4;

/// The least length of the mandatory fields: the tag, two keys, three empty
/// texts, the royalty, the flag of an absent creator list and two truth
/// values.
pub const MANDATORY_MIN_LEN: usize = 82;

/// The width of a key.
pub const KEY_LEN: usize = 32;

/// The width of a stored creator: a key, a truth value and a share.
pub const CREATOR_LEN: usize = 34;

/// A creator as an account stores it.
#[derive(Clone, Copy, Debug, PartialEq, Eq)]
pub struct RawCreator {
    pub address: [u8; 32],
    pub verified: bool,
    pub share: u8,
}

/// The mandatory fields of an account, as it stores them: the kind as its
/// tag, keys as bytes, texts with their filling.
#[derive(Clone, Debug, PartialEq, Eq)]
pub struct MandatoryFields {
    pub key: u8,
    pub update_authority: [u8; 32],
    pub mint: [u8; 32],
    pub name: String,
    pub symbol: String,
    pub uri: String,
    pub seller_fee_basis_points: u16,
    pub creators: Option<Vec<RawCreator>>,
    pub primary_sale_happened: bool,
    pub is_mutable: bool,
}

/// The optional fields of an account.
#[derive(Clone, Debug, PartialEq, Eq)]
pub struct OptionalFields {
    pub edition_nonce: Option<u8>,
    pub token_standard: Option<TokenStandard>,
    pub collection: Option<Collection>,
    pub uses: Option<Uses>,
    pub collection_details: Option<CollectionDetails>,
}

/// The mathematical value of an [`OptionalFields`].
pub struct OptionalView {
    pub edition_nonce: Option<u8>,
    pub token_standard: Option<TokenStandard>,
    pub collection: Option<CollectionView>,
    pub uses: Option<Uses>,
    pub collection_details: Option<CollectionDetails>,
}

impl View for OptionalFields {
    type V = OptionalView;

    open spec fn view(&self) -> OptionalView {
        OptionalView {
            edition_nonce: self.edition_nonce,
            token_standard: self.token_standard,
            collection: match self.collection {
                Some(collection) => Some(collection@),
                None => None,
            },
            uses: self.uses,
            collection_details: self.collection_details,
        }
    }
}

/// No optional field at all.
pub open spec fn no_fields() -> OptionalView {
    OptionalView {
        edition_nonce: None,
        token_standard: None,
        collection: None,
        uses: None,
        collection_details: None,
    }
}

/// What `meta_deser_unchecked` of `mpl_token_metadata` reads from the
/// mandatory bytes of an account, closed by the flag of an absent edition
/// nonce; `None` where it reports an error.
pub uninterp spec fn mandatory_reading(head: Seq<u8>) -> Option<MandatoryFields>;

/// Calls `mpl_token_metadata::utils::meta_deser_unchecked`, the reader
/// behind `Metadata`'s `deserialize`, and moves the mandatory fields out of
/// its result: the kind as its number, keys as their bytes. The contract
/// claims only that they are a function of the bytes handed in.
#[verifier::external_body]
fn read_mandatory(head: &[u8]) -> (r: Option<MandatoryFields>)
    ensures
        r == mandatory_reading(head@),
{
    let m = meta_deser_unchecked(&mut &head[..]).ok()?;
    Some(MandatoryFields {
        key: m.key as u8,
        update_authority: m.update_authority.to_bytes(),
        mint: m.mint.to_bytes(),
        name: m.data.name,
        symbol: m.data.symbol,
        uri: m.data.uri,
        seller_fee_basis_points: m.data.seller_fee_basis_points,
        creators: m.data.creators.map(|list| list.iter()
            .map(|c| RawCreator { address: c.address.to_bytes(), verified: c.verified, share: c.share })
            .collect()),
        primary_sale_happened: m.primary_sale_happened,
        is_mutable: m.is_mutable,
    })
}

/// The kind that the tag `tag` stands for.
pub open spec fn key_of_tag(tag: u8) -> Option<Key> {
    match tag {
        0 => Some(Key::Uninitialized),
        1 => Some(Key::EditionV1),
        2 => Some(Key::MasterEditionV1),
        3 => Some(Key::ReservationListV1),
        4 => Some(Key::MetadataV1),
        5 => Some(Key::ReservationListV2),
        6 => Some(Key::MasterEditionV2),
        7 => Some(Key::EditionMarker),
        8 => Some(Key::UseAuthorityRecord),
        9 => Some(Key::CollectionAuthorityRecord),
        10 => Some(Key::TokenOwnedEscrow),
        _ => None,
    }
}

/// The token standard that the tag `tag` stands for.
pub open spec fn token_standard_of_tag(tag: u8) -> Option<TokenStandard> {
    match tag {
        0 => Some(TokenStandard::NonFungible),
        1 => Some(TokenStandard::FungibleAsset),
        2 => Some(TokenStandard::Fungible),
        3 => Some(TokenStandard::NonFungibleEdition),
        _ => None,
    }
}

/// The use method that the tag `tag` stands for.
pub open spec fn use_method_of_tag(tag: u8) -> Option<UseMethod> {
    match tag {
        0 => Some(UseMethod::Burn),
        1 => Some(UseMethod::Multiple),
        2 => Some(UseMethod::Single),
        _ => None,
    }
}

impl Key {
    /// The kind that `tag` stands for, or `None` where it stands for none.
    pub fn from_tag(tag: u8) -> (r: Option<Key>)
        ensures
            r == key_of_tag(tag),
    {
        match tag {
            0 => Some(Key::Uninitialized),
            1 => Some(Key::EditionV1),
            2 => Some(Key::MasterEditionV1),
            3 => Some(Key::ReservationListV1),
            4 => Some(Key::MetadataV1),
            5 => Some(Key::ReservationListV2),
            6 => Some(Key::MasterEditionV2),
            7 => Some(Key::EditionMarker),
            8 => Some(Key::UseAuthorityRecord),
            9 => Some(Key::CollectionAuthorityRecord),
            10 => Some(Key::TokenOwnedEscrow),
            _ => None,
        }
    }
}

impl TokenStandard {
    /// The token standard that `tag` stands for, or `None` where it stands
    /// for none.
    pub fn from_tag(tag: u8) -> (r: Option<TokenStandard>)
        ensures
            r == token_standard_of_tag(tag),
    {
        match tag {
            0 => Some(TokenStandard::NonFungible),
            1 => Some(TokenStandard::FungibleAsset),
            2 => Some(TokenStandard::Fungible),
            3 => Some(TokenStandard::NonFungibleEdition),
            _ => None,
        }
    }
}

impl UseMethod {
    /// The use method that `tag` stands for, or `None` where it stands for
    /// none.
    pub fn from_tag(tag: u8) -> (r: Option<UseMethod>)
        ensures
            r == use_method_of_tag(tag),
    {
        match tag {
            0 => Some(UseMethod::Burn),
            1 => Some(UseMethod::Multiple),
            2 => Some(UseMethod::Single),
            _ => None,
        }
    }
}

/// The number that four bytes from `at` on spell, least byte first.
pub open spec fn le_u32(bytes: Seq<u8>, at: int) -> u32 {
    (bytes[at] + bytes[at + 1] * 0x100 + bytes[at + 2] * 0x1_0000 + bytes[at + 3] * 0x100_0000) as u32
}

/// The number that eight bytes from `at` on spell, least byte first.
pub open spec fn le_u64(bytes: Seq<u8>, at: int) -> u64 {
    (le_u32(bytes, at) + le_u32(bytes, at + 4) * 0x1_0000_0000) as u64
}

/// Where the text that starts at `at` ends: behind the four bytes of its
/// declared width and as many bytes as they say. `None` where the buffer
/// ends before.
pub open spec fn text_end(bytes: Seq<u8>, at: int) -> Option<int> {
    if at + 4 <= bytes.len() && at + 4 + le_u32(bytes, at) <= bytes.len() {
        Some(at + 4 + le_u32(bytes, at))
    } else {
        None
    }
}

/// Where the creator list that starts at `at` ends: behind its flag where
/// the flag is 0; behind the flag, the four bytes of the count and as many
/// creators as they say where the flag is 1. `None` where the flag is
/// neither or the buffer ends before.
pub open spec fn creators_end(bytes: Seq<u8>, at: int) -> Option<int> {
    if at < bytes.len() && bytes[at] == 0 {
        Some(at + 1)
    } else if at < bytes.len() && bytes[at] == 1 && at + 5 <= bytes.len() && at + 5 + CREATOR_LEN
        * le_u32(bytes, at + 1) <= bytes.len() {
        Some(at + 5 + CREATOR_LEN * le_u32(bytes, at + 1))
    } else {
        None
    }
}

/// Where the mandatory fields of `bytes` end. `None` where the buffer does
/// not start with the tag of a metadata account or ends before the
/// mandatory fields are complete.
pub open spec fn mandatory_end(bytes: Seq<u8>) -> Option<int> {
    if bytes.len() < 1 + 2 * KEY_LEN || bytes[0] != METADATA_TAG {
        None
    } else {
        match text_end(bytes, 1 + 2 * KEY_LEN) {
            None => None,
            Some(name_end) => match text_end(bytes, name_end) {
                None => None,
                Some(symbol_end) => match text_end(bytes, symbol_end) {
                    None => None,
                    Some(uri_end) => match creators_end(bytes, uri_end + 2) {
                        None => None,
                        Some(list_end) => if list_end + 2 <= bytes.len() {
                            Some(list_end + 2)
                        } else {
                            None
                        },
                    },
                },
            },
        }
    }
}

/// The bytes that are handed to the reading of the mandatory fields: those
/// fields and the flag of an absent edition nonce.
pub open spec fn head_of(bytes: Seq<u8>, end: int) -> Seq<u8> {
    bytes.take(end).push(0u8)
}

/// How an optional field stands.
pub enum Slot {
    /// Its flag is 1 and its bytes are there.
    Present,
    /// Its flag is 0.
    Absent,
    /// The buffer ends before it, or its flag is none that the layout
    /// knows: the reading ends here.
    Ended,
}

/// How the optional field of `width` bytes stands whose flag is at `at`.
pub open spec fn slot(bytes: Seq<u8>, at: int, width: int) -> Slot {
    if at < bytes.len() && bytes[at] == 0 {
        Slot::Absent
    } else if at < bytes.len() && bytes[at] == 1 && at + 1 + width <= bytes.len() {
        Slot::Present
    } else {
        Slot::Ended
    }
}

/// Where the reading goes on after the optional field at `at`: behind the
/// field, or at the end of the buffer where the reading ends.
pub open spec fn after(bytes: Seq<u8>, at: int, width: int) -> int {
    match slot(bytes, at, width) {
        Slot::Present => at + 1 + width,
        Slot::Absent => at + 1,
        Slot::Ended => bytes.len() as int,
    }
}

/// The width of an edition nonce.
pub const NONCE_LEN: usize = 1;

/// The width of a token standard: its tag.
pub const STANDARD_LEN: usize = 1;

/// The width of a collection: a truth value and a key.
pub const COLLECTION_LEN: usize = 33;

/// The width of a usage descriptor: the tag of its method and two counters.
pub const USES_LEN: usize = 17;

/// The width of collection details: the tag of the variant and a size.
pub const DETAILS_LEN: usize = 9;

/// Where the flag of the token standard is, in a tail that starts at `at`.
pub open spec fn standard_at(bytes: Seq<u8>, at: int) -> int {
    after(bytes, at, NONCE_LEN as int)
}

/// Where the flag of the collection is, in a tail that starts at `at`.
pub open spec fn collection_at(bytes: Seq<u8>, at: int) -> int {
    after(bytes, standard_at(bytes, at), STANDARD_LEN as int)
}

/// Where the flag of the uses is, in a tail that starts at `at`.
pub open spec fn uses_at(bytes: Seq<u8>, at: int) -> int {
    after(bytes, collection_at(bytes, at), COLLECTION_LEN as int)
}

/// Where the flag of the collection details is, in a tail that starts at
/// `at`.
pub open spec fn details_at(bytes: Seq<u8>, at: int) -> int {
    after(bytes, uses_at(bytes, at), USES_LEN as int)
}

/// Whether the tail that starts at `at` is sound: each optional field that
/// is present holds a tag of a variant, and the collection a truth value.
pub open spec fn tail_is_sound(bytes: Seq<u8>, at: int) -> bool {
    let standard = standard_at(bytes, at);
    let collection = collection_at(bytes, at);
    let uses = uses_at(bytes, at);
    let details = details_at(bytes, at);
    &&& slot(bytes, standard, STANDARD_LEN as int) is Present ==> token_standard_of_tag(
        bytes[standard + 1],
    ) is Some
    &&& slot(bytes, collection, COLLECTION_LEN as int) is Present ==> bytes[collection + 1] <= 1
    &&& slot(bytes, uses, USES_LEN as int) is Present ==> use_method_of_tag(bytes[uses + 1])
        is Some
    &&& slot(bytes, details, DETAILS_LEN as int) is Present ==> bytes[details + 1] == 0
}

/// The optional fields that the tail from `at` on holds, where it is sound.
pub open spec fn tail_fields(bytes: Seq<u8>, at: int) -> OptionalView {
    let standard = standard_at(bytes, at);
    let collection = collection_at(bytes, at);
    let uses = uses_at(bytes, at);
    let details = details_at(bytes, at);
    OptionalView {
        edition_nonce: if slot(bytes, at, NONCE_LEN as int) is Present {
            Some(bytes[at + 1])
        } else {
            None
        },
        token_standard: if slot(bytes, standard, STANDARD_LEN as int) is Present {
            token_standard_of_tag(bytes[standard + 1])
        } else {
            None
        },
        collection: if slot(bytes, collection, COLLECTION_LEN as int) is Present {
            Some(
                CollectionView {
                    verified: bytes[collection + 1] == 1,
                    key: base58_text(bytes.subrange(collection + 2, collection + 2 + KEY_LEN)),
                },
            )
        } else {
            None
        },
        uses: if slot(bytes, uses, USES_LEN as int) is Present {
            Some(
                Uses {
                    use_method: use_method_of_tag(bytes[uses + 1])->0,
                    remaining: le_u64(bytes, uses + 2),
                    total: le_u64(bytes, uses + 10),
                },
            )
        } else {
            None
        },
        collection_details: if slot(bytes, details, DETAILS_LEN as int) is Present {
            Some(CollectionDetails::V1 { size: le_u64(bytes, details + 2) })
        } else {
            None
        },
    }
}

/// What the tail from `at` on is read as: its optional fields, or `None`
/// where it is not sound.
pub open spec fn tail_reading(bytes: Seq<u8>, at: int) -> Option<OptionalView> {
    if tail_is_sound(bytes, at) {
        Some(tail_fields(bytes, at))
    } else {
        None
    }
}

/// The creator that a stored creator stands for.
pub open spec fn creator_of(raw: RawCreator) -> CreatorView {
    CreatorView { address: base58_text(raw.address@), verified: raw.verified, share: raw.share }
}

/// The creators that a stored list stands for, in its order.
pub open spec fn creators_of(raw: Seq<RawCreator>) -> Seq<CreatorView> {
    Seq::new(raw.len(), |i: int| creator_of(raw[i]))
}

/// Whether the mandatory fields are those of a record: their kind is that
/// of a metadata account.
pub open spec fn is_record(fields: MandatoryFields) -> bool {
    key_of_tag(fields.key) == Some(Key::MetadataV1)
}

/// The record that the fields stand for, where they are those of one.
pub open spec fn record_of(fields: MandatoryFields, optional: OptionalView) -> MetadataView {
    MetadataView {
        key: Key::MetadataV1,
        update_authority: base58_text(fields.update_authority@),
        mint: base58_text(fields.mint@),
        data: DataView {
            name: sanitized(fields.name@),
            symbol: sanitized(fields.symbol@),
            uri: sanitized(fields.uri@),
            seller_fee_basis_points: fields.seller_fee_basis_points,
            creators: match fields.creators {
                Some(list) => Some(creators_of(list@)),
                None => None,
            },
        },
        primary_sale_happened: fields.primary_sale_happened,
        is_mutable: fields.is_mutable,
        edition_nonce: optional.edition_nonce,
        token_standard: optional.token_standard,
        collection: optional.collection,
        uses: optional.uses,
        collection_details: optional.collection_details,
    }
}

/// Whether `r` is what the fields owe: the record that they stand for, or
/// the failure `FailedToDeserializeData` where they are not those of one.
pub open spec fn is_interpreted(
    fields: MandatoryFields,
    optional: OptionalFields,
    r: Result<MetadataWrapper, FetchError>,
) -> bool {
    match r {
        Ok(record) => is_record(fields) && record@ == record_of(fields, optional@),
        Err(error) => !is_record(fields) && error == FetchError::FailedToDeserializeData,
    }
}

/// Whether the bytes `bytes` hold a record: they start with the tag of a
/// metadata account, the mandatory fields are complete and can be read as
/// those of a record, and the optional tail is sound.
pub open spec fn holds_record(bytes: Seq<u8>) -> bool {
    &&& mandatory_end(bytes) matches Some(end)
    &&& mandatory_reading(head_of(bytes, end)) matches Some(fields)
    &&& is_record(fields)
    &&& tail_is_sound(bytes, end)
}

/// The record that the bytes `bytes` hold, where they hold one: the
/// mandatory fields as they are read, and the optional fields of the tail.
pub open spec fn record_in(bytes: Seq<u8>) -> MetadataView {
    record_of(
        mandatory_reading(head_of(bytes, mandatory_end(bytes)->0))->0,
        tail_fields(bytes, mandatory_end(bytes)->0),
    )
}

/// Whether `r` is what decoding `bytes` owes: the record that they hold, or
/// the failure `FailedToDeserializeData` where they hold none.
pub open spec fn is_decoded(bytes: Seq<u8>, r: Result<MetadataWrapper, FetchError>) -> bool {
    match r {
        Ok(record) => holds_record(bytes) && record@ == record_in(bytes),
        Err(error) => !holds_record(bytes) && error == FetchError::FailedToDeserializeData,
    }
}

/// Reads four bytes as a number, least byte first.
fn read_u32(bytes: &[u8], at: usize) -> (r: u32)
    requires
        at + 4 <= bytes.len(),
    ensures
        r == le_u32(bytes@, at as int),
{
    let b0: u32 = bytes[at] as u32;
    let b1: u32 = bytes[at + 1] as u32;
    let b2: u32 = bytes[at + 2] as u32;
    let b3: u32 = bytes[at + 3] as u32;
    b0 + b1 * 0x100 + b2 * 0x1_0000 + b3 * 0x100_0000
}

/// Reads eight bytes as a number, least byte first.
fn read_u64(bytes: &[u8], at: usize) -> (r: u64)
    requires
        at + 8 <= bytes.len(),
    ensures
        r == le_u64(bytes@, at as int),
{
    let low: u64 = read_u32(bytes, at) as u64;
    let high: u64 = read_u32(bytes, at + 4) as u64;
    low + high * 0x1_0000_0000
}

/// Copies the key that starts at `at`.
fn read_key(bytes: &[u8], at: usize) -> (key: [u8; 32])
    requires
        at + 32 <= bytes.len(),
    ensures
        key@ == bytes@.subrange(at as int, at + 32),
{
    let mut key: [u8; 32] = [0u8; 32];
    let mut i: usize = 0;
    while i < 32
        invariant
            i <= 32,
            at + 32 <= bytes.len(),
            forall|j: int| 0 <= j < i ==> key@[j] == bytes@[at + j],
        decreases 32 - i,
    {
        key[i] = bytes[at + i];
        i = i + 1;
    }
    assert(key@ =~= bytes@.subrange(at as int, at + 32));
    key
}

/// Finds the end of the text that starts at `at`.
fn find_text_end(bytes: &[u8], at: usize) -> (r: Option<usize>)
    requires
        at <= bytes.len(),
    ensures
        match r {
            Some(end) => text_end(bytes@, at as int) == Some(end as int) && end <= bytes.len(),
            None => text_end(bytes@, at as int) is None,
        },
{
    if bytes.len() - at < 4 {
        return None;
    }
    let width: usize = read_u32(bytes, at) as usize;
    if bytes.len() - at - 4 < width {
        return None;
    }
    Some(at + 4 + width)
}

/// Finds the end of the creator list that starts at `at`.
fn find_creators_end(bytes: &[u8], at: usize) -> (r: Option<usize>)
    requires
        at <= bytes.len(),
    ensures
        match r {
            Some(end) => creators_end(bytes@, at as int) == Some(end as int) && end <= bytes.len(),
            None => creators_end(bytes@, at as int) is None,
        },
{
    if bytes.len() - at < 1 {
        return None;
    }
    let flag: u8 = bytes[at];
    if flag == 0 {
        return Some(at + 1);
    }
    if flag != 1 || bytes.len() - at < 5 {
        return None;
    }
    let count: usize = read_u32(bytes, at + 1) as usize;
    if (bytes.len() - at - 5) / CREATOR_LEN < count {
        return None;
    }
    Some(at + 5 + CREATOR_LEN * count)
}

/// Finds the end of the mandatory fields.
pub fn find_mandatory_end(bytes: &[u8]) -> (r: Option<usize>)
    ensures
        match r {
            Some(end) => mandatory_end(bytes@) == Some(end as int) && end <= bytes.len(),
            None => mandatory_end(bytes@) is None,
        },
{
    if bytes.len() < 1 + 2 * KEY_LEN || bytes[0] != METADATA_TAG {
        return None;
    }
    let name_end: usize = match find_text_end(bytes, 1 + 2 * KEY_LEN) {
        Some(end) => end,
        None => {
            return None;
        },
    };
    let symbol_end: usize = match find_text_end(bytes, name_end) {
        Some(end) => end,
        None => {
            return None;
        },
    };
    let uri_end: usize = match find_text_end(bytes, symbol_end) {
        Some(end) => end,
        None => {
            return None;
        },
    };
    if bytes.len() - uri_end < 2 {
        return None;
    }
    let list_end: usize = match find_creators_end(bytes, uri_end + 2) {
        Some(end) => end,
        None => {
            return None;
        },
    };
    if bytes.len() - list_end < 2 {
        return None;
    }
    Some(list_end + 2)
}

/// Tells how the optional field of `width` bytes stands whose flag is at
/// `at`.
fn find_slot(bytes: &[u8], at: usize, width: usize) -> (r: Slot)
    requires
        at <= bytes.len(),
        width <= 64,
    ensures
        r == slot(bytes@, at as int, width as int),
{
    if at == bytes.len() {
        Slot::Ended
    } else if bytes[at] == 0 {
        Slot::Absent
    } else if bytes[at] == 1 && bytes.len() - at - 1 >= width {
        Slot::Present
    } else {
        Slot::Ended
    }
}

/// Tells where the reading goes on after the optional field at `at`.
fn step_over(bytes: &[u8], at: usize, width: usize, found: &Slot) -> (r: usize)
    requires
        at <= bytes.len(),
        width <= 64,
        *found == slot(bytes@, at as int, width as int),
    ensures
        r == after(bytes@, at as int, width as int),
        r <= bytes.len(),
{
    match found {
        Slot::Present => at + 1 + width,
        Slot::Absent => at + 1,
        Slot::Ended => bytes.len(),
    }
}

/// Reads the optional fields of the tail that starts at `at`: each as far
/// as bytes suffice. It fails where a field that is present is not well
/// formed.
pub fn read_tail(bytes: &[u8], at: usize) -> (r: Option<OptionalFields>)
    ensures
        match r {
            Some(fields) => tail_reading(bytes@, at as int) == Some(fields@),
            None => tail_reading(bytes@, at as int) is None,
        },
{
    if at > bytes.len() {
        return Some(
            OptionalFields {
                edition_nonce: None,
                token_standard: None,
                collection: None,
                uses: None,
                collection_details: None,
            },
        );
    }
    let nonce = find_slot(bytes, at, NONCE_LEN);
    let edition_nonce = match nonce {
        Slot::Present => Some(bytes[at + 1]),
        _ => None,
    };
    let standard_at = step_over(bytes, at, NONCE_LEN, &nonce);
    let standard = find_slot(bytes, standard_at, STANDARD_LEN);
    let token_standard = match standard {
        Slot::Present => match TokenStandard::from_tag(bytes[standard_at + 1]) {
            Some(value) => Some(value),
            None => {
                return None;
            },
        },
        _ => None,
    };
    let collection_at = step_over(bytes, standard_at, STANDARD_LEN, &standard);
    let held = find_slot(bytes, collection_at, COLLECTION_LEN);
    let collection = match held {
        Slot::Present => {
            if bytes[collection_at + 1] > 1 {
                return None;
            }
            let key = read_key(bytes, collection_at + 2);
            Some(Collection { verified: bytes[collection_at + 1] == 1, key: key_to_base58(&key) })
        },
        _ => None,
    };
    let uses_at = step_over(bytes, collection_at, COLLECTION_LEN, &held);
    let used = find_slot(bytes, uses_at, USES_LEN);
    let uses = match used {
        Slot::Present => match UseMethod::from_tag(bytes[uses_at + 1]) {
            Some(use_method) => Some(
                Uses {
                    use_method,
                    remaining: read_u64(bytes, uses_at + 2),
                    total: read_u64(bytes, uses_at + 10),
                },
            ),
            None => {
                return None;
            },
        },
        _ => None,
    };
    let details_at = step_over(bytes, uses_at, USES_LEN, &used);
    let detailed = find_slot(bytes, details_at, DETAILS_LEN);
    let collection_details = match detailed {
        Slot::Present => {
            if bytes[details_at + 1] != 0 {
                return None;
            }
            Some(CollectionDetails::V1 { size: read_u64(bytes, details_at + 2) })
        },
        _ => None,
    };
    Some(OptionalFields { edition_nonce, token_standard, collection, uses, collection_details })
}

/// The creators that the stored list `raw` stands for.
fn creators_from(raw: &Vec<RawCreator>) -> (r: Vec<Creator>)
    ensures
        creator_views(r@) == creators_of(raw@),
{
    let mut creators: Vec<Creator> = Vec::new();
    let mut i: usize = 0;
    while i < raw.len()
        invariant
            i <= raw.len(),
            creators.len() == i,
            forall|j: int| 0 <= j < i ==> (#[trigger] creators[j])@ == creator_of(raw[j]),
        decreases raw.len() - i,
    {
        let stored = &raw[i];
        creators.push(
            Creator {
                address: key_to_base58(&stored.address),
                verified: stored.verified,
                share: stored.share,
            },
        );
        i = i + 1;
    }
    assert(creator_views(creators@) =~= creators_of(raw@));
    creators
}

/// Makes a record of the mandatory fields as they were read and of the
/// optional fields. The kind must be that of a metadata account; keys are
/// written in base-58 and texts are sanitised. The optional fields are
/// taken as they are: what is absent stays absent.
pub fn interpret(fields: MandatoryFields, optional: OptionalFields) -> (r: Result<
    MetadataWrapper,
    FetchError,
>)
    ensures
        is_interpreted(fields, optional, r),
{
    match Key::from_tag(fields.key) {
        Some(Key::MetadataV1) => {},
        _ => {
            return Err(FetchError::FailedToDeserializeData);
        },
    }
    let creators = match &fields.creators {
        Some(list) => Some(creators_from(list)),
        None => None,
    };
    Ok(
        MetadataWrapper {
            key: Key::MetadataV1,
            update_authority: key_to_base58(&fields.update_authority),
            mint: key_to_base58(&fields.mint),
            data: Data {
                name: sanitize(fields.name.as_str()),
                symbol: sanitize(fields.symbol.as_str()),
                uri: sanitize(fields.uri.as_str()),
                seller_fee_basis_points: fields.seller_fee_basis_points,
                creators,
            },
            primary_sale_happened: fields.primary_sale_happened,
            is_mutable: fields.is_mutable,
            edition_nonce: optional.edition_nonce,
            token_standard: optional.token_standard,
            collection: optional.collection,
            uses: optional.uses,
            collection_details: optional.collection_details,
        },
    )
}

/// Decodes the bytes of a metadata account into its record. The mandatory
/// fields are framed first and read from exactly their bytes; the optional
/// fields are then read from what follows, as far as bytes suffice.
pub fn decode(bytes: &[u8]) -> (r: Result<MetadataWrapper, FetchError>)
    ensures
        is_decoded(bytes@, r),
{
    let end: usize = match find_mandatory_end(bytes) {
        Some(end) => end,
        None => {
            return Err(FetchError::FailedToDeserializeData);
        },
    };
    let mut head: Vec<u8> = slice_to_vec(slice_subrange(bytes, 0, end));
    head.push(0);
    assert(head@ =~= head_of(bytes@, end as int));
    let fields = match read_mandatory(head.as_slice()) {
        Some(fields) => fields,
        None => {
            return Err(FetchError::FailedToDeserializeData);
        },
    };
    let optional = match read_tail(bytes, end) {
        Some(optional) => optional,
        None => {
            return Err(FetchError::FailedToDeserializeData);
        },
    };
    interpret(fields, optional)
}

/// Bytes shorter than the least length of the mandatory fields hold no
/// record.
pub proof fn short_bytes_hold_no_record(bytes: Seq<u8>)
    requires
        bytes.len() < MANDATORY_MIN_LEN,
    ensures
        mandatory_end(bytes) is None,
        !holds_record(bytes),
{
}

/// Decoding fails on every buffer in which the mandatory fields are not
/// complete, and so on every buffer shorter than their least length.
pub proof fn incomplete_mandatory_fields_fail(bytes: Seq<u8>, r: Result<MetadataWrapper, FetchError>)
    requires
        mandatory_end(bytes) is None || bytes.len() < MANDATORY_MIN_LEN,
        is_decoded(bytes, r),
    ensures
        r == Err::<MetadataWrapper, FetchError>(FetchError::FailedToDeserializeData),
{
    if bytes.len() < MANDATORY_MIN_LEN {
        short_bytes_hold_no_record(bytes);
    }
}

/// Bytes that start with another tag than that of a metadata account hold
/// no record: decoding them fails, whatever follows the tag.
pub proof fn other_tags_fail(bytes: Seq<u8>, r: Result<MetadataWrapper, FetchError>)
    requires
        bytes.len() > 0,
        bytes[0] != METADATA_TAG,
        is_decoded(bytes, r),
    ensures
        r == Err::<MetadataWrapper, FetchError>(FetchError::FailedToDeserializeData),
{
}

/// Fields of another kind than that of a metadata account make no record.
pub proof fn other_kinds_fail(
    fields: MandatoryFields,
    optional: OptionalFields,
    r: Result<MetadataWrapper, FetchError>,
)
    requires
        key_of_tag(fields.key) != Some(Key::MetadataV1),
        is_interpreted(fields, optional, r),
    ensures
        r == Err::<MetadataWrapper, FetchError>(FetchError::FailedToDeserializeData),
{
}

/// A text ends in the same place whatever is appended to the buffer.
pub proof fn text_end_ignores_what_follows(bytes: Seq<u8>, more: Seq<u8>, at: int)
    requires
        0 <= at,
        text_end(bytes, at) is Some,
    ensures
        text_end(bytes + more, at) == text_end(bytes, at),
{
    let longer = bytes + more;
    assert(longer[at] == bytes[at]);
    assert(longer[at + 1] == bytes[at + 1]);
    assert(longer[at + 2] == bytes[at + 2]);
    assert(longer[at + 3] == bytes[at + 3]);
}

/// A creator list ends in the same place whatever is appended to the
/// buffer.
pub proof fn creators_end_ignores_what_follows(bytes: Seq<u8>, more: Seq<u8>, at: int)
    requires
        0 <= at,
        creators_end(bytes, at) is Some,
    ensures
        creators_end(bytes + more, at) == creators_end(bytes, at),
{
    let longer = bytes + more;
    assert(longer[at] == bytes[at]);
    if bytes[at] == 1 {
        assert(longer[at + 1] == bytes[at + 1]);
        assert(longer[at + 2] == bytes[at + 2]);
        assert(longer[at + 3] == bytes[at + 3]);
        assert(longer[at + 4] == bytes[at + 4]);
    }
}

/// The mandatory fields end in the same place whatever follows them, and
/// the same bytes are handed to their reading: bytes behind the mandatory
/// fields have no part in them.
pub proof fn framing_ignores_what_follows(bytes: Seq<u8>, more: Seq<u8>)
    requires
        mandatory_end(bytes) is Some,
    ensures
        mandatory_end(bytes + more) == mandatory_end(bytes),
        head_of(bytes + more, mandatory_end(bytes)->0) == head_of(bytes, mandatory_end(bytes)->0),
{
    let longer = bytes + more;
    let start = 1 + 2 * KEY_LEN as int;
    assert(longer[0] == bytes[0]);
    text_end_ignores_what_follows(bytes, more, start);
    let name_end = text_end(bytes, start)->0;
    text_end_ignores_what_follows(bytes, more, name_end);
    let symbol_end = text_end(bytes, name_end)->0;
    text_end_ignores_what_follows(bytes, more, symbol_end);
    let uri_end = text_end(bytes, symbol_end)->0;
    creators_end_ignores_what_follows(bytes, more, uri_end + 2);
    let end = mandatory_end(bytes)->0;
    assert(longer.take(end) =~= bytes.take(end));
}

/// A tail with no byte in it holds no optional field.
pub proof fn empty_tail_holds_nothing(bytes: Seq<u8>, at: int)
    requires
        at >= bytes.len(),
    ensures
        tail_reading(bytes, at) == Some(no_fields()),
{
}

/// A tail of zero bytes only holds no optional field: zero fill is never
/// mistaken for a value.
pub proof fn zero_tail_holds_nothing(bytes: Seq<u8>, at: int)
    requires
        0 <= at,
        forall|i: int| at <= i < bytes.len() ==> bytes[i] == 0,
    ensures
        tail_reading(bytes, at) == Some(no_fields()),
{
}

/// A tail that starts with a flag that the layout does not know holds no
/// optional field, whatever follows the flag.
pub proof fn unknown_tail_holds_nothing(bytes: Seq<u8>, at: int)
    requires
        0 <= at < bytes.len(),
        bytes[at] > 1,
    ensures
        tail_reading(bytes, at) == Some(no_fields()),
{
}

/// A complete mandatory prefix decodes whatever follows it, as long as what
/// follows holds no optional field: nothing at all, zero fill, bytes behind
/// an unknown flag. The record has the mandatory fields that are read from
/// the prefix alone and no optional field.
pub proof fn mandatory_prefix_decodes(
    prefix: Seq<u8>,
    rest: Seq<u8>,
    r: Result<MetadataWrapper, FetchError>,
)
    requires
        mandatory_end(prefix) == Some(prefix.len() as int),
        mandatory_reading(head_of(prefix, prefix.len() as int)) is Some,
        is_record(mandatory_reading(head_of(prefix, prefix.len() as int))->0),
        tail_reading(prefix + rest, prefix.len() as int) == Some(no_fields()),
        is_decoded(prefix + rest, r),
    ensures
        r is Ok,
        r->Ok_0@ == record_of(
            mandatory_reading(head_of(prefix, prefix.len() as int))->0,
            no_fields(),
        ),
        r->Ok_0@.edition_nonce is None,
        r->Ok_0@.token_standard is None,
        r->Ok_0@.collection is None,
        r->Ok_0@.uses is None,
        r->Ok_0@.collection_details is None,
{
    framing_ignores_what_follows(prefix, rest);
}

/// How an optional field stands does not change with what is appended to
/// the buffer, once the field is settled within it.
pub proof fn slot_ignores_what_follows(bytes: Seq<u8>, more: Seq<u8>, at: int, width: int)
    requires
        0 <= at,
        0 <= width,
        slot(bytes, at, width) !is Ended,
    ensures
        slot(bytes + more, at, width) == slot(bytes, at, width),
        after(bytes + more, at, width) == after(bytes, at, width),
        after(bytes, at, width) <= bytes.len(),
{
    assert((bytes + more)[at] == bytes[at]);
}

/// Bytes behind the last optional field are ignored: once all five fields
/// are settled within a buffer, the tail is read alike whatever is
/// appended.
pub proof fn tail_ignores_what_follows(bytes: Seq<u8>, more: Seq<u8>, at: int)
    requires
        0 <= at,
        slot(bytes, details_at(bytes, at), DETAILS_LEN as int) !is Ended,
    ensures
        tail_is_sound(bytes + more, at) == tail_is_sound(bytes, at),
        tail_fields(bytes + more, at) == tail_fields(bytes, at),
        tail_reading(bytes + more, at) == tail_reading(bytes, at),
{
    let longer = bytes + more;
    let standard = standard_at(bytes, at);
    let collection = collection_at(bytes, at);
    let uses = uses_at(bytes, at);
    let details = details_at(bytes, at);
    slot_ignores_what_follows(bytes, more, at, NONCE_LEN as int);
    slot_ignores_what_follows(bytes, more, standard, STANDARD_LEN as int);
    slot_ignores_what_follows(bytes, more, collection, COLLECTION_LEN as int);
    slot_ignores_what_follows(bytes, more, uses, USES_LEN as int);
    slot_ignores_what_follows(bytes, more, details, DETAILS_LEN as int);
    assert forall|i: int| 0 <= i < bytes.len() implies longer[i] == bytes[i] by {}
    if slot(bytes, collection, COLLECTION_LEN as int) is Present {
        assert(longer.subrange(collection + 2, collection + 2 + KEY_LEN) =~= bytes.subrange(
            collection + 2,
            collection + 2 + KEY_LEN,
        ));
    }
    if slot(bytes, uses, USES_LEN as int) is Present {
        assert(le_u64(longer, uses + 2) == le_u64(bytes, uses + 2));
        assert(le_u64(longer, uses + 10) == le_u64(bytes, uses + 10));
    }
    if slot(bytes, details, DETAILS_LEN as int) is Present {
        assert(le_u64(longer, details + 2) == le_u64(bytes, details + 2));
    }
}

/// An account in which all fields are settled decodes alike whatever
/// follows it: decoding never fails merely because more bytes remain.
pub proof fn decoding_ignores_what_follows(bytes: Seq<u8>, more: Seq<u8>)
    requires
        mandatory_end(bytes) is Some,
        slot(bytes, details_at(bytes, mandatory_end(bytes)->0), DETAILS_LEN as int) !is Ended,
    ensures
        holds_record(bytes + more) == holds_record(bytes),
        record_in(bytes + more) == record_in(bytes),
{
    framing_ignores_what_follows(bytes, more);
    tail_ignores_what_follows(bytes, more, mandatory_end(bytes)->0);
}

/// A token standard that is present with a tag of no variant makes the
/// whole account fail.
pub proof fn unknown_token_standard_fails(bytes: Seq<u8>, r: Result<MetadataWrapper, FetchError>)
    requires
        mandatory_end(bytes) matches Some(end) && {
            let at = standard_at(bytes, end);
            slot(bytes, at, STANDARD_LEN as int) is Present && token_standard_of_tag(bytes[at + 1])
                is None
        },
        is_decoded(bytes, r),
    ensures
        r == Err::<MetadataWrapper, FetchError>(FetchError::FailedToDeserializeData),
{
}

/// A usage descriptor that is present with a method tag of no variant makes
/// the whole account fail.
pub proof fn unknown_use_method_fails(bytes: Seq<u8>, r: Result<MetadataWrapper, FetchError>)
    requires
        mandatory_end(bytes) matches Some(end) && {
            let at = uses_at(bytes, end);
            slot(bytes, at, USES_LEN as int) is Present && use_method_of_tag(bytes[at + 1]) is None
        },
        is_decoded(bytes, r),
    ensures
        r == Err::<MetadataWrapper, FetchError>(FetchError::FailedToDeserializeData),
{
}

/// Collection details that are present with a tag of no variant make the
/// whole account fail.
pub proof fn unknown_collection_details_fail(bytes: Seq<u8>, r: Result<MetadataWrapper, FetchError>)
    requires
        mandatory_end(bytes) matches Some(end) && {
            let at = details_at(bytes, end);
            slot(bytes, at, DETAILS_LEN as int) is Present && bytes[at + 1] != 0
        },
        is_decoded(bytes, r),
    ensures
        r == Err::<MetadataWrapper, FetchError>(FetchError::FailedToDeserializeData),
{
}

/// An optional field for which the bytes do not suffice is absent, and so
/// is every field after it; this alone never makes decoding fail.
pub proof fn cut_fields_are_absent(bytes: Seq<u8>, at: int)
    requires
        0 <= at,
    ensures
        slot(bytes, at, NONCE_LEN as int) is Ended ==> tail_reading(bytes, at) == Some(no_fields()),
        slot(bytes, standard_at(bytes, at), STANDARD_LEN as int) is Ended ==> {
            &&& tail_reading(bytes, at) is Some
            &&& tail_fields(bytes, at).token_standard is None
            &&& tail_fields(bytes, at).collection is None
            &&& tail_fields(bytes, at).uses is None
            &&& tail_fields(bytes, at).collection_details is None
        },
        slot(bytes, at, NONCE_LEN as int) !is Present ==> tail_fields(bytes, at).edition_nonce
            is None,
{
}

/// A record has exactly the optional fields that were read: one that is
/// absent stays absent and is never filled with a default.
pub proof fn absent_fields_stay_absent(fields: MandatoryFields, optional: OptionalView)
    ensures
        record_of(fields, optional).edition_nonce == optional.edition_nonce,
        record_of(fields, optional).token_standard == optional.token_standard,
        record_of(fields, optional).collection == optional.collection,
        record_of(fields, optional).uses == optional.uses,
        record_of(fields, optional).collection_details == optional.collection_details,
        record_of(fields, optional).data.creators is None <==> fields.creators is None,
{
}

/// The texts of a record carry no filling: name, symbol and URI neither
/// start nor end with padding.
pub proof fn record_texts_are_clean(fields: MandatoryFields, optional: OptionalView)
    ensures
        is_clean(record_of(fields, optional).data.name),
        is_clean(record_of(fields, optional).data.symbol),
        is_clean(record_of(fields, optional).data.uri),
{
    sanitized_is_clean(fields.name@);
    sanitized_is_clean(fields.symbol@);
    sanitized_is_clean(fields.uri@);
}

} // verus!
