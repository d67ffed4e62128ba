use mpl_token_metadata::pda::find_metadata_account;
use nft_fetch::address::MetadataAddress;
use nft_fetch::address::TokenIdentifier;
use nft_fetch::state::FetchError;
use solana_program::pubkey::Pubkey;

const PROGRAM_ID: &str = "metaqbxxUerdq28cj1RbAWkYQm3ybzjb6a8bt518x1s";

const WRAPPED_SOL: &str = "So11111111111111111111111111111111111111112";

#[test]
fn all_ones_spell_the_zero_key() {
    let identifier = TokenIdentifier::parse("11111111111111111111111111111111").unwrap();
    assert_eq!(identifier.to_bytes(), [0u8; 32]);
}

#[test]
fn program_id_is_read_as_its_key() {
    let identifier = TokenIdentifier::parse(PROGRAM_ID).unwrap();
    assert_eq!(identifier.to_bytes(), mpl_token_metadata::id().to_bytes());
}

#[test]
fn text_that_is_no_key_is_refused() {
    assert_eq!(TokenIdentifier::parse(""), Err(FetchError::InvalidIdentifier));
    assert_eq!(TokenIdentifier::parse("not a key"), Err(FetchError::InvalidIdentifier));
    assert_eq!(TokenIdentifier::parse("0OIl"), Err(FetchError::InvalidIdentifier));
    assert_eq!(TokenIdentifier::parse("3Kz...valid58"), Err(FetchError::InvalidIdentifier));
}

#[test]
fn key_of_wrong_length_is_refused() {
    assert_eq!(TokenIdentifier::parse("1111111111111111111111111111111"), Err(FetchError::InvalidIdentifier));
    assert_eq!(TokenIdentifier::parse("111111111111111111111111111111111"), Err(FetchError::InvalidIdentifier));
    let long = "1".repeat(45);
    assert_eq!(TokenIdentifier::parse(&long), Err(FetchError::InvalidIdentifier));
}

#[test]
fn identifier_is_written_in_base58() {
    assert_eq!(TokenIdentifier::from_bytes([0u8; 32]).to_text(), "11111111111111111111111111111111");
    let identifier = TokenIdentifier::parse(WRAPPED_SOL).unwrap();
    assert_eq!(identifier.to_text(), WRAPPED_SOL);
}

#[test]
fn address_is_written_in_base58() {
    let bytes = mpl_token_metadata::id().to_bytes();
    assert_eq!(MetadataAddress::from_bytes(bytes).to_text(), PROGRAM_ID);
    assert_eq!(MetadataAddress::from_bytes(bytes).to_bytes(), bytes);
}

#[test]
fn derived_address_is_the_metadata_account_of_the_mint() {
    let identifier = TokenIdentifier::parse(WRAPPED_SOL).unwrap();
    let address = nft_fetch::address::derive(&identifier).unwrap();
    let mint = Pubkey::new_from_array(identifier.to_bytes());
    let (expected, _bump) = find_metadata_account(&mint);
    assert_eq!(address.to_bytes(), expected.to_bytes());
    assert_ne!(address.to_bytes(), identifier.to_bytes());
}

#[test]
fn derivation_is_deterministic() {
    let first = TokenIdentifier::parse(PROGRAM_ID).unwrap();
    let second = TokenIdentifier::from_bytes(first.to_bytes());
    let a = nft_fetch::address::derive(&first);
    let b = nft_fetch::address::derive(&second);
    let c = nft_fetch::address::derive(&first);
    assert!(a.is_some());
    assert_eq!(a, b);
    assert_eq!(a, c);
}

#[test]
fn different_mints_have_different_addresses() {
    let a = nft_fetch::address::derive(&TokenIdentifier::from_bytes([1u8; 32])).unwrap();
    let b = nft_fetch::address::derive(&TokenIdentifier::from_bytes([2u8; 32])).unwrap();
    assert_ne!(a, b);
}

#[test]
fn derived_address_lies_off_the_curve() {
    let address = nft_fetch::address::derive(&TokenIdentifier::from_bytes([7u8; 32])).unwrap();
    assert!(!Pubkey::new_from_array(address.to_bytes()).is_on_curve());
}
