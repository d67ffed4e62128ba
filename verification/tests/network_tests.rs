use nft_fetch::network::Network;
use nft_fetch::state::FetchError;
use std::str::FromStr;

#[test]
fn each_name_selects_its_network() {
    assert_eq!(Network::named("Mainnet"), Network::Mainnet);
    assert_eq!(Network::named("Testnet"), Network::Testnet);
    assert_eq!(Network::named("Devnet"), Network::Devnet);
    assert_eq!(Network::named("Localnet"), Network::Localnet);
}

#[test]
fn unknown_name_selects_the_primary_network() {
    assert_eq!(Network::named("Betanet"), Network::Mainnet);
    assert_eq!(Network::named(""), Network::Mainnet);
    assert_eq!(Network::named("Testnet "), Network::Mainnet);
}

#[test]
fn names_are_case_sensitive() {
    assert_eq!(Network::named("testnet"), Network::Mainnet);
    assert_eq!(Network::named("DEVNET"), Network::Mainnet);
    assert_eq!(Network::named("localnet"), Network::Mainnet);
}

#[test]
fn from_str_never_fails() {
    assert_eq!(Network::from_str("Devnet"), Ok(Network::Devnet));
    assert_eq!(Network::from_str("Mainnet"), Ok(Network::Mainnet));
    assert_eq!(Network::from_str("nowhere"), Ok(Network::Mainnet));
    assert_eq!("Localnet".parse::<Network>(), Ok(Network::Localnet));
}

#[test]
fn primary_network_uses_the_configured_url() {
    let url = Network::Mainnet.get_network_url(Some(String::from("https://rpc.example.org")));
    assert_eq!(url, Ok(String::from("https://rpc.example.org")));
}

#[test]
fn other_networks_have_fixed_urls() {
    let configured = || Some(String::from("https://rpc.example.org"));
    assert_eq!(
        Network::Testnet.get_network_url(configured()),
        Ok(String::from("https://api.testnet.solana.com"))
    );
    assert_eq!(
        Network::Devnet.get_network_url(configured()),
        Ok(String::from("https://api.devnet.solana.com"))
    );
    assert_eq!(
        Network::Localnet.get_network_url(configured()),
        Ok(String::from("http://localhost:8899"))
    );
}

#[test]
fn missing_configuration_fails_for_every_network() {
    assert_eq!(Network::Mainnet.get_network_url(None), Err(FetchError::ConfigurationMissing));
    assert_eq!(Network::Testnet.get_network_url(None), Err(FetchError::ConfigurationMissing));
    assert_eq!(Network::Devnet.get_network_url(None), Err(FetchError::ConfigurationMissing));
    assert_eq!(Network::Localnet.get_network_url(None), Err(FetchError::ConfigurationMissing));
}
