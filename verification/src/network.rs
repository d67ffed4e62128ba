//! The networks that a request can name, and the node of each.

use crate::state::FetchError;
use std::str::FromStr;
use std::string::ParseError;
use vstd::prelude::*;

verus! {

/// A network that a request can name.
#[derive(Clone, Copy, Debug, PartialEq, Eq, Structural)]
pub enum Network {
    Mainnet,
    Testnet,
    Devnet,
    Localnet,
}

/// The network that the name `name` selects. Names are case-sensitive, and a
/// name that belongs to no network selects the primary one.
pub open spec fn network_named(name: Seq<char>) -> Network {
    if name == "Testnet"@ {
        Network::Testnet
    } else if name == "Devnet"@ {
        Network::Devnet
    } else if name == "Localnet"@ {
        Network::Localnet
    } else {
        Network::Mainnet
    }
}

/// The base URL of the node of `network`, where `mainnet` is the configured
/// URL of the primary network.
pub open spec fn node_url(network: Network, mainnet: Seq<char>) -> Seq<char> {
    match network {
        Network::Mainnet => mainnet,
        Network::Testnet => "https://api.testnet.solana.com"@,
        Network::Devnet => "https://api.devnet.solana.com"@,
        Network::Localnet => "http://localhost:8899"@,
    }
}

/// Whether `r` is what resolving `network` owes under the configuration
/// `mainnet_url`: the URL of its node, or the failure `ConfigurationMissing`
/// where the URL of the primary network is not configured. The configuration
/// is required whichever network is named.
pub open spec fn is_resolved(
    network: Network,
    mainnet_url: Option<String>,
    r: Result<String, FetchError>,
) -> bool {
    match mainnet_url {
        Some(mainnet) => r is Ok && r->Ok_0@ == node_url(network, mainnet@),
        None => r == Err::<String, FetchError>(FetchError::ConfigurationMissing),
    }
}

/// Whether two texts are the same.
fn same_text(a: &str, b: &str) -> (r: bool)
    ensures
        r == (a@ == b@),
{
    let x = a.to_owned();
    let y = b.to_owned();
    x == y
}

impl Network {
    /// The network that `name` selects.
    pub fn named(name: &str) -> (r: Network)
        ensures
            r == network_named(name@),
    {
        if same_text(name, "Testnet") {
            Network::Testnet
        } else if same_text(name, "Devnet") {
            Network::Devnet
        } else if same_text(name, "Localnet") {
            Network::Localnet
        } else {
            Network::Mainnet
        }
    }

    /// The base URL of the node of the network, where `mainnet_url` is the
    /// configured URL of the primary network.
    pub fn get_network_url(self, mainnet_url: Option<String>) -> (r: Result<String, FetchError>)
        ensures
            is_resolved(self, mainnet_url, r),
    {
        match mainnet_url {
            None => Err(FetchError::ConfigurationMissing),
            Some(mainnet) => Ok(
                match self {
                    Network::Mainnet => mainnet,
                    Network::Testnet => "https://api.testnet.solana.com".to_owned(),
                    Network::Devnet => "https://api.devnet.solana.com".to_owned(),
                    Network::Localnet => "http://localhost:8899".to_owned(),
                },
            ),
        }
    }
}

impl FromStr for Network {
    type Err = ParseError;

    /// The network that `s` selects; it never fails.
    fn from_str(s: &str) -> (r: Result<Network, ParseError>)
        ensures
            r == Ok::<Network, ParseError>(network_named(s@)),
    {
        Ok(Network::named(s))
    }
}

} // verus!
