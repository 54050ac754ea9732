//! The networks a package can live on, and the names they go by.

use crate::text::same_text;
use vstd::prelude::*;
use vstd::string::*;

verus! {

/// A public network.
#[derive(Debug, Clone, Copy, PartialEq, Eq)]
pub enum Network {
    Mainnet,
    Testnet,
}

impl Network {
    /// The name the network goes by in requests and records.
    pub open spec fn spec_name(self) -> Seq<char> {
        match self {
            Network::Mainnet => "mainnet"@,
            Network::Testnet => "testnet"@,
        }
    }

    /// The name the network goes by in requests and records.
    pub fn name(&self) -> (r: &'static str)
        ensures
            r@ == self.spec_name(),
    {
        match self {
            Network::Mainnet => "mainnet",
            Network::Testnet => "testnet",
        }
    }

    /// The network that goes by `name`, if it is one of the two.
    pub fn from_name(name: &str) -> (r: Option<Network>)
        ensures
            r == network_named(name@),
    {
        if same_text(name, "mainnet") {
            Some(Network::Mainnet)
        } else if same_text(name, "testnet") {
            Some(Network::Testnet)
        } else {
            None
        }
    }
}

/// The network that goes by `name`.
pub open spec fn network_named(name: Seq<char>) -> Option<Network> {
    if name == "mainnet"@ {
        Some(Network::Mainnet)
    } else if name == "testnet"@ {
        Some(Network::Testnet)
    } else {
        None
    }
}

/// The name under which a request may give its network: `mainnet`, `testnet`
/// or `localnet`; anything else is not a network.
pub open spec fn resolved_network(network: Seq<char>) -> Option<Seq<char>> {
    if network == "mainnet"@ || network == "testnet"@ || network == "localnet"@ {
        Some(network)
    } else {
        None
    }
}

/// Accepts the network name of a request, or refuses it.
pub fn resolve_network(network: &String) -> (r: Option<String>)
    ensures
        match r {
            Some(name) => resolved_network(network@) == Some(name@),
            None => resolved_network(network@) is None,
        },
{
    let net = network.as_str();
    if same_text(net, "mainnet") {
        Some(String::from_str("mainnet"))
    } else if same_text(net, "testnet") {
        Some(String::from_str("testnet"))
    } else if same_text(net, "localnet") {
        Some(String::from_str("localnet"))
    } else {
        None
    }
}

/// The chain identifier that transactions for `network` carry: `casper` on
/// mainnet, `casper-test` everywhere else.
pub open spec fn chain_name_of(network: Seq<char>) -> Seq<char> {
    if network == "mainnet"@ {
        "casper"@
    } else {
        "casper-test"@
    }
}

/// The chain identifier that transactions for `network` carry.
pub fn chain_name(network: &str) -> (r: &'static str)
    ensures
        r@ == chain_name_of(network@),
{
    if same_text(network, "mainnet") {
        "casper"
    } else {
        "casper-test"
    }
}

} // verus!
