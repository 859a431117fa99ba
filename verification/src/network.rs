//! The Filecoin network that addresses are written for.

use num_traits::FromPrimitive;
use vstd::prelude::*;

verus! {

/// The networks that an address in text may belong to.
#[derive(Clone, Copy, Debug, PartialEq, Eq, Structural)]
pub enum Network {
    Mainnet,
    Testnet,
}

/// The number of the network that is taken where none is configured: the
/// test network.
pub const DEFAULT_NETWORK: u8 = 1;

/// The network with the number `raw`.
pub open spec fn network_of(raw: u8) -> Option<Network> {
    if raw == 0 {
        Some(Network::Mainnet)
    } else if raw == 1 {
        Some(Network::Testnet)
    } else {
        None
    }
}

/// Reads a network from its number with `Network::from_u8` of
/// `fvm_shared`. Trusted: 0 is the main network, 1 the test network, and no
/// other number is a network.
#[verifier::external_body]
fn network_from_u8(raw: u8) -> (network: Option<Network>)
    ensures
        network == network_of(raw),
{
    match fvm_shared::address::Network::from_u8(raw) {
        Some(fvm_shared::address::Network::Mainnet) => Some(Network::Mainnet),
        Some(fvm_shared::address::Network::Testnet) => Some(Network::Testnet),
        None => None,
    }
}

/// Says which network to set from the number that the environment gives:
/// the test network where it gives none, and no network for a number that
/// stands for none.
pub fn fil_network(configured: Option<u8>) -> (network: Option<Network>)
    ensures
        network == network_of(
            match configured {
                Some(raw) => raw,
                None => DEFAULT_NETWORK,
            },
        ),
{
    match configured {
        Some(raw) => network_from_u8(raw),
        None => network_from_u8(DEFAULT_NETWORK),
    }
}

} // verus!
