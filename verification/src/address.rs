//! Network-validated destination addresses.
//!
//! A destination string is only usable once it has been validated against the
//! network the node is configured for; a mismatch is rejected rather than
//! silently accepted.

use vstd::prelude::*;

verus! {

/// The networks a node can be configured for.
#[derive(Clone, Copy, PartialEq, Eq, Structural, Debug)]
pub enum Network {
    Bitcoin,
    Testnet,
    Signet,
    Regtest,
}

/// A destination string validated against the network it is tagged with.
#[derive(Debug)]
pub struct Address {
    pub text: String,
    pub network: Network,
}

/// Why address resolution can fail.
#[derive(Clone, Copy, PartialEq, Eq, Structural, Debug)]
pub enum AddressError {
    NotValidForNetwork,
}

/// Whether `s` decodes as a destination address usable on network `n`.
/// The decision is a function of the characters of `s` and of `n` alone.
pub uninterp spec fn parses_for_network(s: Seq<char>, n: Network) -> bool;

/// Relies on `bitcoin`'s address parser (`FromStr` for
/// `bitcoin::Address<NetworkUnchecked>`) and on
/// `bitcoin::Address::<NetworkUnchecked>::is_valid_for_network`: together they
/// decide, from the characters of the string and the required network alone,
/// whether the string is a destination usable on that network.
#[verifier::external_body]
fn text_is_valid_for_network(s: &str, n: Network) -> (r: bool)
    ensures
        r == parses_for_network(s@, n),
{
    let required = match n {
        Network::Bitcoin => bitcoin::Network::Bitcoin,
        Network::Testnet => bitcoin::Network::Testnet,
        Network::Signet => bitcoin::Network::Signet,
        Network::Regtest => bitcoin::Network::Regtest,
    };
    match s.parse::<bitcoin::Address<bitcoin::address::NetworkUnchecked>>() {
        Ok(a) => a.is_valid_for_network(required),
        Err(_) => false,
    }
}

/// Validate `text` against the node's configured network. A string that does
/// not decode as an address usable on that network is rejected as a fatal
/// error, never silently accepted.
pub fn resolve_address(text: String, node_network: Network) -> (r: Result<Address, AddressError>)
    ensures
        r is Ok <==> parses_for_network(text@, node_network),
        r matches Ok(a) ==> a.text@ == text@ && a.network == node_network,
        r matches Err(e) ==> e == AddressError::NotValidForNetwork,
{
    if text_is_valid_for_network(text.as_str(), node_network) {
        Ok(Address { text, network: node_network })
    } else {
        Err(AddressError::NotValidForNetwork)
    }
}

} // verus!
