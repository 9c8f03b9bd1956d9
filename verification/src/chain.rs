//! Chain identifiers.

use vstd::prelude::*;
use crate::error::CooError;
use crate::text::{decimal_value, parse_decimal};

verus! {

/// A chain of the network, known by its 16-bit identifier. Every identifier is a
/// chain: one that has no name yet is kept as the number it is.
#[derive(Debug, Clone, Copy, PartialEq, Eq, PartialOrd, Ord, Hash, Structural)]
pub enum CooChain {
    Inner(u16),
}

/// The name that the network's chain list gives to an identifier; for one that
/// the list does not know, a text that holds the number.
pub uninterp spec fn chain_name_text(id: u16) -> Seq<char>;

/// The identifier that the network's chain list gives for a name; `None` for a
/// text that is no chain's name.
pub uninterp spec fn chain_named(name: Seq<char>) -> Option<u16>;

/// `Display` of `wormhole_sdk::Chain`, for the chain that `Chain::from` makes
/// of the identifier: the outcome is a function of the identifier alone, here
/// called `chain_name_text`.
#[verifier::external_body]
fn chain_display(id: u16) -> (name: String)
    ensures
        name@ == chain_name_text(id),
{
    wormhole_sdk::Chain::from(id).to_string()
}

/// `FromStr` of `wormhole_sdk::Chain`, with the chain handed back as the
/// identifier that `u16::from` gives it: the outcome is a function of the text
/// alone, here called `chain_named`.
#[verifier::external_body]
fn chain_from_name(name: &str) -> (id: Option<u16>)
    ensures
        id == chain_named(name@),
{
    match name.parse::<wormhole_sdk::Chain>() {
        Ok(chain) => Some(u16::from(chain)),
        Err(_) => None,
    }
}

/// The chain that a text stands for: the chain of that name, else the chain of
/// that number.
pub open spec fn chain_parsing(text: Seq<char>) -> Result<CooChain, CooError> {
    match chain_named(text) {
        Some(id) => Ok(CooChain::Inner(id)),
        None => match decimal_value(text, u16::MAX as nat) {
            Some(id) => Ok(CooChain::Inner(id as u16)),
            None => Err(CooError::InvalidChain),
        },
    }
}

impl CooChain {
    /// Reads a chain from what a person wrote: a chain's name, or its number.
    pub fn parse(s: &str) -> (r: Result<CooChain, CooError>)
        ensures
            r == chain_parsing(s@),
    {
        match chain_from_name(s) {
            Some(id) => Ok(CooChain::Inner(id)),
            None => match parse_decimal(s, 0xffff) {
                Some(id) => Ok(CooChain::Inner(id as u16)),
                None => Err(CooError::InvalidChain),
            },
        }
    }

    /// The chain's name.
    pub fn name(self) -> (name: String)
        ensures
            name@ == chain_name_text(self.spec_id()),
    {
        chain_display(self.id())
    }

    /// The chain that a name stands for.
    pub fn by_name(name: &str) -> (chain: Option<CooChain>)
        ensures
            chain == match chain_named(name@) {
                Some(id) => Some(CooChain::Inner(id)),
                None => None,
            },
    {
        match chain_from_name(name) {
            Some(id) => Some(CooChain::Inner(id)),
            None => None,
        }
    }

    /// The chain's identifier.
    pub open spec fn spec_id(self) -> u16 {
        self->Inner_0
    }

    /// The chain's identifier.
    #[verifier::when_used_as_spec(spec_id)]
    pub fn id(self) -> (id: u16)
        ensures
            id == self.spec_id(),
    {
        match self {
            CooChain::Inner(id) => id,
        }
    }
}

/// The public RPC address that is known for a chain: Ethereum, Avalanche,
/// Solana, Bsc and Polygon have one, no other chain has.
pub open spec fn rpc_endpoint_text(chain: u16) -> Option<Seq<char>> {
    if chain == 2 {
        Some("https://1rpc.io/eth"@)
    } else if chain == 6 {
        Some("https://1rpc.io/avax"@)
    } else if chain == 1 {
        Some("https://1rpc.io/sol"@)
    } else if chain == 4 {
        Some("https://1rpc.io/bnb"@)
    } else if chain == 5 {
        Some("https://1rpc.io/matic"@)
    } else {
        None
    }
}

/// The public RPC address that is known for a chain.
pub fn rpc_endpoint(chain: CooChain) -> (address: Option<&'static str>)
    ensures
        match address {
            Some(text) => rpc_endpoint_text(chain.spec_id()) == Some(text@),
            None => rpc_endpoint_text(chain.spec_id()) is None,
        },
{
    let id = chain.id();
    if id == 2 {
        Some("https://1rpc.io/eth")
    } else if id == 6 {
        Some("https://1rpc.io/avax")
    } else if id == 1 {
        Some("https://1rpc.io/sol")
    } else if id == 4 {
        Some("https://1rpc.io/bnb")
    } else if id == 5 {
        Some("https://1rpc.io/matic")
    } else {
        None
    }
}

/// Chains and identifiers are the same in number: the chain of an identifier
/// has that identifier, and a chain is the chain of its identifier.
pub proof fn lemma_chain_id_round_trip(id: u16, chain: CooChain)
    ensures
        CooChain::Inner(id).spec_id() == id,
        CooChain::Inner(chain.spec_id()) == chain,
{
}

impl From<u16> for CooChain {
    fn from(c: u16) -> (chain: CooChain) {
        CooChain::Inner(c)
    }
}

impl vstd::std_specs::convert::FromSpecImpl<u16> for CooChain {
    open spec fn obeys_from_spec() -> bool {
        true
    }

    open spec fn from_spec(c: u16) -> CooChain {
        CooChain::Inner(c)
    }
}

impl From<CooChain> for u16 {
    fn from(c: CooChain) -> (id: u16) {
        c.id()
    }
}

impl vstd::std_specs::convert::FromSpecImpl<CooChain> for u16 {
    open spec fn obeys_from_spec() -> bool {
        true
    }

    open spec fn from_spec(c: CooChain) -> u16 {
        c.spec_id()
    }
}

} // verus!
