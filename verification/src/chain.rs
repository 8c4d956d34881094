//! The chains a node may serve.

use crate::text::{ascii_lowercase, lowercase, str_eq, to_lowercase};
use vstd::prelude::*;
use vstd::utf8::is_ascii_chars;

verus! {

/// A family of EVM chains.
#[derive(Debug, Clone, Copy, PartialEq, Eq, Structural)]
pub enum ChainType {
    Optimism,
    Arbitrum,
    Ethereum,
    BSC,
    Base,
    Unknown,
}

/// The chain with that identifier.
pub open spec fn chain_of_id(chain_id: u64) -> ChainType {
    if chain_id == 1 {
        ChainType::Ethereum
    } else if chain_id == 10 || chain_id == 11155420 {
        ChainType::Optimism
    } else if chain_id == 42161 || chain_id == 421614 {
        ChainType::Arbitrum
    } else if chain_id == 8453 || chain_id == 84532 {
        ChainType::Base
    } else if chain_id == 56 || chain_id == 97 {
        ChainType::BSC
    } else {
        ChainType::Unknown
    }
}

/// The chain that a lower-case name stands for.
pub open spec fn chain_of_name(name: Seq<char>) -> ChainType {
    if name == "optimism"@ || name == "op"@ {
        ChainType::Optimism
    } else if name == "arbitrum"@ || name == "arb"@ {
        ChainType::Arbitrum
    } else if name == "ethereum"@ || name == "eth"@ || name == "geth"@ {
        ChainType::Ethereum
    } else if name == "bsc"@ || name == "binance"@ || name == "bnb"@ {
        ChainType::BSC
    } else {
        ChainType::Unknown
    }
}

/// How a chain is called in reports.
pub open spec fn chain_name(chain: ChainType) -> Seq<char> {
    match chain {
        ChainType::Optimism => "Optimism"@,
        ChainType::Arbitrum => "Arbitrum"@,
        ChainType::Ethereum => "Ethereum"@,
        ChainType::BSC => "BNB Smart Chain (BSC)"@,
        ChainType::Base => "Base"@,
        ChainType::Unknown => "Unknown"@,
    }
}

/// The address of a contract that the chain is known to have.
pub open spec fn contract_of(chain: ChainType) -> Seq<char> {
    match chain {
        ChainType::Optimism => "0x4200000000000000000000000000000000000006"@,
        ChainType::Arbitrum => "0x912CE59144191C1204E64559FE8253a0e49E6548"@,
        ChainType::Ethereum => "0xA0b86991c6218b36c1d19D4a2e9Eb0cE3606eB48"@,
        ChainType::BSC => "0x55d398326f99059fF775485246999027E3197955"@,
        ChainType::Base => "0x4200000000000000000000000000000000000006"@,
        ChainType::Unknown => "0x4200000000000000000000000000000000000006"@,
    }
}

impl ChainType {
    /// The chain with that identifier.
    pub fn from_chain_id(chain_id: u64) -> (r: ChainType)
        ensures
            r == chain_of_id(chain_id),
    {
        match chain_id {
            1 => ChainType::Ethereum,
            10 | 11155420 => ChainType::Optimism,
            42161 | 421614 => ChainType::Arbitrum,
            8453 | 84532 => ChainType::Base,
            56 | 97 => ChainType::BSC,
            _ => ChainType::Unknown,
        }
    }

    /// The chain that a lower-case name stands for.
    pub fn from_lowercase(name: &str) -> (r: ChainType)
        ensures
            r == chain_of_name(name@),
    {
        if str_eq(name, "optimism") || str_eq(name, "op") {
            ChainType::Optimism
        } else if str_eq(name, "arbitrum") || str_eq(name, "arb") {
            ChainType::Arbitrum
        } else if str_eq(name, "ethereum") || str_eq(name, "eth") || str_eq(name, "geth") {
            ChainType::Ethereum
        } else if str_eq(name, "bsc") || str_eq(name, "binance") || str_eq(name, "bnb") {
            ChainType::BSC
        } else {
            ChainType::Unknown
        }
    }

    /// The chain that a name stands for, in whatever case it is written.
    pub fn from_string(s: &str) -> (r: ChainType)
        ensures
            r == chain_of_name(lowercase(s@)),
            is_ascii_chars(s@) ==> r == chain_of_name(ascii_lowercase(s@)),
    {
        ChainType::from_lowercase(to_lowercase(s).as_str())
    }

    /// How the chain is called in reports.
    pub fn name(&self) -> (r: &str)
        ensures
            r@ == chain_name(*self),
    {
        match self {
            ChainType::Optimism => "Optimism",
            ChainType::Arbitrum => "Arbitrum",
            ChainType::Ethereum => "Ethereum",
            ChainType::BSC => "BNB Smart Chain (BSC)",
            ChainType::Base => "Base",
            ChainType::Unknown => "Unknown",
        }
    }

    /// The address of a contract to try calls on.
    pub fn sample_contract(&self) -> (r: &str)
        ensures
            r@ == contract_of(*self),
    {
        match self {
            // OP token
            ChainType::Optimism => "0x4200000000000000000000000000000000000006",
            // ARB token
            ChainType::Arbitrum => "0x912CE59144191C1204E64559FE8253a0e49E6548",
            // USDC
            ChainType::Ethereum => "0xA0b86991c6218b36c1d19D4a2e9Eb0cE3606eB48",
            // USDT
            ChainType::BSC => "0x55d398326f99059fF775485246999027E3197955",
            // WETH, a system contract
            ChainType::Base => "0x4200000000000000000000000000000000000006",
            // the system contract as a fallback
            ChainType::Unknown => "0x4200000000000000000000000000000000000006",
        }
    }
}

} // verus!
