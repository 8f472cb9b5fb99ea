//! The chains a node can run on, and what each one fixes: its RPC port, the
//! height below which no inscription exists, and its directory segment.

use vstd::prelude::*;
use vstd::string::*;

use crate::text::{join_path, path_join, str_eq};

verus! {

#[derive(Clone, Copy, Debug, PartialEq, Eq, Structural)]
pub enum Chain {
    Mainnet,
    Testnet,
    Signet,
    Regtest,
}

impl Chain {
    pub open spec fn spec_default_rpc_port(self) -> u16 {
        match self {
            Chain::Mainnet => 22555,
            Chain::Testnet => 44555,
            Chain::Signet => 38332,
            Chain::Regtest => 18332,
        }
    }

    pub open spec fn spec_first_inscription_height(self) -> u64 {
        match self {
            Chain::Mainnet => 4609723,
            Chain::Testnet => 4250000,
            Chain::Signet => 112402,
            Chain::Regtest => 0,
        }
    }

    /// The directory segment that keeps this chain's files apart; mainnet has none.
    pub open spec fn spec_segment(self) -> Option<Seq<char>> {
        match self {
            Chain::Mainnet => None,
            Chain::Testnet => Some("testnet3"@),
            Chain::Signet => Some("signet"@),
            Chain::Regtest => Some("regtest"@),
        }
    }

    /// A base directory scoped to this chain.
    pub open spec fn spec_join_with_data_dir(self, base: Seq<char>) -> Seq<char> {
        match self.spec_segment() {
            None => base,
            Some(segment) => path_join(base, segment),
        }
    }

    /// The chain's name in messages.
    pub open spec fn spec_name(self) -> Seq<char> {
        match self {
            Chain::Mainnet => "mainnet"@,
            Chain::Testnet => "testnet"@,
            Chain::Signet => "signet"@,
            Chain::Regtest => "regtest"@,
        }
    }

    /// The chain a node names in its blockchain info, if it is one of ours.
    pub open spec fn spec_from_rpc_name(name: Seq<char>) -> Option<Chain> {
        if name == "main"@ {
            Some(Chain::Mainnet)
        } else if name == "test"@ {
            Some(Chain::Testnet)
        } else if name == "regtest"@ {
            Some(Chain::Regtest)
        } else if name == "signet"@ {
            Some(Chain::Signet)
        } else {
            None
        }
    }

    pub fn default_rpc_port(self) -> (r: u16)
        ensures
            r == self.spec_default_rpc_port(),
    {
        match self {
            Chain::Mainnet => 22555,
            Chain::Testnet => 44555,
            Chain::Signet => 38332,
            Chain::Regtest => 18332,
        }
    }

    pub fn first_inscription_height(self) -> (r: u64)
        ensures
            r == self.spec_first_inscription_height(),
    {
        match self {
            Chain::Mainnet => 4609723,
            Chain::Testnet => 4250000,
            Chain::Signet => 112402,
            Chain::Regtest => 0,
        }
    }

    pub fn join_with_data_dir(self, base: &str) -> (r: String)
        ensures
            r@ == self.spec_join_with_data_dir(base@),
    {
        match self {
            Chain::Mainnet => String::from_str(base),
            Chain::Testnet => join_path(base, "testnet3"),
            Chain::Signet => join_path(base, "signet"),
            Chain::Regtest => join_path(base, "regtest"),
        }
    }

    pub fn name(self) -> (r: String)
        ensures
            r@ == self.spec_name(),
    {
        match self {
            Chain::Mainnet => String::from_str("mainnet"),
            Chain::Testnet => String::from_str("testnet"),
            Chain::Signet => String::from_str("signet"),
            Chain::Regtest => String::from_str("regtest"),
        }
    }

    pub fn from_rpc_name(name: &str) -> (r: Option<Chain>)
        ensures
            r == Chain::spec_from_rpc_name(name@),
    {
        if str_eq(name, "main") {
            Some(Chain::Mainnet)
        } else if str_eq(name, "test") {
            Some(Chain::Testnet)
        } else if str_eq(name, "regtest") {
            Some(Chain::Regtest)
        } else if str_eq(name, "signet") {
            Some(Chain::Signet)
        } else {
            None
        }
    }
}

impl Default for Chain {
    fn default() -> (r: Chain)
        ensures
            r == Chain::Mainnet,
    {
        Chain::Mainnet
    }
}

} // verus!
