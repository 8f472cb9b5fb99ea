//! Everything that can stop configuration or the connection to the node.

use vstd::prelude::*;
use vstd::string::*;

use crate::chain::Chain;

verus! {

/// Which platform directory could not be found.
#[derive(Clone, Copy, Debug, PartialEq, Eq, Structural)]
pub enum DirectoryKind {
    Home,
    Data,
}

/// The classes of failure: bad usage, a configuration to correct, a node
/// that could not be reached or used, or a node that is too old.
#[derive(Clone, Copy, Debug, PartialEq, Eq, Structural)]
pub enum ErrorKind {
    Usage,
    Configuration,
    Connection,
    Version,
}

#[derive(Clone, Debug)]
pub enum OrdError {
    /// More than one of the chain choices was given.
    ConflictingChains,
    /// No override was given and the platform directory could not be found.
    MissingDirectory { kind: DirectoryKind },
    /// The cookie file could not be located, because a platform directory is missing.
    CookieFilePath { kind: DirectoryKind },
    /// The client for the node could not be built.
    Connection { rpc_url: String, cookie_file: String, cause: String },
    /// A call to the node failed, loading the wallet included.
    Rpc { cause: String },
    /// The node answered with a document of an unexpected shape.
    UnexpectedResponse { call: String },
    /// The node runs on a chain that is none of ours.
    UnknownChain { name: String },
    /// The node runs on another chain than the one selected here.
    ChainMismatch { rpc: Chain, ord: Chain },
    /// The node is older than the oldest supported version.
    Version { required: String, actual: String },
    /// The wallet's descriptors are not those of a wallet made by this tool.
    UnexpectedDescriptors { wallet: String },
}

impl DirectoryKind {
    pub open spec fn spec_name(self) -> Seq<char> {
        match self {
            DirectoryKind::Home => "home"@,
            DirectoryKind::Data => "data"@,
        }
    }

    pub fn name(self) -> (r: &'static str)
        ensures
            r@ == self.spec_name(),
    {
        match self {
            DirectoryKind::Home => "home",
            DirectoryKind::Data => "data",
        }
    }
}

impl OrdError {
    pub open spec fn spec_kind(self) -> ErrorKind {
        match self {
            OrdError::ConflictingChains => ErrorKind::Usage,
            OrdError::Connection { .. } => ErrorKind::Connection,
            OrdError::Rpc { .. } => ErrorKind::Connection,
            OrdError::Version { .. } => ErrorKind::Version,
            _ => ErrorKind::Configuration,
        }
    }

    /// The class of this failure.
    pub fn kind(&self) -> (r: ErrorKind)
        ensures
            r == self.spec_kind(),
    {
        match self {
            OrdError::ConflictingChains => ErrorKind::Usage,
            OrdError::Connection { .. } => ErrorKind::Connection,
            OrdError::Rpc { .. } => ErrorKind::Connection,
            OrdError::Version { .. } => ErrorKind::Version,
            _ => ErrorKind::Configuration,
        }
    }

    /// The human-readable text of the error.
    pub open spec fn spec_message(self) -> Seq<char> {
        match self {
            OrdError::ConflictingChains => "only one of --chain, --signet, --regtest and --testnet may be given"@,
            OrdError::MissingDirectory { kind } => "failed to retrieve "@ + kind.spec_name() + " dir"@,
            OrdError::CookieFilePath { kind } => "failed to get cookie file path: failed to retrieve "@
                + kind.spec_name() + " dir"@,
            OrdError::Connection { rpc_url, cookie_file, cause } => "failed to connect to Dogecoin Core RPC at "@
                + rpc_url@ + " using cookie file "@ + cookie_file@ + ": "@ + cause@,
            OrdError::Rpc { cause } => cause@,
            OrdError::UnexpectedResponse { call } => "unexpected response to "@ + call@,
            OrdError::UnknownChain { name } => "Dogecoin RPC server on unknown chain: "@ + name@,
            OrdError::ChainMismatch { rpc, ord } => "Dogecoin RPC server is on "@ + rpc.spec_name()
                + " but ord is on "@ + ord.spec_name(),
            OrdError::Version { required, actual } => "Dogecoin Core "@ + required@
                + " or newer required, current version is "@ + actual@,
            OrdError::UnexpectedDescriptors { wallet } => "wallet \""@ + wallet@
                + "\" contains unexpected output descriptors, and does not appear to be an `ord` wallet, create a new wallet with `ord wallet create`"@,
        }
    }

    pub fn message(&self) -> (r: String)
        ensures
            r@ == self.spec_message(),
    {
        match self {
            OrdError::ConflictingChains => String::from_str(
                "only one of --chain, --signet, --regtest and --testnet may be given",
            ),
            OrdError::MissingDirectory { kind } => {
                let mut r = String::from_str("failed to retrieve ");
                r.append(kind.name());
                r.append(" dir");
                r
            },
            OrdError::CookieFilePath { kind } => {
                let mut r = String::from_str("failed to get cookie file path: failed to retrieve ");
                r.append(kind.name());
                r.append(" dir");
                r
            },
            OrdError::Connection { rpc_url, cookie_file, cause } => {
                let mut r = String::from_str("failed to connect to Dogecoin Core RPC at ");
                r.append(rpc_url.as_str());
                r.append(" using cookie file ");
                r.append(cookie_file.as_str());
                r.append(": ");
                r.append(cause.as_str());
                r
            },
            OrdError::Rpc { cause } => cause.clone(),
            OrdError::UnexpectedResponse { call } => {
                let mut r = String::from_str("unexpected response to ");
                r.append(call.as_str());
                r
            },
            OrdError::UnknownChain { name } => {
                let mut r = String::from_str("Dogecoin RPC server on unknown chain: ");
                r.append(name.as_str());
                r
            },
            OrdError::ChainMismatch { rpc, ord } => {
                let mut r = String::from_str("Dogecoin RPC server is on ");
                let rpc_name = rpc.name();
                let ord_name = ord.name();
                r.append(rpc_name.as_str());
                r.append(" but ord is on ");
                r.append(ord_name.as_str());
                r
            },
            OrdError::Version { required, actual } => {
                let mut r = String::from_str("Dogecoin Core ");
                r.append(required.as_str());
                r.append(" or newer required, current version is ");
                r.append(actual.as_str());
                r
            },
            OrdError::UnexpectedDescriptors { wallet } => {
                let mut r = String::from_str("wallet \"");
                r.append(wallet.as_str());
                r.append(
                    "\" contains unexpected output descriptors, and does not appear to be an `ord` wallet, create a new wallet with `ord wallet create`",
                );
                r
            },
        }
    }
}

} // verus!
