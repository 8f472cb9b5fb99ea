//! The resolved command-line options, and the settings derived from them:
//! the chain, the RPC endpoint, the cookie file, the data directory and the
//! configuration file.

use vstd::prelude::*;
use vstd::string::*;

use crate::chain::Chain;
use crate::error::{DirectoryKind, OrdError};
use crate::text::{decimal, join_path, path_join, push_decimal};

verus! {

/// The platform family, which decides where node data lives by default.
#[derive(Clone, Copy, Debug, PartialEq, Eq, Structural)]
pub enum Platform {
    /// The node keeps its data in a hidden folder of the home directory.
    Linux,
    /// The node keeps its data in a folder of the user's data directory.
    Other,
}

impl Platform {
    /// The platform directory that holds the node's folder.
    pub open spec fn spec_directory_kind(self) -> DirectoryKind {
        match self {
            Platform::Linux => DirectoryKind::Home,
            Platform::Other => DirectoryKind::Data,
        }
    }

    /// The node's folder inside that platform directory.
    pub open spec fn spec_node_folder(self) -> Seq<char> {
        match self {
            Platform::Linux => ".dogecoin"@,
            Platform::Other => "Dogecoin"@,
        }
    }

    pub fn directory_kind(self) -> (r: DirectoryKind)
        ensures
            r == self.spec_directory_kind(),
    {
        match self {
            Platform::Linux => DirectoryKind::Home,
            Platform::Other => DirectoryKind::Data,
        }
    }

    pub fn node_folder(self) -> (r: &'static str)
        ensures
            r@ == self.spec_node_folder(),
    {
        match self {
            Platform::Linux => ".dogecoin",
            Platform::Other => "Dogecoin",
        }
    }
}

/// The name of the node's cookie file.
pub open spec fn spec_cookie_name() -> Seq<char> {
    ".cookie"@
}

/// The folder of this tool inside the user's data directory.
pub open spec fn spec_ord_folder() -> Seq<char> {
    "ord"@
}

/// The configuration file looked for in a configuration directory.
pub open spec fn spec_config_name() -> Seq<char> {
    "ord.yaml"@
}

/// The wallet used where none is named.
pub open spec fn spec_default_wallet() -> Seq<char> {
    "ord"@
}

/// The cookie file inside a node data directory, for a chain.
pub open spec fn cookie_in(chain: Chain, node_dir: Seq<char>) -> Seq<char> {
    path_join(chain.spec_join_with_data_dir(node_dir), spec_cookie_name())
}

/// The view of an optional string.
pub open spec fn opt_view(o: Option<String>) -> Option<Seq<char>> {
    match o {
        Some(s) => Some(s@),
        None => None,
    }
}

pub open spec fn bool_count(b: bool) -> nat {
    if b {
        1
    } else {
        0
    }
}

#[derive(Clone, Debug)]
pub struct Options {
    pub dogecoin_data_dir: Option<String>,
    pub chain_argument: Chain,
    pub config: Option<String>,
    pub config_dir: Option<String>,
    pub cookie_file: Option<String>,
    pub data_dir: Option<String>,
    pub first_inscription_height: Option<u64>,
    pub height_limit: Option<u64>,
    pub index: Option<String>,
    pub index_sats: bool,
    pub regtest: bool,
    pub rpc_url: Option<String>,
    pub signet: bool,
    pub testnet: bool,
    pub wallet: String,
}

impl Options {
    /// The chain by precedence: signet, regtest, testnet, then `chain_argument`.
    pub open spec fn spec_chain(self) -> Chain {
        if self.signet {
            Chain::Signet
        } else if self.regtest {
            Chain::Regtest
        } else if self.testnet {
            Chain::Testnet
        } else {
            self.chain_argument
        }
    }

    /// How many chain choices were made: each shortcut, and a `chain_argument`
    /// other than the default.
    pub open spec fn chain_choices(self) -> nat {
        bool_count(self.signet) + bool_count(self.regtest) + bool_count(self.testnet)
            + bool_count(self.chain_argument != Chain::Mainnet)
    }

    /// The chain, or `None` where choices conflict.
    pub open spec fn spec_resolved_chain(self) -> Option<Chain> {
        if self.chain_choices() > 1 {
            None
        } else {
            Some(self.spec_chain())
        }
    }

    pub open spec fn spec_first_inscription_height(self, integration_test: bool) -> u64 {
        if self.spec_chain() == Chain::Regtest {
            match self.first_inscription_height {
                Some(h) => h,
                None => 0,
            }
        } else if integration_test {
            0
        } else {
            match self.first_inscription_height {
                Some(h) => h,
                None => self.spec_chain().spec_first_inscription_height(),
            }
        }
    }

    /// The RPC endpoint: the override, or the local node's wallet endpoint on
    /// the chain's default port.
    pub open spec fn spec_rpc_url(self) -> Seq<char> {
        match self.rpc_url {
            Some(url) => url@,
            None => "127.0.0.1:"@ + decimal(self.spec_chain().spec_default_rpc_port() as nat)
                + "/wallet/"@ + self.wallet@,
        }
    }

    /// The cookie file, given the platform and the platform directory found
    /// (home directory on Linux, data directory elsewhere); `None` where it is needed and missing.
    pub open spec fn spec_cookie_file(self, platform: Platform, platform_dir: Option<Seq<char>>) -> Option<Seq<char>> {
        match self.cookie_file {
            Some(path) => Some(path@),
            None => match self.dogecoin_data_dir {
                Some(dir) => Some(cookie_in(self.spec_chain(), dir@)),
                None => match platform_dir {
                    Some(dir) => Some(
                        cookie_in(self.spec_chain(), path_join(dir, platform.spec_node_folder())),
                    ),
                    None => None,
                },
            },
        }
    }

    /// The index data directory, given the platform data directory found.
    pub open spec fn spec_data_dir(self, platform_data_dir: Option<Seq<char>>) -> Option<Seq<char>> {
        match self.data_dir {
            Some(base) => Some(self.spec_chain().spec_join_with_data_dir(base@)),
            None => match platform_data_dir {
                Some(dir) => Some(
                    self.spec_chain().spec_join_with_data_dir(path_join(dir, spec_ord_folder())),
                ),
                None => None,
            },
        }
    }

    /// The configuration file looked for in the configuration directory.
    pub open spec fn spec_config_dir_file(self) -> Option<Seq<char>> {
        match self.config_dir {
            Some(dir) => Some(path_join(dir@, spec_config_name())),
            None => None,
        }
    }

    /// The one configuration file to read, if any: the explicit file, else the
    /// directory's file where it exists.
    pub open spec fn spec_config_source(self, dir_file_exists: bool) -> Option<Seq<char>> {
        match self.config {
            Some(path) => Some(path@),
            None => if dir_file_exists {
                self.spec_config_dir_file()
            } else {
                None
            },
        }
    }

    /// The chain by precedence of the shortcuts over `chain_argument`.
    pub fn chain(&self) -> (r: Chain)
        ensures
            r == self.spec_chain(),
    {
        if self.signet {
            Chain::Signet
        } else if self.regtest {
            Chain::Regtest
        } else if self.testnet {
            Chain::Testnet
        } else {
            self.chain_argument
        }
    }

    /// The chain, refusing options that make more than one chain choice.
    pub fn resolve_chain(&self) -> (r: Result<Chain, OrdError>)
        ensures
            match r {
                Ok(c) => self.spec_resolved_chain() == Some(c),
                Err(e) => self.spec_resolved_chain() is None && e is ConflictingChains,
            },
    {
        let mut n: u8 = 0;
        if self.signet {
            n = n + 1;
        }
        if self.regtest {
            n = n + 1;
        }
        if self.testnet {
            n = n + 1;
        }
        if self.chain_argument != Chain::Mainnet {
            n = n + 1;
        }
        if n > 1 {
            Err(OrdError::ConflictingChains)
        } else {
            Ok(self.chain())
        }
    }

    /// The height below which no inscription is looked for. On regtest, and
    /// under integration tests, indexing starts from the genesis block unless
    /// told otherwise.
    pub fn first_inscription_height(&self, integration_test: bool) -> (r: u64)
        ensures
            r == self.spec_first_inscription_height(integration_test),
    {
        if self.chain() == Chain::Regtest {
            match self.first_inscription_height {
                Some(h) => h,
                None => 0,
            }
        } else if integration_test {
            0
        } else {
            match self.first_inscription_height {
                Some(h) => h,
                None => self.chain().first_inscription_height(),
            }
        }
    }

    pub fn rpc_url(&self) -> (r: String)
        ensures
            r@ == self.spec_rpc_url(),
    {
        match &self.rpc_url {
            Some(url) => url.clone(),
            None => {
                let mut r = String::from_str("127.0.0.1:");
                push_decimal(&mut r, self.chain().default_rpc_port() as u64);
                r.append("/wallet/");
                r.append(self.wallet.as_str());
                r
            },
        }
    }

    /// The cookie file, given the platform and the platform directory that
    /// was found for it (`None` where none was).
    pub fn cookie_file_in(&self, platform: Platform, platform_dir: Option<String>) -> (r: Result<
        String,
        OrdError,
    >)
        ensures
            match r {
                Ok(path) => self.spec_cookie_file(
                    platform,
                    opt_view(platform_dir),
                ) == Some(path@),
                Err(e) => self.spec_cookie_file(
                    platform,
                    opt_view(platform_dir),
                ) is None && e == (OrdError::MissingDirectory { kind: platform.spec_directory_kind() }),
            },
    {
        if let Some(path) = &self.cookie_file {
            return Ok(path.clone());
        }
        let node_dir = match &self.dogecoin_data_dir {
            Some(dir) => dir.clone(),
            None => match &platform_dir {
                Some(dir) => join_path(dir.as_str(), platform.node_folder()),
                None => {
                    return Err(OrdError::MissingDirectory { kind: platform.directory_kind() });
                },
            },
        };
        let chain_dir = self.chain().join_with_data_dir(node_dir.as_str());
        Ok(join_path(chain_dir.as_str(), ".cookie"))
    }

    /// The index data directory, given the platform data directory that was
    /// found (`None` where none was).
    pub fn data_dir_in(&self, platform_data_dir: Option<String>) -> (r: Result<String, OrdError>)
        ensures
            match r {
                Ok(path) => self.spec_data_dir(
                    opt_view(platform_data_dir),
                ) == Some(path@),
                Err(e) => self.spec_data_dir(
                    opt_view(platform_data_dir),
                ) is None && e == (OrdError::MissingDirectory { kind: DirectoryKind::Data }),
            },
    {
        let base = match &self.data_dir {
            Some(base) => base.clone(),
            None => match &platform_data_dir {
                Some(dir) => join_path(dir.as_str(), "ord"),
                None => {
                    return Err(OrdError::MissingDirectory { kind: DirectoryKind::Data });
                },
            },
        };
        Ok(self.chain().join_with_data_dir(base.as_str()))
    }

    /// The configuration file that the configuration directory would hold.
    pub fn config_dir_file(&self) -> (r: Option<String>)
        ensures
            match r {
                Some(p) => self.spec_config_dir_file() == Some(p@),
                None => self.spec_config_dir_file() is None,
            },
    {
        match &self.config_dir {
            Some(dir) => Some(join_path(dir.as_str(), "ord.yaml")),
            None => None,
        }
    }

    /// The one configuration file to read, if any, given whether the
    /// configuration directory's file exists.
    pub fn config_source(&self, dir_file_exists: bool) -> (r: Option<String>)
        ensures
            match r {
                Some(p) => self.spec_config_source(dir_file_exists) == Some(p@),
                None => self.spec_config_source(dir_file_exists) is None,
            },
    {
        match &self.config {
            Some(path) => Some(path.clone()),
            None => if dir_file_exists {
                self.config_dir_file()
            } else {
                None
            },
        }
    }
}

impl Default for Options {
    /// No overrides, mainnet, and the default wallet.
    fn default() -> (r: Options)
        ensures
            r.wallet@ == spec_default_wallet(),
            r.chain_argument == Chain::Mainnet,
            !r.signet && !r.regtest && !r.testnet && !r.index_sats,
            r.dogecoin_data_dir is None && r.config is None && r.config_dir is None,
            r.cookie_file is None && r.data_dir is None && r.index is None && r.rpc_url is None,
            r.first_inscription_height is None && r.height_limit is None,
    {
        Options {
            dogecoin_data_dir: None,
            chain_argument: Chain::Mainnet,
            config: None,
            config_dir: None,
            cookie_file: None,
            data_dir: None,
            first_inscription_height: None,
            height_limit: None,
            index: None,
            index_sats: false,
            regtest: false,
            rpc_url: None,
            signet: false,
            testnet: false,
            wallet: String::from_str("ord"),
        }
    }
}

} // verus!
