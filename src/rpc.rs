//! The connection to the node's RPC interface: building the client, checking
//! the node's chain, and the wallet preflight.

use bitcoincore_rpc::RpcApi;
use vstd::prelude::*;
use vstd::string::*;

use crate::chain::Chain;
use crate::error::OrdError;
use crate::options::{opt_view, Options, Platform};
use crate::preflight::{check_core_version, check_wallet_descriptors};
use crate::text::{contains_string, string_views};

verus! {

#[verifier::external_type_specification]
#[verifier::external_body]
pub struct ExClient(bitcoincore_rpc::Client);

#[verifier::external_type_specification]
#[verifier::external_body]
pub struct ExRpcError(bitcoincore_rpc::Error);

#[verifier::external_type_specification]
#[verifier::external_body]
pub struct ExJsonValue(serde_json::Value);

/// The value that a JSON pointer designates inside a JSON value, if any.
pub uninterp spec fn json_at(v: serde_json::Value, pointer: Seq<char>) -> Option<serde_json::Value>;

/// The elements of a JSON array value; `None` for any other value.
pub uninterp spec fn json_items(v: serde_json::Value) -> Option<Seq<serde_json::Value>>;

/// The text of a JSON string value; `None` for any other value.
pub uninterp spec fn json_text_of(v: serde_json::Value) -> Option<Seq<char>>;

/// Relies on serde_json::Value::pointer: the value at a JSON pointer, if
/// any; it depends on the value and the pointer alone.
pub assume_specification<'a>[ serde_json::Value::pointer ](
    v: &'a serde_json::Value,
    pointer: &str,
) -> (r: Option<&'a serde_json::Value>)
    ensures
        match r {
            Some(x) => json_at(*v, pointer@) == Some(*x),
            None => json_at(*v, pointer@) is None,
        },
;

/// Relies on serde_json::Value::as_array: the elements of an array value,
/// `None` for any other value.
pub assume_specification<'a>[ serde_json::Value::as_array ](v: &'a serde_json::Value) -> (r:
    Option<&'a Vec<serde_json::Value>>)
    ensures
        match r {
            Some(items) => json_items(*v) == Some(items@),
            None => json_items(*v) is None,
        },
;

/// Relies on serde_json::Value::as_str: the text of a string value, `None`
/// for any other value.
pub assume_specification<'a>[ serde_json::Value::as_str ](v: &'a serde_json::Value) -> (r: Option<
    &'a str,
>)
    ensures
        match r {
            Some(text) => json_text_of(*v) == Some(text@),
            None => json_text_of(*v) is None,
        },
;

/// The `desc` text of one entry of a `listdescriptors` answer.
pub open spec fn entry_text(entry: serde_json::Value) -> Option<Seq<char>> {
    match json_at(entry, "/desc"@) {
        Some(desc) => json_text_of(desc),
        None => None,
    }
}

/// The descriptor texts of a `listdescriptors` answer: present where its
/// `descriptors` entry is an array whose every element has a string `desc`.
pub open spec fn spec_descriptor_texts(response: serde_json::Value) -> Option<Seq<Seq<char>>> {
    match json_at(response, "/descriptors"@) {
        None => None,
        Some(list) => match json_items(list) {
            None => None,
            Some(items) => if forall|i: int| 0 <= i < items.len() ==> (#[trigger] entry_text(items[i])) is Some {
                Some(Seq::new(items.len(), |i: int| entry_text(items[i])->0))
            } else {
                None
            },
        },
    }
}

/// Relies on dirs::home_dir: the user's home directory, where one is found.
#[verifier::external_body]
fn home_dir() -> (r: Option<String>) {
    dirs::home_dir().map(|p| p.to_string_lossy().into_owned())
}

/// Relies on dirs::data_dir: the user's data directory, where one is found.
#[verifier::external_body]
fn data_dir() -> (r: Option<String>) {
    dirs::data_dir().map(|p| p.to_string_lossy().into_owned())
}

/// Relies on bitcoincore_rpc::Client::new with cookie authentication: reads
/// the cookie file and builds a client for the endpoint.
#[verifier::external_body]
fn connect(rpc_url: &str, cookie_file: &str) -> (r: Result<
    bitcoincore_rpc::Client,
    bitcoincore_rpc::Error,
>) {
    bitcoincore_rpc::Client::new(
        rpc_url,
        bitcoincore_rpc::Auth::CookieFile(std::path::PathBuf::from(cookie_file)),
    )
}

/// Relies on RpcApi::get_blockchain_info: the chain name the node reports.
#[verifier::external_body]
fn blockchain_chain(client: &bitcoincore_rpc::Client) -> (r: Result<
    String,
    bitcoincore_rpc::Error,
>) {
    client.get_blockchain_info().map(|info| info.chain)
}

/// Relies on RpcApi::version: the node's version number.
#[verifier::external_body]
fn node_version(client: &bitcoincore_rpc::Client) -> (r: Result<usize, bitcoincore_rpc::Error>) {
    client.version()
}

/// Relies on RpcApi::list_wallets: the names of the wallets the node has loaded.
#[verifier::external_body]
fn list_wallets(client: &bitcoincore_rpc::Client) -> (r: Result<
    Vec<String>,
    bitcoincore_rpc::Error,
>) {
    client.list_wallets()
}

/// Relies on RpcApi::load_wallet: asks the node to load the named wallet.
#[verifier::external_body]
fn load_wallet(client: &bitcoincore_rpc::Client, wallet: &str) -> (r: Result<
    (),
    bitcoincore_rpc::Error,
>) {
    client.load_wallet(wallet).map(|_| ())
}

/// Relies on RpcApi::call: the node's answer to `listdescriptors`, as JSON.
#[verifier::external_body]
fn list_descriptors(client: &bitcoincore_rpc::Client) -> (r: Result<
    serde_json::Value,
    bitcoincore_rpc::Error,
>) {
    client.call("listdescriptors", &[])
}

fn rpc_failure(e: bitcoincore_rpc::Error) -> (r: OrdError)
    ensures
        r is Rpc,
{
    OrdError::Rpc { cause: e.to_string() }
}

/// The descriptor strings of a `listdescriptors` answer: the `desc` field of
/// each entry of its `descriptors` array, in order; `None` where the answer
/// has another shape.
pub fn descriptor_texts(response: &serde_json::Value) -> (r: Option<Vec<String>>)
    ensures
        match r {
            Some(texts) => spec_descriptor_texts(*response) == Some(string_views(texts@)),
            None => spec_descriptor_texts(*response) is None,
        },
{
    let list = match response.pointer("/descriptors") {
        Some(list) => list,
        None => {
            return None;
        },
    };
    let items = match list.as_array() {
        Some(items) => items,
        None => {
            return None;
        },
    };
    let mut out: Vec<String> = Vec::new();
    let mut i: usize = 0;
    while i < items.len()
        invariant
            i <= items@.len(),
            json_at(*response, "/descriptors"@) == Some(*list),
            json_items(*list) == Some(items@),
            out@.len() == i,
            forall|j: int| 0 <= j < i ==> (#[trigger] entry_text(items@[j])) is Some,
            forall|j: int| 0 <= j < i ==> Some(#[trigger] out@[j]@) == entry_text(items@[j]),
        decreases items.len() - i,
    {
        let text = match items[i].pointer("/desc") {
            Some(desc) => match desc.as_str() {
                Some(text) => text,
                None => {
                    assert(entry_text(items@[i as int]) is None);
                    return None;
                },
            },
            None => {
                assert(entry_text(items@[i as int]) is None);
                return None;
            },
        };
        out.push(String::from_str(text));
        i = i + 1;
    }
    proof {
        let items_v = items@;
        assert(string_views(out@) =~= Seq::new(items_v.len(), |k: int| entry_text(items_v[k])->0));
    }
    Some(out)
}

/// Compares the chain the node reports, by its RPC name, with the chain
/// selected here.
pub fn check_rpc_chain(rpc_chain_name: &str, ord_chain: Chain) -> (r: Result<Chain, OrdError>)
    ensures
        match Chain::spec_from_rpc_name(rpc_chain_name@) {
            None => match r {
                Err(OrdError::UnknownChain { name }) => name@ == rpc_chain_name@,
                _ => false,
            },
            Some(c) => if c == ord_chain {
                r == Ok::<Chain, OrdError>(c)
            } else {
                match r {
                    Err(OrdError::ChainMismatch { rpc, ord }) => rpc == c && ord == ord_chain,
                    _ => false,
                }
            },
        },
{
    match Chain::from_rpc_name(rpc_chain_name) {
        None => Err(OrdError::UnknownChain { name: String::from_str(rpc_chain_name) }),
        Some(c) => if c == ord_chain {
            Ok(c)
        } else {
            Err(OrdError::ChainMismatch { rpc: c, ord: ord_chain })
        },
    }
}

impl Options {
    /// The cookie file, looking up the platform directory only where no
    /// override makes it unnecessary.
    pub fn cookie_file(&self, platform: Platform) -> (r: Result<String, OrdError>)
        ensures
            self.cookie_file is Some || self.dogecoin_data_dir is Some ==> match r {
                Ok(p) => self.spec_cookie_file(platform, None) == Some(p@),
                Err(_) => false,
            },
            match r {
                Ok(p) => exists|d: Option<Seq<char>>| self.spec_cookie_file(platform, d) == Some(p@),
                Err(e) => self.spec_cookie_file(platform, None) is None && e == (
                OrdError::MissingDirectory { kind: platform.spec_directory_kind() }),
            },
    {
        let found = if self.cookie_file.is_some() || self.dogecoin_data_dir.is_some() {
            None
        } else {
            match platform {
                Platform::Linux => home_dir(),
                Platform::Other => data_dir(),
            }
        };
        let ghost d = opt_view(found);
        let r = self.cookie_file_in(platform, found);
        assert(r is Ok ==> self.spec_cookie_file(platform, d) == Some(r->Ok_0@));
        r
    }

    /// The index data directory, looking up the platform data directory only
    /// where no override makes it unnecessary.
    pub fn data_dir(&self) -> (r: Result<String, OrdError>)
        ensures
            self.data_dir is Some ==> match r {
                Ok(p) => self.spec_data_dir(None) == Some(p@),
                Err(_) => false,
            },
            match r {
                Ok(p) => exists|d: Option<Seq<char>>| self.spec_data_dir(d) == Some(p@),
                Err(e) => self.spec_data_dir(None) is None && e == (OrdError::MissingDirectory {
                    kind: crate::error::DirectoryKind::Data,
                }),
            },
    {
        let found = if self.data_dir.is_some() {
            None
        } else {
            data_dir()
        };
        let ghost d = opt_view(found);
        let r = self.data_dir_in(found);
        assert(r is Ok ==> self.spec_data_dir(d) == Some(r->Ok_0@));
        r
    }

    /// A client for the node, after checking that the node runs on the chain
    /// selected here.
    pub fn dogecoin_rpc_client(&self, platform: Platform) -> (r: Result<
        bitcoincore_rpc::Client,
        OrdError,
    >)
        ensures
            self.spec_cookie_file(platform, None) is Some ==> !(r matches Err(
                OrdError::CookieFilePath { .. },
            )),
            match r {
                Ok(_) => true,
                Err(OrdError::CookieFilePath { kind }) => self.spec_cookie_file(platform, None) is None
                    && kind == platform.spec_directory_kind(),
                Err(OrdError::Connection { rpc_url, cookie_file, cause: _ }) => rpc_url@
                    == self.spec_rpc_url() && exists|d: Option<Seq<char>>|
                    self.spec_cookie_file(platform, d) == Some(cookie_file@),
                Err(OrdError::ChainMismatch { rpc, ord }) => ord == self.spec_chain() && rpc != ord,
                Err(OrdError::UnknownChain { name }) => Chain::spec_from_rpc_name(name@) is None,
                Err(OrdError::Rpc { cause: _ }) => true,
                Err(_) => false,
            },
    {
        let cookie_file = match self.cookie_file(platform) {
            Ok(path) => path,
            Err(_) => {
                return Err(OrdError::CookieFilePath { kind: platform.directory_kind() });
            },
        };
        let rpc_url = self.rpc_url();
        let client = match connect(rpc_url.as_str(), cookie_file.as_str()) {
            Ok(client) => client,
            Err(e) => {
                return Err(OrdError::Connection { rpc_url, cookie_file, cause: e.to_string() });
            },
        };
        let rpc_chain = match blockchain_chain(&client) {
            Ok(name) => name,
            Err(e) => {
                return Err(rpc_failure(e));
            },
        };
        match check_rpc_chain(rpc_chain.as_str(), self.chain()) {
            Ok(_) => Ok(client),
            Err(e) => Err(e),
        }
    }

    /// A client for a wallet command: the node must be recent enough, and
    /// unless the command creates the wallet, the wallet is loaded and must
    /// have the descriptors of a wallet made by this tool.
    pub fn dogecoin_rpc_client_for_wallet_command(&self, platform: Platform, create: bool) -> (r:
        Result<bitcoincore_rpc::Client, OrdError>)
        ensures
            self.spec_cookie_file(platform, None) is Some ==> !(r matches Err(
                OrdError::CookieFilePath { .. },
            )),
            match r {
                Ok(_) => true,
                Err(OrdError::CookieFilePath { kind }) => self.spec_cookie_file(platform, None) is None
                    && kind == platform.spec_directory_kind(),
                Err(OrdError::Connection { rpc_url, cookie_file, cause: _ }) => rpc_url@
                    == self.spec_rpc_url() && exists|d: Option<Seq<char>>|
                    self.spec_cookie_file(platform, d) == Some(cookie_file@),
                Err(OrdError::ChainMismatch { rpc, ord }) => ord == self.spec_chain() && rpc != ord,
                Err(OrdError::UnknownChain { name }) => Chain::spec_from_rpc_name(name@) is None,
                Err(OrdError::Version { required, actual: _ }) => required@
                    == crate::preflight::spec_version_text(crate::preflight::MIN_VERSION as nat),
                Err(OrdError::UnexpectedDescriptors { wallet }) => !create && wallet@ == self.wallet@,
                Err(OrdError::UnexpectedResponse { call: _ }) => !create,
                Err(OrdError::Rpc { cause: _ }) => true,
                Err(_) => false,
            },
    {
        let client = self.dogecoin_rpc_client(platform)?;
        let version = match node_version(&client) {
            Ok(version) => version,
            Err(e) => {
                return Err(rpc_failure(e));
            },
        };
        check_core_version(version)?;
        if !create {
            let loaded = match list_wallets(&client) {
                Ok(loaded) => loaded,
                Err(e) => {
                    return Err(rpc_failure(e));
                },
            };
            if !contains_string(&loaded, &self.wallet) {
                if let Err(e) = load_wallet(&client, self.wallet.as_str()) {
                    return Err(rpc_failure(e));
                }
            }
            let response = match list_descriptors(&client) {
                Ok(response) => response,
                Err(e) => {
                    return Err(rpc_failure(e));
                },
            };
            let descriptors = match descriptor_texts(&response) {
                Some(descriptors) => descriptors,
                None => {
                    return Err(
                        OrdError::UnexpectedResponse { call: String::from_str("listdescriptors") },
                    );
                },
            };
            check_wallet_descriptors(&self.wallet, &descriptors)?;
        }
        Ok(client)
    }
}

} // verus!
