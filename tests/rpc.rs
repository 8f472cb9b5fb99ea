use ord::chain::Chain;
use ord::error::{DirectoryKind, ErrorKind, OrdError};
use ord::options::Options;
use ord::preflight::{check_core_version, check_wallet_descriptors, MIN_VERSION};
use ord::rpc::check_rpc_chain;
use ord::text::{join_path, starts_with, str_eq};

#[test]
fn rpc_server_chain_must_match() {
    let err = check_rpc_chain("test", Chain::Mainnet).unwrap_err();
    assert_eq!(err.message(), "Dogecoin RPC server is on testnet but ord is on mainnet");
}

#[test]
fn rpc_chain_names() {
    assert_eq!(check_rpc_chain("main", Chain::Mainnet).unwrap(), Chain::Mainnet);
    assert_eq!(check_rpc_chain("test", Chain::Testnet).unwrap(), Chain::Testnet);
    assert_eq!(check_rpc_chain("signet", Chain::Signet).unwrap(), Chain::Signet);
    assert_eq!(check_rpc_chain("regtest", Chain::Regtest).unwrap(), Chain::Regtest);
    let err = check_rpc_chain("regtest", Chain::Signet).unwrap_err();
    assert!(matches!(err, OrdError::ChainMismatch { rpc: Chain::Regtest, ord: Chain::Signet }));
    let err = check_rpc_chain("dogenet", Chain::Mainnet).unwrap_err();
    assert_eq!(err.message(), "Dogecoin RPC server on unknown chain: dogenet");
}

#[test]
fn core_version_format() {
    assert_eq!(Options::format_dogecoin_core_version(1140600), "1.14.6.0");
    assert_eq!(Options::format_dogecoin_core_version(1021503), "1.2.15.3");
    assert_eq!(Options::format_dogecoin_core_version(0), "0.0.0.0");
}

#[test]
fn core_version_minimum() {
    assert!(check_core_version(MIN_VERSION).is_ok());
    assert!(check_core_version(1210000).is_ok());
    let err = check_core_version(1140500).unwrap_err();
    assert_eq!(
        err.message(),
        "Dogecoin Core 1.14.6.0 or newer required, current version is 1.14.5.0"
    );
}

fn strings(items: &[&str]) -> Vec<String> {
    items.iter().map(|s| s.to_string()).collect()
}

#[test]
fn wallet_descriptor_shapes() {
    let wallet = "ord".to_string();
    assert!(check_wallet_descriptors(&wallet, &strings(&["tr(a)", "tr(b)"])).is_ok());
    assert!(check_wallet_descriptors(&wallet, &strings(&["tr(a)", "rawtr(c)", "tr(b)"])).is_ok());
    assert!(check_wallet_descriptors(&wallet, &strings(&["tr(a)"])).is_err());
    assert!(check_wallet_descriptors(&wallet, &strings(&[])).is_err());
    assert!(check_wallet_descriptors(&wallet, &strings(&["tr(a)", "tr(b)", "tr(c)"])).is_err());
    assert!(check_wallet_descriptors(&wallet, &strings(&["tr(a)", "tr(b)", "wpkh(c)"])).is_err());
    let err = check_wallet_descriptors(&"foo".to_string(), &strings(&["wpkh(a)", "tr(b)"]))
        .unwrap_err();
    assert!(matches!(&err, OrdError::UnexpectedDescriptors { wallet } if wallet == "foo"));
    assert!(err.message().starts_with("wallet \"foo\" contains unexpected output descriptors"));
}

#[test]
fn text_helpers() {
    assert_eq!(join_path("a", "b"), "a/b");
    assert_eq!(join_path("a/", "b"), "a/b");
    assert_eq!(join_path("", "b"), "b");
    assert!(starts_with("rawtr(x)", "rawtr("));
    assert!(!starts_with("tr(", "rawtr("));
    assert!(str_eq("main", "main"));
    assert!(!str_eq("main", "mainnet"));
}

#[test]
fn chain_names_and_ports() {
    assert_eq!(Chain::Testnet.name(), "testnet");
    assert_eq!(Chain::Mainnet.default_rpc_port(), 22555);
    assert_eq!(Chain::Signet.default_rpc_port(), 38332);
    assert_eq!(Chain::from_rpc_name("test"), Some(Chain::Testnet));
    assert_eq!(Chain::from_rpc_name("testnet"), None);
    assert_eq!(Chain::Testnet.join_with_data_dir("x"), "x/testnet3");
    assert_eq!(Chain::Mainnet.join_with_data_dir("x"), "x");
}

#[test]
fn descriptor_texts_of_listdescriptors_answer() {
    let answer: serde_json::Value = serde_json::from_str(
        r#"{"wallet_name":"ord","descriptors":[{"desc":"tr(a)#x","active":true},{"desc":"rawtr(b)"}]}"#,
    )
    .unwrap();
    assert_eq!(
        ord::rpc::descriptor_texts(&answer),
        Some(vec!["tr(a)#x".to_string(), "rawtr(b)".to_string()])
    );
    let malformed: serde_json::Value =
        serde_json::from_str(r#"{"descriptors":[{"active":true}]}"#).unwrap();
    assert_eq!(ord::rpc::descriptor_texts(&malformed), None);
    let missing: serde_json::Value = serde_json::from_str(r#"{"wallet_name":"ord"}"#).unwrap();
    assert_eq!(ord::rpc::descriptor_texts(&missing), None);
}

#[test]
fn error_kinds_and_cookie_path_context() {
    let err = OrdError::CookieFilePath { kind: DirectoryKind::Home };
    assert_eq!(
        err.message(),
        "failed to get cookie file path: failed to retrieve home dir"
    );
    assert_eq!(err.kind(), ErrorKind::Configuration);
    assert_eq!(OrdError::ConflictingChains.kind(), ErrorKind::Usage);
    assert_eq!(OrdError::Rpc { cause: "x".to_string() }.kind(), ErrorKind::Connection);
    assert_eq!(check_core_version(1).unwrap_err().kind(), ErrorKind::Version);
    assert_eq!(
        check_rpc_chain("test", Chain::Mainnet).unwrap_err().kind(),
        ErrorKind::Configuration
    );
}

#[test]
fn descriptor_texts_then_wallet_check() {
    let answer: serde_json::Value = serde_json::from_str(
        r#"{"descriptors":[{"desc":"tr(a)"},{"desc":"tr(b)"},{"desc":"wpkh(c)"}]}"#,
    )
    .unwrap();
    let texts = ord::rpc::descriptor_texts(&answer).unwrap();
    let err = check_wallet_descriptors(&"foo".to_string(), &texts).unwrap_err();
    assert!(matches!(&err, OrdError::UnexpectedDescriptors { wallet } if wallet == "foo"));
    assert!(err.message().ends_with("create a new wallet with `ord wallet create`"));
}
