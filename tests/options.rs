use ord::chain::Chain;
use ord::config::Config;
use ord::error::{DirectoryKind, OrdError};
use ord::options::{Options, Platform};

fn with_chain(chain: Chain) -> Options {
    let mut options = Options::default();
    options.chain_argument = chain;
    options
}

#[test]
fn rpc_url_overrides_network() {
    let mut options = with_chain(Chain::Signet);
    options.rpc_url = Some("127.0.0.1:1234".to_string());
    assert_eq!(options.rpc_url(), "127.0.0.1:1234");
}

#[test]
fn cookie_file_overrides_network() {
    let mut options = with_chain(Chain::Signet);
    options.cookie_file = Some("/foo/bar".to_string());
    assert_eq!(options.cookie_file(Platform::Linux).unwrap(), "/foo/bar");
    assert_eq!(options.cookie_file(Platform::Other).unwrap(), "/foo/bar");
}

#[test]
fn use_default_network() {
    let options = Options::default();
    assert_eq!(options.rpc_url(), "127.0.0.1:22555/wallet/ord");
    assert!(options.cookie_file(Platform::Linux).unwrap().ends_with(".cookie"));
}

#[test]
fn uses_network_defaults() {
    let options = with_chain(Chain::Signet);
    assert_eq!(options.rpc_url(), "127.0.0.1:38332/wallet/ord");
    assert!(options
        .cookie_file(Platform::Linux)
        .unwrap()
        .ends_with("/signet/.cookie"));
}

#[test]
fn mainnet_cookie_file_path() {
    let cookie_file = Options::default().cookie_file(Platform::Linux).unwrap();
    assert!(cookie_file.ends_with("/.dogecoin/.cookie"), "{cookie_file}");
    let cookie_file = Options::default().cookie_file(Platform::Other).unwrap();
    assert!(cookie_file.ends_with("/Dogecoin/.cookie"), "{cookie_file}");
}

#[test]
fn othernet_cookie_file_path() {
    let options = with_chain(Chain::Signet);
    let cookie_file = options.cookie_file(Platform::Linux).unwrap();
    assert!(cookie_file.ends_with("/.dogecoin/signet/.cookie"), "{cookie_file}");
    let cookie_file = options.cookie_file(Platform::Other).unwrap();
    assert!(cookie_file.ends_with("/Dogecoin/signet/.cookie"), "{cookie_file}");
}

#[test]
fn cookie_file_defaults_to_dogecoin_data_dir() {
    let mut options = with_chain(Chain::Signet);
    options.dogecoin_data_dir = Some("foo".to_string());
    let cookie_file = options.cookie_file(Platform::Linux).unwrap();
    assert!(cookie_file.ends_with("foo/signet/.cookie"), "{cookie_file}");
    assert_eq!(cookie_file, "foo/signet/.cookie");
}

#[test]
fn mainnet_data_dir() {
    let data_dir = Options::default().data_dir().unwrap();
    assert!(data_dir.ends_with("/ord"), "{data_dir}");
}

#[test]
fn othernet_data_dir() {
    let data_dir = with_chain(Chain::Signet).data_dir().unwrap();
    assert!(data_dir.ends_with("/ord/signet"), "{data_dir}");
}

#[test]
fn network_is_joined_with_data_dir() {
    let mut options = with_chain(Chain::Signet);
    options.data_dir = Some("foo".to_string());
    let data_dir = options.data_dir().unwrap();
    assert!(data_dir.ends_with("foo/signet"), "{data_dir}");
    assert_eq!(data_dir, "foo/signet");
}

#[test]
fn network_accepts_aliases() {
    fn check_network_alias(chain: Chain, suffix: &str) {
        let data_dir = with_chain(chain).data_dir().unwrap();
        assert!(data_dir.ends_with(suffix), "{data_dir}");
    }

    check_network_alias(Chain::Mainnet, "ord");
    check_network_alias(Chain::Regtest, "ord/regtest");
    check_network_alias(Chain::Signet, "ord/signet");
    check_network_alias(Chain::Testnet, "ord/testnet3");
}

#[test]
fn chain_flags() {
    let mut options = with_chain(Chain::Signet);
    options.signet = true;
    assert!(matches!(options.resolve_chain(), Err(OrdError::ConflictingChains)));
    let mut options = Options::default();
    options.signet = true;
    assert_eq!(options.resolve_chain().unwrap(), Chain::Signet);
    assert_eq!(options.chain(), Chain::Signet);

    let mut options = with_chain(Chain::Signet);
    options.regtest = true;
    assert!(matches!(options.resolve_chain(), Err(OrdError::ConflictingChains)));
    let mut options = Options::default();
    options.regtest = true;
    assert_eq!(options.resolve_chain().unwrap(), Chain::Regtest);
    assert_eq!(options.chain(), Chain::Regtest);

    let mut options = with_chain(Chain::Signet);
    options.testnet = true;
    assert!(matches!(options.resolve_chain(), Err(OrdError::ConflictingChains)));
    let mut options = Options::default();
    options.testnet = true;
    assert_eq!(options.resolve_chain().unwrap(), Chain::Testnet);
    assert_eq!(options.chain(), Chain::Testnet);
}

#[test]
fn two_shortcuts_conflict() {
    let mut options = Options::default();
    options.signet = true;
    options.testnet = true;
    assert!(matches!(options.resolve_chain(), Err(OrdError::ConflictingChains)));
    assert_eq!(with_chain(Chain::Regtest).resolve_chain().unwrap(), Chain::Regtest);
    assert_eq!(Options::default().resolve_chain().unwrap(), Chain::Mainnet);
}

#[test]
fn wallet_flag_overrides_default_name() {
    assert_eq!(Options::default().wallet, "ord");
    let mut options = Options::default();
    options.wallet = "foo".to_string();
    assert_eq!(options.wallet, "foo");
    assert_eq!(options.rpc_url(), "127.0.0.1:22555/wallet/foo");
}

#[test]
fn default_config_is_returned_if_config_option_is_not_passed() {
    let options = Options::default();
    assert_eq!(options.config_source(false), None);
    assert_eq!(options.config_source(true), None);
    assert_eq!(Config::default().hidden_count(), 0);
}

#[test]
fn config_is_loaded_from_config_option_path() {
    let id = "8d363b28528b0cb86b5fd48615493fb175bdf132d2a3d20b4251bba3f130a5abi0".to_string();
    let mut options = Options::default();
    options.config = Some("/tmp/dir/ord.yaml".to_string());
    assert_eq!(options.config_source(false), Some("/tmp/dir/ord.yaml".to_string()));
    let config = Config::new(vec![id.clone()]);
    assert_eq!(config.hidden_count(), 1);
    assert!(config.is_hidden(&id));
}

#[test]
fn config_is_loaded_from_config_dir_option_path() {
    let id = "8d363b28528b0cb86b5fd48615493fb175bdf132d2a3d20b4251bba3f130a5abi0".to_string();
    let mut options = Options::default();
    options.config_dir = Some("/tmp/dir".to_string());
    assert_eq!(options.config_dir_file(), Some("/tmp/dir/ord.yaml".to_string()));
    assert_eq!(options.config_source(true), Some("/tmp/dir/ord.yaml".to_string()));
    assert_eq!(options.config_source(false), None);
    let config = Config::new(vec![id.clone()]);
    assert_eq!(config.hidden(), &vec![id]);
}

#[test]
fn explicit_config_wins_over_config_dir() {
    let mut options = Options::default();
    options.config = Some("a.yaml".to_string());
    options.config_dir = Some("dir".to_string());
    assert_eq!(options.config_source(true), Some("a.yaml".to_string()));
}

#[test]
fn config_keeps_each_identifier_once() {
    let config = Config::new(vec!["a".to_string(), "b".to_string(), "a".to_string()]);
    assert_eq!(config.hidden_count(), 2);
    assert!(config.is_hidden(&"a".to_string()));
    assert!(config.is_hidden(&"b".to_string()));
    assert!(!config.is_hidden(&"c".to_string()));
}

#[test]
fn cookie_file_in_platform_directories() {
    let options = Options::default();
    assert_eq!(
        options.cookie_file_in(Platform::Linux, Some("/home/u".to_string())).unwrap(),
        "/home/u/.dogecoin/.cookie"
    );
    assert_eq!(
        with_chain(Chain::Testnet)
            .cookie_file_in(Platform::Other, Some("/data/".to_string()))
            .unwrap(),
        "/data/Dogecoin/testnet3/.cookie"
    );
    let err = options.cookie_file_in(Platform::Linux, None).unwrap_err();
    assert!(matches!(err, OrdError::MissingDirectory { kind: DirectoryKind::Home }));
    assert_eq!(err.message(), "failed to retrieve home dir");
    let err = options.cookie_file_in(Platform::Other, None).unwrap_err();
    assert!(matches!(err, OrdError::MissingDirectory { kind: DirectoryKind::Data }));
}

#[test]
fn data_dir_in_platform_directory() {
    assert_eq!(
        with_chain(Chain::Regtest).data_dir_in(Some("/share".to_string())).unwrap(),
        "/share/ord/regtest"
    );
    assert_eq!(Options::default().data_dir_in(Some("/share".to_string())).unwrap(), "/share/ord");
    let err = Options::default().data_dir_in(None).unwrap_err();
    assert_eq!(err.message(), "failed to retrieve data dir");
}

#[test]
fn first_inscription_height_by_chain() {
    assert_eq!(Options::default().first_inscription_height(false), 4609723);
    assert_eq!(Options::default().first_inscription_height(true), 0);
    assert_eq!(with_chain(Chain::Regtest).first_inscription_height(false), 0);
    let mut options = with_chain(Chain::Regtest);
    options.first_inscription_height = Some(7);
    assert_eq!(options.first_inscription_height(true), 7);
    let mut options = with_chain(Chain::Signet);
    options.first_inscription_height = Some(9);
    assert_eq!(options.first_inscription_height(false), 9);
    assert_eq!(options.first_inscription_height(true), 0);
}

#[test]
fn regtest_and_testnet_endpoints() {
    assert_eq!(with_chain(Chain::Regtest).rpc_url(), "127.0.0.1:18332/wallet/ord");
    assert_eq!(with_chain(Chain::Testnet).rpc_url(), "127.0.0.1:44555/wallet/ord");
}
