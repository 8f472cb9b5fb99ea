//! Properties that relate the settings to one another.

use vstd::prelude::*;

use crate::chain::Chain;
use crate::error::OrdError;
use crate::options::{spec_cookie_name, spec_config_name, spec_ord_folder, Options, Platform};
use crate::preflight::{count_prefixed, is_ord_wallet};
use crate::text::{decimal, has_prefix, path_join, string_views};

verus! {

/// A `chain_argument` other than mainnet together with any shortcut, or two
/// shortcuts, are refused; a lone choice selects exactly its chain.
pub proof fn lemma_chain_choices(o: Options)
    ensures
        o.chain_argument != Chain::Mainnet && (o.signet || o.regtest || o.testnet)
            ==> o.spec_resolved_chain() is None,
        (o.signet && o.regtest) || (o.signet && o.testnet) || (o.regtest && o.testnet)
            ==> o.spec_resolved_chain() is None,
        !o.signet && !o.regtest && !o.testnet ==> o.spec_resolved_chain() == Some(o.chain_argument),
        o.chain_argument == Chain::Mainnet && o.signet && !o.regtest && !o.testnet
            ==> o.spec_resolved_chain() == Some(Chain::Signet),
        o.chain_argument == Chain::Mainnet && !o.signet && o.regtest && !o.testnet
            ==> o.spec_resolved_chain() == Some(Chain::Regtest),
        o.chain_argument == Chain::Mainnet && !o.signet && !o.regtest && o.testnet
            ==> o.spec_resolved_chain() == Some(Chain::Testnet),
{
}

/// An explicit RPC endpoint is used as given, whatever the chain.
pub proof fn lemma_rpc_url_override(o: Options, url: String)
    requires
        o.rpc_url == Some(url),
    ensures
        o.spec_rpc_url() == url@,
{
}

/// An explicit cookie file is used as given, whatever the chain, platform
/// or directories.
pub proof fn lemma_cookie_file_override(
    o: Options,
    path: String,
    platform: Platform,
    platform_dir: Option<Seq<char>>,
)
    requires
        o.cookie_file == Some(path),
    ensures
        o.spec_cookie_file(platform, platform_dir) == Some(path@),
{
}

/// Without overrides and with the default wallet, mainnet and signet use
/// the local node's wallet endpoint on their default ports.
pub proof fn lemma_default_endpoints(o: Options)
    requires
        o.rpc_url is None,
        o.wallet@ == "ord"@,
    ensures
        o.spec_chain() == Chain::Mainnet ==> o.spec_rpc_url() == "127.0.0.1:22555/wallet/ord"@,
        o.spec_chain() == Chain::Signet ==> o.spec_rpc_url() == "127.0.0.1:38332/wallet/ord"@,
{
    reveal_strlit("127.0.0.1:22555/wallet/ord");
    reveal_strlit("127.0.0.1:38332/wallet/ord");
    reveal_strlit("127.0.0.1:");
    reveal_strlit("/wallet/");
    reveal_strlit("ord");
    reveal_with_fuel(decimal, 6);
    assert(decimal(22555) =~= seq!['2', '2', '5', '5', '5']);
    assert(decimal(38332) =~= seq!['3', '8', '3', '3', '2']);
    assert(o.spec_chain() == Chain::Mainnet ==> o.spec_rpc_url() =~= "127.0.0.1:22555/wallet/ord"@);
    assert(o.spec_chain() == Chain::Signet ==> o.spec_rpc_url() =~= "127.0.0.1:38332/wallet/ord"@);
}

/// Without overrides the cookie file sits in the platform's node folder,
/// directly on mainnet and under the chain's segment elsewhere; testnet's
/// segment is `testnet3`.
pub proof fn lemma_cookie_paths(o: Options, platform: Platform, dir: Seq<char>)
    requires
        o.cookie_file is None,
        o.dogecoin_data_dir is None,
    ensures
        ({
            let base = path_join(dir, platform.spec_node_folder());
            &&& o.spec_chain() == Chain::Mainnet ==> o.spec_cookie_file(platform, Some(dir))
                == Some(path_join(base, spec_cookie_name()))
            &&& o.spec_chain() != Chain::Mainnet ==> o.spec_cookie_file(platform, Some(dir))
                == Some(path_join(path_join(base, o.spec_chain().spec_segment()->0), spec_cookie_name()))
            &&& o.spec_chain() == Chain::Testnet ==> o.spec_chain().spec_segment()->0 == "testnet3"@
        }),
        o.spec_cookie_file(platform, None) is None,
{
}

/// The data directory follows the same segment rule, and an explicit base
/// is joined with the segment just as the platform default would be.
pub proof fn lemma_data_dir_segments(o: Options, dir: Seq<char>)
    ensures
        ({
            let base = match o.data_dir {
                Some(b) => b@,
                None => path_join(dir, spec_ord_folder()),
            };
            &&& o.spec_chain() == Chain::Mainnet ==> o.spec_data_dir(Some(dir)) == Some(base)
            &&& o.spec_chain() != Chain::Mainnet ==> o.spec_data_dir(Some(dir)) == Some(
                path_join(base, o.spec_chain().spec_segment()->0),
            )
        }),
{
}

/// With neither a file nor a directory no configuration is read; an
/// explicit file is read as given; and a directory holding the conventional
/// file has the same file read as when that file is given explicitly.
pub proof fn lemma_config_source(o: Options, explicit: Options, dir_file_exists: bool)
    requires
        o.config is None,
    ensures
        o.config_dir is None ==> o.spec_config_source(dir_file_exists) is None,
        o.config_dir is Some && !dir_file_exists ==> o.spec_config_source(dir_file_exists) is None,
        ({
            match (o.config_dir, explicit.config) {
                (Some(dir), Some(file)) => file@ == path_join(dir@, spec_config_name())
                    ==> o.spec_config_source(true) == explicit.spec_config_source(dir_file_exists),
                _ => true,
            }
        }),
        explicit.config is Some ==> explicit.spec_config_source(dir_file_exists) == Some(
            explicit.config->0@,
        ),
{
}

/// A configuration made of one identifier hides exactly that identifier.
pub proof fn lemma_single_hidden(ids: Seq<String>)
    requires
        ids.len() == 1,
    ensures
        string_views(ids).to_set() == set![ids[0]@],
{
    let empty = Seq::<Seq<char>>::empty();
    assert(string_views(ids) =~= empty.push(ids[0]@));
    empty.lemma_push_to_set_commute(ids[0]@);
    assert(empty.to_set() =~= Set::<Seq<char>>::empty());
    assert(string_views(ids).to_set() =~= set![ids[0]@]);
}

/// A chain mismatch names the node's chain first, then the local one.
pub proof fn lemma_mismatch_message(rpc: Chain, ord: Chain)
    ensures
        (OrdError::ChainMismatch { rpc, ord }).spec_message() == "Dogecoin RPC server is on "@
            + rpc.spec_name() + " but ord is on "@ + ord.spec_name(),
{
}

/// Two taproot descriptors and nothing else make a wallet of this tool.
pub proof fn lemma_two_taproot_descriptors(descriptors: Seq<Seq<char>>)
    requires
        descriptors.len() == 2,
        has_prefix(descriptors[0], "tr("@),
        has_prefix(descriptors[1], "tr("@),
    ensures
        is_ord_wallet(descriptors),
{
    reveal_strlit("tr(");
    reveal_strlit("rawtr(");
    assert(descriptors[0][0] == 't') by {
        assert(descriptors[0].subrange(0, 3)[0] == descriptors[0][0]);
    }
    assert(descriptors[1][0] == 't') by {
        assert(descriptors[1].subrange(0, 3)[0] == descriptors[1][0]);
    }
    assert(!has_prefix(descriptors[0], "rawtr("@)) by {
        if has_prefix(descriptors[0], "rawtr("@) {
            assert(descriptors[0].subrange(0, 6)[0] == descriptors[0][0]);
        }
    }
    assert(!has_prefix(descriptors[1], "rawtr("@)) by {
        if has_prefix(descriptors[1], "rawtr("@) {
            assert(descriptors[1].subrange(0, 6)[0] == descriptors[1][0]);
        }
    }
    let first = descriptors.drop_last();
    assert(first.drop_last() =~= Seq::<Seq<char>>::empty());
    assert(first.last() == descriptors[0]);
    assert(count_prefixed(first.drop_last(), "tr("@) == 0);
    assert(count_prefixed(first.drop_last(), "rawtr("@) == 0);
    assert(count_prefixed(first, "tr("@) == 1);
    assert(count_prefixed(first, "rawtr("@) == 0);
}

proof fn lemma_prefixes_disjoint(x: Seq<char>)
    ensures
        !(has_prefix(x, "tr("@) && has_prefix(x, "rawtr("@)),
{
    reveal_strlit("tr(");
    reveal_strlit("rawtr(");
    if has_prefix(x, "tr("@) && has_prefix(x, "rawtr("@) {
        assert(x.subrange(0, 3)[0] == x[0]);
        assert(x.subrange(0, 6)[0] == x[0]);
    }
}

proof fn lemma_counts_bounded(d: Seq<Seq<char>>, i: int)
    ensures
        count_prefixed(d, "tr("@) + count_prefixed(d, "rawtr("@) <= d.len(),
        0 <= i < d.len() && !has_prefix(d[i], "tr("@) && !has_prefix(d[i], "rawtr("@)
            ==> count_prefixed(d, "tr("@) + count_prefixed(d, "rawtr("@) < d.len(),
    decreases d.len(),
{
    if d.len() > 0 {
        lemma_counts_bounded(d.drop_last(), i);
        lemma_prefixes_disjoint(d.last());
        if 0 <= i < d.len() - 1 {
            assert(d.drop_last()[i] == d[i]);
        }
    }
}

/// A wallet holding any descriptor that is neither a taproot nor a raw
/// taproot one is not a wallet of this tool.
pub proof fn lemma_other_descriptor_refused(descriptors: Seq<Seq<char>>, i: int)
    requires
        0 <= i < descriptors.len(),
        !has_prefix(descriptors[i], "tr("@),
        !has_prefix(descriptors[i], "rawtr("@),
    ensures
        !is_ord_wallet(descriptors),
{
    lemma_counts_bounded(descriptors, i);
}

} // verus!
