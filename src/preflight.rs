//! Checks made before a wallet command runs: the node's version, and the
//! shape of the wallet's output descriptors.

use vstd::prelude::*;
use vstd::string::*;

use crate::error::OrdError;
use crate::options::{bool_count, Options};
use crate::text::{decimal, has_prefix, push_decimal, starts_with, string_views};

verus! {

/// The oldest node version that wallet commands support.
pub const MIN_VERSION: usize = 1140600;

/// A node version number written as four dotted parts.
pub open spec fn spec_version_text(version: nat) -> Seq<char> {
    decimal(version / 1000000) + "."@ + decimal(version % 1000000 / 10000) + "."@
        + decimal(version % 10000 / 100) + "."@ + decimal(version % 100)
}

/// How many of the descriptors begin with `prefix`.
pub open spec fn count_prefixed(descriptors: Seq<Seq<char>>, prefix: Seq<char>) -> nat
    decreases descriptors.len(),
{
    if descriptors.len() == 0 {
        0
    } else {
        count_prefixed(descriptors.drop_last(), prefix) + bool_count(
            has_prefix(descriptors.last(), prefix),
        )
    }
}

/// The descriptors of a wallet made by this tool: exactly two taproot
/// descriptors, and besides them only raw taproot ones.
pub open spec fn is_ord_wallet(descriptors: Seq<Seq<char>>) -> bool {
    count_prefixed(descriptors, "tr("@) == 2 && descriptors.len() == 2 + count_prefixed(
        descriptors,
        "rawtr("@,
    )
}

impl Options {
    pub fn format_dogecoin_core_version(version: usize) -> (r: String)
        ensures
            r@ == spec_version_text(version as nat),
    {
        let v = version as u64;
        let mut r = String::new();
        push_decimal(&mut r, v / 1000000);
        r.append(".");
        push_decimal(&mut r, v % 1000000 / 10000);
        r.append(".");
        push_decimal(&mut r, v % 10000 / 100);
        r.append(".");
        push_decimal(&mut r, v % 100);
        proof {
            assert(r@ =~= spec_version_text(version as nat));
        }
        r
    }
}

/// Refuses a node older than `MIN_VERSION`, naming both versions.
pub fn check_core_version(version: usize) -> (r: Result<(), OrdError>)
    ensures
        r is Ok <==> version >= MIN_VERSION,
        match r {
            Ok(_) => true,
            Err(e) => match e {
                OrdError::Version { required, actual } => required@ == spec_version_text(
                    MIN_VERSION as nat,
                ) && actual@ == spec_version_text(version as nat),
                _ => false,
            },
        },
{
    if version < MIN_VERSION {
        Err(
            OrdError::Version {
                required: Options::format_dogecoin_core_version(MIN_VERSION),
                actual: Options::format_dogecoin_core_version(version),
            },
        )
    } else {
        Ok(())
    }
}

/// Accepts the wallet only where its descriptors are those of a wallet made
/// by this tool.
pub fn check_wallet_descriptors(wallet: &String, descriptors: &Vec<String>) -> (r: Result<
    (),
    OrdError,
>)
    ensures
        r is Ok <==> is_ord_wallet(string_views(descriptors@)),
        match r {
            Ok(_) => true,
            Err(e) => match e {
                OrdError::UnexpectedDescriptors { wallet: w } => w@ == wallet@,
                _ => false,
            },
        },
{
    let ghost views = string_views(descriptors@);
    let mut tr: usize = 0;
    let mut rawtr: usize = 0;
    let mut i: usize = 0;
    while i < descriptors.len()
        invariant
            i <= descriptors@.len(),
            views == string_views(descriptors@),
            tr == count_prefixed(views.subrange(0, i as int), "tr("@),
            rawtr == count_prefixed(views.subrange(0, i as int), "rawtr("@),
            tr <= i,
            rawtr <= i,
        decreases descriptors@.len() - i,
    {
        let d = descriptors[i].as_str();
        proof {
            let next = views.subrange(0, i + 1);
            assert(next.drop_last() =~= views.subrange(0, i as int));
            assert(next.last() == d@);
        }
        if starts_with(d, "tr(") {
            tr = tr + 1;
        }
        if starts_with(d, "rawtr(") {
            rawtr = rawtr + 1;
        }
        i = i + 1;
    }
    assert(views.subrange(0, i as int) =~= views);
    if tr != 2 || descriptors.len() < 2 || descriptors.len() - 2 != rawtr {
        Err(OrdError::UnexpectedDescriptors { wallet: wallet.clone() })
    } else {
        Ok(())
    }
}

} // verus!
